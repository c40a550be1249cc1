//! Laws the parser obeys, stated over its specification functions and
//! proved for all inputs of the given shape.
use vstd::prelude::*;
use crate::error::ErrV;
use crate::expression::ExprV;
use crate::expression::spec_binexp_new;
use crate::expression::spec_binary_expression;
use crate::expression::spec_binexp_rhs;
use crate::expression::spec_new_node;
use crate::expression::spec_new_with_prefix;
use crate::expression::spec_new_with_suffix;
use crate::parser::DvnV;
use crate::parser::enum_dummy_dbg;
use crate::parser::spec_enum_members;
use crate::parser::spec_get_array_type;
use crate::parser::spec_get_array_type_at_function_declare;
use crate::text::dec_str;
use crate::text::dec_val;
use crate::text::all_digits;
use crate::token::Associativity;
use crate::token::BasicTypeV;
use crate::token::DebugV;
use crate::token::Operator;
use crate::token::SuffixOp;
use crate::token::TokenV;
use crate::token::spec_property;

verus! {

/// A primary made of one identifier token: the parser takes the token and
/// stops before whatever is not a suffix or a question mark.
proof fn lemma_parse_ide(toks: Seq<TokenV>)
    requires
        toks.len() > 0,
        toks[0] is Ide,
        toks.len() > 1 ==> !(toks[1] is SuffixOp) && !(toks[1] is Question),
    ensures
        spec_new_node(toks) == Ok::<(ExprV, Seq<TokenV>), ErrV>(
            (ExprV::Token(toks[0]), toks.skip(1)),
        ),
{
    assert(spec_new_with_prefix(toks) == Ok::<(ExprV, Seq<TokenV>), ErrV>(
        (ExprV::Token(toks[0]), toks.skip(1)),
    ));
    assert(spec_new_with_suffix(ExprV::Token(toks[0]), toks.skip(1)) == Ok::<
        (ExprV, Seq<TokenV>),
        ErrV,
    >((ExprV::Token(toks[0]), toks.skip(1))));
}

/// Operator binding. For any two operators from the precedence table,
/// `a op1 b op2 c` parses with the lower-binding operator as the outer
/// node: the second operator climbs into the right-hand side exactly when
/// it binds more tightly, or equally for a right-associative first
/// operator; otherwise the left fold wins.
pub proof fn lemma_operator_binding(
    op1: Operator,
    op2: Operator,
    a: TokenV,
    b: TokenV,
    c: TokenV,
    d1: DebugV,
    d2: DebugV,
)
    requires
        a is Ide,
        b is Ide,
        c is Ide,
    ensures
        ({
            let toks = seq![a, TokenV::Op(op1, d1), b, TokenV::Op(op2, d2), c];
            let p1 = spec_property(op1).precedence;
            let p2 = spec_property(op2).precedence;
            let climbs = if spec_property(op1).associativity == Associativity::Right {
                p1 <= p2
            } else {
                p1 < p2
            };
            spec_binexp_new(toks, None) == Ok::<(ExprV, Seq<TokenV>), ErrV>(
                (
                    if climbs {
                        ExprV::BinExp(
                            TokenV::Op(op1, d1),
                            Box::new(ExprV::Token(a)),
                            Box::new(
                                ExprV::BinExp(
                                    TokenV::Op(op2, d2),
                                    Box::new(ExprV::Token(b)),
                                    Box::new(ExprV::Token(c)),
                                ),
                            ),
                        )
                    } else {
                        ExprV::BinExp(
                            TokenV::Op(op2, d2),
                            Box::new(
                                ExprV::BinExp(
                                    TokenV::Op(op1, d1),
                                    Box::new(ExprV::Token(a)),
                                    Box::new(ExprV::Token(b)),
                                ),
                            ),
                            Box::new(ExprV::Token(c)),
                        )
                    },
                    Seq::empty(),
                ),
            )
        }),
{
    let toks = seq![a, TokenV::Op(op1, d1), b, TokenV::Op(op2, d2), c];
    let t1 = toks.skip(1);
    let t2 = toks.skip(2);
    let t3 = toks.skip(3);
    let t4 = toks.skip(4);
    let t5 = toks.skip(5);
    let p1 = spec_property(op1).precedence;
    let p2 = spec_property(op2).precedence;
    let ea = ExprV::Token(a);
    let eb = ExprV::Token(b);
    let ec = ExprV::Token(c);
    assert(t1[0] == TokenV::Op(op1, d1));
    assert(t2[0] == b);
    assert(t3[0] == TokenV::Op(op2, d2));
    assert(t4[0] == c);
    assert(t5.len() == 0);
    assert(t2.skip(1) =~= t3);
    assert(t4.skip(1) =~= t5);
    assert(t1.skip(1) =~= t2);
    assert(t3.skip(1) =~= t4);
    lemma_parse_ide(toks);
    assert(spec_new_node(toks) == Ok::<(ExprV, Seq<TokenV>), ErrV>((ea, t1)));
    lemma_parse_ide(t2);
    assert(spec_new_node(t2) == Ok::<(ExprV, Seq<TokenV>), ErrV>((eb, t3)));
    lemma_parse_ide(t4);
    assert(spec_new_node(t4) == Ok::<(ExprV, Seq<TokenV>), ErrV>((ec, t5)));
    // the empty tail ends every loop
    assert(spec_binexp_rhs(ec, t5, spec_property(op2), None) == Ok::<(ExprV, Seq<TokenV>), ErrV>(
        (ec, t5),
    ));
    let climbs = if spec_property(op1).associativity == Associativity::Right {
        p1 <= p2
    } else {
        p1 < p2
    };
    if climbs {
        // the inner climb folds b op2 c first
        assert(spec_binary_expression(eb, t3, p2, None) == Ok::<(ExprV, Seq<TokenV>), ErrV>(
            (
                ExprV::BinExp(TokenV::Op(op2, d2), Box::new(eb), Box::new(ec)),
                t5,
            ),
        )) by {
            assert(spec_binexp_rhs(ec, t5, spec_property(op2), None) == Ok::<
                (ExprV, Seq<TokenV>),
                ErrV,
            >((ec, t5)));
            assert(spec_binary_expression(
                ExprV::BinExp(TokenV::Op(op2, d2), Box::new(eb), Box::new(ec)),
                t5,
                p2,
                None,
            ) == Ok::<(ExprV, Seq<TokenV>), ErrV>(
                (ExprV::BinExp(TokenV::Op(op2, d2), Box::new(eb), Box::new(ec)), t5),
            ));
        }
        let ebc = ExprV::BinExp(TokenV::Op(op2, d2), Box::new(eb), Box::new(ec));
        assert(spec_binexp_rhs(eb, t3, spec_property(op1), None) == Ok::<
            (ExprV, Seq<TokenV>),
            ErrV,
        >((ebc, t5))) by {
            assert(spec_binexp_rhs(ebc, t5, spec_property(op1), None) == Ok::<
                (ExprV, Seq<TokenV>),
                ErrV,
            >((ebc, t5)));
        }
        let tree = ExprV::BinExp(TokenV::Op(op1, d1), Box::new(ea), Box::new(ebc));
        assert(spec_binary_expression(tree, t5, 0, None) == Ok::<(ExprV, Seq<TokenV>), ErrV>(
            (tree, t5),
        ));
        assert(spec_binary_expression(ea, t1, 0, None) == Ok::<(ExprV, Seq<TokenV>), ErrV>(
            (tree, t5),
        ));
        assert(t5 =~= Seq::<TokenV>::empty());
    } else {
        // the left fold wins: a op1 b first, then op2 with c
        assert(spec_binexp_rhs(eb, t3, spec_property(op1), None) == Ok::<
            (ExprV, Seq<TokenV>),
            ErrV,
        >((eb, t3)));
        let eab = ExprV::BinExp(TokenV::Op(op1, d1), Box::new(ea), Box::new(eb));
        let tree = ExprV::BinExp(TokenV::Op(op2, d2), Box::new(eab), Box::new(ec));
        assert(spec_binary_expression(tree, t5, 0, None) == Ok::<(ExprV, Seq<TokenV>), ErrV>(
            (tree, t5),
        ));
        assert(spec_binexp_rhs(ec, t5, spec_property(op2), None) == Ok::<
            (ExprV, Seq<TokenV>),
            ErrV,
        >((ec, t5)));
        assert(spec_binary_expression(eab, t3, 0, None) == Ok::<(ExprV, Seq<TokenV>), ErrV>(
            (tree, t5),
        ));
        assert(spec_binary_expression(ea, t1, 0, None) == Ok::<(ExprV, Seq<TokenV>), ErrV>(
            (tree, t5),
        ));
        assert(t5 =~= Seq::<TokenV>::empty());
    }
}

/// Array decay. A parameter declared with an array suffix `[N]` (or `[]`)
/// is received as a pointer: the outermost dimension is stripped and a
/// pointer wraps what remains.
pub proof fn lemma_array_decay(base: BasicTypeV, n: Seq<char>, d0: DebugV, d1: DebugV, d2: DebugV)
    requires
        n.len() > 0,
        all_digits(n),
        dec_val(n) <= u32::MAX,
    ensures
        spec_get_array_type_at_function_declare(
            base,
            seq![
                TokenV::SuffixOp(SuffixOp::Index, d0),
                TokenV::IntNum(n, d1),
                TokenV::SquareE(d2),
            ],
        ) == Ok::<(BasicTypeV, Seq<TokenV>), ErrV>(
            (BasicTypeV::Pointer(Box::new(base)), Seq::empty()),
        ),
        spec_get_array_type_at_function_declare(
            base,
            seq![TokenV::SuffixOp(SuffixOp::Index, d0), TokenV::SquareE(d2)],
        ) == Ok::<(BasicTypeV, Seq<TokenV>), ErrV>(
            (BasicTypeV::Pointer(Box::new(base)), Seq::empty()),
        ),
{
    let toks = seq![
        TokenV::SuffixOp(SuffixOp::Index, d0),
        TokenV::IntNum(n, d1),
        TokenV::SquareE(d2),
    ];
    assert(toks.skip(3) =~= Seq::<TokenV>::empty());
    assert(spec_get_array_type(base, toks.skip(3)) == Ok::<(BasicTypeV, Seq<TokenV>), ErrV>(
        (base, toks.skip(3)),
    ));
    let toks2 = seq![TokenV::SuffixOp(SuffixOp::Index, d0), TokenV::SquareE(d2)];
    assert(toks2.skip(2) =~= Seq::<TokenV>::empty());
    assert(spec_get_array_type(base, toks2.skip(2)) == Ok::<(BasicTypeV, Seq<TokenV>), ErrV>(
        (base, toks2.skip(2)),
    ));
}

/// Auto enumeration. In `enum { A, B = 5, C }` the enumerators bind 0, 5
/// and 6: the first defaults to zero, an initializer sets the value, and a
/// missing one takes the previous value plus one.
pub proof fn lemma_auto_enumeration(
    a: Seq<char>,
    b: Seq<char>,
    c: Seq<char>,
    d0: DebugV,
    d1: DebugV,
    d2: DebugV,
    d3: DebugV,
    d4: DebugV,
    d5: DebugV,
    d6: DebugV,
    d7: DebugV,
)
    ensures
        ({
            let toks = seq![
                TokenV::Ide(a, d0),
                TokenV::Op(Operator::Comma, d1),
                TokenV::Ide(b, d2),
                TokenV::Op(Operator::Assign, d3),
                TokenV::IntNum(seq!['5'], d4),
                TokenV::Op(Operator::Comma, d5),
                TokenV::Ide(c, d6),
                TokenV::CurlyE(d7),
            ];
            let zero = ExprV::Token(TokenV::IntNum(seq!['0'], enum_dummy_dbg()));
            spec_enum_members(toks, zero, 0) == Ok::<(Seq<DvnV>, Seq<TokenV>), ErrV>(
                (
                    seq![
                        DvnV { value_type: BasicTypeV::Int, identifier: a, init: Some(zero) },
                        DvnV {
                            value_type: BasicTypeV::Int,
                            identifier: b,
                            init: Some(ExprV::Token(TokenV::IntNum(seq!['5'], d4))),
                        },
                        DvnV {
                            value_type: BasicTypeV::Int,
                            identifier: c,
                            init: Some(
                                ExprV::Token(TokenV::IntNum(seq!['6'], enum_dummy_dbg())),
                            ),
                        },
                    ],
                    Seq::empty(),
                ),
            )
        }),
{
    let toks = seq![
        TokenV::Ide(a, d0),
        TokenV::Op(Operator::Comma, d1),
        TokenV::Ide(b, d2),
        TokenV::Op(Operator::Assign, d3),
        TokenV::IntNum(seq!['5'], d4),
        TokenV::Op(Operator::Comma, d5),
        TokenV::Ide(c, d6),
        TokenV::CurlyE(d7),
    ];
    let zero = ExprV::Token(TokenV::IntNum(seq!['0'], enum_dummy_dbg()));
    let five = ExprV::Token(TokenV::IntNum(seq!['5'], d4));
    let six = ExprV::Token(TokenV::IntNum(seq!['6'], enum_dummy_dbg()));
    let t1 = toks.skip(1);
    let t2 = toks.skip(2);
    let t4 = toks.skip(4);
    let t5 = toks.skip(5);
    let t6 = toks.skip(6);
    let t7 = toks.skip(7);
    let t8 = toks.skip(8);
    assert(t8 =~= Seq::<TokenV>::empty());
    assert(t1.skip(1) =~= t2);
    assert(t4.skip(1) =~= t5);
    assert(t6.skip(1) =~= t7);
    assert(t7.skip(1) =~= t8);
    assert(t5.skip(1) =~= t6);
    // the third enumerator: previous value five, so it binds six
    assert(dec_val(seq!['5']) == 5) by {
        assert(seq!['5'].drop_last() =~= Seq::<char>::empty());
        assert(dec_val(Seq::<char>::empty()) == 0);
        assert(seq!['5'].last() == '5');
    }
    assert(dec_str(6) =~= seq!['6']);
    assert(all_digits(seq!['5'])) by {
        assert(seq!['5'][0] == '5');
    }
    assert(spec_enum_members(t7, six, 3) == Ok::<(Seq<DvnV>, Seq<TokenV>), ErrV>(
        (Seq::empty(), t8),
    ));
    assert(spec_enum_members(t6, five, 2) == Ok::<(Seq<DvnV>, Seq<TokenV>), ErrV>(
        (
            seq![DvnV { value_type: BasicTypeV::Int, identifier: c, init: Some(six) }],
            t8,
        ),
    )) by {
        assert(t6[0] == TokenV::Ide(c, d6));
        assert(seq![DvnV { value_type: BasicTypeV::Int, identifier: c, init: Some(six) }]
            + Seq::<DvnV>::empty() =~= seq![
            DvnV { value_type: BasicTypeV::Int, identifier: c, init: Some(six) },
        ]);
    }
    // the second enumerator: its initializer parses as the literal five
    assert(spec_new_node(t4) == Ok::<(ExprV, Seq<TokenV>), ErrV>((five, t5))) by {
        assert(spec_new_with_prefix(t4) == Ok::<(ExprV, Seq<TokenV>), ErrV>((five, t5)));
        assert(spec_new_with_suffix(five, t5) == Ok::<(ExprV, Seq<TokenV>), ErrV>((five, t5)));
    }
    assert(spec_binexp_new(t4, Some(Operator::Comma)) == Ok::<(ExprV, Seq<TokenV>), ErrV>(
        (five, t5),
    )) by {
        assert(spec_binary_expression(five, t5, 0, Some(Operator::Comma)) == Ok::<
            (ExprV, Seq<TokenV>),
            ErrV,
        >((five, t5)));
    }
    assert(spec_enum_members(t2, zero, 1) == Ok::<(Seq<DvnV>, Seq<TokenV>), ErrV>(
        (
            seq![
                DvnV { value_type: BasicTypeV::Int, identifier: b, init: Some(five) },
                DvnV { value_type: BasicTypeV::Int, identifier: c, init: Some(six) },
            ],
            t8,
        ),
    )) by {
        assert(t2[0] == TokenV::Ide(b, d2));
        assert(t2.skip(1) =~= toks.skip(3));
        assert(toks.skip(3)[0] == TokenV::Op(Operator::Assign, d3));
        assert(toks.skip(3).skip(1) =~= t4);
        assert(seq![DvnV { value_type: BasicTypeV::Int, identifier: b, init: Some(five) }] + seq![
            DvnV { value_type: BasicTypeV::Int, identifier: c, init: Some(six) },
        ] =~= seq![
            DvnV { value_type: BasicTypeV::Int, identifier: b, init: Some(five) },
            DvnV { value_type: BasicTypeV::Int, identifier: c, init: Some(six) },
        ]);
    }
    // the first enumerator defaults to zero
    assert(spec_enum_members(toks, zero, 0) == Ok::<(Seq<DvnV>, Seq<TokenV>), ErrV>(
        (
            seq![
                DvnV { value_type: BasicTypeV::Int, identifier: a, init: Some(zero) },
                DvnV { value_type: BasicTypeV::Int, identifier: b, init: Some(five) },
                DvnV { value_type: BasicTypeV::Int, identifier: c, init: Some(six) },
            ],
            t8,
        ),
    )) by {
        assert(toks[0] == TokenV::Ide(a, d0));
        assert(t1[0] == TokenV::Op(Operator::Comma, d1));
        assert(seq![DvnV { value_type: BasicTypeV::Int, identifier: a, init: Some(zero) }] + seq![
            DvnV { value_type: BasicTypeV::Int, identifier: b, init: Some(five) },
            DvnV { value_type: BasicTypeV::Int, identifier: c, init: Some(six) },
        ] =~= seq![
            DvnV { value_type: BasicTypeV::Int, identifier: a, init: Some(zero) },
            DvnV { value_type: BasicTypeV::Int, identifier: b, init: Some(five) },
            DvnV { value_type: BasicTypeV::Int, identifier: c, init: Some(six) },
        ]);
    }
}

} // verus!
