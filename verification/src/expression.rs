//! Expression AST and the Pratt expression parser: a precedence-driven
//! binary-expression loop over primaries with prefix and suffix handling.
use vstd::prelude::*;
use crate::error::CompileError;
use crate::error::ErrV;
use crate::token::DebugInfo;
use crate::token::DebugV;
use crate::token::Operator;
use crate::token::PrefixOp;
use crate::token::Property;
use crate::token::SuffixOp;
use crate::token::Token;
use crate::token::TokenV;
use crate::token::Tokens;
use crate::token::Associativity;
use crate::token::get_property;
use crate::token::spec_property;
use crate::token::tok_dbg;

verus! {

/// A leaf node wrapping one token.
#[derive(Debug, PartialEq)]
pub struct TokenNode {
    pub token: Token,
}

/// An expression tree node.
#[derive(Debug, PartialEq)]
pub enum ExpressionNode {
    BinExp(BinExpNode),
    TernaryExp(TernaryExpNode),
    Prefix(PrefixNode),
    Suffix(SuffixNode),
    ArrayIndex(ArrayIndexNode),
    FunctionCall(FunctionCallNode),
    Access(AccessNode),
    Token(TokenNode),
    Empty,
}

/// An infix application `lhs op rhs`.
#[derive(Debug, PartialEq)]
pub struct BinExpNode {
    pub op: TokenNode,
    pub lhs: Box<ExpressionNode>,
    pub rhs: Box<ExpressionNode>,
}

/// `condition ? lhs : rhs`.
#[derive(Debug, PartialEq)]
pub struct TernaryExpNode {
    pub condition: Box<ExpressionNode>,
    pub lhs: Box<ExpressionNode>,
    pub rhs: Box<ExpressionNode>,
}

/// `array[index]`.
#[derive(Debug, PartialEq)]
pub struct ArrayIndexNode {
    pub array: Box<ExpressionNode>,
    pub index: Box<ExpressionNode>,
}

/// `identifier(parameters)`; the arguments are a comma chain, or `Empty`.
#[derive(Debug, PartialEq)]
pub struct FunctionCallNode {
    pub identifier: TokenNode,
    pub parameters: Box<ExpressionNode>,
}

/// A prefix application such as `++x` or `&x`.
#[derive(Debug, PartialEq)]
pub struct PrefixNode {
    pub prefix: TokenNode,
    pub node: Box<ExpressionNode>,
}

/// A suffix application such as `x++`.
#[derive(Debug, PartialEq)]
pub struct SuffixNode {
    pub suffix: TokenNode,
    pub node: Box<ExpressionNode>,
}

/// A field access `node.access_identifier`.
#[derive(Debug, PartialEq)]
pub struct AccessNode {
    pub access_identifier: Token,
    pub node: Box<ExpressionNode>,
}

/// A bag of expression nodes.
#[derive(Debug, PartialEq)]
pub struct ExpressionNodes {
    pub nodes: Vec<ExpressionNode>,
}

/// Mathematical view of an expression tree.
pub enum ExprV {
    BinExp(TokenV, Box<ExprV>, Box<ExprV>),
    TernaryExp(Box<ExprV>, Box<ExprV>, Box<ExprV>),
    Prefix(TokenV, Box<ExprV>),
    Suffix(TokenV, Box<ExprV>),
    ArrayIndex(Box<ExprV>, Box<ExprV>),
    FunctionCall(TokenV, Box<ExprV>),
    Access(TokenV, Box<ExprV>),
    Token(TokenV),
    Empty,
}

/// Mathematical view of an expression tree, by structural recursion.
pub open spec fn expr_v(e: ExpressionNode) -> ExprV
    decreases e,
{
    match e {
        ExpressionNode::BinExp(n) => ExprV::BinExp(
            n.op.token@,
            Box::new(expr_v(*n.lhs)),
            Box::new(expr_v(*n.rhs)),
        ),
        ExpressionNode::TernaryExp(n) => ExprV::TernaryExp(
            Box::new(expr_v(*n.condition)),
            Box::new(expr_v(*n.lhs)),
            Box::new(expr_v(*n.rhs)),
        ),
        ExpressionNode::Prefix(n) => ExprV::Prefix(n.prefix.token@, Box::new(expr_v(*n.node))),
        ExpressionNode::Suffix(n) => ExprV::Suffix(n.suffix.token@, Box::new(expr_v(*n.node))),
        ExpressionNode::ArrayIndex(n) => ExprV::ArrayIndex(
            Box::new(expr_v(*n.array)),
            Box::new(expr_v(*n.index)),
        ),
        ExpressionNode::FunctionCall(n) => ExprV::FunctionCall(
            n.identifier.token@,
            Box::new(expr_v(*n.parameters)),
        ),
        ExpressionNode::Access(n) => ExprV::Access(n.access_identifier@, Box::new(expr_v(*n.node))),
        ExpressionNode::Token(n) => ExprV::Token(n.token@),
        ExpressionNode::Empty => ExprV::Empty,
    }
}

impl View for ExpressionNode {
    type V = ExprV;

    open spec fn view(&self) -> ExprV {
        expr_v(*self)
    }
}


/// The prefix form a bare `+`, `-` or `*` takes at primary position.
pub open spec fn spec_retag(op: Operator) -> PrefixOp {
    match op {
        Operator::Add => PrefixOp::Plus,
        Operator::Sub => PrefixOp::Minus,
        _ => PrefixOp::Deref,
    }
}

/// Primary parsing: a leaf token, a prefix application, or a parenthesised
/// expression. The result always consumes at least one token.
pub open spec fn spec_new_with_prefix(toks: Seq<TokenV>) -> Result<(ExprV, Seq<TokenV>), ErrV>
    decreases toks.len(), 1int,
{
    if toks.len() == 0 {
        Err(ErrV::UnexpectedEof)
    } else {
        match toks[0] {
            TokenV::Ide(_, _) | TokenV::IntNum(_, _) | TokenV::FloatNum(_, _) => Ok(
                (ExprV::Token(toks[0]), toks.skip(1)),
            ),
            TokenV::PrefixOp(_, _) => match spec_new_node(toks.skip(1)) {
                Ok((n, t)) => Ok((ExprV::Prefix(toks[0], Box::new(n)), t)),
                Err(e) => Err(e),
            },
            TokenV::Op(op, d) => if op == Operator::Add || op == Operator::Sub || op
                == Operator::Mul {
                match spec_new_node(toks.skip(1)) {
                    Ok((n, t)) => Ok(
                        (ExprV::Prefix(TokenV::PrefixOp(spec_retag(op), d), Box::new(n)), t),
                    ),
                    Err(e) => Err(e),
                }
            } else {
                Err(ErrV::UnexpectedToken(d))
            },
            TokenV::SuffixOp(sop, d) => if sop == SuffixOp::Call {
                match spec_binexp_new(toks.skip(1), None) {
                    Ok((n, t)) => if t.len() > 0 && t[0] is ParenE {
                        Ok((n, t.skip(1)))
                    } else if t.len() > 0 {
                        Err(ErrV::UnexpectedToken(tok_dbg(t[0])))
                    } else {
                        Err(ErrV::UnexpectedEof)
                    },
                    Err(e) => Err(e),
                }
            } else {
                Err(ErrV::UnexpectedToken(d))
            },
            _ => Err(ErrV::UnexpectedToken(tok_dbg(toks[0]))),
        }
    }
}

/// A primary with its suffixes applied.
pub open spec fn spec_new_node(toks: Seq<TokenV>) -> Result<(ExprV, Seq<TokenV>), ErrV>
    decreases toks.len(), 2int,
{
    match spec_new_with_prefix(toks) {
        Ok((lhs, t1)) => if t1.len() < toks.len() {
            spec_new_with_suffix(lhs, t1)
        } else {
            Err(ErrV::Unsupported)
        },
        Err(e) => Err(e),
    }
}

/// Applies suffix operators to `lhs` while they stand at the front; a `?`
/// instead opens a ternary expression.
pub open spec fn spec_new_with_suffix(lhs: ExprV, toks: Seq<TokenV>) -> Result<
    (ExprV, Seq<TokenV>),
    ErrV,
>
    decreases toks.len(), 2int,
{
    if toks.len() == 0 {
        Ok((lhs, toks))
    } else if toks[0] is SuffixOp {
        spec_suffix_chain(lhs, toks)
    } else if toks[0] is Question {
        spec_ternary_new(lhs, toks)
    } else {
        Ok((lhs, toks))
    }
}

/// One suffix application after another, as long as suffixes remain.
pub open spec fn spec_suffix_chain(lhs: ExprV, toks: Seq<TokenV>) -> Result<
    (ExprV, Seq<TokenV>),
    ErrV,
>
    decreases toks.len(), 1int,
{
    match spec_suffix_new(lhs, toks) {
        Ok((n, t)) => if t.len() < toks.len() {
            if t.len() > 0 && t[0] is SuffixOp {
                spec_suffix_chain(n, t)
            } else {
                Ok((n, t))
            }
        } else {
            Err(ErrV::Unsupported)
        },
        Err(e) => Err(e),
    }
}

/// One suffix application: postfix increment, index, call, or field access.
pub open spec fn spec_suffix_new(lhs: ExprV, toks: Seq<TokenV>) -> Result<
    (ExprV, Seq<TokenV>),
    ErrV,
>
    decreases toks.len(), 0int,
{
    if toks.len() == 0 {
        Err(ErrV::UnexpectedEof)
    } else {
        match toks[0] {
            TokenV::SuffixOp(sop, d) => match sop {
                SuffixOp::Increment => Ok((ExprV::Suffix(toks[0], Box::new(lhs)), toks.skip(1))),
                SuffixOp::Index => match spec_binexp_new(toks.skip(1), None) {
                    Ok((idx, t)) => if t.len() > 0 && t[0] is SquareE {
                        Ok((ExprV::ArrayIndex(Box::new(lhs), Box::new(idx)), t.skip(1)))
                    } else if t.len() > 0 {
                        Err(ErrV::UnexpectedToken(tok_dbg(t[0])))
                    } else {
                        Err(ErrV::UnexpectedEof)
                    },
                    Err(e) => Err(e),
                },
                SuffixOp::Call => match lhs {
                    ExprV::Token(id_tok) => if toks.len() < 2 {
                        Err(ErrV::UnexpectedEof)
                    } else if toks[1] is ParenE {
                        Ok((ExprV::FunctionCall(id_tok, Box::new(ExprV::Empty)), toks.skip(2)))
                    } else {
                        match spec_binexp_new(toks.skip(1), None) {
                            Ok((args, t)) => if t.len() > 0 && t[0] is ParenE {
                                Ok((ExprV::FunctionCall(id_tok, Box::new(args)), t.skip(1)))
                            } else if t.len() > 0 {
                                Err(ErrV::UnexpectedToken(tok_dbg(t[0])))
                            } else {
                                Err(ErrV::UnexpectedEof)
                            },
                            Err(e) => Err(e),
                        }
                    },
                    _ => Err(ErrV::UnexpectedToken(d)),
                },
                SuffixOp::Dot => if toks.len() >= 2 {
                    Ok((ExprV::Access(toks[1], Box::new(lhs)), toks.skip(2)))
                } else {
                    Err(ErrV::UnexpectedEof)
                },
            },
            _ => Err(ErrV::UnexpectedToken(tok_dbg(toks[0]))),
        }
    }
}

/// `lhs ? then : else`, entered on a `?` at the front.
pub open spec fn spec_ternary_new(lhs: ExprV, toks: Seq<TokenV>) -> Result<
    (ExprV, Seq<TokenV>),
    ErrV,
>
    decreases toks.len(), 1int,
{
    if toks.len() == 0 {
        Err(ErrV::UnexpectedEof)
    } else if !(toks[0] is Question) {
        Err(ErrV::UnexpectedToken(tok_dbg(toks[0])))
    } else {
        match spec_binexp_new(toks.skip(1), None) {
            Ok((l, t)) => if t.len() < toks.len() && t.len() > 0 && t[0] is Colon {
                match spec_binexp_new(t.skip(1), None) {
                    Ok((r, t2)) => Ok(
                        (
                            ExprV::TernaryExp(Box::new(lhs), Box::new(l), Box::new(r)),
                            t2,
                        ),
                    ),
                    Err(e) => Err(e),
                }
            } else if t.len() > 0 {
                Err(ErrV::UnexpectedToken(tok_dbg(t[0])))
            } else {
                Err(ErrV::UnexpectedEof)
            },
            Err(e) => Err(e),
        }
    }
}

/// A full expression: a primary, then the precedence loop; `break_op` stops
/// the loop at a chosen operator.
pub open spec fn spec_binexp_new(toks: Seq<TokenV>, break_op: Option<Operator>) -> Result<
    (ExprV, Seq<TokenV>),
    ErrV,
>
    decreases toks.len(), 3int,
{
    match spec_new_node(toks) {
        Ok((lhs, t1)) => if t1.len() < toks.len() {
            spec_binary_expression(lhs, t1, 0, break_op)
        } else {
            Err(ErrV::Unsupported)
        },
        Err(e) => Err(e),
    }
}

/// The outer precedence loop: while an operator of sufficient precedence
/// stands at the front, consume it, parse the right-hand side, and fold.
pub open spec fn spec_binary_expression(
    lhs: ExprV,
    toks: Seq<TokenV>,
    min_precedence: u32,
    break_op: Option<Operator>,
) -> Result<(ExprV, Seq<TokenV>), ErrV>
    decreases toks.len(), 2int,
{
    if toks.len() == 0 {
        Ok((lhs, toks))
    } else {
        match toks[0] {
            TokenV::Op(op, d) => {
                if break_op == Some(op) {
                    Ok((lhs, toks))
                } else if spec_property(op).precedence < min_precedence {
                    Ok((lhs, toks))
                } else {
                    match spec_new_node(toks.skip(1)) {
                        Err(e) => Err(e),
                        Ok((rhs0, t2)) => if t2.len() < toks.len() {
                            match spec_binexp_rhs(rhs0, t2, spec_property(op), break_op) {
                                Err(e) => Err(e),
                                Ok((rhs, t3)) => if t3.len() < toks.len() {
                                    spec_binary_expression(
                                        ExprV::BinExp(toks[0], Box::new(lhs), Box::new(rhs)),
                                        t3,
                                        min_precedence,
                                        break_op,
                                    )
                                } else {
                                    Err(ErrV::Unsupported)
                                },
                            }
                        } else {
                            Err(ErrV::Unsupported)
                        },
                    }
                }
            },
            _ => Ok((lhs, toks)),
        }
    }
}

/// The inner climb: while the next operator binds more tightly than the one
/// being folded (or equally, for a right-associative one), extend the
/// right-hand side.
pub open spec fn spec_binexp_rhs(
    rhs: ExprV,
    toks: Seq<TokenV>,
    root: Property,
    break_op: Option<Operator>,
) -> Result<(ExprV, Seq<TokenV>), ErrV>
    decreases toks.len(), 3int,
{
    if toks.len() == 0 {
        Ok((rhs, toks))
    } else {
        match toks[0] {
            TokenV::Op(op2, _) => {
                let p2 = spec_property(op2).precedence;
                if (root.associativity == Associativity::Right && root.precedence > p2) || (
                root.associativity == Associativity::Left && root.precedence >= p2) {
                    Ok((rhs, toks))
                } else {
                    match spec_binary_expression(rhs, toks, p2, break_op) {
                        Err(e) => Err(e),
                        Ok((rhs2, t2)) => if t2.len() < toks.len() {
                            spec_binexp_rhs(rhs2, t2, root, break_op)
                        } else {
                            Err(ErrV::Unsupported)
                        },
                    }
                }
            },
            _ => Ok((rhs, toks)),
        }
    }
}

impl TokenNode {
    /// Consumes one token and wraps it as a leaf node.
    pub fn new(tokens: &mut Tokens) -> (r: Result<ExpressionNode, CompileError>)
        requires
            old(tokens).wf(),
        ensures
            final(tokens).wf(),
            match r {
                Ok(n) => old(tokens).remaining().len() > 0 && n@ == ExprV::Token(
                    old(tokens).v()[0],
                ) && final(tokens).v() == old(tokens).v().skip(1) && final(tokens).remaining().len() < old(tokens).remaining().len(),
                Err(e) => old(tokens).remaining().len() == 0 && e@ == ErrV::UnexpectedEof,
            },
    {
        match tokens.pop() {
            Some(t) => {
                proof {
                    assert(final(tokens).v() =~= old(tokens).v().skip(1));
                }
                Ok(ExpressionNode::Token(TokenNode { token: t }))
            },
            None => Err(CompileError::UnexpectedEof),
        }
    }
}

impl PrefixNode {
    /// Consumes a prefix operator token and parses its operand.
    pub fn new(tokens: &mut Tokens) -> (r: Result<ExpressionNode, CompileError>)
        requires
            old(tokens).wf(),
            old(tokens).remaining().len() > 0,
        ensures
            final(tokens).wf(),
            match r {
                Ok(n) => spec_new_node(old(tokens).v().skip(1)) matches Ok((nv, t)) && n@
                    == ExprV::Prefix(old(tokens).v()[0], Box::new(nv)) && final(tokens).v() == t
                    && final(tokens).remaining().len() < old(tokens).remaining().len(),
                Err(e) => spec_new_node(old(tokens).v().skip(1)) == Err::<
                    (ExprV, Seq<TokenV>),
                    ErrV,
                >(e@),
            },
        decreases old(tokens).remaining().len(), 0int,
    {
        let t = match tokens.pop() {
            Some(t) => t,
            None => {
                return Err(CompileError::UnexpectedEof);
            },
        };
        proof {
            assert(tokens.v() =~= old(tokens).v().skip(1));
        }
        match ExpressionNode::new_node(tokens) {
            Ok(n) => Ok(
                ExpressionNode::Prefix(
                    PrefixNode { prefix: TokenNode { token: t }, node: Box::new(n) },
                ),
            ),
            Err(e) => Err(e),
        }
    }
}

impl ExpressionNode {
    /// Parses a full expression, stopping at `break_op` if one is given.
    pub fn new(tokens: &mut Tokens, break_op: Option<Operator>) -> (r: Result<
        ExpressionNode,
        CompileError,
    >)
        requires
            old(tokens).wf(),
        ensures
            final(tokens).wf(),
            match r {
                Ok(n) => spec_binexp_new(old(tokens).v(), break_op) matches Ok((nv, t)) && n@ == nv
                    && final(tokens).v() == t && final(tokens).remaining().len() < old(tokens).remaining().len(),
                Err(e) => spec_binexp_new(old(tokens).v(), break_op) == Err::<
                    (ExprV, Seq<TokenV>),
                    ErrV,
                >(e@),
            },
        decreases old(tokens).remaining().len(), 4int,
    {
        BinExpNode::new(tokens, break_op)
    }

    /// Parses one primary with its prefixes and suffixes.
    pub fn new_node(tokens: &mut Tokens) -> (r: Result<ExpressionNode, CompileError>)
        requires
            old(tokens).wf(),
        ensures
            final(tokens).wf(),
            match r {
                Ok(n) => spec_new_node(old(tokens).v()) matches Ok((nv, t)) && n@ == nv && final(tokens).v() == t && final(tokens).remaining().len() < old(tokens).remaining().len(),
                Err(e) => spec_new_node(old(tokens).v()) == Err::<(ExprV, Seq<TokenV>), ErrV>(e@),
            },
        decreases old(tokens).remaining().len(), 2int,
    {
        let ghost toks0 = old(tokens).v();
        let lhs = match Self::new_with_prefix(tokens) {
            Ok(n) => n,
            Err(e) => {
                return Err(e);
            },
        };
        ExpressionNode::new_with_suffix(lhs, tokens)
    }

    /// Primary parsing: leaf tokens, prefix operators, re-tagged sign
    /// operators, and parenthesised expressions.
    fn new_with_prefix(tokens: &mut Tokens) -> (r: Result<ExpressionNode, CompileError>)
        requires
            old(tokens).wf(),
        ensures
            final(tokens).wf(),
            match r {
                Ok(n) => spec_new_with_prefix(old(tokens).v()) matches Ok((nv, t)) && n@ == nv
                    && final(tokens).v() == t && final(tokens).remaining().len() < old(tokens).remaining().len(),
                Err(e) => spec_new_with_prefix(old(tokens).v()) == Err::<
                    (ExprV, Seq<TokenV>),
                    ErrV,
                >(e@),
            },
        decreases old(tokens).remaining().len(), 1int,
    {
        let kind: u32 = match tokens.peek() {
            None => 0,
            Some(Token::Ide(_, _)) | Some(Token::IntNum(_, _)) | Some(Token::FloatNum(_, _)) => 1,
            Some(Token::PrefixOp(_, _)) => 2,
            Some(Token::Op(op, _)) => match op {
                Operator::Add | Operator::Sub | Operator::Mul => 3,
                _ => 4,
            },
            Some(Token::SuffixOp(SuffixOp::Call, _)) => 5,
            _ => 4,
        };
        if kind == 0 {
            return Err(CompileError::UnexpectedEof);
        }
        if kind == 1 {
            return TokenNode::new(tokens);
        }
        if kind == 2 {
            return PrefixNode::new(tokens);
        }
        if kind == 3 {
            let t = tokens.pop().unwrap();
            proof {
                assert(tokens.v() =~= old(tokens).v().skip(1));
            }
            let (op, d) = match t {
                Token::Op(op, d) => (op, d),
                _ => {
                    return Err(CompileError::Unsupported);
                },
            };
            let pre = match op {
                Operator::Add => PrefixOp::Plus,
                Operator::Sub => PrefixOp::Minus,
                _ => PrefixOp::Deref,
            };
            let node = match ExpressionNode::new_node(tokens) {
                Ok(n) => n,
                Err(e) => {
                    return Err(e);
                },
            };
            return Ok(
                ExpressionNode::Prefix(
                    PrefixNode {
                        prefix: TokenNode { token: Token::PrefixOp(pre, d) },
                        node: Box::new(node),
                    },
                ),
            );
        }
        if kind == 5 {
            let _ = tokens.pop();
            proof {
                assert(tokens.v() =~= old(tokens).v().skip(1));
            }
            let node = match BinExpNode::new(tokens, None) {
                Ok(n) => n,
                Err(e) => {
                    return Err(e);
                },
            };
            let close_ok: bool = match tokens.peek() {
                Some(Token::ParenE(_)) => true,
                _ => false,
            };
            if close_ok {
                let _ = tokens.pop();
                return Ok(node);
            } else {
                match tokens.peek() {
                    Some(t) => {
                        return Err(CompileError::UnexpectedToken(t.get_debug_info()));
                    },
                    None => {
                        return Err(CompileError::UnexpectedEof);
                    },
                }
            }
        }
        // kind == 4: a token that cannot start a primary
        let d = match tokens.peek() {
            Some(t) => t.get_debug_info(),
            None => {
                return Err(CompileError::UnexpectedEof);
            },
        };
        Err(CompileError::UnexpectedToken(d))
    }

    /// Applies suffix operators, or opens a ternary, after a primary.
    fn new_with_suffix(lhs: ExpressionNode, tokens: &mut Tokens) -> (r: Result<
        ExpressionNode,
        CompileError,
    >)
        requires
            old(tokens).wf(),
        ensures
            final(tokens).wf(),
            match r {
                Ok(n) => spec_new_with_suffix(lhs@, old(tokens).v()) matches Ok((nv, t)) && n@
                    == nv && final(tokens).v() == t && final(tokens).remaining().len() <= old(tokens).remaining().len(),
                Err(e) => spec_new_with_suffix(lhs@, old(tokens).v()) == Err::<
                    (ExprV, Seq<TokenV>),
                    ErrV,
                >(e@),
            },
        decreases old(tokens).remaining().len(), 3int,
    {
        let starts_suffix: bool = match tokens.peek() {
            Some(Token::SuffixOp(_, _)) => true,
            _ => false,
        };
        let starts_question: bool = match tokens.peek() {
            Some(Token::Question(_)) => true,
            _ => false,
        };
        if starts_suffix {
            let ghost entry = old(tokens).v();
            let mut node = lhs;
            loop
                invariant
                    tokens.wf(),
                    entry == old(tokens).v(),
                    entry.len() > 0 && entry[0] is SuffixOp,
                    tokens.remaining().len() <= old(tokens).remaining().len(),
                    spec_suffix_chain(lhs@, entry) == spec_suffix_chain(node@, tokens.v()),
                decreases tokens.remaining().len(),
            {
                let ghost before = tokens.v();
                let ghost node_before = node@;
                node = match SuffixNode::new(node, tokens) {
                    Ok(n) => n,
                    Err(e) => {
                        return Err(e);
                    },
                };
                let more: bool = match tokens.peek() {
                    Some(Token::SuffixOp(_, _)) => true,
                    _ => false,
                };
                if !more {
                    return Ok(node);
                }
            }
        } else if starts_question {
            TernaryExpNode::new(lhs, tokens)
        } else {
            Ok(lhs)
        }
    }
}

impl SuffixNode {
    /// One suffix application to `lhs`.
    pub fn new(lhs: ExpressionNode, tokens: &mut Tokens) -> (r: Result<
        ExpressionNode,
        CompileError,
    >)
        requires
            old(tokens).wf(),
        ensures
            final(tokens).wf(),
            match r {
                Ok(n) => spec_suffix_new(lhs@, old(tokens).v()) matches Ok((nv, t)) && n@ == nv
                    && final(tokens).v() == t && final(tokens).remaining().len() < old(tokens).remaining().len(),
                Err(e) => spec_suffix_new(lhs@, old(tokens).v()) == Err::<
                    (ExprV, Seq<TokenV>),
                    ErrV,
                >(e@),
            },
        decreases old(tokens).remaining().len(), 0int,
    {
        let t = match tokens.pop() {
            Some(t) => t,
            None => {
                return Err(CompileError::UnexpectedEof);
            },
        };
        proof {
            assert(tokens.v() =~= old(tokens).v().skip(1));
        }
        let (sop, d) = match &t {
            Token::SuffixOp(sop, d) => (*sop, d.dup()),
            _ => {
                return Err(CompileError::UnexpectedToken(t.get_debug_info()));
            },
        };
        match sop {
            SuffixOp::Increment => Ok(
                ExpressionNode::Suffix(
                    SuffixNode { suffix: TokenNode { token: t }, node: Box::new(lhs) },
                ),
            ),
            SuffixOp::Index => {
                let index = match BinExpNode::new(tokens, None) {
                    Ok(n) => n,
                    Err(e) => {
                        return Err(e);
                    },
                };
                let close_ok: bool = match tokens.peek() {
                    Some(Token::SquareE(_)) => true,
                    _ => false,
                };
                if close_ok {
                    let _ = tokens.pop();
                    Ok(
                        ExpressionNode::ArrayIndex(
                            ArrayIndexNode { array: Box::new(lhs), index: Box::new(index) },
                        ),
                    )
                } else {
                    match tokens.peek() {
                        Some(t2) => Err(CompileError::UnexpectedToken(t2.get_debug_info())),
                        None => Err(CompileError::UnexpectedEof),
                    }
                }
            },
            SuffixOp::Call => {
                let id_node = match lhs {
                    ExpressionNode::Token(tn) => tn,
                    other => {
                        return Err(CompileError::UnexpectedToken(d));
                    },
                };
                let empty_args: u32 = match tokens.peek() {
                    Some(Token::ParenE(_)) => 1,
                    Some(_) => 0,
                    None => 2,
                };
                if empty_args == 2 {
                    return Err(CompileError::UnexpectedEof);
                }
                if empty_args == 1 {
                    let _ = tokens.pop();
                    return Ok(
                        ExpressionNode::FunctionCall(
                            FunctionCallNode {
                                identifier: id_node,
                                parameters: Box::new(ExpressionNode::Empty),
                            },
                        ),
                    );
                }
                let args = match BinExpNode::new(tokens, None) {
                    Ok(n) => n,
                    Err(e) => {
                        return Err(e);
                    },
                };
                let close_ok: bool = match tokens.peek() {
                    Some(Token::ParenE(_)) => true,
                    _ => false,
                };
                if close_ok {
                    let _ = tokens.pop();
                    Ok(
                        ExpressionNode::FunctionCall(
                            FunctionCallNode { identifier: id_node, parameters: Box::new(args) },
                        ),
                    )
                } else {
                    match tokens.peek() {
                        Some(t2) => Err(CompileError::UnexpectedToken(t2.get_debug_info())),
                        None => Err(CompileError::UnexpectedEof),
                    }
                }
            },
            SuffixOp::Dot => {
                match tokens.pop() {
                    Some(id) => Ok(
                        ExpressionNode::Access(
                            AccessNode { access_identifier: id, node: Box::new(lhs) },
                        ),
                    ),
                    None => Err(CompileError::UnexpectedEof),
                }
            },
        }
    }
}

impl TernaryExpNode {
    /// `lhs ? then : else`, entered on a `?` at the front.
    pub fn new(lhs: ExpressionNode, tokens: &mut Tokens) -> (r: Result<
        ExpressionNode,
        CompileError,
    >)
        requires
            old(tokens).wf(),
        ensures
            final(tokens).wf(),
            match r {
                Ok(n) => spec_ternary_new(lhs@, old(tokens).v()) matches Ok((nv, t)) && n@ == nv
                    && final(tokens).v() == t && final(tokens).remaining().len() < old(tokens).remaining().len(),
                Err(e) => spec_ternary_new(lhs@, old(tokens).v()) == Err::<
                    (ExprV, Seq<TokenV>),
                    ErrV,
                >(e@),
            },
        decreases old(tokens).remaining().len(), 1int,
    {
        let q = match tokens.pop() {
            Some(t) => t,
            None => {
                return Err(CompileError::UnexpectedEof);
            },
        };
        proof {
            assert(tokens.v() =~= old(tokens).v().skip(1));
        }
        match &q {
            Token::Question(_) => (),
            _ => {
                return Err(CompileError::UnexpectedToken(q.get_debug_info()));
            },
        }
        let then_node = match BinExpNode::new(tokens, None) {
            Ok(n) => n,
            Err(e) => {
                return Err(e);
            },
        };
        let colon_ok: bool = match tokens.peek() {
            Some(Token::Colon(_)) => true,
            _ => false,
        };
        if !colon_ok {
            return match tokens.peek() {
                Some(t2) => Err(CompileError::UnexpectedToken(t2.get_debug_info())),
                None => Err(CompileError::UnexpectedEof),
            };
        }
        let _ = tokens.pop();
        let else_node = match BinExpNode::new(tokens, None) {
            Ok(n) => n,
            Err(e) => {
                return Err(e);
            },
        };
        Ok(
            ExpressionNode::TernaryExp(
                TernaryExpNode {
                    condition: Box::new(lhs),
                    lhs: Box::new(then_node),
                    rhs: Box::new(else_node),
                },
            ),
        )
    }
}

impl BinExpNode {
    /// A primary followed by the precedence loop.
    pub fn new(tokens: &mut Tokens, break_op: Option<Operator>) -> (r: Result<
        ExpressionNode,
        CompileError,
    >)
        requires
            old(tokens).wf(),
        ensures
            final(tokens).wf(),
            match r {
                Ok(n) => spec_binexp_new(old(tokens).v(), break_op) matches Ok((nv, t)) && n@ == nv
                    && final(tokens).v() == t && final(tokens).remaining().len() < old(tokens).remaining().len(),
                Err(e) => spec_binexp_new(old(tokens).v(), break_op) == Err::<
                    (ExprV, Seq<TokenV>),
                    ErrV,
                >(e@),
            },
        decreases old(tokens).remaining().len(), 3int,
    {
        let lhs = match ExpressionNode::new_node(tokens) {
            Ok(n) => n,
            Err(e) => {
                return Err(e);
            },
        };
        BinExpNode::binary_expression(lhs, tokens, 0, break_op)
    }

    /// The precedence loop over `lhs`: folds operators at or above
    /// `min_precedence`, climbing into the right-hand side as associativity
    /// directs.
    pub fn binary_expression(
        lhs: ExpressionNode,
        tokens: &mut Tokens,
        min_precedence: u32,
        break_op: Option<Operator>,
    ) -> (r: Result<ExpressionNode, CompileError>)
        requires
            old(tokens).wf(),
        ensures
            final(tokens).wf(),
            match r {
                Ok(n) => spec_binary_expression(lhs@, old(tokens).v(), min_precedence, break_op)
                    matches Ok((nv, t)) && n@ == nv && final(tokens).v() == t && final(tokens).remaining().len() <= old(tokens).remaining().len(),
                Err(e) => spec_binary_expression(lhs@, old(tokens).v(), min_precedence, break_op)
                    == Err::<(ExprV, Seq<TokenV>), ErrV>(e@),
            },
        decreases old(tokens).remaining().len(), 2int,
    {
        let mut node = lhs;
        loop
            invariant
                tokens.wf(),
                tokens.remaining().len() <= old(tokens).remaining().len(),
                spec_binary_expression(lhs@, old(tokens).v(), min_precedence, break_op)
                    == spec_binary_expression(node@, tokens.v(), min_precedence, break_op),
            decreases tokens.remaining().len(),
        {
            let ghost iter_entry = tokens.v();
            let ghost node_pre = node@;
            let head_op: Option<Operator> = match tokens.peek() {
                Some(Token::Op(op, _)) => Some(*op),
                _ => None,
            };
            let op = match head_op {
                Some(op) => op,
                None => {
                    return Ok(node);
                },
            };
            let stop: bool = match break_op {
                Some(b) => b == op,
                None => false,
            };
            if stop {
                return Ok(node);
            }
            let root = get_property(op);
            if root.precedence < min_precedence {
                return Ok(node);
            }
            let op_token = tokens.pop().unwrap();
            proof {
                assert(tokens.v() =~= iter_entry.skip(1));
            }
            let mut rhs = match ExpressionNode::new_node(tokens) {
                Ok(n) => n,
                Err(e) => {
                    return Err(e);
                },
            };
            let ghost t2 = tokens.v();
            let ghost rhs0 = rhs@;
            // the inner climb
            loop
                invariant
                    tokens.wf(),
                    t2.len() < iter_entry.len(),
                    iter_entry.len() <= old(tokens).remaining().len(),
                    tokens.remaining().len() <= t2.len(),
                    iter_entry.len() > 0,
                    iter_entry[0] is Op,
                    root == spec_property(iter_entry[0]->Op_0),
                    break_op != Some(iter_entry[0]->Op_0),
                    spec_property(iter_entry[0]->Op_0).precedence >= min_precedence,
                    spec_new_node(iter_entry.skip(1)) == Ok::<(ExprV, Seq<TokenV>), ErrV>(
                        (rhs0, t2),
                    ),
                    spec_binary_expression(lhs@, old(tokens).v(), min_precedence, break_op)
                        == spec_binary_expression(node_pre, iter_entry, min_precedence, break_op),
                    spec_binexp_rhs(rhs0, t2, root, break_op) == spec_binexp_rhs(
                        rhs@,
                        tokens.v(),
                        root,
                        break_op,
                    ),
                ensures
                    tokens.wf(),
                    tokens.remaining().len() <= t2.len(),
                    spec_binexp_rhs(rhs0, t2, root, break_op) == Ok::<(ExprV, Seq<TokenV>), ErrV>(
                        (rhs@, tokens.v()),
                    ),
                decreases tokens.remaining().len(),
            {
                let head2: Option<Operator> = match tokens.peek() {
                    Some(Token::Op(op2, _)) => Some(*op2),
                    _ => None,
                };
                let op2 = match head2 {
                    Some(o) => o,
                    None => {
                        break ;
                    },
                };
                let p2 = get_property(op2);
                let stay: bool = match root.associativity {
                    Associativity::Right => root.precedence > p2.precedence,
                    Associativity::Left => root.precedence >= p2.precedence,
                };
                if stay {
                    break ;
                }
                let before_len = tokens.remaining_len();
                rhs = match BinExpNode::binary_expression(rhs, tokens, p2.precedence, break_op) {
                    Ok(n) => n,
                    Err(e) => {
                        return Err(e);
                    },
                };
                let after_len = tokens.remaining_len();
                if after_len >= before_len {
                    return Err(CompileError::Unsupported);
                }
            }
            proof {
                assert(spec_binary_expression(node_pre, iter_entry, min_precedence, break_op)
                    == spec_binary_expression(
                    ExprV::BinExp(iter_entry[0], Box::new(node_pre), Box::new(rhs@)),
                    tokens.v(),
                    min_precedence,
                    break_op,
                ));
            }
            node = ExpressionNode::BinExp(
                BinExpNode {
                    op: TokenNode { token: op_token },
                    lhs: Box::new(node),
                    rhs: Box::new(rhs),
                },
            );
        }
    }
}



impl TokenNode {
    /// Structural copy, proved equal to the original.
    pub fn dup(&self) -> (r: TokenNode)
        ensures
            r == *self,
    {
        TokenNode { token: self.token.dup() }
    }
}

impl ExpressionNode {
    /// Structural copy, proved equal to the original.
    pub fn dup(&self) -> (r: ExpressionNode)
        ensures
            r == *self,
        decreases self,
    {
        match self {
            ExpressionNode::BinExp(n) => ExpressionNode::BinExp(
                BinExpNode {
                    op: n.op.dup(),
                    lhs: Box::new((*n.lhs).dup()),
                    rhs: Box::new((*n.rhs).dup()),
                },
            ),
            ExpressionNode::TernaryExp(n) => ExpressionNode::TernaryExp(
                TernaryExpNode {
                    condition: Box::new((*n.condition).dup()),
                    lhs: Box::new((*n.lhs).dup()),
                    rhs: Box::new((*n.rhs).dup()),
                },
            ),
            ExpressionNode::Prefix(n) => ExpressionNode::Prefix(
                PrefixNode { prefix: n.prefix.dup(), node: Box::new((*n.node).dup()) },
            ),
            ExpressionNode::Suffix(n) => ExpressionNode::Suffix(
                SuffixNode { suffix: n.suffix.dup(), node: Box::new((*n.node).dup()) },
            ),
            ExpressionNode::ArrayIndex(n) => ExpressionNode::ArrayIndex(
                ArrayIndexNode {
                    array: Box::new((*n.array).dup()),
                    index: Box::new((*n.index).dup()),
                },
            ),
            ExpressionNode::FunctionCall(n) => ExpressionNode::FunctionCall(
                FunctionCallNode {
                    identifier: n.identifier.dup(),
                    parameters: Box::new((*n.parameters).dup()),
                },
            ),
            ExpressionNode::Access(n) => ExpressionNode::Access(
                AccessNode {
                    access_identifier: n.access_identifier.dup(),
                    node: Box::new((*n.node).dup()),
                },
            ),
            ExpressionNode::Token(n) => ExpressionNode::Token(n.dup()),
            ExpressionNode::Empty => ExpressionNode::Empty,
        }
    }
}

} // verus!
