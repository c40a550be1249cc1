//! Declarations and statements: the recursive-descent parser over the token
//! stream, producing the program AST.
use vstd::prelude::*;
use crate::error::CompileError;
use crate::error::ErrV;
use crate::expression::ExprV;
use crate::expression::ExpressionNode;
use crate::expression::expr_v;
use crate::expression::spec_binexp_new;
use crate::text::all_digits;
use crate::text::dec_str;
use crate::text::dec_val;
use crate::text::u64_to_string;
use crate::text::parse_u64;
use crate::token::BasicType;
use crate::token::BasicTypeV;
use crate::token::DebugInfo;
use crate::token::Operator;
use crate::token::SuffixOp;
use crate::token::Token;
use crate::token::TokenV;
use crate::token::Tokens;
use crate::token::basic_type_v;
use crate::token::tok_dbg;

verus! {

/// A top-level declaration: a function, a global variable, or a struct or
/// enum statement (a definition, or a declared variable of that type).
#[derive(Debug, PartialEq)]
pub enum DeclareNode {
    Function(FunctionNode),
    Variable(DeclareStatementNode),
    Struct(StructStatementNode),
    Enum(EnumStatementNode),
}

/// A function declaration; `statements` is `None` for a forward declaration.
#[derive(Debug, PartialEq)]
pub struct FunctionNode {
    pub identifier: String,
    pub return_type: BasicType,
    pub parameters: Vec<DeclareVariableNode>,
    pub statements: Option<Vec<StatementNode>>,
    pub is_extern: bool,
    pub is_var_args: bool,
}

/// A variable declarator: its type form, name, and optional initializer.
#[derive(Debug, PartialEq)]
pub struct DeclareVariableNode {
    pub value_type: BasicType,
    pub identifier: String,
    pub initialize_expression: Option<ExpressionNode>,
}

/// A declaration statement: a declarator followed by `;`.
#[derive(Debug, PartialEq)]
pub struct DeclareStatementNode {
    pub declare_variable_node: DeclareVariableNode,
}

/// A struct definition: the tag and the ordered fields.
#[derive(Debug, PartialEq)]
pub struct StructDefinitionNode {
    pub identifier: String,
    pub members: Vec<(String, BasicType)>,
}

/// An enum definition: an optional tag, and one synthesized `int`
/// declarator per enumerator.
#[derive(Debug, PartialEq)]
pub struct EnumDefinitionNode {
    pub tag: Option<String>,
    pub enums: Vec<DeclareVariableNode>,
}

/// A `struct` statement: a definition, or a variable of struct type.
#[derive(Debug, PartialEq)]
pub enum StructStatementNode {
    Declare(DeclareStatementNode),
    Definition(StructDefinitionNode),
}

/// An `enum` statement: a definition, or a variable of enum type.
#[derive(Debug, PartialEq)]
pub enum EnumStatementNode {
    Declare(DeclareStatementNode),
    Definition(EnumDefinitionNode),
}

/// A statement.
#[derive(Debug, PartialEq)]
pub enum StatementNode {
    Expression(ExpressionStatementNode),
    Return(ReturnStatementNode),
    Declare(DeclareStatementNode),
    Struct(StructStatementNode),
    Enum(EnumStatementNode),
    Compound(CompoundStatementNode),
    If(IfStatementNode),
    For(ForStatementNode),
    While(WhileStatementNode),
    Switch(SwitchStatementNode),
    Case(CaseStatementNode),
    Default(DefaultStatementNode),
    Break(BreakStatementNode),
    Continue(ContinueStatementNode),
    Empty,
}

/// An expression evaluated for its effect, followed by `;`.
#[derive(Debug, PartialEq)]
pub struct ExpressionStatementNode {
    pub expression: ExpressionNode,
}

/// `return expr ;`.
#[derive(Debug, PartialEq)]
pub struct ReturnStatementNode {
    pub expression: ExpressionNode,
}

/// A brace block of statements.
#[derive(Debug, PartialEq)]
pub struct CompoundStatementNode {
    pub statements: Vec<StatementNode>,
}

/// `if (cond) block [else else_block]`.
#[derive(Debug, PartialEq)]
pub struct IfStatementNode {
    pub condition_expression: ExpressionNode,
    pub block: Box<StatementNode>,
    pub else_block: Option<Box<StatementNode>>,
}

/// `while (cond) block`.
#[derive(Debug, PartialEq)]
pub struct WhileStatementNode {
    pub condition_expression: ExpressionNode,
    pub block: Box<StatementNode>,
}

/// `switch (value) { cases }`.
#[derive(Debug, PartialEq)]
pub struct SwitchStatementNode {
    pub condition_expression: ExpressionNode,
    pub statements: CompoundStatementNode,
}

/// `case expr:` with the statements up to the next label.
#[derive(Debug, PartialEq)]
pub struct CaseStatementNode {
    pub condition_expression: ExpressionNode,
    pub statements: CompoundStatementNode,
}

/// `default:` with the statements up to the next label.
#[derive(Debug, PartialEq)]
pub struct DefaultStatementNode {
    pub statements: CompoundStatementNode,
}

/// `break ;`.
#[derive(Debug, PartialEq)]
pub struct BreakStatementNode {}

/// `continue ;`.
#[derive(Debug, PartialEq)]
pub struct ContinueStatementNode {}

/// `for (init; cond; step) block`.
#[derive(Debug, PartialEq)]
pub struct ForStatementNode {
    pub first_statement: Box<StatementNode>,
    pub condition_expression: ExpressionNode,
    pub loop_expression: ExpressionNode,
    pub block: Box<StatementNode>,
}

/// A whole translation unit: the ordered top-level declarations.
#[derive(Debug, PartialEq)]
pub struct ProgramNode {
    pub declares: Vec<DeclareNode>,
}

/// Mathematical view of a declarator.
pub struct DvnV {
    pub value_type: BasicTypeV,
    pub identifier: Seq<char>,
    pub init: Option<ExprV>,
}

/// Mathematical view of a function declaration.
pub struct FuncV {
    pub identifier: Seq<char>,
    pub return_type: BasicTypeV,
    pub parameters: Seq<DvnV>,
    pub statements: Option<Seq<StmtV>>,
    pub is_extern: bool,
    pub is_var_args: bool,
}

/// Mathematical view of a top-level declaration.
pub enum DeclV {
    Function(FuncV),
    Variable(DvnV),
    Struct(StructStmtV),
    Enum(EnumStmtV),
}

/// Mathematical view of a struct definition.
pub struct StructDefV {
    pub identifier: Seq<char>,
    pub members: Seq<(Seq<char>, BasicTypeV)>,
}

/// Mathematical view of an enum definition.
pub struct EnumDefV {
    pub tag: Option<Seq<char>>,
    pub enums: Seq<DvnV>,
}

/// Mathematical view of a `struct` statement.
pub enum StructStmtV {
    Declare(DvnV),
    Definition(StructDefV),
}

/// Mathematical view of an `enum` statement.
pub enum EnumStmtV {
    Declare(DvnV),
    Definition(EnumDefV),
}

/// Mathematical view of a statement.
pub enum StmtV {
    Expression(ExprV),
    Return(ExprV),
    Declare(DvnV),
    Struct(StructStmtV),
    Enum(EnumStmtV),
    Compound(Seq<StmtV>),
    If(ExprV, Box<StmtV>, Option<Box<StmtV>>),
    For(Box<StmtV>, ExprV, ExprV, Box<StmtV>),
    While(ExprV, Box<StmtV>),
    Switch(ExprV, Seq<StmtV>),
    Case(ExprV, Seq<StmtV>),
    Default(Seq<StmtV>),
    Break,
    Continue,
    Empty,
}

/// Mathematical view of a program.
pub struct ProgramV {
    pub declares: Seq<DeclV>,
}

/// Mathematical view of a declarator.
pub open spec fn dvn_v(d: DeclareVariableNode) -> DvnV {
    DvnV {
        value_type: basic_type_v(d.value_type),
        identifier: d.identifier@,
        init: match d.initialize_expression {
            Some(e) => Some(expr_v(e)),
            None => None,
        },
    }
}

/// Mathematical view of a statement, by structural recursion.
pub open spec fn stmt_v(s: StatementNode) -> StmtV
    decreases s,
{
    match s {
        StatementNode::Expression(n) => StmtV::Expression(expr_v(n.expression)),
        StatementNode::Return(n) => StmtV::Return(expr_v(n.expression)),
        StatementNode::Declare(n) => StmtV::Declare(dvn_v(n.declare_variable_node)),
        StatementNode::Struct(n) => StmtV::Struct(
            match n {
                StructStatementNode::Declare(d) => StructStmtV::Declare(
                    dvn_v(d.declare_variable_node),
                ),
                StructStatementNode::Definition(d) => StructStmtV::Definition(struct_def_v(d)),
            },
        ),
        StatementNode::Enum(n) => StmtV::Enum(
            match n {
                EnumStatementNode::Declare(d) => EnumStmtV::Declare(dvn_v(d.declare_variable_node)),
                EnumStatementNode::Definition(d) => EnumStmtV::Definition(enum_def_v(d)),
            },
        ),
        StatementNode::Compound(n) => StmtV::Compound(stmts_v(n.statements@)),
        StatementNode::If(n) => StmtV::If(
            expr_v(n.condition_expression),
            Box::new(stmt_v(*n.block)),
            match n.else_block {
                Some(b) => Some(Box::new(stmt_v(*b))),
                None => None,
            },
        ),
        StatementNode::For(n) => StmtV::For(
            Box::new(stmt_v(*n.first_statement)),
            expr_v(n.condition_expression),
            expr_v(n.loop_expression),
            Box::new(stmt_v(*n.block)),
        ),
        StatementNode::While(n) => StmtV::While(
            expr_v(n.condition_expression),
            Box::new(stmt_v(*n.block)),
        ),
        StatementNode::Switch(n) => StmtV::Switch(
            expr_v(n.condition_expression),
            stmts_v(n.statements.statements@),
        ),
        StatementNode::Case(n) => StmtV::Case(
            expr_v(n.condition_expression),
            stmts_v(n.statements.statements@),
        ),
        StatementNode::Default(n) => StmtV::Default(stmts_v(n.statements.statements@)),
        StatementNode::Break(_) => StmtV::Break,
        StatementNode::Continue(_) => StmtV::Continue,
        StatementNode::Empty => StmtV::Empty,
    }
}

/// Views of a statement sequence.
pub open spec fn stmts_v(ss: Seq<StatementNode>) -> Seq<StmtV>
    decreases ss,
{
    if ss.len() == 0 {
        Seq::empty()
    } else {
        stmts_v(ss.drop_last()).push(stmt_v(ss.last()))
    }
}

/// View of a member list.
pub open spec fn members_v(ms: Seq<(String, BasicType)>) -> Seq<(Seq<char>, BasicTypeV)> {
    ms.map_values(|m: (String, BasicType)| (m.0@, basic_type_v(m.1)))
}

/// View of a declarator list.
pub open spec fn dvns_v(ds: Seq<DeclareVariableNode>) -> Seq<DvnV> {
    ds.map_values(|e: DeclareVariableNode| dvn_v(e))
}

/// Mathematical view of a struct definition.
pub open spec fn struct_def_v(d: StructDefinitionNode) -> StructDefV {
    StructDefV { identifier: d.identifier@, members: members_v(d.members@) }
}

/// Mathematical view of an enum definition.
pub open spec fn enum_def_v(d: EnumDefinitionNode) -> EnumDefV {
    EnumDefV {
        tag: match d.tag {
            Some(t) => Some(t@),
            None => None,
        },
        enums: dvns_v(d.enums@),
    }
}

/// Mathematical view of a function declaration.
pub open spec fn func_v(f: FunctionNode) -> FuncV {
    FuncV {
        identifier: f.identifier@,
        return_type: basic_type_v(f.return_type),
        parameters: dvns_v(f.parameters@),
        statements: match f.statements {
            Some(ss) => Some(stmts_v(ss@)),
            None => None,
        },
        is_extern: f.is_extern,
        is_var_args: f.is_var_args,
    }
}

/// Mathematical view of a top-level declaration.
pub open spec fn decl_v(d: DeclareNode) -> DeclV {
    match d {
        DeclareNode::Function(f) => DeclV::Function(func_v(f)),
        DeclareNode::Variable(v) => DeclV::Variable(dvn_v(v.declare_variable_node)),
        DeclareNode::Struct(n) => DeclV::Struct(
            match n {
                StructStatementNode::Declare(d) => StructStmtV::Declare(
                    dvn_v(d.declare_variable_node),
                ),
                StructStatementNode::Definition(d) => StructStmtV::Definition(struct_def_v(d)),
            },
        ),
        DeclareNode::Enum(n) => DeclV::Enum(
            match n {
                EnumStatementNode::Declare(d) => EnumStmtV::Declare(dvn_v(d.declare_variable_node)),
                EnumStatementNode::Definition(d) => EnumStmtV::Definition(enum_def_v(d)),
            },
        ),
    }
}

impl View for StatementNode {
    type V = StmtV;

    open spec fn view(&self) -> StmtV {
        stmt_v(*self)
    }
}

impl View for DeclareVariableNode {
    type V = DvnV;

    open spec fn view(&self) -> DvnV {
        dvn_v(*self)
    }
}

impl View for FunctionNode {
    type V = FuncV;

    open spec fn view(&self) -> FuncV {
        func_v(*self)
    }
}

impl View for DeclareNode {
    type V = DeclV;

    open spec fn view(&self) -> DeclV {
        decl_v(*self)
    }
}

/// View of a declaration sequence.
pub open spec fn decl_seq_v(ds: Seq<DeclareNode>) -> Seq<DeclV> {
    ds.map_values(|d: DeclareNode| decl_v(d))
}

impl View for ProgramNode {
    type V = ProgramV;

    open spec fn view(&self) -> ProgramV {
        ProgramV { declares: decl_seq_v(self.declares@) }
    }
}

/// `stmts_v` views each element in place.
pub proof fn lemma_stmts_v_index(ss: Seq<StatementNode>, i: int)
    requires
        0 <= i < ss.len(),
    ensures
        stmts_v(ss).len() == ss.len(),
        stmts_v(ss)[i] == stmt_v(ss[i]),
    decreases ss.len(),
{
    lemma_stmts_v_len(ss);
    lemma_stmts_v_len(ss.drop_last());
    if i < ss.len() - 1 {
        lemma_stmts_v_index(ss.drop_last(), i);
        assert(ss.drop_last()[i] == ss[i]);
    }
}

/// `stmts_v` keeps the length.
pub proof fn lemma_stmts_v_len(ss: Seq<StatementNode>)
    ensures
        stmts_v(ss).len() == ss.len(),
    decreases ss.len(),
{
    if ss.len() > 0 {
        lemma_stmts_v_len(ss.drop_last());
    }
}


/// Strips `[N]` suffixes and nests array types, first dimension outermost:
/// `a[3][2]` declares three arrays of two elements.
pub open spec fn spec_get_array_type(base: BasicTypeV, toks: Seq<TokenV>) -> Result<
    (BasicTypeV, Seq<TokenV>),
    ErrV,
>
    decreases toks.len(), 0int,
{
    if toks.len() > 0 && toks[0] matches TokenV::SuffixOp(SuffixOp::Index, _) {
        if toks.len() < 3 {
            Err(ErrV::UnexpectedEof)
        } else {
            match (toks[1], toks[2]) {
                (TokenV::IntNum(s, _), TokenV::SquareE(_)) => {
                    if s.len() > 0 && all_digits(s) && dec_val(s) <= u32::MAX {
                        match spec_get_array_type(base, toks.skip(3)) {
                            Ok((inner, rest)) => Ok(
                                (BasicTypeV::Array(Box::new(inner), dec_val(s) as u32), rest),
                            ),
                            Err(e) => Err(e),
                        }
                    } else {
                        Err(ErrV::NumberOverflow)
                    }
                },
                _ => Err(ErrV::UnexpectedToken(tok_dbg(toks[1]))),
            }
        }
    } else {
        Ok((base, toks))
    }
}

/// In parameter position: the outermost `[N]` (or `[]`) is stripped, the
/// remaining dimensions nest as usual, and a pointer wraps the whole.
pub open spec fn spec_get_array_type_at_function_declare(
    base: BasicTypeV,
    toks: Seq<TokenV>,
) -> Result<(BasicTypeV, Seq<TokenV>), ErrV>
    decreases toks.len(), 1int,
{
    let stripped: Result<Seq<TokenV>, ErrV> = if toks.len() > 0 && toks[0] matches TokenV::SuffixOp(
        SuffixOp::Index,
        _,
    ) {
        if toks.len() >= 2 && toks[1] is SquareE {
            Ok(toks.skip(2))
        } else if toks.len() >= 3 && toks[1] is IntNum && toks[2] is SquareE {
            Ok(toks.skip(3))
        } else if toks.len() >= 2 {
            Err(ErrV::UnexpectedToken(tok_dbg(toks[1])))
        } else {
            Err(ErrV::UnexpectedEof)
        }
    } else {
        Ok(toks)
    };
    match stripped {
        Ok(rest) => if rest.len() <= toks.len() {
            match spec_get_array_type(base, rest) {
                Ok((arr, rest2)) => Ok((BasicTypeV::Pointer(Box::new(arr)), rest2)),
                Err(e) => Err(e),
            }
        } else {
            Err(ErrV::Unsupported)
        },
        Err(e) => Err(e),
    }
}

/// Counts the leading `*` tokens.
pub open spec fn spec_stars(toks: Seq<TokenV>) -> (nat, Seq<TokenV>)
    decreases toks.len(),
{
    if toks.len() > 0 && toks[0] matches TokenV::Op(Operator::Mul, _) {
        let (n, t) = spec_stars(toks.skip(1));
        ((n + 1) as nat, t)
    } else {
        (0, toks)
    }
}

/// Wraps `n` pointer layers around a type; pointers stand outermost, so
/// `int* a[3]` is a pointer to an array of three `int`.
pub open spec fn wrap_pointers(t: BasicTypeV, n: nat) -> BasicTypeV
    decreases n,
{
    if n == 0 {
        t
    } else {
        BasicTypeV::Pointer(Box::new(wrap_pointers(t, (n - 1) as nat)))
    }
}

/// A declarator: base type, pointer stars, name, array suffixes (decayed in
/// parameter position), optional initializer.
pub open spec fn spec_dvn_new(
    toks: Seq<TokenV>,
    is_function_declare: bool,
    break_op: Option<Operator>,
) -> Result<(DvnV, Seq<TokenV>), ErrV>
    decreases toks.len(), 2int,
{
    if toks.len() == 0 {
        Err(ErrV::UnexpectedEof)
    } else {
        let base_rest: Result<(BasicTypeV, Seq<TokenV>), ErrV> = match toks[0] {
            TokenV::Type(bt, _) => Ok((bt, toks.skip(1))),
            TokenV::Struct(_) => if toks.len() >= 2 && toks[1] is Ide {
                Ok((BasicTypeV::Struct(toks[1]->Ide_0), toks.skip(2)))
            } else if toks.len() >= 2 {
                Err(ErrV::UnexpectedToken(tok_dbg(toks[1])))
            } else {
                Err(ErrV::UnexpectedEof)
            },
            TokenV::Enum(_) => if toks.len() >= 2 && toks[1] is Ide {
                Ok((BasicTypeV::Int, toks.skip(2)))
            } else {
                Ok((BasicTypeV::Int, toks.skip(1)))
            },
            TokenV::Ide(s, _) => Ok((BasicTypeV::Struct(s), toks.skip(1))),
            _ => Err(ErrV::UnexpectedToken(tok_dbg(toks[0]))),
        };
        match base_rest {
            Err(e) => Err(e),
            Ok((base, t1)) => if t1.len() < toks.len() {
                let (nstars, t2) = spec_stars(t1);
                if t2.len() <= t1.len() && t2.len() > 0 && t2[0] is Ide {
                    let name = t2[0]->Ide_0;
                    let t3 = t2.skip(1);
                    let after_arrays: Result<(BasicTypeV, Seq<TokenV>), ErrV> = if t3.len() > 0
                        && t3[0] is SuffixOp {
                        if is_function_declare {
                            spec_get_array_type_at_function_declare(base, t3)
                        } else {
                            spec_get_array_type(base, t3)
                        }
                    } else {
                        Ok((base, t3))
                    };
                    match after_arrays {
                        Err(e) => Err(e),
                        Ok((ty2, t4)) => if t4.len() > 0 && t4[0] matches TokenV::Op(
                            Operator::Assign,
                            _,
                        ) {
                            match spec_binexp_new(t4.skip(1), break_op) {
                                Ok((e, t5)) => Ok(
                                    (
                                        DvnV {
                                            value_type: wrap_pointers(ty2, nstars),
                                            identifier: name,
                                            init: Some(e),
                                        },
                                        t5,
                                    ),
                                ),
                                Err(e) => Err(e),
                            }
                        } else {
                            Ok(
                                (
                                    DvnV {
                                        value_type: wrap_pointers(ty2, nstars),
                                        identifier: name,
                                        init: None,
                                    },
                                    t4,
                                ),
                            )
                        },
                    }
                } else if t2.len() > 0 {
                    Err(ErrV::UnexpectedToken(tok_dbg(t2[0])))
                } else {
                    Err(ErrV::UnexpectedEof)
                }
            } else {
                Err(ErrV::Unsupported)
            },
        }
    }
}

/// A declarator followed by `;`.
pub open spec fn spec_declare_statement_new(toks: Seq<TokenV>) -> Result<
    (DvnV, Seq<TokenV>),
    ErrV,
>
    decreases toks.len(), 3int,
{
    match spec_dvn_new(toks, false, None) {
        Ok((d, t)) => if t.len() > 0 && t[0] is Semi {
            Ok((d, t.skip(1)))
        } else if t.len() > 0 {
            Err(ErrV::UnexpectedToken(tok_dbg(t[0])))
        } else {
            Err(ErrV::UnexpectedEof)
        },
        Err(e) => Err(e),
    }
}

/// The fields of a struct definition, up to the closing brace.
pub open spec fn spec_struct_members(toks: Seq<TokenV>) -> Result<
    (Seq<(Seq<char>, BasicTypeV)>, Seq<TokenV>),
    ErrV,
>
    decreases toks.len(), 4int,
{
    if toks.len() == 0 {
        Err(ErrV::UnexpectedEof)
    } else if toks[0] is CurlyE {
        Ok((Seq::empty(), toks.skip(1)))
    } else {
        match spec_declare_statement_new(toks) {
            Err(e) => Err(e),
            Ok((d, t)) => if t.len() < toks.len() {
                match spec_struct_members(t) {
                    Ok((ms, t2)) => Ok((seq![(d.identifier, d.value_type)] + ms, t2)),
                    Err(e) => Err(e),
                }
            } else {
                Err(ErrV::Unsupported)
            },
        }
    }
}

/// `struct TAG { fields };`.
pub open spec fn spec_struct_definition_new(toks: Seq<TokenV>) -> Result<
    (StructDefV, Seq<TokenV>),
    ErrV,
>
    decreases toks.len(), 5int,
{
    if toks.len() < 3 {
        Err(ErrV::UnexpectedEof)
    } else if !(toks[0] is Struct) {
        Err(ErrV::UnexpectedToken(tok_dbg(toks[0])))
    } else if !(toks[1] is Ide) {
        Err(ErrV::UnexpectedToken(tok_dbg(toks[1])))
    } else if !(toks[2] is CurlyS) {
        Err(ErrV::UnexpectedToken(tok_dbg(toks[2])))
    } else {
        match spec_struct_members(toks.skip(3)) {
            Err(e) => Err(e),
            Ok((ms, t)) => if t.len() > 0 && t[0] is Semi {
                Ok((StructDefV { identifier: toks[1]->Ide_0, members: ms }, t.skip(1)))
            } else if t.len() > 0 {
                Err(ErrV::UnexpectedToken(tok_dbg(t[0])))
            } else {
                Err(ErrV::UnexpectedEof)
            },
        }
    }
}

/// A `struct` statement: a definition when a `{` follows the tag, else a
/// declaration of a struct-typed variable.
pub open spec fn spec_struct_statement_new(toks: Seq<TokenV>) -> Result<
    (StructStmtV, Seq<TokenV>),
    ErrV,
>
    decreases toks.len(), 6int,
{
    if toks.len() < 3 {
        Err(ErrV::UnexpectedEof)
    } else if toks[2] is CurlyS {
        match spec_struct_definition_new(toks) {
            Ok((d, t)) => Ok((StructStmtV::Definition(d), t)),
            Err(e) => Err(e),
        }
    } else {
        match spec_declare_statement_new(toks) {
            Ok((d, t)) => Ok((StructStmtV::Declare(d), t)),
            Err(e) => Err(e),
        }
    }
}

/// The debug record of the dummy token an auto-valued enumerator carries.
pub open spec fn enum_dummy_dbg() -> crate::token::DebugV {
    crate::token::DebugV { start: 0, end: 0, s: "dummy token for enum value"@ }
}

/// The enumerators of an enum definition; a missing initializer takes the
/// previous enumerator's value plus one, and the first defaults to zero.
pub open spec fn spec_enum_members(toks: Seq<TokenV>, pre: ExprV, cnt: nat) -> Result<
    (Seq<DvnV>, Seq<TokenV>),
    ErrV,
>
    decreases toks.len(), 4int,
{
    if toks.len() == 0 {
        Err(ErrV::UnexpectedEof)
    } else if toks[0] is CurlyE {
        Ok((Seq::empty(), toks.skip(1)))
    } else if toks[0] is Ide {
        let name = toks[0]->Ide_0;
        let t1 = toks.skip(1);
        let with_init: Result<(ExprV, Seq<TokenV>), ErrV> = if t1.len() > 0 && t1[0]
            matches TokenV::Op(Operator::Assign, _) {
            spec_binexp_new(t1.skip(1), Some(Operator::Comma))
        } else {
            if cnt == 0 {
                Ok((pre, t1))
            } else {
                match pre {
                    ExprV::Token(TokenV::IntNum(s, _)) => if s.len() > 0 && all_digits(s)
                        && dec_val(s) < u64::MAX {
                        Ok(
                            (
                                ExprV::Token(
                                    TokenV::IntNum(dec_str(dec_val(s) + 1), enum_dummy_dbg()),
                                ),
                                t1,
                            ),
                        )
                    } else {
                        Err(ErrV::NumberOverflow)
                    },
                    _ => Err(ErrV::NotAConstant),
                }
            }
        };
        match with_init {
            Err(e) => Err(e),
            Ok((init, t2)) => if t2.len() <= t1.len() {
                let t3 = if t2.len() > 0 && t2[0] matches TokenV::Op(Operator::Comma, _) {
                    t2.skip(1)
                } else {
                    t2
                };
                match spec_enum_members(t3, init, cnt + 1) {
                    Ok((es, t4)) => Ok(
                        (
                            seq![
                                DvnV {
                                    value_type: BasicTypeV::Int,
                                    identifier: name,
                                    init: Some(init),
                                },
                            ] + es,
                            t4,
                        ),
                    ),
                    Err(e) => Err(e),
                }
            } else {
                Err(ErrV::Unsupported)
            },
        }
    } else {
        Err(ErrV::UnexpectedToken(tok_dbg(toks[0])))
    }
}

/// `enum [TAG] { enumerators };`.
pub open spec fn spec_enum_definition_new(toks: Seq<TokenV>) -> Result<
    (EnumDefV, Seq<TokenV>),
    ErrV,
>
    decreases toks.len(), 5int,
{
    if toks.len() < 2 {
        Err(ErrV::UnexpectedEof)
    } else if !(toks[0] is Enum) {
        Err(ErrV::UnexpectedToken(tok_dbg(toks[0])))
    } else {
        let tag: Option<Seq<char>> = if toks[1] is Ide {
            Some(toks[1]->Ide_0)
        } else {
            None
        };
        let t1 = if toks[1] is Ide {
            toks.skip(2)
        } else {
            toks.skip(1)
        };
        if t1.len() > 0 && t1[0] is CurlyS {
            match spec_enum_members(
                t1.skip(1),
                ExprV::Token(TokenV::IntNum("0"@, enum_dummy_dbg())),
                0,
            ) {
                Err(e) => Err(e),
                Ok((es, t2)) => if t2.len() > 0 && t2[0] is Semi {
                    Ok((EnumDefV { tag, enums: es }, t2.skip(1)))
                } else if t2.len() > 0 {
                    Err(ErrV::UnexpectedToken(tok_dbg(t2[0])))
                } else {
                    Err(ErrV::UnexpectedEof)
                },
            }
        } else if t1.len() > 0 {
            Err(ErrV::UnexpectedToken(tok_dbg(t1[0])))
        } else {
            Err(ErrV::UnexpectedEof)
        }
    }
}

/// An `enum` statement: a definition when a `{` follows, else a declaration.
pub open spec fn spec_enum_statement_new(toks: Seq<TokenV>) -> Result<
    (EnumStmtV, Seq<TokenV>),
    ErrV,
>
    decreases toks.len(), 6int,
{
    if toks.len() < 2 {
        Err(ErrV::UnexpectedEof)
    } else {
        let def = if toks[1] is Ide {
            toks.len() >= 3 && toks[2] is CurlyS
        } else {
            toks[1] is CurlyS
        };
        if def {
            match spec_enum_definition_new(toks) {
                Ok((d, t)) => Ok((EnumStmtV::Definition(d), t)),
                Err(e) => Err(e),
            }
        } else {
            match spec_declare_statement_new(toks) {
                Ok((d, t)) => Ok((EnumStmtV::Declare(d), t)),
                Err(e) => Err(e),
            }
        }
    }
}

/// Statements up to (and consuming) the closing `}` of a block.
pub open spec fn spec_statements_until_curly(toks: Seq<TokenV>) -> Result<
    (Seq<StmtV>, Seq<TokenV>),
    ErrV,
>
    decreases toks.len(), 8int,
{
    if toks.len() == 0 {
        Err(ErrV::UnexpectedEof)
    } else if toks[0] is CurlyE {
        Ok((Seq::empty(), toks.skip(1)))
    } else {
        match spec_statement_new(toks) {
            Err(e) => Err(e),
            Ok((sv, t)) => if t.len() < toks.len() {
                match spec_statements_until_curly(t) {
                    Ok((ss, t2)) => Ok((seq![sv] + ss, t2)),
                    Err(e) => Err(e),
                }
            } else {
                Err(ErrV::Unsupported)
            },
        }
    }
}

/// Statements up to the next `case`, `default` or `}` label, not consumed.
pub open spec fn spec_statements_until_label(toks: Seq<TokenV>) -> Result<
    (Seq<StmtV>, Seq<TokenV>),
    ErrV,
>
    decreases toks.len(), 8int,
{
    if toks.len() == 0 {
        Err(ErrV::UnexpectedEof)
    } else if toks[0] is Case || toks[0] is Default || toks[0] is CurlyE {
        Ok((Seq::empty(), toks))
    } else {
        match spec_statement_new(toks) {
            Err(e) => Err(e),
            Ok((sv, t)) => if t.len() < toks.len() {
                match spec_statements_until_label(t) {
                    Ok((ss, t2)) => Ok((seq![sv] + ss, t2)),
                    Err(e) => Err(e),
                }
            } else {
                Err(ErrV::Unsupported)
            },
        }
    }
}

/// A `{ ... }` block.
pub open spec fn spec_compound_new(toks: Seq<TokenV>) -> Result<(Seq<StmtV>, Seq<TokenV>), ErrV>
    decreases toks.len(), 0int,
{
    if toks.len() == 0 {
        Err(ErrV::UnexpectedEof)
    } else if !(toks[0] is CurlyS) {
        Err(ErrV::UnexpectedToken(tok_dbg(toks[0])))
    } else {
        spec_statements_until_curly(toks.skip(1))
    }
}

/// An expression followed by `;`, or `return expr ;` when `ret` holds.
pub open spec fn spec_expr_semi(toks: Seq<TokenV>) -> Result<(ExprV, Seq<TokenV>), ErrV>
    decreases toks.len(), 0int,
{
    match spec_binexp_new(toks, None) {
        Err(e) => Err(e),
        Ok((e, t)) => if t.len() > 0 && t[0] is Semi {
            Ok((e, t.skip(1)))
        } else if t.len() > 0 {
            Err(ErrV::UnexpectedToken(tok_dbg(t[0])))
        } else {
            Err(ErrV::UnexpectedEof)
        },
    }
}

/// One statement, dispatched on its first token.
pub open spec fn spec_statement_new(toks: Seq<TokenV>) -> Result<(StmtV, Seq<TokenV>), ErrV>
    decreases toks.len(), 7int,
{
    if toks.len() == 0 {
        Err(ErrV::UnexpectedEof)
    } else {
        match toks[0] {
            TokenV::Type(_, _) => match spec_declare_statement_new(toks) {
                Ok((d, t)) => Ok((StmtV::Declare(d), t)),
                Err(e) => Err(e),
            },
            TokenV::Struct(_) => match spec_struct_statement_new(toks) {
                Ok((d, t)) => Ok((StmtV::Struct(d), t)),
                Err(e) => Err(e),
            },
            TokenV::Enum(_) => match spec_enum_statement_new(toks) {
                Ok((d, t)) => Ok((StmtV::Enum(d), t)),
                Err(e) => Err(e),
            },
            TokenV::Return(_) => match spec_expr_semi(toks.skip(1)) {
                Ok((e, t)) => Ok((StmtV::Return(e), t)),
                Err(e) => Err(e),
            },
            TokenV::CurlyS(_) => match spec_compound_new(toks) {
                Ok((ss, t)) => Ok((StmtV::Compound(ss), t)),
                Err(e) => Err(e),
            },
            TokenV::If(_) => spec_if_new(toks),
            TokenV::While(_) => spec_while_new(toks),
            TokenV::Switch(_) => spec_switch_new(toks),
            TokenV::Case(_) => spec_case_new(toks),
            TokenV::Default(_) => spec_default_new(toks),
            TokenV::Break(_) => if toks.len() >= 2 && toks[1] is Semi {
                Ok((StmtV::Break, toks.skip(2)))
            } else if toks.len() >= 2 {
                Err(ErrV::UnexpectedToken(tok_dbg(toks[1])))
            } else {
                Err(ErrV::UnexpectedEof)
            },
            TokenV::Continue(_) => if toks.len() >= 2 && toks[1] is Semi {
                Ok((StmtV::Continue, toks.skip(2)))
            } else if toks.len() >= 2 {
                Err(ErrV::UnexpectedToken(tok_dbg(toks[1])))
            } else {
                Err(ErrV::UnexpectedEof)
            },
            TokenV::For(_) => spec_for_new(toks),
            TokenV::Semi(_) => Ok((StmtV::Empty, toks.skip(1))),
            _ => match spec_expr_semi(toks) {
                Ok((e, t)) => Ok((StmtV::Expression(e), t)),
                Err(e) => Err(e),
            },
        }
    }
}

/// `( expr )`: consumes the parentheses around a condition.
pub open spec fn spec_paren_expr(toks: Seq<TokenV>) -> Result<(ExprV, Seq<TokenV>), ErrV>
    decreases toks.len(), 0int,
{
    if toks.len() == 0 {
        Err(ErrV::UnexpectedEof)
    } else if !(toks[0] matches TokenV::SuffixOp(SuffixOp::Call, _)) {
        Err(ErrV::UnexpectedToken(tok_dbg(toks[0])))
    } else {
        match spec_binexp_new(toks.skip(1), None) {
            Err(e) => Err(e),
            Ok((e, t)) => if t.len() > 0 && t[0] is ParenE {
                Ok((e, t.skip(1)))
            } else if t.len() > 0 {
                Err(ErrV::UnexpectedToken(tok_dbg(t[0])))
            } else {
                Err(ErrV::UnexpectedEof)
            },
        }
    }
}

/// `if (cond) stmt [else stmt]`.
pub open spec fn spec_if_new(toks: Seq<TokenV>) -> Result<(StmtV, Seq<TokenV>), ErrV>
    decreases toks.len(), 6int,
{
    if toks.len() == 0 || !(toks[0] is If) {
        Err(ErrV::UnexpectedEof)
    } else {
        match spec_paren_expr(toks.skip(1)) {
            Err(e) => Err(e),
            Ok((cond, t)) => if t.len() < toks.len() {
                match spec_statement_new(t) {
                    Err(e) => Err(e),
                    Ok((blk, t2)) => if t2.len() < toks.len() && t2.len() > 0 && t2[0] is Else {
                        match spec_statement_new(t2.skip(1)) {
                            Err(e) => Err(e),
                            Ok((els, t3)) => Ok(
                                (
                                    StmtV::If(cond, Box::new(blk), Some(Box::new(els))),
                                    t3,
                                ),
                            ),
                        }
                    } else {
                        Ok((StmtV::If(cond, Box::new(blk), None), t2))
                    },
                }
            } else {
                Err(ErrV::Unsupported)
            },
        }
    }
}

/// `while (cond) stmt`.
pub open spec fn spec_while_new(toks: Seq<TokenV>) -> Result<(StmtV, Seq<TokenV>), ErrV>
    decreases toks.len(), 6int,
{
    if toks.len() == 0 || !(toks[0] is While) {
        Err(ErrV::UnexpectedEof)
    } else {
        match spec_paren_expr(toks.skip(1)) {
            Err(e) => Err(e),
            Ok((cond, t)) => if t.len() < toks.len() {
                match spec_statement_new(t) {
                    Err(e) => Err(e),
                    Ok((blk, t2)) => Ok((StmtV::While(cond, Box::new(blk)), t2)),
                }
            } else {
                Err(ErrV::Unsupported)
            },
        }
    }
}

/// `switch (value) { cases }`.
pub open spec fn spec_switch_new(toks: Seq<TokenV>) -> Result<(StmtV, Seq<TokenV>), ErrV>
    decreases toks.len(), 6int,
{
    if toks.len() == 0 || !(toks[0] is Switch) {
        Err(ErrV::UnexpectedEof)
    } else {
        match spec_paren_expr(toks.skip(1)) {
            Err(e) => Err(e),
            Ok((cond, t)) => if t.len() < toks.len() {
                match spec_compound_new(t) {
                    Err(e) => Err(e),
                    Ok((ss, t2)) => Ok((StmtV::Switch(cond, ss), t2)),
                }
            } else {
                Err(ErrV::Unsupported)
            },
        }
    }
}

/// `case expr:` with its body up to the next label.
pub open spec fn spec_case_new(toks: Seq<TokenV>) -> Result<(StmtV, Seq<TokenV>), ErrV>
    decreases toks.len(), 6int,
{
    if toks.len() == 0 || !(toks[0] is Case) {
        Err(ErrV::UnexpectedEof)
    } else {
        match spec_binexp_new(toks.skip(1), None) {
            Err(e) => Err(e),
            Ok((cond, t)) => if t.len() < toks.len() && t.len() > 0 && t[0] is Colon {
                match spec_statements_until_label(t.skip(1)) {
                    Err(e) => Err(e),
                    Ok((ss, t2)) => Ok((StmtV::Case(cond, ss), t2)),
                }
            } else if t.len() > 0 {
                Err(ErrV::UnexpectedToken(tok_dbg(t[0])))
            } else {
                Err(ErrV::UnexpectedEof)
            },
        }
    }
}

/// `default:` with its body up to the next label.
pub open spec fn spec_default_new(toks: Seq<TokenV>) -> Result<(StmtV, Seq<TokenV>), ErrV>
    decreases toks.len(), 6int,
{
    if toks.len() < 2 {
        Err(ErrV::UnexpectedEof)
    } else if !(toks[0] is Default) {
        Err(ErrV::UnexpectedToken(tok_dbg(toks[0])))
    } else if !(toks[1] is Colon) {
        Err(ErrV::UnexpectedToken(tok_dbg(toks[1])))
    } else {
        match spec_statements_until_label(toks.skip(2)) {
            Err(e) => Err(e),
            Ok((ss, t2)) => Ok((StmtV::Default(ss), t2)),
        }
    }
}

/// `for (init; cond; step) stmt`; the init is a full statement and owns its
/// semicolon.
pub open spec fn spec_for_new(toks: Seq<TokenV>) -> Result<(StmtV, Seq<TokenV>), ErrV>
    decreases toks.len(), 6int,
{
    if toks.len() < 2 {
        Err(ErrV::UnexpectedEof)
    } else if !(toks[0] is For) {
        Err(ErrV::UnexpectedToken(tok_dbg(toks[0])))
    } else if !(toks[1] matches TokenV::SuffixOp(SuffixOp::Call, _)) {
        Err(ErrV::UnexpectedToken(tok_dbg(toks[1])))
    } else {
        match spec_statement_new(toks.skip(2)) {
            Err(e) => Err(e),
            Ok((init, t)) => if t.len() < toks.len() {
                match spec_expr_semi(t) {
                    Err(e) => Err(e),
                    Ok((cond, t2)) => {
                        match spec_binexp_new(t2, None) {
                            Err(e) => Err(e),
                            Ok((step, t3)) => if t3.len() > 0 && t3[0] is ParenE {
                                if t3.skip(1).len() < toks.len() {
                                    match spec_statement_new(t3.skip(1)) {
                                        Err(e) => Err(e),
                                        Ok((blk, t4)) => Ok(
                                            (
                                                StmtV::For(
                                                    Box::new(init),
                                                    cond,
                                                    step,
                                                    Box::new(blk),
                                                ),
                                                t4,
                                            ),
                                        ),
                                    }
                                } else {
                                    Err(ErrV::Unsupported)
                                }
                            } else if t3.len() > 0 {
                                Err(ErrV::UnexpectedToken(tok_dbg(t3[0])))
                            } else {
                                Err(ErrV::UnexpectedEof)
                            },
                        }
                    },
                }
            } else {
                Err(ErrV::Unsupported)
            },
        }
    }
}

/// The parameter list of a function declaration, up to `)`; a trailing
/// `...` marks the function variadic.
pub open spec fn spec_params(toks: Seq<TokenV>) -> Result<
    (Seq<DvnV>, bool, Seq<TokenV>),
    ErrV,
>
    decreases toks.len(), 3int,
{
    if toks.len() == 0 {
        Err(ErrV::UnexpectedEof)
    } else if toks[0] is ParenE {
        Ok((Seq::empty(), false, toks.skip(1)))
    } else if toks[0] is Va {
        if toks.len() >= 2 && toks[1] is ParenE {
            Ok((Seq::empty(), true, toks.skip(2)))
        } else if toks.len() >= 2 {
            Err(ErrV::UnexpectedToken(tok_dbg(toks[1])))
        } else {
            Err(ErrV::UnexpectedEof)
        }
    } else {
        match spec_dvn_new(toks, true, None) {
            Err(e) => Err(e),
            Ok((d, t)) => if t.len() < toks.len() {
                let t2 = if t.len() > 0 && t[0] matches TokenV::Op(Operator::Comma, _) {
                    t.skip(1)
                } else {
                    t
                };
                match spec_params(t2) {
                    Err(e) => Err(e),
                    Ok((ds, va, t3)) => Ok((seq![d] + ds, va, t3)),
                }
            } else {
                Err(ErrV::Unsupported)
            },
        }
    }
}

/// A function declaration: optional `extern`, return type, name, parameter
/// list, and a body or a `;`.
pub open spec fn spec_function_new(toks: Seq<TokenV>) -> Result<(FuncV, Seq<TokenV>), ErrV>
    decreases toks.len(), 0int,
{
    if toks.len() == 0 {
        Err(ErrV::UnexpectedEof)
    } else {
        let is_extern = toks[0] is Extern;
        let t0 = if is_extern {
            toks.skip(1)
        } else {
            toks
        };
        if t0.len() < 3 {
            Err(ErrV::UnexpectedEof)
        } else {
            let ret: Result<BasicTypeV, ErrV> = match t0[0] {
                TokenV::Type(bt, _) => Ok(bt),
                TokenV::Ide(s, _) => Ok(BasicTypeV::Struct(s)),
                _ => Err(ErrV::UnexpectedToken(tok_dbg(t0[0]))),
            };
            match ret {
                Err(e) => Err(e),
                Ok(ret_ty) => if !(t0[1] is Ide) {
                    Err(ErrV::UnexpectedToken(tok_dbg(t0[1])))
                } else if !(t0[2] matches TokenV::SuffixOp(SuffixOp::Call, _)) {
                    Err(ErrV::UnexpectedToken(tok_dbg(t0[2])))
                } else {
                    match spec_params(t0.skip(3)) {
                        Err(e) => Err(e),
                        Ok((ps, va, t1)) => if t1.len() == 0 {
                            Err(ErrV::UnexpectedEof)
                        } else if t1[0] is Semi {
                            Ok(
                                (
                                    FuncV {
                                        identifier: t0[1]->Ide_0,
                                        return_type: ret_ty,
                                        parameters: ps,
                                        statements: None,
                                        is_extern,
                                        is_var_args: va,
                                    },
                                    t1.skip(1),
                                ),
                            )
                        } else if t1[0] is CurlyS {
                            match spec_statements_until_curly(t1.skip(1)) {
                                Err(e) => Err(e),
                                Ok((ss, t2)) => Ok(
                                    (
                                        FuncV {
                                            identifier: t0[1]->Ide_0,
                                            return_type: ret_ty,
                                            parameters: ps,
                                            statements: Some(ss),
                                            is_extern,
                                            is_var_args: va,
                                        },
                                        t2,
                                    ),
                                ),
                            }
                        } else {
                            Err(ErrV::UnexpectedToken(tok_dbg(t1[0])))
                        },
                    }
                }
            }
        }
    }
}

/// One top-level declaration: a function when `(` follows the declared
/// name, else a global variable.
pub open spec fn spec_declare_new(toks: Seq<TokenV>) -> Result<(DeclV, Seq<TokenV>), ErrV>
    decreases toks.len(), 9int,
{
    if toks.len() == 0 {
        Err(ErrV::UnexpectedEof)
    } else if toks[0] is Struct {
        match spec_struct_statement_new(toks) {
            Ok((d, t)) => Ok((DeclV::Struct(d), t)),
            Err(e) => Err(e),
        }
    } else if toks[0] is Enum {
        match spec_enum_statement_new(toks) {
            Ok((d, t)) => Ok((DeclV::Enum(d), t)),
            Err(e) => Err(e),
        }
    } else {
        let base: int = if toks[0] is Extern {
            1
        } else {
            0
        };
        let is_fn = toks.len() > base + 2 && toks[base + 2] matches TokenV::SuffixOp(
            SuffixOp::Call,
            _,
        );
        if is_fn {
            match spec_function_new(toks) {
                Ok((f, t)) => Ok((DeclV::Function(f), t)),
                Err(e) => Err(e),
            }
        } else {
            match spec_declare_statement_new(toks) {
                Ok((d, t)) => Ok((DeclV::Variable(d), t)),
                Err(e) => Err(e),
            }
        }
    }
}

/// All top-level declarations to the end of the stream.
pub open spec fn spec_program_new(toks: Seq<TokenV>) -> Result<Seq<DeclV>, ErrV>
    decreases toks.len(), 10int,
{
    if toks.len() == 0 {
        Ok(Seq::empty())
    } else {
        match spec_declare_new(toks) {
            Err(e) => Err(e),
            Ok((d, t)) => if t.len() < toks.len() {
                match spec_program_new(t) {
                    Ok(ds) => Ok(seq![d] + ds),
                    Err(e) => Err(e),
                }
            } else {
                Err(ErrV::Unsupported)
            },
        }
    }
}



/// Appending one statement to a viewed sequence.
proof fn lemma_stmts_v_push(ss: Seq<StatementNode>, x: StatementNode)
    ensures
        stmts_v(ss.push(x)) == stmts_v(ss).push(stmt_v(x)),
{
    assert(ss.push(x).drop_last() =~= ss);
}

/// Builds the debug record carried by synthesized enum value tokens.
fn enum_dummy_info() -> (d: DebugInfo)
    ensures
        d@ == enum_dummy_dbg(),
{
    DebugInfo { start: 0, end: 0, s: String::from_str("dummy token for enum value") }
}

/// Strips `[N]` suffixes after a declared name and nests the array types,
/// first dimension outermost.
pub fn get_array_type(value_type: BasicType, tokens: &mut Tokens) -> (r: Result<
    BasicType,
    CompileError,
>)
    requires
        old(tokens).wf(),
    ensures
        final(tokens).wf(),
        match r {
            Ok(ty) => spec_get_array_type(value_type@, old(tokens).v()) matches Ok((tv, t)) && ty@
                == tv && final(tokens).v() == t && final(tokens).remaining().len() <= old(tokens).remaining().len(),
            Err(e) => spec_get_array_type(value_type@, old(tokens).v()) == Err::<
                (BasicTypeV, Seq<TokenV>),
                ErrV,
            >(e@),
        },
    decreases old(tokens).remaining().len(), 0int,
{
    let head_index: bool = match tokens.peek() {
        Some(Token::SuffixOp(SuffixOp::Index, _)) => true,
        _ => false,
    };
    if !head_index {
        return Ok(value_type);
    }
    if tokens.remaining_len() < 3 {
        return Err(CompileError::UnexpectedEof);
    }
    let num: Option<u64> = match tokens.peek_at(1) {
        Some(Token::IntNum(sv, _)) => parse_u64(sv.as_str()),
        _ => {
            return Err(
                CompileError::UnexpectedToken(tokens.peek_at(1).unwrap().get_debug_info()),
            );
        },
    };
    let close_ok: bool = match tokens.peek_at(2) {
        Some(Token::SquareE(_)) => true,
        _ => false,
    };
    if !close_ok {
        return Err(CompileError::UnexpectedToken(tokens.peek_at(1).unwrap().get_debug_info()));
    }
    let n: u64 = match num {
        Some(v) => v,
        None => {
            return Err(CompileError::NumberOverflow);
        },
    };
    if n > 0xffff_ffffu64 {
        return Err(CompileError::NumberOverflow);
    }
    let _ = tokens.pop();
    let _ = tokens.pop();
    let _ = tokens.pop();
    proof {
        assert(tokens.v() =~= old(tokens).v().skip(3));
    }
    match get_array_type(value_type, tokens) {
        Ok(inner) => Ok(BasicType::Array(Box::new(inner), n as u32)),
        Err(e) => Err(e),
    }
}

/// In parameter position an array declarator decays: the outermost `[N]` or
/// `[]` is stripped and a pointer wraps the remaining array form.
pub fn get_array_type_at_function_declare(value_type: BasicType, tokens: &mut Tokens) -> (r:
    Result<BasicType, CompileError>)
    requires
        old(tokens).wf(),
    ensures
        final(tokens).wf(),
        match r {
            Ok(ty) => spec_get_array_type_at_function_declare(value_type@, old(tokens).v())
                matches Ok((tv, t)) && ty@ == tv && final(tokens).v() == t && final(tokens).remaining().len() <= old(tokens).remaining().len(),
            Err(e) => spec_get_array_type_at_function_declare(value_type@, old(tokens).v())
                == Err::<(BasicTypeV, Seq<TokenV>), ErrV>(e@),
        },
    decreases old(tokens).remaining().len(), 1int,
{
    let head_index: bool = match tokens.peek() {
        Some(Token::SuffixOp(SuffixOp::Index, _)) => true,
        _ => false,
    };
    if head_index {
        let second_close: bool = match tokens.peek_at(1) {
            Some(Token::SquareE(_)) => true,
            _ => false,
        };
        if second_close {
            let _ = tokens.pop();
            let _ = tokens.pop();
            proof {
                assert(tokens.v() =~= old(tokens).v().skip(2));
            }
        } else {
            let second_num: bool = match tokens.peek_at(1) {
                Some(Token::IntNum(_, _)) => true,
                _ => false,
            };
            let third_close: bool = match tokens.peek_at(2) {
                Some(Token::SquareE(_)) => true,
                _ => false,
            };
            if tokens.remaining_len() < 2 {
                return Err(CompileError::UnexpectedEof);
            }
            if !(tokens.remaining_len() >= 3 && second_num && third_close) {
                return Err(
                    CompileError::UnexpectedToken(tokens.peek_at(1).unwrap().get_debug_info()),
                );
            }
            let _ = tokens.pop();
            let _ = tokens.pop();
            let _ = tokens.pop();
            proof {
                assert(tokens.v() =~= old(tokens).v().skip(3));
            }
        }
    }
    match get_array_type(value_type, tokens) {
        Ok(inner) => Ok(BasicType::Pointer(Box::new(inner))),
        Err(e) => Err(e),
    }
}

/// Counts and consumes the leading `*` tokens.
fn parse_stars(tokens: &mut Tokens) -> (n: usize)
    requires
        old(tokens).wf(),
    ensures
        final(tokens).wf(),
        spec_stars(old(tokens).v()) == (n as nat, final(tokens).v()),
        final(tokens).remaining().len() <= old(tokens).remaining().len(),
{
    let mut n: usize = 0;
    let total = tokens.remaining_len();
    loop
        invariant
            tokens.wf(),
            tokens.remaining().len() + n == total,
            total == old(tokens).remaining().len(),
            spec_stars(old(tokens).v()).0 == n + spec_stars(tokens.v()).0,
            spec_stars(old(tokens).v()).1 == spec_stars(tokens.v()).1,
        decreases tokens.remaining().len(),
    {
        let star: bool = match tokens.peek() {
            Some(Token::Op(Operator::Mul, _)) => true,
            _ => false,
        };
        if !star {
            return n;
        }
        let _ = tokens.pop();
        n = n + 1;
    }
}

/// Wraps `n` pointer layers around a type.
fn wrap_ptrs(base: BasicType, n: usize) -> (r: BasicType)
    ensures
        r@ == wrap_pointers(base@, n as nat),
    decreases n,
{
    if n == 0 {
        base
    } else {
        BasicType::Pointer(Box::new(wrap_ptrs(base, n - 1)))
    }
}

impl DeclareVariableNode {
    /// Parses one declarator. In parameter position (`is_function_declare`)
    /// arrays decay to pointers; `break_op` stops the initializer at a
    /// chosen operator.
    #[verifier::rlimit(100)]
    #[verifier::spinoff_prover]
    pub fn new(
        tokens: &mut Tokens,
        is_function_declare: bool,
        break_op: Option<Operator>,
    ) -> (r: Result<DeclareVariableNode, CompileError>)
        requires
            old(tokens).wf(),
        ensures
            final(tokens).wf(),
            match r {
                Ok(n) => spec_dvn_new(old(tokens).v(), is_function_declare, break_op) matches Ok(
                    (nv, t),
                ) && n@ == nv && final(tokens).v() == t && final(tokens).remaining().len() < old(tokens).remaining().len(),
                Err(e) => spec_dvn_new(old(tokens).v(), is_function_declare, break_op) == Err::<
                    (DvnV, Seq<TokenV>),
                    ErrV,
                >(e@),
            },
        decreases old(tokens).remaining().len(), 2int,
    {
        let kind: u32 = match tokens.peek() {
            None => 0,
            Some(Token::Type(_, _)) => 1,
            Some(Token::Struct(_)) => 2,
            Some(Token::Enum(_)) => 3,
            Some(Token::Ide(_, _)) => 4,
            _ => 5,
        };
        if kind == 0 {
            return Err(CompileError::UnexpectedEof);
        }
        if kind == 5 {
            return Err(CompileError::UnexpectedToken(tokens.peek().unwrap().get_debug_info()));
        }
        let base: BasicType = if kind == 1 {
            match tokens.pop().unwrap() {
                Token::Type(bt, _) => bt,
                _ => {
                    return Err(CompileError::Unsupported);
                },
            }
        } else if kind == 2 {
            let _ = tokens.pop();
            proof {
                assert(tokens.v() =~= old(tokens).v().skip(1));
            }
            match tokens.pop() {
                Some(Token::Ide(tag, _)) => BasicType::Struct(tag),
                Some(t) => {
                    return Err(CompileError::UnexpectedToken(t.get_debug_info()));
                },
                None => {
                    return Err(CompileError::UnexpectedEof);
                },
            }
        } else if kind == 3 {
            let _ = tokens.pop();
            proof {
                assert(tokens.v() =~= old(tokens).v().skip(1));
            }
            let tagged: bool = match tokens.peek() {
                Some(Token::Ide(_, _)) => true,
                _ => false,
            };
            if tagged {
                let _ = tokens.pop();
            }
            BasicType::Int
        } else {
            match tokens.pop().unwrap() {
                Token::Ide(name, _) => BasicType::Struct(name),
                _ => {
                    return Err(CompileError::Unsupported);
                },
            }
        };
        proof {
            if old(tokens).v().len() >= 2 {
                assert(old(tokens).v().skip(1).skip(1) =~= old(tokens).v().skip(2));
            }
        }
        let nstars = parse_stars(tokens);
        let identifier = match tokens.pop() {
            Some(Token::Ide(name, _)) => name,
            Some(t) => {
                return Err(CompileError::UnexpectedToken(t.get_debug_info()));
            },
            None => {
                return Err(CompileError::UnexpectedEof);
            },
        };
        let has_suffix: bool = match tokens.peek() {
            Some(Token::SuffixOp(_, _)) => true,
            _ => false,
        };
        let ty2 = if has_suffix {
            if is_function_declare {
                match get_array_type_at_function_declare(base, tokens) {
                    Ok(t) => t,
                    Err(e) => {
                        return Err(e);
                    },
                }
            } else {
                match get_array_type(base, tokens) {
                    Ok(t) => t,
                    Err(e) => {
                        return Err(e);
                    },
                }
            }
        } else {
            base
        };
        let value_type = wrap_ptrs(ty2, nstars);
        let has_init: bool = match tokens.peek() {
            Some(Token::Op(Operator::Assign, _)) => true,
            _ => false,
        };
        if has_init {
            let _ = tokens.pop();
            let init = match ExpressionNode::new(tokens, break_op) {
                Ok(e) => e,
                Err(e) => {
                    return Err(e);
                },
            };
            Ok(
                DeclareVariableNode {
                    value_type,
                    identifier,
                    initialize_expression: Some(init),
                },
            )
        } else {
            Ok(DeclareVariableNode { value_type, identifier, initialize_expression: None })
        }
    }
}

impl DeclareStatementNode {
    /// A declarator followed by `;`.
    pub fn new(tokens: &mut Tokens) -> (r: Result<DeclareStatementNode, CompileError>)
        requires
            old(tokens).wf(),
        ensures
            final(tokens).wf(),
            match r {
                Ok(n) => spec_declare_statement_new(old(tokens).v()) matches Ok((nv, t)) && dvn_v(
                    n.declare_variable_node,
                ) == nv && final(tokens).v() == t && final(tokens).remaining().len() < old(tokens).remaining().len(),
                Err(e) => spec_declare_statement_new(old(tokens).v()) == Err::<
                    (DvnV, Seq<TokenV>),
                    ErrV,
                >(e@),
            },
        decreases old(tokens).remaining().len(), 3int,
    {
        let declare_variable_node = match DeclareVariableNode::new(tokens, false, None) {
            Ok(d) => d,
            Err(e) => {
                return Err(e);
            },
        };
        match tokens.peek() {
            Some(Token::Semi(_)) => {
                let _ = tokens.pop();
                Ok(DeclareStatementNode { declare_variable_node })
            },
            Some(t) => Err(CompileError::UnexpectedToken(t.get_debug_info())),
            None => Err(CompileError::UnexpectedEof),
        }
    }
}

/// Statements up to and including the closing `}` of a block.
fn statements_until_curly(tokens: &mut Tokens) -> (r: Result<Vec<StatementNode>, CompileError>)
    requires
        old(tokens).wf(),
    ensures
        final(tokens).wf(),
        match r {
            Ok(ss) => spec_statements_until_curly(old(tokens).v()) matches Ok((sv, t)) && stmts_v(
                ss@,
            ) == sv && final(tokens).v() == t && final(tokens).remaining().len() < old(tokens).remaining().len(),
            Err(e) => spec_statements_until_curly(old(tokens).v()) == Err::<
                (Seq<StmtV>, Seq<TokenV>),
                ErrV,
            >(e@),
        },
    decreases old(tokens).remaining().len(), 8int,
{
    let mut out: Vec<StatementNode> = Vec::new();
    proof {
        assert(stmts_v(out@) =~= Seq::<StmtV>::empty());
    }
    loop
        invariant
            tokens.wf(),
            tokens.remaining().len() <= old(tokens).remaining().len(),
            match spec_statements_until_curly(tokens.v()) {
                Ok((rest, t)) => spec_statements_until_curly(old(tokens).v()) == Ok::<
                    (Seq<StmtV>, Seq<TokenV>),
                    ErrV,
                >((stmts_v(out@) + rest, t)),
                Err(e) => spec_statements_until_curly(old(tokens).v()) == Err::<
                    (Seq<StmtV>, Seq<TokenV>),
                    ErrV,
                >(e),
            },
        decreases tokens.remaining().len(),
    {
        let kind: u32 = match tokens.peek() {
            None => 0,
            Some(Token::CurlyE(_)) => 1,
            _ => 2,
        };
        if kind == 0 {
            return Err(CompileError::UnexpectedEof);
        }
        if kind == 1 {
            let _ = tokens.pop();
            proof {
                assert(stmts_v(out@) + Seq::<StmtV>::empty() =~= stmts_v(out@));
            }
            return Ok(out);
        }
        let ghost before = tokens.v();
        let ghost acc = out@;
        let st = match StatementNode::new(tokens) {
            Ok(s) => s,
            Err(e) => {
                return Err(e);
            },
        };
        proof {
            lemma_stmts_v_push(acc, st);
            let r0 = spec_statements_until_curly(tokens.v());
            if r0 is Ok {
                let rest = r0->Ok_0.0;
                assert(stmts_v(acc) + (seq![stmt_v(st)] + rest) =~= stmts_v(acc.push(st)) + rest);
            }
        }
        out.push(st);
    }
}

/// Statements up to the next `case`, `default` or `}` label.
fn statements_until_label(tokens: &mut Tokens) -> (r: Result<Vec<StatementNode>, CompileError>)
    requires
        old(tokens).wf(),
    ensures
        final(tokens).wf(),
        match r {
            Ok(ss) => spec_statements_until_label(old(tokens).v()) matches Ok((sv, t)) && stmts_v(
                ss@,
            ) == sv && final(tokens).v() == t && final(tokens).remaining().len() <= old(tokens).remaining().len(),
            Err(e) => spec_statements_until_label(old(tokens).v()) == Err::<
                (Seq<StmtV>, Seq<TokenV>),
                ErrV,
            >(e@),
        },
    decreases old(tokens).remaining().len(), 8int,
{
    let mut out: Vec<StatementNode> = Vec::new();
    proof {
        assert(stmts_v(out@) =~= Seq::<StmtV>::empty());
    }
    loop
        invariant
            tokens.wf(),
            tokens.remaining().len() <= old(tokens).remaining().len(),
            match spec_statements_until_label(tokens.v()) {
                Ok((rest, t)) => spec_statements_until_label(old(tokens).v()) == Ok::<
                    (Seq<StmtV>, Seq<TokenV>),
                    ErrV,
                >((stmts_v(out@) + rest, t)),
                Err(e) => spec_statements_until_label(old(tokens).v()) == Err::<
                    (Seq<StmtV>, Seq<TokenV>),
                    ErrV,
                >(e),
            },
        decreases tokens.remaining().len(),
    {
        let kind: u32 = match tokens.peek() {
            None => 0,
            Some(Token::Case(_)) | Some(Token::Default(_)) | Some(Token::CurlyE(_)) => 1,
            _ => 2,
        };
        if kind == 0 {
            return Err(CompileError::UnexpectedEof);
        }
        if kind == 1 {
            proof {
                assert(stmts_v(out@) + Seq::<StmtV>::empty() =~= stmts_v(out@));
            }
            return Ok(out);
        }
        let ghost acc = out@;
        let st = match StatementNode::new(tokens) {
            Ok(s) => s,
            Err(e) => {
                return Err(e);
            },
        };
        proof {
            lemma_stmts_v_push(acc, st);
            let r0 = spec_statements_until_label(tokens.v());
            if r0 is Ok {
                let rest = r0->Ok_0.0;
                assert(stmts_v(acc) + (seq![stmt_v(st)] + rest) =~= stmts_v(acc.push(st)) + rest);
            }
        }
        out.push(st);
    }
}

/// An expression followed by `;`.
fn expr_semi(tokens: &mut Tokens) -> (r: Result<ExpressionNode, CompileError>)
    requires
        old(tokens).wf(),
    ensures
        final(tokens).wf(),
        match r {
            Ok(e) => spec_expr_semi(old(tokens).v()) matches Ok((ev, t)) && e@ == ev && final(tokens).v() == t && final(tokens).remaining().len() < old(tokens).remaining().len(),
            Err(e) => spec_expr_semi(old(tokens).v()) == Err::<(ExprV, Seq<TokenV>), ErrV>(e@),
        },
    decreases old(tokens).remaining().len(), 0int,
{
    let e = match ExpressionNode::new(tokens, None) {
        Ok(e) => e,
        Err(e) => {
            return Err(e);
        },
    };
    match tokens.peek() {
        Some(Token::Semi(_)) => {
            let _ = tokens.pop();
            Ok(e)
        },
        Some(t) => Err(CompileError::UnexpectedToken(t.get_debug_info())),
        None => Err(CompileError::UnexpectedEof),
    }
}

/// `( expr )` around a condition.
fn paren_expr(tokens: &mut Tokens) -> (r: Result<ExpressionNode, CompileError>)
    requires
        old(tokens).wf(),
    ensures
        final(tokens).wf(),
        match r {
            Ok(e) => spec_paren_expr(old(tokens).v()) matches Ok((ev, t)) && e@ == ev && final(tokens).v() == t && final(tokens).remaining().len() < old(tokens).remaining().len(),
            Err(e) => spec_paren_expr(old(tokens).v()) == Err::<(ExprV, Seq<TokenV>), ErrV>(e@),
        },
    decreases old(tokens).remaining().len(), 0int,
{
    match tokens.peek() {
        Some(Token::SuffixOp(SuffixOp::Call, _)) => (),
        Some(t) => {
            return Err(CompileError::UnexpectedToken(t.get_debug_info()));
        },
        None => {
            return Err(CompileError::UnexpectedEof);
        },
    }
    let _ = tokens.pop();
    let e = match ExpressionNode::new(tokens, None) {
        Ok(e) => e,
        Err(e) => {
            return Err(e);
        },
    };
    match tokens.peek() {
        Some(Token::ParenE(_)) => {
            let _ = tokens.pop();
            Ok(e)
        },
        Some(t) => Err(CompileError::UnexpectedToken(t.get_debug_info())),
        None => Err(CompileError::UnexpectedEof),
    }
}



impl ExpressionStatementNode {
    /// An expression statement, ended by `;`.
    pub fn new(tokens: &mut Tokens) -> (r: Result<ExpressionStatementNode, CompileError>)
        requires
            old(tokens).wf(),
        ensures
            final(tokens).wf(),
            match r {
                Ok(n) => spec_expr_semi(old(tokens).v()) matches Ok((ev, t)) && expr_v(
                    n.expression,
                ) == ev && final(tokens).v() == t && final(tokens).remaining().len() < old(tokens).remaining().len(),
                Err(e) => spec_expr_semi(old(tokens).v()) == Err::<(ExprV, Seq<TokenV>), ErrV>(e@),
            },
        decreases old(tokens).remaining().len(), 1int,
    {
        match expr_semi(tokens) {
            Ok(e) => Ok(ExpressionStatementNode { expression: e }),
            Err(e) => Err(e),
        }
    }
}

impl ReturnStatementNode {
    /// `return expr ;`.
    pub fn new(tokens: &mut Tokens) -> (r: Result<ReturnStatementNode, CompileError>)
        requires
            old(tokens).wf(),
            old(tokens).remaining().len() > 0,
        ensures
            final(tokens).wf(),
            match r {
                Ok(n) => spec_expr_semi(old(tokens).v().skip(1)) matches Ok((ev, t)) && expr_v(
                    n.expression,
                ) == ev && final(tokens).v() == t && final(tokens).remaining().len() < old(tokens).remaining().len(),
                Err(e) => spec_expr_semi(old(tokens).v().skip(1)) == Err::<
                    (ExprV, Seq<TokenV>),
                    ErrV,
                >(e@),
            },
        decreases old(tokens).remaining().len(), 1int,
    {
        let _ = tokens.pop();
        match expr_semi(tokens) {
            Ok(e) => Ok(ReturnStatementNode { expression: e }),
            Err(e) => Err(e),
        }
    }
}

impl CompoundStatementNode {
    /// `{ statements }`.
    pub fn new(tokens: &mut Tokens) -> (r: Result<CompoundStatementNode, CompileError>)
        requires
            old(tokens).wf(),
        ensures
            final(tokens).wf(),
            match r {
                Ok(n) => spec_compound_new(old(tokens).v()) matches Ok((sv, t)) && stmts_v(
                    n.statements@,
                ) == sv && final(tokens).v() == t && final(tokens).remaining().len() < old(tokens).remaining().len(),
                Err(e) => spec_compound_new(old(tokens).v()) == Err::<
                    (Seq<StmtV>, Seq<TokenV>),
                    ErrV,
                >(e@),
            },
        decreases old(tokens).remaining().len(), 1int,
    {
        match tokens.peek() {
            Some(Token::CurlyS(_)) => (),
            Some(t) => {
                return Err(CompileError::UnexpectedToken(t.get_debug_info()));
            },
            None => {
                return Err(CompileError::UnexpectedEof);
            },
        }
        let _ = tokens.pop();
        match statements_until_curly(tokens) {
            Ok(ss) => Ok(CompoundStatementNode { statements: ss }),
            Err(e) => Err(e),
        }
    }
}

impl IfStatementNode {
    /// `if (cond) stmt [else stmt]`.
    pub fn new(tokens: &mut Tokens) -> (r: Result<IfStatementNode, CompileError>)
        requires
            old(tokens).wf(),
        ensures
            final(tokens).wf(),
            match r {
                Ok(n) => spec_if_new(old(tokens).v()) matches Ok((sv, t)) && stmt_v(
                    StatementNode::If(n),
                ) == sv && final(tokens).v() == t && final(tokens).remaining().len() < old(tokens).remaining().len(),
                Err(e) => spec_if_new(old(tokens).v()) == Err::<(StmtV, Seq<TokenV>), ErrV>(e@),
            },
        decreases old(tokens).remaining().len(), 1int,
    {
        match tokens.peek() {
            Some(Token::If(_)) => (),
            _ => {
                return Err(CompileError::UnexpectedEof);
            },
        }
        let _ = tokens.pop();
        let cond = match paren_expr(tokens) {
            Ok(e) => e,
            Err(e) => {
                return Err(e);
            },
        };
        let block = match StatementNode::new(tokens) {
            Ok(s) => s,
            Err(e) => {
                return Err(e);
            },
        };
        let has_else: bool = match tokens.peek() {
            Some(Token::Else(_)) => true,
            _ => false,
        };
        if has_else {
            let _ = tokens.pop();
            let els = match StatementNode::new(tokens) {
                Ok(s) => s,
                Err(e) => {
                    return Err(e);
                },
            };
            Ok(
                IfStatementNode {
                    condition_expression: cond,
                    block: Box::new(block),
                    else_block: Some(Box::new(els)),
                },
            )
        } else {
            Ok(
                IfStatementNode {
                    condition_expression: cond,
                    block: Box::new(block),
                    else_block: None,
                },
            )
        }
    }
}

impl WhileStatementNode {
    /// `while (cond) stmt`.
    pub fn new(tokens: &mut Tokens) -> (r: Result<WhileStatementNode, CompileError>)
        requires
            old(tokens).wf(),
        ensures
            final(tokens).wf(),
            match r {
                Ok(n) => spec_while_new(old(tokens).v()) matches Ok((sv, t)) && stmt_v(
                    StatementNode::While(n),
                ) == sv && final(tokens).v() == t && final(tokens).remaining().len() < old(tokens).remaining().len(),
                Err(e) => spec_while_new(old(tokens).v()) == Err::<(StmtV, Seq<TokenV>), ErrV>(e@),
            },
        decreases old(tokens).remaining().len(), 1int,
    {
        match tokens.peek() {
            Some(Token::While(_)) => (),
            _ => {
                return Err(CompileError::UnexpectedEof);
            },
        }
        let _ = tokens.pop();
        let cond = match paren_expr(tokens) {
            Ok(e) => e,
            Err(e) => {
                return Err(e);
            },
        };
        let block = match StatementNode::new(tokens) {
            Ok(s) => s,
            Err(e) => {
                return Err(e);
            },
        };
        Ok(WhileStatementNode { condition_expression: cond, block: Box::new(block) })
    }
}

impl SwitchStatementNode {
    /// `switch (value) { cases }`.
    pub fn new(tokens: &mut Tokens) -> (r: Result<SwitchStatementNode, CompileError>)
        requires
            old(tokens).wf(),
        ensures
            final(tokens).wf(),
            match r {
                Ok(n) => spec_switch_new(old(tokens).v()) matches Ok((sv, t)) && stmt_v(
                    StatementNode::Switch(n),
                ) == sv && final(tokens).v() == t && final(tokens).remaining().len() < old(tokens).remaining().len(),
                Err(e) => spec_switch_new(old(tokens).v()) == Err::<(StmtV, Seq<TokenV>), ErrV>(
                    e@,
                ),
            },
        decreases old(tokens).remaining().len(), 1int,
    {
        match tokens.peek() {
            Some(Token::Switch(_)) => (),
            _ => {
                return Err(CompileError::UnexpectedEof);
            },
        }
        let _ = tokens.pop();
        let cond = match paren_expr(tokens) {
            Ok(e) => e,
            Err(e) => {
                return Err(e);
            },
        };
        let body = match CompoundStatementNode::new(tokens) {
            Ok(s) => s,
            Err(e) => {
                return Err(e);
            },
        };
        Ok(SwitchStatementNode { condition_expression: cond, statements: body })
    }
}

impl CaseStatementNode {
    /// `case expr:` with its body.
    pub fn new(tokens: &mut Tokens) -> (r: Result<CaseStatementNode, CompileError>)
        requires
            old(tokens).wf(),
        ensures
            final(tokens).wf(),
            match r {
                Ok(n) => spec_case_new(old(tokens).v()) matches Ok((sv, t)) && stmt_v(
                    StatementNode::Case(n),
                ) == sv && final(tokens).v() == t && final(tokens).remaining().len() < old(tokens).remaining().len(),
                Err(e) => spec_case_new(old(tokens).v()) == Err::<(StmtV, Seq<TokenV>), ErrV>(e@),
            },
        decreases old(tokens).remaining().len(), 1int,
    {
        match tokens.peek() {
            Some(Token::Case(_)) => (),
            _ => {
                return Err(CompileError::UnexpectedEof);
            },
        }
        let _ = tokens.pop();
        let cond = match ExpressionNode::new(tokens, None) {
            Ok(e) => e,
            Err(e) => {
                return Err(e);
            },
        };
        match tokens.peek() {
            Some(Token::Colon(_)) => (),
            Some(t) => {
                return Err(CompileError::UnexpectedToken(t.get_debug_info()));
            },
            None => {
                return Err(CompileError::UnexpectedEof);
            },
        }
        let _ = tokens.pop();
        let body = match statements_until_label(tokens) {
            Ok(ss) => ss,
            Err(e) => {
                return Err(e);
            },
        };
        Ok(
            CaseStatementNode {
                condition_expression: cond,
                statements: CompoundStatementNode { statements: body },
            },
        )
    }
}

impl DefaultStatementNode {
    /// `default:` with its body.
    pub fn new(tokens: &mut Tokens) -> (r: Result<DefaultStatementNode, CompileError>)
        requires
            old(tokens).wf(),
        ensures
            final(tokens).wf(),
            match r {
                Ok(n) => spec_default_new(old(tokens).v()) matches Ok((sv, t)) && stmt_v(
                    StatementNode::Default(n),
                ) == sv && final(tokens).v() == t && final(tokens).remaining().len() < old(tokens).remaining().len(),
                Err(e) => spec_default_new(old(tokens).v()) == Err::<(StmtV, Seq<TokenV>), ErrV>(
                    e@,
                ),
            },
        decreases old(tokens).remaining().len(), 1int,
    {
        if tokens.remaining_len() < 2 {
            return Err(CompileError::UnexpectedEof);
        }
        match tokens.peek() {
            Some(Token::Default(_)) => (),
            Some(t) => {
                return Err(CompileError::UnexpectedToken(t.get_debug_info()));
            },
            None => {
                return Err(CompileError::UnexpectedEof);
            },
        }
        let colon: bool = match tokens.peek_at(1) {
            Some(Token::Colon(_)) => true,
            _ => false,
        };
        if !colon {
            return Err(CompileError::UnexpectedToken(tokens.peek_at(1).unwrap().get_debug_info()));
        }
        let _ = tokens.pop();
        let _ = tokens.pop();
        proof {
            assert(tokens.v() =~= old(tokens).v().skip(2));
        }
        let body = match statements_until_label(tokens) {
            Ok(ss) => ss,
            Err(e) => {
                return Err(e);
            },
        };
        Ok(DefaultStatementNode { statements: CompoundStatementNode { statements: body } })
    }
}

impl BreakStatementNode {
    /// `break ;`.
    pub fn new(tokens: &mut Tokens) -> (r: Result<BreakStatementNode, CompileError>)
        requires
            old(tokens).wf(),
            old(tokens).remaining().len() > 0,
            old(tokens).v()[0] is Break,
        ensures
            final(tokens).wf(),
            match r {
                Ok(n) => spec_statement_new(old(tokens).v()) matches Ok((sv, t)) && sv
                    == StmtV::Break && final(tokens).v() == t && final(tokens).remaining().len()
                    < old(tokens).remaining().len(),
                Err(e) => spec_statement_new(old(tokens).v()) == Err::<(StmtV, Seq<TokenV>), ErrV>(
                    e@,
                ),
            },
        decreases old(tokens).remaining().len(), 1int,
    {
        let _ = tokens.pop();
        match tokens.peek() {
            Some(Token::Semi(_)) => {
                let _ = tokens.pop();
                proof {
                    assert(tokens.v() =~= old(tokens).v().skip(2));
                }
                Ok(BreakStatementNode {  })
            },
            Some(t) => Err(CompileError::UnexpectedToken(t.get_debug_info())),
            None => Err(CompileError::UnexpectedEof),
        }
    }
}

impl ContinueStatementNode {
    /// `continue ;`.
    pub fn new(tokens: &mut Tokens) -> (r: Result<ContinueStatementNode, CompileError>)
        requires
            old(tokens).wf(),
            old(tokens).remaining().len() > 0,
            old(tokens).v()[0] is Continue,
        ensures
            final(tokens).wf(),
            match r {
                Ok(n) => spec_statement_new(old(tokens).v()) matches Ok((sv, t)) && sv
                    == StmtV::Continue && final(tokens).v() == t && final(tokens).remaining().len() < old(tokens).remaining().len(),
                Err(e) => spec_statement_new(old(tokens).v()) == Err::<(StmtV, Seq<TokenV>), ErrV>(
                    e@,
                ),
            },
        decreases old(tokens).remaining().len(), 1int,
    {
        let _ = tokens.pop();
        match tokens.peek() {
            Some(Token::Semi(_)) => {
                let _ = tokens.pop();
                proof {
                    assert(tokens.v() =~= old(tokens).v().skip(2));
                }
                Ok(ContinueStatementNode {  })
            },
            Some(t) => Err(CompileError::UnexpectedToken(t.get_debug_info())),
            None => Err(CompileError::UnexpectedEof),
        }
    }
}

impl ForStatementNode {
    /// `for (init; cond; step) stmt`.
    pub fn new(tokens: &mut Tokens) -> (r: Result<ForStatementNode, CompileError>)
        requires
            old(tokens).wf(),
        ensures
            final(tokens).wf(),
            match r {
                Ok(n) => spec_for_new(old(tokens).v()) matches Ok((sv, t)) && stmt_v(
                    StatementNode::For(n),
                ) == sv && final(tokens).v() == t && final(tokens).remaining().len() < old(tokens).remaining().len(),
                Err(e) => spec_for_new(old(tokens).v()) == Err::<(StmtV, Seq<TokenV>), ErrV>(e@),
            },
        decreases old(tokens).remaining().len(), 1int,
    {
        if tokens.remaining_len() < 2 {
            return Err(CompileError::UnexpectedEof);
        }
        match tokens.peek() {
            Some(Token::For(_)) => (),
            Some(t) => {
                return Err(CompileError::UnexpectedToken(t.get_debug_info()));
            },
            None => {
                return Err(CompileError::UnexpectedEof);
            },
        }
        let open_ok: bool = match tokens.peek_at(1) {
            Some(Token::SuffixOp(SuffixOp::Call, _)) => true,
            _ => false,
        };
        if !open_ok {
            return Err(CompileError::UnexpectedToken(tokens.peek_at(1).unwrap().get_debug_info()));
        }
        let _ = tokens.pop();
        let _ = tokens.pop();
        proof {
            assert(tokens.v() =~= old(tokens).v().skip(2));
        }
        let init = match StatementNode::new(tokens) {
            Ok(s) => s,
            Err(e) => {
                return Err(e);
            },
        };
        let cond = match expr_semi(tokens) {
            Ok(e) => e,
            Err(e) => {
                return Err(e);
            },
        };
        let step = match ExpressionNode::new(tokens, None) {
            Ok(e) => e,
            Err(e) => {
                return Err(e);
            },
        };
        match tokens.peek() {
            Some(Token::ParenE(_)) => (),
            Some(t) => {
                return Err(CompileError::UnexpectedToken(t.get_debug_info()));
            },
            None => {
                return Err(CompileError::UnexpectedEof);
            },
        }
        let _ = tokens.pop();
        let block = match StatementNode::new(tokens) {
            Ok(s) => s,
            Err(e) => {
                return Err(e);
            },
        };
        Ok(
            ForStatementNode {
                first_statement: Box::new(init),
                condition_expression: cond,
                loop_expression: step,
                block: Box::new(block),
            },
        )
    }
}

impl StructDefinitionNode {
    /// `struct TAG { fields };`.
    #[verifier::loop_isolation(false)]
    pub fn new(tokens: &mut Tokens) -> (r: Result<StructDefinitionNode, CompileError>)
        requires
            old(tokens).wf(),
        ensures
            final(tokens).wf(),
            match r {
                Ok(n) => spec_struct_definition_new(old(tokens).v()) matches Ok((sv, t))
                    && struct_def_v(n) == sv && final(tokens).v() == t && final(tokens).remaining().len() < old(tokens).remaining().len(),
                Err(e) => spec_struct_definition_new(old(tokens).v()) == Err::<
                    (StructDefV, Seq<TokenV>),
                    ErrV,
                >(e@),
            },
        decreases old(tokens).remaining().len(), 5int,
    {
        if tokens.remaining_len() < 3 {
            return Err(CompileError::UnexpectedEof);
        }
        match tokens.peek() {
            Some(Token::Struct(_)) => (),
            _ => {
                return Err(CompileError::UnexpectedToken(
                    tokens.peek().unwrap().get_debug_info(),
                ));
            },
        }
        let name_ok: bool = match tokens.peek_at(1) {
            Some(Token::Ide(_, _)) => true,
            _ => false,
        };
        if !name_ok {
            return Err(CompileError::UnexpectedToken(tokens.peek_at(1).unwrap().get_debug_info()));
        }
        let open_ok: bool = match tokens.peek_at(2) {
            Some(Token::CurlyS(_)) => true,
            _ => false,
        };
        if !open_ok {
            return Err(CompileError::UnexpectedToken(tokens.peek_at(2).unwrap().get_debug_info()));
        }
        let _ = tokens.pop();
        let identifier = match tokens.pop() {
            Some(Token::Ide(name, _)) => name,
            _ => {
                return Err(CompileError::Unsupported);
            },
        };
        let _ = tokens.pop();
        proof {
            assert(tokens.v() =~= old(tokens).v().skip(3));
        }
        let ghost entry = tokens.v();
        let mut members: Vec<(String, BasicType)> = Vec::new();
        proof {
            assert(members_v(members@)
                =~= Seq::<(Seq<char>, BasicTypeV)>::empty());
        }
        loop
            invariant
                tokens.wf(),
                tokens.remaining().len() <= entry.len(),
                old(tokens).v().len() >= 3,
                old(tokens).v()[1] is Ide,
                identifier@ == old(tokens).v()[1]->Ide_0,
                spec_struct_definition_new(old(tokens).v()) == (match spec_struct_members(
                    tokens.v(),
                ) {
                    Ok((ms, t)) => {
                        let all = members@.map_values(
                            |m: (String, BasicType)| (m.0@, basic_type_v(m.1)),
                        ) + ms;
                        if t.len() > 0 && t[0] is Semi {
                            Ok::<(StructDefV, Seq<TokenV>), ErrV>(
                                (
                                    StructDefV {
                                        identifier: old(tokens).v()[1]->Ide_0,
                                        members: all,
                                    },
                                    t.skip(1),
                                ),
                            )
                        } else if t.len() > 0 {
                            Err(ErrV::UnexpectedToken(tok_dbg(t[0])))
                        } else {
                            Err(ErrV::UnexpectedEof)
                        }
                    },
                    Err(e) => Err(e),
                }),
            decreases tokens.remaining().len(),
        {
            let ghost iter = tokens.v();
            let kind: u32 = match tokens.peek() {
                None => 0,
                Some(Token::CurlyE(_)) => 1,
                _ => 2,
            };
            if kind == 0 {
                return Err(CompileError::UnexpectedEof);
            }
            if kind == 1 {
                proof {
                    assert(spec_struct_members(iter) == Ok::<
                        (Seq<(Seq<char>, BasicTypeV)>, Seq<TokenV>),
                        ErrV,
                    >((Seq::empty(), iter.skip(1))));
                }
                let _ = tokens.pop();
                match tokens.peek() {
                    Some(Token::Semi(_)) => {
                        let _ = tokens.pop();
                        proof {
                            assert(members@.map_values(
                                |m: (String, BasicType)| (m.0@, basic_type_v(m.1)),
                            ) + Seq::<(Seq<char>, BasicTypeV)>::empty() =~= members@.map_values(
                                |m: (String, BasicType)| (m.0@, basic_type_v(m.1)),
                            ));
                        }
                        return Ok(StructDefinitionNode { identifier, members });
                    },
                    Some(t) => {
                        return Err(CompileError::UnexpectedToken(t.get_debug_info()));
                    },
                    None => {
                        return Err(CompileError::UnexpectedEof);
                    },
                }
            }
            let ghost acc = members@;
            let d = match DeclareStatementNode::new(tokens) {
                Ok(d) => d,
                Err(e) => {
                    return Err(e);
                },
            };
            let dv = d.declare_variable_node;
            proof {
                let f = |m: (String, BasicType)| (m.0@, basic_type_v(m.1));
                let r0 = spec_struct_members(tokens.v());
                if r0 is Ok {
                    let ms = r0->Ok_0.0;
                    assert(members_v(acc.push((dv.identifier, dv.value_type))) =~= members_v(acc).push((
                        dv.identifier@,
                        basic_type_v(dv.value_type),
                    )));
                    assert(members_v(acc) + (seq![(dv.identifier@, basic_type_v(dv.value_type))] + ms)
                        =~= members_v(acc.push((dv.identifier, dv.value_type))) + ms);
                }
            }
            members.push((dv.identifier, dv.value_type));
        }
    }
}

impl StructStatementNode {
    /// A `struct` statement: definition or declaration, told apart by the
    /// token after the tag.
    pub fn new(tokens: &mut Tokens) -> (r: Result<StructStatementNode, CompileError>)
        requires
            old(tokens).wf(),
        ensures
            final(tokens).wf(),
            match r {
                Ok(n) => spec_struct_statement_new(old(tokens).v()) matches Ok((sv, t)) && (match n
                    {
                    StructStatementNode::Declare(d) => StructStmtV::Declare(
                        dvn_v(d.declare_variable_node),
                    ),
                    StructStatementNode::Definition(d) => StructStmtV::Definition(struct_def_v(d)),
                }) == sv && final(tokens).v() == t && final(tokens).remaining().len() < old(tokens).remaining().len(),
                Err(e) => spec_struct_statement_new(old(tokens).v()) == Err::<
                    (StructStmtV, Seq<TokenV>),
                    ErrV,
                >(e@),
            },
        decreases old(tokens).remaining().len(), 6int,
    {
        if tokens.remaining_len() < 3 {
            return Err(CompileError::UnexpectedEof);
        }
        let def: bool = match tokens.peek_at(2) {
            Some(Token::CurlyS(_)) => true,
            _ => false,
        };
        if def {
            match StructDefinitionNode::new(tokens) {
                Ok(d) => Ok(StructStatementNode::Definition(d)),
                Err(e) => Err(e),
            }
        } else {
            match DeclareStatementNode::new(tokens) {
                Ok(d) => Ok(StructStatementNode::Declare(d)),
                Err(e) => Err(e),
            }
        }
    }
}

impl EnumDefinitionNode {
    /// `enum [TAG] { enumerators };` — each enumerator becomes an `int`
    /// declarator; a missing value is the previous one plus one, the first
    /// defaulting to zero.
    #[verifier::loop_isolation(false)]
    #[verifier::rlimit(60)]
    #[verifier::spinoff_prover]
    pub fn new(tokens: &mut Tokens) -> (r: Result<EnumDefinitionNode, CompileError>)
        requires
            old(tokens).wf(),
        ensures
            final(tokens).wf(),
            match r {
                Ok(n) => spec_enum_definition_new(old(tokens).v()) matches Ok((sv, t))
                    && enum_def_v(n) == sv && final(tokens).v() == t && final(tokens).remaining().len() < old(tokens).remaining().len(),
                Err(e) => spec_enum_definition_new(old(tokens).v()) == Err::<
                    (EnumDefV, Seq<TokenV>),
                    ErrV,
                >(e@),
            },
        decreases old(tokens).remaining().len(), 5int,
    {
        if tokens.remaining_len() < 2 {
            return Err(CompileError::UnexpectedEof);
        }
        match tokens.peek() {
            Some(Token::Enum(_)) => (),
            _ => {
                return Err(CompileError::UnexpectedToken(
                    tokens.peek().unwrap().get_debug_info(),
                ));
            },
        }
        let _ = tokens.pop();
        proof {
            assert(tokens.v() =~= old(tokens).v().skip(1));
        }
        let tagged: bool = match tokens.peek() {
            Some(Token::Ide(_, _)) => true,
            _ => false,
        };
        let tag: Option<String> = if tagged {
            match tokens.pop() {
                Some(Token::Ide(name, _)) => Some(name),
                _ => {
                    return Err(CompileError::Unsupported);
                },
            }
        } else {
            None
        };
        proof {
            if tagged {
                assert(tokens.v() =~= old(tokens).v().skip(2));
            }
        }
        match tokens.peek() {
            Some(Token::CurlyS(_)) => (),
            Some(t) => {
                return Err(CompileError::UnexpectedToken(t.get_debug_info()));
            },
            None => {
                return Err(CompileError::UnexpectedEof);
            },
        }
        let _ = tokens.pop();
        let ghost entry = tokens.v();
        let mut enums: Vec<DeclareVariableNode> = Vec::new();
        let mut pre = ExpressionNode::Token(
            crate::expression::TokenNode {
                token: Token::IntNum(String::from_str("0"), enum_dummy_info()),
            },
        );
        let mut cnt: u64 = 0;
        proof {
            assert(dvns_v(enums@) =~= Seq::<DvnV>::empty());
        }
        loop
            invariant
                tokens.wf(),
                tokens.remaining().len() <= entry.len(),
                cnt as int + tokens.remaining().len() <= entry.len(),
                spec_enum_members(entry, ExprV::Token(TokenV::IntNum("0"@, enum_dummy_dbg())), 0)
                    == (match spec_enum_members(tokens.v(), pre@, cnt as nat) {
                    Ok((es, t)) => Ok::<(Seq<DvnV>, Seq<TokenV>), ErrV>(
                        (dvns_v(enums@) + es, t),
                    ),
                    Err(e) => Err(e),
                }),
            decreases tokens.remaining().len(),
        {
            let ghost iter = tokens.v();
            let kind: u32 = match tokens.peek() {
                None => 0,
                Some(Token::CurlyE(_)) => 1,
                Some(Token::Ide(_, _)) => 2,
                _ => 3,
            };
            if kind == 0 {
                return Err(CompileError::UnexpectedEof);
            }
            if kind == 3 {
                return Err(CompileError::UnexpectedToken(
                    tokens.peek().unwrap().get_debug_info(),
                ));
            }
            if kind == 1 {
                proof {
                    assert(spec_enum_members(iter, pre@, cnt as nat) == Ok::<
                        (Seq<DvnV>, Seq<TokenV>),
                        ErrV,
                    >((Seq::empty(), iter.skip(1))));
                }
                let _ = tokens.pop();
                match tokens.peek() {
                    Some(Token::Semi(_)) => {
                        let _ = tokens.pop();
                        proof {
                            assert(dvns_v(enums@) + Seq::<
                                DvnV,
                            >::empty() =~= dvns_v(enums@));
                        }
                        return Ok(EnumDefinitionNode { tag, enums });
                    },
                    Some(t) => {
                        return Err(CompileError::UnexpectedToken(t.get_debug_info()));
                    },
                    None => {
                        return Err(CompileError::UnexpectedEof);
                    },
                }
            }
            let ghost iter_toks = tokens.v();
            let name = match tokens.pop() {
                Some(Token::Ide(name, _)) => name,
                _ => {
                    return Err(CompileError::Unsupported);
                },
            };
            let assigned: bool = match tokens.peek() {
                Some(Token::Op(Operator::Assign, _)) => true,
                _ => false,
            };
            let init: ExpressionNode = if assigned {
                let _ = tokens.pop();
                proof {
                    assert(tokens.v() =~= iter_toks.skip(1).skip(1));
                    assert(iter_toks.skip(1).skip(1) =~= iter_toks.skip(2));
                }
                match ExpressionNode::new(tokens, Some(Operator::Comma)) {
                    Ok(e) => e,
                    Err(e) => {
                        return Err(e);
                    },
                }
            } else if cnt == 0 {
                pre.dup()
            } else {
                let num: Option<u64> = match &pre {
                    ExpressionNode::Token(tn) => match &tn.token {
                        Token::IntNum(s, _) => parse_u64(s.as_str()),
                        _ => {
                            return Err(CompileError::NotAConstant);
                        },
                    },
                    _ => {
                        return Err(CompileError::NotAConstant);
                    },
                };
                let v = match num {
                    Some(v) => v,
                    None => {
                        return Err(CompileError::NumberOverflow);
                    },
                };
                if v == u64::MAX {
                    return Err(CompileError::NumberOverflow);
                }
                proof {
                    crate::text::lemma_dec_str_val((v + 1) as nat);
                }
                ExpressionNode::Token(
                    crate::expression::TokenNode {
                        token: Token::IntNum(u64_to_string(v + 1), enum_dummy_info()),
                    },
                )
            };
            let comma: bool = match tokens.peek() {
                Some(Token::Op(Operator::Comma, _)) => true,
                _ => false,
            };
            if comma {
                let _ = tokens.pop();
            }
            let ghost acc = enums@;
            let node = DeclareVariableNode {
                value_type: BasicType::Int,
                identifier: name,
                initialize_expression: Some(init.dup()),
            };
            proof {
                let f = |e: DeclareVariableNode| dvn_v(e);
                let r0 = spec_enum_members(tokens.v(), init@, (cnt + 1) as nat);
                if r0 is Ok {
                    let es = r0->Ok_0.0;
                    assert(dvns_v(acc.push(node)) =~= dvns_v(acc).push(dvn_v(node)));
                    assert(dvns_v(acc) + (seq![dvn_v(node)] + es) =~= dvns_v(acc.push(node)) + es);
                }
            }
            enums.push(node);
            pre = init;
            cnt = cnt + 1;
        }
    }
}

impl EnumStatementNode {
    /// An `enum` statement: definition or declaration.
    pub fn new(tokens: &mut Tokens) -> (r: Result<EnumStatementNode, CompileError>)
        requires
            old(tokens).wf(),
        ensures
            final(tokens).wf(),
            match r {
                Ok(n) => spec_enum_statement_new(old(tokens).v()) matches Ok((sv, t)) && (match n {
                    EnumStatementNode::Declare(d) => EnumStmtV::Declare(
                        dvn_v(d.declare_variable_node),
                    ),
                    EnumStatementNode::Definition(d) => EnumStmtV::Definition(enum_def_v(d)),
                }) == sv && final(tokens).v() == t && final(tokens).remaining().len() < old(tokens).remaining().len(),
                Err(e) => spec_enum_statement_new(old(tokens).v()) == Err::<
                    (EnumStmtV, Seq<TokenV>),
                    ErrV,
                >(e@),
            },
        decreases old(tokens).remaining().len(), 6int,
    {
        if tokens.remaining_len() < 2 {
            return Err(CompileError::UnexpectedEof);
        }
        let tagged: bool = match tokens.peek_at(1) {
            Some(Token::Ide(_, _)) => true,
            _ => false,
        };
        let def: bool = if tagged {
            match tokens.peek_at(2) {
                Some(Token::CurlyS(_)) => true,
                _ => false,
            }
        } else {
            match tokens.peek_at(1) {
                Some(Token::CurlyS(_)) => true,
                _ => false,
            }
        };
        if def {
            match EnumDefinitionNode::new(tokens) {
                Ok(d) => Ok(EnumStatementNode::Definition(d)),
                Err(e) => Err(e),
            }
        } else {
            match DeclareStatementNode::new(tokens) {
                Ok(d) => Ok(EnumStatementNode::Declare(d)),
                Err(e) => Err(e),
            }
        }
    }
}

impl StatementNode {
    /// One statement, dispatched on its first token.
    #[verifier::rlimit(100)]
    #[verifier::spinoff_prover]
    pub fn new(tokens: &mut Tokens) -> (r: Result<StatementNode, CompileError>)
        requires
            old(tokens).wf(),
        ensures
            final(tokens).wf(),
            match r {
                Ok(n) => spec_statement_new(old(tokens).v()) matches Ok((sv, t)) && n@ == sv
                    && final(tokens).v() == t && final(tokens).remaining().len() < old(tokens).remaining().len(),
                Err(e) => spec_statement_new(old(tokens).v()) == Err::<(StmtV, Seq<TokenV>), ErrV>(
                    e@,
                ),
            },
        decreases old(tokens).remaining().len(), 7int,
    {
        let kind: u32 = match tokens.peek() {
            None => 0,
            Some(Token::Type(_, _)) => 1,
            Some(Token::Struct(_)) => 2,
            Some(Token::Enum(_)) => 3,
            Some(Token::Return(_)) => 4,
            Some(Token::CurlyS(_)) => 5,
            Some(Token::If(_)) => 6,
            Some(Token::While(_)) => 7,
            Some(Token::Switch(_)) => 8,
            Some(Token::Case(_)) => 9,
            Some(Token::Default(_)) => 10,
            Some(Token::Break(_)) => 11,
            Some(Token::Continue(_)) => 12,
            Some(Token::For(_)) => 13,
            Some(Token::Semi(_)) => 14,
            Some(_) => 15,
        };
        if kind == 0 {
            return Err(CompileError::UnexpectedEof);
        }
        if kind == 1 {
            return match DeclareStatementNode::new(tokens) {
                Ok(d) => Ok(StatementNode::Declare(d)),
                Err(e) => Err(e),
            };
        }
        if kind == 2 {
            return match StructStatementNode::new(tokens) {
                Ok(d) => Ok(StatementNode::Struct(d)),
                Err(e) => Err(e),
            };
        }
        if kind == 3 {
            return match EnumStatementNode::new(tokens) {
                Ok(d) => Ok(StatementNode::Enum(d)),
                Err(e) => Err(e),
            };
        }
        if kind == 4 {
            return match ReturnStatementNode::new(tokens) {
                Ok(d) => Ok(StatementNode::Return(d)),
                Err(e) => Err(e),
            };
        }
        if kind == 5 {
            return match CompoundStatementNode::new(tokens) {
                Ok(d) => Ok(StatementNode::Compound(d)),
                Err(e) => Err(e),
            };
        }
        if kind == 6 {
            return match IfStatementNode::new(tokens) {
                Ok(d) => Ok(StatementNode::If(d)),
                Err(e) => Err(e),
            };
        }
        if kind == 7 {
            return match WhileStatementNode::new(tokens) {
                Ok(d) => Ok(StatementNode::While(d)),
                Err(e) => Err(e),
            };
        }
        if kind == 8 {
            return match SwitchStatementNode::new(tokens) {
                Ok(d) => Ok(StatementNode::Switch(d)),
                Err(e) => Err(e),
            };
        }
        if kind == 9 {
            return match CaseStatementNode::new(tokens) {
                Ok(d) => Ok(StatementNode::Case(d)),
                Err(e) => Err(e),
            };
        }
        if kind == 10 {
            return match DefaultStatementNode::new(tokens) {
                Ok(d) => Ok(StatementNode::Default(d)),
                Err(e) => Err(e),
            };
        }
        if kind == 11 {
            return match BreakStatementNode::new(tokens) {
                Ok(d) => Ok(StatementNode::Break(d)),
                Err(e) => Err(e),
            };
        }
        if kind == 12 {
            return match ContinueStatementNode::new(tokens) {
                Ok(d) => Ok(StatementNode::Continue(d)),
                Err(e) => Err(e),
            };
        }
        if kind == 13 {
            return match ForStatementNode::new(tokens) {
                Ok(d) => Ok(StatementNode::For(d)),
                Err(e) => Err(e),
            };
        }
        if kind == 14 {
            let _ = tokens.pop();
            return Ok(StatementNode::Empty);
        }
        match ExpressionStatementNode::new(tokens) {
            Ok(d) => Ok(StatementNode::Expression(d)),
            Err(e) => Err(e),
        }
    }
}

impl FunctionNode {
    /// A function declaration: optional `extern`, return type, name,
    /// parameters, and a body or `;`.
    pub fn new(tokens: &mut Tokens) -> (r: Result<FunctionNode, CompileError>)
        requires
            old(tokens).wf(),
        ensures
            final(tokens).wf(),
            match r {
                Ok(n) => spec_function_new(old(tokens).v()) matches Ok((fv, t)) && n@ == fv
                    && final(tokens).v() == t && final(tokens).remaining().len() < old(tokens).remaining().len(),
                Err(e) => spec_function_new(old(tokens).v()) == Err::<(FuncV, Seq<TokenV>), ErrV>(
                    e@,
                ),
            },
        decreases old(tokens).remaining().len(), 0int,
    {
        if tokens.remaining_len() == 0 {
            return Err(CompileError::UnexpectedEof);
        }
        let is_extern: bool = match tokens.peek() {
            Some(Token::Extern(_)) => true,
            _ => false,
        };
        if is_extern {
            let _ = tokens.pop();
        }
        let ghost t0 = tokens.v();
        if tokens.remaining_len() < 3 {
            return Err(CompileError::UnexpectedEof);
        }
        let return_type: BasicType = match tokens.peek() {
            Some(Token::Type(_, _)) => match tokens.pop().unwrap() {
                Token::Type(bt, _) => bt,
                _ => {
                    return Err(CompileError::Unsupported);
                },
            },
            Some(Token::Ide(_, _)) => match tokens.pop().unwrap() {
                Token::Ide(name, _) => BasicType::Struct(name),
                _ => {
                    return Err(CompileError::Unsupported);
                },
            },
            Some(t) => {
                return Err(CompileError::UnexpectedToken(t.get_debug_info()));
            },
            None => {
                return Err(CompileError::UnexpectedEof);
            },
        };
        let identifier: String = match tokens.pop() {
            Some(Token::Ide(name, _)) => name,
            Some(t) => {
                return Err(CompileError::UnexpectedToken(t.get_debug_info()));
            },
            None => {
                return Err(CompileError::UnexpectedEof);
            },
        };
        match tokens.peek() {
            Some(Token::SuffixOp(SuffixOp::Call, _)) => (),
            Some(t) => {
                return Err(CompileError::UnexpectedToken(t.get_debug_info()));
            },
            None => {
                return Err(CompileError::UnexpectedEof);
            },
        }
        let _ = tokens.pop();
        proof {
            assert(tokens.v() =~= t0.skip(1).skip(1).skip(1));
            assert(t0.skip(1).skip(1).skip(1) =~= t0.skip(3));
        }
        let ghost params_entry = tokens.v();
        let mut parameters: Vec<DeclareVariableNode> = Vec::new();
        let mut is_var_args = false;
        proof {
            assert(dvns_v(parameters@) =~= Seq::<
                DvnV,
            >::empty());
        }
        loop
            invariant_except_break
                tokens.remaining().len() <= params_entry.len(),
                is_var_args == false,
                spec_params(params_entry) == (match spec_params(tokens.v()) {
                    Ok((ds, va, t)) => Ok::<(Seq<DvnV>, bool, Seq<TokenV>), ErrV>(
                        (dvns_v(parameters@) + ds, va, t),
                    ),
                    Err(e) => Err(e),
                }),
                tokens.wf(),
            invariant
                spec_function_new(old(tokens).v()) == (match spec_params(params_entry) {
                    Ok((ds, va, t1)) => if t1.len() == 0 {
                        Err::<(FuncV, Seq<TokenV>), ErrV>(ErrV::UnexpectedEof)
                    } else if t1[0] is Semi {
                        Ok(
                            (
                                FuncV {
                                    identifier: identifier@,
                                    return_type: return_type@,
                                    parameters: ds,
                                    statements: None,
                                    is_extern,
                                    is_var_args: va,
                                },
                                t1.skip(1),
                            ),
                        )
                    } else if t1[0] is CurlyS {
                        match spec_statements_until_curly(t1.skip(1)) {
                            Ok((ss, t2)) => Ok(
                                (
                                    FuncV {
                                        identifier: identifier@,
                                        return_type: return_type@,
                                        parameters: ds,
                                        statements: Some(ss),
                                        is_extern,
                                        is_var_args: va,
                                    },
                                    t2,
                                ),
                            ),
                            Err(e) => Err(e),
                        }
                    } else {
                        Err(ErrV::UnexpectedToken(tok_dbg(t1[0])))
                    },
                    Err(e) => Err(e),
                }),
            ensures
                tokens.wf(),
                tokens.remaining().len() <= params_entry.len(),
                spec_params(params_entry) matches Ok((ds, va, t)) && parameters@.map_values(
                    |p: DeclareVariableNode| dvn_v(p),
                ) == ds && is_var_args == va && tokens.v() == t,
            decreases tokens.remaining().len(),
        {
            let ghost iter = tokens.v();
            let kind: u32 = match tokens.peek() {
                None => 0,
                Some(Token::ParenE(_)) => 1,
                Some(Token::Va(_)) => 2,
                _ => 3,
            };
            if kind == 0 {
                return Err(CompileError::UnexpectedEof);
            }
            if kind == 1 {
                let _ = tokens.pop();
                proof {
                    assert(dvns_v(parameters@) + Seq::<
                        DvnV,
                    >::empty() =~= dvns_v(parameters@));
                }
                break ;
            }
            if kind == 2 {
                let _ = tokens.pop();
                match tokens.peek() {
                    Some(Token::ParenE(_)) => {
                        let _ = tokens.pop();
                        is_var_args = true;
                        proof {
                            assert(tokens.v() =~= iter.skip(2));
                            assert(dvns_v(parameters@) + Seq::<
                                DvnV,
                            >::empty() =~= parameters@.map_values(
                                |p: DeclareVariableNode| dvn_v(p),
                            ));
                        }
                        break ;
                    },
                    Some(t) => {
                        return Err(CompileError::UnexpectedToken(t.get_debug_info()));
                    },
                    None => {
                        return Err(CompileError::UnexpectedEof);
                    },
                }
            }
            let ghost acc = parameters@;
            let d = match DeclareVariableNode::new(tokens, true, None) {
                Ok(d) => d,
                Err(e) => {
                    return Err(e);
                },
            };
            let comma: bool = match tokens.peek() {
                Some(Token::Op(Operator::Comma, _)) => true,
                _ => false,
            };
            if comma {
                let _ = tokens.pop();
            }
            proof {
                let f = |p: DeclareVariableNode| dvn_v(p);
                let r0 = spec_params(tokens.v());
                if r0 is Ok {
                    let ds = r0->Ok_0.0;
                    assert(dvns_v(acc.push(d)) =~= dvns_v(acc).push(dvn_v(d)));
                    assert(dvns_v(acc) + (seq![dvn_v(d)] + ds) =~= dvns_v(acc.push(d)) + ds);
                }
            }
            parameters.push(d);
        }
        let kind: u32 = match tokens.peek() {
            None => 0,
            Some(Token::Semi(_)) => 1,
            Some(Token::CurlyS(_)) => 2,
            _ => 3,
        };
        if kind == 0 {
            return Err(CompileError::UnexpectedEof);
        }
        if kind == 1 {
            let _ = tokens.pop();
            return Ok(
                FunctionNode {
                    identifier,
                    return_type,
                    parameters,
                    statements: None,
                    is_extern,
                    is_var_args,
                },
            );
        }
        if kind == 3 {
            return Err(CompileError::UnexpectedToken(tokens.peek().unwrap().get_debug_info()));
        }
        let _ = tokens.pop();
        let body = match statements_until_curly(tokens) {
            Ok(ss) => ss,
            Err(e) => {
                return Err(e);
            },
        };
        Ok(
            FunctionNode {
                identifier,
                return_type,
                parameters,
                statements: Some(body),
                is_extern,
                is_var_args,
            },
        )
    }
}

impl DeclareNode {
    /// One top-level declaration: a function when `(` follows the declared
    /// name, else a global variable.
    pub fn new(tokens: &mut Tokens) -> (r: Result<DeclareNode, CompileError>)
        requires
            old(tokens).wf(),
        ensures
            final(tokens).wf(),
            match r {
                Ok(n) => spec_declare_new(old(tokens).v()) matches Ok((dv, t)) && n@ == dv
                    && final(tokens).v() == t && final(tokens).remaining().len() < old(tokens).remaining().len(),
                Err(e) => spec_declare_new(old(tokens).v()) == Err::<(DeclV, Seq<TokenV>), ErrV>(
                    e@,
                ),
            },
        decreases old(tokens).remaining().len(), 9int,
    {
        if tokens.remaining_len() == 0 {
            return Err(CompileError::UnexpectedEof);
        }
        let head: u32 = match tokens.peek() {
            Some(Token::Struct(_)) => 1,
            Some(Token::Enum(_)) => 2,
            _ => 0,
        };
        if head == 1 {
            return match StructStatementNode::new(tokens) {
                Ok(d) => Ok(DeclareNode::Struct(d)),
                Err(e) => Err(e),
            };
        }
        if head == 2 {
            return match EnumStatementNode::new(tokens) {
                Ok(d) => Ok(DeclareNode::Enum(d)),
                Err(e) => Err(e),
            };
        }
        let base: usize = match tokens.peek() {
            Some(Token::Extern(_)) => 1,
            _ => 0,
        };
        let is_fn: bool = match tokens.peek_at(base + 2) {
            Some(Token::SuffixOp(SuffixOp::Call, _)) => true,
            _ => false,
        };
        if is_fn {
            match FunctionNode::new(tokens) {
                Ok(f) => Ok(DeclareNode::Function(f)),
                Err(e) => Err(e),
            }
        } else {
            match DeclareStatementNode::new(tokens) {
                Ok(d) => Ok(DeclareNode::Variable(d)),
                Err(e) => Err(e),
            }
        }
    }
}

impl ProgramNode {
    /// All top-level declarations to the end of the stream.
    pub fn new(tokens: &mut Tokens) -> (r: Result<ProgramNode, CompileError>)
        requires
            old(tokens).wf(),
        ensures
            final(tokens).wf(),
            match r {
                Ok(n) => spec_program_new(old(tokens).v()) == Ok::<Seq<DeclV>, ErrV>(n@.declares),
                Err(e) => spec_program_new(old(tokens).v()) == Err::<Seq<DeclV>, ErrV>(e@),
            },
        decreases old(tokens).remaining().len(), 10int,
    {
        let mut declares: Vec<DeclareNode> = Vec::new();
        proof {
            assert(decl_seq_v(declares@) =~= Seq::<DeclV>::empty());
        }
        loop
            invariant
                tokens.wf(),
                tokens.remaining().len() <= old(tokens).remaining().len(),
                spec_program_new(old(tokens).v()) == (match spec_program_new(tokens.v()) {
                    Ok(ds) => Ok::<Seq<DeclV>, ErrV>(
                        decl_seq_v(declares@) + ds,
                    ),
                    Err(e) => Err(e),
                }),
            decreases tokens.remaining().len(),
        {
            if tokens.remaining_len() == 0 {
                proof {
                    assert(decl_seq_v(declares@) + Seq::<DeclV>::empty()
                        =~= decl_seq_v(declares@));
                }
                return Ok(ProgramNode { declares });
            }
            let ghost acc = declares@;
            let d = match DeclareNode::new(tokens) {
                Ok(d) => d,
                Err(e) => {
                    return Err(e);
                },
            };
            proof {
                let f = |x: DeclareNode| decl_v(x);
                let r0 = spec_program_new(tokens.v());
                if r0 is Ok {
                    let ds = r0->Ok_0;
                    assert(decl_seq_v(acc.push(d)) =~= decl_seq_v(acc).push(decl_v(d)));
                    assert(decl_seq_v(acc) + (seq![decl_v(d)] + ds) =~= decl_seq_v(acc.push(d)) + ds);
                }
            }
            declares.push(d);
        }
    }
}

/// Parses a whole program from the token stream.
pub fn parser(tokens: &mut Tokens) -> (r: Result<ProgramNode, CompileError>)
    requires
        old(tokens).wf(),
    ensures
        final(tokens).wf(),
        match r {
            Ok(n) => spec_program_new(old(tokens).v()) == Ok::<Seq<DeclV>, ErrV>(n@.declares),
            Err(e) => spec_program_new(old(tokens).v()) == Err::<Seq<DeclV>, ErrV>(e@),
        },
{
    ProgramNode::new(tokens)
}


} // verus!
