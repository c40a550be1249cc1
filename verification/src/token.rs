//! Token model: token variants with byte-range debug information, and the
//! operator precedence/associativity table.
use vstd::prelude::*;

verus! {

/// Whether an infix operator groups to the left or to the right.
#[derive(Debug, PartialEq, Eq, Structural, Clone, Copy)]
pub enum Associativity {
    Right,
    Left,
}

/// Binding power and grouping direction of an infix operator.
#[derive(Debug, PartialEq, Eq, Structural, Clone, Copy)]
pub struct Property {
    pub precedence: u32,
    pub associativity: Associativity,
}

/// The infix operators of the language.
#[derive(Debug, PartialEq, Eq, Structural, Clone, Copy)]
pub enum Operator {
    Comma,
    Assign,
    AddAssign,
    Or,
    And,
    Equal,
    Greater,
    Less,
    Add,
    Sub,
    Mul,
}

/// Prefix operators; `Plus`, `Minus` and `Deref` arise when `+`, `-`, `*`
/// stand at primary position and are re-tagged as unary.
#[derive(Debug, PartialEq, Eq, Structural, Clone, Copy)]
pub enum PrefixOp {
    Increment,
    Address,
    Plus,
    Minus,
    Deref,
}

/// Suffix operators: postfix increment, `[` (indexing), `(` (call), `.` (field access).
#[derive(Debug, PartialEq, Eq, Structural, Clone, Copy)]
pub enum SuffixOp {
    Increment,
    Index,
    Call,
    Dot,
}

/// A type form: primitive base, pointer and fixed-size array wrappers, or a
/// named struct tag. `int[3][2]` is `Array(Array(Int, 2), 3)`.
#[derive(Debug, PartialEq)]
pub enum BasicType {
    Int,
    Float,
    Pointer(Box<BasicType>),
    Array(Box<BasicType>, u32),
    Struct(String),
}

impl BasicType {
    /// Structural copy, proved equal to the original.
    pub fn dup(&self) -> (r: BasicType)
        ensures
            r == *self,
        decreases self,
    {
        match self {
            BasicType::Int => BasicType::Int,
            BasicType::Float => BasicType::Float,
            BasicType::Pointer(inner) => BasicType::Pointer(Box::new((**inner).dup())),
            BasicType::Array(inner, n) => BasicType::Array(Box::new((**inner).dup()), *n),
            BasicType::Struct(tag) => BasicType::Struct(tag.clone()),
        }
    }
}

/// Byte range `[start, end)` of a token in the source, with the matched lexeme.
#[derive(Debug, PartialEq, Clone)]
pub struct DebugInfo {
    pub start: usize,
    pub end: usize,
    pub s: String,
}

impl DebugInfo {
    /// Structural copy, proved equal to the original.
    pub fn dup(&self) -> (r: DebugInfo)
        ensures
            r == *self,
    {
        DebugInfo { start: self.start, end: self.end, s: self.s.clone() }
    }
}

/// A lexical token. Number and string payloads keep their source text.
#[derive(Debug, PartialEq)]
pub enum Token {
    FloatNum(String, DebugInfo),
    IntNum(String, DebugInfo),
    Str(String, DebugInfo),
    Op(Operator, DebugInfo),
    PrefixOp(PrefixOp, DebugInfo),
    SuffixOp(SuffixOp, DebugInfo),
    Ide(String, DebugInfo),
    Type(BasicType, DebugInfo),
    Struct(DebugInfo),
    Enum(DebugInfo),
    Switch(DebugInfo),
    Case(DebugInfo),
    Default(DebugInfo),
    Return(DebugInfo),
    If(DebugInfo),
    Else(DebugInfo),
    While(DebugInfo),
    Break(DebugInfo),
    Continue(DebugInfo),
    For(DebugInfo),
    Extern(DebugInfo),
    Va(DebugInfo),
    Semi(DebugInfo),
    CurlyS(DebugInfo),
    CurlyE(DebugInfo),
    SquareE(DebugInfo),
    ParenE(DebugInfo),
    Colon(DebugInfo),
    Question(DebugInfo),
}

impl Token {
    /// Structural copy, proved equal to the original.
    pub fn dup(&self) -> (r: Token)
        ensures
            r == *self,
    {
        match self {
            Token::FloatNum(v, d) => Token::FloatNum(v.clone(), d.dup()),
            Token::IntNum(v, d) => Token::IntNum(v.clone(), d.dup()),
            Token::Str(v, d) => Token::Str(v.clone(), d.dup()),
            Token::Op(op, d) => Token::Op(*op, d.dup()),
            Token::PrefixOp(op, d) => Token::PrefixOp(*op, d.dup()),
            Token::SuffixOp(op, d) => Token::SuffixOp(*op, d.dup()),
            Token::Ide(v, d) => Token::Ide(v.clone(), d.dup()),
            Token::Type(t, d) => Token::Type(t.dup(), d.dup()),
            Token::Struct(d) => Token::Struct(d.dup()),
            Token::Enum(d) => Token::Enum(d.dup()),
            Token::Switch(d) => Token::Switch(d.dup()),
            Token::Case(d) => Token::Case(d.dup()),
            Token::Default(d) => Token::Default(d.dup()),
            Token::Return(d) => Token::Return(d.dup()),
            Token::If(d) => Token::If(d.dup()),
            Token::Else(d) => Token::Else(d.dup()),
            Token::While(d) => Token::While(d.dup()),
            Token::Break(d) => Token::Break(d.dup()),
            Token::Continue(d) => Token::Continue(d.dup()),
            Token::For(d) => Token::For(d.dup()),
            Token::Extern(d) => Token::Extern(d.dup()),
            Token::Va(d) => Token::Va(d.dup()),
            Token::Semi(d) => Token::Semi(d.dup()),
            Token::CurlyS(d) => Token::CurlyS(d.dup()),
            Token::CurlyE(d) => Token::CurlyE(d.dup()),
            Token::SquareE(d) => Token::SquareE(d.dup()),
            Token::ParenE(d) => Token::ParenE(d.dup()),
            Token::Colon(d) => Token::Colon(d.dup()),
            Token::Question(d) => Token::Question(d.dup()),
        }
    }
}

/// Precedence and associativity of each infix operator.
pub open spec fn spec_property(op: Operator) -> Property {
    match op {
        Operator::Comma => Property { precedence: 1, associativity: Associativity::Left },
        Operator::Assign => Property { precedence: 2, associativity: Associativity::Right },
        Operator::AddAssign => Property { precedence: 2, associativity: Associativity::Right },
        Operator::Or => Property { precedence: 4, associativity: Associativity::Left },
        Operator::And => Property { precedence: 5, associativity: Associativity::Left },
        Operator::Equal => Property { precedence: 9, associativity: Associativity::Left },
        Operator::Greater => Property { precedence: 10, associativity: Associativity::Left },
        Operator::Less => Property { precedence: 10, associativity: Associativity::Left },
        Operator::Add => Property { precedence: 12, associativity: Associativity::Left },
        Operator::Sub => Property { precedence: 12, associativity: Associativity::Left },
        Operator::Mul => Property { precedence: 13, associativity: Associativity::Left },
    }
}

/// Looks up the precedence table.
pub fn get_property(op: Operator) -> (r: Property)
    ensures
        r == spec_property(op),
{
    match op {
        Operator::Comma => Property { precedence: 1, associativity: Associativity::Left },
        Operator::Assign => Property { precedence: 2, associativity: Associativity::Right },
        Operator::AddAssign => Property { precedence: 2, associativity: Associativity::Right },
        Operator::Or => Property { precedence: 4, associativity: Associativity::Left },
        Operator::And => Property { precedence: 5, associativity: Associativity::Left },
        Operator::Equal => Property { precedence: 9, associativity: Associativity::Left },
        Operator::Greater => Property { precedence: 10, associativity: Associativity::Left },
        Operator::Less => Property { precedence: 10, associativity: Associativity::Left },
        Operator::Add => Property { precedence: 12, associativity: Associativity::Left },
        Operator::Sub => Property { precedence: 12, associativity: Associativity::Left },
        Operator::Mul => Property { precedence: 13, associativity: Associativity::Left },
    }
}

/// True of the operators that assign to their left-hand side.
pub fn is_assign_operator(operator: Operator) -> (r: bool)
    ensures
        r == (operator == Operator::Assign || operator == Operator::AddAssign),
{
    match operator {
        Operator::Assign | Operator::AddAssign => true,
        _ => false,
    }
}

/// An ordered token stream read from the front. `tokens` holds the whole
/// lexed sequence; `pos` is the read cursor, so the unread remainder is
/// `tokens[pos..]`.
#[derive(Debug, PartialEq)]
pub struct Tokens {
    pub tokens: Vec<Token>,
    pub pos: usize,
}

impl Tokens {
    /// The unread remainder of the stream.
    pub open spec fn remaining(&self) -> Seq<Token> {
        self.tokens@.skip(self.pos as int)
    }

    /// The cursor never passes the end of the underlying sequence.
    pub open spec fn wf(&self) -> bool {
        self.pos <= self.tokens@.len()
    }

    /// Wraps a freshly lexed sequence.
    pub fn new(tokens: Vec<Token>) -> (r: Tokens)
        ensures
            r.wf(),
            r.remaining() == tokens@,
    {
        let r = Tokens { tokens, pos: 0 };
        proof {
            assert(r.remaining() =~= r.tokens@);
        }
        r
    }

    /// Removes and returns the front token, if any.
    pub fn pop(&mut self) -> (t: Option<Token>)
        requires
            old(self).wf(),
        ensures
            final(self).wf(),
            old(self).remaining().len() == 0 ==> t is None && *final(self) == *old(self),
            old(self).remaining().len() > 0 ==> t == Some(old(self).remaining()[0])
                && final(self).remaining() == old(self).remaining().skip(1) && final(self).v()
                == old(self).v().skip(1),
    {
        if self.pos < self.tokens.len() {
            let t = self.tokens[self.pos].dup();
            self.pos = self.pos + 1;
            proof {
                assert(self.remaining() =~= old(self).remaining().skip(1));
                assert(self.v() =~= old(self).v().skip(1));
            }
            Some(t)
        } else {
            None
        }
    }

    /// The front token without consuming it.
    pub fn peek(&self) -> (t: Option<&Token>)
        requires
            self.wf(),
        ensures
            self.remaining().len() == 0 ==> t is None,
            self.remaining().len() > 0 ==> (t matches Some(x) && *x == self.remaining()[0]),
    {
        if self.pos < self.tokens.len() {
            Some(&self.tokens[self.pos])
        } else {
            None
        }
    }

    /// How many tokens remain unread.
    pub fn remaining_len(&self) -> (n: usize)
        requires
            self.wf(),
        ensures
            n == self.remaining().len(),
    {
        self.tokens.len() - self.pos
    }

    /// The token `i` places past the front, without consuming anything.
    pub fn peek_at(&self, i: usize) -> (t: Option<&Token>)
        requires
            self.wf(),
        ensures
            self.remaining().len() <= i ==> t is None,
            self.remaining().len() > i ==> (t matches Some(x) && *x == self.remaining()[i as int]),
    {
        if i < self.tokens.len() - self.pos {
            Some(&self.tokens[self.pos + i])
        } else {
            None
        }
    }
}


/// Mathematical view of a type form.
pub enum BasicTypeV {
    Int,
    Float,
    Pointer(Box<BasicTypeV>),
    Array(Box<BasicTypeV>, u32),
    Struct(Seq<char>),
}

/// Mathematical view of a token's debug record.
pub struct DebugV {
    pub start: nat,
    pub end: nat,
    pub s: Seq<char>,
}

/// Mathematical view of a token.
pub enum TokenV {
    FloatNum(Seq<char>, DebugV),
    IntNum(Seq<char>, DebugV),
    Str(Seq<char>, DebugV),
    Op(Operator, DebugV),
    PrefixOp(PrefixOp, DebugV),
    SuffixOp(SuffixOp, DebugV),
    Ide(Seq<char>, DebugV),
    Type(BasicTypeV, DebugV),
    Struct(DebugV),
    Enum(DebugV),
    Switch(DebugV),
    Case(DebugV),
    Default(DebugV),
    Return(DebugV),
    If(DebugV),
    Else(DebugV),
    While(DebugV),
    Break(DebugV),
    Continue(DebugV),
    For(DebugV),
    Extern(DebugV),
    Va(DebugV),
    Semi(DebugV),
    CurlyS(DebugV),
    CurlyE(DebugV),
    SquareE(DebugV),
    ParenE(DebugV),
    Colon(DebugV),
    Question(DebugV),
}

impl View for DebugInfo {
    type V = DebugV;

    open spec fn view(&self) -> DebugV {
        DebugV { start: self.start as nat, end: self.end as nat, s: self.s@ }
    }
}

/// Mathematical view of a type form, defined by structural recursion.
pub open spec fn basic_type_v(t: BasicType) -> BasicTypeV
    decreases t,
{
    match t {
        BasicType::Int => BasicTypeV::Int,
        BasicType::Float => BasicTypeV::Float,
        BasicType::Pointer(inner) => BasicTypeV::Pointer(Box::new(basic_type_v(*inner))),
        BasicType::Array(inner, n) => BasicTypeV::Array(Box::new(basic_type_v(*inner)), n),
        BasicType::Struct(tag) => BasicTypeV::Struct(tag.view()),
    }
}

impl View for BasicType {
    type V = BasicTypeV;

    open spec fn view(&self) -> BasicTypeV {
        basic_type_v(*self)
    }
}

impl View for Token {
    type V = TokenV;

    open spec fn view(&self) -> TokenV {
        match self {
            Token::FloatNum(v, d) => TokenV::FloatNum(v.view(), d.view()),
            Token::IntNum(v, d) => TokenV::IntNum(v.view(), d.view()),
            Token::Str(v, d) => TokenV::Str(v.view(), d.view()),
            Token::Op(op, d) => TokenV::Op(*op, d.view()),
            Token::PrefixOp(op, d) => TokenV::PrefixOp(*op, d.view()),
            Token::SuffixOp(op, d) => TokenV::SuffixOp(*op, d.view()),
            Token::Ide(v, d) => TokenV::Ide(v.view(), d.view()),
            Token::Type(t, d) => TokenV::Type(t.view(), d.view()),
            Token::Struct(d) => TokenV::Struct(d.view()),
            Token::Enum(d) => TokenV::Enum(d.view()),
            Token::Switch(d) => TokenV::Switch(d.view()),
            Token::Case(d) => TokenV::Case(d.view()),
            Token::Default(d) => TokenV::Default(d.view()),
            Token::Return(d) => TokenV::Return(d.view()),
            Token::If(d) => TokenV::If(d.view()),
            Token::Else(d) => TokenV::Else(d.view()),
            Token::While(d) => TokenV::While(d.view()),
            Token::Break(d) => TokenV::Break(d.view()),
            Token::Continue(d) => TokenV::Continue(d.view()),
            Token::For(d) => TokenV::For(d.view()),
            Token::Extern(d) => TokenV::Extern(d.view()),
            Token::Va(d) => TokenV::Va(d.view()),
            Token::Semi(d) => TokenV::Semi(d.view()),
            Token::CurlyS(d) => TokenV::CurlyS(d.view()),
            Token::CurlyE(d) => TokenV::CurlyE(d.view()),
            Token::SquareE(d) => TokenV::SquareE(d.view()),
            Token::ParenE(d) => TokenV::ParenE(d.view()),
            Token::Colon(d) => TokenV::Colon(d.view()),
            Token::Question(d) => TokenV::Question(d.view()),
        }
    }
}

impl Tokens {
    /// View of the unread remainder.
    pub open spec fn v(&self) -> Seq<TokenV> {
        self.remaining().map_values(|t: Token| t.view())
    }
}


/// The debug record a token carries.
pub open spec fn tok_dbg(t: TokenV) -> DebugV {
    match t {
        TokenV::FloatNum(_, d) => d,
        TokenV::IntNum(_, d) => d,
        TokenV::Str(_, d) => d,
        TokenV::Op(_, d) => d,
        TokenV::PrefixOp(_, d) => d,
        TokenV::SuffixOp(_, d) => d,
        TokenV::Ide(_, d) => d,
        TokenV::Type(_, d) => d,
        TokenV::Struct(d) => d,
        TokenV::Enum(d) => d,
        TokenV::Switch(d) => d,
        TokenV::Case(d) => d,
        TokenV::Default(d) => d,
        TokenV::Return(d) => d,
        TokenV::If(d) => d,
        TokenV::Else(d) => d,
        TokenV::While(d) => d,
        TokenV::Break(d) => d,
        TokenV::Continue(d) => d,
        TokenV::For(d) => d,
        TokenV::Extern(d) => d,
        TokenV::Va(d) => d,
        TokenV::Semi(d) => d,
        TokenV::CurlyS(d) => d,
        TokenV::CurlyE(d) => d,
        TokenV::SquareE(d) => d,
        TokenV::ParenE(d) => d,
        TokenV::Colon(d) => d,
        TokenV::Question(d) => d,
    }
}

impl Token {
    /// The debug record of this token: its byte range and lexeme.
    pub fn get_debug_info(&self) -> (d: DebugInfo)
        ensures
            d@ == tok_dbg(self@),
    {
        match self {
            Token::FloatNum(_, d) => d.dup(),
            Token::IntNum(_, d) => d.dup(),
            Token::Str(_, d) => d.dup(),
            Token::Op(_, d) => d.dup(),
            Token::PrefixOp(_, d) => d.dup(),
            Token::SuffixOp(_, d) => d.dup(),
            Token::Ide(_, d) => d.dup(),
            Token::Type(_, d) => d.dup(),
            Token::Struct(d) => d.dup(),
            Token::Enum(d) => d.dup(),
            Token::Switch(d) => d.dup(),
            Token::Case(d) => d.dup(),
            Token::Default(d) => d.dup(),
            Token::Return(d) => d.dup(),
            Token::If(d) => d.dup(),
            Token::Else(d) => d.dup(),
            Token::While(d) => d.dup(),
            Token::Break(d) => d.dup(),
            Token::Continue(d) => d.dup(),
            Token::For(d) => d.dup(),
            Token::Extern(d) => d.dup(),
            Token::Va(d) => d.dup(),
            Token::Semi(d) => d.dup(),
            Token::CurlyS(d) => d.dup(),
            Token::CurlyE(d) => d.dup(),
            Token::SquareE(d) => d.dup(),
            Token::ParenE(d) => d.dup(),
            Token::Colon(d) => d.dup(),
            Token::Question(d) => d.dup(),
        }
    }
}

} // verus!
