//! Lexer: source text to an ordered token sequence. A fixed list of
//! patterns is tried in order at each position; the first that matches wins,
//! exactly as the token list orders them. Whitespace matches no pattern and
//! is skipped; a position where nothing matches is a fatal lexical error.
use vstd::prelude::*;
use crate::error::CompileError;
use crate::error::ErrV;
use crate::text::dec_str;
use crate::text::is_digit;
use crate::text::u64_to_string;
use crate::token::BasicType;
use crate::token::BasicTypeV;
use crate::token::DebugInfo;
use crate::token::DebugV;
use crate::token::Operator;
use crate::token::PrefixOp;
use crate::token::SuffixOp;
use crate::token::Token;
use crate::token::TokenV;
use crate::token::Tokens;

verus! {

/// The whitespace characters the scanner skips.
pub open spec fn is_ws(c: char) -> bool {
    c == ' ' || c == '\t' || c == '\n' || c == '\r'
}

/// A character that may start an identifier.
pub open spec fn is_ide_start(c: char) -> bool {
    ('A' <= c && c <= 'Z') || ('a' <= c && c <= 'z') || c == '_'
}

/// A character that may continue an identifier.
pub open spec fn is_ide_char(c: char) -> bool {
    is_ide_start(c) || is_digit(c)
}

/// The characters allowed inside a character literal `'X'`.
pub open spec fn is_char_lit_char(c: char) -> bool {
    is_ide_char(c) || c == '.'
}

/// Whether `pat` occurs in `s` starting at `i`.
pub open spec fn starts_with(s: Seq<char>, i: int, pat: Seq<char>) -> bool {
    0 <= i && i + pat.len() <= s.len() && s.subrange(i, i + pat.len()) == pat
}

/// First position at or after `i` that ends the line: a newline or the end.
pub open spec fn line_end(s: Seq<char>, i: int) -> int
    decreases s.len() - i,
{
    if 0 <= i < s.len() && s[i] != '\n' {
        line_end(s, i + 1)
    } else {
        i
    }
}

/// The last `"` on the current line at or after `i`, if any: the greedy
/// string-literal pattern stretches to the last quote before the newline.
pub open spec fn last_quote(s: Seq<char>, i: int) -> Option<int>
    decreases s.len() - i,
{
    if 0 <= i < s.len() && s[i] != '\n' {
        match last_quote(s, i + 1) {
            Some(k) => Some(k),
            None => if s[i] == '"' {
                Some(i)
            } else {
                None
            },
        }
    } else {
        None
    }
}

/// First position at or after `i` holding no decimal digit.
pub open spec fn digits_end(s: Seq<char>, i: int) -> int
    decreases s.len() - i,
{
    if 0 <= i < s.len() && is_digit(s[i]) {
        digits_end(s, i + 1)
    } else {
        i
    }
}

/// First position at or after `i` holding no identifier character.
pub open spec fn ide_end(s: Seq<char>, i: int) -> int
    decreases s.len() - i,
{
    if 0 <= i < s.len() && is_ide_char(s[i]) {
        ide_end(s, i + 1)
    } else {
        i
    }
}

/// The debug record of a match spanning `[i, j)`.
pub open spec fn dbg_v(s: Seq<char>, i: int, j: int) -> DebugV {
    DebugV { start: i as nat, end: j as nat, s: s.subrange(i, j) }
}

/// What the scanner does at one position: skip to a new position without a
/// token, produce a token and a new position, or fail.
pub enum StepV {
    Drop(int),
    Tok(TokenV, int),
    Fail,
}

/// The pattern list, tried in order at position `i`. The new position always
/// lies strictly past `i`.
pub open spec fn spec_step(s: Seq<char>, i: int) -> StepV {
    let c = s[i];
    if c == ':' {
        StepV::Tok(TokenV::Colon(dbg_v(s, i, i + 1)), i + 1)
    } else if c == '?' {
        StepV::Tok(TokenV::Question(dbg_v(s, i, i + 1)), i + 1)
    } else if is_digit(c) {
        let j = digits_end(s, i);
        if j < s.len() && s[j] == '.' && j + 1 < s.len() && is_digit(s[j + 1]) {
            let k = digits_end(s, j + 1);
            StepV::Tok(TokenV::FloatNum(s.subrange(i, k), dbg_v(s, i, k)), k)
        } else {
            StepV::Tok(TokenV::IntNum(s.subrange(i, j), dbg_v(s, i, j)), j)
        }
    } else if c == ';' {
        StepV::Tok(TokenV::Semi(dbg_v(s, i, i + 1)), i + 1)
    } else if starts_with(s, i, "..."@) {
        StepV::Tok(TokenV::Va(dbg_v(s, i, i + 3)), i + 3)
    } else if c == '"' {
        match last_quote(s, i + 1) {
            Some(k) => if k > i + 1 {
                StepV::Tok(TokenV::Str(s.subrange(i + 1, k), dbg_v(s, i, k + 1)), k + 1)
            } else {
                StepV::Fail
            },
            None => StepV::Fail,
        }
    } else if starts_with(s, i, "int"@) {
        StepV::Tok(TokenV::Type(BasicTypeV::Int, dbg_v(s, i, i + 3)), i + 3)
    } else if starts_with(s, i, "float"@) {
        StepV::Tok(TokenV::Type(BasicTypeV::Float, dbg_v(s, i, i + 5)), i + 5)
    } else if starts_with(s, i, "char"@) {
        StepV::Tok(TokenV::Type(BasicTypeV::Int, dbg_v(s, i, i + 4)), i + 4)
    } else if starts_with(s, i, "struct"@) {
        StepV::Tok(TokenV::Struct(dbg_v(s, i, i + 6)), i + 6)
    } else if starts_with(s, i, "enum"@) {
        StepV::Tok(TokenV::Enum(dbg_v(s, i, i + 4)), i + 4)
    } else if starts_with(s, i, "switch"@) {
        StepV::Tok(TokenV::Switch(dbg_v(s, i, i + 6)), i + 6)
    } else if starts_with(s, i, "const"@) {
        StepV::Drop(i + 5)
    } else if starts_with(s, i, "extern"@) {
        StepV::Tok(TokenV::Extern(dbg_v(s, i, i + 6)), i + 6)
    } else if starts_with(s, i, "case"@) {
        StepV::Tok(TokenV::Case(dbg_v(s, i, i + 4)), i + 4)
    } else if starts_with(s, i, "default"@) {
        StepV::Tok(TokenV::Default(dbg_v(s, i, i + 7)), i + 7)
    } else if starts_with(s, i, "return"@) {
        StepV::Tok(TokenV::Return(dbg_v(s, i, i + 6)), i + 6)
    } else if starts_with(s, i, "if"@) {
        StepV::Tok(TokenV::If(dbg_v(s, i, i + 2)), i + 2)
    } else if starts_with(s, i, "else"@) {
        StepV::Tok(TokenV::Else(dbg_v(s, i, i + 4)), i + 4)
    } else if starts_with(s, i, "while"@) {
        StepV::Tok(TokenV::While(dbg_v(s, i, i + 5)), i + 5)
    } else if starts_with(s, i, "break"@) {
        StepV::Tok(TokenV::Break(dbg_v(s, i, i + 5)), i + 5)
    } else if starts_with(s, i, "continue"@) {
        StepV::Tok(TokenV::Continue(dbg_v(s, i, i + 8)), i + 8)
    } else if starts_with(s, i, "for"@) {
        StepV::Tok(TokenV::For(dbg_v(s, i, i + 3)), i + 3)
    } else if c == ']' {
        StepV::Tok(TokenV::SquareE(dbg_v(s, i, i + 1)), i + 1)
    } else if c == ')' {
        StepV::Tok(TokenV::ParenE(dbg_v(s, i, i + 1)), i + 1)
    } else if c == '{' {
        StepV::Tok(TokenV::CurlyS(dbg_v(s, i, i + 1)), i + 1)
    } else if c == '}' {
        StepV::Tok(TokenV::CurlyE(dbg_v(s, i, i + 1)), i + 1)
    } else if starts_with(s, i, "&&"@) {
        StepV::Tok(TokenV::Op(Operator::And, dbg_v(s, i, i + 2)), i + 2)
    } else if i == 0 && starts_with(s, i, "++"@) {
        StepV::Tok(TokenV::PrefixOp(PrefixOp::Increment, dbg_v(s, i, i + 2)), i + 2)
    } else if is_ws(c) && starts_with(s, i + 1, "++"@) {
        StepV::Tok(TokenV::PrefixOp(PrefixOp::Increment, dbg_v(s, i, i + 3)), i + 3)
    } else if c == '&' {
        StepV::Tok(TokenV::PrefixOp(PrefixOp::Address, dbg_v(s, i, i + 1)), i + 1)
    } else if starts_with(s, i, "++"@) {
        StepV::Tok(TokenV::SuffixOp(SuffixOp::Increment, dbg_v(s, i, i + 2)), i + 2)
    } else if c == '[' {
        StepV::Tok(TokenV::SuffixOp(SuffixOp::Index, dbg_v(s, i, i + 1)), i + 1)
    } else if c == '(' {
        StepV::Tok(TokenV::SuffixOp(SuffixOp::Call, dbg_v(s, i, i + 1)), i + 1)
    } else if c == '.' {
        StepV::Tok(TokenV::SuffixOp(SuffixOp::Dot, dbg_v(s, i, i + 1)), i + 1)
    } else if starts_with(s, i, "||"@) {
        StepV::Tok(TokenV::Op(Operator::Or, dbg_v(s, i, i + 2)), i + 2)
    } else if starts_with(s, i, "+="@) {
        StepV::Tok(TokenV::Op(Operator::AddAssign, dbg_v(s, i, i + 2)), i + 2)
    } else if starts_with(s, i, "=="@) {
        StepV::Tok(TokenV::Op(Operator::Equal, dbg_v(s, i, i + 2)), i + 2)
    } else if c == '>' {
        StepV::Tok(TokenV::Op(Operator::Greater, dbg_v(s, i, i + 1)), i + 1)
    } else if c == '<' {
        StepV::Tok(TokenV::Op(Operator::Less, dbg_v(s, i, i + 1)), i + 1)
    } else if c == '+' {
        StepV::Tok(TokenV::Op(Operator::Add, dbg_v(s, i, i + 1)), i + 1)
    } else if c == '-' {
        StepV::Tok(TokenV::Op(Operator::Sub, dbg_v(s, i, i + 1)), i + 1)
    } else if c == '*' {
        StepV::Tok(TokenV::Op(Operator::Mul, dbg_v(s, i, i + 1)), i + 1)
    } else if c == '=' {
        StepV::Tok(TokenV::Op(Operator::Assign, dbg_v(s, i, i + 1)), i + 1)
    } else if c == ',' {
        StepV::Tok(TokenV::Op(Operator::Comma, dbg_v(s, i, i + 1)), i + 1)
    } else if c == '\'' && i + 2 < s.len() && is_char_lit_char(s[i + 1]) && s[i + 2] == '\'' {
        StepV::Tok(TokenV::IntNum(dec_str(s[i + 1] as nat), dbg_v(s, i, i + 3)), i + 3)
    } else if is_ide_start(c) {
        let j = ide_end(s, i);
        StepV::Tok(TokenV::Ide(s.subrange(i, j), dbg_v(s, i, j)), j)
    } else if is_ws(c) {
        StepV::Drop(i + 1)
    } else {
        StepV::Fail
    }
}

/// The token views of the whole source from position `i` on, or the first
/// lexical failure.
pub open spec fn spec_lex_from(s: Seq<char>, i: int) -> Result<Seq<TokenV>, ErrV>
    decreases s.len() - i,
{
    if i >= s.len() || i < 0 {
        Ok(Seq::empty())
    } else {
        match spec_step(s, i) {
            StepV::Drop(j) => if i < j && j <= s.len() {
                spec_lex_from(s, j)
            } else {
                Err(ErrV::Lexical(i as nat))
            },
            StepV::Tok(t, j) => if i < j && j <= s.len() {
                match spec_lex_from(s, j) {
                    Ok(rest) => Ok(seq![t] + rest),
                    Err(e) => Err(e),
                }
            } else {
                Err(ErrV::Lexical(i as nat))
            },
            StepV::Fail => Err(ErrV::Lexical(i as nat)),
        }
    }
}

/// The token views of the whole source, or the first lexical failure.
pub open spec fn spec_lex(s: Seq<char>) -> Result<Seq<TokenV>, ErrV> {
    spec_lex_from(s, 0)
}

/// Whether `pat` occurs in `code` at character position `i`.
fn matches_at(code: &str, n: usize, i: usize, pat: &str) -> (b: bool)
    requires
        n == code@.len(),
        i <= n,
    ensures
        b == starts_with(code@, i as int, pat@),
{
    let m = pat.unicode_len();
    if m > n - i {
        return false;
    }
    let mut k: usize = 0;
    while k < m
        invariant
            0 <= k <= m,
            m == pat@.len(),
            n == code@.len(),
            i + m <= n,
            forall|l: int| 0 <= l < k ==> code@[i + l] == pat@[l],
        decreases m - k,
    {
        if code.get_char(i + k) != pat.get_char(k) {
            proof {
                assert(!(code@.subrange(i as int, i + pat@.len()) == pat@)) by {
                    assert(code@.subrange(i as int, i + pat@.len())[k as int] != pat@[k as int]);
                }
            }
            return false;
        }
        k = k + 1;
    }
    proof {
        assert(code@.subrange(i as int, i + pat@.len()) =~= pat@);
    }
    true
}

/// What one scanner step does at position `i` of the source.
pub enum LexStep {
    Drop(usize),
    Tok(Token, usize),
    Fail,
}

impl View for LexStep {
    type V = StepV;

    open spec fn view(&self) -> StepV {
        match self {
            LexStep::Drop(j) => StepV::Drop(*j as int),
            LexStep::Tok(t, j) => StepV::Tok(t.view(), *j as int),
            LexStep::Fail => StepV::Fail,
        }
    }
}

/// Builds the debug record of a match spanning `[i, j)`.
fn make_dbg(code: &str, n: usize, i: usize, j: usize) -> (d: DebugInfo)
    requires
        n == code@.len(),
        i <= j <= n,
    ensures
        d@ == dbg_v(code@, i as int, j as int),
{
    DebugInfo { start: i, end: j, s: code.substring_char(i, j).to_owned() }
}

/// First position at or after `i` holding no decimal digit.
fn find_digits_end(code: &str, n: usize, i: usize) -> (j: usize)
    requires
        n == code@.len(),
        i <= n,
    ensures
        j == digits_end(code@, i as int),
        i <= j <= n,
    decreases n - i,
{
    if i < n {
        let c = code.get_char(i);
        if '0' <= c && c <= '9' {
            return find_digits_end(code, n, i + 1);
        }
    }
    i
}

/// First position at or after `i` holding no identifier character.
fn find_ide_end(code: &str, n: usize, i: usize) -> (j: usize)
    requires
        n == code@.len(),
        i <= n,
    ensures
        j == ide_end(code@, i as int),
        i <= j <= n,
    decreases n - i,
{
    if i < n {
        let c = code.get_char(i);
        if ('A' <= c && c <= 'Z') || ('a' <= c && c <= 'z') || c == '_' || ('0' <= c && c <= '9') {
            return find_ide_end(code, n, i + 1);
        }
    }
    i
}

/// First position at or after `i` that ends the line.
fn find_line_end(code: &str, n: usize, i: usize) -> (j: usize)
    requires
        n == code@.len(),
        i <= n,
    ensures
        j == line_end(code@, i as int),
        i <= j <= n,
        j == n || code@[j as int] == '\n',
    decreases n - i,
{
    if i < n {
        let c = code.get_char(i);
        if c != '\n' {
            return find_line_end(code, n, i + 1);
        }
    }
    i
}

/// The last `"` on the current line at or after `i`, if any.
fn find_last_quote(code: &str, n: usize, i: usize) -> (r: Option<usize>)
    requires
        n == code@.len(),
        i <= n,
    ensures
        match r {
            Some(k) => last_quote(code@, i as int) == Some(k as int) && i <= k < n,
            None => last_quote(code@, i as int) is None,
        },
{
    let e = find_line_end(code, n, i);
    let mut j: usize = e;
    proof {
        lemma_last_quote_none_at_end(code@, e as int);
    }
    while j > i
        invariant
            n == code@.len(),
            i <= j <= e <= n,
            e == line_end(code@, i as int),
            last_quote(code@, j as int) is None,
            forall|l: int| j <= l < e ==> code@[l] != '"',
        decreases j,
    {
        let c = code.get_char(j - 1);
        proof {
            lemma_line_end_mid(code@, i as int, j - 1);
        }
        if c == '"' {
            proof {
                lemma_last_quote_found(code@, i as int, j - 1);
            }
            return Some(j - 1);
        }
        j = j - 1;
    }
    None
}

/// At the end of a line, no quote remains to be found.
proof fn lemma_last_quote_none_at_end(s: Seq<char>, e: int)
    requires
        e >= s.len() || (0 <= e && s[e] == '\n'),
    ensures
        last_quote(s, e) is None,
{
}

/// Every position before the line end holds a character other than `\n`.
proof fn lemma_line_end_mid(s: Seq<char>, i: int, l: int)
    requires
        0 <= i,
        i <= l < line_end(s, i),
    ensures
        l < s.len() && s[l] != '\n',
    decreases l - i,
{
    if l > i {
        lemma_line_end_mid(s, i + 1, l);
    }
}

/// A quote before the line end with none after it is the one the greedy
/// string pattern stretches to.
proof fn lemma_last_quote_found(s: Seq<char>, i: int, k: int)
    requires
        0 <= i <= k,
        k < line_end(s, i),
        s[k] == '"',
        last_quote(s, k + 1) is None,
    ensures
        last_quote(s, i) == Some(k),
    decreases k - i,
{
    lemma_line_end_mid(s, i, k);
    if i < k {
        lemma_line_end_mid(s, i, i);
        lemma_last_quote_found(s, i + 1, k);
    }
}

/// Scans stay within bounds.
proof fn lemma_digits_end_bounds(s: Seq<char>, i: int)
    requires
        0 <= i <= s.len(),
    ensures
        i <= digits_end(s, i) <= s.len(),
    decreases s.len() - i,
{
    if i < s.len() && is_digit(s[i]) {
        lemma_digits_end_bounds(s, i + 1);
    }
}

/// Scans stay within bounds.
proof fn lemma_ide_end_bounds(s: Seq<char>, i: int)
    requires
        0 <= i <= s.len(),
    ensures
        i <= ide_end(s, i) <= s.len(),
    decreases s.len() - i,
{
    if i < s.len() && is_ide_char(s[i]) {
        lemma_ide_end_bounds(s, i + 1);
    }
}

/// Tries the patterns in order at position `i`.
#[verifier::rlimit(40)]
fn next_step(code: &str, n: usize, i: usize) -> (r: LexStep)
    requires
        n == code@.len(),
        i < n,
    ensures
        r@ == spec_step(code@, i as int),
        r matches LexStep::Drop(j) ==> i < j <= n,
        r matches LexStep::Tok(t, j) ==> i < j <= n,
{
    proof {
        reveal_strlit("...");
        reveal_strlit("int");
        reveal_strlit("float");
        reveal_strlit("char");
        reveal_strlit("struct");
        reveal_strlit("enum");
        reveal_strlit("switch");
        reveal_strlit("const");
        reveal_strlit("extern");
        reveal_strlit("case");
        reveal_strlit("default");
        reveal_strlit("return");
        reveal_strlit("if");
        reveal_strlit("else");
        reveal_strlit("while");
        reveal_strlit("break");
        reveal_strlit("continue");
        reveal_strlit("for");
        reveal_strlit("&&");
        reveal_strlit("++");
        reveal_strlit("||");
        reveal_strlit("+=");
        reveal_strlit("==");
    }
    let c = code.get_char(i);
    if c == ':' {
        LexStep::Tok(Token::Colon(make_dbg(code, n, i, i + 1)), i + 1)
    } else if c == '?' {
        LexStep::Tok(Token::Question(make_dbg(code, n, i, i + 1)), i + 1)
    } else if '0' <= c && c <= '9' {
        let j = find_digits_end(code, n, i);
        proof {
            lemma_digits_end_past(code@, i as int);
        }
        if j < n && code.get_char(j) == '.' && j + 1 < n && {
            let c2 = code.get_char(j + 1);
            '0' <= c2 && c2 <= '9'
        } {
            let k = find_digits_end(code, n, j + 1);
            LexStep::Tok(
                Token::FloatNum(code.substring_char(i, k).to_owned(), make_dbg(code, n, i, k)),
                k,
            )
        } else {
            LexStep::Tok(
                Token::IntNum(code.substring_char(i, j).to_owned(), make_dbg(code, n, i, j)),
                j,
            )
        }
    } else if c == ';' {
        LexStep::Tok(Token::Semi(make_dbg(code, n, i, i + 1)), i + 1)
    } else if matches_at(code, n, i, "...") {
        LexStep::Tok(Token::Va(make_dbg(code, n, i, i + 3)), i + 3)
    } else if c == '"' {
        match find_last_quote(code, n, i + 1) {
            Some(k) => {
                if k > i + 1 {
                    LexStep::Tok(
                        Token::Str(
                            code.substring_char(i + 1, k).to_owned(),
                            make_dbg(code, n, i, k + 1),
                        ),
                        k + 1,
                    )
                } else {
                    LexStep::Fail
                }
            },
            None => LexStep::Fail,
        }
    } else if matches_at(code, n, i, "int") {
        LexStep::Tok(Token::Type(BasicType::Int, make_dbg(code, n, i, i + 3)), i + 3)
    } else if matches_at(code, n, i, "float") {
        LexStep::Tok(Token::Type(BasicType::Float, make_dbg(code, n, i, i + 5)), i + 5)
    } else if matches_at(code, n, i, "char") {
        LexStep::Tok(Token::Type(BasicType::Int, make_dbg(code, n, i, i + 4)), i + 4)
    } else if matches_at(code, n, i, "struct") {
        LexStep::Tok(Token::Struct(make_dbg(code, n, i, i + 6)), i + 6)
    } else if matches_at(code, n, i, "enum") {
        LexStep::Tok(Token::Enum(make_dbg(code, n, i, i + 4)), i + 4)
    } else if matches_at(code, n, i, "switch") {
        LexStep::Tok(Token::Switch(make_dbg(code, n, i, i + 6)), i + 6)
    } else if matches_at(code, n, i, "const") {
        LexStep::Drop(i + 5)
    } else if matches_at(code, n, i, "extern") {
        LexStep::Tok(Token::Extern(make_dbg(code, n, i, i + 6)), i + 6)
    } else if matches_at(code, n, i, "case") {
        LexStep::Tok(Token::Case(make_dbg(code, n, i, i + 4)), i + 4)
    } else if matches_at(code, n, i, "default") {
        LexStep::Tok(Token::Default(make_dbg(code, n, i, i + 7)), i + 7)
    } else if matches_at(code, n, i, "return") {
        LexStep::Tok(Token::Return(make_dbg(code, n, i, i + 6)), i + 6)
    } else if matches_at(code, n, i, "if") {
        LexStep::Tok(Token::If(make_dbg(code, n, i, i + 2)), i + 2)
    } else if matches_at(code, n, i, "else") {
        LexStep::Tok(Token::Else(make_dbg(code, n, i, i + 4)), i + 4)
    } else if matches_at(code, n, i, "while") {
        LexStep::Tok(Token::While(make_dbg(code, n, i, i + 5)), i + 5)
    } else if matches_at(code, n, i, "break") {
        LexStep::Tok(Token::Break(make_dbg(code, n, i, i + 5)), i + 5)
    } else if matches_at(code, n, i, "continue") {
        LexStep::Tok(Token::Continue(make_dbg(code, n, i, i + 8)), i + 8)
    } else if matches_at(code, n, i, "for") {
        LexStep::Tok(Token::For(make_dbg(code, n, i, i + 3)), i + 3)
    } else if c == ']' {
        LexStep::Tok(Token::SquareE(make_dbg(code, n, i, i + 1)), i + 1)
    } else if c == ')' {
        LexStep::Tok(Token::ParenE(make_dbg(code, n, i, i + 1)), i + 1)
    } else if c == '{' {
        LexStep::Tok(Token::CurlyS(make_dbg(code, n, i, i + 1)), i + 1)
    } else if c == '}' {
        LexStep::Tok(Token::CurlyE(make_dbg(code, n, i, i + 1)), i + 1)
    } else if matches_at(code, n, i, "&&") {
        LexStep::Tok(Token::Op(Operator::And, make_dbg(code, n, i, i + 2)), i + 2)
    } else if i == 0 && matches_at(code, n, i, "++") {
        LexStep::Tok(Token::PrefixOp(PrefixOp::Increment, make_dbg(code, n, i, i + 2)), i + 2)
    } else if (c == ' ' || c == '\t' || c == '\n' || c == '\r') && matches_at(code, n, i + 1, "++")
    {
        LexStep::Tok(Token::PrefixOp(PrefixOp::Increment, make_dbg(code, n, i, i + 3)), i + 3)
    } else if c == '&' {
        LexStep::Tok(Token::PrefixOp(PrefixOp::Address, make_dbg(code, n, i, i + 1)), i + 1)
    } else if matches_at(code, n, i, "++") {
        LexStep::Tok(Token::SuffixOp(SuffixOp::Increment, make_dbg(code, n, i, i + 2)), i + 2)
    } else if c == '[' {
        LexStep::Tok(Token::SuffixOp(SuffixOp::Index, make_dbg(code, n, i, i + 1)), i + 1)
    } else if c == '(' {
        LexStep::Tok(Token::SuffixOp(SuffixOp::Call, make_dbg(code, n, i, i + 1)), i + 1)
    } else if c == '.' {
        LexStep::Tok(Token::SuffixOp(SuffixOp::Dot, make_dbg(code, n, i, i + 1)), i + 1)
    } else if matches_at(code, n, i, "||") {
        LexStep::Tok(Token::Op(Operator::Or, make_dbg(code, n, i, i + 2)), i + 2)
    } else if matches_at(code, n, i, "+=") {
        LexStep::Tok(Token::Op(Operator::AddAssign, make_dbg(code, n, i, i + 2)), i + 2)
    } else if matches_at(code, n, i, "==") {
        LexStep::Tok(Token::Op(Operator::Equal, make_dbg(code, n, i, i + 2)), i + 2)
    } else if c == '>' {
        LexStep::Tok(Token::Op(Operator::Greater, make_dbg(code, n, i, i + 1)), i + 1)
    } else if c == '<' {
        LexStep::Tok(Token::Op(Operator::Less, make_dbg(code, n, i, i + 1)), i + 1)
    } else if c == '+' {
        LexStep::Tok(Token::Op(Operator::Add, make_dbg(code, n, i, i + 1)), i + 1)
    } else if c == '-' {
        LexStep::Tok(Token::Op(Operator::Sub, make_dbg(code, n, i, i + 1)), i + 1)
    } else if c == '*' {
        LexStep::Tok(Token::Op(Operator::Mul, make_dbg(code, n, i, i + 1)), i + 1)
    } else if c == '=' {
        LexStep::Tok(Token::Op(Operator::Assign, make_dbg(code, n, i, i + 1)), i + 1)
    } else if c == ',' {
        LexStep::Tok(Token::Op(Operator::Comma, make_dbg(code, n, i, i + 1)), i + 1)
    } else if c == '\'' && n - i > 2 && {
        let c1 = code.get_char(i + 1);
        (('A' <= c1 && c1 <= 'Z') || ('a' <= c1 && c1 <= 'z') || c1 == '_' || ('0' <= c1 && c1
            <= '9') || c1 == '.') && code.get_char(i + 2) == '\''
    } {
        let c1 = code.get_char(i + 1);
        LexStep::Tok(
            Token::IntNum(u64_to_string(c1 as u32 as u64), make_dbg(code, n, i, i + 3)),
            i + 3,
        )
    } else if ('A' <= c && c <= 'Z') || ('a' <= c && c <= 'z') || c == '_' {
        let j = find_ide_end(code, n, i);
        proof {
            lemma_ide_end_past(code@, i as int);
        }
        LexStep::Tok(
            Token::Ide(code.substring_char(i, j).to_owned(), make_dbg(code, n, i, j)),
            j,
        )
    } else if c == ' ' || c == '\t' || c == '\n' || c == '\r' {
        LexStep::Drop(i + 1)
    } else {
        LexStep::Fail
    }
}

/// A digit at `i` pushes the digit scan strictly past `i`.
proof fn lemma_digits_end_past(s: Seq<char>, i: int)
    requires
        0 <= i < s.len(),
        is_digit(s[i]),
    ensures
        digits_end(s, i) > i,
{
    lemma_digits_end_bounds(s, i + 1);
}

/// An identifier character at `i` pushes the identifier scan strictly past `i`.
proof fn lemma_ide_end_past(s: Seq<char>, i: int)
    requires
        0 <= i < s.len(),
        is_ide_char(s[i]),
    ensures
        ide_end(s, i) > i,
{
    lemma_ide_end_bounds(s, i + 1);
}

/// The lexer. It carries no state of its own; the pattern list is fixed.
pub struct Lexer {}

impl Lexer {
    /// Builds a lexer.
    pub fn new() -> (r: Lexer) {
        Lexer {  }
    }

    /// Turns the source into the token sequence the pattern list defines, or
    /// reports the first position where no pattern matches.
    pub fn lex(&self, code: String) -> (r: Result<Tokens, CompileError>)
        ensures
            match r {
                Ok(toks) => toks.wf() && spec_lex(code@) == Ok::<Seq<TokenV>, ErrV>(toks.v()),
                Err(e) => spec_lex(code@) == Err::<Seq<TokenV>, ErrV>(e@),
            },
    {
        let n = code.as_str().unicode_len();
        let mut out: Vec<Token> = Vec::new();
        let mut i: usize = 0;
        while i < n
            invariant
                n == code@.len(),
                0 <= i <= n,
                match spec_lex_from(code@, i as int) {
                    Ok(rest) => spec_lex(code@) == Ok::<Seq<TokenV>, ErrV>(
                        out@.map_values(|t: Token| t@) + rest,
                    ),
                    Err(e) => spec_lex(code@) == Err::<Seq<TokenV>, ErrV>(e),
                },
            decreases n - i,
        {
            let step = next_step(code.as_str(), n, i);
            match step {
                LexStep::Drop(j) => {
                    i = j;
                },
                LexStep::Tok(t, j) => {
                    let ghost prev = out@;
                    out.push(t);
                    proof {
                        assert(out@.map_values(|t: Token| t@) =~= prev.map_values(|t: Token| t@)
                            + seq![out@.last()@]);
                        if spec_lex_from(code@, j as int) is Ok {
                            let rest = spec_lex_from(code@, j as int)->Ok_0;
                            assert(seq![out@.last()@] + rest =~= spec_lex_from(
                                code@,
                                i as int,
                            )->Ok_0);
                            assert(prev.map_values(|t: Token| t@) + (seq![out@.last()@] + rest)
                                =~= out@.map_values(|t: Token| t@) + rest);
                        }
                    }
                    i = j;
                },
                LexStep::Fail => {
                    return Err(CompileError::Lexical(i));
                },
            }
        }
        proof {
            assert(out@.map_values(|t: Token| t@) + Seq::<TokenV>::empty() =~= out@.map_values(
                |t: Token| t@,
            ));
        }
        let ghost out_v = out@;
        let toks = Tokens::new(out);
        proof {
            assert(toks.v() =~= out_v.map_values(|t: Token| t@));
        }
        Ok(toks)
    }
}

} // verus!
