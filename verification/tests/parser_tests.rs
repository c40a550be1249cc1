//! Expression and declaration parser tests: each input's tree, compared
//! with the token debug records blanked, since the trees' shapes and
//! payloads are what the grammar pins down.
use rexparser::expression::ArrayIndexNode;
use rexparser::expression::BinExpNode;
use rexparser::expression::ExpressionNode;
use rexparser::expression::FunctionCallNode;
use rexparser::expression::PrefixNode;
use rexparser::expression::SuffixNode;
use rexparser::expression::TernaryExpNode;
use rexparser::expression::TokenNode;
use rexparser::lexer::Lexer;
use rexparser::parser::DeclareNode;
use rexparser::parser::StatementNode;
use rexparser::token::BasicType;
use rexparser::token::DebugInfo;
use rexparser::token::Operator;
use rexparser::token::PrefixOp;
use rexparser::token::SuffixOp;
use rexparser::token::Token;

fn dd() -> DebugInfo {
    DebugInfo { start: 0, end: 0, s: String::new() }
}

fn strip_tok(t: Token) -> Token {
    match t {
        Token::FloatNum(v, _) => Token::FloatNum(v, dd()),
        Token::IntNum(v, _) => Token::IntNum(v, dd()),
        Token::Str(v, _) => Token::Str(v, dd()),
        Token::Op(o, _) => Token::Op(o, dd()),
        Token::PrefixOp(o, _) => Token::PrefixOp(o, dd()),
        Token::SuffixOp(o, _) => Token::SuffixOp(o, dd()),
        Token::Ide(v, _) => Token::Ide(v, dd()),
        Token::Type(t, _) => Token::Type(t, dd()),
        Token::Struct(_) => Token::Struct(dd()),
        Token::Enum(_) => Token::Enum(dd()),
        Token::Switch(_) => Token::Switch(dd()),
        Token::Case(_) => Token::Case(dd()),
        Token::Default(_) => Token::Default(dd()),
        Token::Return(_) => Token::Return(dd()),
        Token::If(_) => Token::If(dd()),
        Token::Else(_) => Token::Else(dd()),
        Token::While(_) => Token::While(dd()),
        Token::Break(_) => Token::Break(dd()),
        Token::Continue(_) => Token::Continue(dd()),
        Token::For(_) => Token::For(dd()),
        Token::Extern(_) => Token::Extern(dd()),
        Token::Va(_) => Token::Va(dd()),
        Token::Semi(_) => Token::Semi(dd()),
        Token::CurlyS(_) => Token::CurlyS(dd()),
        Token::CurlyE(_) => Token::CurlyE(dd()),
        Token::SquareE(_) => Token::SquareE(dd()),
        Token::ParenE(_) => Token::ParenE(dd()),
        Token::Colon(_) => Token::Colon(dd()),
        Token::Question(_) => Token::Question(dd()),
    }
}

fn strip(e: ExpressionNode) -> ExpressionNode {
    match e {
        ExpressionNode::BinExp(n) => ExpressionNode::BinExp(BinExpNode {
            op: TokenNode { token: strip_tok(n.op.token) },
            lhs: Box::new(strip(*n.lhs)),
            rhs: Box::new(strip(*n.rhs)),
        }),
        ExpressionNode::TernaryExp(n) => ExpressionNode::TernaryExp(TernaryExpNode {
            condition: Box::new(strip(*n.condition)),
            lhs: Box::new(strip(*n.lhs)),
            rhs: Box::new(strip(*n.rhs)),
        }),
        ExpressionNode::Prefix(n) => ExpressionNode::Prefix(PrefixNode {
            prefix: TokenNode { token: strip_tok(n.prefix.token) },
            node: Box::new(strip(*n.node)),
        }),
        ExpressionNode::Suffix(n) => ExpressionNode::Suffix(SuffixNode {
            suffix: TokenNode { token: strip_tok(n.suffix.token) },
            node: Box::new(strip(*n.node)),
        }),
        ExpressionNode::ArrayIndex(n) => ExpressionNode::ArrayIndex(ArrayIndexNode {
            array: Box::new(strip(*n.array)),
            index: Box::new(strip(*n.index)),
        }),
        ExpressionNode::FunctionCall(n) => ExpressionNode::FunctionCall(FunctionCallNode {
            identifier: TokenNode { token: strip_tok(n.identifier.token) },
            parameters: Box::new(strip(*n.parameters)),
        }),
        ExpressionNode::Access(n) => ExpressionNode::Access(rexparser::expression::AccessNode {
            access_identifier: strip_tok(n.access_identifier),
            node: Box::new(strip(*n.node)),
        }),
        ExpressionNode::Token(n) => ExpressionNode::Token(TokenNode { token: strip_tok(n.token) }),
        ExpressionNode::Empty => ExpressionNode::Empty,
    }
}

fn run(input: &str) -> ExpressionNode {
    let lexer = Lexer::new();
    let mut tokens = lexer.lex(input.to_string()).expect("lexing failed");
    let node = BinExpNode::new(&mut tokens, None).expect("parsing failed");
    strip(node)
}

fn get_num(num: i32) -> ExpressionNode {
    ExpressionNode::Token(TokenNode { token: Token::IntNum(num.to_string(), dd()) })
}

fn get_ide(ide: &str) -> ExpressionNode {
    ExpressionNode::Token(TokenNode { token: Token::Ide(String::from(ide), dd()) })
}

fn get_op(op: Operator) -> TokenNode {
    TokenNode { token: Token::Op(op, dd()) }
}

fn get_suffix(op: SuffixOp) -> TokenNode {
    TokenNode { token: Token::SuffixOp(op, dd()) }
}

fn get_prefix(op: PrefixOp) -> TokenNode {
    TokenNode { token: Token::PrefixOp(op, dd()) }
}

fn get_bin_exp(op: Operator, lhs: ExpressionNode, rhs: ExpressionNode) -> ExpressionNode {
    ExpressionNode::BinExp(BinExpNode { op: get_op(op), lhs: Box::new(lhs), rhs: Box::new(rhs) })
}

fn get_suffix_exp(suffix: SuffixOp, lhs: ExpressionNode) -> ExpressionNode {
    ExpressionNode::Suffix(SuffixNode { suffix: get_suffix(suffix), node: Box::new(lhs) })
}

fn get_prefix_exp(prefix: PrefixOp, lhs: ExpressionNode) -> ExpressionNode {
    ExpressionNode::Prefix(PrefixNode { prefix: get_prefix(prefix), node: Box::new(lhs) })
}

fn get_array_index_exp(array: ExpressionNode, index: ExpressionNode) -> ExpressionNode {
    ExpressionNode::ArrayIndex(ArrayIndexNode { array: Box::new(array), index: Box::new(index) })
}

fn get_function_call_exp(identifier: TokenNode, parameters: ExpressionNode) -> ExpressionNode {
    ExpressionNode::FunctionCall(FunctionCallNode {
        identifier,
        parameters: Box::new(parameters),
    })
}

fn get_ternary_exp(
    condition: ExpressionNode,
    lhs: ExpressionNode,
    rhs: ExpressionNode,
) -> ExpressionNode {
    ExpressionNode::TernaryExp(TernaryExpNode {
        condition: Box::new(condition),
        lhs: Box::new(lhs),
        rhs: Box::new(rhs),
    })
}

#[test]
fn test_add() {
    let actual = run("1 + 2");
    let expected = get_bin_exp(Operator::Add, get_num(1), get_num(2));
    assert_eq!(actual, expected);
}

#[test]
fn test_mul() {
    let actual = run("1 * 2");
    let expected = get_bin_exp(Operator::Mul, get_num(1), get_num(2));
    assert_eq!(actual, expected);
}

#[test]
fn test_three_terms() {
    let actual = run("1 * 2 + 3");
    let lhs = get_bin_exp(Operator::Mul, get_num(1), get_num(2));
    let expected = get_bin_exp(Operator::Add, lhs, get_num(3));
    assert_eq!(actual, expected);
}

#[test]
fn test_multi_terms() {
    let actual = run("1 * 2 + 3 * 4");
    let lhs = get_bin_exp(Operator::Mul, get_num(1), get_num(2));
    let rhs = get_bin_exp(Operator::Mul, get_num(3), get_num(4));
    let expected = get_bin_exp(Operator::Add, lhs, rhs);
    assert_eq!(actual, expected);
}

#[test]
fn test_multi_terms2() {
    let actual = run("1 + 2 * 3 + 4 * 5");
    let lhs2 = get_bin_exp(Operator::Mul, get_num(2), get_num(3));
    let lhs = get_bin_exp(Operator::Add, get_num(1), lhs2);
    let rhs = get_bin_exp(Operator::Mul, get_num(4), get_num(5));
    let expected = get_bin_exp(Operator::Add, lhs, rhs);
    assert_eq!(actual, expected);
}

#[test]
fn test_multi_terms_with_assign() {
    let actual = run("a = b = 1 + 2 * 3 + 4");
    let rhs0 = get_bin_exp(Operator::Mul, get_num(2), get_num(3));
    let rhs1 = get_bin_exp(Operator::Add, get_num(1), rhs0);
    let rhs2 = get_bin_exp(Operator::Add, rhs1, get_num(4));
    let rhs = get_bin_exp(Operator::Assign, get_ide("b"), rhs2);
    let expected = get_bin_exp(Operator::Assign, get_ide("a"), rhs);
    assert_eq!(actual, expected);
}

#[test]
fn test_suffix_increment() {
    let actual = run("a++");
    let expected = get_suffix_exp(SuffixOp::Increment, get_ide("a"));
    assert_eq!(actual, expected);
}

#[test]
fn test_prefix_increment() {
    let actual = run("b = ++a * 1 + 2");
    let rhs = get_prefix_exp(PrefixOp::Increment, get_ide("a"));
    let rhs = get_bin_exp(Operator::Mul, rhs, get_num(1));
    let rhs = get_bin_exp(Operator::Add, rhs, get_num(2));
    let expected = get_bin_exp(Operator::Assign, get_ide("b"), rhs);
    assert_eq!(actual, expected);
}

#[test]
fn test_sign_operator() {
    let actual = run("a = +1 + -2");
    let rhs1 = get_prefix_exp(PrefixOp::Plus, get_num(1));
    let rhs2 = get_prefix_exp(PrefixOp::Minus, get_num(2));
    let rhs = get_bin_exp(Operator::Add, rhs1, rhs2);
    let expected = get_bin_exp(Operator::Assign, get_ide("a"), rhs);
    assert_eq!(actual, expected);
}

#[test]
fn test_array_index() {
    let actual = run("a = b[1 + 2]");
    let index = get_bin_exp(Operator::Add, get_num(1), get_num(2));
    let rhs = get_array_index_exp(get_ide("b"), index);
    let expected = get_bin_exp(Operator::Assign, get_ide("a"), rhs);
    assert_eq!(actual, expected);
}

#[test]
fn test_array_multi() {
    let actual = run("b = a[1][2][3]++ * 4 + 5");
    let array = get_array_index_exp(get_ide("a"), get_num(1));
    let array = get_array_index_exp(array, get_num(2));
    let array = get_array_index_exp(array, get_num(3));
    let array_with_suffix = get_suffix_exp(SuffixOp::Increment, array);
    let rhs = get_bin_exp(Operator::Mul, array_with_suffix, get_num(4));
    let rhs = get_bin_exp(Operator::Add, rhs, get_num(5));
    let expected = get_bin_exp(Operator::Assign, get_ide("b"), rhs);
    assert_eq!(actual, expected);
}

#[test]
fn test_function_call() {
    let actual = run("a = func(1, 2, 3) + 5");
    let identifier = TokenNode { token: Token::Ide("func".to_string(), dd()) };
    let parameters = get_bin_exp(Operator::Comma, get_num(1), get_num(2));
    let parameters = get_bin_exp(Operator::Comma, parameters, get_num(3));
    let function_call = get_function_call_exp(identifier, parameters);
    let rhs = get_bin_exp(Operator::Add, function_call, get_num(5));
    let expected = get_bin_exp(Operator::Assign, get_ide("a"), rhs);
    assert_eq!(actual, expected);
}

#[test]
fn test_function_call_without_args() {
    let actual = run("a = func() + 5");
    let identifier = TokenNode { token: Token::Ide("func".to_string(), dd()) };
    let function_call = get_function_call_exp(identifier, ExpressionNode::Empty);
    let rhs = get_bin_exp(Operator::Add, function_call, get_num(5));
    let expected = get_bin_exp(Operator::Assign, get_ide("a"), rhs);
    assert_eq!(actual, expected);
}

#[test]
fn test_commma() {
    let actual = run("a = 1 + 2 * 3, 4 + 5");
    let lhs = get_bin_exp(Operator::Mul, get_num(2), get_num(3));
    let lhs = get_bin_exp(Operator::Add, get_num(1), lhs);
    let lhs = get_bin_exp(Operator::Assign, get_ide("a"), lhs);
    let rhs = get_bin_exp(Operator::Add, get_num(4), get_num(5));
    let expected = get_bin_exp(Operator::Comma, lhs, rhs);
    assert_eq!(actual, expected);
}

#[test]
fn test_ternary() {
    let actual = run("a = 1 ? 10 * 20 + 30 : b++");
    let condition = get_num(1);
    let ternary_lhs = get_bin_exp(Operator::Mul, get_num(10), get_num(20));
    let ternary_lhs = get_bin_exp(Operator::Add, ternary_lhs, get_num(30));
    let ternary_rhs = get_suffix_exp(SuffixOp::Increment, get_ide("b"));
    let rhs = get_ternary_exp(condition, ternary_lhs, ternary_rhs);
    let expected = get_bin_exp(Operator::Assign, get_ide("a"), rhs);
    assert_eq!(actual, expected);
}

#[test]
fn test_parenthesis() {
    let actual = run("a = (1 * (2 + 3)) * 4");
    let rhs = get_bin_exp(Operator::Add, get_num(2), get_num(3));
    let rhs = get_bin_exp(Operator::Mul, get_num(1), rhs);
    let rhs = get_bin_exp(Operator::Mul, rhs, get_num(4));
    let expected = get_bin_exp(Operator::Assign, get_ide("a"), rhs);
    assert_eq!(actual, expected);
}

#[test]
fn test_all() {
    let actual = run("a = b = 1 + 2 * 3++ + 4");
    let rhs_with_suffix = get_suffix_exp(SuffixOp::Increment, get_num(3));
    let rhs0 = get_bin_exp(Operator::Mul, get_num(2), rhs_with_suffix);
    let rhs1 = get_bin_exp(Operator::Add, get_num(1), rhs0);
    let rhs2 = get_bin_exp(Operator::Add, rhs1, get_num(4));
    let rhs = get_bin_exp(Operator::Assign, get_ide("b"), rhs2);
    let expected = get_bin_exp(Operator::Assign, get_ide("a"), rhs);
    assert_eq!(actual, expected);
}

fn run_declare(input: &str) -> DeclareNode {
    let lexer = Lexer::new();
    let mut tokens = lexer.lex(input.to_string()).expect("lexing failed");
    DeclareNode::new(&mut tokens).expect("parsing failed")
}

#[test]
fn test_parse_single_num() {
    let actual = run_declare("int main(){return 1;}");
    match actual {
        DeclareNode::Function(f) => {
            assert_eq!(f.identifier, "main");
            assert_eq!(f.return_type, BasicType::Int);
            assert!(f.parameters.is_empty());
            assert!(!f.is_extern);
            assert!(!f.is_var_args);
            let stmts = f.statements.expect("a body");
            assert_eq!(stmts.len(), 1);
            match &stmts[0] {
                StatementNode::Return(r) => {
                    assert_eq!(strip(r.expression.dup()), get_num(1));
                }
                other => panic!("expected a return, got {:?}", other),
            }
        }
        other => panic!("expected a function, got {:?}", other),
    }
}

#[test]
fn test_parse_int_declare() {
    let actual = run_declare("int main(){int a; return 42;}");
    match actual {
        DeclareNode::Function(f) => {
            assert_eq!(f.identifier, "main");
            assert_eq!(f.return_type, BasicType::Int);
            assert!(f.parameters.is_empty());
            let stmts = f.statements.expect("a body");
            assert_eq!(stmts.len(), 2);
            match &stmts[0] {
                StatementNode::Declare(d) => {
                    assert_eq!(d.declare_variable_node.identifier, "a");
                    assert_eq!(d.declare_variable_node.value_type, BasicType::Int);
                    assert!(d.declare_variable_node.initialize_expression.is_none());
                }
                other => panic!("expected a declaration, got {:?}", other),
            }
            match &stmts[1] {
                StatementNode::Return(r) => {
                    assert_eq!(strip(r.expression.dup()), get_num(42));
                }
                other => panic!("expected a return, got {:?}", other),
            }
        }
        other => panic!("expected a function, got {:?}", other),
    }
}
