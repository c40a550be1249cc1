//! End-to-end scenarios: whole programs through the pipeline, the emitted
//! module's shape, determinism, and each fatal error on an input that
//! triggers it.
use rexparser::builtin::emit_builtin;
use rexparser::compile;
use rexparser::error::CompileError;
use rexparser::lexer::Lexer;
use rexparser::parser::DeclareNode;
use rexparser::parser::EnumStatementNode;
use rexparser::parser::StatementNode;
use rexparser::text::parse_u64;
use rexparser::text::u64_to_string;
use rexparser::token::BasicType;
use rexparser::token::Token;

fn compile_ok(src: &str) -> (String, String) {
    compile(src.to_string()).expect("compilation failed")
}

fn compile_err(src: &str) -> CompileError {
    match compile(src.to_string()) {
        Ok(_) => panic!("expected a compilation error"),
        Err(e) => e,
    }
}

#[test]
fn test_return_one() {
    let (compiled, _) = compile_ok("int main(){return 1;}");
    assert!(compiled.contains("define i32 @main()"));
    assert!(compiled.contains("ret i32"));
    assert!(compiled.contains("declare i32 @putchar(i32)"));
}

#[test]
fn test_precedence_program() {
    let (compiled, _) = compile_ok("int main(){return 1+2*3+4;}");
    assert!(compiled.contains("mul i32"));
    assert!(compiled.contains("add i32"));
}

#[test]
fn test_assign_add_program() {
    let (compiled, _) = compile_ok("int main(){int a=3; a+=12; return a;}");
    assert!(compiled.contains("add i32"));
}

#[test]
fn test_array_program() {
    let (compiled, _) = compile_ok(
        "int main(){int a[3]; a[0]=10; a[1]=20; a[2]=30; return a[0]+a[2];}",
    );
    assert!(compiled.contains("alloca [3 x i32]"));
    assert!(compiled.contains("getelementptr [3 x i32], [3 x i32]*"));
}

#[test]
fn test_sum_function_program() {
    let (compiled, _) = compile_ok(
        "int sum(int n){int s=0; for(int i=1;i<n+1;i=i+1) s+=i; return s;} int main(){return sum(10);}",
    );
    assert!(compiled.contains("define i32 @sum(i32 %a0)"));
    assert!(compiled.contains("call i32 @slt_int"));
    assert!(compiled.contains("call i32 @sum(i32"));
}

#[test]
fn test_switch_program() {
    let (compiled, _) = compile_ok(
        "int main(){int x=3; switch(x){case 1: return 10; case 3: return 33; default: return 99;}}",
    );
    assert!(compiled.contains("icmp eq i32"));
}

#[test]
fn test_struct_program() {
    let (compiled, _) = compile_ok(
        "struct P{int x; int y;}; int main(){struct P p; p.x=7; p.y=35; return p.x+p.y;}",
    );
    assert!(compiled.contains("alloca { i32, i32 }"));
    assert!(compiled.contains("getelementptr { i32, i32 }, { i32, i32 }*"));
}

#[test]
fn test_putchar_program() {
    let (compiled, _) = compile_ok("int main(){putchar(33); return 0;}");
    assert!(compiled.contains("call i32 @putchar(i32 %"));
    assert!(compiled.contains("store i32 33"));
}

#[test]
fn test_round_trip_determinism() {
    let src = "int sum(int n){int s=0; for(int i=1;i<n+1;i=i+1) s+=i; return s;} int main(){return sum(10);}";
    let (c1, b1) = compile_ok(src);
    let (c2, b2) = compile_ok(src);
    assert_eq!(c1, c2);
    assert_eq!(b1, b2);
}

#[test]
fn test_scope_shadowing_program() {
    let (compiled, _) = compile_ok(
        "int main(){int a=1; {int a=2; a+=1;} return a;}",
    );
    assert!(compiled.contains("define i32 @main()"));
}

#[test]
fn test_redefinition_rejected() {
    match compile_err("int main(){int a; int a; return 0;}") {
        CompileError::Redefinition(name) => assert_eq!(name, "a"),
        other => panic!("expected a redefinition error, got {:?}", other),
    }
}

#[test]
fn test_break_targets_innermost() {
    let (compiled, _) = compile_ok(
        "int main(){int s=0; while(1){while(1){break;} s=1; break;} return s;}",
    );
    assert!(compiled.contains("br label"));
}

#[test]
fn test_break_outside_loop_rejected() {
    match compile_err("int main(){break; return 0;}") {
        CompileError::InvalidJump => (),
        other => panic!("expected an invalid jump error, got {:?}", other),
    }
}

#[test]
fn test_continue_outside_loop_rejected() {
    match compile_err("int main(){continue; return 0;}") {
        CompileError::InvalidJump => (),
        other => panic!("expected an invalid jump error, got {:?}", other),
    }
}

#[test]
fn test_switch_fallthrough_program() {
    // the first case has no break, so its body must fall into the second
    let (compiled, _) = compile_ok(
        "int main(){int x=1; int s=0; switch(x){case 1: s+=1; case 2: s+=10; default: s+=100;} return s;}",
    );
    assert!(compiled.contains("icmp eq i32"));
}

#[test]
fn test_array_decay_in_parameter() {
    let lexer = Lexer::new();
    let mut tokens = lexer
        .lex("int f(int a[3]){return 0;}".to_string())
        .expect("lexing failed");
    match DeclareNode::new(&mut tokens).expect("parsing failed") {
        DeclareNode::Function(f) => {
            assert_eq!(f.parameters.len(), 1);
            assert_eq!(
                f.parameters[0].value_type,
                BasicType::Pointer(Box::new(BasicType::Int)),
            );
        }
        other => panic!("expected a function, got {:?}", other),
    }
}

#[test]
fn test_auto_enumeration_values() {
    let lexer = Lexer::new();
    let mut tokens = lexer
        .lex("int main(){enum {A, B = 5, C}; return A;}".to_string())
        .expect("lexing failed");
    match DeclareNode::new(&mut tokens).expect("parsing failed") {
        DeclareNode::Function(f) => {
            let stmts = f.statements.expect("a body");
            match &stmts[0] {
                StatementNode::Enum(EnumStatementNode::Definition(def)) => {
                    assert_eq!(def.enums.len(), 3);
                    let values: Vec<String> = def
                        .enums
                        .iter()
                        .map(|e| match e.initialize_expression.as_ref().expect("a value") {
                            rexparser::expression::ExpressionNode::Token(tn) => match &tn.token {
                                Token::IntNum(v, _) => v.clone(),
                                other => panic!("expected an integer, got {:?}", other),
                            },
                            other => panic!("expected a literal, got {:?}", other),
                        })
                        .collect();
                    assert_eq!(values, vec!["0", "5", "6"]);
                    assert_eq!(def.enums[0].identifier, "A");
                    assert_eq!(def.enums[1].identifier, "B");
                    assert_eq!(def.enums[2].identifier, "C");
                }
                other => panic!("expected an enum definition, got {:?}", other),
            }
        }
        other => panic!("expected a function, got {:?}", other),
    }
}

#[test]
fn test_enum_program_compiles() {
    let (compiled, _) = compile_ok("int main(){enum {A, B = 5, C}; return A+B+C;}");
    assert!(compiled.contains("store i32 6"));
}

#[test]
fn test_lexical_error_position() {
    match compile_err("int main(){return 1#;}") {
        CompileError::Lexical(pos) => assert_eq!(pos, 19),
        other => panic!("expected a lexical error, got {:?}", other),
    }
}

#[test]
fn test_undeclared_identifier() {
    match compile_err("int main(){return x;}") {
        CompileError::UndeclaredIdentifier(name) => assert_eq!(name, "x"),
        other => panic!("expected an undeclared identifier error, got {:?}", other),
    }
}

#[test]
fn test_undeclared_function() {
    match compile_err("int main(){return g(1);}") {
        CompileError::UndeclaredFunction(name) => assert_eq!(name, "g"),
        other => panic!("expected an undeclared function error, got {:?}", other),
    }
}

#[test]
fn test_arity_mismatch() {
    match compile_err("int f(int a){return a;} int main(){return f(1,2);}") {
        CompileError::ArityMismatch(name) => assert_eq!(name, "f"),
        other => panic!("expected an arity error, got {:?}", other),
    }
}

#[test]
fn test_variadic_accepts_more_arguments() {
    let (compiled, _) = compile_ok(
        "int f(int a, ...){return a;} int main(){return f(1,2,3);}",
    );
    assert!(compiled.contains("define i32 @f(i32 %a0, ...)"));
}

#[test]
fn test_parse_error_unexpected_token() {
    match compile_err("int main(){return ;}") {
        CompileError::UnexpectedToken(_) => (),
        other => panic!("expected an unexpected-token error, got {:?}", other),
    }
}

#[test]
fn test_parse_error_eof() {
    match compile_err("int main(){return 1") {
        CompileError::UnexpectedEof => (),
        other => panic!("expected an end-of-input error, got {:?}", other),
    }
}

#[test]
fn test_global_initializer_must_be_constant() {
    match compile_err("int g = 1+2; int main(){return g;}") {
        CompileError::NotAConstant => (),
        other => panic!("expected a constant-initializer error, got {:?}", other),
    }
}

#[test]
fn test_global_constant_initializer() {
    let (compiled, _) = compile_ok("int g = 7; int main(){return g;}");
    assert!(compiled.contains("@g = global i32 7"));
}

#[test]
fn test_undeclared_struct_tag() {
    match compile_err("int main(){struct Q q; return 0;}") {
        CompileError::UndeclaredTag(name) => assert_eq!(name, "Q"),
        other => panic!("expected an undeclared tag error, got {:?}", other),
    }
}

#[test]
fn test_missing_struct_field() {
    match compile_err("struct P{int x;}; int main(){struct P p; p.y=1; return 0;}") {
        CompileError::NoSuchField(name) => assert_eq!(name, "p.y"),
        other => panic!("expected a missing-field error, got {:?}", other),
    }
}

#[test]
fn test_array_size_overflow() {
    match compile_err("int main(){int a[99999999999999999999]; return 0;}") {
        CompileError::NumberOverflow => (),
        other => panic!("expected an overflow error, got {:?}", other),
    }
}

#[test]
fn test_builtin_module_shape() {
    let b = emit_builtin();
    assert!(b.contains("define i32 @eq_int(i32 %a0, i32 %a1)"));
    assert!(b.contains("define i32 @sgt_int(i32 %a0, i32 %a1)"));
    assert!(b.contains("define i32 @slt_int(i32 %a0, i32 %a1)"));
    assert!(b.contains("icmp sgt i32 %a0, %a1"));
    assert!(b.contains("icmp slt i32 %a0, %a1"));
    // each logical helper tests its operands against zero on their own, so
    // operands that cancel under addition or whose product wraps to zero
    // still count as true
    assert!(b.contains("icmp ne i32 %a0, 0"));
    assert!(b.contains("icmp ne i32 %a1, 0"));
    assert!(b.contains("and i1 %t0, %t1"));
    assert!(b.contains("or i32 %a0, %a1"));
    assert!(!b.contains("mul i32 %a0, %a1"));
    assert!(!b.contains("add i32 %a0, %a1"));
}

#[test]
fn test_comparisons_lower_to_builtins() {
    let (compiled, _) = compile_ok(
        "int main(){int a=1; int b=2; return (a==b) + (a>b) + (a<b) + (a&&b) + (a||b);}",
    );
    assert!(compiled.contains("call i32 @eq_int"));
    assert!(compiled.contains("call i32 @sgt_int"));
    assert!(compiled.contains("call i32 @slt_int"));
    assert!(compiled.contains("call i32 @and_int"));
    assert!(compiled.contains("call i32 @or_int"));
}

#[test]
fn test_char_literal_is_its_code_point() {
    let lexer = Lexer::new();
    let tokens = lexer.lex("'a'".to_string()).expect("lexing failed");
    assert_eq!(tokens.tokens.len(), 1);
    match &tokens.tokens[0] {
        Token::IntNum(v, _) => assert_eq!(v, "97"),
        other => panic!("expected an integer token, got {:?}", other),
    }
}

#[test]
fn test_prefix_suffix_increment_lexing() {
    let lexer = Lexer::new();
    let tokens = lexer.lex("a++ ++b".to_string()).expect("lexing failed");
    let kinds: Vec<&str> = tokens
        .tokens
        .iter()
        .map(|t| match t {
            Token::Ide(_, _) => "ide",
            Token::SuffixOp(_, _) => "suffix",
            Token::PrefixOp(_, _) => "prefix",
            _ => "other",
        })
        .collect();
    assert_eq!(kinds, vec!["ide", "suffix", "prefix", "ide"]);
}

#[test]
fn test_const_keyword_dropped() {
    let lexer = Lexer::new();
    let tokens = lexer.lex("const int a;".to_string()).expect("lexing failed");
    assert_eq!(tokens.tokens.len(), 3);
}

#[test]
fn test_decimal_text_round_trip() {
    assert_eq!(u64_to_string(0), "0");
    assert_eq!(u64_to_string(90210), "90210");
    assert_eq!(parse_u64("90210"), Some(90210));
    assert_eq!(parse_u64(""), None);
    assert_eq!(parse_u64("12x"), None);
    assert_eq!(parse_u64("18446744073709551615"), Some(u64::MAX));
    assert_eq!(parse_u64("18446744073709551616"), None);
}

#[test]
fn test_ternary_lowers_to_phi() {
    let (compiled, _) = compile_ok("int main(){int a=1; int b = a ? 2 : 3; return b;}");
    assert!(compiled.contains("phi i32*"));
}

#[test]
fn test_pointer_program() {
    let (compiled, _) = compile_ok("int main(){int a=24; int* p=&a; return *p;}");
    assert!(compiled.contains("alloca i32*"));
}

#[test]
fn test_while_program() {
    let (compiled, _) = compile_ok(
        "int main(){int i=0; while(i<10){i+=1;} return i;}",
    );
    assert!(compiled.contains("call i32 @slt_int"));
}

#[test]
fn test_if_else_program() {
    let (compiled, _) = compile_ok(
        "int main(){int x=3; if(x==3){return 91;} else {return 7;}}",
    );
    assert!(compiled.contains("call i32 @eq_int"));
    assert!(compiled.contains("br i1"));
}
