use miniscript::codegen::compiler::Compiler;
use miniscript::compiler::ast::{Declaration, Statement};
use miniscript::compiler::parser::Parser;
use miniscript::frontend::lexer::Lexer;

fn parse(src: &str) -> Vec<(String, Vec<String>, Vec<String>)> {
    let mut lexer = Lexer::new(String::from(src));
    let tokens = lexer.tokenize();
    let mut parser = Parser::new(tokens);
    let program = parser.parse();
    program
        .decl
        .into_iter()
        .map(|d| match d {
            Declaration::Function(name, args, body) => {
                let vars = body
                    .into_iter()
                    .map(|s| match s {
                        Statement::Variable(v) => v,
                        _ => panic!("unexpected statement"),
                    })
                    .collect();
                (name, args, vars)
            }
        })
        .collect()
}

fn strings(v: &[&str]) -> Vec<String> {
    v.iter().map(|s| String::from(*s)).collect()
}

#[test]
fn parse_function_with_body() {
    assert_eq!(
        parse("fn main(a, b) {\n\tvar x;\n\tvar y;\n}"),
        vec![(String::from("main"), strings(&["a", "b"]), strings(&["x", "y"]))]
    );
}

#[test]
fn parse_declaration_without_body() {
    assert_eq!(
        parse("fn f(); fn g(x) {}"),
        vec![
            (String::from("f"), strings(&[]), strings(&[])),
            (String::from("g"), strings(&["x"]), strings(&[])),
        ]
    );
}

#[test]
fn parse_stops_at_non_declaration() {
    assert_eq!(parse("var x;"), vec![]);
    assert_eq!(parse("fn (a) {}"), vec![]);
    assert_eq!(parse("fn f {}"), vec![]);
    assert_eq!(parse(""), vec![]);
}

#[test]
fn parse_body_ends_at_unknown_statement() {
    assert_eq!(parse("fn f() { x }"), vec![(String::from("f"), strings(&[]), strings(&[]))]);
}

#[test]
fn compiler_sections_and_labels() {
    let mut c = Compiler::new();
    assert_eq!(c.label_program(String::from("start")), 0);
    c.append_program(&mut vec![1, 2, 3]);
    let mut d = vec![9, 8];
    c.append_data(&mut d);
    assert!(d.is_empty());
    assert_eq!(c.label_program(String::from("after")), 3);
    assert_eq!(c.label_data(String::from("end")), 2);
    assert_eq!(c.label_program(String::from("start")), 3);
    assert_eq!(c.program(), &[1, 2, 3][..]);
    assert_eq!(c.data(), &[9, 8][..]);
    assert_eq!(c.program_label("start"), Some(3));
    assert_eq!(c.program_label("after"), Some(3));
    assert_eq!(c.data_label("end"), Some(2));
    assert_eq!(c.data_label("start"), None);
}
