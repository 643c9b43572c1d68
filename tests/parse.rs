use coral::ast::{self, BooleanOperation, Comparison, Number, Operator, UnaryOperation};
use coral::parse::parse_program;

#[test]
fn test_parse_empty() {
        let parse_ast = parse_program("\n");

        assert_eq!(parse_ast, Some(ast::Program { statements: vec![] }))
    }

#[test]
fn test_hello_world() {
        let parse_ast = parse_program(r#"imprima("Olá mundo!")"#);

        assert_eq!(parse_ast, Some(ast::Program {
            statements: vec![ast::Statement::Expr {
                expression: ast::Expression::Call {
                    function: Box::new(ast::Expression::Identifier { name: String::from("imprima") }),
                    args: vec![ast::Expression::Str { value: String::from("Olá mundo!") }],
                    keywords: vec![],
                }
            }]
        }))
    }

#[test]
fn test_two_hello_world() {
        let parse_ast = parse_program(r#"
            imprima("Olá mundo!")
            imprima("Olá pequeno gafanhoto!")
        "#);

        assert_eq!(parse_ast, Some(ast::Program {
            statements: vec![
                ast::Statement::Expr {
                    expression: ast::Expression::Call {
                        function: Box::new(ast::Expression::Identifier { name: String::from("imprima") }),
                        args: vec![ast::Expression::Str { value: String::from("Olá mundo!") }],
                        keywords: vec![],
                    }
                },
                ast::Statement::Expr {
                    expression: ast::Expression::Call {
                        function: Box::new(ast::Expression::Identifier { name: String::from("imprima") }),
                        args: vec![ast::Expression::Str { value: String::from("Olá pequeno gafanhoto!") }],
                        keywords: vec![],
                    }
                }
            ]
        }))
    }

#[test]
fn test_sum_in_print() {
        let parse_ast = parse_program(r#"imprima(5 + 3 - 2)"#);

        assert_eq!(parse_ast, Some(ast::Program {
            statements: vec![
                ast::Statement::Expr {
                    expression: ast::Expression::Call {
                        function: Box::new(ast::Expression::Identifier { name: String::from("imprima") }),
                        args: vec![ast::Expression::BinOp {
                            a: Box::new(ast::Expression::BinOp {
                                a: Box::new(ast::Expression::Num { value: ast::Number::Integer { value: 5 } }),
                                op: Operator::Add,
                                b: Box::new(ast::Expression::Num { value: ast::Number::Integer { value: 3 } }),
                            }),
                            op: Operator::Sub,
                            b: Box::new(ast::Expression::Num { value: ast::Number::Integer { value: 2 } }),
                        }],
                        keywords: vec![],
                    }
                }
            ]
        }))
    }

#[test]
fn test_assign_int_variable() {
        let parse_ast = parse_program(r#"numero = 10"#);
        assert_eq!(parse_ast, Some(ast::Program {
            statements: vec![ast::Statement::Assign {
                targets: vec![ast::Expression::Identifier { name: "numero".into() }],
                value: ast::Expression::Num { value: Number::Integer { value: 10 } },
            }]
        }))
    }

#[test]
fn test_assign_float_variable() {
        let parse_ast = parse_program(r#"real = 10.0"#);
        assert_eq!(parse_ast, Some(ast::Program {
            statements: vec![ast::Statement::Assign {
                targets: vec![ast::Expression::Identifier { name: "real".into() }],
                value: ast::Expression::Num { value: Number::Float { value: "10.0".into() } },
            }]
        }))
    }

#[test]
fn test_assign_string_variable() {
        let parse_ast = parse_program(r#"nome = "coral""#);
        assert_eq!(parse_ast, Some(ast::Program {
            statements: vec![ast::Statement::Assign {
                targets: vec![ast::Expression::Identifier { name: "nome".into() }],
                value: ast::Expression::Str { value: "coral".into() },
            }]
        }))
    }

#[test]
fn test_comparision_less() {
        let parse_ast = parse_program(r#"1 < 5"#);
        assert_eq!(parse_ast, Some(ast::Program {
            statements: vec![
                ast::Statement::Expr {
                    expression: ast::Expression::Compare {
                        a: Box::new(ast::Expression::Num {
                            value: Number::Integer { value: 1 }
                        }),
                        op: Comparison::Less,
                        b: Box::new(ast::Expression::Num {
                            value: Number::Integer { value: 5 }
                        }),
                    }
                }
            ]
        }))
    }

#[test]
fn test_comparision_less_than() {
        let parse_ast = parse_program(r#"1 <= 5"#);
        assert_eq!(parse_ast, Some(ast::Program {
            statements: vec![
                ast::Statement::Expr {
                    expression: ast::Expression::Compare {
                        a: Box::new(ast::Expression::Num {
                            value: Number::Integer { value: 1 }
                        }),
                        op: Comparison::LessThan,
                        b: Box::new(ast::Expression::Num {
                            value: Number::Integer { value: 5 }
                        }),
                    }
                }
            ]
        }))
    }

#[test]
fn test_bin_or_comparision() {
        let parse_ast = parse_program(r#"Verdadeiro ou Falso"#);
        assert_eq!(parse_ast, Some(ast::Program {
            statements: vec![
                ast::Statement::Expr {
                    expression: ast::Expression::BoolOp {
                        a: Box::new(ast::Expression::True),
                        op: BooleanOperation::Or,
                        b: Box::new(ast::Expression::False),
                    }
                }
            ]
        }))
    }

#[test]
fn test_bin_sum_operation() {
        let parse_ast = parse_program(r#"1 + 5"#);
        assert_eq!(parse_ast, Some(ast::Program {
            statements: vec![
                ast::Statement::Expr {
                    expression: ast::Expression::BinOp {
                        a: Box::new(ast::Expression::Num {
                            value: Number::Integer { value: 1 }
                        }),
                        op: Operator::Add,
                        b: Box::new(ast::Expression::Num {
                            value: Number::Integer { value: 5 }
                        }),
                    }
                }
            ]
        }))
    }

#[test]
fn test_not_unary_operation() {
        let parse_ast = parse_program(r#"nao Falso"#);
        assert_eq!(
            parse_ast,
            Some(ast::Program {
                statements: vec![
                    ast::Statement::Expr {
                        expression: ast::Expression::UnOp {
                            op: UnaryOperation::Not,
                            a: Box::new(ast::Expression::False),
                        }
                    }
                ]
            })
        )
    }
