use cps_pass::ast::{
    Arg, ArgNames, Assignment, AssignmentKind, BinOp, BitArrayOption, BitArraySegment, CallArg,
    Clause, Expr, FunctionLiteralKind, Pattern, RecordBeingUpdated, RecordUpdateArg, SegmentFlag,
    SrcSpan, Statement, TodoKind, Use, UseAssignment,
};
use cps_pass::cps::{cps_fn, to_cps};

fn span(start: u32, end: u32) -> SrcSpan {
    SrcSpan { start, end }
}

fn var(name: &str, start: u32) -> Expr {
    Expr::Var { location: span(start, start + 1), name: name.to_string() }
}

fn int_lit(value: &str, start: u32) -> Expr {
    Expr::Int { location: span(start, start + 1), value: value.to_string() }
}

fn not(e: Expr) -> Expr {
    let location = e.location();
    Expr::NegateBool { location, value: Box::new(e) }
}

fn call_named(name: &str, v: Expr) -> Expr {
    let location = v.location();
    Expr::Call {
        location,
        fun: Box::new(Expr::Var { location, name: name.to_string() }),
        arguments: vec![CallArg { label: None, location, value: v, implicit: None }],
    }
}

fn go(v: Expr) -> Expr {
    call_named("go", v)
}

fn named_arg(name: &str, start: u32) -> Arg {
    Arg {
        names: ArgNames::Named { name: name.to_string(), location: span(start, start + 1) },
        location: span(start, start + 1),
        annotation: None,
    }
}

fn param(name: &str, location: SrcSpan) -> Arg {
    Arg { names: ArgNames::Named { name: name.to_string(), location }, location, annotation: None }
}

fn go_arg(location: SrcSpan) -> Arg {
    param("go", location)
}

fn function(arguments: Vec<Arg>, body: Vec<Statement>) -> Expr {
    Expr::Fn {
        location: span(0, 50),
        kind: FunctionLiteralKind::Anonymous { head: span(0, 5) },
        end_of_head_byte_index: 5,
        arguments,
        body,
        return_annotation: None,
    }
}

fn wildcard_clause(branch: Expr, start: u32) -> Clause {
    Clause {
        location: span(start, start + 6),
        patterns: vec![Pattern::Discard { location: span(start, start + 1), name: "_".to_string() }],
        guard: None,
        branch,
    }
}

fn sample_list() -> Expr {
    Expr::List {
        location: span(0, 10),
        elements: vec![int_lit("1", 1), var("a", 4)],
        tail: Some(Box::new(var("rest", 7))),
    }
}

#[test]
fn leaf_goes_to_continuation_as_it_is() {
    let leaves = vec![
        int_lit("7", 0),
        Expr::Float { location: span(0, 3), value: "1.5".to_string() },
        Expr::String { location: span(0, 4), value: "hi".to_string() },
        var("x", 0),
        Expr::Placeholder { location: span(2, 3) },
    ];
    let expected = vec![
        not(int_lit("7", 0)),
        not(Expr::Float { location: span(0, 3), value: "1.5".to_string() }),
        not(Expr::String { location: span(0, 4), value: "hi".to_string() }),
        not(var("x", 0)),
        not(Expr::Placeholder { location: span(2, 3) }),
    ];
    for (leaf, want) in leaves.into_iter().zip(expected) {
        assert_eq!(to_cps(leaf, &not), want);
    }
}

#[test]
fn continuation_fires_at_every_node_of_a_list() {
    let out = to_cps(sample_list(), &not);
    let want = not(Expr::List {
        location: span(0, 10),
        elements: vec![not(int_lit("1", 1)), not(var("a", 4))],
        tail: Some(Box::new(not(var("rest", 7)))),
    });
    assert_eq!(out, want);
}

#[test]
fn identity_continuation_leaves_a_tree_without_functions_unchanged() {
    let build = || Expr::Case {
        location: span(0, 40),
        subjects: vec![var("y", 5)],
        clauses: Some(vec![wildcard_clause(sample_list(), 10), wildcard_clause(var("b", 20), 20)]),
    };
    assert_eq!(to_cps(build(), &|e| e), build());
    let pipe = || Expr::PipeLine { location: span(0, 9), expressions: vec![var("a", 0), var("f", 5)] };
    assert_eq!(to_cps(pipe(), &|e| e), pipe());
}

#[test]
fn binary_operation_keeps_its_operator() {
    let e = Expr::BinOp { location: span(0, 5), name: BinOp::AddInt, left: Box::new(int_lit("1", 0)), right: Box::new(int_lit("2", 4)) };
    let want = not(Expr::BinOp {
        location: span(0, 5),
        name: BinOp::AddInt,
        left: Box::new(not(int_lit("1", 0))),
        right: Box::new(not(int_lit("2", 4))),
    });
    assert_eq!(to_cps(e, &not), want);
}

#[test]
fn call_arguments_keep_their_labels() {
    let e = Expr::Call {
        location: span(0, 12),
        fun: Box::new(var("f", 0)),
        arguments: vec![CallArg { label: Some("by".to_string()), location: span(2, 8), value: int_lit("3", 6), implicit: None }],
    };
    let want = not(Expr::Call {
        location: span(0, 12),
        fun: Box::new(not(var("f", 0))),
        arguments: vec![CallArg { label: Some("by".to_string()), location: span(2, 8), value: not(int_lit("3", 6)), implicit: None }],
    });
    assert_eq!(to_cps(e, &not), want);
}

#[test]
fn size_option_is_rewritten_and_flags_are_kept() {
    let e = Expr::BitArray {
        location: span(0, 20),
        segments: vec![BitArraySegment {
            location: span(2, 18),
            value: Box::new(var("x", 2)),
            options: vec![
                BitArrayOption::Size { location: span(4, 10), value: Box::new(int_lit("8", 9)), short_form: false },
                BitArrayOption::Flag { location: span(11, 14), flag: SegmentFlag::Big },
                BitArrayOption::Unit { location: span(15, 17), value: 2 },
            ],
        }],
    };
    let want = not(Expr::BitArray {
        location: span(0, 20),
        segments: vec![BitArraySegment {
            location: span(2, 18),
            value: Box::new(not(var("x", 2))),
            options: vec![
                BitArrayOption::Size { location: span(4, 10), value: Box::new(not(int_lit("8", 9))), short_form: false },
                BitArrayOption::Flag { location: span(11, 14), flag: SegmentFlag::Big },
                BitArrayOption::Unit { location: span(15, 17), value: 2 },
            ],
        }],
    });
    assert_eq!(to_cps(e, &not), want);
}

#[test]
fn record_update_rewrites_constructor_base_and_arguments() {
    let e = Expr::RecordUpdate {
        location: span(0, 30),
        constructor: Box::new(var("P", 0)),
        record: RecordBeingUpdated { base: Box::new(var("p", 4)), location: span(2, 6) },
        arguments: vec![RecordUpdateArg { label: "age".to_string(), location: span(8, 15), value: int_lit("4", 14) }],
    };
    let want = not(Expr::RecordUpdate {
        location: span(0, 30),
        constructor: Box::new(not(var("P", 0))),
        record: RecordBeingUpdated { base: Box::new(not(var("p", 4))), location: span(2, 6) },
        arguments: vec![RecordUpdateArg { label: "age".to_string(), location: span(8, 15), value: not(int_lit("4", 14)) }],
    });
    assert_eq!(to_cps(e, &not), want);
}

#[test]
fn block_rewrites_every_statement() {
    let assignment = |value: Expr| {
        Statement::Assignment(Assignment {
            location: span(1, 9),
            value: Box::new(value),
            pattern: Pattern::Variable { location: span(5, 6), name: "a".to_string() },
            kind: AssignmentKind::Let,
            annotation: None,
        })
    };
    let e = Expr::Block {
        location: span(0, 20),
        statements: vec![assignment(int_lit("1", 8)), Statement::Expression(var("a", 12))],
    };
    let want = not(Expr::Block {
        location: span(0, 20),
        statements: vec![assignment(not(int_lit("1", 8))), Statement::Expression(not(var("a", 12)))],
    });
    assert_eq!(to_cps(e, &not), want);
}

#[test]
fn effect_markers_rewrite_their_payloads() {
    let todo = Expr::Todo { kind: TodoKind::Keyword, location: span(0, 4), message: None };
    assert_eq!(to_cps(todo, &not), not(Expr::Todo { kind: TodoKind::Keyword, location: span(0, 4), message: None }));
    let panic = Expr::Panic { location: span(0, 9), message: Some(Box::new(var("m", 6))) };
    assert_eq!(
        to_cps(panic, &not),
        not(Expr::Panic { location: span(0, 9), message: Some(Box::new(not(var("m", 6)))) })
    );
    let echo = Expr::Echo { location: span(0, 6), expression: Some(Box::new(var("v", 5))) };
    assert_eq!(
        to_cps(echo, &not),
        not(Expr::Echo { location: span(0, 6), expression: Some(Box::new(not(var("v", 5)))) })
    );
    let neg = Expr::NegateInt { location: span(0, 2), value: Box::new(var("n", 1)) };
    assert_eq!(to_cps(neg, &not), not(Expr::NegateInt { location: span(0, 2), value: Box::new(not(var("n", 1))) }));
}

#[test]
fn single_variable_body_becomes_a_call_to_go() {
    let f = function(vec![named_arg("x", 3)], vec![Statement::Expression(var("x", 10))]);
    let out = cps_fn(f, &|e| e);
    let want = function(
        vec![named_arg("x", 3), go_arg(span(0, 50))],
        vec![Statement::Expression(go(var("x", 10)))],
    );
    assert_eq!(out, want);
}

#[test]
fn case_branches_are_each_delivered_to_go() {
    let case = |a: Expr, b: Expr, subject: Expr| Expr::Case {
        location: span(10, 40),
        subjects: vec![subject],
        clauses: Some(vec![wildcard_clause(a, 20), wildcard_clause(b, 30)]),
    };
    let f = function(vec![], vec![Statement::Expression(case(var("a", 25), var("b", 35), var("y", 15)))]);
    let out = cps_fn(f, &|e| e);
    let want = function(
        vec![go_arg(span(0, 50))],
        vec![Statement::Expression(go(case(go(var("a", 25)), go(var("b", 35)), go(var("y", 15)))))],
    );
    assert_eq!(out, want);
}

#[test]
fn only_the_final_statement_is_rewritten() {
    let body = || vec![Statement::Expression(var("a", 5)), Statement::Expression(int_lit("1", 8)), Statement::Expression(var("b", 12))];
    let out = cps_fn(function(vec![named_arg("p", 2), named_arg("q", 3)], body()), &|e| e);
    let mut want_body = body();
    want_body.pop();
    want_body.push(Statement::Expression(go(var("b", 12))));
    let want = function(vec![named_arg("p", 2), named_arg("q", 3), go_arg(span(0, 50))], want_body);
    assert_eq!(out, want);
    match out {
        Expr::Fn { arguments, .. } => assert_eq!(arguments.len(), 3),
        _ => panic!("a function literal was expected"),
    }
}

#[test]
fn converting_twice_appends_two_distinct_parameters_and_wraps_in_order() {
    let f = function(vec![named_arg("x", 3)], vec![Statement::Expression(var("x", 10))]);
    let twice = cps_fn(cps_fn(f, &|e| e), &|e| e);
    // The second conversion finds `go` bound, so its parameter is `go__`.
    let second = |v: Expr| call_named("go__", v);
    let first = go(var("x", 10));
    let location = first.location();
    let inner = Expr::Call {
        location,
        fun: Box::new(second(Expr::Var { location, name: "go".to_string() })),
        arguments: vec![CallArg { label: None, location, value: second(var("x", 10)), implicit: None }],
    };
    let want = function(
        vec![named_arg("x", 3), go_arg(span(0, 50)), param("go__", span(0, 50))],
        vec![Statement::Expression(second(inner))],
    );
    assert_eq!(twice, want);
}

#[test]
fn parameter_name_avoids_names_the_literal_binds() {
    let let_go = Statement::Assignment(Assignment {
        location: span(6, 20),
        value: Box::new(int_lit("1", 18)),
        pattern: Pattern::Variable { location: span(10, 13), name: "goal".to_string() },
        kind: AssignmentKind::Let,
        annotation: None,
    });
    let f = function(vec![named_arg("go", 3)], vec![let_go, Statement::Expression(var("go", 22))]);
    let out = cps_fn(f, &|e| e);
    match out {
        Expr::Fn { arguments, body, .. } => {
            // Bound names are `go` and `goal`: the longest has four characters.
            assert_eq!(arguments[1], param("go____", span(0, 50)));
            assert_eq!(body[1], Statement::Expression(call_named("go____", var("go", 22))));
        },
        _ => panic!("a function literal was expected"),
    }
}

#[test]
fn nested_function_literal_is_converted_by_the_dispatcher() {
    let inner = function(vec![], vec![Statement::Expression(var("z", 30))]);
    let out = to_cps(Expr::Tuple { location: span(0, 60), elems: vec![inner] }, &|e| e);
    let want_inner = function(vec![go_arg(span(0, 50))], vec![Statement::Expression(go(var("z", 30)))]);
    assert_eq!(out, Expr::Tuple { location: span(0, 60), elems: vec![want_inner] });
}

#[test]
fn field_access_and_tuple_index_keep_label_and_index() {
    let e = Expr::FieldAccess {
        location: span(0, 8),
        label_location: span(2, 8),
        label: "name".to_string(),
        container: Box::new(Expr::TupleIndex { location: span(0, 3), index: 1, tuple: Box::new(var("t", 0)) }),
    };
    let want = not(Expr::FieldAccess {
        location: span(0, 8),
        label_location: span(2, 8),
        label: "name".to_string(),
        container: Box::new(not(Expr::TupleIndex { location: span(0, 3), index: 1, tuple: Box::new(not(var("t", 0))) })),
    });
    assert_eq!(to_cps(e, &not), want);
}

#[test]
fn callback_sugar_binding_rewrites_its_call() {
    let use_statement = |call: Expr| {
        Statement::Use(Use {
            location: span(0, 20),
            right_hand_side_location: span(8, 20),
            assignments_location: span(4, 5),
            call: Box::new(call),
            assignments: vec![UseAssignment {
                location: span(4, 5),
                pattern: Pattern::Variable { location: span(4, 5), name: "x".to_string() },
                annotation: None,
            }],
        })
    };
    let e = Expr::Block { location: span(0, 30), statements: vec![use_statement(var("run", 8))] };
    let want = not(Expr::Block { location: span(0, 30), statements: vec![use_statement(not(var("run", 8)))] });
    assert_eq!(to_cps(e, &not), want);
}
