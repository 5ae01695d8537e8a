//! The continuation-passing rewrite itself.
use crate::ast::{
    Arg, ArgNames, Assignment, BitArrayOption, BitArraySegment, CallArg, Clause, Expr, Pattern,
    RecordBeingUpdated, RecordUpdateArg, Statement, Use, UseAssignment,
};
use crate::model::{
    self, arg_views, call_arg_views, call_go, clause_views, expr_views, go_cont, option_views, segment_views,
    statement_views, update_arg_views, ExprView,
};
use crate::nonempty::{from_vec_push, split_off_last};
use vstd::prelude::*;
use vstd::std_specs::vec::axiom_vec_index_decreases;

verus! {

/// `k` accepts every expression and behaves as `f` on views.
pub open spec fn realizes<K: Fn(Expr) -> Expr>(k: &K, f: spec_fn(ExprView) -> ExprView) -> bool {
    &&& forall|e: Expr| #[trigger] k.requires((e,))
    &&& forall|e: Expr, r: Expr| #[trigger] k.ensures((e,), r) ==> r@ == f(e@)
}

/// A continuation is pure when it accepts every expression and expressions
/// with equal views give results with equal views.
pub open spec fn is_pure<K: Fn(Expr) -> Expr>(k: &K) -> bool {
    &&& forall|e: Expr| #[trigger] k.requires((e,))
    &&& forall|e1: Expr, e2: Expr, r1: Expr, r2: Expr|
        e1@ == e2@ && #[trigger] k.ensures((e1,), r1) && #[trigger] k.ensures((e2,), r2) ==> r1@ == r2@
}

/// What a pure continuation does to views.
pub open spec fn meaning<K: Fn(Expr) -> Expr>(k: &K) -> spec_fn(ExprView) -> ExprView {
    |m: ExprView| {
        let w = choose|w: (Expr, Expr)| w.0@ == m && #[trigger] k.ensures((w.0,), w.1);
        w.1@
    }
}

pub proof fn lemma_pure_realizes_meaning<K: Fn(Expr) -> Expr>(k: &K)
    requires
        is_pure(k),
    ensures
        realizes(k, meaning(k)),
{
    assert forall|e: Expr, r: Expr| #[trigger] k.ensures((e,), r) implies r@ == meaning(k)(e@) by {
        let w0 = (e, r);
        assert(w0.0@ == e@ && k.ensures((w0.0,), w0.1));
    }
}

/// Hands `e` to the continuation.
fn deliver<K: Fn(Expr) -> Expr>(k: &K, e: Expr, f: Ghost<spec_fn(ExprView) -> ExprView>) -> (r: Expr)
    requires
        realizes(k, f@),
    ensures
        r@ == f@(e@),
{
    k(e)
}

/// Rewrites `expr` under a pure continuation `k`: every child expression is
/// rewritten under the same `k`, and `k` receives the rebuilt node; an atomic
/// expression goes to `k` as it is, and a function literal is converted
/// (see `cps_fn`) before it goes to `k`.
pub fn to_cps<K: Fn(Expr) -> Expr>(expr: Expr, k: &K) -> (r: Expr)
    requires
        is_pure(k),
        model::wf(expr@),
    ensures
        r@ == model::cps(expr@, meaning(k)),
{
    proof {
        lemma_pure_realizes_meaning(k);
    }
    cps_expr(expr, k, Ghost(meaning(k)))
}

/// Converts a function literal to continuation-passing form: a parameter
/// `go` is appended to its arguments, its final statement is rewritten so that
/// each value it produces becomes a call `go(value)`, its other statements are
/// kept, and the new literal is handed to `k`.
pub fn cps_fn<K: Fn(Expr) -> Expr>(expr: Expr, k: &K) -> (r: Expr)
    requires
        is_pure(k),
        expr@ is Fn,
        model::wf(expr@),
    ensures
        r@ == model::cps(expr@, meaning(k)),
        r@ == meaning(k)(model::convert_fn(expr@)),
{
    proof {
        lemma_pure_realizes_meaning(k);
    }
    let fn_expr = convert_fn_literal(expr);
    deliver(k, fn_expr, Ghost(meaning(k)))
}

/// `name(v)` at `v`'s location.
fn call_go_with(v: Expr, name: String) -> (r: Expr)
    ensures
        r@ == call_go(v@, name@),
{
    let location = v.location();
    let ghost vv = v@;
    let ghost v0 = v;
    let ghost nv = name@;
    let arg = CallArg { label: None, location, value: v, implicit: None };
    let arguments = vec![arg];
    let fun = Expr::Var { location, name };
    assert(fun@ == ExprView::Var { location: vv.location(), name: nv });
    let r = Expr::Call { location, fun: Box::new(fun), arguments };
    proof {
        let av = call_arg_views(arguments@);
        assert(arguments@.len() == 1);
        assert(arguments@[0].value == v0);
        assert(av.len() == 1);
        assert(av[0] == arguments@[0]@);
        assert(av =~= seq![model::CallArgView { label: None, location: vv.location(), value: vv, implicit: None }]);
        assert(r@->Call_location == vv.location());
        assert(r@->Call_arguments == av);
    }
    r
}

pub open spec fn names_view(s: Seq<String>) -> Seq<Seq<char>> {
    s.map_values(|x: String| x@)
}

/// Appends the names that `assignments` bind.
fn push_use_binders(names: &mut Vec<String>, assignments: &Vec<UseAssignment>)
    ensures
        names_view(final(names)@) == names_view(old(names)@) + model::use_binders(assignments@),
{
    let ghost start = names@;
    let mut i: usize = 0;
    while i < assignments.len()
        invariant
            i <= assignments.len(),
            names_view(names@) == names_view(start) + model::use_binders(assignments@.subrange(0, i as int)),
        decreases assignments.len() - i,
    {
        let ghost before = names@;
        if let Pattern::Variable { name, .. } = &assignments[i].pattern {
            names.push(name.clone());
        }
        proof {
            let sub = assignments@.subrange(0, i + 1);
            assert(sub.drop_last() =~= assignments@.subrange(0, i as int));
            assert(sub.last() == assignments@[i as int]);
            assert(names_view(names@) =~= names_view(before) + model::pattern_binders(assignments@[i as int].pattern));
            assert(names_view(names@) =~= names_view(start) + model::use_binders(sub));
        }
        i += 1;
    }
    assert(assignments@.subrange(0, assignments@.len() as int) =~= assignments@);
}

/// The names bound by the parameters and body statements of a function literal.
fn collect_binders(arguments: &Vec<Arg>, body: &Vec<Statement>) -> (r: Vec<String>)
    ensures
        names_view(r@) == model::binders(arg_views(arguments@), statement_views(body@)),
{
    let ghost av = arg_views(arguments@);
    let ghost bv = statement_views(body@);
    let mut names: Vec<String> = Vec::new();
    let mut i: usize = 0;
    while i < arguments.len()
        invariant
            i <= arguments.len(),
            av == arg_views(arguments@),
            names_view(names@) == model::arg_binders(av.subrange(0, i as int)),
        decreases arguments.len() - i,
    {
        let ghost before = names@;
        match &arguments[i].names {
            ArgNames::Named { name, .. } => names.push(name.clone()),
            ArgNames::NamedLabelled { name, .. } => names.push(name.clone()),
            _ => {},
        }
        proof {
            let sub = av.subrange(0, i + 1);
            assert(sub.drop_last() =~= av.subrange(0, i as int));
            assert(sub.last() == arguments@[i as int]@);
            assert(names_view(names@) =~= names_view(before) + model::arg_binder(arguments@[i as int]@));
        }
        i += 1;
    }
    assert(av.subrange(0, av.len() as int) =~= av);
    let ghost from_args = names_view(names@);
    let mut j: usize = 0;
    while j < body.len()
        invariant
            j <= body.len(),
            bv == statement_views(body@),
            from_args == model::arg_binders(av),
            names_view(names@) == from_args + model::body_binders(bv.subrange(0, j as int)),
        decreases body.len() - j,
    {
        let ghost before = names@;
        assert(bv[j as int] == body@[j as int]@);
        match &body[j] {
            Statement::Assignment(assignment) => {
                if let Pattern::Variable { name, .. } = &assignment.pattern {
                    names.push(name.clone());
                }
                assert(names_view(names@) =~= names_view(before) + model::statement_binders(bv[j as int]));
            },
            Statement::Use(use_statement) => {
                push_use_binders(&mut names, &use_statement.assignments);
            },
            Statement::Expression(_) => {
                assert(names_view(names@) =~= names_view(before) + model::statement_binders(bv[j as int]));
            },
        }
        proof {
            let sub = bv.subrange(0, j + 1);
            assert(sub.drop_last() =~= bv.subrange(0, j as int));
            assert(names_view(names@) =~= from_args + model::body_binders(sub));
        }
        j += 1;
    }
    assert(bv.subrange(0, bv.len() as int) =~= bv);
    names
}

/// A name for the continuation parameter that no parameter or body statement
/// of the literal binds: `go` where that is free.
fn fresh_param_name(arguments: &Vec<Arg>, body: &Vec<Statement>) -> (r: String)
    ensures
        r@ == model::fresh_name(arg_views(arguments@), statement_views(body@)),
{
    let names = collect_binders(arguments, body);
    let ghost sv = names_view(names@);
    let go = "go".to_owned();
    proof {
        reveal_strlit("go");
        assert(go@ =~= model::go_name());
    }
    let mut go_bound = false;
    let mut widest: usize = 0;
    let mut i: usize = 0;
    while i < names.len()
        invariant
            i <= names.len(),
            sv == names_view(names@),
            go@ == model::go_name(),
            go_bound == sv.subrange(0, i as int).contains(model::go_name()),
            widest as nat == model::longest(sv.subrange(0, i as int)),
        decreases names.len() - i,
    {
        let ghost sub = sv.subrange(0, i + 1);
        let ghost prev = sv.subrange(0, i as int);
        proof {
            assert(sub.drop_last() =~= prev);
            assert(sub.last() == names@[i as int]@);
            if sub.contains(model::go_name()) {
                let w = choose|w: int| 0 <= w < sub.len() && sub[w] == model::go_name();
                if w < i {
                    assert(prev[w] == model::go_name());
                }
            }
            if prev.contains(model::go_name()) {
                let w = choose|w: int| 0 <= w < prev.len() && prev[w] == model::go_name();
                assert(sub[w] == model::go_name());
            }
            if names@[i as int]@ == model::go_name() {
                assert(sub[i as int] == model::go_name());
            }
        }
        if names[i] == go {
            go_bound = true;
        }
        let width = names[i].as_str().unicode_len();
        if width > widest {
            widest = width;
        }
        i += 1;
    }
    assert(sv.subrange(0, sv.len() as int) =~= sv);
    if go_bound {
        let mut name = go;
        let mut n: usize = 0;
        assert(name@ =~= model::go_name() + Seq::new(0, |k: int| '_'));
        while n < widest
            invariant
                n <= widest,
                name@ == model::go_name() + Seq::new(n as nat, |k: int| '_'),
            decreases widest - n,
        {
            let ghost before = name@;
            name.append("_");
            proof {
                reveal_strlit("_");
                assert("_"@ =~= seq!['_']);
            }
            n += 1;
            assert(name@ =~= model::go_name() + Seq::new(n as nat, |k: int| '_'));
        }
        name
    } else {
        go
    }
}

/// The conversion that `cps_fn` performs, before the outer continuation.
pub fn convert_fn_literal(expr: Expr) -> (r: Expr)
    requires
        expr@ is Fn,
        model::wf(expr@),
    ensures
        r@ == model::convert_fn(expr@),
    decreases expr, 1int,
{
    match expr {
        Expr::Fn { location, kind, end_of_head_byte_index, arguments, body, return_annotation } => {
            let ghost body0 = body;
            assert(statement_views(body@).len() == body@.len());
            let param = fresh_param_name(&arguments, &body);
            let ghost pv = param@;
            let go_arg = Arg { names: ArgNames::Named { name: param.clone(), location }, location, annotation: None };
            let body_k = |v: Expr| -> (r: Expr)
                ensures
                    r@ == call_go(v@, param@),
                { call_go_with(v, param.clone()) };
            proof {
                assert forall|e: Expr| #[trigger] body_k.requires((e,)) by {}
                assert forall|e: Expr, r: Expr| #[trigger] body_k.ensures((e,), r) implies r@ == go_cont(pv)(e@) by {}
            }
            let (init, last) = split_off_last(body);
            proof {
                let n = body0@.len() - 1;
                assert(last == body0@[n]);
                assert(model::wf_statements(statement_views(body0@)));
                assert(model::wf_statement(statement_views(body0@)[n]));
                axiom_vec_index_decreases(body0, n);
                assert(statement_views(body0@)[n] == last@);
            }
            let body_cps = cps_statement(last, &body_k, Ghost(go_cont(pv)));
            let new_arguments = from_vec_push(arguments, go_arg);
            let new_body = from_vec_push(init, body_cps);
            let r = Expr::Fn {
                location,
                kind,
                end_of_head_byte_index,
                arguments: new_arguments,
                body: new_body,
                return_annotation,
            };
            proof {
                let bv = statement_views(body0@);
                assert(init@ =~= body0@.drop_last());
                assert(statement_views(new_body@) =~= bv.drop_last().push(model::cps_statement(bv.last(), go_cont(pv))));
                assert(arg_views(new_arguments@) =~= arg_views(arguments@).push(model::go_arg(location, pv)));
            }
            r
        },
        _ => unreached(),
    }
}

/// The rewrite under a continuation `k` whose behaviour on views is given as
/// the spec function `f`: the result is exactly `cps(expr@, f)`. A verified
/// caller that knows its closure's contract states it here.
pub fn cps_expr<K: Fn(Expr) -> Expr>(expr: Expr, k: &K, f: Ghost<spec_fn(ExprView) -> ExprView>) -> (r: Expr)
    requires
        realizes(k, f@),
        model::wf(expr@),
    ensures
        r@ == model::cps(expr@, f@),
    decreases expr, 2int,
{
    match &expr {
        Expr::Int { .. } | Expr::Float { .. } | Expr::String { .. } | Expr::Var { .. } | Expr::Placeholder { .. } =>
            cps_atom(expr, k, f),
        Expr::Block { .. } => cps_block(expr, k, f),
        Expr::List { .. } => cps_list(expr, k, f),
        Expr::Tuple { .. } => cps_tuple(expr, k, f),
        Expr::BitArray { .. } => cps_bit_array(expr, k, f),
        Expr::Case { .. } => cps_case(expr, k, f),
        Expr::Fn { .. } => {
            let fn_expr = convert_fn_literal(expr);
            deliver(k, fn_expr, f)
        },
        Expr::Call { .. } => cps_call(expr, k, f),
        Expr::BinOp { .. } => cps_bin_op(expr, k, f),
        Expr::PipeLine { .. } => cps_pipe_line(expr, k, f),
        Expr::FieldAccess { .. } => cps_field_access(expr, k, f),
        Expr::TupleIndex { .. } => cps_tuple_index(expr, k, f),
        Expr::RecordUpdate { .. } => cps_record_update(expr, k, f),
        Expr::NegateBool { .. } => cps_negate_bool(expr, k, f),
        Expr::NegateInt { .. } => cps_negate_int(expr, k, f),
        Expr::Todo { .. } => cps_todo(expr, k, f),
        Expr::Panic { .. } => cps_panic(expr, k, f),
        Expr::Echo { .. } => cps_echo(expr, k, f),
    }
}

fn cps_atom<K: Fn(Expr) -> Expr>(expr: Expr, k: &K, f: Ghost<spec_fn(ExprView) -> ExprView>) -> (r: Expr)
    requires
        realizes(k, f@),
        expr@.is_atomic(),
    ensures
        r@ == model::cps(expr@, f@),
{
    deliver(k, expr, f)
}

fn cps_boxed<K: Fn(Expr) -> Expr>(
    value: Option<Box<Expr>>,
    k: &K,
    f: Ghost<spec_fn(ExprView) -> ExprView>,
) -> (r: Option<Box<Expr>>)
    requires
        realizes(k, f@),
        model::wf_boxed(model::boxed_view(value)),
    ensures
        model::boxed_view(r) == model::cps_boxed(model::boxed_view(value), f@),
    decreases value, 0int,
{
    match value {
        Some(value) => Some(Box::new(cps_expr(*value, k, f))),
        None => None,
    }
}

fn cps_statement<K: Fn(Expr) -> Expr>(
    statement: Statement,
    k: &K,
    f: Ghost<spec_fn(ExprView) -> ExprView>,
) -> (r: Statement)
    requires
        realizes(k, f@),
        model::wf_statement(statement@),
    ensures
        r@ == model::cps_statement(statement@, f@),
    decreases statement, 0int,
{
    match statement {
        Statement::Expression(expr) => Statement::Expression(cps_expr(expr, k, f)),
        Statement::Assignment(assignment) => {
            let Assignment { location, value, pattern, kind, annotation } = assignment;
            Statement::Assignment(
                Assignment { location, value: Box::new(cps_expr(*value, k, f)), pattern, kind, annotation },
            )
        },
        Statement::Use(use_statement) => {
            let Use { location, right_hand_side_location, assignments_location, call, assignments } = use_statement;
            Statement::Use(
                Use {
                    location,
                    right_hand_side_location,
                    assignments_location,
                    call: Box::new(cps_expr(*call, k, f)),
                    assignments,
                },
            )
        },
    }
}

fn cps_call_arg<K: Fn(Expr) -> Expr>(arg: CallArg, k: &K, f: Ghost<spec_fn(ExprView) -> ExprView>) -> (r: CallArg)
    requires
        realizes(k, f@),
        model::wf(arg@.value),
    ensures
        r@ == model::cps_call_arg(arg@, f@),
    decreases arg, 0int,
{
    let CallArg { label, location, value, implicit } = arg;
    CallArg { label, location, value: cps_expr(value, k, f), implicit }
}

fn cps_clause<K: Fn(Expr) -> Expr>(clause: Clause, k: &K, f: Ghost<spec_fn(ExprView) -> ExprView>) -> (r: Clause)
    requires
        realizes(k, f@),
        model::wf(clause@.branch),
    ensures
        r@ == model::cps_clause(clause@, f@),
    decreases clause, 0int,
{
    let Clause { location, patterns, guard, branch } = clause;
    Clause { location, patterns, guard, branch: cps_expr(branch, k, f) }
}

fn cps_bit_array_option<K: Fn(Expr) -> Expr>(
    option: BitArrayOption,
    k: &K,
    f: Ghost<spec_fn(ExprView) -> ExprView>,
) -> (r: BitArrayOption)
    requires
        realizes(k, f@),
        model::wf_option(option@),
    ensures
        r@ == model::cps_option(option@, f@),
    decreases option, 0int,
{
    match option {
        BitArrayOption::Size { location, value, short_form } =>
            BitArrayOption::Size { location, short_form, value: Box::new(cps_expr(*value, k, f)) },
        other => other,
    }
}

fn cps_segment<K: Fn(Expr) -> Expr>(
    segment: BitArraySegment,
    k: &K,
    f: Ghost<spec_fn(ExprView) -> ExprView>,
) -> (r: BitArraySegment)
    requires
        realizes(k, f@),
        model::wf_segment(segment@),
    ensures
        r@ == model::cps_segment(segment@, f@),
    decreases segment, 0int,
{
    let BitArraySegment { location, value, options } = segment;
    BitArraySegment {
        location,
        value: Box::new(cps_expr(*value, k, f)),
        options: cps_bit_array_options(options, k, f),
    }
}

fn cps_record_update_arg<K: Fn(Expr) -> Expr>(
    arg: RecordUpdateArg,
    k: &K,
    f: Ghost<spec_fn(ExprView) -> ExprView>,
) -> (r: RecordUpdateArg)
    requires
        realizes(k, f@),
        model::wf(arg@.value),
    ensures
        r@ == model::cps_update_arg(arg@, f@),
    decreases arg, 0int,
{
    let RecordUpdateArg { label, location, value } = arg;
    RecordUpdateArg { label, location, value: cps_expr(value, k, f) }
}

fn cps_record_being_updated<K: Fn(Expr) -> Expr>(
    record: RecordBeingUpdated,
    k: &K,
    f: Ghost<spec_fn(ExprView) -> ExprView>,
) -> (r: RecordBeingUpdated)
    requires
        realizes(k, f@),
        model::wf(record.base@),
    ensures
        r.location == record.location,
        r.base@ == model::cps(record.base@, f@),
    decreases record, 0int,
{
    let RecordBeingUpdated { base, location } = record;
    RecordBeingUpdated { base: Box::new(cps_expr(*base, k, f)), location }
}

fn cps_exprs<K: Fn(Expr) -> Expr>(
    items: Vec<Expr>,
    k: &K,
    f: Ghost<spec_fn(ExprView) -> ExprView>,
) -> (r: Vec<Expr>)
    requires
        realizes(k, f@),
        model::wf_seq(expr_views(items@)),
    ensures
        expr_views(r@) == model::cps_seq(expr_views(items@), f@),
    decreases items, 0int,
{
    let ghost all = items;
    let mut rest = items;
    let mut out: Vec<Expr> = Vec::new();
    while rest.len() > 0
        invariant
            all == items,
            realizes(k, f@),
            model::wf_seq(expr_views(all@)),
            out@.len() + rest@.len() == all@.len(),
            rest@ == all@.subrange(out@.len() as int, all@.len() as int),
            forall|j: int| 0 <= j < out@.len() ==> #[trigger] out@[j]@ == model::cps(all@[j]@, f@),
        decreases rest@.len(),
    {
        let ghost i = out@.len() as int;
        let item = rest.remove(0);
        proof {
            axiom_vec_index_decreases(all, i);
            assert(item == all@[i]);
            assert(expr_views(all@)[i] == all@[i]@);
            assert(model::wf(expr_views(all@)[i]));
            assert(rest@ =~= all@.subrange(i + 1, all@.len() as int));
        }
        let done = cps_expr(item, k, f);
        out.push(done);
    }
    proof {
        assert forall|j: int| 0 <= j < all@.len() implies expr_views(out@)[j] == model::cps_seq(expr_views(all@), f@)[j] by {
            assert(expr_views(out@)[j] == out@[j]@);
            assert(expr_views(all@)[j] == all@[j]@);
        }
        assert(expr_views(out@) =~= model::cps_seq(expr_views(all@), f@));
    }
    out
}

fn cps_statements<K: Fn(Expr) -> Expr>(
    items: Vec<Statement>,
    k: &K,
    f: Ghost<spec_fn(ExprView) -> ExprView>,
) -> (r: Vec<Statement>)
    requires
        realizes(k, f@),
        model::wf_statements(statement_views(items@)),
    ensures
        statement_views(r@) == model::cps_statements(statement_views(items@), f@),
    decreases items, 0int,
{
    let ghost all = items;
    let mut rest = items;
    let mut out: Vec<Statement> = Vec::new();
    while rest.len() > 0
        invariant
            all == items,
            realizes(k, f@),
            model::wf_statements(statement_views(all@)),
            out@.len() + rest@.len() == all@.len(),
            rest@ == all@.subrange(out@.len() as int, all@.len() as int),
            forall|j: int| 0 <= j < out@.len() ==> #[trigger] out@[j]@ == model::cps_statement(all@[j]@, f@),
        decreases rest@.len(),
    {
        let ghost i = out@.len() as int;
        let item = rest.remove(0);
        proof {
            axiom_vec_index_decreases(all, i);
            assert(item == all@[i]);
            assert(statement_views(all@)[i] == all@[i]@);
            assert(model::wf_statement(statement_views(all@)[i]));
            assert(rest@ =~= all@.subrange(i + 1, all@.len() as int));
        }
        let done = cps_statement(item, k, f);
        out.push(done);
    }
    proof {
        assert forall|j: int| 0 <= j < all@.len() implies statement_views(out@)[j] == model::cps_statements(statement_views(all@), f@)[j] by {
            assert(statement_views(out@)[j] == out@[j]@);
            assert(statement_views(all@)[j] == all@[j]@);
        }
        assert(statement_views(out@) =~= model::cps_statements(statement_views(all@), f@));
    }
    out
}

fn cps_call_args<K: Fn(Expr) -> Expr>(
    items: Vec<CallArg>,
    k: &K,
    f: Ghost<spec_fn(ExprView) -> ExprView>,
) -> (r: Vec<CallArg>)
    requires
        realizes(k, f@),
        forall|i: int| 0 <= i < call_arg_views(items@).len() ==> model::wf(#[trigger] call_arg_views(items@)[i].value),
    ensures
        call_arg_views(r@) == model::cps_call_args(call_arg_views(items@), f@),
    decreases items, 0int,
{
    let ghost all = items;
    let mut rest = items;
    let mut out: Vec<CallArg> = Vec::new();
    while rest.len() > 0
        invariant
            all == items,
            realizes(k, f@),
            forall|i: int| 0 <= i < call_arg_views(all@).len() ==> model::wf(#[trigger] call_arg_views(all@)[i].value),
            out@.len() + rest@.len() == all@.len(),
            rest@ == all@.subrange(out@.len() as int, all@.len() as int),
            forall|j: int| 0 <= j < out@.len() ==> #[trigger] out@[j]@ == model::cps_call_arg(all@[j]@, f@),
        decreases rest@.len(),
    {
        let ghost i = out@.len() as int;
        let item = rest.remove(0);
        proof {
            axiom_vec_index_decreases(all, i);
            assert(item == all@[i]);
            assert(call_arg_views(all@)[i] == all@[i]@);
            assert(model::wf(call_arg_views(all@)[i].value));
            assert(rest@ =~= all@.subrange(i + 1, all@.len() as int));
        }
        let done = cps_call_arg(item, k, f);
        out.push(done);
    }
    proof {
        assert forall|j: int| 0 <= j < all@.len() implies call_arg_views(out@)[j] == model::cps_call_args(call_arg_views(all@), f@)[j] by {
            assert(call_arg_views(out@)[j] == out@[j]@);
            assert(call_arg_views(all@)[j] == all@[j]@);
        }
        assert(call_arg_views(out@) =~= model::cps_call_args(call_arg_views(all@), f@));
    }
    out
}

fn cps_clauses<K: Fn(Expr) -> Expr>(
    items: Vec<Clause>,
    k: &K,
    f: Ghost<spec_fn(ExprView) -> ExprView>,
) -> (r: Vec<Clause>)
    requires
        realizes(k, f@),
        forall|i: int| 0 <= i < clause_views(items@).len() ==> model::wf(#[trigger] clause_views(items@)[i].branch),
    ensures
        clause_views(r@) == model::cps_clauses(clause_views(items@), f@),
    decreases items, 0int,
{
    let ghost all = items;
    let mut rest = items;
    let mut out: Vec<Clause> = Vec::new();
    while rest.len() > 0
        invariant
            all == items,
            realizes(k, f@),
            forall|i: int| 0 <= i < clause_views(all@).len() ==> model::wf(#[trigger] clause_views(all@)[i].branch),
            out@.len() + rest@.len() == all@.len(),
            rest@ == all@.subrange(out@.len() as int, all@.len() as int),
            forall|j: int| 0 <= j < out@.len() ==> #[trigger] out@[j]@ == model::cps_clause(all@[j]@, f@),
        decreases rest@.len(),
    {
        let ghost i = out@.len() as int;
        let item = rest.remove(0);
        proof {
            axiom_vec_index_decreases(all, i);
            assert(item == all@[i]);
            assert(clause_views(all@)[i] == all@[i]@);
            assert(model::wf(clause_views(all@)[i].branch));
            assert(rest@ =~= all@.subrange(i + 1, all@.len() as int));
        }
        let done = cps_clause(item, k, f);
        out.push(done);
    }
    proof {
        assert forall|j: int| 0 <= j < all@.len() implies clause_views(out@)[j] == model::cps_clauses(clause_views(all@), f@)[j] by {
            assert(clause_views(out@)[j] == out@[j]@);
            assert(clause_views(all@)[j] == all@[j]@);
        }
        assert(clause_views(out@) =~= model::cps_clauses(clause_views(all@), f@));
    }
    out
}

fn cps_segments<K: Fn(Expr) -> Expr>(
    items: Vec<BitArraySegment>,
    k: &K,
    f: Ghost<spec_fn(ExprView) -> ExprView>,
) -> (r: Vec<BitArraySegment>)
    requires
        realizes(k, f@),
        forall|i: int| 0 <= i < segment_views(items@).len() ==> model::wf_segment(#[trigger] segment_views(items@)[i]),
    ensures
        segment_views(r@) == model::cps_segments(segment_views(items@), f@),
    decreases items, 0int,
{
    let ghost all = items;
    let mut rest = items;
    let mut out: Vec<BitArraySegment> = Vec::new();
    while rest.len() > 0
        invariant
            all == items,
            realizes(k, f@),
            forall|i: int| 0 <= i < segment_views(all@).len() ==> model::wf_segment(#[trigger] segment_views(all@)[i]),
            out@.len() + rest@.len() == all@.len(),
            rest@ == all@.subrange(out@.len() as int, all@.len() as int),
            forall|j: int| 0 <= j < out@.len() ==> #[trigger] out@[j]@ == model::cps_segment(all@[j]@, f@),
        decreases rest@.len(),
    {
        let ghost i = out@.len() as int;
        let item = rest.remove(0);
        proof {
            axiom_vec_index_decreases(all, i);
            assert(item == all@[i]);
            assert(segment_views(all@)[i] == all@[i]@);
            assert(model::wf_segment(segment_views(all@)[i]));
            assert(rest@ =~= all@.subrange(i + 1, all@.len() as int));
        }
        let done = cps_segment(item, k, f);
        out.push(done);
    }
    proof {
        assert forall|j: int| 0 <= j < all@.len() implies segment_views(out@)[j] == model::cps_segments(segment_views(all@), f@)[j] by {
            assert(segment_views(out@)[j] == out@[j]@);
            assert(segment_views(all@)[j] == all@[j]@);
        }
        assert(segment_views(out@) =~= model::cps_segments(segment_views(all@), f@));
    }
    out
}

fn cps_bit_array_options<K: Fn(Expr) -> Expr>(
    items: Vec<BitArrayOption>,
    k: &K,
    f: Ghost<spec_fn(ExprView) -> ExprView>,
) -> (r: Vec<BitArrayOption>)
    requires
        realizes(k, f@),
        forall|j: int| 0 <= j < option_views(items@).len() ==> model::wf_option(#[trigger] option_views(items@)[j]),
    ensures
        option_views(r@) == model::cps_options(option_views(items@), f@),
    decreases items, 0int,
{
    let ghost all = items;
    let mut rest = items;
    let mut out: Vec<BitArrayOption> = Vec::new();
    while rest.len() > 0
        invariant
            all == items,
            realizes(k, f@),
            forall|j: int| 0 <= j < option_views(all@).len() ==> model::wf_option(#[trigger] option_views(all@)[j]),
            out@.len() + rest@.len() == all@.len(),
            rest@ == all@.subrange(out@.len() as int, all@.len() as int),
            forall|j: int| 0 <= j < out@.len() ==> #[trigger] out@[j]@ == model::cps_option(all@[j]@, f@),
        decreases rest@.len(),
    {
        let ghost i = out@.len() as int;
        let item = rest.remove(0);
        proof {
            axiom_vec_index_decreases(all, i);
            assert(item == all@[i]);
            assert(option_views(all@)[i] == all@[i]@);
            assert(model::wf_option(option_views(all@)[i]));
            assert(rest@ =~= all@.subrange(i + 1, all@.len() as int));
        }
        let done = cps_bit_array_option(item, k, f);
        out.push(done);
    }
    proof {
        assert forall|j: int| 0 <= j < all@.len() implies option_views(out@)[j] == model::cps_options(option_views(all@), f@)[j] by {
            assert(option_views(out@)[j] == out@[j]@);
            assert(option_views(all@)[j] == all@[j]@);
        }
        assert(option_views(out@) =~= model::cps_options(option_views(all@), f@));
    }
    out
}

fn cps_record_update_args<K: Fn(Expr) -> Expr>(
    items: Vec<RecordUpdateArg>,
    k: &K,
    f: Ghost<spec_fn(ExprView) -> ExprView>,
) -> (r: Vec<RecordUpdateArg>)
    requires
        realizes(k, f@),
        forall|i: int| 0 <= i < update_arg_views(items@).len() ==> model::wf(#[trigger] update_arg_views(items@)[i].value),
    ensures
        update_arg_views(r@) == model::cps_update_args(update_arg_views(items@), f@),
    decreases items, 0int,
{
    let ghost all = items;
    let mut rest = items;
    let mut out: Vec<RecordUpdateArg> = Vec::new();
    while rest.len() > 0
        invariant
            all == items,
            realizes(k, f@),
            forall|i: int| 0 <= i < update_arg_views(all@).len() ==> model::wf(#[trigger] update_arg_views(all@)[i].value),
            out@.len() + rest@.len() == all@.len(),
            rest@ == all@.subrange(out@.len() as int, all@.len() as int),
            forall|j: int| 0 <= j < out@.len() ==> #[trigger] out@[j]@ == model::cps_update_arg(all@[j]@, f@),
        decreases rest@.len(),
    {
        let ghost i = out@.len() as int;
        let item = rest.remove(0);
        proof {
            axiom_vec_index_decreases(all, i);
            assert(item == all@[i]);
            assert(update_arg_views(all@)[i] == all@[i]@);
            assert(model::wf(update_arg_views(all@)[i].value));
            assert(rest@ =~= all@.subrange(i + 1, all@.len() as int));
        }
        let done = cps_record_update_arg(item, k, f);
        out.push(done);
    }
    proof {
        assert forall|j: int| 0 <= j < all@.len() implies update_arg_views(out@)[j] == model::cps_update_args(update_arg_views(all@), f@)[j] by {
            assert(update_arg_views(out@)[j] == out@[j]@);
            assert(update_arg_views(all@)[j] == all@[j]@);
        }
        assert(update_arg_views(out@) =~= model::cps_update_args(update_arg_views(all@), f@));
    }
    out
}

fn cps_block<K: Fn(Expr) -> Expr>(expr: Expr, k: &K, f: Ghost<spec_fn(ExprView) -> ExprView>) -> (r: Expr)
    requires
        realizes(k, f@),
        model::wf(expr@),
        expr@ is Block,
    ensures
        r@ == model::cps(expr@, f@),
    decreases expr, 1int,
{
    match expr {
        Expr::Block { location, statements } => {
            let block = Expr::Block { location, statements: cps_statements(statements, k, f) };
            deliver(k, block, f)
        },
        _ => unreached(),
    }
}

fn cps_list<K: Fn(Expr) -> Expr>(expr: Expr, k: &K, f: Ghost<spec_fn(ExprView) -> ExprView>) -> (r: Expr)
    requires
        realizes(k, f@),
        model::wf(expr@),
        expr@ is List,
    ensures
        r@ == model::cps(expr@, f@),
    decreases expr, 1int,
{
    match expr {
        Expr::List { location, elements, tail } => {
            let list = Expr::List { location, elements: cps_exprs(elements, k, f), tail: cps_boxed(tail, k, f) };
            deliver(k, list, f)
        },
        _ => unreached(),
    }
}

fn cps_tuple<K: Fn(Expr) -> Expr>(expr: Expr, k: &K, f: Ghost<spec_fn(ExprView) -> ExprView>) -> (r: Expr)
    requires
        realizes(k, f@),
        model::wf(expr@),
        expr@ is Tuple,
    ensures
        r@ == model::cps(expr@, f@),
    decreases expr, 1int,
{
    match expr {
        Expr::Tuple { location, elems } => {
            let tuple = Expr::Tuple { location, elems: cps_exprs(elems, k, f) };
            deliver(k, tuple, f)
        },
        _ => unreached(),
    }
}

fn cps_bit_array<K: Fn(Expr) -> Expr>(expr: Expr, k: &K, f: Ghost<spec_fn(ExprView) -> ExprView>) -> (r: Expr)
    requires
        realizes(k, f@),
        model::wf(expr@),
        expr@ is BitArray,
    ensures
        r@ == model::cps(expr@, f@),
    decreases expr, 1int,
{
    match expr {
        Expr::BitArray { location, segments } => {
            let bit_array = Expr::BitArray { location, segments: cps_segments(segments, k, f) };
            deliver(k, bit_array, f)
        },
        _ => unreached(),
    }
}

fn cps_case<K: Fn(Expr) -> Expr>(expr: Expr, k: &K, f: Ghost<spec_fn(ExprView) -> ExprView>) -> (r: Expr)
    requires
        realizes(k, f@),
        model::wf(expr@),
        expr@ is Case,
    ensures
        r@ == model::cps(expr@, f@),
    decreases expr, 1int,
{
    match expr {
        Expr::Case { location, subjects, clauses } => {
            let subjects = cps_exprs(subjects, k, f);
            let ghost clauses0 = clauses;
            let clauses = match clauses {
                Some(clauses) => {
                    assert(model::clauses_view(Some(clauses)) == Some(clause_views(clauses@)));
                    Some(cps_clauses(clauses, k, f))
                },
                None => None,
            };
            assert(model::clauses_view(clauses) == match model::clauses_view(clauses0) {
                Some(cs) => Some(model::cps_clauses(cs, f@)),
                None => None,
            });
            let case = Expr::Case { location, subjects, clauses };
            deliver(k, case, f)
        },
        _ => unreached(),
    }
}

fn cps_call<K: Fn(Expr) -> Expr>(expr: Expr, k: &K, f: Ghost<spec_fn(ExprView) -> ExprView>) -> (r: Expr)
    requires
        realizes(k, f@),
        model::wf(expr@),
        expr@ is Call,
    ensures
        r@ == model::cps(expr@, f@),
    decreases expr, 1int,
{
    match expr {
        Expr::Call { location, fun, arguments } => {
            let call = Expr::Call {
                location,
                fun: Box::new(cps_expr(*fun, k, f)),
                arguments: cps_call_args(arguments, k, f),
            };
            deliver(k, call, f)
        },
        _ => unreached(),
    }
}

fn cps_bin_op<K: Fn(Expr) -> Expr>(expr: Expr, k: &K, f: Ghost<spec_fn(ExprView) -> ExprView>) -> (r: Expr)
    requires
        realizes(k, f@),
        model::wf(expr@),
        expr@ is BinOp,
    ensures
        r@ == model::cps(expr@, f@),
    decreases expr, 1int,
{
    match expr {
        Expr::BinOp { location, name, left, right } => {
            let bin_op = Expr::BinOp {
                location,
                name,
                left: Box::new(cps_expr(*left, k, f)),
                right: Box::new(cps_expr(*right, k, f)),
            };
            deliver(k, bin_op, f)
        },
        _ => unreached(),
    }
}

fn cps_pipe_line<K: Fn(Expr) -> Expr>(expr: Expr, k: &K, f: Ghost<spec_fn(ExprView) -> ExprView>) -> (r: Expr)
    requires
        realizes(k, f@),
        model::wf(expr@),
        expr@ is PipeLine,
    ensures
        r@ == model::cps(expr@, f@),
    decreases expr, 1int,
{
    match expr {
        Expr::PipeLine { location, expressions } => {
            let pipe_line = Expr::PipeLine { location, expressions: cps_exprs(expressions, k, f) };
            deliver(k, pipe_line, f)
        },
        _ => unreached(),
    }
}

fn cps_field_access<K: Fn(Expr) -> Expr>(expr: Expr, k: &K, f: Ghost<spec_fn(ExprView) -> ExprView>) -> (r: Expr)
    requires
        realizes(k, f@),
        model::wf(expr@),
        expr@ is FieldAccess,
    ensures
        r@ == model::cps(expr@, f@),
    decreases expr, 1int,
{
    match expr {
        Expr::FieldAccess { location, label_location, label, container } => {
            let field_access = Expr::FieldAccess {
                location,
                label,
                label_location,
                container: Box::new(cps_expr(*container, k, f)),
            };
            deliver(k, field_access, f)
        },
        _ => unreached(),
    }
}

fn cps_tuple_index<K: Fn(Expr) -> Expr>(expr: Expr, k: &K, f: Ghost<spec_fn(ExprView) -> ExprView>) -> (r: Expr)
    requires
        realizes(k, f@),
        model::wf(expr@),
        expr@ is TupleIndex,
    ensures
        r@ == model::cps(expr@, f@),
    decreases expr, 1int,
{
    match expr {
        Expr::TupleIndex { location, index, tuple } => {
            let tuple_index = Expr::TupleIndex { location, index, tuple: Box::new(cps_expr(*tuple, k, f)) };
            deliver(k, tuple_index, f)
        },
        _ => unreached(),
    }
}

fn cps_record_update<K: Fn(Expr) -> Expr>(expr: Expr, k: &K, f: Ghost<spec_fn(ExprView) -> ExprView>) -> (r: Expr)
    requires
        realizes(k, f@),
        model::wf(expr@),
        expr@ is RecordUpdate,
    ensures
        r@ == model::cps(expr@, f@),
    decreases expr, 1int,
{
    match expr {
        Expr::RecordUpdate { location, constructor, record, arguments } => {
            let record_update = Expr::RecordUpdate {
                location,
                constructor: Box::new(cps_expr(*constructor, k, f)),
                record: cps_record_being_updated(record, k, f),
                arguments: cps_record_update_args(arguments, k, f),
            };
            deliver(k, record_update, f)
        },
        _ => unreached(),
    }
}

fn cps_negate_bool<K: Fn(Expr) -> Expr>(expr: Expr, k: &K, f: Ghost<spec_fn(ExprView) -> ExprView>) -> (r: Expr)
    requires
        realizes(k, f@),
        model::wf(expr@),
        expr@ is NegateBool,
    ensures
        r@ == model::cps(expr@, f@),
    decreases expr, 1int,
{
    match expr {
        Expr::NegateBool { location, value } => {
            let negate_bool = Expr::NegateBool { location, value: Box::new(cps_expr(*value, k, f)) };
            deliver(k, negate_bool, f)
        },
        _ => unreached(),
    }
}

fn cps_negate_int<K: Fn(Expr) -> Expr>(expr: Expr, k: &K, f: Ghost<spec_fn(ExprView) -> ExprView>) -> (r: Expr)
    requires
        realizes(k, f@),
        model::wf(expr@),
        expr@ is NegateInt,
    ensures
        r@ == model::cps(expr@, f@),
    decreases expr, 1int,
{
    match expr {
        Expr::NegateInt { location, value } => {
            let negate_int = Expr::NegateInt { location, value: Box::new(cps_expr(*value, k, f)) };
            deliver(k, negate_int, f)
        },
        _ => unreached(),
    }
}

fn cps_todo<K: Fn(Expr) -> Expr>(expr: Expr, k: &K, f: Ghost<spec_fn(ExprView) -> ExprView>) -> (r: Expr)
    requires
        realizes(k, f@),
        model::wf(expr@),
        expr@ is Todo,
    ensures
        r@ == model::cps(expr@, f@),
    decreases expr, 1int,
{
    match expr {
        Expr::Todo { kind, location, message } => {
            let todo = Expr::Todo { kind, location, message: cps_boxed(message, k, f) };
            deliver(k, todo, f)
        },
        _ => unreached(),
    }
}

fn cps_panic<K: Fn(Expr) -> Expr>(expr: Expr, k: &K, f: Ghost<spec_fn(ExprView) -> ExprView>) -> (r: Expr)
    requires
        realizes(k, f@),
        model::wf(expr@),
        expr@ is Panic,
    ensures
        r@ == model::cps(expr@, f@),
    decreases expr, 1int,
{
    match expr {
        Expr::Panic { location, message } => {
            let panic = Expr::Panic { location, message: cps_boxed(message, k, f) };
            deliver(k, panic, f)
        },
        _ => unreached(),
    }
}

fn cps_echo<K: Fn(Expr) -> Expr>(expr: Expr, k: &K, f: Ghost<spec_fn(ExprView) -> ExprView>) -> (r: Expr)
    requires
        realizes(k, f@),
        model::wf(expr@),
        expr@ is Echo,
    ensures
        r@ == model::cps(expr@, f@),
    decreases expr, 1int,
{
    match expr {
        Expr::Echo { location, expression } => {
            let echo = Expr::Echo { location, expression: cps_boxed(expression, k, f) };
            deliver(k, echo, f)
        },
        _ => unreached(),
    }
}

} // verus!
