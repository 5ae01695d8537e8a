//! Properties of the rewrite, stated over views and proved.
use crate::model::{
    self,
    binders, call_go, cps, cps_statement, convert_fn, fresh_name, go_arg, go_cont, go_name, rebuild, ArgView,
    BitArrayOptionView,
    ExprView, StatementView,
};
use vstd::prelude::*;

verus! {

/// An atomic expression is handed to the continuation as it is.
pub proof fn lemma_leaf_delivery(e: ExprView, k: spec_fn(ExprView) -> ExprView)
    requires
        e.is_atomic(),
    ensures
        cps(e, k) == k(e),
{
}

/// Two statements of the same kind with the same fields, their expressions aside.
pub open spec fn same_statement_shape(a: StatementView, b: StatementView) -> bool {
    match a {
        StatementView::Expression(_) => b is Expression,
        StatementView::Assignment { location, pattern, kind, annotation, .. } => b is Assignment
            && b->Assignment_location == location && b->Assignment_pattern == pattern
            && b->Assignment_kind == kind && b->Assignment_annotation == annotation,
        StatementView::Use { location, right_hand_side_location, assignments_location, assignments, .. } => b is Use
            && b->Use_location == location && b->Use_right_hand_side_location == right_hand_side_location
            && b->Use_assignments_location == assignments_location && b->Use_assignments == assignments,
    }
}

/// Two byte-sequence options of the same kind, their size expressions aside.
pub open spec fn same_option_shape(a: BitArrayOptionView, b: BitArrayOptionView) -> bool {
    match a {
        BitArrayOptionView::Size { location, short_form, .. } =>
            b is Size && b->Size_location == location && b->Size_short_form == short_form,
        _ => b == a,
    }
}

/// `a` and `b` have the same form, the same fields other than child
/// expressions, and the same number of child expressions in each slot.
pub open spec fn same_shape(a: ExprView, b: ExprView) -> bool {
    match a {
        ExprView::Block { location, statements } => b is Block && b->Block_location == location
            && b->Block_statements.len() == statements.len()
            && forall|i: int| 0 <= i < statements.len() ==> same_statement_shape(#[trigger] statements[i], b->Block_statements[i]),
        ExprView::List { location, elements, tail } => b is List && b->List_location == location
            && b->List_elements.len() == elements.len() && (b->List_tail is Some <==> tail is Some),
        ExprView::Tuple { location, elems } => b is Tuple && b->Tuple_location == location
            && b->Tuple_elems.len() == elems.len(),
        ExprView::BitArray { location, segments } => b is BitArray && b->BitArray_location == location
            && b->BitArray_segments.len() == segments.len()
            && forall|i: int| 0 <= i < segments.len() ==> {
                let (s, t) = (#[trigger] segments[i], b->BitArray_segments[i]);
                &&& s.location == t.location
                &&& s.options.len() == t.options.len()
                &&& forall|j: int| 0 <= j < s.options.len() ==> same_option_shape(#[trigger] s.options[j], t.options[j])
            },
        ExprView::Case { location, subjects, clauses } => b is Case && b->Case_location == location
            && b->Case_subjects.len() == subjects.len() && match (clauses, b->Case_clauses) {
                (Some(cs), Some(ds)) => cs.len() == ds.len() && forall|i: int| 0 <= i < cs.len() ==>
                    (#[trigger] cs[i]).location == ds[i].location && cs[i].patterns == ds[i].patterns && cs[i].guard == ds[i].guard,
                (None, None) => true,
                _ => false,
            },
        ExprView::Fn { .. } => b is Fn,
        ExprView::Call { location, arguments, .. } => b is Call && b->Call_location == location
            && b->Call_arguments.len() == arguments.len()
            && forall|i: int| 0 <= i < arguments.len() ==> (#[trigger] arguments[i]).label == b->Call_arguments[i].label
                && arguments[i].location == b->Call_arguments[i].location
                && arguments[i].implicit == b->Call_arguments[i].implicit,
        ExprView::BinOp { location, name, .. } => b is BinOp && b->BinOp_location == location && b->BinOp_name == name,
        ExprView::PipeLine { location, expressions } => b is PipeLine && b->PipeLine_location == location
            && b->PipeLine_expressions.len() == expressions.len(),
        ExprView::FieldAccess { location, label_location, label, .. } => b is FieldAccess
            && b->FieldAccess_location == location && b->FieldAccess_label_location == label_location
            && b->FieldAccess_label == label,
        ExprView::TupleIndex { location, index, .. } => b is TupleIndex && b->TupleIndex_location == location
            && b->TupleIndex_index == index,
        ExprView::RecordUpdate { location, base_location, arguments, .. } => b is RecordUpdate
            && b->RecordUpdate_location == location && b->RecordUpdate_base_location == base_location
            && b->RecordUpdate_arguments.len() == arguments.len()
            && forall|i: int| 0 <= i < arguments.len() ==> (#[trigger] arguments[i]).label == b->RecordUpdate_arguments[i].label
                && arguments[i].location == b->RecordUpdate_arguments[i].location,
        ExprView::NegateBool { location, .. } => b is NegateBool && b->NegateBool_location == location,
        ExprView::NegateInt { location, .. } => b is NegateInt && b->NegateInt_location == location,
        ExprView::Todo { kind, location, message } => b is Todo && b->Todo_kind == kind && b->Todo_location == location
            && (b->Todo_message is Some <==> message is Some),
        ExprView::Panic { location, message } => b is Panic && b->Panic_location == location
            && (b->Panic_message is Some <==> message is Some),
        ExprView::Echo { location, expression } => b is Echo && b->Echo_location == location
            && (b->Echo_expression is Some <==> expression is Some),
        _ => b == a,
    }
}

/// Every form but the function literal is rebuilt with its shape kept, and the
/// result of the rewrite is the continuation applied to that rebuilt node.
pub proof fn lemma_shape_preserved(e: ExprView, k: spec_fn(ExprView) -> ExprView)
    requires
        !(e is Fn),
    ensures
        same_shape(e, rebuild(e, k)),
        cps(e, k) == k(rebuild(e, k)),
{
    let r = rebuild(e, k);
    match e {
        ExprView::Block { statements, .. } => {
            assert forall|i: int| 0 <= i < statements.len() implies same_statement_shape(
                #[trigger] statements[i],
                r->Block_statements[i],
            ) by {
                assert(model::cps_statements(statements, k)[i] == cps_statement(statements[i], k));
            }
        },
        ExprView::List { elements, .. } => assert(model::cps_seq(elements, k).len() == elements.len()),
        ExprView::Tuple { elems, .. } => assert(model::cps_seq(elems, k).len() == elems.len()),
        ExprView::PipeLine { expressions, .. } => assert(model::cps_seq(expressions, k).len() == expressions.len()),
        ExprView::BitArray { segments, .. } => {
            assert forall|i: int| 0 <= i < segments.len() implies {
                let (s, t) = (#[trigger] segments[i], r->BitArray_segments[i]);
                &&& s.location == t.location
                &&& s.options.len() == t.options.len()
                &&& forall|j: int| 0 <= j < s.options.len() ==> same_option_shape(#[trigger] s.options[j], t.options[j])
            } by {
                let s = segments[i];
                assert(model::cps_segments(segments, k)[i] == model::cps_segment(s, k));
                assert forall|j: int| 0 <= j < s.options.len() implies same_option_shape(
                    #[trigger] s.options[j],
                    r->BitArray_segments[i].options[j],
                ) by {
                    assert(model::cps_options(s.options, k)[j] == model::cps_option(s.options[j], k));
                }
            }
        },
        ExprView::Case { subjects, clauses, .. } => {
            assert(model::cps_seq(subjects, k).len() == subjects.len());
            if let Some(cs) = clauses {
                assert forall|i: int| 0 <= i < cs.len() implies (#[trigger] cs[i]).location
                    == r->Case_clauses->Some_0[i].location && cs[i].patterns == r->Case_clauses->Some_0[i].patterns
                    && cs[i].guard == r->Case_clauses->Some_0[i].guard by {
                    assert(model::cps_clauses(cs, k)[i] == model::cps_clause(cs[i], k));
                }
            }
        },
        ExprView::Call { arguments, .. } => {
            assert forall|i: int| 0 <= i < arguments.len() implies (#[trigger] arguments[i]).label
                == r->Call_arguments[i].label && arguments[i].location == r->Call_arguments[i].location
                && arguments[i].implicit == r->Call_arguments[i].implicit by {
                assert(model::cps_call_args(arguments, k)[i] == model::cps_call_arg(arguments[i], k));
            }
        },
        ExprView::RecordUpdate { arguments, .. } => {
            assert forall|i: int| 0 <= i < arguments.len() implies (#[trigger] arguments[i]).label
                == r->RecordUpdate_arguments[i].label && arguments[i].location == r->RecordUpdate_arguments[i].location by {
                assert(model::cps_update_args(arguments, k)[i] == model::cps_update_arg(arguments[i], k));
            }
        },
        _ => {},
    }
}

/// No name in `s` is longer than `longest(s)`.
pub proof fn lemma_longest(s: Seq<Seq<char>>)
    ensures
        forall|i: int| 0 <= i < s.len() ==> (#[trigger] s[i]).len() <= model::longest(s),
    decreases s.len(),
{
    if s.len() > 0 {
        lemma_longest(s.drop_last());
        assert forall|i: int| 0 <= i < s.len() implies (#[trigger] s[i]).len() <= model::longest(s) by {
            if i < s.len() - 1 {
                assert(s[i] == s.drop_last()[i]);
            }
        }
    }
}

/// The continuation parameter's name is bound by no parameter and no body
/// statement of the literal, and it is `go` where `go` is not bound.
pub proof fn lemma_fresh_name(arguments: Seq<ArgView>, body: Seq<StatementView>)
    ensures
        !binders(arguments, body).contains(fresh_name(arguments, body)),
        !binders(arguments, body).contains(go_name()) ==> fresh_name(arguments, body) == go_name(),
{
    let bound = binders(arguments, body);
    let name = fresh_name(arguments, body);
    lemma_longest(bound);
    if bound.contains(name) {
        let w = choose|w: int| 0 <= w < bound.len() && bound[w] == name;
        assert(bound[w].len() <= model::longest(bound));
    }
}

/// Conversion of a function literal with `n` arguments gives one with
/// `n + 1`: the original ones, in order, then the continuation parameter,
/// whose name is fresh for the literal.
pub proof fn lemma_fn_parameter_count(e: ExprView)
    requires
        e is Fn,
        e->Fn_body.len() > 0,
    ensures
        convert_fn(e) is Fn,
        convert_fn(e)->Fn_arguments.len() == e->Fn_arguments.len() + 1,
        convert_fn(e)->Fn_arguments.drop_last() == e->Fn_arguments,
        convert_fn(e)->Fn_arguments.last() == go_arg(e->Fn_location, fresh_name(e->Fn_arguments, e->Fn_body)),
        !binders(e->Fn_arguments, e->Fn_body).contains(fresh_name(e->Fn_arguments, e->Fn_body)),
        !binders(e->Fn_arguments, e->Fn_body).contains(go_name())
            ==> fresh_name(e->Fn_arguments, e->Fn_body) == go_name(),
{
    assert(convert_fn(e)->Fn_arguments.drop_last() =~= e->Fn_arguments);
    lemma_fresh_name(e->Fn_arguments, e->Fn_body);
}

/// Conversion keeps every statement of the body but the last one, and rewrites
/// the last one so that its values go to the continuation parameter.
pub proof fn lemma_tail_only(e: ExprView)
    requires
        e is Fn,
        e->Fn_body.len() > 0,
    ensures
        convert_fn(e)->Fn_body.len() == e->Fn_body.len(),
        forall|i: int| 0 <= i < e->Fn_body.len() - 1 ==> #[trigger] convert_fn(e)->Fn_body[i] == e->Fn_body[i],
        convert_fn(e)->Fn_body.last()
            == cps_statement(e->Fn_body.last(), go_cont(fresh_name(e->Fn_arguments, e->Fn_body))),
{
}

/// Converting twice appends two continuation parameters, the second fresh
/// for the once-converted literal and so distinct from the first, keeps the
/// leading statements, and rewrites the final statement under the first
/// parameter's continuation and then under the second's.
pub proof fn lemma_convert_twice(e: ExprView)
    requires
        e is Fn,
        e->Fn_body.len() > 0,
    ensures
        ({
            let once = convert_fn(e);
            let first = fresh_name(e->Fn_arguments, e->Fn_body);
            let second = fresh_name(once->Fn_arguments, once->Fn_body);
            &&& first != second
            &&& convert_fn(once)->Fn_arguments
                == e->Fn_arguments.push(go_arg(e->Fn_location, first)).push(go_arg(e->Fn_location, second))
            &&& convert_fn(once)->Fn_body.drop_last() == e->Fn_body.drop_last()
            &&& convert_fn(once)->Fn_body.last()
                == cps_statement(cps_statement(e->Fn_body.last(), go_cont(first)), go_cont(second))
        }),
{
    let once = convert_fn(e);
    let first = fresh_name(e->Fn_arguments, e->Fn_body);
    assert(once->Fn_body.drop_last() =~= e->Fn_body.drop_last());
    assert(convert_fn(once)->Fn_body.drop_last() =~= once->Fn_body.drop_last());
    lemma_fresh_name(once->Fn_arguments, once->Fn_body);
    let args = once->Fn_arguments;
    assert(args.drop_last() =~= e->Fn_arguments);
    assert(model::arg_binders(args) == model::arg_binders(args.drop_last()) + model::arg_binder(args.last()));
    let bound = binders(args, once->Fn_body);
    assert(bound[model::arg_binders(args).len() - 1] == first);
}

/// When the final statement is a plain expression, the outermost node of the
/// twice-converted final statement is a call to the second parameter.
pub proof fn lemma_convert_twice_outer_call(e: ExprView)
    requires
        e is Fn,
        e->Fn_body.len() > 0,
        e->Fn_body.last() is Expression,
    ensures
        ({
            let once = convert_fn(e);
            let first = fresh_name(e->Fn_arguments, e->Fn_body);
            let second = fresh_name(once->Fn_arguments, once->Fn_body);
            convert_fn(once)->Fn_body.last() == StatementView::Expression(
                call_go(rebuild(call_go(rebuild(e->Fn_body.last()->Expression_0, go_cont(first)), first), go_cont(second)), second),
            )
        }),
{
    lemma_convert_twice(e);
}

/// The continuation that returns its input.
pub open spec fn identity() -> spec_fn(ExprView) -> ExprView {
    |x: ExprView| x
}

/// No function literal occurs where the rewrite reaches.
pub open spec fn fn_free(e: ExprView) -> bool
    decreases e, 1int,
{
    match e {
        ExprView::Block { statements, .. } =>
            forall|i: int| 0 <= i < statements.len() ==> fn_free_statement(#[trigger] statements[i]),
        ExprView::List { elements, tail, .. } =>
            (forall|i: int| 0 <= i < elements.len() ==> fn_free(#[trigger] elements[i])) && match tail {
                Some(t) => fn_free(*t),
                None => true,
            },
        ExprView::Tuple { elems, .. } => forall|i: int| 0 <= i < elems.len() ==> fn_free(#[trigger] elems[i]),
        ExprView::PipeLine { expressions, .. } =>
            forall|i: int| 0 <= i < expressions.len() ==> fn_free(#[trigger] expressions[i]),
        ExprView::BitArray { segments, .. } => forall|i: int| 0 <= i < segments.len() ==> {
            &&& fn_free((#[trigger] segments[i]).value)
            &&& forall|j: int| 0 <= j < segments[i].options.len() ==> match #[trigger] segments[i].options[j] {
                BitArrayOptionView::Size { value, .. } => fn_free(*value),
                _ => true,
            }
        },
        ExprView::Case { subjects, clauses, .. } =>
            (forall|i: int| 0 <= i < subjects.len() ==> fn_free(#[trigger] subjects[i])) && match clauses {
                Some(cs) => forall|i: int| 0 <= i < cs.len() ==> fn_free((#[trigger] cs[i]).branch),
                None => true,
            },
        ExprView::Fn { .. } => false,
        ExprView::Call { fun, arguments, .. } =>
            fn_free(*fun) && forall|i: int| 0 <= i < arguments.len() ==> fn_free((#[trigger] arguments[i]).value),
        ExprView::BinOp { left, right, .. } => fn_free(*left) && fn_free(*right),
        ExprView::FieldAccess { container, .. } => fn_free(*container),
        ExprView::TupleIndex { tuple, .. } => fn_free(*tuple),
        ExprView::RecordUpdate { constructor, base, arguments, .. } => fn_free(*constructor) && fn_free(*base)
            && forall|i: int| 0 <= i < arguments.len() ==> fn_free((#[trigger] arguments[i]).value),
        ExprView::NegateBool { value, .. } => fn_free(*value),
        ExprView::NegateInt { value, .. } => fn_free(*value),
        ExprView::Todo { message, .. } => fn_free_boxed(message),
        ExprView::Panic { message, .. } => fn_free_boxed(message),
        ExprView::Echo { expression, .. } => fn_free_boxed(expression),
        _ => true,
    }
}

pub open spec fn fn_free_boxed(o: Option<Box<ExprView>>) -> bool
    decreases o, 0int,
{
    match o {
        Some(b) => fn_free(*b),
        None => true,
    }
}

pub open spec fn fn_free_statement(s: StatementView) -> bool
    decreases s, 0int,
{
    match s {
        StatementView::Expression(e) => fn_free(e),
        StatementView::Assignment { value, .. } => fn_free(value),
        StatementView::Use { call, .. } => fn_free(call),
    }
}

proof fn lemma_identity_seq(s: Seq<ExprView>)
    requires
        forall|i: int| 0 <= i < s.len() ==> fn_free(#[trigger] s[i]),
    ensures
        model::cps_seq(s, identity()) == s,
    decreases s, 0int,
{
    assert forall|i: int| 0 <= i < s.len() implies model::cps_seq(s, identity())[i] == s[i] by {
        lemma_identity(s[i]);
    }
    assert(model::cps_seq(s, identity()) =~= s);
}

proof fn lemma_identity_boxed(o: Option<Box<ExprView>>)
    requires
        fn_free_boxed(o),
    ensures
        model::cps_boxed(o, identity()) == o,
    decreases o, 0int,
{
    if let Some(b) = o {
        lemma_identity(*b);
    }
}

proof fn lemma_identity_statement(s: StatementView)
    requires
        fn_free_statement(s),
    ensures
        cps_statement(s, identity()) == s,
    decreases s, 0int,
{
    match s {
        StatementView::Expression(e) => lemma_identity(e),
        StatementView::Assignment { value, .. } => lemma_identity(value),
        StatementView::Use { call, .. } => lemma_identity(call),
    }
}

/// Under the continuation that returns its input, the rewrite changes nothing
/// in a tree where no function literal occurs: only function-literal
/// conversion changes structure.
pub proof fn lemma_identity(e: ExprView)
    requires
        fn_free(e),
    ensures
        cps(e, identity()) == e,
    decreases e, 1int,
{
    let id = identity();
    match e {
        ExprView::Block { statements, .. } => {
            assert forall|i: int| 0 <= i < statements.len() implies model::cps_statements(statements, id)[i]
                == statements[i] by {
                lemma_identity_statement(statements[i]);
            }
            assert(model::cps_statements(statements, id) =~= statements);
        },
        ExprView::List { elements, tail, .. } => {
            lemma_identity_seq(elements);
            lemma_identity_boxed(tail);
        },
        ExprView::Tuple { elems, .. } => lemma_identity_seq(elems),
        ExprView::PipeLine { expressions, .. } => lemma_identity_seq(expressions),
        ExprView::BitArray { segments, .. } => {
            assert forall|i: int| 0 <= i < segments.len() implies model::cps_segments(segments, id)[i]
                == segments[i] by {
                let seg = segments[i];
                lemma_identity(seg.value);
                assert forall|j: int| 0 <= j < seg.options.len() implies model::cps_options(seg.options, id)[j]
                    == seg.options[j] by {
                    if let BitArrayOptionView::Size { value, .. } = seg.options[j] {
                        lemma_identity(*value);
                    }
                }
                assert(model::cps_options(seg.options, id) =~= seg.options);
            }
            assert(model::cps_segments(segments, id) =~= segments);
        },
        ExprView::Case { subjects, clauses, .. } => {
            lemma_identity_seq(subjects);
            if let Some(cs) = clauses {
                assert forall|i: int| 0 <= i < cs.len() implies model::cps_clauses(cs, id)[i] == cs[i] by {
                    lemma_identity(cs[i].branch);
                }
                assert(model::cps_clauses(cs, id) =~= cs);
            }
        },
        ExprView::Call { fun, arguments, .. } => {
            lemma_identity(*fun);
            assert forall|i: int| 0 <= i < arguments.len() implies model::cps_call_args(arguments, id)[i]
                == arguments[i] by {
                lemma_identity(arguments[i].value);
            }
            assert(model::cps_call_args(arguments, id) =~= arguments);
        },
        ExprView::BinOp { left, right, .. } => {
            lemma_identity(*left);
            lemma_identity(*right);
        },
        ExprView::FieldAccess { container, .. } => lemma_identity(*container),
        ExprView::TupleIndex { tuple, .. } => lemma_identity(*tuple),
        ExprView::RecordUpdate { constructor, base, arguments, .. } => {
            lemma_identity(*constructor);
            lemma_identity(*base);
            assert forall|i: int| 0 <= i < arguments.len() implies model::cps_update_args(arguments, id)[i]
                == arguments[i] by {
                lemma_identity(arguments[i].value);
            }
            assert(model::cps_update_args(arguments, id) =~= arguments);
        },
        ExprView::NegateBool { value, .. } => lemma_identity(*value),
        ExprView::NegateInt { value, .. } => lemma_identity(*value),
        ExprView::Todo { message, .. } => lemma_identity_boxed(message),
        ExprView::Panic { message, .. } => lemma_identity_boxed(message),
        ExprView::Echo { expression, .. } => lemma_identity_boxed(expression),
        _ => {},
    }
}

/// Rewriting under a continuation-parameter call keeps every function body
/// non-empty.
pub proof fn lemma_cps_keeps_wf(e: ExprView, name: Seq<char>)
    requires
        model::wf(e),
    ensures
        model::wf(cps(e, go_cont(name))),
    decreases e, 2int,
{
    lemma_rebuild_keeps_wf(e, name);
    let r = rebuild(e, go_cont(name));
    let c = call_go(r, name);
    assert(cps(e, go_cont(name)) == c);
    assert(c->Call_arguments.len() == 1);
    assert(c->Call_arguments[0].value == r);
    assert(model::wf(*c->Call_fun));
    assert forall|i: int| 0 <= i < c->Call_arguments.len() implies model::wf(#[trigger] c->Call_arguments[i].value) by {
        assert(i == 0);
    }
}

proof fn lemma_seq_keeps_wf(s: Seq<ExprView>, name: Seq<char>)
    requires
        model::wf_seq(s),
    ensures
        model::wf_seq(model::cps_seq(s, go_cont(name))),
    decreases s, 0int,
{
    assert forall|i: int| 0 <= i < s.len() implies model::wf(#[trigger] model::cps_seq(s, go_cont(name))[i]) by {
        lemma_cps_keeps_wf(s[i], name);
    }
}

proof fn lemma_boxed_keeps_wf(o: Option<Box<ExprView>>, name: Seq<char>)
    requires
        model::wf_boxed(o),
    ensures
        model::wf_boxed(model::cps_boxed(o, go_cont(name))),
    decreases o, 0int,
{
    if let Some(b) = o {
        lemma_cps_keeps_wf(*b, name);
    }
}

proof fn lemma_statement_keeps_wf(s: StatementView, name: Seq<char>)
    requires
        model::wf_statement(s),
    ensures
        model::wf_statement(cps_statement(s, go_cont(name))),
    decreases s, 0int,
{
    match s {
        StatementView::Expression(e) => lemma_cps_keeps_wf(e, name),
        StatementView::Assignment { value, .. } => lemma_cps_keeps_wf(value, name),
        StatementView::Use { call, .. } => lemma_cps_keeps_wf(call, name),
    }
}

proof fn lemma_statements_keep_wf(s: Seq<StatementView>, name: Seq<char>)
    requires
        model::wf_statements(s),
    ensures
        model::wf_statements(model::cps_statements(s, go_cont(name))),
    decreases s, 0int,
{
    assert forall|i: int| 0 <= i < s.len() implies model::wf_statement(
        #[trigger] model::cps_statements(s, go_cont(name))[i],
    ) by {
        lemma_statement_keeps_wf(s[i], name);
    }
}

/// Function-literal conversion keeps every function body non-empty, so a
/// converted literal can be converted again.
pub proof fn lemma_convert_keeps_wf(e: ExprView)
    requires
        e is Fn,
        model::wf(e),
    ensures
        model::wf(convert_fn(e)),
    decreases e, 0int,
{
    let body = e->Fn_body;
    let name = fresh_name(e->Fn_arguments, body);
    let new_body = convert_fn(e)->Fn_body;
    assert(model::wf_statements(body));
    assert(model::wf_statement(body[body.len() - 1]));
    lemma_statement_keeps_wf(body.last(), name);
    assert forall|i: int| 0 <= i < new_body.len() implies model::wf_statement(#[trigger] new_body[i]) by {
        if i < body.len() - 1 {
            assert(new_body[i] == body[i]);
            assert(model::wf_statement(body[i]));
        } else {
            assert(new_body[i] == cps_statement(body.last(), go_cont(name)));
        }
    }
    assert(model::wf_statements(new_body));
}

proof fn lemma_rebuild_keeps_wf(e: ExprView, name: Seq<char>)
    requires
        model::wf(e),
    ensures
        model::wf(rebuild(e, go_cont(name))),
    decreases e, 1int,
{
    let g = go_cont(name);
    match e {
        ExprView::Block { statements, .. } => lemma_statements_keep_wf(statements, name),
        ExprView::List { elements, tail, .. } => {
            lemma_seq_keeps_wf(elements, name);
            lemma_boxed_keeps_wf(tail, name);
        },
        ExprView::Tuple { elems, .. } => lemma_seq_keeps_wf(elems, name),
        ExprView::PipeLine { expressions, .. } => lemma_seq_keeps_wf(expressions, name),
        ExprView::BitArray { segments, .. } => {
            let out = model::cps_segments(segments, g);
            assert forall|i: int| 0 <= i < out.len() implies model::wf_segment(#[trigger] out[i]) by {
                let seg = segments[i];
                assert(model::wf_segment(seg));
                assert(out[i] == model::cps_segment(seg, g));
                lemma_cps_keeps_wf(seg.value, name);
                let opts = model::cps_options(seg.options, g);
                assert forall|j: int| 0 <= j < opts.len() implies model::wf_option(#[trigger] opts[j]) by {
                    assert(model::wf_option(seg.options[j]));
                    assert(opts[j] == model::cps_option(seg.options[j], g));
                    if let BitArrayOptionView::Size { value, .. } = seg.options[j] {
                        lemma_cps_keeps_wf(*value, name);
                    }
                }
            }
        },
        ExprView::Case { subjects, clauses, .. } => {
            lemma_seq_keeps_wf(subjects, name);
            if let Some(cs) = clauses {
                let out = model::cps_clauses(cs, g);
                assert forall|i: int| 0 <= i < out.len() implies model::wf(#[trigger] out[i].branch) by {
                    assert(out[i] == model::cps_clause(cs[i], g));
                    lemma_cps_keeps_wf(cs[i].branch, name);
                }
            }
        },
        ExprView::Fn { .. } => lemma_convert_keeps_wf(e),
        ExprView::Call { fun, arguments, .. } => {
            lemma_cps_keeps_wf(*fun, name);
            let out = model::cps_call_args(arguments, g);
            assert forall|i: int| 0 <= i < out.len() implies model::wf(#[trigger] out[i].value) by {
                assert(out[i] == model::cps_call_arg(arguments[i], g));
                lemma_cps_keeps_wf(arguments[i].value, name);
            }
        },
        ExprView::BinOp { left, right, .. } => {
            lemma_cps_keeps_wf(*left, name);
            lemma_cps_keeps_wf(*right, name);
        },
        ExprView::FieldAccess { container, .. } => lemma_cps_keeps_wf(*container, name),
        ExprView::TupleIndex { tuple, .. } => lemma_cps_keeps_wf(*tuple, name),
        ExprView::RecordUpdate { constructor, base, arguments, .. } => {
            lemma_cps_keeps_wf(*constructor, name);
            lemma_cps_keeps_wf(*base, name);
            let out = model::cps_update_args(arguments, g);
            assert forall|i: int| 0 <= i < out.len() implies model::wf(#[trigger] out[i].value) by {
                assert(out[i] == model::cps_update_arg(arguments[i], g));
                lemma_cps_keeps_wf(arguments[i].value, name);
            }
        },
        ExprView::NegateBool { value, .. } => lemma_cps_keeps_wf(*value, name),
        ExprView::NegateInt { value, .. } => lemma_cps_keeps_wf(*value, name),
        ExprView::Todo { message, .. } => lemma_boxed_keeps_wf(message, name),
        ExprView::Panic { message, .. } => lemma_boxed_keeps_wf(message, name),
        ExprView::Echo { expression, .. } => lemma_boxed_keeps_wf(expression, name),
        _ => {},
    }
}

} // verus!
