//! The mathematical view of the tree: every expression position becomes an
//! `ExprView`, text becomes `Seq<char>`, and syntax that the pass only carries
//! along (patterns, type annotations) is held as it is.
use crate::ast::{
    Arg, ArgNames, AssignmentKind, BinOp, BitArrayOption, BitArraySegment, CallArg, Clause, Expr,
    FunctionLiteralKind, ImplicitCallArgOrigin, Pattern, RecordUpdateArg, SegmentFlag, SrcSpan,
    Statement, TodoKind, TypeAst, UseAssignment,
};
use vstd::prelude::*;

verus! {

pub enum ArgNamesView {
    Discard { name: Seq<char>, location: SrcSpan },
    LabelledDiscard { label: Seq<char>, label_location: SrcSpan, name: Seq<char>, name_location: SrcSpan },
    Named { name: Seq<char>, location: SrcSpan },
    NamedLabelled { name: Seq<char>, name_location: SrcSpan, label: Seq<char>, label_location: SrcSpan },
}

pub struct ArgView {
    pub names: ArgNamesView,
    pub location: SrcSpan,
    pub annotation: Option<TypeAst>,
}

pub struct CallArgView {
    pub label: Option<Seq<char>>,
    pub location: SrcSpan,
    pub value: ExprView,
    pub implicit: Option<ImplicitCallArgOrigin>,
}

pub struct ClauseView {
    pub location: SrcSpan,
    pub patterns: Seq<Pattern>,
    pub guard: Option<Box<ExprView>>,
    pub branch: ExprView,
}

pub enum BitArrayOptionView {
    Size { location: SrcSpan, value: Box<ExprView>, short_form: bool },
    Unit { location: SrcSpan, value: u8 },
    Flag { location: SrcSpan, flag: SegmentFlag },
}

pub struct SegmentView {
    pub location: SrcSpan,
    pub value: ExprView,
    pub options: Seq<BitArrayOptionView>,
}

pub struct UpdateArgView {
    pub label: Seq<char>,
    pub location: SrcSpan,
    pub value: ExprView,
}

pub enum StatementView {
    Expression(ExprView),
    Assignment {
        location: SrcSpan,
        value: ExprView,
        pattern: Pattern,
        kind: AssignmentKind,
        annotation: Option<TypeAst>,
    },
    Use {
        location: SrcSpan,
        right_hand_side_location: SrcSpan,
        assignments_location: SrcSpan,
        call: ExprView,
        assignments: Seq<UseAssignment>,
    },
}

pub enum ExprView {
    Int { location: SrcSpan, value: Seq<char> },
    Float { location: SrcSpan, value: Seq<char> },
    String { location: SrcSpan, value: Seq<char> },
    Var { location: SrcSpan, name: Seq<char> },
    Placeholder { location: SrcSpan },
    Block { location: SrcSpan, statements: Seq<StatementView> },
    List { location: SrcSpan, elements: Seq<ExprView>, tail: Option<Box<ExprView>> },
    Tuple { location: SrcSpan, elems: Seq<ExprView> },
    BitArray { location: SrcSpan, segments: Seq<SegmentView> },
    Case { location: SrcSpan, subjects: Seq<ExprView>, clauses: Option<Seq<ClauseView>> },
    Fn {
        location: SrcSpan,
        kind: FunctionLiteralKind,
        end_of_head_byte_index: u32,
        arguments: Seq<ArgView>,
        body: Seq<StatementView>,
        return_annotation: Option<TypeAst>,
    },
    Call { location: SrcSpan, fun: Box<ExprView>, arguments: Seq<CallArgView> },
    BinOp { location: SrcSpan, name: BinOp, left: Box<ExprView>, right: Box<ExprView> },
    PipeLine { location: SrcSpan, expressions: Seq<ExprView> },
    FieldAccess { location: SrcSpan, label_location: SrcSpan, label: Seq<char>, container: Box<ExprView> },
    TupleIndex { location: SrcSpan, index: u64, tuple: Box<ExprView> },
    RecordUpdate {
        location: SrcSpan,
        constructor: Box<ExprView>,
        base: Box<ExprView>,
        base_location: SrcSpan,
        arguments: Seq<UpdateArgView>,
    },
    NegateBool { location: SrcSpan, value: Box<ExprView> },
    NegateInt { location: SrcSpan, value: Box<ExprView> },
    Todo { kind: TodoKind, location: SrcSpan, message: Option<Box<ExprView>> },
    Panic { location: SrcSpan, message: Option<Box<ExprView>> },
    Echo { location: SrcSpan, expression: Option<Box<ExprView>> },
}

impl ExprView {
    pub open spec fn location(self) -> SrcSpan {
        match self {
            ExprView::Int { location, .. } => location,
            ExprView::Float { location, .. } => location,
            ExprView::String { location, .. } => location,
            ExprView::Var { location, .. } => location,
            ExprView::Placeholder { location } => location,
            ExprView::Block { location, .. } => location,
            ExprView::List { location, .. } => location,
            ExprView::Tuple { location, .. } => location,
            ExprView::BitArray { location, .. } => location,
            ExprView::Case { location, .. } => location,
            ExprView::Fn { location, .. } => location,
            ExprView::Call { location, .. } => location,
            ExprView::BinOp { location, .. } => location,
            ExprView::PipeLine { location, .. } => location,
            ExprView::FieldAccess { location, .. } => location,
            ExprView::TupleIndex { location, .. } => location,
            ExprView::RecordUpdate { location, .. } => location,
            ExprView::NegateBool { location, .. } => location,
            ExprView::NegateInt { location, .. } => location,
            ExprView::Todo { location, .. } => location,
            ExprView::Panic { location, .. } => location,
            ExprView::Echo { location, .. } => location,
        }
    }

    /// Literals, variable references and the placeholder: the forms with no
    /// child expression.
    pub open spec fn is_atomic(self) -> bool {
        ||| self is Int
        ||| self is Float
        ||| self is String
        ||| self is Var
        ||| self is Placeholder
    }
}

// ----- views of the executable tree -----

pub open spec fn opt_text_view(o: Option<String>) -> Option<Seq<char>> {
    match o {
        Some(s) => Some(s@),
        None => None,
    }
}

impl ArgNames {
    pub open spec fn view(&self) -> ArgNamesView {
        match self {
            ArgNames::Discard { name, location } => ArgNamesView::Discard { name: name@, location: *location },
            ArgNames::LabelledDiscard { label, label_location, name, name_location } =>
                ArgNamesView::LabelledDiscard {
                    label: label@,
                    label_location: *label_location,
                    name: name@,
                    name_location: *name_location,
                },
            ArgNames::Named { name, location } => ArgNamesView::Named { name: name@, location: *location },
            ArgNames::NamedLabelled { name, name_location, label, label_location } =>
                ArgNamesView::NamedLabelled {
                    name: name@,
                    name_location: *name_location,
                    label: label@,
                    label_location: *label_location,
                },
        }
    }
}

impl Arg {
    pub open spec fn view(&self) -> ArgView {
        ArgView { names: self.names@, location: self.location, annotation: self.annotation }
    }
}

pub open spec fn arg_views(s: Seq<Arg>) -> Seq<ArgView> {
    s.map_values(|a: Arg| a@)
}

pub open spec fn boxed_view(o: Option<Box<Expr>>) -> Option<Box<ExprView>>
    decreases o, 0int,
{
    match o {
        Some(b) => Some(Box::new(b.view())),
        None => None,
    }
}

pub open spec fn expr_views(s: Seq<Expr>) -> Seq<ExprView>
    decreases s, 0int,
{
    Seq::new(s.len(), |i: int| if 0 <= i < s.len() { s[i].view() } else { ExprView::Placeholder { location: SrcSpan { start: 0, end: 0 } } })
}

impl CallArg {
    pub open spec fn view(&self) -> CallArgView
        decreases self, 0int,
    {
        CallArgView { label: opt_text_view(self.label), location: self.location, value: self.value.view(), implicit: self.implicit }
    }
}

pub open spec fn call_arg_views(s: Seq<CallArg>) -> Seq<CallArgView>
    decreases s, 0int,
{
    Seq::new(s.len(), |i: int| if 0 <= i < s.len() { s[i].view() } else { arbitrary() })
}

impl Clause {
    pub open spec fn view(&self) -> ClauseView
        decreases self, 0int,
    {
        ClauseView { location: self.location, patterns: self.patterns@, guard: boxed_view(self.guard), branch: self.branch.view() }
    }
}

pub open spec fn clause_views(s: Seq<Clause>) -> Seq<ClauseView>
    decreases s, 0int,
{
    Seq::new(s.len(), |i: int| if 0 <= i < s.len() { s[i].view() } else { arbitrary() })
}

pub open spec fn clauses_view(o: Option<Vec<Clause>>) -> Option<Seq<ClauseView>>
    decreases o, 0int,
{
    match o {
        Some(v) => Some(clause_views(v@)),
        None => None,
    }
}

impl BitArrayOption {
    pub open spec fn view(&self) -> BitArrayOptionView
        decreases self, 0int,
    {
        match self {
            BitArrayOption::Size { location, value, short_form } =>
                BitArrayOptionView::Size { location: *location, value: Box::new(value.view()), short_form: *short_form },
            BitArrayOption::Unit { location, value } => BitArrayOptionView::Unit { location: *location, value: *value },
            BitArrayOption::Flag { location, flag } => BitArrayOptionView::Flag { location: *location, flag: *flag },
        }
    }
}

pub open spec fn option_views(s: Seq<BitArrayOption>) -> Seq<BitArrayOptionView>
    decreases s, 0int,
{
    Seq::new(s.len(), |i: int| if 0 <= i < s.len() { s[i].view() } else { arbitrary() })
}

impl BitArraySegment {
    pub open spec fn view(&self) -> SegmentView
        decreases self, 0int,
    {
        SegmentView { location: self.location, value: self.value.view(), options: option_views(self.options@) }
    }
}

pub open spec fn segment_views(s: Seq<BitArraySegment>) -> Seq<SegmentView>
    decreases s, 0int,
{
    Seq::new(s.len(), |i: int| if 0 <= i < s.len() { s[i].view() } else { arbitrary() })
}

impl RecordUpdateArg {
    pub open spec fn view(&self) -> UpdateArgView
        decreases self, 0int,
    {
        UpdateArgView { label: self.label@, location: self.location, value: self.value.view() }
    }
}

pub open spec fn update_arg_views(s: Seq<RecordUpdateArg>) -> Seq<UpdateArgView>
    decreases s, 0int,
{
    Seq::new(s.len(), |i: int| if 0 <= i < s.len() { s[i].view() } else { arbitrary() })
}

impl Statement {
    pub open spec fn view(&self) -> StatementView
        decreases self, 0int,
    {
        match self {
            Statement::Expression(e) => StatementView::Expression(e.view()),
            Statement::Assignment(a) => StatementView::Assignment {
                location: a.location,
                value: a.value.view(),
                pattern: a.pattern,
                kind: a.kind,
                annotation: a.annotation,
            },
            Statement::Use(u) => StatementView::Use {
                location: u.location,
                right_hand_side_location: u.right_hand_side_location,
                assignments_location: u.assignments_location,
                call: u.call.view(),
                assignments: u.assignments@,
            },
        }
    }
}

pub open spec fn statement_views(s: Seq<Statement>) -> Seq<StatementView>
    decreases s, 0int,
{
    Seq::new(s.len(), |i: int| if 0 <= i < s.len() { s[i].view() } else { arbitrary() })
}

impl Expr {
    pub open spec fn view(&self) -> ExprView
        decreases self, 0int,
    {
        match self {
            Expr::Int { location, value } => ExprView::Int { location: *location, value: value@ },
            Expr::Float { location, value } => ExprView::Float { location: *location, value: value@ },
            Expr::String { location, value } => ExprView::String { location: *location, value: value@ },
            Expr::Var { location, name } => ExprView::Var { location: *location, name: name@ },
            Expr::Placeholder { location } => ExprView::Placeholder { location: *location },
            Expr::Block { location, statements } =>
                ExprView::Block { location: *location, statements: statement_views(statements@) },
            Expr::List { location, elements, tail } =>
                ExprView::List { location: *location, elements: expr_views(elements@), tail: boxed_view(*tail) },
            Expr::Tuple { location, elems } => ExprView::Tuple { location: *location, elems: expr_views(elems@) },
            Expr::BitArray { location, segments } =>
                ExprView::BitArray { location: *location, segments: segment_views(segments@) },
            Expr::Case { location, subjects, clauses } =>
                ExprView::Case { location: *location, subjects: expr_views(subjects@), clauses: clauses_view(*clauses) },
            Expr::Fn { location, kind, end_of_head_byte_index, arguments, body, return_annotation } =>
                ExprView::Fn {
                    location: *location,
                    kind: *kind,
                    end_of_head_byte_index: *end_of_head_byte_index,
                    arguments: arg_views(arguments@),
                    body: statement_views(body@),
                    return_annotation: *return_annotation,
                },
            Expr::Call { location, fun, arguments } =>
                ExprView::Call { location: *location, fun: Box::new(fun.view()), arguments: call_arg_views(arguments@) },
            Expr::BinOp { location, name, left, right } =>
                ExprView::BinOp { location: *location, name: *name, left: Box::new(left.view()), right: Box::new(right.view()) },
            Expr::PipeLine { location, expressions } =>
                ExprView::PipeLine { location: *location, expressions: expr_views(expressions@) },
            Expr::FieldAccess { location, label_location, label, container } =>
                ExprView::FieldAccess {
                    location: *location,
                    label_location: *label_location,
                    label: label@,
                    container: Box::new(container.view()),
                },
            Expr::TupleIndex { location, index, tuple } =>
                ExprView::TupleIndex { location: *location, index: *index, tuple: Box::new(tuple.view()) },
            Expr::RecordUpdate { location, constructor, record, arguments } =>
                ExprView::RecordUpdate {
                    location: *location,
                    constructor: Box::new(constructor.view()),
                    base: Box::new(record.base.view()),
                    base_location: record.location,
                    arguments: update_arg_views(arguments@),
                },
            Expr::NegateBool { location, value } => ExprView::NegateBool { location: *location, value: Box::new(value.view()) },
            Expr::NegateInt { location, value } => ExprView::NegateInt { location: *location, value: Box::new(value.view()) },
            Expr::Todo { kind, location, message } => ExprView::Todo { kind: *kind, location: *location, message: boxed_view(*message) },
            Expr::Panic { location, message } => ExprView::Panic { location: *location, message: boxed_view(*message) },
            Expr::Echo { location, expression } => ExprView::Echo { location: *location, expression: boxed_view(*expression) },
        }
    }
}

impl Expr {
    /// The node's own source location.
    pub fn location(&self) -> (r: SrcSpan)
        ensures
            r == self@.location(),
    {
        match self {
            Expr::Int { location, .. } => *location,
            Expr::Float { location, .. } => *location,
            Expr::String { location, .. } => *location,
            Expr::Var { location, .. } => *location,
            Expr::Placeholder { location } => *location,
            Expr::Block { location, .. } => *location,
            Expr::List { location, .. } => *location,
            Expr::Tuple { location, .. } => *location,
            Expr::BitArray { location, .. } => *location,
            Expr::Case { location, .. } => *location,
            Expr::Fn { location, .. } => *location,
            Expr::Call { location, .. } => *location,
            Expr::BinOp { location, .. } => *location,
            Expr::PipeLine { location, .. } => *location,
            Expr::FieldAccess { location, .. } => *location,
            Expr::TupleIndex { location, .. } => *location,
            Expr::RecordUpdate { location, .. } => *location,
            Expr::NegateBool { location, .. } => *location,
            Expr::NegateInt { location, .. } => *location,
            Expr::Todo { location, .. } => *location,
            Expr::Panic { location, .. } => *location,
            Expr::Echo { location, .. } => *location,
        }
    }
}

// ----- the rewrite, stated over views -----

/// The preferred name of the continuation parameter that function-literal
/// conversion adds.
pub open spec fn go_name() -> Seq<char> {
    seq!['g', 'o']
}

/// The names a pattern binds.
pub open spec fn pattern_binders(p: Pattern) -> Seq<Seq<char>> {
    match p {
        Pattern::Variable { name, .. } => seq![name@],
        _ => seq![],
    }
}

/// The names a parameter binds.
pub open spec fn arg_binder(a: ArgView) -> Seq<Seq<char>> {
    match a.names {
        ArgNamesView::Named { name, .. } => seq![name],
        ArgNamesView::NamedLabelled { name, .. } => seq![name],
        _ => seq![],
    }
}

pub open spec fn arg_binders(s: Seq<ArgView>) -> Seq<Seq<char>>
    decreases s.len(),
{
    if s.len() == 0 {
        seq![]
    } else {
        arg_binders(s.drop_last()) + arg_binder(s.last())
    }
}

pub open spec fn use_binders(s: Seq<UseAssignment>) -> Seq<Seq<char>>
    decreases s.len(),
{
    if s.len() == 0 {
        seq![]
    } else {
        use_binders(s.drop_last()) + pattern_binders(s.last().pattern)
    }
}

/// The names a statement of a function body binds.
pub open spec fn statement_binders(s: StatementView) -> Seq<Seq<char>> {
    match s {
        StatementView::Assignment { pattern, .. } => pattern_binders(pattern),
        StatementView::Use { assignments, .. } => use_binders(assignments),
        StatementView::Expression(_) => seq![],
    }
}

pub open spec fn body_binders(s: Seq<StatementView>) -> Seq<Seq<char>>
    decreases s.len(),
{
    if s.len() == 0 {
        seq![]
    } else {
        body_binders(s.drop_last()) + statement_binders(s.last())
    }
}

/// The names bound by a function literal's parameters and body statements.
pub open spec fn binders(arguments: Seq<ArgView>, body: Seq<StatementView>) -> Seq<Seq<char>> {
    arg_binders(arguments) + body_binders(body)
}

/// The length of the longest name in `s`.
pub open spec fn longest(s: Seq<Seq<char>>) -> nat
    decreases s.len(),
{
    if s.len() == 0 {
        0
    } else if s.last().len() > longest(s.drop_last()) {
        s.last().len()
    } else {
        longest(s.drop_last())
    }
}

/// `go` where the literal does not bind it; otherwise `go` followed by as many
/// underscores as the longest bound name has characters, which is longer than
/// every bound name.
pub open spec fn fresh_name(arguments: Seq<ArgView>, body: Seq<StatementView>) -> Seq<char> {
    let bound = binders(arguments, body);
    if bound.contains(go_name()) {
        go_name() + Seq::new(longest(bound), |i: int| '_')
    } else {
        go_name()
    }
}

/// `name(v)`, placed at `v`'s own location.
pub open spec fn call_go(v: ExprView, name: Seq<char>) -> ExprView {
    ExprView::Call {
        location: v.location(),
        fun: Box::new(ExprView::Var { location: v.location(), name }),
        arguments: seq![CallArgView { label: None, location: v.location(), value: v, implicit: None }],
    }
}

/// The continuation that a converted function body delivers its values to,
/// through the parameter `name`.
pub open spec fn go_cont(name: Seq<char>) -> spec_fn(ExprView) -> ExprView {
    |v: ExprView| call_go(v, name)
}

/// The parameter that function-literal conversion appends.
pub open spec fn go_arg(location: SrcSpan, name: Seq<char>) -> ArgView {
    ArgView { names: ArgNamesView::Named { name, location }, location, annotation: None }
}

/// Every function literal in the tree has a non-empty body.
pub open spec fn wf(e: ExprView) -> bool
    decreases e, 1int,
{
    match e {
        ExprView::Block { statements, .. } => wf_statements(statements),
        ExprView::List { elements, tail, .. } => wf_seq(elements) && wf_boxed(tail),
        ExprView::Tuple { elems, .. } => wf_seq(elems),
        ExprView::BitArray { segments, .. } => forall|i: int| 0 <= i < segments.len() ==> wf_segment(#[trigger] segments[i]),
        ExprView::Case { subjects, clauses, .. } => wf_seq(subjects) && match clauses {
            Some(cs) => forall|i: int| 0 <= i < cs.len() ==> wf(#[trigger] cs[i].branch),
            None => true,
        },
        ExprView::Fn { body, .. } => body.len() > 0 && wf_statements(body),
        ExprView::Call { fun, arguments, .. } => wf(*fun) && forall|i: int| 0 <= i < arguments.len() ==> wf(#[trigger] arguments[i].value),
        ExprView::BinOp { left, right, .. } => wf(*left) && wf(*right),
        ExprView::PipeLine { expressions, .. } => wf_seq(expressions),
        ExprView::FieldAccess { container, .. } => wf(*container),
        ExprView::TupleIndex { tuple, .. } => wf(*tuple),
        ExprView::RecordUpdate { constructor, base, arguments, .. } =>
            wf(*constructor) && wf(*base) && forall|i: int| 0 <= i < arguments.len() ==> wf(#[trigger] arguments[i].value),
        ExprView::NegateBool { value, .. } => wf(*value),
        ExprView::NegateInt { value, .. } => wf(*value),
        ExprView::Todo { message, .. } => wf_boxed(message),
        ExprView::Panic { message, .. } => wf_boxed(message),
        ExprView::Echo { expression, .. } => wf_boxed(expression),
        _ => true,
    }
}

pub open spec fn wf_seq(s: Seq<ExprView>) -> bool
    decreases s, 0int,
{
    forall|i: int| 0 <= i < s.len() ==> wf(#[trigger] s[i])
}

pub open spec fn wf_boxed(o: Option<Box<ExprView>>) -> bool
    decreases o, 0int,
{
    match o {
        Some(b) => wf(*b),
        None => true,
    }
}

pub open spec fn wf_segment(s: SegmentView) -> bool
    decreases s, 0int,
{
    &&& wf(s.value)
    &&& forall|j: int| 0 <= j < s.options.len() ==> wf_option(#[trigger] s.options[j])
}

pub open spec fn wf_option(o: BitArrayOptionView) -> bool
    decreases o, 0int,
{
    match o {
        BitArrayOptionView::Size { value, .. } => wf(*value),
        _ => true,
    }
}

pub open spec fn wf_statement(s: StatementView) -> bool
    decreases s, 0int,
{
    match s {
        StatementView::Expression(e) => wf(e),
        StatementView::Assignment { value, .. } => wf(value),
        StatementView::Use { call, .. } => wf(call),
    }
}

pub open spec fn wf_statements(s: Seq<StatementView>) -> bool
    decreases s, 0int,
{
    forall|i: int| 0 <= i < s.len() ==> wf_statement(#[trigger] s[i])
}

/// The rewrite of `e` under continuation `k`: the node rebuilt from rewritten
/// children, handed to `k`.
pub open spec fn cps(e: ExprView, k: spec_fn(ExprView) -> ExprView) -> ExprView
    decreases e, 2int,
{
    k(rebuild(e, k))
}

/// The node of the same form as `e` whose every child expression is rewritten
/// under `k`, before `k` is applied to it. An atomic form is its own rebuild;
/// a function literal is converted instead.
pub open spec fn rebuild(e: ExprView, k: spec_fn(ExprView) -> ExprView) -> ExprView
    decreases e, 1int,
{
    match e {
        ExprView::Block { location, statements } =>
            ExprView::Block { location, statements: cps_statements(statements, k) },
        ExprView::List { location, elements, tail } =>
            ExprView::List { location, elements: cps_seq(elements, k), tail: cps_boxed(tail, k) },
        ExprView::Tuple { location, elems } => ExprView::Tuple { location, elems: cps_seq(elems, k) },
        ExprView::BitArray { location, segments } =>
            ExprView::BitArray { location, segments: cps_segments(segments, k) },
        ExprView::Case { location, subjects, clauses } => ExprView::Case {
            location,
            subjects: cps_seq(subjects, k),
            clauses: match clauses {
                Some(cs) => Some(cps_clauses(cs, k)),
                None => None,
            },
        },
        ExprView::Fn { .. } => convert_fn(e),
        ExprView::Call { location, fun, arguments } =>
            ExprView::Call { location, fun: Box::new(cps(*fun, k)), arguments: cps_call_args(arguments, k) },
        ExprView::BinOp { location, name, left, right } =>
            ExprView::BinOp { location, name, left: Box::new(cps(*left, k)), right: Box::new(cps(*right, k)) },
        ExprView::PipeLine { location, expressions } =>
            ExprView::PipeLine { location, expressions: cps_seq(expressions, k) },
        ExprView::FieldAccess { location, label_location, label, container } =>
            ExprView::FieldAccess { location, label_location, label, container: Box::new(cps(*container, k)) },
        ExprView::TupleIndex { location, index, tuple } =>
            ExprView::TupleIndex { location, index, tuple: Box::new(cps(*tuple, k)) },
        ExprView::RecordUpdate { location, constructor, base, base_location, arguments } => ExprView::RecordUpdate {
            location,
            constructor: Box::new(cps(*constructor, k)),
            base: Box::new(cps(*base, k)),
            base_location,
            arguments: cps_update_args(arguments, k),
        },
        ExprView::NegateBool { location, value } => ExprView::NegateBool { location, value: Box::new(cps(*value, k)) },
        ExprView::NegateInt { location, value } => ExprView::NegateInt { location, value: Box::new(cps(*value, k)) },
        ExprView::Todo { kind, location, message } => ExprView::Todo { kind, location, message: cps_boxed(message, k) },
        ExprView::Panic { location, message } => ExprView::Panic { location, message: cps_boxed(message, k) },
        ExprView::Echo { location, expression } => ExprView::Echo { location, expression: cps_boxed(expression, k) },
        _ => e,
    }
}

/// A function literal with a fresh continuation parameter appended and its final statement
/// rewritten so that every value it produces goes to that parameter.
pub open spec fn convert_fn(e: ExprView) -> ExprView
    decreases e, 0int,
{
    match e {
        ExprView::Fn { location, kind, end_of_head_byte_index, arguments, body, return_annotation } =>
            if body.len() == 0 {
                e
            } else {
                ExprView::Fn {
                    location,
                    kind,
                    end_of_head_byte_index,
                    arguments: arguments.push(go_arg(location, fresh_name(arguments, body))),
                    body: body.drop_last().push(cps_statement(body.last(), go_cont(fresh_name(arguments, body)))),
                    return_annotation,
                }
            },
        _ => e,
    }
}

pub open spec fn cps_seq(s: Seq<ExprView>, k: spec_fn(ExprView) -> ExprView) -> Seq<ExprView>
    decreases s, 0int,
{
    Seq::new(s.len(), |i: int| if 0 <= i < s.len() { cps(s[i], k) } else { arbitrary() })
}

pub open spec fn cps_boxed(o: Option<Box<ExprView>>, k: spec_fn(ExprView) -> ExprView) -> Option<Box<ExprView>>
    decreases o, 0int,
{
    match o {
        Some(b) => Some(Box::new(cps(*b, k))),
        None => None,
    }
}

pub open spec fn cps_statement(s: StatementView, k: spec_fn(ExprView) -> ExprView) -> StatementView
    decreases s, 0int,
{
    match s {
        StatementView::Expression(e) => StatementView::Expression(cps(e, k)),
        StatementView::Assignment { location, value, pattern, kind, annotation } =>
            StatementView::Assignment { location, value: cps(value, k), pattern, kind, annotation },
        StatementView::Use { location, right_hand_side_location, assignments_location, call, assignments } =>
            StatementView::Use { location, right_hand_side_location, assignments_location, call: cps(call, k), assignments },
    }
}

pub open spec fn cps_statements(s: Seq<StatementView>, k: spec_fn(ExprView) -> ExprView) -> Seq<StatementView>
    decreases s, 0int,
{
    Seq::new(s.len(), |i: int| if 0 <= i < s.len() { cps_statement(s[i], k) } else { arbitrary() })
}

pub open spec fn cps_call_arg(a: CallArgView, k: spec_fn(ExprView) -> ExprView) -> CallArgView
    decreases a, 0int,
{
    CallArgView { label: a.label, location: a.location, value: cps(a.value, k), implicit: a.implicit }
}

pub open spec fn cps_call_args(s: Seq<CallArgView>, k: spec_fn(ExprView) -> ExprView) -> Seq<CallArgView>
    decreases s, 0int,
{
    Seq::new(s.len(), |i: int| if 0 <= i < s.len() { cps_call_arg(s[i], k) } else { arbitrary() })
}

pub open spec fn cps_clause(c: ClauseView, k: spec_fn(ExprView) -> ExprView) -> ClauseView
    decreases c, 0int,
{
    ClauseView { location: c.location, patterns: c.patterns, guard: c.guard, branch: cps(c.branch, k) }
}

pub open spec fn cps_clauses(s: Seq<ClauseView>, k: spec_fn(ExprView) -> ExprView) -> Seq<ClauseView>
    decreases s, 0int,
{
    Seq::new(s.len(), |i: int| if 0 <= i < s.len() { cps_clause(s[i], k) } else { arbitrary() })
}

pub open spec fn cps_option(o: BitArrayOptionView, k: spec_fn(ExprView) -> ExprView) -> BitArrayOptionView
    decreases o, 0int,
{
    match o {
        BitArrayOptionView::Size { location, value, short_form } =>
            BitArrayOptionView::Size { location, value: Box::new(cps(*value, k)), short_form },
        _ => o,
    }
}

pub open spec fn cps_options(s: Seq<BitArrayOptionView>, k: spec_fn(ExprView) -> ExprView) -> Seq<BitArrayOptionView>
    decreases s, 0int,
{
    Seq::new(s.len(), |i: int| if 0 <= i < s.len() { cps_option(s[i], k) } else { arbitrary() })
}

pub open spec fn cps_segment(s: SegmentView, k: spec_fn(ExprView) -> ExprView) -> SegmentView
    decreases s, 0int,
{
    SegmentView { location: s.location, value: cps(s.value, k), options: cps_options(s.options, k) }
}

pub open spec fn cps_segments(s: Seq<SegmentView>, k: spec_fn(ExprView) -> ExprView) -> Seq<SegmentView>
    decreases s, 0int,
{
    Seq::new(s.len(), |i: int| if 0 <= i < s.len() { cps_segment(s[i], k) } else { arbitrary() })
}

pub open spec fn cps_update_arg(a: UpdateArgView, k: spec_fn(ExprView) -> ExprView) -> UpdateArgView
    decreases a, 0int,
{
    UpdateArgView { label: a.label, location: a.location, value: cps(a.value, k) }
}

pub open spec fn cps_update_args(s: Seq<UpdateArgView>, k: spec_fn(ExprView) -> ExprView) -> Seq<UpdateArgView>
    decreases s, 0int,
{
    Seq::new(s.len(), |i: int| if 0 <= i < s.len() { cps_update_arg(s[i], k) } else { arbitrary() })
}

} // verus!
