//! The untyped expression tree that the pass reads and rebuilds.
use vstd::prelude::*;

verus! {

/// A byte span in the source file.
#[derive(Clone, Copy, Debug, PartialEq, Eq)]
pub struct SrcSpan {
    pub start: u32,
    pub end: u32,
}

#[derive(Clone, Copy, Debug, PartialEq, Eq)]
pub enum BinOp {
    And,
    Or,
    Eq,
    NotEq,
    LtInt,
    LtEqInt,
    LtFloat,
    LtEqFloat,
    GtEqInt,
    GtInt,
    GtEqFloat,
    GtFloat,
    AddInt,
    AddFloat,
    SubInt,
    SubFloat,
    MultInt,
    MultFloat,
    DivInt,
    DivFloat,
    RemainderInt,
    Concatenate,
}

/// Why a `todo` marker stands where it stands.
#[derive(Clone, Copy, Debug, PartialEq, Eq)]
pub enum TodoKind {
    Keyword,
    EmptyFunction,
    IncompleteUse,
    EmptyBlock,
}

/// How a function literal was written.
#[derive(Clone, Copy, Debug, PartialEq, Eq)]
pub enum FunctionLiteralKind {
    Capture { hole: SrcSpan },
    Anonymous { head: SrcSpan },
    Use { location: SrcSpan },
}

/// Where a call argument that the programmer did not write came from.
#[derive(Clone, Copy, Debug, PartialEq, Eq)]
pub enum ImplicitCallArgOrigin {
    Pipe,
    Use,
    IncorrectArityUse,
    PatternFieldSpread,
}

#[derive(Clone, Copy, Debug, PartialEq, Eq)]
pub enum AssignmentKind {
    Let,
    Assert { location: SrcSpan },
}

/// The encoding options of a byte-sequence segment that carry no value.
#[derive(Clone, Copy, Debug, PartialEq, Eq)]
pub enum SegmentFlag {
    Bytes,
    Int,
    Float,
    Bits,
    Utf8,
    Utf16,
    Utf32,
    Utf8Codepoint,
    Utf16Codepoint,
    Utf32Codepoint,
    Signed,
    Unsigned,
    Big,
    Little,
    Native,
}

#[derive(Clone, Debug, PartialEq, Eq)]
pub enum Pattern {
    Int { location: SrcSpan, value: String },
    Float { location: SrcSpan, value: String },
    String { location: SrcSpan, value: String },
    Variable { location: SrcSpan, name: String },
    Discard { location: SrcSpan, name: String },
}

#[derive(Clone, Debug, PartialEq, Eq)]
pub enum TypeAst {
    Constructor { location: SrcSpan, module: Option<String>, name: String },
    Var { location: SrcSpan, name: String },
    Hole { location: SrcSpan, name: String },
}

#[derive(Clone, Debug, PartialEq, Eq)]
pub enum ArgNames {
    Discard { name: String, location: SrcSpan },
    LabelledDiscard { label: String, label_location: SrcSpan, name: String, name_location: SrcSpan },
    Named { name: String, location: SrcSpan },
    NamedLabelled { name: String, name_location: SrcSpan, label: String, label_location: SrcSpan },
}

/// A parameter of a function literal.
#[derive(Clone, Debug, PartialEq, Eq)]
pub struct Arg {
    pub names: ArgNames,
    pub location: SrcSpan,
    pub annotation: Option<TypeAst>,
}

#[derive(Debug, PartialEq, Eq)]
pub struct CallArg {
    pub label: Option<String>,
    pub location: SrcSpan,
    pub value: Expr,
    pub implicit: Option<ImplicitCallArgOrigin>,
}

/// One alternative of a case expression: one pattern per subject, an optional
/// guard, and the branch's value.
#[derive(Debug, PartialEq, Eq)]
pub struct Clause {
    pub location: SrcSpan,
    pub patterns: Vec<Pattern>,
    pub guard: Option<Box<Expr>>,
    pub branch: Expr,
}

#[derive(Debug, PartialEq, Eq)]
pub enum BitArrayOption {
    Size { location: SrcSpan, value: Box<Expr>, short_form: bool },
    Unit { location: SrcSpan, value: u8 },
    Flag { location: SrcSpan, flag: SegmentFlag },
}

#[derive(Debug, PartialEq, Eq)]
pub struct BitArraySegment {
    pub location: SrcSpan,
    pub value: Box<Expr>,
    pub options: Vec<BitArrayOption>,
}

#[derive(Debug, PartialEq, Eq)]
pub struct RecordBeingUpdated {
    pub base: Box<Expr>,
    pub location: SrcSpan,
}

#[derive(Debug, PartialEq, Eq)]
pub struct RecordUpdateArg {
    pub label: String,
    pub location: SrcSpan,
    pub value: Expr,
}

/// `let pattern = value`
#[derive(Debug, PartialEq, Eq)]
pub struct Assignment {
    pub location: SrcSpan,
    pub value: Box<Expr>,
    pub pattern: Pattern,
    pub kind: AssignmentKind,
    pub annotation: Option<TypeAst>,
}

#[derive(Clone, Debug, PartialEq, Eq)]
pub struct UseAssignment {
    pub location: SrcSpan,
    pub pattern: Pattern,
    pub annotation: Option<TypeAst>,
}

/// The callback-sugar binding `use a, b <- call`.
#[derive(Debug, PartialEq, Eq)]
pub struct Use {
    pub location: SrcSpan,
    pub right_hand_side_location: SrcSpan,
    pub assignments_location: SrcSpan,
    pub call: Box<Expr>,
    pub assignments: Vec<UseAssignment>,
}

#[derive(Debug, PartialEq, Eq)]
pub enum Statement {
    Expression(Expr),
    Assignment(Assignment),
    Use(Use),
}

#[derive(Debug, PartialEq, Eq)]
pub enum Expr {
    Int { location: SrcSpan, value: String },
    Float { location: SrcSpan, value: String },
    String { location: SrcSpan, value: String },
    Var { location: SrcSpan, name: String },
    Placeholder { location: SrcSpan },
    Block { location: SrcSpan, statements: Vec<Statement> },
    List { location: SrcSpan, elements: Vec<Expr>, tail: Option<Box<Expr>> },
    Tuple { location: SrcSpan, elems: Vec<Expr> },
    BitArray { location: SrcSpan, segments: Vec<BitArraySegment> },
    Case { location: SrcSpan, subjects: Vec<Expr>, clauses: Option<Vec<Clause>> },
    Fn {
        location: SrcSpan,
        kind: FunctionLiteralKind,
        end_of_head_byte_index: u32,
        arguments: Vec<Arg>,
        body: Vec<Statement>,
        return_annotation: Option<TypeAst>,
    },
    Call { location: SrcSpan, fun: Box<Expr>, arguments: Vec<CallArg> },
    BinOp { location: SrcSpan, name: BinOp, left: Box<Expr>, right: Box<Expr> },
    PipeLine { location: SrcSpan, expressions: Vec<Expr> },
    FieldAccess { location: SrcSpan, label_location: SrcSpan, label: String, container: Box<Expr> },
    TupleIndex { location: SrcSpan, index: u64, tuple: Box<Expr> },
    RecordUpdate {
        location: SrcSpan,
        constructor: Box<Expr>,
        record: RecordBeingUpdated,
        arguments: Vec<RecordUpdateArg>,
    },
    NegateBool { location: SrcSpan, value: Box<Expr> },
    NegateInt { location: SrcSpan, value: Box<Expr> },
    Todo { kind: TodoKind, location: SrcSpan, message: Option<Box<Expr>> },
    Panic { location: SrcSpan, message: Option<Box<Expr>> },
    Echo { location: SrcSpan, expression: Option<Box<Expr>> },
}

} // verus!
