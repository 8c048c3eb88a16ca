//! The expression grammar the engine works on.
//!
//! The input tree is handed over by an external parser; the output tree is a
//! structural echo of the input in which every literal and variable leaf is
//! wrapped in exactly one coercion to the declared target type.  The `Other`
//! variants stand for the parts of the host grammar that lie outside the
//! supported subset: the engine rejects them with a precise error instead of
//! ever producing output for them.

use vstd::prelude::*;

verus! {

/// The fixed set of numeric kinds an expression can be lowered to: signed and
/// unsigned integers of 8 to 128 bits, and the two float widths.
#[derive(Clone, Copy, PartialEq, Eq, Structural, Debug)]
pub enum Target {
    I8,
    I16,
    I32,
    I64,
    I128,
    U8,
    U16,
    U32,
    U64,
    U128,
    F32,
    F64,
}

impl Target {
    /// The nine integer kinds an integer literal may be coerced to.
    /// The unsigned 8-bit kind is not among them: an integer literal aimed at
    /// it is rejected, even though `U8` remains a valid target for variables.
    pub open spec fn is_int_literal_target(self) -> bool {
        match self {
            Target::U16 | Target::U32 | Target::U64 | Target::U128 => true,
            Target::I8 | Target::I16 | Target::I32 | Target::I64 | Target::I128 => true,
            _ => false,
        }
    }

    /// The two float kinds a float literal may be coerced to.
    pub open spec fn is_float_literal_target(self) -> bool {
        self == Target::F32 || self == Target::F64
    }
}

/// Binary operators of the host grammar.  The ten arithmetic and bitwise
/// kinds are supported; `Other` stands for every remaining operator
/// (comparisons, logical connectives, assignments, ...), which the engine
/// rejects.
#[derive(Clone, Copy, PartialEq, Eq, Structural, Debug)]
pub enum BinaryOp {
    Add,
    Sub,
    Mul,
    Div,
    Rem,
    BitXor,
    BitAnd,
    BitOr,
    Shl,
    Shr,
    Other,
}

impl BinaryOp {
    /// Whether the engine re-emits this operator.
    pub open spec fn is_supported(self) -> bool {
        self != BinaryOp::Other
    }
}

/// Unary operators of the host grammar.  Only negation is supported.
#[derive(Clone, Copy, PartialEq, Eq, Structural, Debug)]
pub enum UnaryOp {
    Neg,
    Other,
}

/// A literal as the external parser hands it over.  Numeric literals carry
/// their textual value: an integer literal its decimal digits (any suffix
/// already stripped), a float literal its full text, which the engine never
/// interprets numerically.  `Other` stands for the remaining literal forms
/// (strings, characters, bytes, ...).
#[derive(PartialEq, Eq, Debug)]
pub enum Lit {
    Int(String),
    Float(String),
    Bool(bool),
    Other,
}

/// An input expression tree: finite, immutable, produced once by the external
/// parser.  `Other` stands for every host-grammar node outside this subset
/// (indexing, field access, conditionals, ...).
#[derive(PartialEq, Eq, Debug)]
pub enum Expr {
    Binary(Box<Expr>, BinaryOp, Box<Expr>),
    Unary(UnaryOp, Box<Expr>),
    Literal(Lit),
    Grouping(Box<Expr>),
    Call(String, Vec<Expr>),
    Variable(String),
    Other,
}

/// A leaf of the output tree, always found inside a coercion wrapper.
/// An integer leaf carries the value parsed from the literal's digits into a
/// 128-bit signed accumulator; a float leaf carries the literal's text for the
/// host to interpret; a variable leaf carries the name unchanged.
#[derive(PartialEq, Eq, Debug)]
pub enum Leaf {
    Int(i128),
    Float(String),
    Var(String),
}

/// The closed registry of callable functions: each resolves to the host's
/// standard two-argument maximum or minimum primitive.
#[derive(Clone, Copy, PartialEq, Eq, Structural, Debug)]
pub enum Builtin {
    Max,
    Min,
}

/// An output expression tree.  Its shape echoes the input: operators,
/// groupings and calls are preserved, and every literal or variable leaf has
/// become a `Coerce` node.  A coercion wraps a bare `Leaf`, never another
/// tree, so a leaf can never be wrapped twice.  Boolean literals pass through
/// without any coercion.
#[derive(PartialEq, Eq, Debug)]
pub enum TypedExpr {
    Binary(Box<TypedExpr>, BinaryOp, Box<TypedExpr>),
    Negate(Box<TypedExpr>),
    Grouping(Box<TypedExpr>),
    Call(Builtin, Box<TypedExpr>, Box<TypedExpr>),
    Coerce(Leaf, Target),
    Bool(bool),
}

/// Why a transformation was aborted.  Every failure is fatal: the engine
/// produces no partial output.
#[derive(Clone, Copy, PartialEq, Eq, Structural, Debug)]
pub enum LowerError {
    /// A binary or unary operator outside the whitelisted set.
    UnsupportedOperator,
    /// A literal kind paired with an incompatible target type.
    UnsupportedLiteralTarget,
    /// A literal form outside integer, float and boolean.
    UnsupportedLiteralKind,
    /// A callee outside `max` and `min`, or a wrong argument count for them.
    UnsupportedCall,
    /// An expression node outside the supported grammar.
    UnsupportedExpressionShape,
    /// Literal text that does not parse into the 128-bit signed accumulator.
    LiteralParseFailure,
}

} // verus!
