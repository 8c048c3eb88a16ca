//! The lowering engine: a pure recursive rewrite of an expression tree
//! against a single target type.
//!
//! `lower_spec` is the mathematical definition of the transformation;
//! `lower` is the executable engine, proved to return exactly what
//! `lower_spec` says for every input.  The target type is threaded unchanged
//! into every recursive call: there is no per-subexpression type inference.

use vstd::prelude::*;

use crate::ast::{BinaryOp, Builtin, Expr, Leaf, Lit, LowerError, Target, TypedExpr, UnaryOp};
use crate::digits::parse_decimal;
use crate::digits::parse_decimal_spec;

verus! {

/// What lowering a literal yields.
///
/// An integer literal is parsed into the 128-bit signed accumulator first and
/// then coerced, so unparseable text is reported before a bad target is; the
/// target must be one of the nine integer kinds.  A float literal's text is
/// carried through into a coercion to one of the two float kinds.  A boolean
/// literal passes through untouched, whatever the target.
pub open spec fn lower_literal_spec(lit: Lit, target: Target) -> Result<TypedExpr, LowerError> {
    match lit {
        Lit::Int(text) => match parse_decimal_spec(text@) {
            Some(value) => if target.is_int_literal_target() {
                Ok(TypedExpr::Coerce(Leaf::Int(value), target))
            } else {
                Err(LowerError::UnsupportedLiteralTarget)
            },
            None => Err(LowerError::LiteralParseFailure),
        },
        Lit::Float(text) => if target.is_float_literal_target() {
            Ok(TypedExpr::Coerce(Leaf::Float(text), target))
        } else {
            Err(LowerError::UnsupportedLiteralTarget)
        },
        Lit::Bool(value) => Ok(TypedExpr::Bool(value)),
        Lit::Other => Err(LowerError::UnsupportedLiteralKind),
    }
}

/// What lowering an expression against `target` yields.
///
/// Operands are lowered before their operator is inspected, and a call's
/// arguments before its callee name, so a failure inside a subexpression is
/// the one reported.  The first failure aborts the whole transformation.
pub open spec fn lower_spec(expr: Expr, target: Target) -> Result<TypedExpr, LowerError>
    decreases expr, 0int,
{
    match expr {
        Expr::Binary(left, op, right) => match lower_spec(*left, target) {
            Ok(lowered_left) => match lower_spec(*right, target) {
                Ok(lowered_right) => if op.is_supported() {
                    Ok(TypedExpr::Binary(Box::new(lowered_left), op, Box::new(lowered_right)))
                } else {
                    Err(LowerError::UnsupportedOperator)
                },
                Err(e) => Err(e),
            },
            Err(e) => Err(e),
        },
        Expr::Unary(op, operand) => match lower_spec(*operand, target) {
            Ok(lowered) => if op == UnaryOp::Neg {
                Ok(TypedExpr::Negate(Box::new(lowered)))
            } else {
                Err(LowerError::UnsupportedOperator)
            },
            Err(e) => Err(e),
        },
        Expr::Literal(lit) => lower_literal_spec(lit, target),
        Expr::Grouping(inner) => match lower_spec(*inner, target) {
            Ok(lowered) => Ok(TypedExpr::Grouping(Box::new(lowered))),
            Err(e) => Err(e),
        },
        Expr::Call(name, args) => match lower_args_spec(args@, target) {
            Ok(lowered_args) => if name@ == "max"@ {
                if lowered_args.len() == 2 {
                    Ok(TypedExpr::Call(
                        Builtin::Max,
                        Box::new(lowered_args[0]),
                        Box::new(lowered_args[1]),
                    ))
                } else {
                    Err(LowerError::UnsupportedCall)
                }
            } else if name@ == "min"@ {
                if lowered_args.len() == 2 {
                    Ok(TypedExpr::Call(
                        Builtin::Min,
                        Box::new(lowered_args[0]),
                        Box::new(lowered_args[1]),
                    ))
                } else {
                    Err(LowerError::UnsupportedCall)
                }
            } else {
                Err(LowerError::UnsupportedCall)
            },
            Err(e) => Err(e),
        },
        Expr::Variable(name) => Ok(TypedExpr::Coerce(Leaf::Var(name), target)),
        Expr::Other => Err(LowerError::UnsupportedExpressionShape),
    }
}

/// What lowering a call's arguments, in order, yields: the lowered arguments,
/// or the first failure among them.
pub open spec fn lower_args_spec(args: Seq<Expr>, target: Target) -> Result<
    Seq<TypedExpr>,
    LowerError,
>
    decreases args, args.len(),
{
    if args.len() == 0 {
        Ok(Seq::empty())
    } else {
        match lower_spec(args[0], target) {
            Ok(lowered) => match lower_args_spec(args.drop_first(), target) {
                Ok(rest) => Ok(rest.insert(0, lowered)),
                Err(e) => Err(e),
            },
            Err(e) => Err(e),
        }
    }
}

/// Whether the executable outcome `r` agrees with the specified outcome `s`.
pub open spec fn args_agree(
    r: Result<Vec<TypedExpr>, LowerError>,
    s: Result<Seq<TypedExpr>, LowerError>,
) -> bool {
    match (r, s) {
        (Ok(v), Ok(lowered)) => v@ == lowered,
        (Err(actual), Err(expected)) => actual == expected,
        _ => false,
    }
}

/// Lowers `expr` against `target`: re-emits every supported internal node and
/// wraps every literal and variable leaf in exactly one coercion to `target`,
/// or reports the first unsupported shape found.
pub fn lower(expr: &Expr, target: Target) -> (r: Result<TypedExpr, LowerError>)
    ensures
        r == lower_spec(*expr, target),
    decreases *expr, 0int,
{
    match expr {
        Expr::Binary(left, op, right) => {
            let lowered_left = match lower(&**left, target) {
                Ok(l) => l,
                Err(e) => {
                    return Err(e);
                },
            };
            let lowered_right = match lower(&**right, target) {
                Ok(l) => l,
                Err(e) => {
                    return Err(e);
                },
            };
            match op {
                BinaryOp::Other => Err(LowerError::UnsupportedOperator),
                _ => Ok(
                    TypedExpr::Binary(Box::new(lowered_left), *op, Box::new(lowered_right)),
                ),
            }
        },
        Expr::Unary(op, operand) => {
            let lowered = match lower(&**operand, target) {
                Ok(l) => l,
                Err(e) => {
                    return Err(e);
                },
            };
            match op {
                UnaryOp::Neg => Ok(TypedExpr::Negate(Box::new(lowered))),
                UnaryOp::Other => Err(LowerError::UnsupportedOperator),
            }
        },
        Expr::Literal(lit) => lower_literal(lit, target),
        Expr::Grouping(inner) => match lower(&**inner, target) {
            Ok(lowered) => Ok(TypedExpr::Grouping(Box::new(lowered))),
            Err(e) => Err(e),
        },
        Expr::Call(name, args) => {
            proof {
                assert(args@.skip(0) =~= args@);
            }
            let mut lowered_args = match lower_args(args, 0, target) {
                Ok(v) => v,
                Err(e) => {
                    return Err(e);
                },
            };
            let is_max = {
                let probe: String = "max".to_owned();
                *name == probe
            };
            let is_min = {
                let probe: String = "min".to_owned();
                *name == probe
            };
            if is_max || is_min {
                if lowered_args.len() == 2 {
                    let second = lowered_args.pop().unwrap();
                    let first = lowered_args.pop().unwrap();
                    let callee = if is_max {
                        Builtin::Max
                    } else {
                        Builtin::Min
                    };
                    Ok(TypedExpr::Call(callee, Box::new(first), Box::new(second)))
                } else {
                    Err(LowerError::UnsupportedCall)
                }
            } else {
                Err(LowerError::UnsupportedCall)
            }
        },
        Expr::Variable(name) => Ok(TypedExpr::Coerce(Leaf::Var(name.clone()), target)),
        Expr::Other => Err(LowerError::UnsupportedExpressionShape),
    }
}

/// Lowers a single literal leaf; see `lower_literal_spec`.
fn lower_literal(lit: &Lit, target: Target) -> (r: Result<TypedExpr, LowerError>)
    ensures
        r == lower_literal_spec(*lit, target),
{
    match lit {
        Lit::Int(text) => match parse_decimal(text.as_str()) {
            Some(value) => {
                let ok = match target {
                    Target::U16 | Target::U32 | Target::U64 | Target::U128 => true,
                    Target::I8 | Target::I16 | Target::I32 | Target::I64 | Target::I128 => true,
                    _ => false,
                };
                if ok {
                    Ok(TypedExpr::Coerce(Leaf::Int(value), target))
                } else {
                    Err(LowerError::UnsupportedLiteralTarget)
                }
            },
            None => Err(LowerError::LiteralParseFailure),
        },
        Lit::Float(text) => match target {
            Target::F32 | Target::F64 => Ok(
                TypedExpr::Coerce(Leaf::Float(text.clone()), target),
            ),
            _ => Err(LowerError::UnsupportedLiteralTarget),
        },
        Lit::Bool(value) => Ok(TypedExpr::Bool(*value)),
        Lit::Other => Err(LowerError::UnsupportedLiteralKind),
    }
}

/// Lowers the arguments of a call from position `start` on, in order,
/// stopping at the first failure.
fn lower_args(args: &Vec<Expr>, start: usize, target: Target) -> (r: Result<
    Vec<TypedExpr>,
    LowerError,
>)
    requires
        start <= args.len(),
    ensures
        args_agree(r, lower_args_spec(args@.skip(start as int), target)),
    decreases *args, args@.len() - start,
{
    if start == args.len() {
        proof {
            assert(args@.skip(start as int) =~= Seq::<Expr>::empty());
        }
        Ok(Vec::new())
    } else {
        proof {
            assert(args@.skip(start as int)[0] == args@[start as int]);
            assert(args@.skip(start as int).drop_first() =~= args@.skip(start as int + 1));
        }
        match lower(&args[start], target) {
            Ok(lowered) => match lower_args(args, start + 1, target) {
                Ok(mut rest) => {
                    rest.insert(0, lowered);
                    Ok(rest)
                },
                Err(e) => Err(e),
            },
            Err(e) => Err(e),
        }
    }
}

} // verus!
