//! Laws of the lowering engine, stated over `lower_spec` and proved once for
//! all inputs: shape preservation, leaf coercion, determinism, the
//! target-type restrictions on literals, and boolean pass-through.

use vstd::prelude::*;

use crate::ast::{Expr, Leaf, Lit, LowerError, Target, TypedExpr};
use crate::digits::parse_decimal_spec;
use crate::engine::{lower_args_spec, lower_literal_spec, lower_spec};

verus! {

/// Whether the output tree `out` is a structural echo of the input tree `e`:
/// the same operator at each internal node, the same arity everywhere, and
/// each leaf turned into a leaf of the matching kind — a coercion wrapper for
/// integer, float and variable leaves, a bare boolean for boolean leaves.
pub open spec fn same_shape(e: Expr, out: TypedExpr) -> bool
    decreases e,
{
    match (e, out) {
        (Expr::Binary(left, op, right), TypedExpr::Binary(out_left, out_op, out_right)) => {
            out_op == op && same_shape(*left, *out_left) && same_shape(*right, *out_right)
        },
        (Expr::Unary(_, operand), TypedExpr::Negate(out_operand)) => {
            same_shape(*operand, *out_operand)
        },
        (Expr::Literal(Lit::Int(_)), TypedExpr::Coerce(Leaf::Int(_), _)) => true,
        (Expr::Literal(Lit::Float(_)), TypedExpr::Coerce(Leaf::Float(_), _)) => true,
        (Expr::Literal(Lit::Bool(value)), TypedExpr::Bool(out_value)) => out_value == value,
        (Expr::Grouping(inner), TypedExpr::Grouping(out_inner)) => {
            same_shape(*inner, *out_inner)
        },
        (Expr::Call(_, args), TypedExpr::Call(_, first, second)) => {
            args@.len() == 2 && same_shape(args@[0], *first) && same_shape(args@[1], *second)
        },
        (Expr::Variable(_), TypedExpr::Coerce(Leaf::Var(_), _)) => true,
        _ => false,
    }
}

/// Whether every coercion wrapper in `out` names the target `target`.
/// A `Coerce` node wraps a bare `Leaf` by construction, so no leaf can carry
/// more than one wrapper; this predicate pins the one wrapper's target.
pub open spec fn coerced_to(out: TypedExpr, target: Target) -> bool
    decreases out,
{
    match out {
        TypedExpr::Binary(left, _, right) => {
            coerced_to(*left, target) && coerced_to(*right, target)
        },
        TypedExpr::Negate(operand) => coerced_to(*operand, target),
        TypedExpr::Grouping(inner) => coerced_to(*inner, target),
        TypedExpr::Call(_, first, second) => {
            coerced_to(*first, target) && coerced_to(*second, target)
        },
        TypedExpr::Coerce(_, coercion_target) => coercion_target == target,
        TypedExpr::Bool(_) => true,
    }
}

/// A successful run of the argument lowering yields one lowered tree per
/// argument, each exactly what `lower_spec` yields for that argument.
pub proof fn lemma_lower_args_pointwise(args: Seq<Expr>, target: Target)
    requires
        lower_args_spec(args, target) is Ok,
    ensures
        lower_args_spec(args, target)->Ok_0.len() == args.len(),
        forall|i: int|
            0 <= i < args.len() ==> lower_spec(#[trigger] args[i], target) is Ok
                && lower_args_spec(args, target)->Ok_0[i] == lower_spec(args[i], target)->Ok_0,
    decreases args,
{
    if args.len() > 0 {
        lemma_lower_args_pointwise(args.drop_first(), target);
        assert(forall|i: int|
            1 <= i < args.len() ==> args.drop_first()[i - 1] == #[trigger] args[i]);
    }
}

/// Shape preservation: whenever lowering succeeds, the output tree is a
/// structural echo of the input tree — same operator at each internal node,
/// same arity; only the leaves differ.
pub proof fn lemma_lower_preserves_shape(e: Expr, target: Target)
    requires
        lower_spec(e, target) is Ok,
    ensures
        same_shape(e, lower_spec(e, target)->Ok_0),
    decreases e,
{
    match e {
        Expr::Binary(left, _, right) => {
            lemma_lower_preserves_shape(*left, target);
            lemma_lower_preserves_shape(*right, target);
        },
        Expr::Unary(_, operand) => {
            lemma_lower_preserves_shape(*operand, target);
        },
        Expr::Grouping(inner) => {
            lemma_lower_preserves_shape(*inner, target);
        },
        Expr::Call(_, args) => {
            lemma_lower_args_pointwise(args@, target);
            lemma_lower_preserves_shape(args@[0], target);
            lemma_lower_preserves_shape(args@[1], target);
        },
        _ => {},
    }
}

/// Leaf coercion totality: whenever lowering succeeds, every coercion wrapper
/// in the output names the declared target type, and by `same_shape` every
/// integer, float and variable leaf of the input sits under such a wrapper.
pub proof fn lemma_lower_coerces_to_target(e: Expr, target: Target)
    requires
        lower_spec(e, target) is Ok,
    ensures
        coerced_to(lower_spec(e, target)->Ok_0, target),
    decreases e,
{
    match e {
        Expr::Binary(left, _, right) => {
            lemma_lower_coerces_to_target(*left, target);
            lemma_lower_coerces_to_target(*right, target);
        },
        Expr::Unary(_, operand) => {
            lemma_lower_coerces_to_target(*operand, target);
        },
        Expr::Grouping(inner) => {
            lemma_lower_coerces_to_target(*inner, target);
        },
        Expr::Call(_, args) => {
            lemma_lower_args_pointwise(args@, target);
            lemma_lower_coerces_to_target(args@[0], target);
            lemma_lower_coerces_to_target(args@[1], target);
        },
        _ => {},
    }
}

/// Determinism: the outcome of lowering is a function of the expression and
/// the target alone.  Together with `lower`'s postcondition, two calls of the
/// engine on equal inputs return structurally identical outcomes.
pub proof fn lemma_lower_deterministic(e1: Expr, e2: Expr, t1: Target, t2: Target)
    requires
        e1 == e2,
        t1 == t2,
    ensures
        lower_spec(e1, t1) == lower_spec(e2, t2),
{
}

/// Target-type restriction for integer literals: for parseable digit text,
/// lowering succeeds for exactly the nine integer target kinds and fails with
/// `UnsupportedLiteralTarget` for every other target.
pub proof fn lemma_int_literal_target_restriction(text: String, target: Target)
    requires
        parse_decimal_spec(text@) is Some,
    ensures
        lower_spec(Expr::Literal(Lit::Int(text)), target) is Ok
            <==> target.is_int_literal_target(),
        !target.is_int_literal_target() ==> lower_spec(Expr::Literal(Lit::Int(text)), target)
            == Result::<TypedExpr, LowerError>::Err(LowerError::UnsupportedLiteralTarget),
{
}

/// Target-type restriction for float literals: lowering succeeds for exactly
/// the two float target kinds and fails with `UnsupportedLiteralTarget` for
/// every other target.
pub proof fn lemma_float_literal_target_restriction(text: String, target: Target)
    ensures
        lower_spec(Expr::Literal(Lit::Float(text)), target) is Ok
            <==> target.is_float_literal_target(),
        !target.is_float_literal_target() ==> lower_spec(Expr::Literal(Lit::Float(text)), target)
            == Result::<TypedExpr, LowerError>::Err(LowerError::UnsupportedLiteralTarget),
{
}

/// Boolean pass-through: a boolean literal is emitted unchanged — never
/// wrapped in a coercion — whatever the target type.
pub proof fn lemma_bool_passthrough(value: bool, target: Target)
    ensures
        lower_spec(Expr::Literal(Lit::Bool(value)), target) == Result::<
            TypedExpr,
            LowerError,
        >::Ok(TypedExpr::Bool(value)),
{
}

} // verus!
