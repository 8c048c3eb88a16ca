use calc_lowering::ast::{
    BinaryOp, Builtin, Expr, Leaf, Lit, LowerError, Target, TypedExpr, UnaryOp,
};
use calc_lowering::digits::parse_decimal;
use calc_lowering::engine::lower;

fn int_lit(digits: &str) -> Expr {
    Expr::Literal(Lit::Int(digits.to_string()))
}

fn var(name: &str) -> Expr {
    Expr::Variable(name.to_string())
}

fn bin(left: Expr, op: BinaryOp, right: Expr) -> Expr {
    Expr::Binary(Box::new(left), op, Box::new(right))
}

fn group(inner: Expr) -> Expr {
    Expr::Grouping(Box::new(inner))
}

fn call(name: &str, args: Vec<Expr>) -> Expr {
    Expr::Call(name.to_string(), args)
}

fn lower_ok(expr: &Expr, target: Target) -> TypedExpr {
    lower(expr, target).unwrap()
}

/// The host's coercion of a 128-bit value to a narrower integer kind.
fn cast(value: i128, target: Target) -> i128 {
    match target {
        Target::I8 => value as i8 as i128,
        Target::I16 => value as i16 as i128,
        Target::I32 => value as i32 as i128,
        Target::I64 => value as i64 as i128,
        Target::I128 => value,
        Target::U8 => value as u8 as i128,
        Target::U16 => value as u16 as i128,
        Target::U32 => value as u32 as i128,
        Target::U64 => value as u64 as i128,
        Target::U128 => value as u128 as i128,
        Target::F32 | Target::F64 => panic!("float targets are not evaluated by this helper"),
    }
}

fn lookup(env: &[(&str, i128)], name: &str) -> i128 {
    for (bound, value) in env {
        if *bound == name {
            return *value;
        }
    }
    panic!("unbound variable {}", name);
}

/// Evaluates a lowered tree the way the host evaluates the re-serialized
/// expression: each coercion casts its leaf to the target kind, operators
/// apply to the coerced values.  Exact for the integer-target cases below,
/// whose intermediate results all fit the target kind.
fn eval(expr: &TypedExpr, env: &[(&str, i128)]) -> i128 {
    match expr {
        TypedExpr::Binary(left, op, right) => {
            let a = eval(left, env);
            let b = eval(right, env);
            match op {
                BinaryOp::Add => a + b,
                BinaryOp::Sub => a - b,
                BinaryOp::Mul => a * b,
                BinaryOp::Div => a / b,
                BinaryOp::Rem => a % b,
                BinaryOp::BitXor => a ^ b,
                BinaryOp::BitAnd => a & b,
                BinaryOp::BitOr => a | b,
                BinaryOp::Shl => a << b,
                BinaryOp::Shr => a >> b,
                BinaryOp::Other => panic!("unsupported operator in lowered tree"),
            }
        }
        TypedExpr::Negate(operand) => -eval(operand, env),
        TypedExpr::Grouping(inner) => eval(inner, env),
        TypedExpr::Call(Builtin::Max, first, second) => eval(first, env).max(eval(second, env)),
        TypedExpr::Call(Builtin::Min, first, second) => eval(first, env).min(eval(second, env)),
        TypedExpr::Coerce(Leaf::Int(value), target) => cast(*value, *target),
        TypedExpr::Coerce(Leaf::Var(name), target) => cast(lookup(env, name), *target),
        TypedExpr::Coerce(Leaf::Float(_), _) => panic!("float leaf in an integer evaluation"),
        TypedExpr::Bool(_) => panic!("boolean leaf in an integer evaluation"),
    }
}

#[test]
fn test_cal_addition() {
    let expr = bin(var("u8::MAX"), BinaryOp::Add, var("u16::MAX"));
    let lowered = lower_ok(&expr, Target::U32);
    let result = eval(&lowered, &[("u8::MAX", 255), ("u16::MAX", 65535)]);
    assert_eq!(result, 65790);
}

#[test]
fn test_cal_subtraction() {
    let expr = bin(int_lit("30"), BinaryOp::Sub, int_lit("10"));
    let lowered = lower_ok(&expr, Target::U16);
    assert_eq!(eval(&lowered, &[]), 20);
}

#[test]
fn test_cal_multiplication() {
    let expr = bin(int_lit("5"), BinaryOp::Mul, int_lit("6"));
    let lowered = lower_ok(&expr, Target::U32);
    assert_eq!(eval(&lowered, &[]), 30);
}

#[test]
fn test_cal_division() {
    let expr = bin(int_lit("20"), BinaryOp::Div, int_lit("4"));
    let lowered = lower_ok(&expr, Target::U16);
    assert_eq!(eval(&lowered, &[]), 5);
}

#[test]
fn test_cal_remainder() {
    let expr = bin(int_lit("20"), BinaryOp::Rem, int_lit("7"));
    let lowered = lower_ok(&expr, Target::U16);
    assert_eq!(eval(&lowered, &[]), 6);
}

#[test]
fn test_cal_variable() {
    let expr = bin(var("a"), BinaryOp::Add, int_lit("10"));
    let lowered = lower_ok(&expr, Target::U16);
    let result = eval(&lowered, &[("a", 255)]);
    assert_eq!(result, 265);
}

#[test]
fn test_cal_nested_expression() {
    let expr = bin(
        group(bin(int_lit("10"), BinaryOp::Add, int_lit("20"))),
        BinaryOp::Mul,
        int_lit("2"),
    );
    let lowered = lower_ok(&expr, Target::U32);
    assert_eq!(eval(&lowered, &[]), 60);
}

#[test]
fn test_cal_function_call() {
    let expr = call("max", vec![int_lit("10"), int_lit("20")]);
    let lowered = lower_ok(&expr, Target::U16);
    assert_eq!(eval(&lowered, &[]), 20);
}

#[test]
fn test_cal_negative_value() {
    let expr = Expr::Unary(UnaryOp::Neg, Box::new(int_lit("10")));
    let lowered = lower_ok(&expr, Target::I16);
    assert_eq!(eval(&lowered, &[]), -10);
}

#[test]
fn min_call_picks_smaller_operand() {
    let expr = call("min", vec![int_lit("10"), int_lit("20")]);
    let lowered = lower_ok(&expr, Target::U16);
    assert_eq!(eval(&lowered, &[]), 10);
}

#[test]
fn unknown_callee_is_rejected() {
    let expr = call("abs", vec![int_lit("10")]);
    assert_eq!(lower(&expr, Target::U32), Err(LowerError::UnsupportedCall));
}

#[test]
fn wrong_arity_is_rejected() {
    let one = call("max", vec![int_lit("10")]);
    assert_eq!(lower(&one, Target::U32), Err(LowerError::UnsupportedCall));
    let three = call("min", vec![int_lit("1"), int_lit("2"), int_lit("3")]);
    assert_eq!(lower(&three, Target::U32), Err(LowerError::UnsupportedCall));
}

#[test]
fn unsupported_binary_operator_is_rejected() {
    let expr = bin(int_lit("1"), BinaryOp::Other, int_lit("2"));
    assert_eq!(lower(&expr, Target::U32), Err(LowerError::UnsupportedOperator));
}

#[test]
fn unsupported_unary_operator_is_rejected() {
    let expr = Expr::Unary(UnaryOp::Other, Box::new(int_lit("1")));
    assert_eq!(lower(&expr, Target::U32), Err(LowerError::UnsupportedOperator));
}

#[test]
fn operand_failure_wins_over_operator_failure() {
    let expr = bin(Expr::Other, BinaryOp::Other, int_lit("1"));
    assert_eq!(
        lower(&expr, Target::U32),
        Err(LowerError::UnsupportedExpressionShape)
    );
}

#[test]
fn bad_argument_wins_over_bad_callee() {
    let expr = call("abs", vec![Expr::Other]);
    assert_eq!(
        lower(&expr, Target::U32),
        Err(LowerError::UnsupportedExpressionShape)
    );
}

#[test]
fn boolean_literal_passes_through_uncoerced() {
    for target in [Target::U32, Target::I8, Target::F32] {
        let expr = Expr::Literal(Lit::Bool(true));
        assert_eq!(lower(&expr, target), Ok(TypedExpr::Bool(true)));
    }
}

#[test]
fn integer_literal_accepts_only_the_nine_integer_targets() {
    let accepted = [
        Target::U16,
        Target::U32,
        Target::U64,
        Target::U128,
        Target::I8,
        Target::I16,
        Target::I32,
        Target::I64,
        Target::I128,
    ];
    for target in accepted {
        assert_eq!(
            lower(&int_lit("7"), target),
            Ok(TypedExpr::Coerce(Leaf::Int(7), target))
        );
    }
    for target in [Target::U8, Target::F32, Target::F64] {
        assert_eq!(
            lower(&int_lit("7"), target),
            Err(LowerError::UnsupportedLiteralTarget)
        );
    }
}

#[test]
fn float_literal_accepts_only_the_two_float_targets() {
    let expr = Expr::Literal(Lit::Float("2.5".to_string()));
    assert_eq!(
        lower(&expr, Target::F32),
        Ok(TypedExpr::Coerce(Leaf::Float("2.5".to_string()), Target::F32))
    );
    assert_eq!(
        lower(&expr, Target::F64),
        Ok(TypedExpr::Coerce(Leaf::Float("2.5".to_string()), Target::F64))
    );
    for target in [Target::U32, Target::I128, Target::U8] {
        assert_eq!(lower(&expr, target), Err(LowerError::UnsupportedLiteralTarget));
    }
}

#[test]
fn other_literal_kind_is_rejected() {
    let expr = Expr::Literal(Lit::Other);
    assert_eq!(
        lower(&expr, Target::U32),
        Err(LowerError::UnsupportedLiteralKind)
    );
}

#[test]
fn other_expression_shape_is_rejected() {
    assert_eq!(
        lower(&Expr::Other, Target::U32),
        Err(LowerError::UnsupportedExpressionShape)
    );
}

#[test]
fn variable_is_coerced_to_any_target() {
    for target in [Target::U8, Target::I128, Target::F64] {
        let expr = var("x");
        assert_eq!(
            lower(&expr, target),
            Ok(TypedExpr::Coerce(Leaf::Var("x".to_string()), target))
        );
    }
}

#[test]
fn accumulator_holds_the_widest_literal() {
    let max_digits = "170141183460469231731687303715884105727";
    assert_eq!(parse_decimal(max_digits), Some(i128::MAX));
    assert_eq!(
        lower(&int_lit(max_digits), Target::I128),
        Ok(TypedExpr::Coerce(Leaf::Int(i128::MAX), Target::I128))
    );
}

#[test]
fn accumulator_overflow_is_a_parse_failure() {
    let too_big = "170141183460469231731687303715884105728";
    assert_eq!(parse_decimal(too_big), None);
    assert_eq!(
        lower(&int_lit(too_big), Target::I128),
        Err(LowerError::LiteralParseFailure)
    );
}

#[test]
fn malformed_digits_are_a_parse_failure() {
    // the last two exercise non-digit ASCII and non-ASCII text
    for text in ["", "1a2", "-10", " 7", "9\u{7f}", "\u{661}\u{662}"] {
        assert_eq!(parse_decimal(text), None);
        assert_eq!(
            lower(&int_lit(text), Target::U32),
            Err(LowerError::LiteralParseFailure)
        );
    }
}

#[test]
fn leading_zeros_are_plain_decimal() {
    assert_eq!(parse_decimal("007"), Some(7));
    assert_eq!(parse_decimal("0"), Some(0));
}

#[test]
fn lowering_is_deterministic() {
    let build = || {
        bin(
            group(bin(var("a"), BinaryOp::Add, int_lit("20"))),
            BinaryOp::Mul,
            call("max", vec![int_lit("3"), var("b")]),
        )
    };
    let first = lower(&build(), Target::I64);
    let second = lower(&build(), Target::I64);
    assert_eq!(first, second);
}

#[test]
fn lowered_tree_echoes_the_input_shape() {
    let expr = bin(
        group(bin(int_lit("10"), BinaryOp::Add, int_lit("20"))),
        BinaryOp::Mul,
        int_lit("2"),
    );
    let expected = TypedExpr::Binary(
        Box::new(TypedExpr::Grouping(Box::new(TypedExpr::Binary(
            Box::new(TypedExpr::Coerce(Leaf::Int(10), Target::U32)),
            BinaryOp::Add,
            Box::new(TypedExpr::Coerce(Leaf::Int(20), Target::U32)),
        )))),
        BinaryOp::Mul,
        Box::new(TypedExpr::Coerce(Leaf::Int(2), Target::U32)),
    );
    assert_eq!(lower(&expr, Target::U32), Ok(expected));
}

#[test]
fn call_arguments_keep_their_order() {
    let expr = call("min", vec![var("lo"), var("hi")]);
    let expected = TypedExpr::Call(
        Builtin::Min,
        Box::new(TypedExpr::Coerce(Leaf::Var("lo".to_string()), Target::U64)),
        Box::new(TypedExpr::Coerce(Leaf::Var("hi".to_string()), Target::U64)),
    );
    assert_eq!(lower(&expr, Target::U64), Ok(expected));
}

#[test]
fn bitwise_and_shift_operators_are_supported() {
    let ops = [
        (BinaryOp::BitXor, 6 ^ 3),
        (BinaryOp::BitAnd, 6 & 3),
        (BinaryOp::BitOr, 6 | 3),
        (BinaryOp::Shl, 6 << 3),
        (BinaryOp::Shr, 6 >> 3),
    ];
    for (op, expected) in ops {
        let expr = bin(int_lit("6"), op, int_lit("3"));
        let lowered = lower_ok(&expr, Target::U32);
        assert_eq!(eval(&lowered, &[]), expected);
    }
}
