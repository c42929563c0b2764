use interp::ast::Expression::{
    Add, And, CFalse, CInt, CReal, CString, CTrue, Div, Mul, Not, Or, Sub, Var, EQ, GT, GTE, LT,
    LTE,
};
use interp::ast::Statement;
use interp::environment::Environment;
use interp::interpreter::{add_mixed_commutes, eval, execute};

#[test]
fn add_commutes_for_integers() {
    let env = Environment::new();
    let one = eval(Add(Box::new(CInt(7)), Box::new(CInt(35))), &env);
    let other = eval(Add(Box::new(CInt(35)), Box::new(CInt(7))), &env);
    assert_eq!(one, other);
    assert_eq!(one, Ok(CInt(42)));
}

#[test]
fn add_commutes_for_mixed_operands() {
    let env = Environment::new();
    let one = eval(
        Add(Box::new(CInt(10)), Box::new(CReal(20.5f64.to_bits()))),
        &env,
    );
    let other = eval(
        Add(Box::new(CReal(20.5f64.to_bits())), Box::new(CInt(10))),
        &env,
    );
    assert_eq!(one, other);
    assert_eq!(one, Ok(CReal(30.5f64.to_bits())));
}

#[test]
fn add_mixed_commutes_both_orders() {
    let env = Environment::new();
    let (one, other) = add_mixed_commutes(3, 1.25f64.to_bits(), &env);
    assert_eq!(one, other);
    assert_eq!(one, Ok(CReal(4.25f64.to_bits())));
}

#[test]
fn div_truncates_toward_zero_for_negatives() {
    let env = Environment::new();
    assert_eq!(
        eval(Div(Box::new(CInt(-10)), Box::new(CInt(3))), &env),
        Ok(CInt(-3))
    );
    assert_eq!(
        eval(Div(Box::new(CInt(10)), Box::new(CInt(-3))), &env),
        Ok(CInt(-3))
    );
    assert_eq!(
        eval(Div(Box::new(CInt(-10)), Box::new(CInt(-3))), &env),
        Ok(CInt(3))
    );
}

#[test]
fn div_by_zero_follows_the_cast_rules() {
    let env = Environment::new();
    assert_eq!(
        eval(Div(Box::new(CInt(10)), Box::new(CInt(0))), &env),
        Ok(CInt(i32::MAX))
    );
    assert_eq!(
        eval(Div(Box::new(CInt(-10)), Box::new(CInt(0))), &env),
        Ok(CInt(i32::MIN))
    );
    assert_eq!(
        eval(Div(Box::new(CInt(0)), Box::new(CInt(0))), &env),
        Ok(CInt(0))
    );
}

#[test]
fn integer_overflow_saturates() {
    let env = Environment::new();
    assert_eq!(
        eval(Add(Box::new(CInt(i32::MAX)), Box::new(CInt(1))), &env),
        Ok(CInt(i32::MAX))
    );
    assert_eq!(
        eval(Sub(Box::new(CInt(i32::MIN)), Box::new(CInt(1))), &env),
        Ok(CInt(i32::MIN))
    );
    assert_eq!(
        eval(Mul(Box::new(CInt(65536)), Box::new(CInt(65536))), &env),
        Ok(CInt(i32::MAX))
    );
    assert_eq!(
        eval(Div(Box::new(CInt(i32::MIN)), Box::new(CInt(-1))), &env),
        Ok(CInt(i32::MAX))
    );
}

#[test]
fn mixed_division_promotes_to_real() {
    let env = Environment::new();
    assert_eq!(
        eval(Div(Box::new(CReal(7.5f64.to_bits())), Box::new(CInt(2))), &env),
        Ok(CReal(3.75f64.to_bits()))
    );
}

#[test]
fn and_is_eager_but_type_checks() {
    let env = Environment::new();
    assert_eq!(
        eval(And(Box::new(CTrue), Box::new(CFalse)), &env),
        Ok(CFalse)
    );
    assert_eq!(
        eval(And(Box::new(CTrue), Box::new(CInt(1))), &env),
        Err(String::from("'and' is only defined for booleans."))
    );
    assert_eq!(
        eval(And(Box::new(CFalse), Box::new(CInt(1))), &env),
        Err(String::from("'and' is only defined for booleans."))
    );
}

#[test]
fn or_is_eager_but_type_checks() {
    let env = Environment::new();
    assert_eq!(eval(Or(Box::new(CFalse), Box::new(CTrue)), &env), Ok(CTrue));
    assert_eq!(
        eval(Or(Box::new(CTrue), Box::new(CInt(1))), &env),
        Err(String::from("'or' is only defined for booleans."))
    );
}

#[test]
fn not_negates_booleans_only() {
    let env = Environment::new();
    assert_eq!(eval(Not(Box::new(CTrue)), &env), Ok(CFalse));
    assert_eq!(eval(Not(Box::new(CFalse)), &env), Ok(CTrue));
    assert_eq!(
        eval(Not(Box::new(CInt(1))), &env),
        Err(String::from("'not' is only defined for booleans."))
    );
}

#[test]
fn equality_crosses_representations() {
    let env = Environment::new();
    assert_eq!(
        eval(
            EQ(Box::new(CInt(10)), Box::new(CReal(10.0f64.to_bits()))),
            &env
        ),
        Ok(CTrue)
    );
    assert_eq!(
        eval(
            EQ(Box::new(CReal(10.5f64.to_bits())), Box::new(CInt(10))),
            &env
        ),
        Ok(CFalse)
    );
}

#[test]
fn relational_operators_on_integers() {
    let env = Environment::new();
    assert_eq!(eval(GT(Box::new(CInt(3)), Box::new(CInt(2))), &env), Ok(CTrue));
    assert_eq!(eval(LT(Box::new(CInt(3)), Box::new(CInt(2))), &env), Ok(CFalse));
    assert_eq!(
        eval(GTE(Box::new(CInt(2)), Box::new(CInt(2))), &env),
        Ok(CTrue)
    );
    assert_eq!(
        eval(LTE(Box::new(CInt(2)), Box::new(CInt(3))), &env),
        Ok(CTrue)
    );
    assert_eq!(eval(EQ(Box::new(CInt(2)), Box::new(CInt(3))), &env), Ok(CFalse));
}

#[test]
fn relational_operators_on_mixed_operands() {
    let env = Environment::new();
    assert_eq!(
        eval(
            GT(Box::new(CReal(2.5f64.to_bits())), Box::new(CInt(2))),
            &env
        ),
        Ok(CTrue)
    );
    assert_eq!(
        eval(
            LTE(Box::new(CInt(2)), Box::new(CReal(2.5f64.to_bits()))),
            &env
        ),
        Ok(CTrue)
    );
    assert_eq!(
        eval(
            GTE(Box::new(CInt(2)), Box::new(CReal(2.5f64.to_bits()))),
            &env
        ),
        Ok(CFalse)
    );
    assert_eq!(
        eval(
            LT(Box::new(CReal(2.5f64.to_bits())), Box::new(CInt(2))),
            &env
        ),
        Ok(CFalse)
    );
}

#[test]
fn arithmetic_rejects_non_numbers() {
    let env = Environment::new();
    assert_eq!(
        eval(Add(Box::new(CTrue), Box::new(CInt(1))), &env),
        Err(String::from(
            "addition '(+)' is only defined for numbers (integers and real)."
        ))
    );
    assert_eq!(
        eval(
            Sub(Box::new(CString(String::from("a"))), Box::new(CInt(1))),
            &env
        ),
        Err(String::from(
            "subtraction '(-)' is only defined for numbers (integers and real)."
        ))
    );
    assert_eq!(
        eval(Mul(Box::new(CInt(1)), Box::new(CFalse)), &env),
        Err(String::from(
            "multiplication '(*)' is only defined for numbers (integers and real)."
        ))
    );
    assert_eq!(
        eval(Div(Box::new(CInt(1)), Box::new(CTrue)), &env),
        Err(String::from(
            "division '(/)' is only defined for numbers (integers and real)."
        ))
    );
}

#[test]
fn relational_rejects_non_numbers() {
    let env = Environment::new();
    assert_eq!(
        eval(
            EQ(
                Box::new(CString(String::from("a"))),
                Box::new(CString(String::from("a")))
            ),
            &env
        ),
        Err(String::from(
            "(==) is only defined for numbers (integers and real)."
        ))
    );
    assert_eq!(
        eval(GT(Box::new(CTrue), Box::new(CInt(1))), &env),
        Err(String::from(
            "(>) is only defined for numbers (integers and real)."
        ))
    );
    assert_eq!(
        eval(LT(Box::new(CTrue), Box::new(CInt(1))), &env),
        Err(String::from(
            "(<) is only defined for numbers (integers and real)."
        ))
    );
    assert_eq!(
        eval(GTE(Box::new(CTrue), Box::new(CInt(1))), &env),
        Err(String::from(
            "(>=) is only defined for numbers (integers and real)."
        ))
    );
    assert_eq!(
        eval(LTE(Box::new(CTrue), Box::new(CInt(1))), &env),
        Err(String::from(
            "(<=) is only defined for numbers (integers and real)."
        ))
    );
}

#[test]
fn string_constants_evaluate_to_themselves() {
    let env = Environment::new();
    assert_eq!(
        eval(CString(String::from("hello")), &env),
        Ok(CString(String::from("hello")))
    );
}

#[test]
fn if_then_else_takes_the_false_branch() {
    let env = Environment::new();

    let condition = GT(Box::new(Var(String::from("x"))), Box::new(CInt(5)));
    let then_stmt = Statement::Assignment(Box::new(String::from("y")), Box::new(CInt(1)));
    let else_stmt = Statement::Assignment(Box::new(String::from("y")), Box::new(CInt(0)));

    let if_statement = Statement::IfThenElse(
        Box::new(condition),
        Box::new(then_stmt),
        Box::new(else_stmt),
    );

    let setup_stmt = Statement::Assignment(Box::new(String::from("x")), Box::new(CInt(3)));
    let program = Statement::Sequence(Box::new(setup_stmt), Box::new(if_statement));

    match execute(program, env) {
        Ok(new_env) => assert_eq!(new_env.get("y"), Some(&CInt(0))),
        Err(s) => assert!(false, "{}", s),
    }
}

#[test]
fn if_condition_must_be_boolean() {
    let env = Environment::new();
    let s = Statement::IfThenElse(
        Box::new(CInt(1)),
        Box::new(Statement::Assignment(
            Box::new(String::from("y")),
            Box::new(CInt(1)),
        )),
        Box::new(Statement::Assignment(
            Box::new(String::from("y")),
            Box::new(CInt(0)),
        )),
    );
    assert!(matches!(
        execute(s, env),
        Err(m) if m == "expecting a boolean value."
    ));
}

#[test]
fn while_condition_must_be_boolean() {
    let env = Environment::new();
    let s = Statement::While(
        Box::new(CInt(1)),
        Box::new(Statement::Assignment(
            Box::new(String::from("y")),
            Box::new(CInt(1)),
        )),
    );
    assert!(matches!(
        execute(s, env),
        Err(m) if m == "expecting a boolean value."
    ));
}

#[test]
fn declarations_are_not_implemented() {
    let env = Environment::new();
    let s = Statement::VarDeclaration(Box::new(String::from("x")));
    assert!(matches!(execute(s, env), Err(m) if m == "not implemented yet"));
    let env = Environment::new();
    let s = Statement::ValDeclaration(Box::new(String::from("x")));
    assert!(matches!(execute(s, env), Err(m) if m == "not implemented yet"));
}

#[test]
fn sequence_failure_short_circuits() {
    let env = Environment::new();
    let s = Statement::Sequence(
        Box::new(Statement::Assignment(
            Box::new(String::from("x")),
            Box::new(Var(String::from("nope"))),
        )),
        Box::new(Statement::Assignment(
            Box::new(String::from("y")),
            Box::new(CInt(1)),
        )),
    );
    assert!(matches!(
        execute(s, env),
        Err(m) if m == "Variable nope not found"
    ));
}

#[test]
fn assignment_overwrites_and_keeps_other_bindings() {
    let env = Environment::new();
    let program = Statement::Sequence(
        Box::new(Statement::Sequence(
            Box::new(Statement::Assignment(
                Box::new(String::from("x")),
                Box::new(CInt(1)),
            )),
            Box::new(Statement::Assignment(
                Box::new(String::from("y")),
                Box::new(CInt(9)),
            )),
        )),
        Box::new(Statement::Assignment(
            Box::new(String::from("x")),
            Box::new(CInt(2)),
        )),
    );
    match execute(program, env) {
        Ok(new_env) => {
            assert_eq!(new_env.get("x"), Some(&CInt(2)));
            assert_eq!(new_env.get("y"), Some(&CInt(9)));
            assert_eq!(new_env.get("z"), None);
        }
        Err(s) => assert!(false, "{}", s),
    }
}

#[test]
fn real_arithmetic_matches_ieee_binary64() {
    let env = Environment::new();
    assert_eq!(
        eval(
            Add(
                Box::new(CReal(0.1f64.to_bits())),
                Box::new(CReal(0.2f64.to_bits()))
            ),
            &env
        ),
        Ok(CReal((0.1f64 + 0.2f64).to_bits()))
    );
    assert_eq!(
        eval(
            Div(
                Box::new(CReal(1.0f64.to_bits())),
                Box::new(CReal(3.0f64.to_bits()))
            ),
            &env
        ),
        Ok(CReal((1.0f64 / 3.0f64).to_bits()))
    );
    assert_eq!(
        eval(
            Mul(
                Box::new(CReal(0.1f64.to_bits())),
                Box::new(CReal(0.3f64.to_bits()))
            ),
            &env
        ),
        Ok(CReal((0.1f64 * 0.3f64).to_bits()))
    );
    assert_eq!(
        eval(
            Sub(
                Box::new(CReal(1.5f64.to_bits())),
                Box::new(CReal(2.25f64.to_bits()))
            ),
            &env
        ),
        Ok(CReal((1.5f64 - 2.25f64).to_bits()))
    );
}

#[test]
fn integer_promotion_matches_the_cast() {
    let env = Environment::new();
    assert_eq!(
        eval(
            Add(
                Box::new(CInt(i32::MAX)),
                Box::new(CReal(0.5f64.to_bits()))
            ),
            &env
        ),
        Ok(CReal((i32::MAX as f64 + 0.5f64).to_bits()))
    );
}

#[test]
fn nan_compares_unequal_to_everything() {
    let env = Environment::new();
    let nan = f64::NAN.to_bits();
    assert_eq!(
        eval(EQ(Box::new(CReal(nan)), Box::new(CReal(nan))), &env),
        Ok(CFalse)
    );
    assert_eq!(
        eval(LT(Box::new(CReal(nan)), Box::new(CInt(0))), &env),
        Ok(CFalse)
    );
    assert_eq!(
        eval(GTE(Box::new(CReal(nan)), Box::new(CInt(0))), &env),
        Ok(CFalse)
    );
}
