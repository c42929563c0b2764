use interp::ast::Expression::{Add, CInt, CReal, Div, Mul, Sub, Var, GT};
use interp::ast::Statement;
use interp::environment::Environment;
use interp::interpreter::{eval, execute};

#[test]
fn eval_constant() {
    let env = Environment::new();
    let c10 = CInt(10);
    let c20 = CInt(20);

    assert_eq!(eval(c10, &env), Ok(CInt(10)));
    assert_eq!(eval(c20, &env), Ok(CInt(20)));
}

#[test]
fn eval_add_expression1() {
    let env = Environment::new();
    let c10 = CInt(10);
    let c20 = CInt(20);
    let add1 = Add(Box::new(c10), Box::new(c20));
    assert_eq!(eval(add1, &env), Ok(CInt(30)));
}

#[test]
fn eval_add_expression2() {
    let env = Environment::new();
    let c10 = CInt(10);
    let c20 = CInt(20);
    let c30 = CInt(30);
    let add1 = Add(Box::new(c10), Box::new(c20));
    let add2 = Add(Box::new(add1), Box::new(c30));
    assert_eq!(eval(add2, &env), Ok(CInt(60)));
}

#[test]
fn eval_add_expression3() {
    let env = Environment::new();
    let c10 = CInt(10);
    let c20 = CReal(20.5f64.to_bits());
    let add1 = Add(Box::new(c10), Box::new(c20));
    assert_eq!(eval(add1, &env), Ok(CReal(30.5f64.to_bits())));
}

#[test]
fn eval_sub_expression1() {
    let env = Environment::new();
    let c10 = CInt(10);
    let c20 = CInt(20);
    let sub1 = Sub(Box::new(c20), Box::new(c10));
    assert_eq!(eval(sub1, &env), Ok(CInt(10)));
}

#[test]
fn eval_sub_expression2() {
    let env = Environment::new();
    let c100 = CInt(100);
    let c200 = CInt(300);
    let sub1 = Sub(Box::new(c200), Box::new(c100));
    assert_eq!(eval(sub1, &env), Ok(CInt(200)));
}

#[test]
fn eval_sub_expression3() {
    let env = Environment::new();
    let c100 = CReal(100.5f64.to_bits());
    let c300 = CInt(300);
    let sub1 = Sub(Box::new(c300), Box::new(c100));
    assert_eq!(eval(sub1, &env), Ok(CReal(199.5f64.to_bits())));
}

#[test]
fn eval_mul_expression1() {
    let env = Environment::new();
    let c10 = CInt(10);
    let c20 = CInt(20);
    let mul1 = Mul(Box::new(c10), Box::new(c20));
    assert_eq!(eval(mul1, &env), Ok(CInt(200)));
}

#[test]
fn eval_mul_expression2() {
    let env = Environment::new();
    let c10 = CReal(10.5f64.to_bits());
    let c20 = CInt(20);
    let mul1 = Mul(Box::new(c10), Box::new(c20));
    assert_eq!(eval(mul1, &env), Ok(CReal(210.0f64.to_bits())));
}

#[test]
fn eval_div_expression1() {
    let env = Environment::new();
    let c10 = CInt(10);
    let c20 = CInt(20);
    let div1 = Div(Box::new(c20), Box::new(c10));
    assert_eq!(eval(div1, &env), Ok(CInt(2)));
}

#[test]
fn eval_div_expression2() {
    let env = Environment::new();
    let c10 = CInt(10);
    let c3 = CInt(3);
    let div1 = Div(Box::new(c10), Box::new(c3));
    assert_eq!(eval(div1, &env), Ok(CInt(3)));
}

#[test]
fn eval_div_expression3() {
    let env = Environment::new();
    let c3 = CInt(3);
    let c21 = CInt(21);
    let div1 = Div(Box::new(c21), Box::new(c3));
    assert_eq!(eval(div1, &env), Ok(CInt(7)));
}

#[test]
fn eval_div_expression4() {
    let env = Environment::new();
    let c10 = CInt(10);
    let c3 = CReal(3.0f64.to_bits());
    let div1 = Div(Box::new(c10), Box::new(c3));
    let res = eval(div1, &env);
    match res {
        Ok(CReal(bits)) => {
            let v = f64::from_bits(bits);
            assert!((v - 3.3333333333333335).abs() <= f64::EPSILON);
        }
        Err(msg) => assert!(false, "{}", msg),
        _ => assert!(false, "Not expected."),
    }
}

#[test]
fn eval_variable() {
    let mut env = Environment::new();
    env.insert(String::from("x"), CInt(10));
    env.insert(String::from("y"), CInt(20));
    let v1 = Var(String::from("x"));
    let v2 = Var(String::from("y"));
    assert_eq!(eval(v1, &env), Ok(CInt(10)));
    assert_eq!(eval(v2, &env), Ok(CInt(20)));
}

#[test]
fn eval_expression_with_variables() {
    let mut env = Environment::new();
    env.insert(String::from("a"), CInt(5));
    env.insert(String::from("b"), CInt(3));
    let expr = Mul(
        Box::new(Var(String::from("a"))),
        Box::new(Add(Box::new(Var(String::from("b"))), Box::new(CInt(2)))),
    );
    assert_eq!(eval(expr, &env), Ok(CInt(25)));
}

#[test]
fn eval_nested_expressions() {
    let env = Environment::new();
    let expr = Add(
        Box::new(Mul(Box::new(CInt(2)), Box::new(CInt(3)))),
        Box::new(Sub(Box::new(CInt(10)), Box::new(CInt(4)))),
    );
    assert_eq!(eval(expr, &env), Ok(CInt(12)));
}

#[test]
fn eval_variable_not_found() {
    let env = Environment::new();
    let var_expr = Var(String::from("z"));

    assert_eq!(
        eval(var_expr, &env),
        Err(String::from("Variable z not found"))
    );
}

#[test]
fn execute_assignment() {
    let env = Environment::new();
    let assign_stmt = Statement::Assignment(Box::from(String::from("x")), Box::new(CInt(42)));

    match execute(assign_stmt, env) {
        Ok(new_env) => assert_eq!(new_env.get("x"), Some(&CInt(42))),
        Err(s) => assert!(false, "{}", s),
    }
}

#[test]
fn eval_summation() {
    /*
     * (a test case for the following program)
     *
     * > x = 10
     * > y = 0
     * > while x >= 0:
     * >   y = y + x
     * >   x = x - 1
     *
     * After executing this program, 'x' must be zero and
     * 'y' must be 55.
     */
    let env = Environment::new();

    let a1 = Statement::Assignment(Box::new(String::from("x")), Box::new(CInt(10)));
    let a2 = Statement::Assignment(Box::new(String::from("y")), Box::new(CInt(0)));
    let a3 = Statement::Assignment(
        Box::new(String::from("y")),
        Box::new(Add(
            Box::new(Var(String::from("y"))),
            Box::new(Var(String::from("x"))),
        )),
    );
    let a4 = Statement::Assignment(
        Box::new(String::from("x")),
        Box::new(Sub(Box::new(Var(String::from("x"))), Box::new(CInt(1)))),
    );

    let seq1 = Statement::Sequence(Box::new(a3), Box::new(a4));

    let while_statement = Statement::While(
        Box::new(GT(Box::new(Var(String::from("x"))), Box::new(CInt(0)))),
        Box::new(seq1),
    );

    let seq2 = Statement::Sequence(Box::new(a2), Box::new(while_statement));
    let program = Statement::Sequence(Box::new(a1), Box::new(seq2));

    match execute(program, env) {
        Ok(new_env) => {
            assert_eq!(new_env.get("y"), Some(&CInt(55)));
            assert_eq!(new_env.get("x"), Some(&CInt(0)));
        }
        Err(s) => assert!(false, "{}", s),
    }
}

#[test]
fn eval_simple_if_then_else() {
    /*
     * Test for simple if-then-else statement
     *
     * > x = 10
     * > if x > 5:
     * >   y = 1
     * > else:
     * >   y = 0
     *
     * After executing, 'y' should be 1.
     */
    let env = Environment::new();

    let condition = GT(Box::new(Var(String::from("x"))), Box::new(CInt(5)));
    let then_stmt = Statement::Assignment(Box::new(String::from("y")), Box::new(CInt(1)));
    let else_stmt = Statement::Assignment(Box::new(String::from("y")), Box::new(CInt(0)));

    let if_statement = Statement::IfThenElse(
        Box::new(condition),
        Box::new(then_stmt),
        Box::new(else_stmt),
    );

    let setup_stmt = Statement::Assignment(Box::new(String::from("x")), Box::new(CInt(10)));
    let program = Statement::Sequence(Box::new(setup_stmt), Box::new(if_statement));

    match execute(program, env) {
        Ok(new_env) => assert_eq!(new_env.get("y"), Some(&CInt(1))),
        Err(s) => assert!(false, "{}", s),
    }
}
