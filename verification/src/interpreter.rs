use vstd::prelude::*;
use vstd::string::StringExecFns;

use crate::ast::{esize, ssize, ExprV, Expression, Name, Statement, StmtV};
use crate::binary64::{add_bits, int_to_real, is_nan_bits, real_add, real_div, real_eq, real_ge,
    real_gt, real_le, real_lt, real_mul, real_sub, real_of_int};
use crate::environment::Environment;
use crate::semantics::{arith_err, arith_spec, arith_values, bits_arith, bits_rel, bool_const,
    bool_err, bool_spec, err_msg, eval_spec, exec_fuel, int_arith, int_div_val, int_rel, is_const,
    lemma_exec_fuel_agree, lemma_exec_fuel_mono, rel_err, rel_spec, sat32, terminates, trunc_div,
    ArithKind, BoolKind, ErrV, RelKind};

verus! {

/// How an executable evaluation result corresponds to the result the
/// semantics assigns: a value carries the predicted value, an error
/// carries the predicted error's message text.
pub open spec fn result_matches(sr: Result<ExprV, ErrV>, r: Result<Expression, String>) -> bool {
    match r {
        Ok(v) => sr == Ok::<ExprV, ErrV>(v@),
        Err(m) => sr matches Err(er) && m@ == err_msg(er),
    }
}

/// Clamps to the `i32` range, as a binary64-to-`i32` cast does.
fn clamp32(v: i64) -> (r: i32)
    ensures
        r == sat32(v as int),
{
    if v > i32::MAX as i64 {
        i32::MAX
    } else if v < i32::MIN as i64 {
        i32::MIN
    } else {
        v as i32
    }
}

fn int_add(a: i32, b: i32) -> (r: i32)
    ensures
        r == sat32(a + b),
{
    clamp32(a as i64 + b as i64)
}

fn int_sub(a: i32, b: i32) -> (r: i32)
    ensures
        r == sat32(a - b),
{
    clamp32(a as i64 - b as i64)
}

fn int_mul(a: i32, b: i32) -> (r: i32)
    ensures
        r == sat32(a * b),
{
    proof {
        assert((a as int) * (b as int) <= 0x4000_0000_0000_0000 && (a as int) * (b as int)
            >= -0x4000_0000_0000_0000) by (nonlinear_arith)
            requires
                -0x8000_0000 <= a as int <= 0x7fff_ffff,
                -0x8000_0000 <= b as int <= 0x7fff_ffff,
        ;
    }
    clamp32(a as i64 * b as i64)
}

fn int_div(a: i32, b: i32) -> (r: i32)
    ensures
        r == int_div_val(a, b),
{
    if b == 0 {
        if a > 0 {
            i32::MAX
        } else if a < 0 {
            i32::MIN
        } else {
            0
        }
    } else {
        let la: i64 = a as i64;
        let lb: i64 = b as i64;
        let ua: u64 = if la < 0 {
            (-la) as u64
        } else {
            la as u64
        };
        let ub: u64 = if lb < 0 {
            (-lb) as u64
        } else {
            lb as u64
        };
        let uq: u64 = ua / ub;
        proof {
            assert(uq <= ua) by (nonlinear_arith)
                requires
                    uq == ua as int / ub as int,
                    ub >= 1,
                    ua >= 0,
            ;
        }
        let q: i64 = if (a < 0) != (b < 0) {
            -(uq as i64)
        } else {
            uq as i64
        };
        proof {
            assert(q as int == trunc_div(a as int, b as int));
        }
        clamp32(q)
    }
}

/// Applies an arithmetic operator to two integer constants.
fn int_arith_value(k: ArithKind, a: i32, b: i32) -> (r: i32)
    ensures
        r == int_arith(k, a, b),
{
    match k {
        ArithKind::Add => int_add(a, b),
        ArithKind::Sub => int_sub(a, b),
        ArithKind::Mul => int_mul(a, b),
        ArithKind::Div => int_div(a, b),
    }
}

/// Applies an arithmetic operator to two binary64 bit patterns.
fn real_arith_value(k: ArithKind, a: u64, b: u64) -> (r: u64)
    ensures
        r == bits_arith(k, a, b),
{
    match k {
        ArithKind::Add => real_add(a, b),
        ArithKind::Sub => real_sub(a, b),
        ArithKind::Mul => real_mul(a, b),
        ArithKind::Div => real_div(a, b),
    }
}

/// Applies a relational operator to two integer constants.
fn int_rel_value(k: RelKind, a: i32, b: i32) -> (r: bool)
    ensures
        r == int_rel(k, a, b),
{
    match k {
        RelKind::Eq => a == b,
        RelKind::Gt => a > b,
        RelKind::Lt => a < b,
        RelKind::Gte => a >= b,
        RelKind::Lte => a <= b,
    }
}

/// Applies a relational operator to two binary64 bit patterns.
fn real_rel_value(k: RelKind, a: u64, b: u64) -> (r: bool)
    ensures
        r == bits_rel(k, a, b),
{
    match k {
        RelKind::Eq => real_eq(a, b),
        RelKind::Gt => real_gt(a, b),
        RelKind::Lt => real_lt(a, b),
        RelKind::Gte => real_ge(a, b),
        RelKind::Lte => real_le(a, b),
    }
}

/// The boolean constant expression standing for `b`.
fn bool_expr(b: bool) -> (r: Expression)
    ensures
        r@ == bool_const(b),
{
    if b {
        Expression::CTrue
    } else {
        Expression::CFalse
    }
}

fn is_constant(exp: &Expression) -> (r: bool)
    ensures
        r == is_const(exp@),
{
    match exp {
        Expression::CTrue => true,
        Expression::CFalse => true,
        Expression::CInt(_) => true,
        Expression::CReal(_) => true,
        Expression::CString(_) => true,
        _ => false,
    }
}

fn lookup(name: Name, env: &Environment) -> (r: Result<Expression, String>)
    ensures
        result_matches(eval_spec(ExprV::Var(name@), env@), r),
{
    match env.get(name.as_str()) {
        Some(value) => Ok(value.clone()),
        None => Err("Variable ".to_owned().concat(name.as_str()).concat(" not found")),
    }
}

/// Evaluates an expression to a constant value under an environment,
/// or reports the first failure. The result is exactly what the
/// semantics `eval_spec` assigns; evaluation only reads the
/// environment.
pub fn eval(exp: Expression, env: &Environment) -> (r: Result<Expression, String>)
    ensures
        result_matches(eval_spec(exp@, env@), r),
    decreases esize(exp@), 0nat,
{
    match exp {
        Expression::Add(lhs, rhs) => self::add(*lhs, *rhs, env),
        Expression::Sub(lhs, rhs) => self::sub(*lhs, *rhs, env),
        Expression::Mul(lhs, rhs) => self::mul(*lhs, *rhs, env),
        Expression::Div(lhs, rhs) => self::div(*lhs, *rhs, env),
        Expression::And(lhs, rhs) => self::and(*lhs, *rhs, env),
        Expression::Or(lhs, rhs) => self::or(*lhs, *rhs, env),
        Expression::Not(lhs) => self::not(*lhs, env),
        Expression::EQ(lhs, rhs) => self::eq(*lhs, *rhs, env),
        Expression::GT(lhs, rhs) => self::gt(*lhs, *rhs, env),
        Expression::LT(lhs, rhs) => self::lt(*lhs, *rhs, env),
        Expression::GTE(lhs, rhs) => self::gte(*lhs, *rhs, env),
        Expression::LTE(lhs, rhs) => self::lte(*lhs, *rhs, env),
        Expression::Var(name) => self::lookup(name, env),
        c => {
            if self::is_constant(&c) {
                Ok(c)
            } else {
                Err("Not implemented yet.".to_owned())
            }
        },
    }
}

/* Arithmetic Operations */
fn eval_binary_arith_op(
    lhs: Expression,
    rhs: Expression,
    env: &Environment,
    op: ArithKind,
    error_msg: &str,
) -> (r: Result<Expression, String>)
    requires
        error_msg@ == arith_err(op),
    ensures
        result_matches(arith_spec(op, lhs@, rhs@, env@), r),
    decreases esize(lhs@) + esize(rhs@), 1nat,
{
    let v1 = match self::eval(lhs, env) {
        Ok(v) => v,
        Err(m) => {
            return Err(m);
        },
    };
    let v2 = match self::eval(rhs, env) {
        Ok(v) => v,
        Err(m) => {
            return Err(m);
        },
    };
    match (v1, v2) {
        (Expression::CInt(a), Expression::CInt(b)) => Ok(
            Expression::CInt(self::int_arith_value(op, a, b)),
        ),
        (Expression::CInt(a), Expression::CReal(y)) => Ok(
            Expression::CReal(self::real_arith_value(op, int_to_real(a), y)),
        ),
        (Expression::CReal(x), Expression::CInt(b)) => Ok(
            Expression::CReal(self::real_arith_value(op, x, int_to_real(b))),
        ),
        (Expression::CReal(x), Expression::CReal(y)) => Ok(
            Expression::CReal(self::real_arith_value(op, x, y)),
        ),
        _ => Err(error_msg.to_owned()),
    }
}

fn add(lhs: Expression, rhs: Expression, env: &Environment) -> (r: Result<Expression, String>)
    ensures
        result_matches(arith_spec(ArithKind::Add, lhs@, rhs@, env@), r),
    decreases esize(lhs@) + esize(rhs@), 2nat,
{
    self::eval_binary_arith_op(
        lhs,
        rhs,
        env,
        ArithKind::Add,
        "addition '(+)' is only defined for numbers (integers and real).",
    )
}

fn sub(lhs: Expression, rhs: Expression, env: &Environment) -> (r: Result<Expression, String>)
    ensures
        result_matches(arith_spec(ArithKind::Sub, lhs@, rhs@, env@), r),
    decreases esize(lhs@) + esize(rhs@), 2nat,
{
    self::eval_binary_arith_op(
        lhs,
        rhs,
        env,
        ArithKind::Sub,
        "subtraction '(-)' is only defined for numbers (integers and real).",
    )
}

fn mul(lhs: Expression, rhs: Expression, env: &Environment) -> (r: Result<Expression, String>)
    ensures
        result_matches(arith_spec(ArithKind::Mul, lhs@, rhs@, env@), r),
    decreases esize(lhs@) + esize(rhs@), 2nat,
{
    self::eval_binary_arith_op(
        lhs,
        rhs,
        env,
        ArithKind::Mul,
        "multiplication '(*)' is only defined for numbers (integers and real).",
    )
}

fn div(lhs: Expression, rhs: Expression, env: &Environment) -> (r: Result<Expression, String>)
    ensures
        result_matches(arith_spec(ArithKind::Div, lhs@, rhs@, env@), r),
    decreases esize(lhs@) + esize(rhs@), 2nat,
{
    self::eval_binary_arith_op(
        lhs,
        rhs,
        env,
        ArithKind::Div,
        "division '(/)' is only defined for numbers (integers and real).",
    )
}

/* Boolean Expressions */
fn apply_bool(k: BoolKind, a: bool, b: bool) -> (r: Expression)
    ensures
        k is And ==> r@ == bool_const(a && b),
        k is Or ==> r@ == bool_const(a || b),
{
    match k {
        BoolKind::And => self::bool_expr(a && b),
        BoolKind::Or => self::bool_expr(a || b),
    }
}

fn eval_binary_boolean_op(
    lhs: Expression,
    rhs: Expression,
    env: &Environment,
    op: BoolKind,
    error_msg: &str,
) -> (r: Result<Expression, String>)
    requires
        error_msg@ == bool_err(op),
    ensures
        result_matches(bool_spec(op, lhs@, rhs@, env@), r),
    decreases esize(lhs@) + esize(rhs@), 1nat,
{
    let v1 = match self::eval(lhs, env) {
        Ok(v) => v,
        Err(m) => {
            return Err(m);
        },
    };
    let v2 = match self::eval(rhs, env) {
        Ok(v) => v,
        Err(m) => {
            return Err(m);
        },
    };
    match (v1, v2) {
        (Expression::CTrue, Expression::CTrue) => Ok(self::apply_bool(op, true, true)),
        (Expression::CTrue, Expression::CFalse) => Ok(self::apply_bool(op, true, false)),
        (Expression::CFalse, Expression::CTrue) => Ok(self::apply_bool(op, false, true)),
        (Expression::CFalse, Expression::CFalse) => Ok(self::apply_bool(op, false, false)),
        _ => Err(error_msg.to_owned()),
    }
}

fn and(lhs: Expression, rhs: Expression, env: &Environment) -> (r: Result<Expression, String>)
    ensures
        result_matches(bool_spec(BoolKind::And, lhs@, rhs@, env@), r),
    decreases esize(lhs@) + esize(rhs@), 2nat,
{
    self::eval_binary_boolean_op(lhs, rhs, env, BoolKind::And, "'and' is only defined for booleans.")
}

fn or(lhs: Expression, rhs: Expression, env: &Environment) -> (r: Result<Expression, String>)
    ensures
        result_matches(bool_spec(BoolKind::Or, lhs@, rhs@, env@), r),
    decreases esize(lhs@) + esize(rhs@), 2nat,
{
    self::eval_binary_boolean_op(lhs, rhs, env, BoolKind::Or, "'or' is only defined for booleans.")
}

fn not(lhs: Expression, env: &Environment) -> (r: Result<Expression, String>)
    ensures
        result_matches(eval_spec(ExprV::Not(Box::new(lhs@)), env@), r),
    decreases esize(lhs@), 1nat,
{
    let v = match self::eval(lhs, env) {
        Ok(v) => v,
        Err(m) => {
            return Err(m);
        },
    };
    match v {
        Expression::CTrue => Ok(Expression::CFalse),
        Expression::CFalse => Ok(Expression::CTrue),
        _ => Err("'not' is only defined for booleans.".to_owned()),
    }
}

/* Relational Operations */
fn eval_binary_rel_op(
    lhs: Expression,
    rhs: Expression,
    env: &Environment,
    op: RelKind,
    error_msg: &str,
) -> (r: Result<Expression, String>)
    requires
        error_msg@ == rel_err(op),
    ensures
        result_matches(rel_spec(op, lhs@, rhs@, env@), r),
    decreases esize(lhs@) + esize(rhs@), 1nat,
{
    let v1 = match self::eval(lhs, env) {
        Ok(v) => v,
        Err(m) => {
            return Err(m);
        },
    };
    let v2 = match self::eval(rhs, env) {
        Ok(v) => v,
        Err(m) => {
            return Err(m);
        },
    };
    match (v1, v2) {
        (Expression::CInt(a), Expression::CInt(b)) => Ok(
            self::bool_expr(self::int_rel_value(op, a, b)),
        ),
        (Expression::CInt(a), Expression::CReal(y)) => Ok(
            self::bool_expr(self::real_rel_value(op, int_to_real(a), y)),
        ),
        (Expression::CReal(x), Expression::CInt(b)) => Ok(
            self::bool_expr(self::real_rel_value(op, x, int_to_real(b))),
        ),
        (Expression::CReal(x), Expression::CReal(y)) => Ok(
            self::bool_expr(self::real_rel_value(op, x, y)),
        ),
        _ => Err(error_msg.to_owned()),
    }
}

fn eq(lhs: Expression, rhs: Expression, env: &Environment) -> (r: Result<Expression, String>)
    ensures
        result_matches(rel_spec(RelKind::Eq, lhs@, rhs@, env@), r),
    decreases esize(lhs@) + esize(rhs@), 2nat,
{
    self::eval_binary_rel_op(lhs, rhs, env, RelKind::Eq, "(==) is only defined for numbers (integers and real).")
}

fn gt(lhs: Expression, rhs: Expression, env: &Environment) -> (r: Result<Expression, String>)
    ensures
        result_matches(rel_spec(RelKind::Gt, lhs@, rhs@, env@), r),
    decreases esize(lhs@) + esize(rhs@), 2nat,
{
    self::eval_binary_rel_op(lhs, rhs, env, RelKind::Gt, "(>) is only defined for numbers (integers and real).")
}

fn lt(lhs: Expression, rhs: Expression, env: &Environment) -> (r: Result<Expression, String>)
    ensures
        result_matches(rel_spec(RelKind::Lt, lhs@, rhs@, env@), r),
    decreases esize(lhs@) + esize(rhs@), 2nat,
{
    self::eval_binary_rel_op(lhs, rhs, env, RelKind::Lt, "(<) is only defined for numbers (integers and real).")
}

fn gte(lhs: Expression, rhs: Expression, env: &Environment) -> (r: Result<Expression, String>)
    ensures
        result_matches(rel_spec(RelKind::Gte, lhs@, rhs@, env@), r),
    decreases esize(lhs@) + esize(rhs@), 2nat,
{
    self::eval_binary_rel_op(lhs, rhs, env, RelKind::Gte, "(>=) is only defined for numbers (integers and real).")
}

fn lte(lhs: Expression, rhs: Expression, env: &Environment) -> (r: Result<Expression, String>)
    ensures
        result_matches(rel_spec(RelKind::Lte, lhs@, rhs@, env@), r),
    decreases esize(lhs@) + esize(rhs@), 2nat,
{
    self::eval_binary_rel_op(lhs, rhs, env, RelKind::Lte, "(<=) is only defined for numbers (integers and real).")
}

/// Adding an integer constant and a real constant is commutative:
/// evaluating the sum in either operand order gives the same value,
/// whatever the environment, as long as the real operand is not a NaN.
/// The pair holds the evaluation of `i + r` and of `r + i`.
pub fn add_mixed_commutes(i: i32, r: u64, env: &Environment) -> (p: (
    Result<Expression, String>,
    Result<Expression, String>,
))
    requires
        !is_nan_bits(r),
    ensures
        eval_spec(ExprV::Add(Box::new(ExprV::CInt(i)), Box::new(ExprV::CReal(r))), env@)
            == eval_spec(
            ExprV::Add(Box::new(ExprV::CReal(r)), Box::new(ExprV::CInt(i))),
            env@,
        ),
        p.0 matches Ok(a) && a@ == ExprV::CReal(add_bits(real_of_int(i), r)),
        p.1 matches Ok(b) && b@ == ExprV::CReal(add_bits(real_of_int(i), r)),
{
    let bi = int_to_real(i);
    let witness = real_add(bi, r);
    proof {
        assert(witness == add_bits(real_of_int(i), r) && witness == add_bits(r, real_of_int(i)));
    }
    let x1 = self::eval(
        Expression::Add(Box::new(Expression::CInt(i)), Box::new(Expression::CReal(r))),
        env,
    );
    let x2 = self::eval(
        Expression::Add(Box::new(Expression::CReal(r)), Box::new(Expression::CInt(i))),
        env,
    );
    proof {
        reveal_with_fuel(crate::ast::view_expr, 3);
        reveal_with_fuel(eval_spec, 4);
        reveal_with_fuel(arith_spec, 4);
        let e1 = ExprV::Add(Box::new(ExprV::CInt(i)), Box::new(ExprV::CReal(r)));
        let e2 = ExprV::Add(Box::new(ExprV::CReal(r)), Box::new(ExprV::CInt(i)));
        assert(eval_spec(e1, env@) == arith_values(ArithKind::Add, ExprV::CInt(i), ExprV::CReal(r)));
        assert(eval_spec(e2, env@) == arith_values(ArithKind::Add, ExprV::CReal(r), ExprV::CInt(i)));
    }
    (x1, x2)
}

/// How an executable execution result corresponds to the outcome the
/// semantics assigns under some loop budget.
pub open spec fn exec_matches(s: StmtV, env0: Map<Seq<char>, ExprV>, r: Result<
    Environment,
    String,
>) -> bool {
    match r {
        Ok(env2) => exists|f: nat|
            (#[trigger] exec_fuel(s, env0, f)) == Some(
                Ok::<Map<Seq<char>, ExprV>, ErrV>(env2@),
            ),
        Err(m) => exists|f: nat|
            (#[trigger] exec_fuel(s, env0, f)) matches Some(Err(er)) && m@ == err_msg(er),
    }
}

/// Two statements with the same outcome at every budget match the
/// same results.
proof fn lemma_same_outcomes(
    s1: StmtV,
    s2: StmtV,
    env: Map<Seq<char>, ExprV>,
    r: Result<Environment, String>,
)
    requires
        forall|f: nat| #[trigger] exec_fuel(s1, env, f) == exec_fuel(s2, env, f),
        exec_matches(s2, env, r),
    ensures
        exec_matches(s1, env, r),
{
    match r {
        Ok(env2) => {
            let fw = choose|f: nat|
                (#[trigger] exec_fuel(s2, env, f)) == Some(
                    Ok::<Map<Seq<char>, ExprV>, ErrV>(env2@),
                );
            assert(exec_fuel(s1, env, fw) == Some(Ok::<Map<Seq<char>, ExprV>, ErrV>(env2@)));
        },
        Err(m) => {
            let fw = choose|f: nat|
                (#[trigger] exec_fuel(s2, env, f)) matches Some(Err(er)) && m@ == err_msg(er);
            assert((exec_fuel(s1, env, fw)) matches Some(Err(er)) && m@ == err_msg(er));
        },
    }
}

/// Executes a statement against an environment, producing the
/// successor environment or the first failure. The caller owes that
/// the program finishes under some loop budget; the result is then
/// exactly the outcome the semantics `exec_fuel` assigns. A statement
/// whose loop never ends has no such budget, and this function would
/// not return on it.
#[verifier::loop_isolation(false)]
pub fn execute(stmt: Statement, env: Environment) -> (r: Result<Environment, String>)
    requires
        terminates(stmt@, env@),
    ensures
        exec_matches(stmt@, env@, r),
    decreases ssize(stmt@),
{
    let ghost sv = stmt@;
    let ghost env0 = env@;
    match stmt {
        Statement::Assignment(name, exp) => {
            match self::eval(*exp, &env) {
                Ok(value) => {
                    let mut new_env = env;
                    new_env.insert(*name, value);
                    proof {
                        assert(exec_fuel(sv, env0, 0) == Some(
                            Ok::<Map<Seq<char>, ExprV>, ErrV>(new_env@),
                        ));
                    }
                    Ok(new_env)
                },
                Err(m) => {
                    proof {
                        assert((exec_fuel(sv, env0, 0)) matches Some(Err(er)) && m@ == err_msg(
                            er,
                        ));
                    }
                    Err(m)
                },
            }
        },
        Statement::IfThenElse(cond, stmt_then, stmt_else) => {
            let ghost tv = (*stmt_then)@;
            let ghost ev = (*stmt_else)@;
            match self::eval(*cond, &env) {
                Ok(value) => match value {
                    Expression::CTrue => {
                        proof {
                            let f0 = choose|f: nat| (#[trigger] exec_fuel(sv, env0, f)) is Some;
                            assert(exec_fuel(tv, env0, f0) is Some);
                            assert forall|f: nat| #[trigger] exec_fuel(sv, env0, f) == exec_fuel(
                                tv,
                                env0,
                                f,
                            ) by {}
                        }
                        let res = execute(*stmt_then, env);
                        proof {
                            lemma_same_outcomes(sv, tv, env0, res);
                        }
                        res
                    },
                    Expression::CFalse => {
                        proof {
                            let f0 = choose|f: nat| (#[trigger] exec_fuel(sv, env0, f)) is Some;
                            assert(exec_fuel(ev, env0, f0) is Some);
                            assert forall|f: nat| #[trigger] exec_fuel(sv, env0, f) == exec_fuel(
                                ev,
                                env0,
                                f,
                            ) by {}
                        }
                        let res = execute(*stmt_else, env);
                        proof {
                            lemma_same_outcomes(sv, ev, env0, res);
                        }
                        res
                    },
                    _ => {
                        proof {
                            assert(!(value@ is CTrue) && !(value@ is CFalse));
                            assert((exec_fuel(sv, env0, 0)) matches Some(Err(er))
                                && "expecting a boolean value."@ == err_msg(er));
                        }
                        Err("expecting a boolean value.".to_owned())
                    },
                },
                Err(m) => {
                    proof {
                        assert((exec_fuel(sv, env0, 0)) matches Some(Err(er)) && m@ == err_msg(
                            er,
                        ));
                    }
                    Err(m)
                },
            }
        },
        Statement::While(cond, stmt_b) => {
            let ghost cv = (*cond)@;
            let ghost bv = (*stmt_b)@;
            proof {
                assert(sv == StmtV::While(cv, Box::new(bv)));
            }
            let mut value = match self::eval((*cond).clone(), &env) {
                Ok(v) => v,
                Err(m) => {
                    proof {
                        assert((exec_fuel(sv, env0, 0)) matches Some(Err(er)) && m@ == err_msg(
                            er,
                        ));
                    }
                    return Err(m);
                },
            };
            let mut new_env = env;
            let mut go = matches!(value, Expression::CTrue);
            let ghost mut rem: nat = choose|f: nat| (#[trigger] exec_fuel(sv, env0, f)) is Some;
            while go
                invariant
                    sv == StmtV::While(cv, Box::new(bv)),
                    eval_spec(cv, new_env@) == Ok::<ExprV, ErrV>(value@),
                    go == (value@ == ExprV::CTrue),
                    exec_fuel(sv, new_env@, rem) is Some,
                    forall|f: nat|
                        (#[trigger] exec_fuel(sv, new_env@, f)) is Some ==> exists|f2: nat|
                            (#[trigger] exec_fuel(sv, env0, f2)) == exec_fuel(sv, new_env@, f),
                decreases rem,
            {
                let ghost prev = new_env@;
                proof {
                    assert(rem > 0 && exec_fuel(bv, prev, rem) is Some);
                }
                let res = execute((*stmt_b).clone(), new_env);
                match res {
                    Err(m) => {
                        proof {
                            let fb = choose|f: nat|
                                (#[trigger] exec_fuel(bv, prev, f)) matches Some(Err(er))
                                    && m@ == err_msg(er);
                            lemma_exec_fuel_mono(bv, prev, fb, fb + 1);
                            assert((exec_fuel(sv, prev, fb + 1)) matches Some(Err(er)) && m@
                                == err_msg(er));
                        }
                        return Err(m);
                    },
                    Ok(e2) => {
                        proof {
                            let fb = choose|f: nat|
                                (#[trigger] exec_fuel(bv, prev, f)) == Some(
                                    Ok::<Map<Seq<char>, ExprV>, ErrV>(e2@),
                                );
                            lemma_exec_fuel_agree(bv, prev, fb, rem);
                            assert(exec_fuel(sv, e2@, (rem - 1) as nat) is Some);
                            assert forall|f: nat|
                                (#[trigger] exec_fuel(sv, e2@, f)) is Some implies exists|
                                f2: nat,
                            |
                                (#[trigger] exec_fuel(sv, env0, f2)) == exec_fuel(
                                    sv,
                                    e2@,
                                    f,
                                ) by {
                                let fm = if f <= fb {
                                    fb
                                } else {
                                    f
                                };
                                lemma_exec_fuel_mono(bv, prev, fb, fm + 1);
                                lemma_exec_fuel_mono(sv, e2@, f, fm);
                                assert(exec_fuel(sv, prev, fm + 1) == exec_fuel(sv, e2@, f));
                            }
                            rem = (rem - 1) as nat;
                        }
                        new_env = e2;
                        value = match self::eval((*cond).clone(), &new_env) {
                            Ok(v) => v,
                            Err(m) => {
                                proof {
                                    assert((exec_fuel(sv, new_env@, 0)) matches Some(Err(er))
                                        && m@ == err_msg(er));
                                }
                                return Err(m);
                            },
                        };
                        go = matches!(value, Expression::CTrue);
                    },
                }
            }
            match value {
                Expression::CFalse => {
                    proof {
                        assert(exec_fuel(sv, new_env@, 0) == Some(
                            Ok::<Map<Seq<char>, ExprV>, ErrV>(new_env@),
                        ));
                    }
                    Ok(new_env)
                },
                _ => {
                    proof {
                        assert(!(value@ is CTrue) && !(value@ is CFalse));
                        assert((exec_fuel(sv, new_env@, 0)) matches Some(Err(er))
                            && "expecting a boolean value."@ == err_msg(er));
                    }
                    Err("expecting a boolean value.".to_owned())
                },
            }
        },
        Statement::Sequence(s1, s2) => {
            let ghost v1 = (*s1)@;
            let ghost v2 = (*s2)@;
            proof {
                let f0 = choose|f: nat| (#[trigger] exec_fuel(sv, env0, f)) is Some;
                assert(exec_fuel(v1, env0, f0) is Some);
            }
            match execute(*s1, env) {
                Err(m) => {
                    proof {
                        let fw = choose|f: nat|
                            (#[trigger] exec_fuel(v1, env0, f)) matches Some(Err(er)) && m@
                                == err_msg(er);
                        assert((exec_fuel(sv, env0, fw)) matches Some(Err(er)) && m@ == err_msg(
                            er,
                        ));
                    }
                    Err(m)
                },
                Ok(env2) => {
                    let ghost e2v = env2@;
                    proof {
                        let f0 = choose|f: nat| (#[trigger] exec_fuel(sv, env0, f)) is Some;
                        let f1 = choose|f: nat|
                            (#[trigger] exec_fuel(v1, env0, f)) == Some(
                                Ok::<Map<Seq<char>, ExprV>, ErrV>(e2v),
                            );
                        lemma_exec_fuel_agree(v1, env0, f0, f1);
                        assert(exec_fuel(v2, e2v, f0) is Some);
                    }
                    let res = execute(*s2, env2);
                    proof {
                        let f1 = choose|f: nat|
                            (#[trigger] exec_fuel(v1, env0, f)) == Some(
                                Ok::<Map<Seq<char>, ExprV>, ErrV>(e2v),
                            );
                        match &res {
                            Ok(env3) => {
                                let f2 = choose|f: nat|
                                    (#[trigger] exec_fuel(v2, e2v, f)) == Some(
                                        Ok::<Map<Seq<char>, ExprV>, ErrV>(env3@),
                                    );
                                let m12 = if f1 <= f2 {
                                    f2
                                } else {
                                    f1
                                };
                                lemma_exec_fuel_mono(v1, env0, f1, m12);
                                lemma_exec_fuel_mono(v2, e2v, f2, m12);
                                assert(exec_fuel(sv, env0, m12) == Some(
                                    Ok::<Map<Seq<char>, ExprV>, ErrV>(env3@),
                                ));
                            },
                            Err(m) => {
                                let f2 = choose|f: nat|
                                    (#[trigger] exec_fuel(v2, e2v, f)) matches Some(Err(er))
                                        && m@ == err_msg(er);
                                let m12 = if f1 <= f2 {
                                    f2
                                } else {
                                    f1
                                };
                                lemma_exec_fuel_mono(v1, env0, f1, m12);
                                lemma_exec_fuel_mono(v2, e2v, f2, m12);
                                assert((exec_fuel(sv, env0, m12)) matches Some(Err(er)) && m@
                                    == err_msg(er));
                            },
                        }
                    }
                    res
                },
            }
        },
        Statement::VarDeclaration(_) => {
            proof {
                assert((exec_fuel(sv, env0, 0)) matches Some(Err(er)) && "not implemented yet"@
                    == err_msg(er));
            }
            Err("not implemented yet".to_owned())
        },
        Statement::ValDeclaration(_) => {
            proof {
                assert((exec_fuel(sv, env0, 0)) matches Some(Err(er)) && "not implemented yet"@
                    == err_msg(er));
            }
            Err("not implemented yet".to_owned())
        },
    }
}

} // verus!
