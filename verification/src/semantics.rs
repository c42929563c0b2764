use vstd::prelude::*;
use vstd::math::abs;

use crate::ast::{esize, ssize, ExprV, StmtV};
use crate::binary64::{
    add_bits, div_bits, eq_bits, ge_bits, gt_bits, le_bits, lt_bits, mul_bits, real_of_int,
    sub_bits,
};

verus! {

/// The kinds of failure evaluation and execution can report. Every
/// failure is surfaced to callers as its plain text message, but the
/// kinds stay distinguishable here.
pub enum ErrV {
    /// A variable reference to a name absent from the environment.
    UnboundVariable(Seq<char>),
    /// An operand or a condition did not have the required value kind.
    TypeError(Seq<char>),
    /// A node kind with no defined semantics was reached.
    NotImplemented(Seq<char>),
}

/// The message text an error is surfaced as.
pub open spec fn err_msg(e: ErrV) -> Seq<char> {
    match e {
        ErrV::UnboundVariable(n) => "Variable "@ + n + " not found"@,
        ErrV::TypeError(m) => m,
        ErrV::NotImplemented(m) => m,
    }
}

/// The four arithmetic operators.
pub enum ArithKind {
    Add,
    Sub,
    Mul,
    Div,
}

/// The two binary boolean operators.
pub enum BoolKind {
    And,
    Or,
}

/// The five relational operators.
pub enum RelKind {
    Eq,
    Gt,
    Lt,
    Gte,
    Lte,
}

pub open spec fn arith_err(k: ArithKind) -> Seq<char> {
    match k {
        ArithKind::Add => "addition '(+)' is only defined for numbers (integers and real)."@,
        ArithKind::Sub => "subtraction '(-)' is only defined for numbers (integers and real)."@,
        ArithKind::Mul => "multiplication '(*)' is only defined for numbers (integers and real)."@,
        ArithKind::Div => "division '(/)' is only defined for numbers (integers and real)."@,
    }
}

pub open spec fn bool_err(k: BoolKind) -> Seq<char> {
    match k {
        BoolKind::And => "'and' is only defined for booleans."@,
        BoolKind::Or => "'or' is only defined for booleans."@,
    }
}

pub open spec fn not_err() -> Seq<char> {
    "'not' is only defined for booleans."@
}

pub open spec fn rel_err(k: RelKind) -> Seq<char> {
    match k {
        RelKind::Eq => "(==) is only defined for numbers (integers and real)."@,
        RelKind::Gt => "(>) is only defined for numbers (integers and real)."@,
        RelKind::Lt => "(<) is only defined for numbers (integers and real)."@,
        RelKind::Gte => "(>=) is only defined for numbers (integers and real)."@,
        RelKind::Lte => "(<=) is only defined for numbers (integers and real)."@,
    }
}

pub open spec fn cond_err() -> Seq<char> {
    "expecting a boolean value."@
}

pub open spec fn stmt_not_implemented() -> Seq<char> {
    "not implemented yet"@
}

/// Clamps an integer to the `i32` range.
pub open spec fn sat32(v: int) -> i32 {
    if v > i32::MAX as int {
        i32::MAX
    } else if v < i32::MIN as int {
        i32::MIN
    } else {
        v as i32
    }
}

/// Integer division truncated toward zero (`b != 0`).
pub open spec fn trunc_div(a: int, b: int) -> int {
    if (a >= 0) == (b >= 0) {
        (abs(a) as int) / (abs(b) as int)
    } else {
        -((abs(a) as int) / (abs(b) as int))
    }
}

/// Division of integer constants. The language evaluates integer
/// arithmetic in the binary64 domain and casts the result back with a
/// saturating cast, so division truncates toward the binary64 quotient
/// and a zero divisor follows the infinity and NaN cast rules.
pub open spec fn int_div_val(a: i32, b: i32) -> i32 {
    if b == 0 {
        if a > 0 {
            i32::MAX
        } else if a < 0 {
            i32::MIN
        } else {
            0
        }
    } else {
        sat32(trunc_div(a as int, b as int))
    }
}

/// Arithmetic on two integer constants. Evaluating in binary64 and
/// casting back to `i32` clamps a sum, difference or product that
/// leaves the `i32` range to the nearest bound, and truncates a
/// quotient toward zero; these integer forms state that directly.
pub open spec fn int_arith(k: ArithKind, a: i32, b: i32) -> i32 {
    match k {
        ArithKind::Add => sat32(a + b),
        ArithKind::Sub => sat32(a - b),
        ArithKind::Mul => sat32(a * b),
        ArithKind::Div => int_div_val(a, b),
    }
}

/// Arithmetic on two binary64 bit patterns.
pub open spec fn bits_arith(k: ArithKind, a: u64, b: u64) -> u64 {
    match k {
        ArithKind::Add => add_bits(a, b),
        ArithKind::Sub => sub_bits(a, b),
        ArithKind::Mul => mul_bits(a, b),
        ArithKind::Div => div_bits(a, b),
    }
}

/// Comparison of two integer constants. Comparing their binary64
/// images is the same as comparing them directly, since every `i32`
/// is represented exactly.
pub open spec fn int_rel(k: RelKind, a: i32, b: i32) -> bool {
    match k {
        RelKind::Eq => a == b,
        RelKind::Gt => a > b,
        RelKind::Lt => a < b,
        RelKind::Gte => a >= b,
        RelKind::Lte => a <= b,
    }
}

/// Comparison of two binary64 bit patterns.
pub open spec fn bits_rel(k: RelKind, a: u64, b: u64) -> bool {
    match k {
        RelKind::Eq => eq_bits(a, b),
        RelKind::Gt => gt_bits(a, b),
        RelKind::Lt => lt_bits(a, b),
        RelKind::Gte => ge_bits(a, b),
        RelKind::Lte => le_bits(a, b),
    }
}

/// The boolean constant standing for `b`.
pub open spec fn bool_const(b: bool) -> ExprV {
    if b {
        ExprV::CTrue
    } else {
        ExprV::CFalse
    }
}

/// Whether a value is a boolean constant.
pub open spec fn is_bool_const(v: ExprV) -> bool {
    v is CTrue || v is CFalse
}

/// Whether a value is a constant, the only shape evaluation returns.
pub open spec fn is_const(v: ExprV) -> bool {
    match v {
        ExprV::CTrue => true,
        ExprV::CFalse => true,
        ExprV::CInt(_) => true,
        ExprV::CReal(_) => true,
        ExprV::CString(_) => true,
        _ => false,
    }
}

/// The result of an arithmetic operator on two evaluated operands:
/// two integers stay in the integer domain; any real operand promotes
/// the operation to binary64, converting an integer operand first;
/// anything else is a type error.
pub open spec fn arith_values(k: ArithKind, v1: ExprV, v2: ExprV) -> Result<ExprV, ErrV> {
    match (v1, v2) {
        (ExprV::CInt(a), ExprV::CInt(b)) => Ok(ExprV::CInt(int_arith(k, a, b))),
        (ExprV::CInt(a), ExprV::CReal(y)) => Ok(ExprV::CReal(bits_arith(k, real_of_int(a), y))),
        (ExprV::CReal(x), ExprV::CInt(b)) => Ok(ExprV::CReal(bits_arith(k, x, real_of_int(b)))),
        (ExprV::CReal(x), ExprV::CReal(y)) => Ok(ExprV::CReal(bits_arith(k, x, y))),
        _ => Err(ErrV::TypeError(arith_err(k))),
    }
}

/// The result of a binary boolean operator on two evaluated operands.
pub open spec fn bool_values(k: BoolKind, v1: ExprV, v2: ExprV) -> Result<ExprV, ErrV> {
    if is_bool_const(v1) && is_bool_const(v2) {
        match k {
            BoolKind::And => Ok(bool_const(v1 is CTrue && v2 is CTrue)),
            BoolKind::Or => Ok(bool_const(v1 is CTrue || v2 is CTrue)),
        }
    } else {
        Err(ErrV::TypeError(bool_err(k)))
    }
}

/// The result of a relational operator on two evaluated operands:
/// integers and reals compare in a unified numeric domain, an integer
/// operand converting to binary64 when the other side is real.
pub open spec fn rel_values(k: RelKind, v1: ExprV, v2: ExprV) -> Result<ExprV, ErrV> {
    match (v1, v2) {
        (ExprV::CInt(a), ExprV::CInt(b)) => Ok(bool_const(int_rel(k, a, b))),
        (ExprV::CInt(a), ExprV::CReal(y)) => Ok(bool_const(bits_rel(k, real_of_int(a), y))),
        (ExprV::CReal(x), ExprV::CInt(b)) => Ok(bool_const(bits_rel(k, x, real_of_int(b)))),
        (ExprV::CReal(x), ExprV::CReal(y)) => Ok(bool_const(bits_rel(k, x, y))),
        _ => Err(ErrV::TypeError(rel_err(k))),
    }
}

/// Evaluation of an expression under an environment: constants stand
/// for themselves, a variable for the value bound to its name, and a
/// compound node evaluates its operands left to right before applying
/// its operator. Evaluation reads the environment and never changes it.
pub open spec fn eval_spec(e: ExprV, env: Map<Seq<char>, ExprV>) -> Result<ExprV, ErrV>
    decreases esize(e), 0nat,
{
    match e {
        ExprV::CTrue => Ok(e),
        ExprV::CFalse => Ok(e),
        ExprV::CInt(_) => Ok(e),
        ExprV::CReal(_) => Ok(e),
        ExprV::CString(_) => Ok(e),
        ExprV::Var(n) => if env.contains_key(n) {
            Ok(env[n])
        } else {
            Err(ErrV::UnboundVariable(n))
        },
        ExprV::Add(l, r) => arith_spec(ArithKind::Add, *l, *r, env),
        ExprV::Sub(l, r) => arith_spec(ArithKind::Sub, *l, *r, env),
        ExprV::Mul(l, r) => arith_spec(ArithKind::Mul, *l, *r, env),
        ExprV::Div(l, r) => arith_spec(ArithKind::Div, *l, *r, env),
        ExprV::And(l, r) => bool_spec(BoolKind::And, *l, *r, env),
        ExprV::Or(l, r) => bool_spec(BoolKind::Or, *l, *r, env),
        ExprV::Not(l) => match eval_spec(*l, env) {
            Ok(ExprV::CTrue) => Ok(ExprV::CFalse),
            Ok(ExprV::CFalse) => Ok(ExprV::CTrue),
            Ok(_) => Err(ErrV::TypeError(not_err())),
            Err(er) => Err(er),
        },
        ExprV::EQ(l, r) => rel_spec(RelKind::Eq, *l, *r, env),
        ExprV::GT(l, r) => rel_spec(RelKind::Gt, *l, *r, env),
        ExprV::LT(l, r) => rel_spec(RelKind::Lt, *l, *r, env),
        ExprV::GTE(l, r) => rel_spec(RelKind::Gte, *l, *r, env),
        ExprV::LTE(l, r) => rel_spec(RelKind::Lte, *l, *r, env),
    }
}

/// Both operands of an arithmetic operator evaluate, left first, then
/// the operator applies to the two values.
pub open spec fn arith_spec(k: ArithKind, lhs: ExprV, rhs: ExprV, env: Map<Seq<char>, ExprV>) -> Result<
    ExprV,
    ErrV,
>
    decreases esize(lhs) + esize(rhs), 1nat,
{
    match eval_spec(lhs, env) {
        Err(er) => Err(er),
        Ok(v1) => match eval_spec(rhs, env) {
            Err(er) => Err(er),
            Ok(v2) => arith_values(k, v1, v2),
        },
    }
}

/// Both operands of a boolean operator evaluate, left first and both
/// always, then the operator applies to the two values.
pub open spec fn bool_spec(k: BoolKind, lhs: ExprV, rhs: ExprV, env: Map<Seq<char>, ExprV>) -> Result<
    ExprV,
    ErrV,
>
    decreases esize(lhs) + esize(rhs), 1nat,
{
    match eval_spec(lhs, env) {
        Err(er) => Err(er),
        Ok(v1) => match eval_spec(rhs, env) {
            Err(er) => Err(er),
            Ok(v2) => bool_values(k, v1, v2),
        },
    }
}

/// Both operands of a relational operator evaluate, left first, then
/// the operator applies to the two values.
pub open spec fn rel_spec(k: RelKind, lhs: ExprV, rhs: ExprV, env: Map<Seq<char>, ExprV>) -> Result<
    ExprV,
    ErrV,
>
    decreases esize(lhs) + esize(rhs), 1nat,
{
    match eval_spec(lhs, env) {
        Err(er) => Err(er),
        Ok(v1) => match eval_spec(rhs, env) {
            Err(er) => Err(er),
            Ok(v2) => rel_values(k, v1, v2),
        },
    }
}

/// Execution of a statement under an environment, indexed by the
/// number of loop iterations still allowed: `None` means the budget
/// ran out before the statement finished, `Some` is the definite
/// outcome. Execution on the machine follows this relation for some
/// large enough budget; a program whose loop never ends simply has no
/// budget under which it finishes.
pub open spec fn exec_fuel(s: StmtV, env: Map<Seq<char>, ExprV>, fuel: nat) -> Option<
    Result<Map<Seq<char>, ExprV>, ErrV>,
>
    decreases fuel, ssize(s),
{
    match s {
        StmtV::VarDeclaration(_) => Some(Err(ErrV::NotImplemented(stmt_not_implemented()))),
        StmtV::ValDeclaration(_) => Some(Err(ErrV::NotImplemented(stmt_not_implemented()))),
        StmtV::Assignment(n, e) => match eval_spec(e, env) {
            Ok(v) => Some(Ok(env.insert(n, v))),
            Err(er) => Some(Err(er)),
        },
        StmtV::IfThenElse(c, t, el) => match eval_spec(c, env) {
            Ok(ExprV::CTrue) => exec_fuel(*t, env, fuel),
            Ok(ExprV::CFalse) => exec_fuel(*el, env, fuel),
            Ok(_) => Some(Err(ErrV::TypeError(cond_err()))),
            Err(er) => Some(Err(er)),
        },
        StmtV::While(c, b) => match eval_spec(c, env) {
            Ok(ExprV::CTrue) => if fuel == 0 {
                None
            } else {
                match exec_fuel(*b, env, fuel) {
                    Some(Ok(env2)) => exec_fuel(StmtV::While(c, b), env2, (fuel - 1) as nat),
                    Some(Err(er)) => Some(Err(er)),
                    None => None,
                }
            },
            Ok(ExprV::CFalse) => Some(Ok(env)),
            Ok(_) => Some(Err(ErrV::TypeError(cond_err()))),
            Err(er) => Some(Err(er)),
        },
        StmtV::Sequence(s1, s2) => match exec_fuel(*s1, env, fuel) {
            Some(Ok(env2)) => exec_fuel(*s2, env2, fuel),
            Some(Err(er)) => Some(Err(er)),
            None => None,
        },
    }
}

/// Whether execution of a statement finishes at all (with a result or
/// with an error) under some loop budget.
pub open spec fn terminates(s: StmtV, env: Map<Seq<char>, ExprV>) -> bool {
    exists|f: nat| (#[trigger] exec_fuel(s, env, f)) is Some
}

/// A definite outcome never changes when the budget grows: the budget
/// only decides how far a loop may run, not what it computes.
pub proof fn lemma_exec_fuel_mono(s: StmtV, env: Map<Seq<char>, ExprV>, f1: nat, f2: nat)
    requires
        f1 <= f2,
        exec_fuel(s, env, f1) is Some,
    ensures
        exec_fuel(s, env, f2) == exec_fuel(s, env, f1),
    decreases f1, ssize(s),
{
    match s {
        StmtV::VarDeclaration(_) => {},
        StmtV::ValDeclaration(_) => {},
        StmtV::Assignment(_, _) => {},
        StmtV::IfThenElse(c, t, el) => match eval_spec(c, env) {
            Ok(ExprV::CTrue) => lemma_exec_fuel_mono(*t, env, f1, f2),
            Ok(ExprV::CFalse) => lemma_exec_fuel_mono(*el, env, f1, f2),
            _ => {},
        },
        StmtV::While(c, b) => {
            if eval_spec(c, env) == Ok::<ExprV, ErrV>(ExprV::CTrue) {
                lemma_exec_fuel_mono(*b, env, f1, f2);
                match exec_fuel(*b, env, f1) {
                    Some(Ok(env2)) => {
                        lemma_exec_fuel_mono(s, env2, (f1 - 1) as nat, (f2 - 1) as nat);
                    },
                    _ => {},
                }
            }
        },
        StmtV::Sequence(s1, s2) => {
            lemma_exec_fuel_mono(*s1, env, f1, f2);
            match exec_fuel(*s1, env, f1) {
                Some(Ok(env2)) => lemma_exec_fuel_mono(*s2, env2, f1, f2),
                _ => {},
            }
        },
    }
}

/// Any two definite outcomes of the same statement under the same
/// environment agree: execution is deterministic.
pub proof fn lemma_exec_fuel_agree(s: StmtV, env: Map<Seq<char>, ExprV>, f1: nat, f2: nat)
    requires
        exec_fuel(s, env, f1) is Some,
        exec_fuel(s, env, f2) is Some,
    ensures
        exec_fuel(s, env, f1) == exec_fuel(s, env, f2),
{
    if f1 <= f2 {
        lemma_exec_fuel_mono(s, env, f1, f2);
    } else {
        lemma_exec_fuel_mono(s, env, f2, f1);
    }
}

/// Executing an assignment changes one binding and nothing else: on
/// success the new environment is the old one with the assigned name
/// bound to the evaluated value, so every other name keeps exactly
/// the binding it had.
pub proof fn lemma_assignment_inserts(
    n: Seq<char>,
    e: ExprV,
    env: Map<Seq<char>, ExprV>,
    fuel: nat,
)
    requires
        eval_spec(e, env) matches Ok(v),
    ensures
        exec_fuel(StmtV::Assignment(n, e), env, fuel) == Some(
            Ok::<Map<Seq<char>, ExprV>, ErrV>(env.insert(n, eval_spec(e, env)->Ok_0)),
        ),
{
}

/// Whether a statement contains no loop at all.
pub open spec fn loop_free(s: StmtV) -> bool
    decreases s,
{
    match s {
        StmtV::VarDeclaration(_) => true,
        StmtV::ValDeclaration(_) => true,
        StmtV::Assignment(_, _) => true,
        StmtV::IfThenElse(_, t, e) => loop_free(*t) && loop_free(*e),
        StmtV::While(_, _) => false,
        StmtV::Sequence(s1, s2) => loop_free(*s1) && loop_free(*s2),
    }
}

proof fn lemma_loop_free_some(s: StmtV, env: Map<Seq<char>, ExprV>, fuel: nat)
    requires
        loop_free(s),
    ensures
        exec_fuel(s, env, fuel) is Some,
    decreases s,
{
    match s {
        StmtV::IfThenElse(c, t, el) => {
            lemma_loop_free_some(*t, env, fuel);
            lemma_loop_free_some(*el, env, fuel);
        },
        StmtV::Sequence(s1, s2) => {
            lemma_loop_free_some(*s1, env, fuel);
            match exec_fuel(*s1, env, fuel) {
                Some(Ok(env2)) => lemma_loop_free_some(*s2, env2, fuel),
                _ => {},
            }
        },
        _ => {},
    }
}

/// A statement without loops always finishes: the termination
/// obligation of the executor holds of every straight-line program,
/// whatever the environment.
pub proof fn lemma_loop_free_terminates(s: StmtV, env: Map<Seq<char>, ExprV>)
    requires
        loop_free(s),
    ensures
        terminates(s, env),
{
    lemma_loop_free_some(s, env, 0);
}

/// Adding two integer constants is commutative: evaluating the sum in
/// either operand order gives the same result, whatever the
/// environment.
pub proof fn lemma_add_int_commutes(a: i32, b: i32, env: Map<Seq<char>, ExprV>)
    ensures
        eval_spec(
            ExprV::Add(Box::new(ExprV::CInt(a)), Box::new(ExprV::CInt(b))),
            env,
        ) == eval_spec(ExprV::Add(Box::new(ExprV::CInt(b)), Box::new(ExprV::CInt(a))), env),
{
    reveal_with_fuel(eval_spec, 4);
    reveal_with_fuel(arith_spec, 4);
    let l = ExprV::CInt(a);
    let r = ExprV::CInt(b);
    assert(eval_spec(l, env) == Ok::<ExprV, ErrV>(l));
    assert(eval_spec(r, env) == Ok::<ExprV, ErrV>(r));
    assert(eval_spec(ExprV::Add(Box::new(l), Box::new(r)), env) == arith_values(
        ArithKind::Add,
        l,
        r,
    ));
    assert(eval_spec(ExprV::Add(Box::new(r), Box::new(l)), env) == arith_values(
        ArithKind::Add,
        r,
        l,
    ));
}

/// `and` does not short-circuit: even when the left operand already
/// evaluates to false, a right operand that evaluates to a value of
/// the wrong kind still makes the whole conjunction a type error.
pub proof fn lemma_and_checks_rhs(lhs: ExprV, rhs: ExprV, env: Map<Seq<char>, ExprV>)
    requires
        eval_spec(lhs, env) == Ok::<ExprV, ErrV>(ExprV::CFalse),
        eval_spec(rhs, env) matches Ok(v) && !is_bool_const(v),
    ensures
        eval_spec(ExprV::And(Box::new(lhs), Box::new(rhs)), env) == Err::<ExprV, ErrV>(
            ErrV::TypeError(bool_err(BoolKind::And)),
        ),
{
    reveal_with_fuel(eval_spec, 4);
    reveal_with_fuel(bool_spec, 4);
    let v = eval_spec(rhs, env)->Ok_0;
    assert(eval_spec(ExprV::And(Box::new(lhs), Box::new(rhs)), env) == bool_values(
        BoolKind::And,
        ExprV::CFalse,
        v,
    ));
}

/// `or` does not short-circuit: even when the left operand already
/// evaluates to true, a right operand that evaluates to a value of
/// the wrong kind still makes the whole disjunction a type error.
pub proof fn lemma_or_checks_rhs(lhs: ExprV, rhs: ExprV, env: Map<Seq<char>, ExprV>)
    requires
        eval_spec(lhs, env) == Ok::<ExprV, ErrV>(ExprV::CTrue),
        eval_spec(rhs, env) matches Ok(v) && !is_bool_const(v),
    ensures
        eval_spec(ExprV::Or(Box::new(lhs), Box::new(rhs)), env) == Err::<ExprV, ErrV>(
            ErrV::TypeError(bool_err(BoolKind::Or)),
        ),
{
    reveal_with_fuel(eval_spec, 4);
    reveal_with_fuel(bool_spec, 4);
    let v = eval_spec(rhs, env)->Ok_0;
    assert(eval_spec(ExprV::Or(Box::new(lhs), Box::new(rhs)), env) == bool_values(
        BoolKind::Or,
        ExprV::CTrue,
        v,
    ));
}

} // verus!

