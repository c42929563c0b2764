use vstd::prelude::*;

verus! {

/// A variable identifier.
pub type Name = String;

/// The types of the modelled language. The evaluator does no static
/// type checking; this enum only describes the value kinds.
#[derive(Debug, PartialEq)]
pub enum Type {
    TInteger,
    TBool,
    TReal,
    TString,
    TList(Box<Type>),
    TTuple(Vec<Type>),
}

/// Expression nodes. Every node owns its operand subtrees, so an
/// expression is always a finite tree.
///
/// A real constant carries the bit pattern of an IEEE 754 binary64
/// number in a `u64` (as produced by `f64::to_bits`), since the
/// verified core states its contracts over those bits.
#[derive(Debug, PartialEq)]
pub enum Expression {
    /* constants */
    CTrue,
    CFalse,
    CInt(i32),
    CReal(u64),
    CString(String),
    /* variable reference */
    Var(Name),
    /* arithmetic expressions over numbers */
    Add(Box<Expression>, Box<Expression>),
    Sub(Box<Expression>, Box<Expression>),
    Mul(Box<Expression>, Box<Expression>),
    Div(Box<Expression>, Box<Expression>),
    /* boolean expressions over booleans */
    And(Box<Expression>, Box<Expression>),
    Or(Box<Expression>, Box<Expression>),
    Not(Box<Expression>),
    /* relational expressions over numbers */
    EQ(Box<Expression>, Box<Expression>),
    GT(Box<Expression>, Box<Expression>),
    LT(Box<Expression>, Box<Expression>),
    GTE(Box<Expression>, Box<Expression>),
    LTE(Box<Expression>, Box<Expression>),
}

/// Statement nodes.
#[derive(Debug, PartialEq)]
pub enum Statement {
    VarDeclaration(Box<Name>),
    ValDeclaration(Box<Name>),
    Assignment(Box<Name>, Box<Expression>),
    IfThenElse(Box<Expression>, Box<Statement>, Box<Statement>),
    While(Box<Expression>, Box<Statement>),
    Sequence(Box<Statement>, Box<Statement>),
}

/// The mathematical image of an `Expression`: strings become
/// sequences of characters, everything else keeps its shape.
pub enum ExprV {
    CTrue,
    CFalse,
    CInt(i32),
    CReal(u64),
    CString(Seq<char>),
    Var(Seq<char>),
    Add(Box<ExprV>, Box<ExprV>),
    Sub(Box<ExprV>, Box<ExprV>),
    Mul(Box<ExprV>, Box<ExprV>),
    Div(Box<ExprV>, Box<ExprV>),
    And(Box<ExprV>, Box<ExprV>),
    Or(Box<ExprV>, Box<ExprV>),
    Not(Box<ExprV>),
    EQ(Box<ExprV>, Box<ExprV>),
    GT(Box<ExprV>, Box<ExprV>),
    LT(Box<ExprV>, Box<ExprV>),
    GTE(Box<ExprV>, Box<ExprV>),
    LTE(Box<ExprV>, Box<ExprV>),
}

/// The mathematical image of a `Statement`.
pub enum StmtV {
    VarDeclaration(Seq<char>),
    ValDeclaration(Seq<char>),
    Assignment(Seq<char>, ExprV),
    IfThenElse(ExprV, Box<StmtV>, Box<StmtV>),
    While(ExprV, Box<StmtV>),
    Sequence(Box<StmtV>, Box<StmtV>),
}

pub open spec fn view_expr(e: Expression) -> ExprV
    decreases e,
{
    match e {
        Expression::CTrue => ExprV::CTrue,
        Expression::CFalse => ExprV::CFalse,
        Expression::CInt(i) => ExprV::CInt(i),
        Expression::CReal(b) => ExprV::CReal(b),
        Expression::CString(s) => ExprV::CString(s@),
        Expression::Var(n) => ExprV::Var(n@),
        Expression::Add(l, r) => ExprV::Add(
            Box::new(view_expr(*l)),
            Box::new(view_expr(*r)),
        ),
        Expression::Sub(l, r) => ExprV::Sub(
            Box::new(view_expr(*l)),
            Box::new(view_expr(*r)),
        ),
        Expression::Mul(l, r) => ExprV::Mul(
            Box::new(view_expr(*l)),
            Box::new(view_expr(*r)),
        ),
        Expression::Div(l, r) => ExprV::Div(
            Box::new(view_expr(*l)),
            Box::new(view_expr(*r)),
        ),
        Expression::And(l, r) => ExprV::And(
            Box::new(view_expr(*l)),
            Box::new(view_expr(*r)),
        ),
        Expression::Or(l, r) => ExprV::Or(
            Box::new(view_expr(*l)),
            Box::new(view_expr(*r)),
        ),
        Expression::Not(l) => ExprV::Not(Box::new(view_expr(*l))),
        Expression::EQ(l, r) => ExprV::EQ(
            Box::new(view_expr(*l)),
            Box::new(view_expr(*r)),
        ),
        Expression::GT(l, r) => ExprV::GT(
            Box::new(view_expr(*l)),
            Box::new(view_expr(*r)),
        ),
        Expression::LT(l, r) => ExprV::LT(
            Box::new(view_expr(*l)),
            Box::new(view_expr(*r)),
        ),
        Expression::GTE(l, r) => ExprV::GTE(
            Box::new(view_expr(*l)),
            Box::new(view_expr(*r)),
        ),
        Expression::LTE(l, r) => ExprV::LTE(
            Box::new(view_expr(*l)),
            Box::new(view_expr(*r)),
        ),
    }
}

pub open spec fn view_stmt(s: Statement) -> StmtV
    decreases s,
{
    match s {
        Statement::VarDeclaration(n) => StmtV::VarDeclaration((*n)@),
        Statement::ValDeclaration(n) => StmtV::ValDeclaration((*n)@),
        Statement::Assignment(n, e) => StmtV::Assignment((*n)@, view_expr(*e)),
        Statement::IfThenElse(c, t, e) => StmtV::IfThenElse(
            view_expr(*c),
            Box::new(view_stmt(*t)),
            Box::new(view_stmt(*e)),
        ),
        Statement::While(c, b) => StmtV::While(view_expr(*c), Box::new(view_stmt(*b))),
        Statement::Sequence(s1, s2) => StmtV::Sequence(
            Box::new(view_stmt(*s1)),
            Box::new(view_stmt(*s2)),
        ),
    }
}

impl View for Expression {
    type V = ExprV;

    open spec fn view(&self) -> ExprV {
        view_expr(*self)
    }
}

impl View for Statement {
    type V = StmtV;

    open spec fn view(&self) -> StmtV {
        view_stmt(*self)
    }
}

/// Number of nodes of an expression; a measure for recursion over trees.
pub open spec fn esize(e: ExprV) -> nat
    decreases e,
{
    match e {
        ExprV::CTrue => 1,
        ExprV::CFalse => 1,
        ExprV::CInt(_) => 1,
        ExprV::CReal(_) => 1,
        ExprV::CString(_) => 1,
        ExprV::Var(_) => 1,
        ExprV::Add(l, r) => 1 + esize(*l) + esize(*r),
        ExprV::Sub(l, r) => 1 + esize(*l) + esize(*r),
        ExprV::Mul(l, r) => 1 + esize(*l) + esize(*r),
        ExprV::Div(l, r) => 1 + esize(*l) + esize(*r),
        ExprV::And(l, r) => 1 + esize(*l) + esize(*r),
        ExprV::Or(l, r) => 1 + esize(*l) + esize(*r),
        ExprV::Not(l) => 1 + esize(*l),
        ExprV::EQ(l, r) => 1 + esize(*l) + esize(*r),
        ExprV::GT(l, r) => 1 + esize(*l) + esize(*r),
        ExprV::LT(l, r) => 1 + esize(*l) + esize(*r),
        ExprV::GTE(l, r) => 1 + esize(*l) + esize(*r),
        ExprV::LTE(l, r) => 1 + esize(*l) + esize(*r),
    }
}

/// Number of statement nodes; a measure for recursion over statements.
pub open spec fn ssize(s: StmtV) -> nat
    decreases s,
{
    match s {
        StmtV::VarDeclaration(_) => 1,
        StmtV::ValDeclaration(_) => 1,
        StmtV::Assignment(_, _) => 1,
        StmtV::IfThenElse(_, t, e) => 1 + ssize(*t) + ssize(*e),
        StmtV::While(_, b) => 1 + ssize(*b),
        StmtV::Sequence(s1, s2) => 1 + ssize(*s1) + ssize(*s2),
    }
}

fn clone_expr(e: &Expression) -> (res: Expression)
    ensures
        res@ == e@,
    decreases *e,
{
    match e {
        Expression::CTrue => Expression::CTrue,
        Expression::CFalse => Expression::CFalse,
        Expression::CInt(i) => Expression::CInt(*i),
        Expression::CReal(b) => Expression::CReal(*b),
        Expression::CString(s) => Expression::CString(s.clone()),
        Expression::Var(n) => Expression::Var(n.clone()),
        Expression::Add(l, r) => Expression::Add(
            Box::new(clone_expr(&**l)),
            Box::new(clone_expr(&**r)),
        ),
        Expression::Sub(l, r) => Expression::Sub(
            Box::new(clone_expr(&**l)),
            Box::new(clone_expr(&**r)),
        ),
        Expression::Mul(l, r) => Expression::Mul(
            Box::new(clone_expr(&**l)),
            Box::new(clone_expr(&**r)),
        ),
        Expression::Div(l, r) => Expression::Div(
            Box::new(clone_expr(&**l)),
            Box::new(clone_expr(&**r)),
        ),
        Expression::And(l, r) => Expression::And(
            Box::new(clone_expr(&**l)),
            Box::new(clone_expr(&**r)),
        ),
        Expression::Or(l, r) => Expression::Or(
            Box::new(clone_expr(&**l)),
            Box::new(clone_expr(&**r)),
        ),
        Expression::Not(l) => Expression::Not(Box::new(clone_expr(&**l))),
        Expression::EQ(l, r) => Expression::EQ(
            Box::new(clone_expr(&**l)),
            Box::new(clone_expr(&**r)),
        ),
        Expression::GT(l, r) => Expression::GT(
            Box::new(clone_expr(&**l)),
            Box::new(clone_expr(&**r)),
        ),
        Expression::LT(l, r) => Expression::LT(
            Box::new(clone_expr(&**l)),
            Box::new(clone_expr(&**r)),
        ),
        Expression::GTE(l, r) => Expression::GTE(
            Box::new(clone_expr(&**l)),
            Box::new(clone_expr(&**r)),
        ),
        Expression::LTE(l, r) => Expression::LTE(
            Box::new(clone_expr(&**l)),
            Box::new(clone_expr(&**r)),
        ),
    }
}

fn clone_stmt(s: &Statement) -> (res: Statement)
    ensures
        res@ == s@,
    decreases *s,
{
    match s {
        Statement::VarDeclaration(n) => Statement::VarDeclaration(Box::new((**n).clone())),
        Statement::ValDeclaration(n) => Statement::ValDeclaration(Box::new((**n).clone())),
        Statement::Assignment(n, e) => Statement::Assignment(
            Box::new((**n).clone()),
            Box::new(clone_expr(&**e)),
        ),
        Statement::IfThenElse(c, t, e) => Statement::IfThenElse(
            Box::new(clone_expr(&**c)),
            Box::new(clone_stmt(&**t)),
            Box::new(clone_stmt(&**e)),
        ),
        Statement::While(c, b) => Statement::While(
            Box::new(clone_expr(&**c)),
            Box::new(clone_stmt(&**b)),
        ),
        Statement::Sequence(s1, s2) => Statement::Sequence(
            Box::new(clone_stmt(&**s1)),
            Box::new(clone_stmt(&**s2)),
        ),
    }
}

impl Clone for Expression {
    /// Cloning an expression keeps its mathematical view.
    fn clone(&self) -> (res: Self)
        ensures
            res@ == self@,
    {
        clone_expr(self)
    }
}

impl Clone for Statement {
    /// Cloning a statement keeps its mathematical view.
    fn clone(&self) -> (res: Self)
        ensures
            res@ == self@,
    {
        clone_stmt(self)
    }
}

} // verus!
