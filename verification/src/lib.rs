//! The evaluation core of a small imperative language: an expression
//! evaluator and a statement executor working directly over an abstract
//! syntax tree. The semantics stands in specification functions, and
//! every executable function is proved against it: evaluation returns
//! exactly the value or the error the semantics assigns, and execution
//! returns exactly the environment the semantics assigns under some
//! loop budget.

pub mod ast;
pub mod environment;
pub mod interpreter;
pub mod binary64;
pub mod semantics;
