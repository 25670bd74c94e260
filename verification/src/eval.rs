pub mod builtin;
pub mod env;
pub mod error;
pub mod eval;
pub mod eval_func;
pub mod machine;
pub mod ops;
pub mod same;
pub mod semantics;
pub mod value;
