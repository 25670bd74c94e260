pub mod ast;
pub mod debugger;
pub mod eval;
pub mod lexer;
pub mod lsp;
pub mod number;
pub mod parser;
pub mod text;
pub mod token;
