pub mod keyword;
pub mod lsp;
