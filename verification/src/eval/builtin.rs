pub mod builtin;
pub mod etc;
pub mod file;
pub mod io;
pub mod list;
pub mod num;
pub mod str;
