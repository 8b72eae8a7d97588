//! Small helpers for a host scripting runtime: a greeting built from two
//! named fields, an addition that refuses a first operand below a floor,
//! the text of a file's bytes, and a handle on a filesystem path.

pub mod decimal;
pub mod error;
pub mod greeting;
pub mod rpath;
pub mod sum;
pub mod text;

pub use error::{Error, Field};
pub use greeting::{hello, Fields};
pub use rpath::Rpath;
pub use sum::{add_numbers, FLOOR};
pub use text::read_file;
