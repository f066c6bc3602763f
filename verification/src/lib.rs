//! # ParsiComb - Parser Combinator Library
//!
//! ParsiComb provides composable, type-safe parsers that can be combined to
//! build complex parsing logic from simple building blocks. The library
//! emphasizes:
//!
//! - **Zero panics**: All parsing errors are handled through `Result` types
//! - **Rich error reporting**: Provides line numbers, context, and detailed
//!   error messages
//! - **Composability**: Small parsers combine into larger ones using
//!   combinators
//! - **Verified behaviour**: every parser carries a contract; the combinators
//!   whose building blocks are deterministic are proved to follow an exact
//!   mathematical model

pub mod all;
pub mod and;
pub mod ascii;
pub mod atomic;
pub mod between;
pub mod byte;
pub mod byte_cursor;
pub mod default;
pub mod filter;
pub mod lazy;
pub mod cursor;
pub mod cursors;
pub mod error;
pub mod many;
pub mod map;
pub mod map_err;
pub mod not;
pub mod or;
pub mod parser;
pub mod position;
pub mod separated_list;
pub mod separated_pair;
pub mod some;
pub mod take_until;
pub mod then_optionally;
pub mod text;
pub mod utf8;

pub use all::all;
pub use atomic::{Atomic, AtomicParser, atomic};
pub use between::between;
pub use cursor::Cursor;
pub use cursors::{AtomicCursor, ByteCursor};
pub use error::{CodeLoc, ErrorLeaf, ErrorNode, ParsicombError};
pub use lazy::{Lazy, lazy};
pub use parser::Parser;
pub use position::{Position, PositionExt, Span, position};
pub use separated_list::separated_list;
pub use separated_pair::separated_pair;
