pub mod atomic;
pub mod byte;

pub use crate::cursor::Cursor;
pub use atomic::AtomicCursor;
pub use byte::ByteCursor;
