/// A specialized cursor for byte data (u8).
pub use crate::byte_cursor::ByteCursor;
