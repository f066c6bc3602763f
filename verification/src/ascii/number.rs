pub mod digit;
pub mod i64;
pub mod u64;

pub use digit::digit;
pub use i64::i64;
pub use u64::u64;
