pub mod number;
pub mod whitespace;

pub use number::{digit, i64, u64};
pub use whitespace::whitespace;
