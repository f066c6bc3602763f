pub mod alphanumeric;
pub mod char;
pub mod digit;
pub mod letter;
pub mod string;
pub mod whitespace;

pub use alphanumeric::unicode_alphanumeric;
pub use char::char;
pub use digit::unicode_digit;
pub use letter::unicode_letter;
pub use string::is_string;
pub use whitespace::unicode_whitespace;
