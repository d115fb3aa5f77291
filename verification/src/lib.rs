//! Repeating-key XOR obfuscation of byte streams, and the resolution of a
//! key argument into key bytes.

pub mod argument;
pub mod translate;

pub use argument::parse_argument;
pub use argument::ArgResult;
pub use argument::ReadError;
pub use argument::ReadErrorKind;
pub use translate::xor_translate;
pub use translate::xor_translate_str;
