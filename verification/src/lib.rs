//! Conversion of internationalized domain names between their Unicode
//! and ASCII (Punycode) forms under the UTS 46 profile, with the
//! validation strictness chosen by three named settings.

pub mod convert;
pub mod engine;
pub mod error;
pub mod my_config;
pub mod punycode;
pub mod text;

pub use convert::{idna_to_ascii, idna_to_unicode, idna_to_unicode_lossy};
pub use error::IdnaError;
pub use punycode::idna_is_punycode;
pub use text::idna_is_ascii;
