//! Analysis behind a `TryFrom<integer>` derive for field-less enums.
//!
//! The enum under derivation is given as plain data ([`input::DeriveInput`]);
//! [`conversion::derive`] resolves its representation type, the lint attributes to
//! carry over, and the discriminant of every variant, and returns the
//! [`conversion::Conversion`] table that the generated function matches against.

pub mod conversion;
pub mod discriminant;
pub mod input;
pub mod laws;
pub mod lints;
pub mod repr;
pub mod text;
