//! Semantic versions of the shape `vMAJOR.MINOR.PATCH[-PRERELEASE][+BUILD]`:
//! a value type with a builder, a parser, a formatter and a bump operation.

pub mod builder;
pub mod bump;
pub mod decimal;
pub mod error;
pub mod from_str;
pub mod grammar;
pub mod round_trip;
pub mod version;
pub mod version_part;

pub use error::VersionError;
pub use version::Version;
pub use version_part::VersionPart;
