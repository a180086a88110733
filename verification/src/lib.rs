//! Validated domain string types.
//!
//! Each type wraps a single owned text buffer that is known, by
//! construction, to satisfy the grammar of its kind: `Username` accepts a
//! non-empty ASCII token of letters, digits and underscores that starts
//! with a letter or digit, while `Text` accepts any Unicode text. The only
//! way to obtain a value is through the validating parse operation, so a
//! value can be trusted without re-checking it.
//!
//! The `testing` module holds the seeded generators that drive
//! property-style tests: a positive generator whose output always parses,
//! and, for `Username`, a negative generator whose output is always
//! rejected.

pub mod error;
pub mod internet;
pub mod testing;
pub mod text;

pub use error::Error;
pub use error::Kind;
pub use internet::username::Username;
pub use text::Text;
