//! Renders the members of an enumerated type as strings in a chosen naming
//! style, and lists them.
//!
//! A type is described by a [`definition::TypeDefinition`]. Naming styles
//! ([`case_type::CaseType`]) are selected by directive tokens attached to the
//! type and to its members ([`directive`]); a member's own directive overrides
//! that of the type. [`display::derive_enum_display`] renders every member in
//! its style and writes the `Display` impl that shows it;
//! [`listing::derive_enum_vec`] writes the function that lists the members.

pub mod case_type;
pub mod definition;
pub mod directive;
pub mod display;
pub mod error;
pub mod laws;
pub mod listing;
pub mod render;
pub mod text;
pub mod traits;

pub use case_type::{CaseType, CaseTypeError};
pub use display::derive_enum_display;
pub use listing::derive_enum_vec;
pub use traits::EnumVec;
