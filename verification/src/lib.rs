//! Build-time expansion of a declared error taxonomy.
//!
//! A declaration names a closed set of error variants, each carrying an
//! optional metadata block (`status`, `tag`, `code`, `message`). The
//! expander turns one declaration into the source text of a concrete error
//! enum together with a display implementation, three classification
//! accessors, a conversion into the generic error envelope, and a
//! conversion into a transport response.

pub mod attrs;
pub mod decl;
pub mod envelope;
pub mod expand;
pub mod laws;
pub mod render;
pub mod taxonomy;
pub mod text;
