//! What the build of the host bindings computes: the include directories
//! named in the host's generated makefile, the configuration that the
//! host's headers reveal, and the table of types that come from other
//! crates.
//!
//! Text is handled as sequences of characters. Reading files, running the
//! preprocessor and printing are left to the caller.

pub mod expand;
pub mod external_types;
pub mod makefile;
pub mod metadata;
pub mod text;
