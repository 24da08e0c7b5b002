//! What a typesetting compiler asks for while it compiles, and what becomes
//! of its result.
//!
//! During one compile the compiler asks, as often as it likes and in any
//! order, for its standard library, for fonts by index, for files by
//! identifier, for the main source and for the date. The
//! [`environment::CompilationEnvironment`] answers all of that. Each answer
//! is decided here and proved to be the one that the contract names; what
//! has to be fetched from outside (a file's bytes, the compiler's run, the
//! encoder's) is handed in by the caller, and the contracts hold for whatever
//! is handed in.
//!
//! - [`fonts`]: the catalog of font faces, indexed once, bytes on demand
//! - [`files`] and [`paths`]: auxiliary files below one root, read once
//! - [`source`]: the main source of a compile
//! - [`clock`]: the date and time at an offset from UTC
//! - [`environment`]: all of these behind one value
//! - [`compile`]: from the compiler's result to PDF bytes or one error
//! - [`templates`] and [`routes`]: the markup of an invoice, and what the
//!   service says to its clients
//! - [`text`] and [`bytes`]: small helpers the others share

pub mod bytes;
pub mod clock;
pub mod compile;
pub mod environment;
pub mod files;
pub mod fonts;
pub mod paths;
pub mod routes;
pub mod source;
pub mod templates;
pub mod text;
