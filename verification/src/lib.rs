//! Command-line arguments that name either a file or a standard stream.
//!
//! A tool that reads from a file or from standard input, and writes to a file or to standard
//! output, takes an [`IoArg`] for each: `-` on the command line stands for the standard
//! stream, any other text is a path. [`Input`] and [`Output`] are what such an argument
//! opens into.
//!
//! The handles themselves are type parameters, and the calls that produce them are passed in.
//! So everything this crate decides is stated in contracts and proved for every kind of
//! handle: which text is which argument, which handle is opened for it, that an error of
//! opening reaches the caller unchanged, and which view is laid over which handle.

pub mod input;
pub mod io_arg;
pub mod output;

pub use self::input::Input;
pub use self::io_arg::IoArg;
pub use self::output::Output;
