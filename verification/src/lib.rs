//! A small protocol runner for two-part puzzle solutions.
//!
//! A run selects one of two caller-supplied solver functions by a part
//! selector parsed from a single token, loads the puzzle input from an
//! abstract input source, forwards a bundle of free-form arguments to the
//! selected solver, and unifies the solver's own error type into one
//! reportable error. The dispatch logic is verified: exactly one solver's
//! result can reach the caller, the argument bundle is forwarded verbatim,
//! and every failure is accounted for by the error taxonomy.

mod args;
mod dispatch;
mod error;
mod input;
mod part;
mod render;

pub use args::FireplaceArgs;
pub use dispatch::Either;
pub use dispatch::dispatch;
pub use dispatch::run;
pub use error::FireplaceError;
pub use error::FireplaceResult;
pub use input::FixedInput;
pub use input::InputReader;
pub use part::AoCPart;
pub use part::lemma_parse_part_total;
pub use render::Render;
