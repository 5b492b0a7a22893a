//! The closed error taxonomy for a run.

use vstd::prelude::*;

use crate::render::Render;

verus! {

/// Every way a run can fail.
///
/// The taxonomy is closed: input acquisition failures carry the underlying
/// I/O description, selector validation has one variant for an absent token
/// and one for an unrecognized token, and a failure inside the selected
/// solver is wrapped verbatim as `FromUser`.
#[derive(Debug)]
pub enum FireplaceError {
    /// The input stream could not be fully read; carries the description of
    /// the underlying failure.
    IO(String),
    /// A part token was supplied but was neither "1" nor "2".
    InvalidPart,
    /// The required part token was never supplied.
    MissingPart,
    /// The selected solver itself failed; carries the solver error's
    /// textual description, unchanged.
    FromUser(String),
}

/// Return value for the solution functions and for the runner itself.
pub type FireplaceResult<T> = Result<T, FireplaceError>;

impl FireplaceError {
    /// The user-facing description of the error.
    pub open spec fn spec_message(&self) -> Seq<char> {
        match self {
            FireplaceError::IO(m) => m@,
            FireplaceError::InvalidPart => "Invalid part, please use 1 or 2 as argument for --part flag."@,
            FireplaceError::MissingPart => "Missing part, please use 1 or 2 as argument for --part flag."@,
            FireplaceError::FromUser(m) => m@,
        }
    }

    /// Renders the user-facing description of the error.
    pub fn message(&self) -> (s: String)
        ensures
            s@ == self.spec_message(),
    {
        match self {
            FireplaceError::IO(m) => m.clone(),
            FireplaceError::InvalidPart => "Invalid part, please use 1 or 2 as argument for --part flag.".to_owned(),
            FireplaceError::MissingPart => "Missing part, please use 1 or 2 as argument for --part flag.".to_owned(),
            FireplaceError::FromUser(m) => m.clone(),
        }
    }
}

impl Render for FireplaceError {
    open spec fn render_spec(&self) -> Seq<char> {
        self.spec_message()
    }

    fn render(&self) -> (s: String)
        ensures
            s@ == self.render_spec(),
    {
        self.message()
    }
}

} // verus!
