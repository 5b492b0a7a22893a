//! The request a run is built from: a part selector and an argument bundle.

use vstd::prelude::*;

use crate::error::FireplaceError;
use crate::error::FireplaceResult;
use crate::part::AoCPart;

verus! {

/// One run's request: which part to execute and the free-form argument
/// bundle to forward, verbatim and in order, to the selected solver.
pub struct FireplaceArgs {
    pub part: AoCPart,
    pub args: Vec<String>,
}

impl FireplaceArgs {
    /// Builds a request from the values the command-line layer hands over:
    /// the part token, if one was supplied, and the argument bundle.
    ///
    /// An absent token is rejected as `MissingPart` before parsing is
    /// attempted; a present token that is neither "1" nor "2" is rejected
    /// as `InvalidPart`; otherwise the request carries the parsed part and
    /// the argument bundle unchanged.
    pub fn try_from(part_token: Option<String>, args: Vec<String>) -> (r: FireplaceResult<
        FireplaceArgs,
    >)
        ensures
            (part_token matches Option::None ==> r == FireplaceResult::<FireplaceArgs>::Err(
                FireplaceError::MissingPart,
            )),
            (part_token matches Option::Some(tok) ==> r == (match AoCPart::spec_from_str(tok@) {
                Ok(p) => FireplaceResult::<FireplaceArgs>::Ok(FireplaceArgs { part: p, args }),
                Err(e) => FireplaceResult::<FireplaceArgs>::Err(e),
            })),
    {
        match part_token {
            Option::None => Err(FireplaceError::MissingPart),
            Option::Some(tok) => match AoCPart::from_str(tok.as_str()) {
                Ok(part) => Ok(FireplaceArgs { part, args }),
                Err(e) => Err(e),
            },
        }
    }
}

} // verus!
