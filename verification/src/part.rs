//! The two-valued part selector and its parser.

use vstd::prelude::*;

use crate::error::FireplaceError;
use crate::error::FireplaceResult;

verus! {

/// Selects which of the two solver functions a run executes.
#[derive(Clone, Copy, Debug, PartialEq, Eq, Structural)]
pub enum AoCPart {
    Pt1,
    Pt2,
}

impl AoCPart {
    /// What parsing a part token yields: "1" is part one, "2" is part two,
    /// and every other token is rejected as `InvalidPart`.
    pub open spec fn spec_from_str(s: Seq<char>) -> FireplaceResult<AoCPart> {
        if s == "1"@ {
            Ok(AoCPart::Pt1)
        } else if s == "2"@ {
            Ok(AoCPart::Pt2)
        } else {
            Err(FireplaceError::InvalidPart)
        }
    }

    /// Parses a part token. Total over its failure domain: every string
    /// yields either one of the two parts or `InvalidPart`, never a panic.
    pub fn from_str(s: &str) -> (r: FireplaceResult<AoCPart>)
        ensures
            r == AoCPart::spec_from_str(s@),
    {
        let token: String = s.to_owned();
        if token == "1".to_owned() {
            Ok(AoCPart::Pt1)
        } else if token == "2".to_owned() {
            Ok(AoCPart::Pt2)
        } else {
            Err(FireplaceError::InvalidPart)
        }
    }
}

/// Parsing a part token is total and exactly two-valued on success: it
/// succeeds precisely on the tokens "1" and "2", each mapped to its own
/// part, and rejects every other token as `InvalidPart`.
pub proof fn lemma_parse_part_total(s: Seq<char>)
    ensures
        s == "1"@ ==> AoCPart::spec_from_str(s) == FireplaceResult::<AoCPart>::Ok(AoCPart::Pt1),
        s == "2"@ ==> AoCPart::spec_from_str(s) == FireplaceResult::<AoCPart>::Ok(AoCPart::Pt2),
        s != "1"@ && s != "2"@ ==> AoCPart::spec_from_str(s) == FireplaceResult::<AoCPart>::Err(
            FireplaceError::InvalidPart,
        ),
{
    reveal_strlit("1");
    reveal_strlit("2");
    assert("1"@[0] == '1');
    assert("2"@[0] == '2');
}

} // verus!
