//! The payload one registrant submits as a single unit.

use vstd::prelude::*;

use crate::archer::Archer;
use crate::locale::Locale;

verus! {

/// A registration batch: the registrant's shared contact data and the ordered
/// archers submitted together. Batch-level rules (such as a closed session)
/// belong to the callers, not to this crate.
#[derive(Clone, Debug, PartialEq)]
pub struct CreateArchersPayload {
    pub name: String,
    pub mail: String,
    pub comment: String,
    pub club: String,
    pub archers: Vec<Archer>,
    pub locale: Locale,
}

} // verus!
