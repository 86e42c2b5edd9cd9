//! The closed set of bow type groups that partitions the class taxonomy.

use vstd::prelude::*;

verus! {

#[derive(Debug, Clone, Copy, PartialEq, Eq, Structural)]
pub enum BowType {
    Recurve,
    Compound,
    Barebow,
}

impl BowType {
    pub fn is_recurve(&self) -> (r: bool)
        ensures
            r == (*self is Recurve),
    {
        matches!(self, BowType::Recurve)
    }

    pub fn is_compound(&self) -> (r: bool)
        ensures
            r == (*self is Compound),
    {
        matches!(self, BowType::Compound)
    }

    pub fn is_barebow(&self) -> (r: bool)
        ensures
            r == (*self is Barebow),
    {
        matches!(self, BowType::Barebow)
    }
}

impl Default for BowType {
    fn default() -> (r: Self)
        ensures
            r == BowType::Recurve,
    {
        BowType::Recurve
    }
}

} // verus!
