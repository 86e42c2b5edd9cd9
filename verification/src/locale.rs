//! Locale tags: they select which display-name table is read, nothing more.

use vstd::prelude::*;

use crate::text::str_eq;

verus! {

#[derive(Debug, Clone, Copy, PartialEq, Eq, Structural)]
pub enum Locale {
    En,
    De,
}

impl Locale {
    /// Recognises exactly the two locale tags in use.
    pub fn from_str(s: &str) -> (r: Option<Locale>)
        ensures
            r == (if s@ == "en"@ {
                Some(Locale::En)
            } else if s@ == "de"@ {
                Some(Locale::De)
            } else {
                None::<Locale>
            }),
    {
        proof {
            reveal_strlit("en");
            reveal_strlit("de");
        }
        if str_eq(s, "en") {
            Some(Locale::En)
        } else if str_eq(s, "de") {
            Some(Locale::De)
        } else {
            None
        }
    }
}

impl Default for Locale {
    fn default() -> (r: Self)
        ensures
            r == Locale::De,
    {
        Locale::De
    }
}

} // verus!
