//! The target face resolver: each class maps to its non-empty, ordered list
//! of legal target faces; the first entry is the default selection.

use vstd::prelude::*;

use crate::class::Class;

verus! {

/// A target face specification: shooting distance plus face size or spot
/// pattern.
#[derive(Clone, Copy, Debug, PartialEq, Eq, Hash, Structural)]
pub enum TargetFace {
    M18cm80,
    M18cm60,
    M18cm40,
    M18Spot,
}

/// The ordered list of legal target faces of a class; the first entry is the
/// default. Keyed by class, since the face follows the class's age and skill
/// tier, not the bow type alone.
pub open spec fn faces_spec(cls: Class) -> Seq<TargetFace> {
    match cls {
        Class::RU11M | Class::RU11W | Class::RU13M | Class::RU13W => seq![TargetFace::M18cm80],
        Class::RU15M | Class::RU15W | Class::CU15 | Class::BU15 => seq![TargetFace::M18cm60],
        Class::BUE20M | Class::BUE20W | Class::BU21 => seq![TargetFace::M18cm40],
        Class::CUE20M | Class::CUE20W | Class::CUE49M | Class::CUE49W | Class::CUE65M
            | Class::CUE65W | Class::CU21 => seq![TargetFace::M18Spot],
        Class::RUE20M | Class::RUE20W | Class::RU18M | Class::RU18W | Class::RU21M
            | Class::RU21W | Class::RUE49M | Class::RUE49W | Class::RUE65M | Class::RUE65W => seq![
            TargetFace::M18Spot,
            TargetFace::M18cm40,
        ],
    }
}

impl TargetFace {
    /// The legal target faces of a class, default first.
    pub fn for_cls(cls: Class) -> (r: Vec<TargetFace>)
        ensures
            r@ == faces_spec(cls),
    {
        let v: Vec<TargetFace> = match cls {
            Class::RU11M | Class::RU11W | Class::RU13M | Class::RU13W => vec![TargetFace::M18cm80],
            Class::RU15M | Class::RU15W | Class::CU15 | Class::BU15 => vec![TargetFace::M18cm60],
            Class::BUE20M | Class::BUE20W | Class::BU21 => vec![TargetFace::M18cm40],
            Class::CUE20M | Class::CUE20W | Class::CUE49M | Class::CUE49W | Class::CUE65M
                | Class::CUE65W | Class::CU21 => vec![TargetFace::M18Spot],
            Class::RUE20M | Class::RUE20W | Class::RU18M | Class::RU18W | Class::RU21M
                | Class::RU21W | Class::RUE49M | Class::RUE49W | Class::RUE65M | Class::RUE65W => vec![
                TargetFace::M18Spot,
                TargetFace::M18cm40,
            ],
        };
        proof {
            assert(v@ =~= faces_spec(cls));
        }
        v
    }

    /// The human-readable form of the face specification.
    pub fn label(&self) -> (r: &'static str)
        ensures
            r@ == (match *self {
                TargetFace::M18cm80 => "18m / 80cm"@,
                TargetFace::M18cm60 => "18m / 60cm"@,
                TargetFace::M18cm40 => "18m / 40cm"@,
                TargetFace::M18Spot => "18m / Spot"@,
            }),
    {
        match self {
            TargetFace::M18cm80 => "18m / 80cm",
            TargetFace::M18cm60 => "18m / 60cm",
            TargetFace::M18cm40 => "18m / 40cm",
            TargetFace::M18Spot => "18m / Spot",
        }
    }
}

/// Linear search among the legal faces of a class.
pub(crate) fn face_in(v: &Vec<TargetFace>, f: TargetFace) -> (r: bool)
    ensures
        r == v@.contains(f),
{
    let mut i: usize = 0;
    while i < v.len()
        invariant
            0 <= i <= v@.len(),
            forall|j: int| 0 <= j < i ==> v@[j] != f,
        decreases v@.len() - i,
    {
        if v[i] == f {
            return true;
        }
        i += 1;
    }
    false
}

/// Every class has at least one legal target face, so the resolver is total
/// and a default selection always exists.
pub proof fn lemma_faces_nonempty(cls: Class)
    ensures
        faces_spec(cls).len() > 0,
{
}

} // verus!
