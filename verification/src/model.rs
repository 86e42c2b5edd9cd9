//! The per-archer form model and the reconciliation rules that keep a chosen
//! class and target face consistent with the current date of birth and bow
//! type. The surrounding user interface owns rendering and message plumbing;
//! the decisions live here.

use vstd::prelude::*;

use crate::bow_type::BowType;
use crate::class::{season_start, season_start_spec, Class, ClassUpgradeStatus};
use crate::date::Date;
use crate::eligibility::{
    contains_upto, default_classes_spec, defaults_from, upgrade_candidates, upgrade_classes_spec,
    upgrades_from,
};
use crate::target_face::{face_in, faces_spec, TargetFace};

verus! {

/// A date-of-birth form field: either a parsed date or the raw text that
/// failed to parse.
#[derive(Clone, Debug, PartialEq)]
pub enum DoB {
    Vaild(Date),
    Invalid(String),
}

impl DoB {
    pub fn is_valid(&self) -> (r: bool)
        ensures
            r == (*self is Vaild),
    {
        matches!(self, DoB::Vaild(_))
    }
}

/// The target faces a form may offer for a chosen class: none while no class
/// is chosen.
pub open spec fn possible_faces_spec(cls: Option<Class>) -> Seq<TargetFace> {
    match cls {
        Some(c) => faces_spec(c),
        None => Seq::empty(),
    }
}

/// The face selection after reconciling against the legal faces: an already
/// legal selection is kept, otherwise the default (first) face, with the spot
/// face as the fallback while no face is legal at all.
pub open spec fn reconciled_face_spec(cls: Option<Class>, sel: TargetFace) -> TargetFace {
    let faces = possible_faces_spec(cls);
    if faces.contains(sel) {
        sel
    } else if faces.len() > 0 {
        faces[0]
    } else {
        TargetFace::M18Spot
    }
}

/// One archer's form state.
#[derive(Clone, Debug, PartialEq)]
pub struct ArcherModel {
    pub first_name: String,
    pub last_name: String,
    pub date_of_birth: DoB,
    pub bow_type: BowType,
    pub cls: Option<Class>,
    pub session: u8,
    pub possible_target_faces: Vec<TargetFace>,
    pub selected_target_face: TargetFace,
}

/// The classes the form may offer: the full resolver answer for a parsed date
/// of birth, nothing while the date fails to parse.
pub open spec fn available_spec(m: ArcherModel, season: Date) -> Seq<Class> {
    match m.date_of_birth {
        DoB::Vaild(dob) => default_classes_spec(m.bow_type, dob, season) + upgrade_classes_spec(
            m.bow_type,
            dob,
            season,
        ),
        DoB::Invalid(_) => Seq::empty(),
    }
}

impl ArcherModel {
    /// Refreshes the offered target faces from the chosen class and keeps the
    /// selection legal, falling back to the first offered face.
    pub fn update_target_face(&mut self)
        ensures
            final(self).possible_target_faces@ == possible_faces_spec(old(self).cls),
            final(self).selected_target_face == reconciled_face_spec(
                old(self).cls,
                old(self).selected_target_face,
            ),
            final(self).first_name == old(self).first_name,
            final(self).last_name == old(self).last_name,
            final(self).date_of_birth == old(self).date_of_birth,
            final(self).bow_type == old(self).bow_type,
            final(self).cls == old(self).cls,
            final(self).session == old(self).session,
    {
        self.possible_target_faces = match self.cls {
            Some(cls) => TargetFace::for_cls(cls),
            None => Vec::new(),
        };
        proof {
            assert(self.possible_target_faces@ =~= possible_faces_spec(self.cls));
        }
        if !face_in(&self.possible_target_faces, self.selected_target_face) {
            self.selected_target_face = if self.possible_target_faces.len() > 0 {
                self.possible_target_faces[0]
            } else {
                TargetFace::M18Spot
            };
        }
    }

    /// Checks the chosen class against the classes available for the current
    /// date of birth and bow type. An available choice is kept and nothing
    /// changes. Otherwise the offered faces are refreshed and the class
    /// change to announce is returned: the first available class, or no class
    /// when none is available.
    pub fn check_and_update_cls(&mut self, season: Date) -> (r: Option<Option<Class>>)
        requires
            old(self).date_of_birth matches DoB::Vaild(d) ==> d.wf(),
            season.wf(),
        ensures
            ({
                let avail = available_spec(*old(self), season);
                if old(self).cls matches Some(c) && avail.contains(c) {
                    *final(self) == *old(self) && r is None
                } else {
                    &&& r == Some(if avail.len() > 0 {
                        Some(avail[0])
                    } else {
                        None::<Class>
                    })
                    &&& final(self).possible_target_faces@ == possible_faces_spec(old(self).cls)
                    &&& final(self).selected_target_face == reconciled_face_spec(
                        old(self).cls,
                        old(self).selected_target_face,
                    )
                    &&& final(self).first_name == old(self).first_name
                    &&& final(self).last_name == old(self).last_name
                    &&& final(self).date_of_birth == old(self).date_of_birth
                    &&& final(self).bow_type == old(self).bow_type
                    &&& final(self).cls == old(self).cls
                    &&& final(self).session == old(self).session
                }
            }),
    {
        let available: Vec<Class> = match &self.date_of_birth {
            DoB::Vaild(dob) => Class::allowed_class_list(self.bow_type, *dob, season),
            DoB::Invalid(_) => Vec::new(),
        };
        proof {
            assert(available@ =~= available_spec(*self, season));
        }
        let new_cls: Option<Class>;
        if available.len() > 0 {
            match self.cls {
                Some(cls) => {
                    let len = available.len();
                    let found = contains_upto(&available, len, cls);
                    proof {
                        assert(available@.subrange(0, available@.len() as int) =~= available@);
                    }
                    if found {
                        return None;
                    }
                    new_cls = Some(available[0]);
                },
                None => {
                    new_cls = Some(available[0]);
                },
            }
        } else {
            new_cls = None;
        }
        self.update_target_face();
        Some(new_cls)
    }

    /// Applies an announced class change and refreshes the offered faces.
    pub fn class_changed(&mut self, cls: Option<Class>)
        ensures
            final(self).cls == cls,
            final(self).possible_target_faces@ == possible_faces_spec(cls),
            final(self).selected_target_face == reconciled_face_spec(
                cls,
                old(self).selected_target_face,
            ),
            final(self).first_name == old(self).first_name,
            final(self).last_name == old(self).last_name,
            final(self).date_of_birth == old(self).date_of_birth,
            final(self).bow_type == old(self).bow_type,
            final(self).session == old(self).session,
    {
        self.cls = cls;
        self.update_target_face();
    }

    /// The form may be submitted: the two name fields agree on being filled
    /// in, a class is chosen and the date of birth parses.
    pub fn ready_for_submission(&self) -> (r: bool)
        ensures
            r == (((self.first_name@.len() == 0) == (self.last_name@.len() == 0))
                && self.cls is Some && self.date_of_birth is Vaild),
    {
        let names_agree: bool = self.first_name.as_str().is_empty()
            == self.last_name.as_str().is_empty();
        names_agree && self.cls.is_some() && self.date_of_birth.is_valid()
    }
}

/// A contact-address form field, classified once per edit.
#[derive(Clone, Debug, PartialEq)]
pub enum InsertedMail {
    Invalid(String),
    Valid(String),
}

impl InsertedMail {
    pub fn is_valid(&self) -> (r: bool)
        ensures
            r == (*self is Valid),
    {
        matches!(self, InsertedMail::Valid(_))
    }

    /// Classifies an edited contact address by the same syntax check archer
    /// construction applies, keeping the text either way.
    pub fn from_input(mail: String) -> (r: InsertedMail)
        ensures
            r == (if crate::archer::valid_email(mail@) {
                InsertedMail::Valid(mail)
            } else {
                InsertedMail::Invalid(mail)
            }),
    {
        if crate::archer::check_mail_syntax(mail.as_str()) {
            InsertedMail::Valid(mail)
        } else {
            InsertedMail::Invalid(mail)
        }
    }
}

impl Default for InsertedMail {
    fn default() -> (r: Self)
        ensures
            r matches InsertedMail::Invalid(s) && s@ == Seq::<char>::empty(),
    {
        InsertedMail::Invalid(String::new())
    }
}

/// The registrant's own form state, shared by all archers of one submission.
#[derive(Clone, Debug, PartialEq)]
pub struct Registrator {
    pub name: String,
    pub mail: InsertedMail,
    pub comment: String,
    pub club: String,
}

/// What the resolver answers for the epoch date of birth under recurve for
/// the deployed season: the two master brackets, upgradable to the two adult
/// brackets.
#[verifier::rlimit(100)]
proof fn lemma_epoch_recurve_classes()
    ensures
        default_classes_spec(
            BowType::Recurve,
            Date { year: 1970, month: 1, day: 1 },
            season_start_spec(),
        ) =~= seq![Class::RUE49M, Class::RUE49W],
        upgrade_classes_spec(
            BowType::Recurve,
            Date { year: 1970, month: 1, day: 1 },
            season_start_spec(),
        ) =~= seq![Class::RUE20M, Class::RUE20W],
{
    reveal_with_fuel(defaults_from, 18);
    reveal_with_fuel(upgrade_candidates, 4);
    reveal_with_fuel(upgrades_from, 4);
}

impl Default for ArcherModel {
    /// A fresh form: empty names, the epoch date of birth, recurve, the
    /// resolver's first default class for that date, and that class's default
    /// face.
    fn default() -> (r: Self)
        ensures
            r.first_name@ == Seq::<char>::empty(),
            r.last_name@ == Seq::<char>::empty(),
            r.date_of_birth == DoB::Vaild(Date { year: 1970, month: 1, day: 1 }),
            r.bow_type == BowType::Recurve,
            r.cls == Some(Class::RUE49M),
            r.session == 0,
            r.possible_target_faces@ == faces_spec(Class::RUE49M),
            r.selected_target_face == TargetFace::M18Spot,
    {
        let date = Date::default();
        let classes = Class::allowed_class_list(BowType::Recurve, date, season_start());
        proof {
            lemma_epoch_recurve_classes();
        }
        let cls = classes[0];
        let faces = TargetFace::for_cls(cls);
        let selected = faces[0];
        ArcherModel {
            first_name: String::new(),
            last_name: String::new(),
            date_of_birth: DoB::Vaild(date),
            bow_type: BowType::Recurve,
            cls: Some(cls),
            session: 0,
            possible_target_faces: faces,
            selected_target_face: selected,
        }
    }
}

} // verus!
