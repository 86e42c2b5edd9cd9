//! Archer construction: the single gate through which raw user input becomes
//! a trusted, invariant-checked archer record.

use vstd::prelude::*;

use crate::bow_type::BowType;
use crate::class::{Class, ClassUpgradeStatus};
use crate::date::Date;
use crate::eligibility::{default_classes_spec, upgrade_classes_spec};
use crate::target_face::{face_in, faces_spec, TargetFace};

verus! {

/// Whether a string is a syntactically valid email address; the result
/// depends on the characters alone.
pub uninterp spec fn valid_email(s: Seq<char>) -> bool;

/// Relies on email_address::EmailAddress::is_valid: the RFC address syntax
/// check, a pure function of the characters of its argument.
#[verifier::external_body]
pub(crate) fn check_mail_syntax(s: &str) -> (r: bool)
    ensures
        r == valid_email(s@),
{
    email_address::EmailAddress::is_valid(s)
}

/// The mandatory field a failed construction names.
#[derive(Debug, Clone, Copy, PartialEq, Eq, Structural)]
pub enum RequiredField {
    FirstName,
    LastName,
    Mail,
}

/// Why a construction attempt was rejected. Rejected attempts produce no
/// archer value at all.
#[derive(Debug, Clone, Copy, PartialEq, Eq, Structural)]
pub enum ValidationError {
    /// The resolver found no class at all for the date of birth and bow type.
    NoEligibleClass,
    /// The chosen class is neither in the default bracket nor a legal upgrade.
    ClassNotEligible,
    /// The chosen target face is not legal for the chosen class.
    TargetFaceNotAllowed,
    /// A mandatory text field is empty, or the contact address is malformed.
    MissingRequiredField(RequiredField),
}

/// The first mandatory field that fails, in the order the fields are checked.
pub open spec fn missing_field_spec(first: Seq<char>, last: Seq<char>, mail: Seq<char>) -> RequiredField {
    if first.len() == 0 {
        RequiredField::FirstName
    } else if last.len() == 0 {
        RequiredField::LastName
    } else {
        RequiredField::Mail
    }
}

/// A validated registration: constructed once through `Archer::new`, immutable
/// afterwards.
#[derive(Clone, Debug, PartialEq)]
pub struct Archer {
    pub first_name: String,
    pub last_name: String,
    pub mail: String,
    pub comment: String,
    pub club: String,
    pub session: u8,
    date_of_birth: Date,
    class: Class,
    target_face: TargetFace,
}

/// The row shape a stored registration is read back as.
#[derive(Clone, Debug)]
pub struct RegisteredArcher {
    pub first_name: String,
    pub last_name: String,
    pub class: String,
    pub divison: String,
    pub session: u8,
    pub club: String,
}

impl Archer {
    pub closed spec fn spec_first_name(self) -> Seq<char> {
        self.first_name@
    }

    pub closed spec fn spec_last_name(self) -> Seq<char> {
        self.last_name@
    }

    pub closed spec fn spec_mail(self) -> Seq<char> {
        self.mail@
    }

    pub closed spec fn spec_comment(self) -> Seq<char> {
        self.comment@
    }

    pub closed spec fn spec_club(self) -> Seq<char> {
        self.club@
    }

    pub closed spec fn spec_session(self) -> u8 {
        self.session
    }

    pub closed spec fn spec_date_of_birth(self) -> Date {
        self.date_of_birth
    }

    pub closed spec fn spec_class(self) -> Class {
        self.class
    }

    pub closed spec fn spec_target_face(self) -> TargetFace {
        self.target_face
    }

    /// The invariant `new` establishes: the class is eligible for the date of
    /// birth under the given bow type, the face is legal for the class, the
    /// names are non-empty and the contact address is well-formed.
    pub open spec fn valid_for(self, bow_type: BowType, season: Date) -> bool {
        &&& default_classes_spec(bow_type, self.spec_date_of_birth(), season).contains(
            self.spec_class(),
        ) || upgrade_classes_spec(bow_type, self.spec_date_of_birth(), season).contains(
            self.spec_class(),
        )
        &&& faces_spec(self.spec_class()).contains(self.spec_target_face())
        &&& self.spec_first_name().len() > 0
        &&& self.spec_last_name().len() > 0
        &&& valid_email(self.spec_mail())
    }

    /// Validates raw input against the eligibility and target face resolvers
    /// and the mandatory fields, in that order, and returns either the
    /// immutable archer value or the exact reason it was refused.
    pub fn new(
        first_name: String,
        last_name: String,
        mail: String,
        dob: Date,
        bow_type: BowType,
        cls: Class,
        target_face: TargetFace,
        comment: String,
        club: String,
        session: u8,
        season: Date,
    ) -> (r: Result<Archer, ValidationError>)
        requires
            dob.wf(),
            season.wf(),
        ensures
            ({
                let defaults = default_classes_spec(bow_type, dob, season);
                let ups = upgrade_classes_spec(bow_type, dob, season);
                let eligible = defaults.contains(cls) || ups.contains(cls);
                let face_ok = faces_spec(cls).contains(target_face);
                let missing = first_name@.len() == 0 || last_name@.len() == 0 || !valid_email(
                    mail@,
                );
                &&& (r == Err::<Archer, ValidationError>(ValidationError::NoEligibleClass)
                    <==> defaults.len() == 0)
                &&& (r == Err::<Archer, ValidationError>(ValidationError::ClassNotEligible)
                    <==> defaults.len() > 0 && !eligible)
                &&& (r == Err::<Archer, ValidationError>(ValidationError::TargetFaceNotAllowed)
                    <==> defaults.len() > 0 && eligible && !face_ok)
                &&& (defaults.len() > 0 && eligible && face_ok && missing <==> r == Err::<
                    Archer,
                    ValidationError,
                >(ValidationError::MissingRequiredField(
                    missing_field_spec(first_name@, last_name@, mail@),
                )))
                &&& (r is Ok <==> defaults.len() > 0 && eligible && face_ok && !missing)
                &&& (r matches Ok(a) ==> {
                    &&& a.spec_first_name() == first_name@
                    &&& a.spec_last_name() == last_name@
                    &&& a.spec_mail() == mail@
                    &&& a.spec_comment() == comment@
                    &&& a.spec_club() == club@
                    &&& a.spec_session() == session
                    &&& a.spec_date_of_birth() == dob
                    &&& a.spec_class() == cls
                    &&& a.spec_target_face() == target_face
                    &&& a.valid_for(bow_type, season)
                })
            }),
    {
        let allowed = Class::allowed_classes(bow_type, dob, season);
        if allowed.len() == 0 {
            proof {
                let defaults = default_classes_spec(bow_type, dob, season);
                let ups = upgrade_classes_spec(bow_type, dob, season);
                assert(defaults.map_values(
                    |c: Class| (c, ClassUpgradeStatus::InDefaultAgeRange),
                ).len() == 0);
                assert(defaults.len() == 0);
            }
            return Err(ValidationError::NoEligibleClass);
        }
        let eligible = allowed_contains(&allowed, cls);
        proof {
            let defaults = default_classes_spec(bow_type, dob, season);
            let ups = upgrade_classes_spec(bow_type, dob, season);
            let f_def = |c: Class| (c, ClassUpgradeStatus::InDefaultAgeRange);
            let f_up = |c: Class| (c, ClassUpgradeStatus::Upgrade);
            assert(defaults.map_values(f_def).len() == defaults.len());
            assert(defaults.len() > 0);
            if eligible {
                let j = choose|j: int|
                    0 <= j < allowed@.len() && (#[trigger] allowed@[j]).0 == cls;
                if j < defaults.len() {
                    assert(allowed@[j] == f_def(defaults[j]));
                    assert(defaults[j] == cls);
                } else {
                    assert(allowed@[j] == f_up(ups[j - defaults.len()]));
                    assert(ups[j - defaults.len()] == cls);
                }
                assert(defaults.contains(cls) || ups.contains(cls));
            } else {
                if defaults.contains(cls) {
                    let k = choose|k: int|
                        0 <= k < defaults.len() && defaults[k] == cls;
                    assert(allowed@[k] == f_def(defaults[k]));
                    assert((allowed@[k]).0 == cls);
                }
                if ups.contains(cls) {
                    let k = choose|k: int| 0 <= k < ups.len() && ups[k] == cls;
                    assert(allowed@[defaults.len() + k] == f_up(ups[k]));
                    assert((allowed@[defaults.len() + k]).0 == cls);
                }
                assert(!(defaults.contains(cls) || ups.contains(cls)));
            }
        }
        if !eligible {
            return Err(ValidationError::ClassNotEligible);
        }
        let faces = TargetFace::for_cls(cls);
        if !face_in(&faces, target_face) {
            return Err(ValidationError::TargetFaceNotAllowed);
        }
        if first_name.as_str().is_empty() {
            return Err(ValidationError::MissingRequiredField(RequiredField::FirstName));
        }
        if last_name.as_str().is_empty() {
            return Err(ValidationError::MissingRequiredField(RequiredField::LastName));
        }
        if !check_mail_syntax(mail.as_str()) {
            return Err(ValidationError::MissingRequiredField(RequiredField::Mail));
        }
        Ok(
            Archer {
                first_name,
                last_name,
                mail,
                comment,
                club,
                session,
                date_of_birth: dob,
                class: cls,
                target_face,
            },
        )
    }

    pub fn date_of_birth(&self) -> (r: Date)
        ensures
            r == self.spec_date_of_birth(),
    {
        self.date_of_birth
    }

    pub fn class(&self) -> (r: Class)
        ensures
            r == self.spec_class(),
    {
        self.class
    }

    pub fn target_face(&self) -> (r: TargetFace)
        ensures
            r == self.spec_target_face(),
    {
        self.target_face
    }
}

/// Linear search for a class among the tagged entries of a resolver answer.
fn allowed_contains(v: &Vec<(Class, ClassUpgradeStatus)>, cls: Class) -> (r: bool)
    ensures
        r == exists|j: int| 0 <= j < v@.len() && (#[trigger] v@[j]).0 == cls,
{
    let mut i: usize = 0;
    while i < v.len()
        invariant
            0 <= i <= v@.len(),
            forall|j: int| 0 <= j < i ==> (#[trigger] v@[j]).0 != cls,
        decreases v@.len() - i,
    {
        if v[i].0 == cls {
            return true;
        }
        i += 1;
    }
    false
}

} // verus!
