use archery_reg::archer::{Archer, RequiredField, ValidationError};
use archery_reg::bow_type::BowType;
use archery_reg::class::{season_start, Class};
use archery_reg::date::Date;
use archery_reg::target_face::TargetFace;

fn date(y: i32, m: u8, d: u8) -> Date {
    Date::from_ymd_opt(y, m, d).unwrap()
}

fn try_archer(
    dob: Date,
    bow_type: BowType,
    cls: Class,
    face: TargetFace,
) -> Result<Archer, ValidationError> {
    Archer::new(
        "Ada".to_string(),
        "Lovelace".to_string(),
        "ada@example.org".to_string(),
        dob,
        bow_type,
        cls,
        face,
        "no comment".to_string(),
        "PSV".to_string(),
        0,
        season_start(),
    )
}

#[test]
fn test_adult_recurve_end_to_end() {
    // Born 1980-06-15, recurve, season 2025-01-01: age 45, adult bracket;
    // the default face of the adult class is the first resolver entry.
    let archer = try_archer(
        date(1980, 6, 15),
        BowType::Recurve,
        Class::RUE20M,
        TargetFace::M18Spot,
    )
    .unwrap();
    assert_eq!(archer.first_name, "Ada");
    assert_eq!(archer.last_name, "Lovelace");
    assert_eq!(archer.mail, "ada@example.org");
    assert_eq!(archer.comment, "no comment");
    assert_eq!(archer.club, "PSV");
    assert_eq!(archer.session, 0);
    assert_eq!(archer.date_of_birth(), date(1980, 6, 15));
    assert_eq!(archer.class(), Class::RUE20M);
    assert_eq!(archer.target_face(), TargetFace::M18Spot);
}

#[test]
fn test_out_of_bracket_class_is_rejected() {
    // A syntactically valid class that the 45-year-old is neither bracketed
    // in nor may upgrade into produces no archer at all.
    let r = try_archer(
        date(1980, 6, 15),
        BowType::Recurve,
        Class::RU11M,
        TargetFace::M18cm80,
    );
    assert_eq!(r, Err(ValidationError::ClassNotEligible));
}

#[test]
fn test_upgrade_class_is_accepted() {
    // Age 67 may voluntarily enter the adult class.
    let archer = try_archer(
        date(1958, 5, 20),
        BowType::Recurve,
        Class::RUE20M,
        TargetFace::M18cm40,
    )
    .unwrap();
    assert_eq!(archer.class(), Class::RUE20M);
}

#[test]
fn test_wrong_target_face_is_rejected() {
    let r = try_archer(
        date(1980, 6, 15),
        BowType::Recurve,
        Class::RUE20M,
        TargetFace::M18cm80,
    );
    assert_eq!(r, Err(ValidationError::TargetFaceNotAllowed));
}

#[test]
fn test_no_eligible_class() {
    // Born on the season start itself: no bracket matches, and the failure
    // is the distinct defensive kind, not a silent default.
    let r = try_archer(
        date(2025, 1, 1),
        BowType::Recurve,
        Class::RUE20M,
        TargetFace::M18Spot,
    );
    assert_eq!(r, Err(ValidationError::NoEligibleClass));
}

#[test]
fn test_missing_first_name() {
    let r = Archer::new(
        "".to_string(),
        "Lovelace".to_string(),
        "ada@example.org".to_string(),
        date(1980, 6, 15),
        BowType::Recurve,
        Class::RUE20M,
        TargetFace::M18Spot,
        "".to_string(),
        "PSV".to_string(),
        0,
        season_start(),
    );
    assert_eq!(
        r,
        Err(ValidationError::MissingRequiredField(RequiredField::FirstName))
    );
}

#[test]
fn test_missing_last_name() {
    let r = Archer::new(
        "Ada".to_string(),
        "".to_string(),
        "ada@example.org".to_string(),
        date(1980, 6, 15),
        BowType::Recurve,
        Class::RUE20M,
        TargetFace::M18Spot,
        "".to_string(),
        "PSV".to_string(),
        0,
        season_start(),
    );
    assert_eq!(
        r,
        Err(ValidationError::MissingRequiredField(RequiredField::LastName))
    );
}

#[test]
fn test_malformed_mail_is_rejected() {
    // Exercises the real address-syntax check: a plausible-looking string
    // without a domain must be refused, so a check that waved everything
    // through would fail here.
    let r = Archer::new(
        "Ada".to_string(),
        "Lovelace".to_string(),
        "ada.example.org".to_string(),
        date(1980, 6, 15),
        BowType::Recurve,
        Class::RUE20M,
        TargetFace::M18Spot,
        "".to_string(),
        "PSV".to_string(),
        0,
        season_start(),
    );
    assert_eq!(
        r,
        Err(ValidationError::MissingRequiredField(RequiredField::Mail))
    );
    let r = Archer::new(
        "Ada".to_string(),
        "Lovelace".to_string(),
        "".to_string(),
        date(1980, 6, 15),
        BowType::Recurve,
        Class::RUE20M,
        TargetFace::M18Spot,
        "".to_string(),
        "PSV".to_string(),
        0,
        season_start(),
    );
    assert_eq!(
        r,
        Err(ValidationError::MissingRequiredField(RequiredField::Mail))
    );
}

#[test]
fn test_validation_order_class_before_face() {
    // An ineligible class is reported even when the face would also be
    // wrong and a name is missing: the checks run in the documented order.
    let r = Archer::new(
        "".to_string(),
        "".to_string(),
        "nonsense".to_string(),
        date(1980, 6, 15),
        BowType::Recurve,
        Class::RU11M,
        TargetFace::M18Spot,
        "".to_string(),
        "".to_string(),
        0,
        season_start(),
    );
    assert_eq!(r, Err(ValidationError::ClassNotEligible));
}
