use archery_reg::bow_type::BowType;
use archery_reg::date::Date;
use archery_reg::target_face::TargetFace;

#[test]
fn test_from_ymd_accepts_real_days() {
    assert!(Date::from_ymd_opt(2024, 2, 29).is_some());
    assert!(Date::from_ymd_opt(2023, 2, 28).is_some());
    assert!(Date::from_ymd_opt(2000, 2, 29).is_some());
    assert!(Date::from_ymd_opt(1980, 12, 31).is_some());
}

#[test]
fn test_from_ymd_rejects_missing_days() {
    assert!(Date::from_ymd_opt(2023, 2, 29).is_none());
    assert!(Date::from_ymd_opt(1900, 2, 29).is_none());
    assert!(Date::from_ymd_opt(2024, 4, 31).is_none());
    assert!(Date::from_ymd_opt(2024, 13, 1).is_none());
    assert!(Date::from_ymd_opt(2024, 0, 1).is_none());
    assert!(Date::from_ymd_opt(2024, 6, 0).is_none());
}

#[test]
fn test_date_order() {
    let a = Date::from_ymd_opt(2004, 12, 31).unwrap();
    let b = Date::from_ymd_opt(2005, 1, 1).unwrap();
    assert!(a.is_before(&b));
    assert!(!b.is_before(&a));
    assert!(!a.is_before(&a));
}

#[test]
fn test_date_default_is_epoch() {
    assert_eq!(Date::default(), Date::from_ymd_opt(1970, 1, 1).unwrap());
}

#[test]
fn test_bow_type_predicates() {
    assert!(BowType::Recurve.is_recurve());
    assert!(!BowType::Recurve.is_compound());
    assert!(!BowType::Recurve.is_barebow());
    assert!(BowType::Compound.is_compound());
    assert!(BowType::Barebow.is_barebow());
    assert!(BowType::default().is_recurve());
}

#[test]
fn test_target_face_labels() {
    assert_eq!(TargetFace::M18cm80.label(), "18m / 80cm");
    assert_eq!(TargetFace::M18cm60.label(), "18m / 60cm");
    assert_eq!(TargetFace::M18cm40.label(), "18m / 40cm");
    assert_eq!(TargetFace::M18Spot.label(), "18m / Spot");
}
