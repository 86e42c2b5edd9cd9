use archery_reg::bow_type::BowType;
use archery_reg::class::{season_start, Class};
use archery_reg::date::Date;
use archery_reg::locale::Locale;
use archery_reg::model::{ArcherModel, DoB, InsertedMail};
use archery_reg::target_face::TargetFace;

fn date(y: i32, m: u8, d: u8) -> Date {
    Date::from_ymd_opt(y, m, d).unwrap()
}

#[test]
fn test_default_locale() {
    assert_eq!(Locale::default(), Locale::De)
}

#[test]
fn test_locale_from_str() {
    assert_eq!(Locale::from_str("en"), Some(Locale::En));
    assert_eq!(Locale::from_str("de"), Some(Locale::De));
    assert_eq!(Locale::from_str("fr"), None);
    assert_eq!(Locale::from_str(""), None);
}

#[test]
fn test_default_model() {
    // The fresh form mirrors the resolver: epoch date of birth, recurve,
    // first default class for that age, that class's default face.
    let model = ArcherModel::default();
    assert_eq!(model.first_name, "");
    assert_eq!(model.last_name, "");
    assert_eq!(model.date_of_birth, DoB::Vaild(date(1970, 1, 1)));
    assert!(model.bow_type.is_recurve());
    assert_eq!(model.cls, Some(Class::RUE49M));
    assert_eq!(model.session, 0);
    assert_eq!(
        model.possible_target_faces,
        vec![TargetFace::M18Spot, TargetFace::M18cm40]
    );
    assert_eq!(model.selected_target_face, TargetFace::M18Spot);
}

#[test]
fn test_update_target_face_keeps_legal_selection() {
    let mut model = ArcherModel::default();
    model.selected_target_face = TargetFace::M18cm40;
    model.update_target_face();
    assert_eq!(
        model.possible_target_faces,
        vec![TargetFace::M18Spot, TargetFace::M18cm40]
    );
    assert_eq!(model.selected_target_face, TargetFace::M18cm40);
}

#[test]
fn test_update_target_face_replaces_illegal_selection() {
    let mut model = ArcherModel::default();
    model.cls = Some(Class::RU11M);
    model.selected_target_face = TargetFace::M18Spot;
    model.update_target_face();
    assert_eq!(model.possible_target_faces, vec![TargetFace::M18cm80]);
    assert_eq!(model.selected_target_face, TargetFace::M18cm80);
}

#[test]
fn test_update_target_face_without_class() {
    let mut model = ArcherModel::default();
    model.cls = None;
    model.update_target_face();
    assert_eq!(model.possible_target_faces, vec![]);
    assert_eq!(model.selected_target_face, TargetFace::M18Spot);
}

#[test]
fn test_check_and_update_keeps_available_class() {
    let mut model = ArcherModel::default();
    model.date_of_birth = DoB::Vaild(date(1980, 6, 15));
    model.cls = Some(Class::RUE20W);
    let before = model.clone();
    assert_eq!(model.check_and_update_cls(season_start()), None);
    assert_eq!(model, before);
}

#[test]
fn test_check_and_update_announces_first_available() {
    let mut model = ArcherModel::default();
    model.date_of_birth = DoB::Vaild(date(2010, 3, 1));
    model.cls = Some(Class::RUE20M);
    let r = model.check_and_update_cls(season_start());
    assert_eq!(r, Some(Some(Class::RU18M)));
    // The face refresh ran against the still-unchanged class.
    assert_eq!(model.cls, Some(Class::RUE20M));
    assert_eq!(
        model.possible_target_faces,
        vec![TargetFace::M18Spot, TargetFace::M18cm40]
    );
}

#[test]
fn test_check_and_update_with_unparsed_date() {
    let mut model = ArcherModel::default();
    model.date_of_birth = DoB::Invalid("2010-03-xx".to_string());
    let r = model.check_and_update_cls(season_start());
    assert_eq!(r, Some(None));
}

#[test]
fn test_class_changed_refreshes_faces() {
    let mut model = ArcherModel::default();
    model.class_changed(Some(Class::RU11M));
    assert_eq!(model.cls, Some(Class::RU11M));
    assert_eq!(model.possible_target_faces, vec![TargetFace::M18cm80]);
    assert_eq!(model.selected_target_face, TargetFace::M18cm80);
    model.class_changed(None);
    assert_eq!(model.cls, None);
    assert_eq!(model.possible_target_faces, vec![]);
    assert_eq!(model.selected_target_face, TargetFace::M18Spot);
}

#[test]
fn test_dob_validity() {
    assert!(DoB::Vaild(date(2000, 1, 1)).is_valid());
    assert!(!DoB::Invalid("gibberish".to_string()).is_valid());
}

#[test]
fn test_ready_for_submission() {
    let mut model = ArcherModel::default();
    model.first_name = "Ada".to_string();
    model.last_name = "Lovelace".to_string();
    assert!(model.ready_for_submission());

    model.last_name = String::new();
    assert!(!model.ready_for_submission());

    // Both name fields empty counts as agreeing, matching the submission
    // gate of the original form.
    model.first_name = String::new();
    assert!(model.ready_for_submission());

    model.first_name = "Ada".to_string();
    model.last_name = "Lovelace".to_string();
    model.cls = None;
    assert!(!model.ready_for_submission());

    model.cls = Some(Class::RUE49M);
    model.date_of_birth = DoB::Invalid("nope".to_string());
    assert!(!model.ready_for_submission());
}

#[test]
fn test_inserted_mail_classification() {
    // Runs the real address-syntax check behind the classification.
    let valid = InsertedMail::from_input("ada@example.org".to_string());
    assert_eq!(valid, InsertedMail::Valid("ada@example.org".to_string()));
    assert!(valid.is_valid());
    let invalid = InsertedMail::from_input("ada.example.org".to_string());
    assert_eq!(invalid, InsertedMail::Invalid("ada.example.org".to_string()));
    assert!(!invalid.is_valid());
    assert!(!InsertedMail::default().is_valid());
}
