use archery_reg::bow_type::BowType;
use archery_reg::class::{season_start, Class};
use archery_reg::date::Date;
use archery_reg::locale::Locale;
use archery_reg::target_face::TargetFace;

fn date(y: i32, m: u8, d: u8) -> Date {
    Date::from_ymd_opt(y, m, d).unwrap()
}

#[test]
fn test_in_range() {
    let season = season_start();
    let now_ = season.year - 1;
    let died = season.year - 120;
    let test_cases: Vec<(Class, (i32, i32))> = vec![
        (Class::RUE20M, (1976, 2004)),
        (Class::RUE20W, (1976, 2004)),
        (Class::RU15M, (2011, 2012)),
        (Class::RU15W, (2011, 2012)),
        (Class::RU13M, (2013, 2014)),
        (Class::RU13W, (2013, 2014)),
        (Class::RU11M, (2015, now_)),
        (Class::RU11W, (2015, now_)),
        (Class::RU18M, (2008, 2010)),
        (Class::RU18W, (2008, 2010)),
        (Class::RU21M, (2005, 2007)),
        (Class::RU21W, (2005, 2007)),
        (Class::RUE49M, (1960, 1975)),
        (Class::RUE49W, (1960, 1975)),
        (Class::RUE65M, (died, 1959)),
        (Class::RUE65W, (died, 1959)),
        //
        (Class::BUE20M, (died, 2004)),
        (Class::BUE20W, (died, 2004)),
        (Class::BU15, (2011, now_)),
        (Class::BU21, (2005, 2010)),
        //
        (Class::CUE20M, (1976, 2004)),
        (Class::CUE20W, (1976, 2004)),
        (Class::CU15, (2011, now_)),
        (Class::CU21, (2005, 2010)),
        (Class::CUE49M, (1960, 1975)),
        (Class::CUE49W, (1960, 1975)),
        (Class::CUE65M, (died, 1959)),
        (Class::CUE65W, (died, 1959)),
    ];

    for (cls, range) in test_cases {
        let lower_out = date(range.0 - 1, 12, 31);
        let lower_in = date(range.0, 1, 1);
        let upper_in = date(range.1, 12, 31);
        let upper_out = date(range.1 + 1, 1, 1);

        println!("{:?}", lower_out);
        println!("{:?}", lower_in);
        println!("{:?}", upper_in);
        println!("{:?}", upper_out);
        println!();

        assert!(
            !cls.in_range(lower_out, season),
            "Lower out bound not respected for {:?}: {:?}",
            cls,
            lower_out
        );
        assert!(
            cls.in_range(lower_in, season),
            "Lower in bound not respected for {:?}: {:?}",
            cls,
            lower_in
        );
        assert!(
            cls.in_range(upper_in, season),
            "Upper in bound not respected for {:?}: {:?}",
            cls,
            upper_in
        );
        assert!(
            !cls.in_range(upper_out, season),
            "Upper out bound not respected for {:?}: {:?}",
            cls,
            upper_out
        );
    }
}

#[test]
fn test_bracket_boundary_days() {
    // The (21, 49) recurve adult bracket against season start 2025-01-01:
    // both boundary days are in, the days just outside are not.
    let season = season_start();
    assert!(Class::RUE20M.in_range(date(1976, 1, 1), season));
    assert!(Class::RUE20M.in_range(date(2004, 12, 31), season));
    assert!(!Class::RUE20M.in_range(date(1975, 12, 31), season));
    assert!(!Class::RUE20M.in_range(date(2005, 1, 1), season));
}

#[test]
fn test_leap_day_season_clamps() {
    // With a season starting on a leap day the bracket's lower boundary
    // clamps to February 28 in a non-leap year.
    let season = date(2024, 2, 29);
    assert!(Class::RUE20M.in_range(date(1975, 2, 28), season));
    assert!(!Class::RUE20M.in_range(date(1975, 2, 27), season));
    // The upper boundary falls in leap year 2004, so February 29 exists and
    // is the first day outside the bracket.
    assert!(Class::RUE20M.in_range(date(2004, 2, 28), season));
    assert!(!Class::RUE20M.in_range(date(2004, 2, 29), season));
}

#[test]
fn test_price_tiers() {
    let discounted = vec![
        Class::RU15M,
        Class::RU15W,
        Class::RU13M,
        Class::RU13W,
        Class::RU11M,
        Class::RU11W,
        Class::RU18M,
        Class::RU18W,
        Class::BU15,
        Class::BU21,
        Class::CU15,
        Class::CU21,
    ];
    for cls in Class::all_classes() {
        let price = cls.price();
        assert!(price == 1200 || price == 1800, "third price tier for {:?}", cls);
        if discounted.contains(&cls) {
            assert_eq!(price, 1200, "youth bracket {:?} must use the discount", cls);
        } else {
            assert_eq!(price, 1800, "{:?} must use the standard tier", cls);
        }
    }
}

#[test]
fn test_class_lists() {
    assert_eq!(Class::all_classes().len(), 28);
    assert_eq!(Class::recurve_classes().len(), 16);
    assert_eq!(Class::barebow_classes().len(), 4);
    assert_eq!(Class::compound_classes().len(), 8);
    assert_eq!(Class::recurve_classes()[0], Class::RUE20M);
    assert_eq!(Class::barebow_classes()[0], Class::BUE20M);
    assert_eq!(Class::compound_classes()[0], Class::CUE20M);
    for cls in Class::recurve_classes() {
        assert_eq!(cls.group(), BowType::Recurve);
    }
    for cls in Class::barebow_classes() {
        assert_eq!(cls.group(), BowType::Barebow);
    }
    for cls in Class::compound_classes() {
        assert_eq!(cls.group(), BowType::Compound);
    }
}

#[test]
fn test_class_names() {
    assert_eq!(Class::RUE20M.name(Locale::En), "Recurve Men");
    assert_eq!(Class::RUE20M.name(Locale::De), "Recurve Herren");
    assert_eq!(Class::BU15.name(Locale::En), "Barebow 1-14 male/female");
    assert_eq!(Class::CUE65W.name(Locale::De), "Compound Senioren w");
    for cls in Class::all_classes() {
        assert!(!cls.name(Locale::En).is_empty());
        assert!(!cls.name(Locale::De).is_empty());
        assert_eq!(cls.comment(), "");
    }
}

#[test]
fn test_every_class_has_target_faces() {
    for cls in Class::all_classes() {
        assert!(
            !TargetFace::for_cls(cls).is_empty(),
            "{:?} resolves to no target face",
            cls
        );
    }
    assert_eq!(TargetFace::for_cls(Class::RU11M), vec![TargetFace::M18cm80]);
    assert_eq!(TargetFace::for_cls(Class::BU15), vec![TargetFace::M18cm60]);
    assert_eq!(TargetFace::for_cls(Class::BUE20W), vec![TargetFace::M18cm40]);
    assert_eq!(TargetFace::for_cls(Class::CUE20M), vec![TargetFace::M18Spot]);
    assert_eq!(
        TargetFace::for_cls(Class::RUE20M),
        vec![TargetFace::M18Spot, TargetFace::M18cm40]
    );
}

#[test]
fn test_class_from_str() {
    for cls in Class::all_classes() {
        assert_eq!(Class::from_str(cls.code()), Ok(cls));
    }
    assert_eq!(Class::from_str("RUE20M"), Ok(Class::RUE20M));
    let err = Class::from_str("R unknown").unwrap_err();
    assert_eq!(err.class, "R unknown");
    assert_eq!(err.message(), "Unknown class: R unknown");
}
