//! The closed competition class taxonomy: each class carries a bow type
//! group, an inclusive age bracket in whole years before season start, a
//! display name per locale, a price tier and a set of voluntary upgrade
//! targets.

use vstd::prelude::*;

use crate::bow_type::BowType;
use crate::date::{is_leap, lt_ymd, triple_le, triple_lt, years_before, Date};
use crate::locale::Locale;
use crate::text::str_eq;

verus! {

/// The season the current ruleset is deployed for starts on this date; ages
/// are measured in whole years before it.
pub open spec fn season_start_spec() -> Date {
    Date { year: 2025, month: 1, day: 1 }
}

pub fn season_start() -> (r: Date)
    ensures
        r == season_start_spec(),
        r.wf(),
{
    Date { year: 2025, month: 1, day: 1 }
}

#[derive(Debug, Clone, Copy, PartialEq, Eq, Hash, Structural)]
pub enum Class {
    RUE20M,
    RUE20W,
    RU15M,
    RU15W,
    RU13M,
    RU13W,
    RU11M,
    RU11W,
    RU18M,
    RU18W,
    RU21M,
    RU21W,
    RUE49M,
    RUE49W,
    RUE65M,
    RUE65W,
    BUE20M,
    BUE20W,
    BU15,
    BU21,
    CUE20M,
    CUE20W,
    CU15,
    CU21,
    CUE49M,
    CUE49W,
    CUE65M,
    CUE65W,
}

/// Whether a class appears in a computation as the archer's own bracket or as
/// a voluntary upgrade out of it.
#[derive(Debug, Clone, Copy, PartialEq, Eq, PartialOrd, Ord, Structural)]
pub enum ClassUpgradeStatus {
    InDefaultAgeRange,
    Upgrade,
}

/// All classes, in declaration order.
pub open spec fn all_classes_spec() -> Seq<Class> {
    seq![
        Class::RUE20M,
        Class::RUE20W,
        Class::RU15M,
        Class::RU15W,
        Class::RU13M,
        Class::RU13W,
        Class::RU11M,
        Class::RU11W,
        Class::RU18M,
        Class::RU18W,
        Class::RU21M,
        Class::RU21W,
        Class::RUE49M,
        Class::RUE49W,
        Class::RUE65M,
        Class::RUE65W,
        Class::BUE20M,
        Class::BUE20W,
        Class::BU15,
        Class::BU21,
        Class::CUE20M,
        Class::CUE20W,
        Class::CU15,
        Class::CU21,
        Class::CUE49M,
        Class::CUE49W,
        Class::CUE65M,
        Class::CUE65W,
    ]
}

/// The recurve group, in the stable order used for default selection.
pub open spec fn recurve_classes_spec() -> Seq<Class> {
    seq![
        Class::RUE20M,
        Class::RUE20W,
        Class::RU15M,
        Class::RU15W,
        Class::RU13M,
        Class::RU13W,
        Class::RU11M,
        Class::RU11W,
        Class::RU18M,
        Class::RU18W,
        Class::RU21M,
        Class::RU21W,
        Class::RUE49M,
        Class::RUE49W,
        Class::RUE65M,
        Class::RUE65W,
    ]
}

/// The barebow group, in the stable order used for default selection.
pub open spec fn barebow_classes_spec() -> Seq<Class> {
    seq![Class::BUE20M, Class::BUE20W, Class::BU15, Class::BU21]
}

/// The compound group, in the stable order used for default selection.
pub open spec fn compound_classes_spec() -> Seq<Class> {
    seq![
        Class::CUE20M,
        Class::CUE20W,
        Class::CU15,
        Class::CU21,
        Class::CUE49M,
        Class::CUE49W,
        Class::CUE65M,
        Class::CUE65W,
    ]
}

/// The classes of one bow type group.
pub open spec fn group_classes_spec(bow_type: BowType) -> Seq<Class> {
    match bow_type {
        BowType::Recurve => recurve_classes_spec(),
        BowType::Compound => compound_classes_spec(),
        BowType::Barebow => barebow_classes_spec(),
    }
}

impl Class {
    /// Youngest age (inclusive, in whole years before season start) of the
    /// class's bracket.
    pub open spec fn bracket_min_spec(self) -> int {
        match self {
            Class::RUE20M => 21,
            Class::RUE20W => 21,
            Class::RU15M => 13,
            Class::RU15W => 13,
            Class::RU13M => 11,
            Class::RU13W => 11,
            Class::RU11M => 1,
            Class::RU11W => 1,
            Class::RU18M => 15,
            Class::RU18W => 15,
            Class::RU21M => 18,
            Class::RU21W => 18,
            Class::RUE49M => 50,
            Class::RUE49W => 50,
            Class::RUE65M => 66,
            Class::RUE65W => 66,
            Class::CUE20M => 21,
            Class::CUE20W => 21,
            Class::CU15 => 1,
            Class::CU21 => 15,
            Class::CUE49M => 50,
            Class::CUE49W => 50,
            Class::CUE65M => 66,
            Class::CUE65W => 66,
            Class::BUE20M => 21,
            Class::BUE20W => 21,
            Class::BU15 => 1,
            Class::BU21 => 15,
        }
    }

    /// Oldest age (inclusive) of the class's bracket; 120 is the open upper
    /// end used for the senior and barebow adult brackets.
    pub open spec fn bracket_max_spec(self) -> int {
        match self {
            Class::RUE20M => 49,
            Class::RUE20W => 49,
            Class::RU15M => 14,
            Class::RU15W => 14,
            Class::RU13M => 12,
            Class::RU13W => 12,
            Class::RU11M => 10,
            Class::RU11W => 10,
            Class::RU18M => 17,
            Class::RU18W => 17,
            Class::RU21M => 20,
            Class::RU21W => 20,
            Class::RUE49M => 65,
            Class::RUE49W => 65,
            Class::RUE65M => 120,
            Class::RUE65W => 120,
            Class::CUE20M => 49,
            Class::CUE20W => 49,
            Class::CU15 => 14,
            Class::CU21 => 20,
            Class::CUE49M => 65,
            Class::CUE49W => 65,
            Class::CUE65M => 120,
            Class::CUE65W => 120,
            Class::BUE20M => 120,
            Class::BUE20W => 120,
            Class::BU15 => 14,
            Class::BU21 => 20,
        }
    }

    /// The date of birth falls in the class's bracket: on or after the day
    /// `bracket_max` whole years before season start, and strictly before the
    /// day `bracket_min - 1` whole years before it.
    pub open spec fn in_range_spec(self, dob: Date, season: Date) -> bool {
        let lower = years_before(season, self.bracket_max_spec());
        let upper = years_before(season, self.bracket_min_spec() - 1);
        triple_le(lower, dob.triple()) && triple_lt(dob.triple(), upper)
    }

    /// Both bracket ends, youngest first.
    fn year_range(&self) -> (r: (u32, u32))
        ensures
            r.0 == self.bracket_min_spec(),
            r.1 == self.bracket_max_spec(),
    {
        match self {
            Class::RUE20M => (21, 49),
            Class::RUE20W => (21, 49),
            Class::RU15M => (13, 14),
            Class::RU15W => (13, 14),
            Class::RU13M => (11, 12),
            Class::RU13W => (11, 12),
            Class::RU11M => (1, 10),
            Class::RU11W => (1, 10),
            Class::RU18M => (15, 17),
            Class::RU18W => (15, 17),
            Class::RU21M => (18, 20),
            Class::RU21W => (18, 20),
            Class::RUE49M => (50, 65),
            Class::RUE49W => (50, 65),
            Class::RUE65M => (66, 120),
            Class::RUE65W => (66, 120),
            Class::CUE20M => (21, 49),
            Class::CUE20W => (21, 49),
            Class::CU15 => (1, 14),
            Class::CU21 => (15, 20),
            Class::CUE49M => (50, 65),
            Class::CUE49W => (50, 65),
            Class::CUE65M => (66, 120),
            Class::CUE65W => (66, 120),
            Class::BUE20M => (21, 120),
            Class::BUE20W => (21, 120),
            Class::BU15 => (1, 14),
            Class::BU21 => (15, 20),
        }
    }

    /// Whether the given date of birth is inside this class's age bracket as
    /// of the given season start.
    pub fn in_range(&self, dob: Date, season: Date) -> (r: bool)
        requires
            dob.wf(),
            season.wf(),
        ensures
            r == self.in_range_spec(dob, season),
    {
        let (min_y, max_y) = self.year_range();
        let ly: i64 = season.year as i64 - max_y as i64;
        let lday: u8 = if season.month == 2 && season.day == 29 && !is_leap(ly) {
            28
        } else {
            season.day
        };
        let uy: i64 = season.year as i64 - (min_y as i64 - 1);
        let uday: u8 = if season.month == 2 && season.day == 29 && !is_leap(uy) {
            28
        } else {
            season.day
        };
        let not_below = !lt_ymd(dob.year as i64, dob.month, dob.day, ly, season.month, lday);
        let above = lt_ymd(dob.year as i64, dob.month, dob.day, uy, season.month, uday);
        not_below && above
    }

    /// The display name of the class in the given locale's name table.
    pub open spec fn name_spec(self, locale: Locale) -> Seq<char> {
        match locale {
            Locale::En => match self {
                Class::RUE20M => "Recurve Men"@,
                Class::RUE20W => "Recurve Women"@,
                Class::RU15M => "Recurve 13-14 male"@,
                Class::RU15W => "Recurve 13-14 female"@,
                Class::RU13M => "Recurve 11-12 male"@,
                Class::RU13W => "Recurve 11-12 female"@,
                Class::RU11M => "Recurve 1-10 male"@,
                Class::RU11W => "Recurve 1-10 female"@,
                Class::RU18M => "Recurve 15-17 male"@,
                Class::RU18W => "Recurve 15-17 female"@,
                Class::RU21M => "Recurve 18-20 male"@,
                Class::RU21W => "Recurve 18-20 female"@,
                Class::RUE49M => "Recurve 50-65 male"@,
                Class::RUE49W => "Recurve 50-65 female"@,
                Class::RUE65M => "Recurve 66+ male"@,
                Class::RUE65W => "Recurve 66+ female"@,
                Class::BUE20M => "Barebow Men"@,
                Class::BUE20W => "Barebow Women"@,
                Class::BU15 => "Barebow 1-14 male/female"@,
                Class::BU21 => "Barebow 15-20 male/female"@,
                Class::CUE20M => "Compound Men"@,
                Class::CUE20W => "Compound Women"@,
                Class::CU15 => "Compound 1-14 male/female"@,
                Class::CU21 => "Compound 15-20 male/female"@,
                Class::CUE49M => "Compound 50-65 male"@,
                Class::CUE49W => "Compound 50-65 female"@,
                Class::CUE65M => "Compound 66+ male"@,
                Class::CUE65W => "Compound 66+ female"@,
            },
            Locale::De => match self {
                Class::RUE20M => "Recurve Herren"@,
                Class::RUE20W => "Recurve Damen"@,
                Class::RU15M => "Recurve Schueler A m"@,
                Class::RU15W => "Recurve Schueler A w"@,
                Class::RU13M => "Recurve Schueler B m"@,
                Class::RU13W => "Recurve Schueler B w"@,
                Class::RU11M => "Recurve Schueler C m"@,
                Class::RU11W => "Recurve Schueler C w"@,
                Class::RU18M => "Recurve Jugend m"@,
                Class::RU18W => "Recurve Jugend w"@,
                Class::RU21M => "Recurve Junioren m"@,
                Class::RU21W => "Recurve Junioren w"@,
                Class::RUE49M => "Recurve Master m"@,
                Class::RUE49W => "Recurve Master w"@,
                Class::RUE65M => "Recurve Senioren m"@,
                Class::RUE65W => "Recurve Senioren w"@,
                Class::BUE20M => "Blank Herren"@,
                Class::BUE20W => "Blank Damen"@,
                Class::BU15 => "Blank Schueler m/w"@,
                Class::BU21 => "Blank Jugend/Junioren m/w"@,
                Class::CUE20M => "Compound Herren"@,
                Class::CUE20W => "Compound Damen"@,
                Class::CU15 => "Compound Schueler m/w"@,
                Class::CU21 => "Compound Jugend/Junioren m/w"@,
                Class::CUE49M => "Compound Master m"@,
                Class::CUE49W => "Compound Master w"@,
                Class::CUE65M => "Compound Senioren m"@,
                Class::CUE65W => "Compound Senioren w"@,
            },
        }
    }

    /// The display name of the class, read from the name table the locale
    /// selects.
    pub fn name(&self, locale: Locale) -> (r: &'static str)
        ensures
            r@ == self.name_spec(locale),
    {
        match locale {
            Locale::En => match self {
                Class::RUE20M => "Recurve Men",
                Class::RUE20W => "Recurve Women",
                Class::RU15M => "Recurve 13-14 male",
                Class::RU15W => "Recurve 13-14 female",
                Class::RU13M => "Recurve 11-12 male",
                Class::RU13W => "Recurve 11-12 female",
                Class::RU11M => "Recurve 1-10 male",
                Class::RU11W => "Recurve 1-10 female",
                Class::RU18M => "Recurve 15-17 male",
                Class::RU18W => "Recurve 15-17 female",
                Class::RU21M => "Recurve 18-20 male",
                Class::RU21W => "Recurve 18-20 female",
                Class::RUE49M => "Recurve 50-65 male",
                Class::RUE49W => "Recurve 50-65 female",
                Class::RUE65M => "Recurve 66+ male",
                Class::RUE65W => "Recurve 66+ female",
                Class::BUE20M => "Barebow Men",
                Class::BUE20W => "Barebow Women",
                Class::BU15 => "Barebow 1-14 male/female",
                Class::BU21 => "Barebow 15-20 male/female",
                Class::CUE20M => "Compound Men",
                Class::CUE20W => "Compound Women",
                Class::CU15 => "Compound 1-14 male/female",
                Class::CU21 => "Compound 15-20 male/female",
                Class::CUE49M => "Compound 50-65 male",
                Class::CUE49W => "Compound 50-65 female",
                Class::CUE65M => "Compound 66+ male",
                Class::CUE65W => "Compound 66+ female",
            },
            Locale::De => match self {
                Class::RUE20M => "Recurve Herren",
                Class::RUE20W => "Recurve Damen",
                Class::RU15M => "Recurve Schueler A m",
                Class::RU15W => "Recurve Schueler A w",
                Class::RU13M => "Recurve Schueler B m",
                Class::RU13W => "Recurve Schueler B w",
                Class::RU11M => "Recurve Schueler C m",
                Class::RU11W => "Recurve Schueler C w",
                Class::RU18M => "Recurve Jugend m",
                Class::RU18W => "Recurve Jugend w",
                Class::RU21M => "Recurve Junioren m",
                Class::RU21W => "Recurve Junioren w",
                Class::RUE49M => "Recurve Master m",
                Class::RUE49W => "Recurve Master w",
                Class::RUE65M => "Recurve Senioren m",
                Class::RUE65W => "Recurve Senioren w",
                Class::BUE20M => "Blank Herren",
                Class::BUE20W => "Blank Damen",
                Class::BU15 => "Blank Schueler m/w",
                Class::BU21 => "Blank Jugend/Junioren m/w",
                Class::CUE20M => "Compound Herren",
                Class::CUE20W => "Compound Damen",
                Class::CU15 => "Compound Schueler m/w",
                Class::CU21 => "Compound Jugend/Junioren m/w",
                Class::CUE49M => "Compound Master m",
                Class::CUE49W => "Compound Master w",
                Class::CUE65M => "Compound Senioren m",
                Class::CUE65W => "Compound Senioren w",
            },
        }
    }

    /// A free-text remark shown with the class; currently empty for every
    /// class.
    pub fn comment(&self) -> (r: &'static str)
        ensures
            r@ == ""@,
    {
        ""
    }

    /// Classes in the discounted youth price tier.
    pub open spec fn is_discount_spec(self) -> bool {
        match self {
            Class::RU15M | Class::RU15W | Class::RU13M | Class::RU13W | Class::RU11M
                | Class::RU11W | Class::RU18M | Class::RU18W | Class::BU15 | Class::BU21
                | Class::CU15 | Class::CU21 => true,
            Class::RUE20M | Class::RUE20W | Class::RU21M | Class::RU21W | Class::RUE49M
                | Class::RUE49W | Class::RUE65M | Class::RUE65W | Class::BUE20M | Class::BUE20W
                | Class::CUE20M | Class::CUE20W | Class::CUE49M | Class::CUE49W | Class::CUE65M
                | Class::CUE65W => false,
        }
    }

    /// Entry price in euro cent: the discounted tier for youth brackets, the
    /// standard tier for everything else.
    pub open spec fn price_spec(self) -> int {
        if self.is_discount_spec() {
            1200
        } else {
            1800
        }
    }

    /// Price of a starter in this class, in euro cent.
    pub fn price(&self) -> (r: u32)
        ensures
            r == self.price_spec(),
    {
        match self {
            Class::RU15M | Class::RU15W | Class::RU13M | Class::RU13W | Class::RU11M
                | Class::RU11W | Class::RU18M | Class::RU18W | Class::BU15 | Class::BU21
                | Class::CU15 | Class::CU21 => 1200,
            Class::RUE20M | Class::RUE20W | Class::RU21M | Class::RU21W | Class::RUE49M
                | Class::RUE49W | Class::RUE65M | Class::RUE65W | Class::BUE20M | Class::BUE20W
                | Class::CUE20M | Class::CUE20W | Class::CUE49M | Class::CUE49W | Class::CUE65M
                | Class::CUE65W => 1800,
        }
    }

    /// Every class, in declaration order.
    pub fn all_classes() -> (r: Vec<Class>)
        ensures
            r@ == all_classes_spec(),
    {
        let mut recurve = Class::recurve_classes();
        let mut barebow = Class::barebow_classes();
        let mut compound = Class::compound_classes();
        recurve.append(&mut barebow);
        recurve.append(&mut compound);
        proof {
            assert(recurve@ =~= all_classes_spec());
        }
        recurve
    }

    /// The recurve group, in stable default-selection order.
    pub fn recurve_classes() -> (r: Vec<Class>)
        ensures
            r@ == recurve_classes_spec(),
    {
        let v = vec![
            Class::RUE20M,
            Class::RUE20W,
            Class::RU15M,
            Class::RU15W,
            Class::RU13M,
            Class::RU13W,
            Class::RU11M,
            Class::RU11W,
            Class::RU18M,
            Class::RU18W,
            Class::RU21M,
            Class::RU21W,
            Class::RUE49M,
            Class::RUE49W,
            Class::RUE65M,
            Class::RUE65W,
        ];
        proof {
            assert(v@ =~= recurve_classes_spec());
        }
        v
    }

    /// The barebow group, in stable default-selection order.
    pub fn barebow_classes() -> (r: Vec<Class>)
        ensures
            r@ == barebow_classes_spec(),
    {
        let v = vec![Class::BUE20M, Class::BUE20W, Class::BU15, Class::BU21];
        proof {
            assert(v@ =~= barebow_classes_spec());
        }
        v
    }

    /// The compound group, in stable default-selection order.
    pub fn compound_classes() -> (r: Vec<Class>)
        ensures
            r@ == compound_classes_spec(),
    {
        let v = vec![
            Class::CUE20M,
            Class::CUE20W,
            Class::CU15,
            Class::CU21,
            Class::CUE49M,
            Class::CUE49W,
            Class::CUE65M,
            Class::CUE65W,
        ];
        proof {
            assert(v@ =~= compound_classes_spec());
        }
        v
    }
}

/// A class code that matches no class in the taxonomy.
#[derive(Debug, Clone, PartialEq)]
pub struct UnknownClassError {
    pub class: String,
}

impl UnknownClassError {
    /// The rendered form of the error.
    pub fn message(&self) -> (r: String)
        ensures
            r@ == "Unknown class: "@ + self.class@,
    {
        let mut s = <String as vstd::string::StringExecFns>::from_str("Unknown class: ");
        <String as vstd::string::StringExecFns>::append(&mut s, self.class.as_str());
        s
    }
}

impl Class {
    /// The class's code token, equal to its identifier in the taxonomy.
    pub open spec fn code_spec(self) -> Seq<char> {
        match self {
            Class::RUE20M => "RUE20M"@,
            Class::RUE20W => "RUE20W"@,
            Class::RU15M => "RU15M"@,
            Class::RU15W => "RU15W"@,
            Class::RU13M => "RU13M"@,
            Class::RU13W => "RU13W"@,
            Class::RU11M => "RU11M"@,
            Class::RU11W => "RU11W"@,
            Class::RU18M => "RU18M"@,
            Class::RU18W => "RU18W"@,
            Class::RU21M => "RU21M"@,
            Class::RU21W => "RU21W"@,
            Class::RUE49M => "RUE49M"@,
            Class::RUE49W => "RUE49W"@,
            Class::RUE65M => "RUE65M"@,
            Class::RUE65W => "RUE65W"@,
            Class::BUE20M => "BUE20M"@,
            Class::BUE20W => "BUE20W"@,
            Class::BU15 => "BU15"@,
            Class::BU21 => "BU21"@,
            Class::CUE20M => "CUE20M"@,
            Class::CUE20W => "CUE20W"@,
            Class::CU15 => "CU15"@,
            Class::CU21 => "CU21"@,
            Class::CUE49M => "CUE49M"@,
            Class::CUE49W => "CUE49W"@,
            Class::CUE65M => "CUE65M"@,
            Class::CUE65W => "CUE65W"@,
        }
    }

    /// The class's code token as a string slice.
    pub fn code(&self) -> (r: &'static str)
        ensures
            r@ == self.code_spec(),
    {
        match self {
            Class::RUE20M => "RUE20M",
            Class::RUE20W => "RUE20W",
            Class::RU15M => "RU15M",
            Class::RU15W => "RU15W",
            Class::RU13M => "RU13M",
            Class::RU13W => "RU13W",
            Class::RU11M => "RU11M",
            Class::RU11W => "RU11W",
            Class::RU18M => "RU18M",
            Class::RU18W => "RU18W",
            Class::RU21M => "RU21M",
            Class::RU21W => "RU21W",
            Class::RUE49M => "RUE49M",
            Class::RUE49W => "RUE49W",
            Class::RUE65M => "RUE65M",
            Class::RUE65W => "RUE65W",
            Class::BUE20M => "BUE20M",
            Class::BUE20W => "BUE20W",
            Class::BU15 => "BU15",
            Class::BU21 => "BU21",
            Class::CUE20M => "CUE20M",
            Class::CUE20W => "CUE20W",
            Class::CU15 => "CU15",
            Class::CU21 => "CU21",
            Class::CUE49M => "CUE49M",
            Class::CUE49W => "CUE49W",
            Class::CUE65M => "CUE65M",
            Class::CUE65W => "CUE65W",
        }
    }

    /// Parses a class code token; unknown codes are returned in the error.
    pub fn from_str(s: &str) -> (r: Result<Class, UnknownClassError>)
        ensures
            r matches Ok(c) ==> s@ == c.code_spec(),
            r matches Err(e) ==> e.class@ == s@,
            r is Err <==> forall|c: Class| s@ != c.code_spec(),
    {
        let all = Class::all_classes();
        let mut i: usize = 0;
        while i < all.len()
            invariant
                0 <= i <= all@.len(),
                all@ == all_classes_spec(),
                forall|j: int| 0 <= j < i ==> s@ != (#[trigger] all@[j]).code_spec(),
            decreases all@.len() - i,
        {
            if str_eq(s, all[i].code()) {
                return Ok(all[i]);
            }
            i += 1;
        }
        proof {
            assert forall|c: Class| s@ != c.code_spec() by {
                let k = all_index_of(c);
                assert(all_classes_spec()[k] == c);
            }
        }
        Err(UnknownClassError { class: s.to_owned() })
    }
}

/// The position of a class in the full declaration-order list.
pub open spec fn all_index_of(c: Class) -> int {
    match c {
        Class::RUE20M => 0,
        Class::RUE20W => 1,
        Class::RU15M => 2,
        Class::RU15W => 3,
        Class::RU13M => 4,
        Class::RU13W => 5,
        Class::RU11M => 6,
        Class::RU11W => 7,
        Class::RU18M => 8,
        Class::RU18W => 9,
        Class::RU21M => 10,
        Class::RU21W => 11,
        Class::RUE49M => 12,
        Class::RUE49W => 13,
        Class::RUE65M => 14,
        Class::RUE65W => 15,
        Class::BUE20M => 16,
        Class::BUE20W => 17,
        Class::BU15 => 18,
        Class::BU21 => 19,
        Class::CUE20M => 20,
        Class::CUE20W => 21,
        Class::CU15 => 22,
        Class::CU21 => 23,
        Class::CUE49M => 24,
        Class::CUE49W => 25,
        Class::CUE65M => 26,
        Class::CUE65W => 27,
    }
}

/// The two price tiers are the only values `price` ever returns, and the
/// discounted one is returned exactly for the youth brackets.
pub proof fn lemma_price_two_tiers(c: Class)
    ensures
        c.price_spec() == 1200 || c.price_spec() == 1800,
        c.price_spec() == 1200 <==> c.is_discount_spec(),
{
}

} // verus!
