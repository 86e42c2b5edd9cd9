//! The eligibility resolver: which classes a date of birth and bow type may
//! register under, split into the in-bracket defaults and the voluntary
//! upgrades reachable from them.

use vstd::prelude::*;

use crate::bow_type::BowType;
use crate::class::{
    barebow_classes_spec, compound_classes_spec, group_classes_spec, recurve_classes_spec, Class,
    ClassUpgradeStatus,
};
use crate::date::{triple_le, triple_lt, years_before, Date};

verus! {

impl Class {
    /// The other classes a member of this class may voluntarily enter, always
    /// toward the unrestricted adult class of the same group.
    pub open spec fn upgrade_targets_spec(self) -> Seq<Class> {
        match self {
            Class::RU21M | Class::RUE49M => seq![Class::RUE20M],
            Class::RU21W | Class::RUE49W => seq![Class::RUE20W],
            Class::RUE65M => seq![Class::RUE49M, Class::RUE20M],
            Class::RUE65W => seq![Class::RUE49W, Class::RUE20W],
            Class::BU21 => seq![Class::BUE20M, Class::BUE20W],
            Class::CU21 => seq![Class::CUE20M, Class::CUE20W],
            Class::CUE49M => seq![Class::CUE20M],
            Class::CUE49W => seq![Class::CUE20W],
            Class::CUE65M => seq![Class::CUE49M, Class::CUE20M],
            Class::CUE65W => seq![Class::CUE49W, Class::CUE20W],
            Class::RUE20M | Class::RUE20W | Class::RU15M | Class::RU15W | Class::RU13M
                | Class::RU13W | Class::RU11M | Class::RU11W | Class::RU18M | Class::RU18W
                | Class::BUE20M | Class::BUE20W | Class::BU15 | Class::CUE20M | Class::CUE20W
                | Class::CU15 => Seq::empty(),
        }
    }

    /// The upgrade targets of this class, in display order.
    pub fn other_allowed_classes(&self) -> (r: Vec<Class>)
        ensures
            r@ == self.upgrade_targets_spec(),
    {
        let v: Vec<Class> = match self {
            Class::RU21M | Class::RUE49M => vec![Class::RUE20M],
            Class::RU21W | Class::RUE49W => vec![Class::RUE20W],
            Class::RUE65M => vec![Class::RUE49M, Class::RUE20M],
            Class::RUE65W => vec![Class::RUE49W, Class::RUE20W],
            Class::BU21 => vec![Class::BUE20M, Class::BUE20W],
            Class::CU21 => vec![Class::CUE20M, Class::CUE20W],
            Class::CUE49M => vec![Class::CUE20M],
            Class::CUE49W => vec![Class::CUE20W],
            Class::CUE65M => vec![Class::CUE49M, Class::CUE20M],
            Class::CUE65W => vec![Class::CUE49W, Class::CUE20W],
            Class::RUE20M | Class::RUE20W | Class::RU15M | Class::RU15W | Class::RU13M
                | Class::RU13W | Class::RU11M | Class::RU11W | Class::RU18M | Class::RU18W
                | Class::BUE20M | Class::BUE20W | Class::BU15 | Class::CUE20M | Class::CUE20W
                | Class::CU15 => Vec::new(),
        };
        proof {
            assert(v@ =~= self.upgrade_targets_spec());
        }
        v
    }
}

/// The subsequence of `group` whose brackets contain the date of birth, in
/// group order.
pub open spec fn defaults_from(group: Seq<Class>, dob: Date, season: Date) -> Seq<Class>
    decreases group.len(),
{
    if group.len() == 0 {
        Seq::empty()
    } else {
        let rest = defaults_from(group.drop_last(), dob, season);
        if group.last().in_range_spec(dob, season) {
            rest.push(group.last())
        } else {
            rest
        }
    }
}

/// The classes whose bracket contains the date of birth, for the group of the
/// given bow type.
pub open spec fn default_classes_spec(bow_type: BowType, dob: Date, season: Date) -> Seq<Class> {
    defaults_from(group_classes_spec(bow_type), dob, season)
}

/// The upgrade targets of all default classes, concatenated in order.
pub open spec fn upgrade_candidates(defaults: Seq<Class>) -> Seq<Class>
    decreases defaults.len(),
{
    if defaults.len() == 0 {
        Seq::empty()
    } else {
        upgrade_candidates(defaults.drop_last()) + defaults.last().upgrade_targets_spec()
    }
}

/// First occurrences of `cands`, with classes already in `defaults` removed:
/// a default entry takes precedence over an upgrade entry for the same class,
/// and a class reachable as an upgrade from two defaults appears once.
pub open spec fn upgrades_from(cands: Seq<Class>, defaults: Seq<Class>) -> Seq<Class>
    decreases cands.len(),
{
    if cands.len() == 0 {
        Seq::empty()
    } else {
        let rest = upgrades_from(cands.drop_last(), defaults);
        let c = cands.last();
        if defaults.contains(c) || cands.drop_last().contains(c) {
            rest
        } else {
            rest.push(c)
        }
    }
}

/// The voluntary upgrades offered for the given bow type and date of birth.
pub open spec fn upgrade_classes_spec(bow_type: BowType, dob: Date, season: Date) -> Seq<Class> {
    let defaults = default_classes_spec(bow_type, dob, season);
    upgrades_from(upgrade_candidates(defaults), defaults)
}

/// The full answer of the resolver: the default classes first, then the
/// upgrades, each tagged with how membership arose.
pub open spec fn allowed_classes_spec(bow_type: BowType, dob: Date, season: Date) -> Seq<
    (Class, ClassUpgradeStatus),
> {
    default_classes_spec(bow_type, dob, season).map_values(
        |c: Class| (c, ClassUpgradeStatus::InDefaultAgeRange),
    ) + upgrade_classes_spec(bow_type, dob, season).map_values(
        |c: Class| (c, ClassUpgradeStatus::Upgrade),
    )
}

/// The classes of one bow type group, in stable default-selection order.
fn classes_for_group(bow_type: BowType) -> (r: Vec<Class>)
    ensures
        r@ == group_classes_spec(bow_type),
{
    match bow_type {
        BowType::Recurve => Class::recurve_classes(),
        BowType::Compound => Class::compound_classes(),
        BowType::Barebow => Class::barebow_classes(),
    }
}

/// Linear search over the first `n` entries.
pub(crate) fn contains_upto(v: &Vec<Class>, n: usize, c: Class) -> (r: bool)
    requires
        n <= v@.len(),
    ensures
        r == v@.subrange(0, n as int).contains(c),
{
    let mut i: usize = 0;
    while i < n
        invariant
            0 <= i <= n <= v@.len(),
            forall|j: int| 0 <= j < i ==> v@[j] != c,
        decreases n - i,
    {
        if v[i] == c {
            proof {
                assert(v@.subrange(0, n as int)[i as int] == c);
            }
            return true;
        }
        i += 1;
    }
    proof {
        assert(forall|j: int| 0 <= j < n ==> v@.subrange(0, n as int)[j] == v@[j]);
    }
    false
}

impl Class {
    /// Every class the archer may register under for this bow type and date
    /// of birth: the in-bracket classes in group order, then the voluntary
    /// upgrades reachable from them, de-duplicated and never repeating a
    /// default class.
    #[verifier::loop_isolation(false)]
    pub fn allowed_classes(bow_type: BowType, dob: Date, season: Date) -> (r: Vec<
        (Class, ClassUpgradeStatus),
    >)
        requires
            dob.wf(),
            season.wf(),
        ensures
            r@ == allowed_classes_spec(bow_type, dob, season),
    {
        let group = classes_for_group(bow_type);
        let mut defaults: Vec<Class> = Vec::new();
        let mut i: usize = 0;
        while i < group.len()
            invariant
                0 <= i <= group@.len(),
                defaults@ == defaults_from(group@.subrange(0, i as int), dob, season),
            decreases group@.len() - i,
        {
            proof {
                assert(group@.subrange(0, i + 1).drop_last() =~= group@.subrange(0, i as int));
            }
            if group[i].in_range(dob, season) {
                defaults.push(group[i]);
            }
            i += 1;
        }
        proof {
            assert(group@.subrange(0, group@.len() as int) =~= group@);
        }

        let mut cands: Vec<Class> = Vec::new();
        let mut i: usize = 0;
        while i < defaults.len()
            invariant
                0 <= i <= defaults@.len(),
                cands@ == upgrade_candidates(defaults@.subrange(0, i as int)),
            decreases defaults@.len() - i,
        {
            proof {
                assert(defaults@.subrange(0, i + 1).drop_last() =~= defaults@.subrange(
                    0,
                    i as int,
                ));
            }
            let mut t = defaults[i].other_allowed_classes();
            cands.append(&mut t);
            i += 1;
        }
        proof {
            assert(defaults@.subrange(0, defaults@.len() as int) =~= defaults@);
        }

        let mut ups: Vec<Class> = Vec::new();
        let mut i: usize = 0;
        while i < cands.len()
            invariant
                0 <= i <= cands@.len(),
                ups@ == upgrades_from(cands@.subrange(0, i as int), defaults@),
            decreases cands@.len() - i,
        {
            proof {
                assert(cands@.subrange(0, i + 1).drop_last() =~= cands@.subrange(0, i as int));
            }
            let c = cands[i];
            let in_defaults = contains_upto(&defaults, defaults.len(), c);
            let in_prefix = contains_upto(&cands, i, c);
            proof {
                assert(defaults@.subrange(0, defaults@.len() as int) =~= defaults@);
            }
            if !in_defaults && !in_prefix {
                ups.push(c);
            }
            i += 1;
        }
        proof {
            assert(cands@.subrange(0, cands@.len() as int) =~= cands@);
        }

        let ghost f_def = |c: Class| (c, ClassUpgradeStatus::InDefaultAgeRange);
        let ghost f_up = |c: Class| (c, ClassUpgradeStatus::Upgrade);
        let mut out: Vec<(Class, ClassUpgradeStatus)> = Vec::new();
        let mut i: usize = 0;
        while i < defaults.len()
            invariant
                0 <= i <= defaults@.len(),
                out@ == defaults@.subrange(0, i as int).map_values(f_def),
            decreases defaults@.len() - i,
        {
            out.push((defaults[i], ClassUpgradeStatus::InDefaultAgeRange));
            proof {
                assert(out@ =~= defaults@.subrange(0, i + 1).map_values(f_def));
            }
            i += 1;
        }
        let mut i: usize = 0;
        while i < ups.len()
            invariant
                0 <= i <= ups@.len(),
                out@ == defaults@.map_values(f_def) + ups@.subrange(0, i as int).map_values(f_up),
            decreases ups@.len() - i,
        {
            out.push((ups[i], ClassUpgradeStatus::Upgrade));
            proof {
                assert(out@ =~= defaults@.map_values(f_def) + ups@.subrange(0, i + 1).map_values(
                    f_up,
                ));
            }
            i += 1;
        }
        proof {
            assert(defaults@.subrange(0, defaults@.len() as int) =~= defaults@);
            assert(ups@.subrange(0, ups@.len() as int) =~= ups@);
            assert(defaults@.map_values(f_def) =~= default_classes_spec(
                bow_type,
                dob,
                season,
            ).map_values(|c: Class| (c, ClassUpgradeStatus::InDefaultAgeRange)));
            assert(ups@.map_values(f_up) =~= upgrade_classes_spec(bow_type, dob, season).map_values(
                |c: Class| (c, ClassUpgradeStatus::Upgrade),
            ));
        }
        out
    }

    /// The classes of a resolver answer with the membership tags dropped:
    /// the defaults first, then the upgrades.
    pub fn allowed_class_list(bow_type: BowType, dob: Date, season: Date) -> (r: Vec<Class>)
        requires
            dob.wf(),
            season.wf(),
        ensures
            r@ == default_classes_spec(bow_type, dob, season) + upgrade_classes_spec(
                bow_type,
                dob,
                season,
            ),
    {
        let pairs = Class::allowed_classes(bow_type, dob, season);
        let mut v: Vec<Class> = Vec::new();
        let mut i: usize = 0;
        while i < pairs.len()
            invariant
                0 <= i <= pairs@.len(),
                pairs@ == allowed_classes_spec(bow_type, dob, season),
                v@ == pairs@.subrange(0, i as int).map_values(|p: (Class, ClassUpgradeStatus)| p.0),
            decreases pairs@.len() - i,
        {
            v.push(pairs[i].0);
            proof {
                assert(v@ =~= pairs@.subrange(0, i + 1).map_values(
                    |p: (Class, ClassUpgradeStatus)| p.0,
                ));
            }
            i += 1;
        }
        proof {
            assert(pairs@.subrange(0, pairs@.len() as int) =~= pairs@);
            assert(pairs@.map_values(|p: (Class, ClassUpgradeStatus)| p.0) =~= default_classes_spec(
                bow_type,
                dob,
                season,
            ) + upgrade_classes_spec(bow_type, dob, season));
        }
        v
    }
}

proof fn lemma_push_contains(s: Seq<Class>, x: Class, c: Class)
    ensures
        s.push(x).contains(c) <==> s.contains(c) || x == c,
{
    if s.push(x).contains(c) {
        let i = choose|i: int| 0 <= i < s.push(x).len() && s.push(x)[i] == c;
        if i < s.len() {
            assert(s[i] == c);
        }
    }
    if s.contains(c) {
        let i = choose|i: int| 0 <= i < s.len() && s[i] == c;
        assert(s.push(x)[i] == c);
    }
    assert(s.push(x)[s.len() as int] == x);
}

proof fn lemma_drop_last_contains(s: Seq<Class>, c: Class)
    requires
        s.len() > 0,
    ensures
        s.contains(c) <==> s.drop_last().contains(c) || s.last() == c,
{
    if s.contains(c) {
        let i = choose|i: int| 0 <= i < s.len() && s[i] == c;
        if i < s.len() - 1 {
            assert(s.drop_last()[i] == c);
        }
    }
    if s.drop_last().contains(c) {
        let i = choose|i: int| 0 <= i < s.drop_last().len() && s.drop_last()[i] == c;
        assert(s[i] == c);
    }
    assert(s[s.len() - 1] == s.last());
}

proof fn lemma_add_contains(a: Seq<Class>, b: Seq<Class>, c: Class)
    ensures
        (a + b).contains(c) <==> a.contains(c) || b.contains(c),
{
    if (a + b).contains(c) {
        let i = choose|i: int| 0 <= i < (a + b).len() && (a + b)[i] == c;
        if i < a.len() {
            assert(a[i] == c);
        } else {
            assert(b[i - a.len()] == c);
        }
    }
    if a.contains(c) {
        let i = choose|i: int| 0 <= i < a.len() && a[i] == c;
        assert((a + b)[i] == c);
    }
    if b.contains(c) {
        let i = choose|i: int| 0 <= i < b.len() && b[i] == c;
        assert((a + b)[a.len() + i] == c);
    }
}

proof fn lemma_defaults_from_membership(group: Seq<Class>, dob: Date, season: Date, c: Class)
    ensures
        defaults_from(group, dob, season).contains(c) <==> group.contains(c) && c.in_range_spec(
            dob,
            season,
        ),
    decreases group.len(),
{
    if group.len() == 0 {
    } else {
        let rest = group.drop_last();
        lemma_defaults_from_membership(rest, dob, season, c);
        lemma_drop_last_contains(group, c);
        if group.last().in_range_spec(dob, season) {
            lemma_push_contains(defaults_from(rest, dob, season), group.last(), c);
        }
    }
}

proof fn lemma_upgrade_candidates_membership(defaults: Seq<Class>, c: Class)
    ensures
        upgrade_candidates(defaults).contains(c) <==> exists|d: Class|
            #[trigger] defaults.contains(d) && d.upgrade_targets_spec().contains(c),
    decreases defaults.len(),
{
    if defaults.len() == 0 {
        assert(forall|d: Class| !defaults.contains(d));
    } else {
        let rest = defaults.drop_last();
        let last = defaults.last();
        lemma_upgrade_candidates_membership(rest, c);
        lemma_add_contains(upgrade_candidates(rest), last.upgrade_targets_spec(), c);
        lemma_drop_last_contains(defaults, last);
        if upgrade_candidates(defaults).contains(c) {
            if upgrade_candidates(rest).contains(c) {
                let d = choose|d: Class|
                    #[trigger] rest.contains(d) && d.upgrade_targets_spec().contains(c);
                lemma_drop_last_contains(defaults, d);
                assert(defaults.contains(d) && d.upgrade_targets_spec().contains(c));
            } else {
                assert(defaults.contains(last) && last.upgrade_targets_spec().contains(c));
            }
        }
        if exists|d: Class| #[trigger] defaults.contains(d) && d.upgrade_targets_spec().contains(c) {
            let d = choose|d: Class|
                #[trigger] defaults.contains(d) && d.upgrade_targets_spec().contains(c);
            lemma_drop_last_contains(defaults, d);
            if rest.contains(d) {
                assert(upgrade_candidates(rest).contains(c));
            } else {
                assert(d == last);
            }
        }
    }
}

proof fn lemma_upgrades_from_membership(cands: Seq<Class>, defaults: Seq<Class>, c: Class)
    ensures
        upgrades_from(cands, defaults).contains(c) <==> cands.contains(c) && !defaults.contains(c),
    decreases cands.len(),
{
    if cands.len() == 0 {
    } else {
        let rest = cands.drop_last();
        let last = cands.last();
        lemma_upgrades_from_membership(rest, defaults, c);
        lemma_drop_last_contains(cands, c);
        if !(defaults.contains(last) || rest.contains(last)) {
            lemma_push_contains(upgrades_from(rest, defaults), last, c);
        }
    }
}

/// A class is offered as a default exactly when it belongs to the bow type's
/// group and the date of birth lies inside its bracket: on or after the day
/// `bracket_max` years before season start, strictly before the day
/// `bracket_min - 1` years before it. In particular, every date outside those
/// two boundary days is excluded and both boundary days are included.
pub proof fn lemma_default_membership(bow_type: BowType, dob: Date, season: Date, c: Class)
    ensures
        default_classes_spec(bow_type, dob, season).contains(c) <==> group_classes_spec(
            bow_type,
        ).contains(c) && c.in_range_spec(dob, season),
{
    lemma_defaults_from_membership(group_classes_spec(bow_type), dob, season, c);
}

/// Idempotence of the resolver: its whole answer is a function of the bow
/// type, date of birth and season start alone, so any two results that are
/// correct for the same inputs are the same sequence, and hence equal as sets.
pub proof fn lemma_eligibility_idempotent(
    r1: Seq<(Class, ClassUpgradeStatus)>,
    r2: Seq<(Class, ClassUpgradeStatus)>,
    bow_type: BowType,
    dob: Date,
    season: Date,
)
    requires
        r1 == allowed_classes_spec(bow_type, dob, season),
        r2 == allowed_classes_spec(bow_type, dob, season),
    ensures
        r1 == r2,
{
}

/// Monotonic upgrade closure: every offered upgrade class is an upgrade
/// target of some default class of the same computation, and no upgrade class
/// is simultaneously offered as a default (defaults take precedence).
pub proof fn lemma_upgrade_closure(bow_type: BowType, dob: Date, season: Date, c: Class)
    requires
        upgrade_classes_spec(bow_type, dob, season).contains(c),
    ensures
        !default_classes_spec(bow_type, dob, season).contains(c),
        exists|d: Class|
            #[trigger] default_classes_spec(bow_type, dob, season).contains(d)
                && d.upgrade_targets_spec().contains(c),
{
    let defaults = default_classes_spec(bow_type, dob, season);
    lemma_upgrades_from_membership(upgrade_candidates(defaults), defaults, c);
    lemma_upgrade_candidates_membership(defaults, c);
}

proof fn lemma_defaults_from_no_dup(group: Seq<Class>, dob: Date, season: Date)
    requires
        group.no_duplicates(),
    ensures
        defaults_from(group, dob, season).no_duplicates(),
    decreases group.len(),
{
    if group.len() > 0 {
        let rest = group.drop_last();
        assert(rest.no_duplicates());
        lemma_defaults_from_no_dup(rest, dob, season);
        if group.last().in_range_spec(dob, season) {
            lemma_defaults_from_membership(rest, dob, season, group.last());
            assert(!rest.contains(group.last())) by {
                if rest.contains(group.last()) {
                    let i = choose|i: int| 0 <= i < rest.len() && rest[i] == group.last();
                    assert(group[i] == group[group.len() - 1]);
                }
            }
            let prev = defaults_from(rest, dob, season);
            assert(forall|i: int| 0 <= i < prev.len() ==> prev[i] != group.last());
            assert(prev.push(group.last()).no_duplicates());
        }
    }
}

proof fn lemma_upgrades_from_no_dup(cands: Seq<Class>, defaults: Seq<Class>)
    ensures
        upgrades_from(cands, defaults).no_duplicates(),
    decreases cands.len(),
{
    if cands.len() > 0 {
        let rest = cands.drop_last();
        let last = cands.last();
        lemma_upgrades_from_no_dup(rest, defaults);
        if !(defaults.contains(last) || rest.contains(last)) {
            lemma_upgrades_from_membership(rest, defaults, last);
            let prev = upgrades_from(rest, defaults);
            assert(forall|i: int| 0 <= i < prev.len() ==> prev[i] != last);
            assert(prev.push(last).no_duplicates());
        }
    }
}

/// The resolver's answer lists each class at most once: the default classes
/// are pairwise distinct, so are the upgrades, and by the precedence rule no
/// class stands in both lists.
pub proof fn lemma_answer_no_duplicates(bow_type: BowType, dob: Date, season: Date)
    ensures
        default_classes_spec(bow_type, dob, season).no_duplicates(),
        upgrade_classes_spec(bow_type, dob, season).no_duplicates(),
{
    assert(group_classes_spec(bow_type).no_duplicates());
    lemma_defaults_from_no_dup(group_classes_spec(bow_type), dob, season);
    let defaults = default_classes_spec(bow_type, dob, season);
    lemma_upgrades_from_no_dup(upgrade_candidates(defaults), defaults);
}

/// The bow type group a class belongs to.
pub open spec fn group_of_spec(c: Class) -> BowType {
    match c {
        Class::RUE20M | Class::RUE20W | Class::RU15M | Class::RU15W | Class::RU13M
            | Class::RU13W | Class::RU11M | Class::RU11W | Class::RU18M | Class::RU18W
            | Class::RU21M | Class::RU21W | Class::RUE49M | Class::RUE49W | Class::RUE65M
            | Class::RUE65W => BowType::Recurve,
        Class::BUE20M | Class::BUE20W | Class::BU15 | Class::BU21 => BowType::Barebow,
        Class::CUE20M | Class::CUE20W | Class::CU15 | Class::CU21 | Class::CUE49M
            | Class::CUE49W | Class::CUE65M | Class::CUE65W => BowType::Compound,
    }
}

/// Distance of a class from its group's unrestricted adult bracket along the
/// upgrade relation.
pub open spec fn upgrade_rank_spec(c: Class) -> int {
    match c {
        Class::RUE65M | Class::RUE65W | Class::CUE65M | Class::CUE65W => 2,
        Class::RUE49M | Class::RUE49W | Class::CUE49M | Class::CUE49W | Class::RU21M
            | Class::RU21W | Class::BU21 | Class::CU21 => 1,
        Class::RUE20M | Class::RUE20W | Class::RU15M | Class::RU15W | Class::RU13M
            | Class::RU13W | Class::RU11M | Class::RU11W | Class::RU18M | Class::RU18W
            | Class::BUE20M | Class::BUE20W | Class::BU15 | Class::CUE20M | Class::CUE20W
            | Class::CU15 => 0,
    }
}

impl Class {
    /// The bow type group this class belongs to.
    pub fn group(&self) -> (r: BowType)
        ensures
            r == group_of_spec(*self),
    {
        match self {
            Class::RUE20M | Class::RUE20W | Class::RU15M | Class::RU15W | Class::RU13M
                | Class::RU13W | Class::RU11M | Class::RU11W | Class::RU18M | Class::RU18W
                | Class::RU21M | Class::RU21W | Class::RUE49M | Class::RUE49W | Class::RUE65M
                | Class::RUE65W => BowType::Recurve,
            Class::BUE20M | Class::BUE20W | Class::BU15 | Class::BU21 => BowType::Barebow,
            Class::CUE20M | Class::CUE20W | Class::CU15 | Class::CU21 | Class::CUE49M
                | Class::CUE49W | Class::CUE65M | Class::CUE65W => BowType::Compound,
        }
    }
}

/// The upgrade relation is acyclic and only points toward the group's
/// unrestricted adult bracket: every target stays in the class's own group
/// and lies strictly closer to the adult class.
pub proof fn lemma_upgrade_targets_direction(c: Class, t: Class)
    requires
        c.upgrade_targets_spec().contains(t),
    ensures
        group_of_spec(t) == group_of_spec(c),
        upgrade_rank_spec(t) < upgrade_rank_spec(c),
{
}

proof fn lemma_contains_nonempty(s: Seq<Class>, c: Class)
    requires
        s.contains(c),
    ensures
        s.len() > 0,
{
}

/// No group leaves a gap: every date of birth from 120 years before season
/// start up to the season start's own age window falls inside at least one
/// bracket of each group, so the resolver never answers with an empty
/// default set there.
pub proof fn lemma_group_brackets_cover(bow_type: BowType, dob: Date, season: Date)
    requires
        triple_le(years_before(season, 120), dob.triple()),
        triple_lt(dob.triple(), years_before(season, 0)),
    ensures
        default_classes_spec(bow_type, dob, season).len() > 0,
{
    let d = dob.triple();
    match bow_type {
        BowType::Recurve => {
            let witness: Class = if triple_lt(d, years_before(season, 65)) {
                assert(recurve_classes_spec()[14] == Class::RUE65M);
                Class::RUE65M
            } else if triple_lt(d, years_before(season, 49)) {
                assert(recurve_classes_spec()[12] == Class::RUE49M);
                Class::RUE49M
            } else if triple_lt(d, years_before(season, 20)) {
                assert(recurve_classes_spec()[0] == Class::RUE20M);
                Class::RUE20M
            } else if triple_lt(d, years_before(season, 17)) {
                assert(recurve_classes_spec()[10] == Class::RU21M);
                Class::RU21M
            } else if triple_lt(d, years_before(season, 14)) {
                assert(recurve_classes_spec()[8] == Class::RU18M);
                Class::RU18M
            } else if triple_lt(d, years_before(season, 12)) {
                assert(recurve_classes_spec()[2] == Class::RU15M);
                Class::RU15M
            } else if triple_lt(d, years_before(season, 10)) {
                assert(recurve_classes_spec()[4] == Class::RU13M);
                Class::RU13M
            } else {
                assert(recurve_classes_spec()[6] == Class::RU11M);
                Class::RU11M
            };
            assert(group_classes_spec(bow_type).contains(witness));
            assert(witness.in_range_spec(dob, season));
            lemma_default_membership(bow_type, dob, season, witness);
            lemma_contains_nonempty(default_classes_spec(bow_type, dob, season), witness);
        },
        BowType::Barebow => {
            let witness: Class = if triple_lt(d, years_before(season, 20)) {
                assert(barebow_classes_spec()[0] == Class::BUE20M);
                Class::BUE20M
            } else if triple_lt(d, years_before(season, 14)) {
                assert(barebow_classes_spec()[3] == Class::BU21);
                Class::BU21
            } else {
                assert(barebow_classes_spec()[2] == Class::BU15);
                Class::BU15
            };
            assert(group_classes_spec(bow_type).contains(witness));
            assert(witness.in_range_spec(dob, season));
            lemma_default_membership(bow_type, dob, season, witness);
            lemma_contains_nonempty(default_classes_spec(bow_type, dob, season), witness);
        },
        BowType::Compound => {
            let witness: Class = if triple_lt(d, years_before(season, 65)) {
                assert(compound_classes_spec()[6] == Class::CUE65M);
                Class::CUE65M
            } else if triple_lt(d, years_before(season, 49)) {
                assert(compound_classes_spec()[4] == Class::CUE49M);
                Class::CUE49M
            } else if triple_lt(d, years_before(season, 20)) {
                assert(compound_classes_spec()[0] == Class::CUE20M);
                Class::CUE20M
            } else if triple_lt(d, years_before(season, 14)) {
                assert(compound_classes_spec()[3] == Class::CU21);
                Class::CU21
            } else {
                assert(compound_classes_spec()[2] == Class::CU15);
                Class::CU15
            };
            assert(group_classes_spec(bow_type).contains(witness));
            assert(witness.in_range_spec(dob, season));
            lemma_default_membership(bow_type, dob, season, witness);
            lemma_contains_nonempty(default_classes_spec(bow_type, dob, season), witness);
        },
    }
}

} // verus!
