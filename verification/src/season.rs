//! The seasonal rule engine: an ordered, total list of rules mapping a
//! calendar date to a header template and a display name, evaluated
//! first-match-wins. The final rule is unconditional, so some rule always
//! matches; if a broken rule list ever matched nothing, evaluation
//! substitutes the default rule instead of failing.

use vstd::prelude::*;

use chrono::Datelike;

use crate::assets::{choice_ok, Assets, TemplateChoice, ADVENT_COUNT};
use crate::raster::{clone_raster, height_of, px_of, width_of, Raster};

verus! {

/// A calendar date reduced to what the seasonal rules read: month and day.
#[derive(Clone, Copy, Debug, PartialEq, Eq, Structural)]
pub struct Date {
    pub month: u8,
    pub day: u8,
}

/// The number of days a month can have; February is given 29 so that leap
/// days are valid in every year.
pub open spec fn days_in_month(m: int) -> int {
    if m == 2 {
        29
    } else if m == 4 || m == 6 || m == 9 || m == 11 {
        30
    } else {
        31
    }
}

/// Whether month and day numbers form a calendar date.
pub open spec fn valid_md(m: int, d: int) -> bool {
    &&& 1 <= m <= 12
    &&& 1 <= d <= days_in_month(m)
}

impl Date {
    pub open spec fn valid(self) -> bool {
        valid_md(self.month as int, self.day as int)
    }

    /// A date from month and day numbers; `None` unless they form a calendar
    /// date (February 29 is accepted, as in a leap year).
    pub fn new(month: u8, day: u8) -> (r: Option<Date>)
        ensures
            r is Some <==> valid_md(month as int, day as int),
            r matches Some(d) ==> d.month == month && d.day == day,
    {
        let max: u8 = if month == 2 {
            29
        } else if month == 4 || month == 6 || month == 9 || month == 11 {
            30
        } else {
            31
        };
        if 1 <= month && month <= 12 && 1 <= day && day <= max {
            Some(Date { month, day })
        } else {
            None
        }
    }
}

/// Relies on `chrono::Utc::now` with `Datelike::month` and `Datelike::day`:
/// the month is 1 to 12 and the day is 1 to 31, and the pair is a real
/// calendar date, so the day never exceeds the month's length (at most 29 in
/// February). `Utc::now` itself panics if the system clock reads before
/// 1970; no precondition can exclude that environment condition, and the
/// process makes the same call either way.
#[verifier::external_body]
fn today_md() -> (r: (u32, u32))
    ensures
        valid_md(r.0 as int, r.1 as int),
{
    let now = chrono::Utc::now();
    (now.month(), now.day())
}

/// The current UTC date.
pub fn current_date() -> (d: Date)
    ensures
        d.valid(),
{
    let (m, day) = today_md();
    match Date::new(m as u8, day as u8) {
        Some(d) => d,
        None => Date { month: 1, day: 1 },
    }
}

/// A seasonal rule: each kind determines a date predicate, a template
/// selector and a display name.
#[derive(Clone, Copy, Debug, PartialEq, Eq, Structural)]
pub enum RuleKind {
    Halloween,
    ChristmasAdvent,
    ChristmasHoliday,
    Always,
}

/// The date predicate of a rule.
pub open spec fn rule_matches(k: RuleKind, date: Date) -> bool {
    match k {
        RuleKind::Halloween => (date.month == 10 && date.day >= 19) || (date.month == 11
            && date.day <= 3),
        RuleKind::ChristmasAdvent => date.month == 12 && date.day <= 22,
        RuleKind::ChristmasHoliday => date.month == 12 && 22 < date.day < 28,
        RuleKind::Always => true,
    }
}

/// The template selector of a rule: the advent rule picks the day-indexed
/// variant (day 1 selects variant index 0), every other rule a fixed
/// template.
pub open spec fn rule_choice(k: RuleKind, date: Date) -> TemplateChoice {
    match k {
        RuleKind::Halloween => TemplateChoice::Halloween,
        RuleKind::ChristmasAdvent => TemplateChoice::Advent((date.day - 1) as u8),
        RuleKind::ChristmasHoliday => TemplateChoice::Christmas,
        RuleKind::Always => TemplateChoice::Standard,
    }
}

impl RuleKind {
    /// Whether this rule's predicate holds of `date`.
    pub fn matches(self, date: Date) -> (b: bool)
        ensures
            b == rule_matches(self, date),
    {
        match self {
            RuleKind::Halloween => (date.month == 10 && date.day >= 19) || (date.month == 11
                && date.day <= 3),
            RuleKind::ChristmasAdvent => date.month == 12 && date.day <= 22,
            RuleKind::ChristmasHoliday => date.month == 12 && 22 < date.day && date.day < 28,
            RuleKind::Always => true,
        }
    }

    /// The display name of this rule.
    pub open spec fn spec_name(self) -> Seq<char> {
        match self {
            RuleKind::Halloween => "Halloween"@,
            RuleKind::ChristmasAdvent => "Christmas Advent"@,
            RuleKind::ChristmasHoliday => "Christmas Holliday"@,
            RuleKind::Always => "Default"@,
        }
    }

    pub fn name(self) -> (r: &'static str)
        ensures
            r@ == self.spec_name(),
    {
        match self {
            RuleKind::Halloween => "Halloween",
            RuleKind::ChristmasAdvent => "Christmas Advent",
            RuleKind::ChristmasHoliday => "Christmas Holliday",
            RuleKind::Always => "Default",
        }
    }

    /// The template this rule selects for `date`.
    pub fn choice(self, date: Date) -> (c: TemplateChoice)
        requires
            date.valid(),
        ensures
            c == rule_choice(self, date),
    {
        match self {
            RuleKind::Halloween => TemplateChoice::Halloween,
            RuleKind::ChristmasAdvent => TemplateChoice::Advent(date.day - 1),
            RuleKind::ChristmasHoliday => TemplateChoice::Christmas,
            RuleKind::Always => TemplateChoice::Standard,
        }
    }
}

/// The index of the first rule of `rules` whose predicate holds of `date`.
pub open spec fn first_match(rules: Seq<RuleKind>, date: Date) -> Option<int>
    decreases rules.len(),
{
    if rules.len() == 0 {
        None
    } else if rule_matches(rules[0], date) {
        Some(0)
    } else {
        match first_match(rules.drop_first(), date) {
            Some(i) => Some(i + 1),
            None => None,
        }
    }
}

/// What evaluating a rule list yields: the first matching rule, or — against
/// a broken list that matches nothing — the default rule.
pub open spec fn evaluated(rules: Seq<RuleKind>, date: Date) -> RuleKind {
    match first_match(rules, date) {
        Some(i) => rules[i],
        None => RuleKind::Always,
    }
}

/// The first match is a match, nothing before it matches, and a `None` means
/// nothing matches at all.
pub proof fn lemma_first_match_is_first(rules: Seq<RuleKind>, date: Date)
    ensures
        match first_match(rules, date) {
            Some(i) => 0 <= i < rules.len() && rule_matches(rules[i], date) && forall|j: int|
                0 <= j < i ==> !rule_matches(rules[j], date),
            None => forall|j: int| 0 <= j < rules.len() ==> !rule_matches(rules[j], date),
        },
    decreases rules.len(),
{
    if rules.len() > 0 && !rule_matches(rules[0], date) {
        let rest = rules.drop_first();
        lemma_first_match_is_first(rest, date);
        match first_match(rest, date) {
            Some(i0) => {
                assert(first_match(rules, date) == Some(i0 + 1));
                assert(rule_matches(rest[i0], date));
                assert forall|j: int| 0 <= j < i0 + 1 implies !rule_matches(rules[j], date) by {
                    if j > 0 {
                        assert(rules[j] == rest[j - 1]);
                    }
                }
            },
            None => {
                assert forall|j: int| 0 <= j < rules.len() implies !rule_matches(
                    rules[j],
                    date,
                ) by {
                    if j > 0 {
                        assert(rules[j] == rest[j - 1]);
                    }
                }
            },
        }
    }
}

/// An index that matches, with nothing matching before it, is the first
/// match.
pub proof fn lemma_first_match_unique(rules: Seq<RuleKind>, date: Date, i: int)
    requires
        0 <= i < rules.len(),
        rule_matches(rules[i], date),
        forall|j: int| 0 <= j < i ==> !rule_matches(rules[j], date),
    ensures
        first_match(rules, date) == Some(i),
    decreases rules.len(),
{
    if i > 0 {
        lemma_first_match_unique(rules.drop_first(), date, i - 1);
    }
}

/// An ordered seasonal rule list, evaluated first-match-wins.
pub struct RuleSet {
    rules: Vec<RuleKind>,
}

/// The standard rule order: Halloween, Christmas advent, Christmas holiday,
/// default.
pub open spec fn standard_rules() -> Seq<RuleKind> {
    seq![RuleKind::Halloween, RuleKind::ChristmasAdvent, RuleKind::ChristmasHoliday, RuleKind::Always]
}

impl RuleSet {
    pub closed spec fn rules_seq(&self) -> Seq<RuleKind> {
        self.rules@
    }

    /// Whether the list is total: it ends with the unconditional rule.
    pub open spec fn total_rules(&self) -> bool {
        self.rules_seq().len() > 0 && self.rules_seq().last() == RuleKind::Always
    }

    /// A rule list in the given order. The list is total only if its final
    /// rule is unconditional, as [`RuleSet::standard`] guarantees; evaluation
    /// of a list without that property falls back to the default rule.
    pub fn new(rules: Vec<RuleKind>) -> (r: RuleSet)
        ensures
            r.rules_seq() == rules@,
    {
        RuleSet { rules }
    }

    /// The standard rule list.
    pub fn standard() -> (r: RuleSet)
        ensures
            r.rules_seq() == standard_rules(),
            r.total_rules(),
    {
        let mut rules: Vec<RuleKind> = Vec::new();
        rules.push(RuleKind::Halloween);
        rules.push(RuleKind::ChristmasAdvent);
        rules.push(RuleKind::ChristmasHoliday);
        rules.push(RuleKind::Always);
        proof {
            assert(rules@ =~= standard_rules());
        }
        RuleSet { rules }
    }

    pub fn len(&self) -> (n: usize)
        ensures
            n == self.rules_seq().len(),
    {
        self.rules.len()
    }

    /// The rule at an index.
    pub fn rule_at(&self, i: usize) -> (k: RuleKind)
        requires
            i < self.rules_seq().len(),
        ensures
            k == self.rules_seq()[i as int],
    {
        self.rules[i]
    }

    /// The index of the first rule matching `date`, if any; on a total list
    /// there always is one.
    pub fn select(&self, date: Date) -> (r: Option<usize>)
        ensures
            match r {
                Some(i) => first_match(self.rules_seq(), date) == Some(i as int),
                None => first_match(self.rules_seq(), date) is None,
            },
            self.total_rules() ==> r is Some,
    {
        let n = self.rules.len();
        let mut i: usize = 0;
        while i < n
            invariant
                i <= n,
                n == self.rules_seq().len(),
                forall|j: int| 0 <= j < i ==> !rule_matches(self.rules_seq()[j], date),
            decreases n - i,
        {
            if self.rules[i].matches(date) {
                proof {
                    lemma_first_match_unique(self.rules_seq(), date, i as int);
                }
                return Some(i);
            }
            i = i + 1;
        }
        proof {
            lemma_first_match_is_first(self.rules_seq(), date);
            if self.total_rules() {
                assert(rule_matches(self.rules_seq().last(), date));
            }
        }
        None
    }

    /// First-match evaluation; substitutes the default rule if, against a
    /// broken rule list, nothing matched.
    pub fn evaluate(&self, date: Date) -> (k: RuleKind)
        ensures
            k == evaluated(self.rules_seq(), date),
    {
        proof {
            lemma_first_match_is_first(self.rules_seq(), date);
        }
        match self.select(date) {
            Some(i) => self.rule_at(i),
            None => RuleKind::Always,
        }
    }
}

/// The season the standard rule list assigns to a date: the first of
/// Halloween, Christmas advent and Christmas holiday whose predicate holds,
/// or the default.
pub open spec fn season_of(date: Date) -> RuleKind {
    if rule_matches(RuleKind::Halloween, date) {
        RuleKind::Halloween
    } else if rule_matches(RuleKind::ChristmasAdvent, date) {
        RuleKind::ChristmasAdvent
    } else if rule_matches(RuleKind::ChristmasHoliday, date) {
        RuleKind::ChristmasHoliday
    } else {
        RuleKind::Always
    }
}

/// The template the standard rules pick for a date.
pub open spec fn season_choice(date: Date) -> TemplateChoice {
    rule_choice(season_of(date), date)
}

/// Law: the standard rule list is total. For every date — valid or not —
/// some rule matches, the first match is the season, and the fallback is
/// never the result of evaluation.
pub proof fn lemma_standard_total(date: Date)
    ensures
        first_match(standard_rules(), date) is Some,
        evaluated(standard_rules(), date) == season_of(date),
{
    reveal_with_fuel(first_match, 5);
    assert(standard_rules().drop_first() =~= seq![
        RuleKind::ChristmasAdvent,
        RuleKind::ChristmasHoliday,
        RuleKind::Always,
    ]);
    assert(standard_rules().drop_first().drop_first() =~= seq![
        RuleKind::ChristmasHoliday,
        RuleKind::Always,
    ]);
    assert(standard_rules().drop_first().drop_first().drop_first() =~= seq![RuleKind::Always]);
}

/// Law: for a valid date the selected template exists — an advent index is
/// always below 22.
pub proof fn lemma_season_choice_ok(date: Date)
    requires
        date.valid(),
    ensures
        choice_ok(season_choice(date)),
{
}

/// Law: the Halloween rule matches precisely October 19 to 31 and November 1
/// to 3, and no other dates; on exactly those dates the engine's season is
/// Halloween.
pub proof fn lemma_halloween_exact(date: Date)
    requires
        date.valid(),
    ensures
        rule_matches(RuleKind::Halloween, date) <==> ((date.month == 10 && 19 <= date.day <= 31)
            || (date.month == 11 && 1 <= date.day <= 3)),
        (season_of(date) == RuleKind::Halloween) <==> ((date.month == 10 && 19 <= date.day <= 31)
            || (date.month == 11 && 1 <= date.day <= 3)),
{
}

/// Law: on December days 1 to 22 the engine picks the advent variant indexed
/// by day minus one — day 1 selects variant index 0, day 22 selects variant
/// index 21.
pub proof fn lemma_advent_indexing(date: Date)
    requires
        date.valid(),
        date.month == 12,
        date.day <= 22,
    ensures
        season_of(date) == RuleKind::ChristmasAdvent,
        season_choice(date) == TemplateChoice::Advent((date.day - 1) as u8),
{
}

/// The season's rule for a date, by the standard rule list.
pub fn season_for(date: Date) -> (k: RuleKind)
    ensures
        k == season_of(date),
{
    let rules = RuleSet::standard();
    proof {
        lemma_standard_total(date);
    }
    rules.evaluate(date)
}

/// The display name of the season a date falls in.
pub fn seasonal_name_for(date: Date) -> (r: &'static str)
    ensures
        r@ == season_of(date).spec_name(),
{
    season_for(date).name()
}

/// The display name of the current season.
pub fn seasonal_name() -> (r: &'static str)
    ensures
        exists|date: Date| date.valid() && r@ == season_of(date).spec_name(),
{
    let date = current_date();
    let r = seasonal_name_for(date);
    proof {
        assert(date.valid() && r@ == season_of(date).spec_name());
    }
    r
}

/// The header template the season of a date selects, as a fresh raster.
pub fn seasonal_total_for(assets: &Assets, date: Date) -> (r: Raster)
    requires
        date.valid(),
    ensures
        px_of(r) == px_of(assets.template_of(season_choice(date))),
        width_of(r) == width_of(assets.template_of(season_choice(date))),
        height_of(r) == height_of(assets.template_of(season_choice(date))),
        crate::assets::template_ok(assets.template_of(season_choice(date)), assets.glyph_set().gh()),
{
    let rules = RuleSet::standard();
    proof {
        lemma_standard_total(date);
        lemma_season_choice_ok(date);
    }
    let c = rules.evaluate(date).choice(date);
    clone_raster(assets.template(c))
}

/// The header template of the current season, as a fresh raster.
pub fn seasonal_count_total(assets: &Assets) -> (r: Raster)
    ensures
        exists|date: Date|
            date.valid() && px_of(r) == px_of(assets.template_of(season_choice(date))),
{
    let date = current_date();
    let r = seasonal_total_for(assets, date);
    proof {
        assert(date.valid() && px_of(r) == px_of(assets.template_of(season_choice(date))));
    }
    r
}

} // verus!
