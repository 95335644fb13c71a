//! Achievement ladders for the Overview snapshot: five permanent ladders,
//! each with five tiers plus a roast title below the first tier.

use vstd::prelude::*;
use crate::strings::{owned, push_all, push_char};
use crate::text::{str_display_width, width};

verus! {

/// One ladder: the roast title's catalog entry and five tiers, each a
/// threshold, the tier title's catalog entry and the threshold as displayed.
pub struct TierSet {
    pub roast: &'static str,
    pub tiers: [(u64, &'static str, &'static str); 5],
}

/// A ladder as ranked: the title's catalog entry, the displayed thresholds,
/// and the tier reached (0 to 4), or -1 below the first tier.
pub struct Achievement {
    pub title: &'static str,
    pub ladder: [&'static str; 5],
    pub current: i8,
}

/// The last position of `reached` that holds, or -1 when none does.
pub open spec fn highest_reached(reached: Seq<bool>) -> int
    decreases reached.len(),
{
    if reached.len() == 0 {
        -1
    } else if reached.last() {
        reached.len() - 1
    } else {
        highest_reached(reached.drop_last())
    }
}

/// The thresholds of a ladder, lowest tier first.
pub open spec fn thresholds(set: TierSet) -> Seq<u64> {
    set.tiers@.map_values(|t: (u64, &'static str, &'static str)| t.0)
}

/// Which tiers `value` reaches.
pub open spec fn reached_by(set: TierSet, value: u64) -> Seq<bool> {
    set.tiers@.map_values(|t: (u64, &'static str, &'static str)| value >= t.0)
}

/// The ranking of `set` for the tiers marked in `reached`: the highest one
/// reached, its title, or the roast title when none is.
pub open spec fn ranked(set: TierSet, reached: Seq<bool>, a: Achievement) -> bool {
    &&& a.current as int == highest_reached(reached)
    &&& a.title == if highest_reached(reached) < 0 { set.roast } else { set.tiers@[highest_reached(reached)].1 }
    &&& a.ladder@ == set.tiers@.map_values(|t: (u64, &'static str, &'static str)| t.2)
}

/// Ranks a ladder given which of its tiers are reached.
pub fn rank_when(set: &TierSet, reached: [bool; 5]) -> (r: Achievement)
    ensures
        ranked(*set, reached@, r),
{
    let mut current: i8 = -1;
    let mut i: usize = 0;
    assert(reached@.take(0) =~= Seq::<bool>::empty());
    while i < 5
        invariant
            i <= 5,
            reached@.len() == 5,
            current as int == highest_reached(reached@.take(i as int)),
            -1 <= current < i,
        decreases 5 - i,
    {
        assert(reached@.take(i as int + 1).drop_last() =~= reached@.take(i as int));
        if reached[i] {
            current = i as i8;
        }
        i = i + 1;
    }
    assert(reached@.take(5) =~= reached@);
    let title = if current < 0 { set.roast } else { set.tiers[current as usize].1 };
    let ladder = [set.tiers[0].2, set.tiers[1].2, set.tiers[2].2, set.tiers[3].2, set.tiers[4].2];
    assert(ladder@ =~= set.tiers@.map_values(|t: (u64, &'static str, &'static str)| t.2));
    Achievement { title, ladder, current }
}

/// Ranks a ladder for a count: a tier is reached when the count is at least
/// its threshold.
pub fn rank(set: &TierSet, value: u64) -> (r: Achievement)
    ensures
        ranked(*set, reached_by(*set, value), r),
{
    let reached = [
        value >= set.tiers[0].0,
        value >= set.tiers[1].0,
        value >= set.tiers[2].0,
        value >= set.tiers[3].0,
        value >= set.tiers[4].0,
    ];
    assert(reached@ =~= reached_by(*set, value));
    rank_when(set, reached)
}

/// A cache hit rate in tenths of a percent, as the Overview displays it.
#[derive(Debug, Clone, Copy, PartialEq, Eq, Structural)]
pub struct CacheRate {
    pub tenths: u64,
}

/// `cached` of `total` tokens in tenths of a percent, rounded half up; no
/// tokens give a zero rate.
pub open spec fn rate_tenths(cached: u64, total: u64) -> int {
    if total == 0 {
        0
    } else {
        (cached as int * 2000 + total as int) / (total as int * 2)
    }
}

impl CacheRate {
    /// The rate of `cached` out of `total` tokens; the cached tokens are
    /// counted among the total.
    pub fn from_tokens(cached: u64, total: u64) -> (r: Self)
        requires
            cached <= total,
        ensures
            r.tenths as int == rate_tenths(cached, total),
    {
        if total == 0 {
            return CacheRate { tenths: 0 };
        }
        let numerator: u128 = cached as u128 * 2000 + total as u128;
        let denominator: u128 = total as u128 * 2;
        let q = numerator / denominator;
        assert(q <= 1000) by (nonlinear_arith)
            requires
                cached <= total,
                total > 0,
                q == (cached as int * 2000 + total as int) / (total as int * 2),
        ;
        CacheRate { tenths: q as u64 }
    }

    /// The rate is at least `percent` percent, at the displayed precision.
    pub fn reaches(self, percent: u64) -> (r: bool)
        ensures
            r == (self.tenths as int >= percent as int * 10),
    {
        percent <= u64::MAX / 10 && self.tenths >= percent * 10
    }
}

/// The consecutive-days ladder.
pub open spec fn streak_tier_set() -> TierSet {
    TierSet {
        roast: "tui.ui.achievements.streak.roast",
        tiers: [
            (7, "tui.ui.achievements.streak.tier1", "7"),
            (15, "tui.ui.achievements.streak.tier2", "15"),
            (30, "tui.ui.achievements.streak.tier3", "30"),
            (90, "tui.ui.achievements.streak.tier4", "90"),
            (180, "tui.ui.achievements.streak.tier5", "180"),
        ],
    }
}

/// The streak ladder, built.
pub fn streak_tiers() -> (r: TierSet)
    ensures
        r == streak_tier_set(),
{
    TierSet {
        roast: "tui.ui.achievements.streak.roast",
        tiers: [
            (7, "tui.ui.achievements.streak.tier1", "7"),
            (15, "tui.ui.achievements.streak.tier2", "15"),
            (30, "tui.ui.achievements.streak.tier3", "30"),
            (90, "tui.ui.achievements.streak.tier4", "90"),
            (180, "tui.ui.achievements.streak.tier5", "180"),
        ],
    }
}

/// The total-tokens ladder.
pub open spec fn token_tier_set() -> TierSet {
    TierSet {
        roast: "tui.ui.achievements.tokens.roast",
        tiers: [
            (100_000_000, "tui.ui.achievements.tokens.tier1", "0.1B"),
            (1_000_000_000, "tui.ui.achievements.tokens.tier2", "1B"),
            (10_000_000_000, "tui.ui.achievements.tokens.tier3", "10B"),
            (100_000_000_000, "tui.ui.achievements.tokens.tier4", "100B"),
            (1_000_000_000_000, "tui.ui.achievements.tokens.tier5", "1T"),
        ],
    }
}

/// The token ladder, built.
pub fn token_tiers() -> (r: TierSet)
    ensures
        r == token_tier_set(),
{
    TierSet {
        roast: "tui.ui.achievements.tokens.roast",
        tiers: [
            (100_000_000, "tui.ui.achievements.tokens.tier1", "0.1B"),
            (1_000_000_000, "tui.ui.achievements.tokens.tier2", "1B"),
            (10_000_000_000, "tui.ui.achievements.tokens.tier3", "10B"),
            (100_000_000_000, "tui.ui.achievements.tokens.tier4", "100B"),
            (1_000_000_000_000, "tui.ui.achievements.tokens.tier5", "1T"),
        ],
    }
}

/// The cache-hit-rate ladder (thresholds in percent).
pub open spec fn cache_tier_set() -> TierSet {
    TierSet {
        roast: "tui.ui.achievements.cache.roast",
        tiers: [
            (50, "tui.ui.achievements.cache.tier1", "50%"),
            (80, "tui.ui.achievements.cache.tier2", "80%"),
            (90, "tui.ui.achievements.cache.tier3", "90%"),
            (95, "tui.ui.achievements.cache.tier4", "95%"),
            (99, "tui.ui.achievements.cache.tier5", "99%"),
        ],
    }
}

/// The cache ladder, built.
pub fn cache_tiers() -> (r: TierSet)
    ensures
        r == cache_tier_set(),
{
    TierSet {
        roast: "tui.ui.achievements.cache.roast",
        tiers: [
            (50, "tui.ui.achievements.cache.tier1", "50%"),
            (80, "tui.ui.achievements.cache.tier2", "80%"),
            (90, "tui.ui.achievements.cache.tier3", "90%"),
            (95, "tui.ui.achievements.cache.tier4", "95%"),
            (99, "tui.ui.achievements.cache.tier5", "99%"),
        ],
    }
}

/// The distinct-models ladder.
pub open spec fn model_tier_set() -> TierSet {
    TierSet {
        roast: "tui.ui.achievements.models.roast",
        tiers: [
            (10, "tui.ui.achievements.models.tier1", "10"),
            (20, "tui.ui.achievements.models.tier2", "20"),
            (30, "tui.ui.achievements.models.tier3", "30"),
            (100, "tui.ui.achievements.models.tier4", "100"),
            (200, "tui.ui.achievements.models.tier5", "200"),
        ],
    }
}

/// The model ladder, built.
pub fn model_tiers() -> (r: TierSet)
    ensures
        r == model_tier_set(),
{
    TierSet {
        roast: "tui.ui.achievements.models.roast",
        tiers: [
            (10, "tui.ui.achievements.models.tier1", "10"),
            (20, "tui.ui.achievements.models.tier2", "20"),
            (30, "tui.ui.achievements.models.tier3", "30"),
            (100, "tui.ui.achievements.models.tier4", "100"),
            (200, "tui.ui.achievements.models.tier5", "200"),
        ],
    }
}

/// The distinct-clients ladder.
pub open spec fn client_tier_set() -> TierSet {
    TierSet {
        roast: "tui.ui.achievements.clients.roast",
        tiers: [
            (1, "tui.ui.achievements.clients.tier1", "1"),
            (5, "tui.ui.achievements.clients.tier2", "5"),
            (10, "tui.ui.achievements.clients.tier3", "10"),
            (15, "tui.ui.achievements.clients.tier4", "15"),
            (20, "tui.ui.achievements.clients.tier5", "20"),
        ],
    }
}

/// The client ladder, built.
pub fn client_tiers() -> (r: TierSet)
    ensures
        r == client_tier_set(),
{
    TierSet {
        roast: "tui.ui.achievements.clients.roast",
        tiers: [
            (1, "tui.ui.achievements.clients.tier1", "1"),
            (5, "tui.ui.achievements.clients.tier2", "5"),
            (10, "tui.ui.achievements.clients.tier3", "10"),
            (15, "tui.ui.achievements.clients.tier4", "15"),
            (20, "tui.ui.achievements.clients.tier5", "20"),
        ],
    }
}

/// Ranks a ladder for a cache rate: a tier is reached when the displayed
/// rate is at least its threshold.
pub fn rank_cache(set: &TierSet, rate: CacheRate) -> (r: Achievement)
    ensures
        ranked(*set, set.tiers@.map_values(|t: (u64, &'static str, &'static str)| rate.tenths as int >= t.0 as int * 10), r),
{
    let reached = [
        rate.reaches(set.tiers[0].0),
        rate.reaches(set.tiers[1].0),
        rate.reaches(set.tiers[2].0),
        rate.reaches(set.tiers[3].0),
        rate.reaches(set.tiers[4].0),
    ];
    assert(reached@ =~= set.tiers@.map_values(|t: (u64, &'static str, &'static str)| rate.tenths as int >= t.0 as int * 10));
    rank_when(set, reached)
}

/// The five ladders of the Overview: streak, tokens, cache rate, models and
/// clients, in that order.
pub fn build(current_streak: u32, total_tokens: u64, cache_rate: CacheRate, models: usize, clients: usize) -> (r: Vec<Achievement>)
    ensures
        r@.len() == 5,
        ranked(streak_tier_set(), reached_by(streak_tier_set(), current_streak as u64), r@[0]),
        ranked(token_tier_set(), reached_by(token_tier_set(), total_tokens), r@[1]),
        ranked(cache_tier_set(), cache_tier_set().tiers@.map_values(|t: (u64, &'static str, &'static str)| cache_rate.tenths as int >= t.0 as int * 10), r@[2]),
        ranked(model_tier_set(), reached_by(model_tier_set(), models as u64), r@[3]),
        ranked(client_tier_set(), reached_by(client_tier_set(), clients as u64), r@[4]),
{
    vec![
        rank(&streak_tiers(), current_streak as u64),
        rank(&token_tiers(), total_tokens),
        rank_cache(&cache_tiers(), cache_rate),
        rank(&model_tiers(), models as u64),
        rank(&client_tiers(), clients as u64),
    ]
}

/// The titles' column is this many cells wide.
pub const TITLE_WIDTH: usize = 10;

/// How a tier of a ranked ladder is shown.
#[derive(Debug, Clone, Copy, PartialEq, Eq, Structural)]
pub enum TierMark {
    /// The tier reached: bracketed and highlighted.
    Current,
    /// A lower tier, passed on the way: in the success colour.
    Passed,
    /// A tier not reached, or any tier of a locked ladder: muted.
    Pending,
}

/// The mark of tier `index` when tier `current` is reached (-1: none).
pub open spec fn tier_mark(current: int, index: int) -> TierMark {
    if index == current {
        TierMark::Current
    } else if current >= 0 && index < current {
        TierMark::Passed
    } else {
        TierMark::Pending
    }
}

/// The marks of a ranked ladder's five tiers, lowest first.
pub fn ladder_marks(achievement: &Achievement) -> (r: [TierMark; 5])
    ensures
        forall|i: int| 0 <= i < 5 ==> #[trigger] r@[i] == tier_mark(achievement.current as int, i),
{
    let current = achievement.current;
    let mut marks = [TierMark::Pending; 5];
    let mut i: usize = 0;
    while i < 5
        invariant
            i <= 5,
            current == achievement.current,
            marks@.len() == 5,
            forall|j: int| 0 <= j < i ==> #[trigger] marks@[j] == tier_mark(current as int, j),
        decreases 5 - i,
    {
        let index = i as i8;
        let mark = if index == current {
            TierMark::Current
        } else if current >= 0 && index < current {
            TierMark::Passed
        } else {
            TierMark::Pending
        };
        marks[i] = mark;
        i = i + 1;
    }
    marks
}

/// The spaces after a title of display width `title_width`: enough to fill
/// the titles' column, and one more.
pub open spec fn title_gap(title_width: int) -> int {
    if title_width >= TITLE_WIDTH as int { 1 } else { TITLE_WIDTH as int - title_width + 1 }
}

/// The spaces between a (localised) title and its ladder.
pub fn title_padding(title: &str) -> (r: usize)
    ensures
        r as int == title_gap(str_display_width(title@) as int),
{
    let w = width(title);
    if w >= TITLE_WIDTH { 1 } else { TITLE_WIDTH - w + 1 }
}

/// A tier's text: the displayed threshold, bracketed when it is the tier
/// reached.
pub fn tier_text(display: &str, mark: TierMark) -> (r: String)
    ensures
        r@ == if mark == TierMark::Current { seq!['['] + display@ + seq![']'] } else { display@ },
{
    if mark == TierMark::Current {
        let mut s = owned("[");
        proof {
            reveal_strlit("[");
        }
        push_all(&mut s, display);
        push_char(&mut s, ']');
        s
    } else {
        owned(display)
    }
}

/// A locked ladder (no tier reached) highlights nothing; an unlocked one
/// marks exactly its reached tier as current and every lower tier as passed.
pub proof fn law_ladder_marks_follow_progress(current: i8, index: int)
    requires
        -1 <= current < 5,
        0 <= index < 5,
    ensures
        current < 0 ==> tier_mark(current as int, index) == TierMark::Pending,
        tier_mark(current as int, index) == TierMark::Current <==> index == current,
        tier_mark(current as int, index) == TierMark::Passed <==> index < current,
{
}

/// Reaching more tiers never lowers the highest one reached.
proof fn lemma_highest_reached_monotone(a: Seq<bool>, b: Seq<bool>)
    requires
        a.len() == b.len(),
        forall|i: int| 0 <= i < a.len() && #[trigger] a[i] ==> b[i],
    ensures
        highest_reached(a) <= highest_reached(b),
        -1 <= highest_reached(a) < a.len(),
        highest_reached(a) >= 0 ==> a[highest_reached(a)],
        forall|i: int| highest_reached(a) < i < a.len() ==> !#[trigger] a[i],
    decreases a.len(),
{
    if a.len() > 0 {
        let pa = a.drop_last();
        let pb = b.drop_last();
        assert forall|i: int| 0 <= i < pa.len() && #[trigger] pa[i] implies pb[i] by {
            assert(pa[i] == a[i] && pb[i] == b[i]);
        }
        lemma_highest_reached_monotone(pa, pb);
        assert(a[a.len() - 1] ==> b[b.len() - 1]);
        if !a.last() {
            assert forall|i: int| highest_reached(a) < i < a.len() implies !#[trigger] a[i] by {
                if i < a.len() - 1 {
                    assert(a[i] == pa[i]);
                }
            }
        }
    }
}

/// Ranking by a count is monotone: a larger count never ranks lower. The
/// tier reached is one whose threshold the count meets, and no later tier's
/// threshold is met.
pub proof fn law_rank_is_monotone(set: TierSet, smaller: u64, larger: u64)
    requires
        smaller <= larger,
    ensures
        highest_reached(reached_by(set, smaller)) <= highest_reached(reached_by(set, larger)),
        highest_reached(reached_by(set, larger)) >= 0 ==>
            larger >= set.tiers@[highest_reached(reached_by(set, larger))].0,
        forall|i: int| highest_reached(reached_by(set, larger)) < i < 5 ==> larger < #[trigger] set.tiers@[i].0,
{
    let a = reached_by(set, smaller);
    let b = reached_by(set, larger);
    assert forall|i: int| 0 <= i < a.len() && #[trigger] a[i] implies b[i] by {}
    lemma_highest_reached_monotone(a, b);
    lemma_highest_reached_monotone(b, b);
    assert forall|i: int| highest_reached(b) < i < 5 implies larger < #[trigger] set.tiers@[i].0 by {
        assert(!b[i]);
    }
}

/// `v` with `n` zeros appended: `v` times ten to the power `n`.
pub open spec fn shifted(v: int, n: nat) -> int
    decreases n,
{
    if n == 0 {
        v
    } else {
        shifted(v, (n - 1) as nat) * 10
    }
}

/// Reads the decimal text `s` (digits with at most one point) after the
/// digits already read as `whole`, with `fraction` digits of it after the
/// point (-1 before any point): the digits as one number, and how many of
/// them follow the point.
pub open spec fn read_decimal(s: Seq<char>, whole: int, fraction: int) -> (int, int)
    decreases s.len(),
{
    if s.len() == 0 {
        (whole, fraction)
    } else if s[0] == '.' {
        read_decimal(s.drop_first(), whole, 0)
    } else {
        read_decimal(
            s.drop_first(),
            whole * 10 + (s[0] as int - '0' as int),
            if fraction >= 0 { fraction + 1 } else { -1 },
        )
    }
}

/// The amount a decimal text shows in units of `10^-scale` of its unit.
pub open spec fn scaled_amount(s: Seq<char>, scale: nat) -> int {
    let (digits, fraction) = read_decimal(s, 0, -1);
    if fraction <= 0 {
        shifted(digits, scale)
    } else {
        shifted(digits, (scale - fraction) as nat)
    }
}

/// The count a threshold's display text stands for: a plain number, a
/// percentage ("50%"), or billions and trillions ("0.1B", "1T").
pub open spec fn displayed_amount(text: Seq<char>) -> int {
    if text.len() > 0 && text.last() == '%' {
        scaled_amount(text.drop_last(), 0)
    } else if text.len() > 0 && text.last() == 'B' {
        scaled_amount(text.drop_last(), 9)
    } else if text.len() > 0 && text.last() == 'T' {
        scaled_amount(text.drop_last(), 12)
    } else {
        scaled_amount(text, 0)
    }
}

/// `key` is the catalog entry of tier `n`: it ends in `tier` and that
/// number.
pub open spec fn names_tier(key: Seq<char>, n: int) -> bool {
    key.len() >= 5 && key.skip(key.len() - 5) == "tier"@.push((('0' as int) + n) as char)
}

/// A ladder reads as it ranks: each tier's threshold is the amount its
/// display text shows, the thresholds rise strictly from tier to tier, and
/// the title of the `i`-th tier is that tier's entry.
pub open spec fn ladder_reads_as_ranked(set: TierSet) -> bool {
    &&& forall|i: int| 0 <= i < 5 ==> displayed_amount((#[trigger] set.tiers@[i]).2@) == set.tiers@[i].0
    &&& forall|i: int, j: int| 0 <= i < j < 5 ==> #[trigger] set.tiers@[i].0 < #[trigger] set.tiers@[j].0
    &&& forall|i: int| 0 <= i < 5 ==> names_tier((#[trigger] set.tiers@[i]).1@, i + 1)
}

/// A ladder whose five tiers each show their threshold and rise strictly
/// reads as it ranks.
proof fn lemma_ladder_reads_as_ranked(set: TierSet)
    requires
        displayed_amount(set.tiers[0].2@) == set.tiers[0].0,
        displayed_amount(set.tiers[1].2@) == set.tiers[1].0,
        displayed_amount(set.tiers[2].2@) == set.tiers[2].0,
        displayed_amount(set.tiers[3].2@) == set.tiers[3].0,
        displayed_amount(set.tiers[4].2@) == set.tiers[4].0,
        set.tiers[0].0 < set.tiers[1].0 < set.tiers[2].0 < set.tiers[3].0 < set.tiers[4].0,
        names_tier(set.tiers[0].1@, 1),
        names_tier(set.tiers[1].1@, 2),
        names_tier(set.tiers[2].1@, 3),
        names_tier(set.tiers[3].1@, 4),
        names_tier(set.tiers[4].1@, 5),
    ensures
        ladder_reads_as_ranked(set),
{
    assert forall|i: int| 0 <= i < 5 implies displayed_amount((#[trigger] set.tiers@[i]).2@) == set.tiers@[i].0 by {
        assert(set.tiers@[i] == set.tiers[i]);
    }
    assert forall|i: int| 0 <= i < 5 implies names_tier((#[trigger] set.tiers@[i]).1@, i + 1) by {
        assert(set.tiers@[i] == set.tiers[i]);
    }
    assert forall|i: int, j: int| 0 <= i < j < 5 implies #[trigger] set.tiers@[i].0 < #[trigger] set.tiers@[j].0 by {
        assert(set.tiers@[i] == set.tiers[i] && set.tiers@[j] == set.tiers[j]);
    }
}

/// The streak ladder reads as it ranks.
proof fn lemma_streak_ladder_reads_as_ranked()
    ensures
        ladder_reads_as_ranked(streak_tier_set()),
{
    reveal_with_fuel(read_decimal, 5);
    reveal_with_fuel(shifted, 13);
    assert(displayed_amount("7"@) == 7) by {
        reveal_strlit("7");
    }
    assert(displayed_amount("15"@) == 15) by {
        reveal_strlit("15");
    }
    assert(displayed_amount("30"@) == 30) by {
        reveal_strlit("30");
    }
    assert(displayed_amount("90"@) == 90) by {
        reveal_strlit("90");
    }
    assert(displayed_amount("180"@) == 180) by {
        reveal_strlit("180");
    }
    assert(names_tier("tui.ui.achievements.streak.tier1"@, 1)) by {
        reveal_strlit("tui.ui.achievements.streak.tier1");
        reveal_strlit("tier");
        let k = "tui.ui.achievements.streak.tier1"@;
        assert(k.skip(k.len() - 5) =~= "tier"@.push((('0' as int) + 1) as char));
    }
    assert(names_tier("tui.ui.achievements.streak.tier2"@, 2)) by {
        reveal_strlit("tui.ui.achievements.streak.tier2");
        reveal_strlit("tier");
        let k = "tui.ui.achievements.streak.tier2"@;
        assert(k.skip(k.len() - 5) =~= "tier"@.push((('0' as int) + 2) as char));
    }
    assert(names_tier("tui.ui.achievements.streak.tier3"@, 3)) by {
        reveal_strlit("tui.ui.achievements.streak.tier3");
        reveal_strlit("tier");
        let k = "tui.ui.achievements.streak.tier3"@;
        assert(k.skip(k.len() - 5) =~= "tier"@.push((('0' as int) + 3) as char));
    }
    assert(names_tier("tui.ui.achievements.streak.tier4"@, 4)) by {
        reveal_strlit("tui.ui.achievements.streak.tier4");
        reveal_strlit("tier");
        let k = "tui.ui.achievements.streak.tier4"@;
        assert(k.skip(k.len() - 5) =~= "tier"@.push((('0' as int) + 4) as char));
    }
    assert(names_tier("tui.ui.achievements.streak.tier5"@, 5)) by {
        reveal_strlit("tui.ui.achievements.streak.tier5");
        reveal_strlit("tier");
        let k = "tui.ui.achievements.streak.tier5"@;
        assert(k.skip(k.len() - 5) =~= "tier"@.push((('0' as int) + 5) as char));
    }
    lemma_ladder_reads_as_ranked(streak_tier_set());
}

/// The token ladder reads as it ranks.
proof fn lemma_token_ladder_reads_as_ranked()
    ensures
        ladder_reads_as_ranked(token_tier_set()),
{
    reveal_with_fuel(read_decimal, 5);
    reveal_with_fuel(shifted, 13);
    assert(displayed_amount("0.1B"@) == 100000000) by {
        reveal_strlit("0.1B");
    }
    assert(displayed_amount("1B"@) == 1000000000) by {
        reveal_strlit("1B");
    }
    assert(displayed_amount("10B"@) == 10000000000) by {
        reveal_strlit("10B");
    }
    assert(displayed_amount("100B"@) == 100000000000) by {
        reveal_strlit("100B");
    }
    assert(displayed_amount("1T"@) == 1000000000000) by {
        reveal_strlit("1T");
    }
    assert(names_tier("tui.ui.achievements.tokens.tier1"@, 1)) by {
        reveal_strlit("tui.ui.achievements.tokens.tier1");
        reveal_strlit("tier");
        let k = "tui.ui.achievements.tokens.tier1"@;
        assert(k.skip(k.len() - 5) =~= "tier"@.push((('0' as int) + 1) as char));
    }
    assert(names_tier("tui.ui.achievements.tokens.tier2"@, 2)) by {
        reveal_strlit("tui.ui.achievements.tokens.tier2");
        reveal_strlit("tier");
        let k = "tui.ui.achievements.tokens.tier2"@;
        assert(k.skip(k.len() - 5) =~= "tier"@.push((('0' as int) + 2) as char));
    }
    assert(names_tier("tui.ui.achievements.tokens.tier3"@, 3)) by {
        reveal_strlit("tui.ui.achievements.tokens.tier3");
        reveal_strlit("tier");
        let k = "tui.ui.achievements.tokens.tier3"@;
        assert(k.skip(k.len() - 5) =~= "tier"@.push((('0' as int) + 3) as char));
    }
    assert(names_tier("tui.ui.achievements.tokens.tier4"@, 4)) by {
        reveal_strlit("tui.ui.achievements.tokens.tier4");
        reveal_strlit("tier");
        let k = "tui.ui.achievements.tokens.tier4"@;
        assert(k.skip(k.len() - 5) =~= "tier"@.push((('0' as int) + 4) as char));
    }
    assert(names_tier("tui.ui.achievements.tokens.tier5"@, 5)) by {
        reveal_strlit("tui.ui.achievements.tokens.tier5");
        reveal_strlit("tier");
        let k = "tui.ui.achievements.tokens.tier5"@;
        assert(k.skip(k.len() - 5) =~= "tier"@.push((('0' as int) + 5) as char));
    }
    lemma_ladder_reads_as_ranked(token_tier_set());
}

/// The cache ladder reads as it ranks.
proof fn lemma_cache_ladder_reads_as_ranked()
    ensures
        ladder_reads_as_ranked(cache_tier_set()),
{
    reveal_with_fuel(read_decimal, 5);
    reveal_with_fuel(shifted, 13);
    assert(displayed_amount("50%"@) == 50) by {
        reveal_strlit("50%");
    }
    assert(displayed_amount("80%"@) == 80) by {
        reveal_strlit("80%");
    }
    assert(displayed_amount("90%"@) == 90) by {
        reveal_strlit("90%");
    }
    assert(displayed_amount("95%"@) == 95) by {
        reveal_strlit("95%");
    }
    assert(displayed_amount("99%"@) == 99) by {
        reveal_strlit("99%");
    }
    assert(names_tier("tui.ui.achievements.cache.tier1"@, 1)) by {
        reveal_strlit("tui.ui.achievements.cache.tier1");
        reveal_strlit("tier");
        let k = "tui.ui.achievements.cache.tier1"@;
        assert(k.skip(k.len() - 5) =~= "tier"@.push((('0' as int) + 1) as char));
    }
    assert(names_tier("tui.ui.achievements.cache.tier2"@, 2)) by {
        reveal_strlit("tui.ui.achievements.cache.tier2");
        reveal_strlit("tier");
        let k = "tui.ui.achievements.cache.tier2"@;
        assert(k.skip(k.len() - 5) =~= "tier"@.push((('0' as int) + 2) as char));
    }
    assert(names_tier("tui.ui.achievements.cache.tier3"@, 3)) by {
        reveal_strlit("tui.ui.achievements.cache.tier3");
        reveal_strlit("tier");
        let k = "tui.ui.achievements.cache.tier3"@;
        assert(k.skip(k.len() - 5) =~= "tier"@.push((('0' as int) + 3) as char));
    }
    assert(names_tier("tui.ui.achievements.cache.tier4"@, 4)) by {
        reveal_strlit("tui.ui.achievements.cache.tier4");
        reveal_strlit("tier");
        let k = "tui.ui.achievements.cache.tier4"@;
        assert(k.skip(k.len() - 5) =~= "tier"@.push((('0' as int) + 4) as char));
    }
    assert(names_tier("tui.ui.achievements.cache.tier5"@, 5)) by {
        reveal_strlit("tui.ui.achievements.cache.tier5");
        reveal_strlit("tier");
        let k = "tui.ui.achievements.cache.tier5"@;
        assert(k.skip(k.len() - 5) =~= "tier"@.push((('0' as int) + 5) as char));
    }
    lemma_ladder_reads_as_ranked(cache_tier_set());
}

/// The model ladder reads as it ranks.
proof fn lemma_model_ladder_reads_as_ranked()
    ensures
        ladder_reads_as_ranked(model_tier_set()),
{
    reveal_with_fuel(read_decimal, 5);
    reveal_with_fuel(shifted, 13);
    assert(displayed_amount("10"@) == 10) by {
        reveal_strlit("10");
    }
    assert(displayed_amount("20"@) == 20) by {
        reveal_strlit("20");
    }
    assert(displayed_amount("30"@) == 30) by {
        reveal_strlit("30");
    }
    assert(displayed_amount("100"@) == 100) by {
        reveal_strlit("100");
    }
    assert(displayed_amount("200"@) == 200) by {
        reveal_strlit("200");
    }
    assert(names_tier("tui.ui.achievements.models.tier1"@, 1)) by {
        reveal_strlit("tui.ui.achievements.models.tier1");
        reveal_strlit("tier");
        let k = "tui.ui.achievements.models.tier1"@;
        assert(k.skip(k.len() - 5) =~= "tier"@.push((('0' as int) + 1) as char));
    }
    assert(names_tier("tui.ui.achievements.models.tier2"@, 2)) by {
        reveal_strlit("tui.ui.achievements.models.tier2");
        reveal_strlit("tier");
        let k = "tui.ui.achievements.models.tier2"@;
        assert(k.skip(k.len() - 5) =~= "tier"@.push((('0' as int) + 2) as char));
    }
    assert(names_tier("tui.ui.achievements.models.tier3"@, 3)) by {
        reveal_strlit("tui.ui.achievements.models.tier3");
        reveal_strlit("tier");
        let k = "tui.ui.achievements.models.tier3"@;
        assert(k.skip(k.len() - 5) =~= "tier"@.push((('0' as int) + 3) as char));
    }
    assert(names_tier("tui.ui.achievements.models.tier4"@, 4)) by {
        reveal_strlit("tui.ui.achievements.models.tier4");
        reveal_strlit("tier");
        let k = "tui.ui.achievements.models.tier4"@;
        assert(k.skip(k.len() - 5) =~= "tier"@.push((('0' as int) + 4) as char));
    }
    assert(names_tier("tui.ui.achievements.models.tier5"@, 5)) by {
        reveal_strlit("tui.ui.achievements.models.tier5");
        reveal_strlit("tier");
        let k = "tui.ui.achievements.models.tier5"@;
        assert(k.skip(k.len() - 5) =~= "tier"@.push((('0' as int) + 5) as char));
    }
    lemma_ladder_reads_as_ranked(model_tier_set());
}

/// The client ladder reads as it ranks.
proof fn lemma_client_ladder_reads_as_ranked()
    ensures
        ladder_reads_as_ranked(client_tier_set()),
{
    reveal_with_fuel(read_decimal, 5);
    reveal_with_fuel(shifted, 13);
    assert(displayed_amount("1"@) == 1) by {
        reveal_strlit("1");
    }
    assert(displayed_amount("5"@) == 5) by {
        reveal_strlit("5");
    }
    assert(displayed_amount("10"@) == 10) by {
        reveal_strlit("10");
    }
    assert(displayed_amount("15"@) == 15) by {
        reveal_strlit("15");
    }
    assert(displayed_amount("20"@) == 20) by {
        reveal_strlit("20");
    }
    assert(names_tier("tui.ui.achievements.clients.tier1"@, 1)) by {
        reveal_strlit("tui.ui.achievements.clients.tier1");
        reveal_strlit("tier");
        let k = "tui.ui.achievements.clients.tier1"@;
        assert(k.skip(k.len() - 5) =~= "tier"@.push((('0' as int) + 1) as char));
    }
    assert(names_tier("tui.ui.achievements.clients.tier2"@, 2)) by {
        reveal_strlit("tui.ui.achievements.clients.tier2");
        reveal_strlit("tier");
        let k = "tui.ui.achievements.clients.tier2"@;
        assert(k.skip(k.len() - 5) =~= "tier"@.push((('0' as int) + 2) as char));
    }
    assert(names_tier("tui.ui.achievements.clients.tier3"@, 3)) by {
        reveal_strlit("tui.ui.achievements.clients.tier3");
        reveal_strlit("tier");
        let k = "tui.ui.achievements.clients.tier3"@;
        assert(k.skip(k.len() - 5) =~= "tier"@.push((('0' as int) + 3) as char));
    }
    assert(names_tier("tui.ui.achievements.clients.tier4"@, 4)) by {
        reveal_strlit("tui.ui.achievements.clients.tier4");
        reveal_strlit("tier");
        let k = "tui.ui.achievements.clients.tier4"@;
        assert(k.skip(k.len() - 5) =~= "tier"@.push((('0' as int) + 4) as char));
    }
    assert(names_tier("tui.ui.achievements.clients.tier5"@, 5)) by {
        reveal_strlit("tui.ui.achievements.clients.tier5");
        reveal_strlit("tier");
        let k = "tui.ui.achievements.clients.tier5"@;
        assert(k.skip(k.len() - 5) =~= "tier"@.push((('0' as int) + 5) as char));
    }
    lemma_ladder_reads_as_ranked(client_tier_set());
}

/// Every ladder shown on the Overview ranks by the thresholds it displays:
/// 7, 15, 30, 90 and 180 days of streak; 0.1B, 1B, 10B, 100B and 1T
/// tokens; a cache rate of 50%, 80%, 90%, 95% and 99%; 10, 20, 30, 100 and
/// 200 models; 1, 5, 10, 15 and 20 clients. A count reaches a tier exactly
/// when it is at least the amount that tier displays.
pub proof fn law_ladders_rank_by_their_displayed_thresholds()
    ensures
        ladder_reads_as_ranked(streak_tier_set()),
        ladder_reads_as_ranked(token_tier_set()),
        ladder_reads_as_ranked(cache_tier_set()),
        ladder_reads_as_ranked(model_tier_set()),
        ladder_reads_as_ranked(client_tier_set()),
{
    lemma_streak_ladder_reads_as_ranked();
    lemma_token_ladder_reads_as_ranked();
    lemma_cache_ladder_reads_as_ranked();
    lemma_model_ladder_reads_as_ranked();
    lemma_client_ladder_reads_as_ranked();
}

} // verus!
