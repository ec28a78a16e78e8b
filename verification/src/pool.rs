//! The mod pool: what modifiers a Base can have, and at what tiers.
//!
//! A **Mod Group** is never identified by its affix name, which is per tier. Its handle is the
//! group's rendered line with every rolled value replaced by `#`, which is stable across tiers. The
//! pool's invariant is that no two groups claim the same rendered line, so a parsed line belongs to
//! at most one group.

use vstd::prelude::*;

use crate::search::{
    first_where, index_of_first, lemma_first_where, lemma_first_where_is, lemma_first_where_none,
};
use crate::text::{debug_quoted, debug_quoted_string};

verus! {

// ── Small types ────────────────────────────────────────────────────────────────────────────────

/// Whether a mod occupies the Base's prefix slot or its suffix slot.
#[derive(Clone, Copy, Debug, PartialEq, Eq, Structural)]
pub enum Generation {
    /// A prefix.
    Prefix,
    /// A suffix.
    Suffix,
}

/// How the game names a generation in an Item Text annotation.
pub open spec fn annotation_word_spec(g: Generation) -> Seq<char> {
    match g {
        Generation::Prefix => "Prefix"@,
        Generation::Suffix => "Suffix"@,
    }
}

impl Generation {
    /// How the game names this in an Item Text annotation: `Prefix Modifier`.
    pub fn annotation_word(self) -> (w: &'static str)
        ensures
            w@ == annotation_word_spec(self),
    {
        match self {
            Generation::Prefix => "Prefix",
            Generation::Suffix => "Suffix",
        }
    }
}

/// The inclusive band one stat of one tier can roll in, in thousandths of the printed unit.
#[derive(Clone, Copy, Debug, PartialEq, Eq, Structural)]
pub struct Band {
    min: i64,
    max: i64,
}

impl Band {
    /// The lower bound, in thousandths.
    pub closed spec fn lo(self) -> i64 {
        self.min
    }

    /// The upper bound, in thousandths.
    pub closed spec fn hi(self) -> i64 {
        self.max
    }

    /// A band from its bounds, in thousandths.
    pub fn new(min: i64, max: i64) -> (b: Band)
        ensures
            b.lo() == min,
            b.hi() == max,
    {
        Band { min, max }
    }

    /// Does a rolled value fall inside this band? Inclusive at both ends.
    pub fn contains(&self, value: i64) -> (b: bool)
        ensures
            b == (self.lo() <= value && value <= self.hi()),
    {
        value >= self.min && value <= self.max
    }

    /// The band's lower bound, in thousandths.
    pub fn min(&self) -> (v: i64)
        ensures
            v == self.lo(),
    {
        self.min
    }

    /// The band's upper bound, in thousandths.
    pub fn max(&self) -> (v: i64)
        ensures
            v == self.hi(),
    {
        self.max
    }
}

/// The total spawn weight available in each slot from an item level upwards.
#[derive(Clone, Copy, Debug, PartialEq, Eq, Structural)]
pub struct PoolTotals {
    /// The lowest item level these totals apply from.
    pub ilvl: u32,
    /// Everything that can roll in the prefix slot, summed.
    pub prefix_weight: u32,
    /// Everything that can roll in the suffix slot, summed.
    pub suffix_weight: u32,
}

// ── Views ──────────────────────────────────────────────────────────────────────────────────────

/// What a tier is, as a value.
pub struct ModTierView {
    pub tier: u8,
    pub affix_name: Seq<char>,
    pub required_ilvl: u32,
    pub spawn_weight: Option<u32>,
    pub bands: Seq<Band>,
}

/// What a Mod Group is, as a value.
pub struct ModGroupView {
    pub id: Seq<char>,
    pub generation: Generation,
    pub match_strings: Seq<Seq<char>>,
    pub tiers: Seq<ModTierView>,
}

/// What a pool is, as a value.
pub struct PoolView {
    pub base_name: Seq<char>,
    pub item_class: Seq<char>,
    pub implicit_count: nat,
    pub groups: Seq<ModGroupView>,
    pub totals: Seq<PoolTotals>,
    pub magic_split: (u32, u32),
}

/// The characters of each string.
pub open spec fn strings_view(s: Seq<String>) -> Seq<Seq<char>> {
    s.map_values(|x: String| x@)
}

/// The view of each tier.
pub open spec fn tiers_view(s: Seq<ModTier>) -> Seq<ModTierView> {
    s.map_values(|t: ModTier| t@)
}

/// The view of each group.
pub open spec fn groups_view(s: Seq<ModGroup>) -> Seq<ModGroupView> {
    s.map_values(|g: ModGroup| g@)
}

/// Do these rolled values, in order, all fall inside these bands? A different count never matches.
pub open spec fn bands_accept(bands: Seq<Band>, values: Seq<i64>) -> bool {
    &&& values.len() == bands.len()
    &&& forall|i: int|
        0 <= i < values.len() ==> bands[i].lo() <= #[trigger] values[i] && values[i]
            <= bands[i].hi()
}

/// A copy of a list of strings.
pub fn clone_strings(v: &Vec<String>) -> (r: Vec<String>)
    ensures
        r@ == v@,
{
    let mut r: Vec<String> = Vec::new();
    let mut i: usize = 0;
    while i < v.len()
        invariant
            i <= v@.len(),
            r@ == v@.take(i as int),
        decreases v@.len() - i,
    {
        r.push(v[i].clone());
        i = i + 1;
        assert(r@ =~= v@.take(i as int));
    }
    assert(v@.take(v@.len() as int) =~= v@);
    r
}

// ── Tiers ──────────────────────────────────────────────────────────────────────────────────────

/// One tier of one Mod Group.
#[derive(Clone, Debug)]
pub struct ModTier {
    tier: u8,
    affix_name: String,
    required_ilvl: u32,
    spawn_weight: Option<u32>,
    bands: Vec<Band>,
}

impl View for ModTier {
    type V = ModTierView;

    closed spec fn view(&self) -> ModTierView {
        ModTierView {
            tier: self.tier,
            affix_name: self.affix_name@,
            required_ilvl: self.required_ilvl,
            spawn_weight: self.spawn_weight,
            bands: self.bands@,
        }
    }
}

impl ModTier {
    /// A tier: its number, its affix name, the item level it needs, its spawn weight when the data
    /// carries one, and its bands in the order the values appear in the rendered line.
    pub fn new(
        tier: u8,
        affix_name: String,
        required_ilvl: u32,
        spawn_weight: Option<u32>,
        bands: Vec<Band>,
    ) -> (t: ModTier)
        ensures
            t@ == (ModTierView {
                tier,
                affix_name: affix_name@,
                required_ilvl,
                spawn_weight,
                bands: bands@,
            }),
    {
        ModTier { tier, affix_name, required_ilvl, spawn_weight, bands }
    }

    /// The tier number: 1 is the best.
    pub fn tier(&self) -> (t: u8)
        ensures
            t == self@.tier,
    {
        self.tier
    }

    /// The name the game shows for *this tier* of the group — `Flaring`, `Annealed`.
    pub fn affix_name(&self) -> (s: &str)
        ensures
            s@ == self@.affix_name,
    {
        self.affix_name.as_str()
    }

    /// The lowest item level on which this tier can spawn.
    pub fn required_ilvl(&self) -> (l: u32)
        ensures
            l == self@.required_ilvl,
    {
        self.required_ilvl
    }

    /// How likely this tier is relative to everything else in its slot, when the data says.
    pub fn spawn_weight(&self) -> (w: Option<u32>)
        ensures
            w == self@.spawn_weight,
    {
        self.spawn_weight
    }

    /// The bands, in the order the values appear in the rendered line.
    pub fn bands(&self) -> (b: &[Band])
        ensures
            b@ == self@.bands,
    {
        self.bands.as_slice()
    }

    /// Do these rolled values, in order, all fall inside this tier's bands?
    ///
    /// A different count of values than bands is never a match.
    pub fn accepts(&self, values: &[i64]) -> (b: bool)
        ensures
            b == bands_accept(self@.bands, values@),
    {
        if values.len() != self.bands.len() {
            return false;
        }
        let mut i: usize = 0;
        while i < values.len()
            invariant
                i <= values@.len(),
                values@.len() == self.bands@.len(),
                forall|j: int|
                    0 <= j < i ==> self.bands@[j].lo() <= #[trigger] values@[j] && values@[j]
                        <= self.bands@[j].hi(),
            decreases values@.len() - i,
        {
            if !self.bands[i].contains(values[i]) {
                return false;
            }
            i = i + 1;
        }
        true
    }
}

// ── Groups ─────────────────────────────────────────────────────────────────────────────────────

/// A family of modifiers spanning every tier of it.
#[derive(Clone, Debug)]
pub struct ModGroup {
    id: String,
    generation: Generation,
    match_strings: Vec<String>,
    tiers: Vec<ModTier>,
}

impl View for ModGroup {
    type V = ModGroupView;

    closed spec fn view(&self) -> ModGroupView {
        ModGroupView {
            id: self.id@,
            generation: self.generation,
            match_strings: strings_view(self.match_strings@),
            tiers: tiers_view(self.tiers@),
        }
    }
}

/// The first tier of a group with this number.
pub open spec fn spec_tier(g: ModGroupView, tier: u8) -> Option<ModTierView> {
    match index_of_first(g.tiers, |t: ModTierView| t.tier == tier) {
        Some(i) => Some(g.tiers[i]),
        None => None,
    }
}

impl ModGroup {
    /// The group's stable identifier — `MinionAddedPhysicalDamage`. Not shown to the human.
    pub fn id(&self) -> (s: &str)
        ensures
            s@ == self@.id,
    {
        self.id.as_str()
    }

    /// Prefix or suffix.
    pub fn generation(&self) -> (g: Generation)
        ensures
            g == self@.generation,
    {
        self.generation
    }

    /// Every rendered line this group can produce, values replaced by `#`.
    pub fn match_strings(&self) -> (s: &[String])
        ensures
            strings_view(s@) == self@.match_strings,
    {
        self.match_strings.as_slice()
    }

    /// How many tiers the group has on this Base.
    pub fn tier_count(&self) -> (n: usize)
        ensures
            n == self@.tiers.len(),
    {
        self.tiers.len()
    }

    /// Every tier, best first.
    pub fn tiers(&self) -> (t: &[ModTier])
        ensures
            tiers_view(t@) == self@.tiers,
    {
        self.tiers.as_slice()
    }

    /// One tier by number: the first with that number.
    pub fn tier(&self, tier: u8) -> (r: Option<&ModTier>)
        ensures
            match r {
                Some(t) => spec_tier(self@, tier) == Some(t@),
                None => spec_tier(self@, tier) is None,
            },
    {
        let ghost tv = tiers_view(self.tiers@);
        let ghost p = |t: ModTierView| t.tier == tier;
        let ghost q = |i: int| p(tv[i]);
        let mut i: usize = 0;
        while i < self.tiers.len()
            invariant
                i <= self.tiers@.len(),
                tv == tiers_view(self.tiers@),
                q == (|i: int| p(tv[i])),
                p == (|t: ModTierView| t.tier == tier),
                forall|j: int| 0 <= j < i ==> !#[trigger] q(j),
            decreases self.tiers@.len() - i,
        {
            if self.tiers[i].tier == tier {
                proof {
                    lemma_first_where_is(tv.len() as int, q, i as int);
                }
                return Some(&self.tiers[i]);
            }
            assert(!q(i as int));
            i = i + 1;
        }
        proof {
            lemma_first_where_none(tv.len() as int, q);
        }
        None
    }
}

// ── The pool ───────────────────────────────────────────────────────────────────────────────────

/// One Mod Group as the tier data describes it, before it joins a pool.
pub struct GroupSpec {
    /// The group's identifier.
    pub group: String,
    /// Its rendered lines, values replaced by `#`.
    pub match_lines: Vec<String>,
    /// Its tiers, best first.
    pub tiers: Vec<ModTier>,
}

/// Why the mod pool could not be read.
#[derive(Clone, Debug, PartialEq, Eq)]
pub enum DataError {
    /// The data did not have the shape this crate expects.
    Malformed(String),
    /// Two Mod Groups claim the same rendered line, so a parsed mod would match both.
    AmbiguousMatchString {
        /// The rendered line both groups claim.
        match_string: String,
        /// The groups that claim it.
        groups: [String; 2],
    },
}

/// What a [`DataError`] says, in words.
pub open spec fn data_error_text(
    malformed: Option<Seq<char>>,
    match_string: Seq<char>,
    first: Seq<char>,
    second: Seq<char>,
) -> Seq<char> {
    match malformed {
        Some(detail) => "mod pool is malformed: "@ + detail,
        None => "mod pool is ambiguous: "@ + debug_quoted(first) + " and "@ + debug_quoted(second)
            + " both render as "@ + debug_quoted(match_string),
    }
}

impl DataError {
    /// The error in words, as the log and the window show it.
    pub fn text(&self) -> (s: String)
        ensures
            s@ == match self {
                DataError::Malformed(detail) => data_error_text(
                    Some(detail@),
                    Seq::empty(),
                    Seq::empty(),
                    Seq::empty(),
                ),
                DataError::AmbiguousMatchString { match_string, groups } => data_error_text(
                    None,
                    match_string@,
                    groups[0]@,
                    groups[1]@,
                ),
            },
    {
        match self {
            DataError::Malformed(detail) => {
                let mut s = String::from_str("mod pool is malformed: ");
                s.append(detail.as_str());
                s
            },
            DataError::AmbiguousMatchString { match_string, groups } => {
                let mut s = String::from_str("mod pool is ambiguous: ");
                s.append(debug_quoted_string(groups[0].as_str()).as_str());
                s.append(" and ");
                s.append(debug_quoted_string(groups[1].as_str()).as_str());
                s.append(" both render as ");
                s.append(debug_quoted_string(match_string.as_str()).as_str());
                s
            },
        }
    }
}

/// Every rendered line of every group, in order, with the index of the group that claims it.
pub open spec fn claims(groups: Seq<ModGroupView>) -> Seq<(Seq<char>, int)>
    decreases groups.len(),
{
    if groups.len() == 0 {
        Seq::empty()
    } else {
        let last = groups.len() - 1;
        claims(groups.drop_last()) + groups[last].match_strings.map_values(
            |m: Seq<char>| (m, last),
        )
    }
}

/// No rendered line is claimed twice.
pub open spec fn claims_distinct(c: Seq<(Seq<char>, int)>) -> bool {
    forall|i: int, j: int| 0 <= i < j < c.len() ==> #[trigger] c[i].0 != #[trigger] c[j].0
}

/// The first claim that repeats an earlier one.
pub open spec fn first_repeat(c: Seq<(Seq<char>, int)>) -> Option<int> {
    first_where(c.len() as int, |k: int| exists|j: int| 0 <= j < k && #[trigger] c[j].0 == c[k].0)
}

/// The earlier claim that the claim at `k` repeats.
pub open spec fn repeated(c: Seq<(Seq<char>, int)>, k: int) -> int {
    first_where(k, |j: int| c[j].0 == c[k].0)->0
}

/// Groups in the order the data lists them: the prefixes, then the suffixes.
pub open spec fn joined_groups(
    prefixes: Seq<ModGroupView>,
    suffixes: Seq<ModGroupView>,
) -> Seq<ModGroupView> {
    prefixes + suffixes
}

/// A group as a pool holds it.
pub open spec fn group_of_spec(g: GroupSpec, generation: Generation) -> ModGroupView {
    ModGroupView {
        id: g.group@,
        generation,
        match_strings: strings_view(g.match_lines@),
        tiers: tiers_view(g.tiers@),
    }
}

/// `out` is `input` sorted by item level, keeping rows of equal item level in their input order.
pub open spec fn stable_sorted_by_ilvl(out: Seq<PoolTotals>, input: Seq<PoolTotals>) -> bool {
    &&& forall|i: int, j: int|
        0 <= i < j < out.len() ==> (#[trigger] out[i]).ilvl <= (#[trigger] out[j]).ilvl
    &&& forall|l: u32| #[trigger] rows_at(out, l) == rows_at(input, l)
}

/// The rows for one item level, in order.
pub open spec fn rows_at(s: Seq<PoolTotals>, l: u32) -> Seq<PoolTotals> {
    s.filter(|r: PoolTotals| r.ilvl == l)
}

/// Sort the totals by item level, keeping equal item levels in their order: `slice::sort_by_key`,
/// which its documentation describes as a stable sort in non-decreasing key order.
#[verifier::external_body]
fn sort_totals(v: &mut Vec<PoolTotals>)
    ensures
        stable_sorted_by_ilvl(final(v)@, old(v)@),
{
    v.sort_by_key(|row| row.ilvl)
}

/// The Base being crafted, and what it can roll.
#[derive(Debug)]
pub struct ModPool {
    base_name: String,
    item_class: String,
    implicit_count: usize,
    groups: Vec<ModGroup>,
    by_match: Vec<(String, usize)>,
    pool_totals: Vec<PoolTotals>,
    magic_affix_split: (u32, u32),
}

impl View for ModPool {
    type V = PoolView;

    closed spec fn view(&self) -> PoolView {
        PoolView {
            base_name: self.base_name@,
            item_class: self.item_class@,
            implicit_count: self.implicit_count as nat,
            groups: groups_view(self.groups@),
            totals: self.pool_totals@,
            magic_split: self.magic_affix_split,
        }
    }
}

/// The group that renders as this line, if any. The pool's invariant makes it unique.
pub open spec fn spec_group(pool: PoolView, match_string: Seq<char>) -> Option<ModGroupView> {
    let c = claims(pool.groups);
    match index_of_first(c, |e: (Seq<char>, int)| e.0 == match_string) {
        Some(k) => Some(pool.groups[c[k].1]),
        None => None,
    }
}

/// The first group with this identifier.
pub open spec fn spec_group_by_id(pool: PoolView, id: Seq<char>) -> Option<ModGroupView> {
    match index_of_first(pool.groups, |g: ModGroupView| g.id == id) {
        Some(i) => Some(pool.groups[i]),
        None => None,
    }
}

/// The last totals row whose item level is at or below `ilvl`.
pub open spec fn spec_totals_at(pool: PoolView, ilvl: u32) -> Option<PoolTotals> {
    let t = pool.totals;
    match first_where(t.len() as int, |k: int| t[t.len() - 1 - k].ilvl <= ilvl) {
        Some(k) => Some(t[t.len() - 1 - k]),
        None => None,
    }
}

/// Move group specs onto the end of a group list, all of one generation.
fn append_groups(groups: &mut Vec<ModGroup>, specs: Vec<GroupSpec>, generation: Generation)
    ensures
        groups_view(final(groups)@) == groups_view(old(groups)@) + specs@.map_values(
            |g: GroupSpec| group_of_spec(g, generation),
        ),
{
    let ghost start = groups_view(groups@);
    let ghost all = specs@;
    let mut specs = specs;
    let _total = specs.len();
    let mut taken: usize = 0;
    while specs.len() > 0
        invariant
            taken + specs@.len() == all.len(),
            all.len() <= usize::MAX,
            specs@ == all.skip(taken as int),
            groups_view(groups@) == start + all.take(taken as int).map_values(
                |g: GroupSpec| group_of_spec(g, generation),
            ),
        decreases specs@.len(),
    {
        let g = specs.remove(0);
        assert(g == all[taken as int]);
        let group = ModGroup {
            id: g.group,
            generation,
            match_strings: g.match_lines,
            tiers: g.tiers,
        };
        let ghost before = groups@;
        groups.push(group);
        taken = taken + 1;
        assert(groups_view(groups@) =~= groups_view(before).push(group@));
        assert(all.take(taken as int).map_values(|g: GroupSpec| group_of_spec(g, generation))
            =~= all.take(taken - 1).map_values(|g: GroupSpec| group_of_spec(g, generation)).push(
            group_of_spec(all[taken - 1], generation),
        ));
        assert(groups_view(groups@) =~= start + all.take(taken as int).map_values(
            |g: GroupSpec| group_of_spec(g, generation),
        ));
        assert(specs@ =~= all.skip(taken as int));
    }
    assert(all.take(all.len() as int) =~= all);
}

/// The claims of a prefix of the groups are a prefix of the claims of all of them.
proof fn lemma_claims_take(g: Seq<ModGroupView>, a: int)
    requires
        0 <= a <= g.len(),
    ensures
        claims(g.take(a)).len() <= claims(g).len(),
        forall|k: int|
            0 <= k < claims(g.take(a)).len() ==> #[trigger] claims(g.take(a))[k] == claims(g)[k],
    decreases g.len(),
{
    if a == g.len() {
        assert(g.take(a) =~= g);
    } else {
        assert(g.take(a) =~= g.drop_last().take(a));
        lemma_claims_take(g.drop_last(), a);
    }
}

/// One more group adds its own lines, in order, claimed by it.
proof fn lemma_claims_step(g: Seq<ModGroupView>, a: int)
    requires
        0 <= a < g.len(),
    ensures
        claims(g.take(a + 1)) == claims(g.take(a)) + g[a].match_strings.map_values(
            |m: Seq<char>| (m, a),
        ),
{
    assert(g.take(a + 1).drop_last() =~= g.take(a));
}

/// Record which group claims each rendered line, refusing any line claimed twice.
fn claim_lines(groups: &Vec<ModGroup>) -> (r: Result<Vec<(String, usize)>, DataError>)
    ensures
        ({
            let gv = groups_view(groups@);
            let c = claims(gv);
            match first_repeat(c) {
                None => r matches Ok(by_match) && claims_distinct(c) && by_match@.len() == c.len()
                    && (forall|k: int|
                    0 <= k < by_match@.len() ==> (#[trigger] by_match@[k]).0@ == c[k].0
                        && by_match@[k].1 as int == c[k].1 && by_match@[k].1 < groups@.len()),
                Some(k) => r matches Err(DataError::AmbiguousMatchString { match_string, groups: g })
                    && match_string@ == c[k].0 && g[0]@ == gv[c[repeated(c, k)].1].id && g[1]@
                    == gv[c[k].1].id,
            }
        }),
{
    let ghost gv = groups_view(groups@);
    let ghost c = claims(gv);
    let ghost rep = |k: int| exists|j: int| 0 <= j < k && #[trigger] c[j].0 == c[k].0;
    let mut by_match: Vec<(String, usize)> = Vec::new();
    let mut gi: usize = 0;
    while gi < groups.len()
        invariant
            gi <= groups@.len(),
            gv == groups_view(groups@),
            c == claims(gv),
            rep == (|k: int| exists|j: int| 0 <= j < k && #[trigger] c[j].0 == c[k].0),
            by_match@.len() == claims(gv.take(gi as int)).len(),
            by_match@.len() <= c.len(),
            forall|k: int|
                0 <= k < by_match@.len() ==> (#[trigger] by_match@[k]).0@ == c[k].0
                    && by_match@[k].1 as int == c[k].1 && by_match@[k].1 < groups@.len(),
            forall|i: int, j: int|
                0 <= i < j < by_match@.len() ==> #[trigger] by_match@[i].0@
                    != #[trigger] by_match@[j].0@,
        decreases groups@.len() - gi,
    {
        let group = &groups[gi];
        proof {
            lemma_claims_step(gv, gi as int);
            lemma_claims_take(gv, gi + 1);
            assert(gv[gi as int] == group@);
        }
        let mut mi: usize = 0;
        while mi < group.match_strings.len()
            invariant
                gi < groups@.len(),
                group == groups@[gi as int],
                gv == groups_view(groups@),
                gv[gi as int] == group@,
                c == claims(gv),
                rep == (|k: int| exists|j: int| 0 <= j < k && #[trigger] c[j].0 == c[k].0),
                mi <= group.match_strings@.len(),
                claims(gv.take(gi + 1)) == claims(gv.take(gi as int)) + gv[gi as int].match_strings.map_values(
                    |m: Seq<char>| (m, gi as int),
                ),
                claims(gv.take(gi + 1)).len() <= c.len(),
                forall|k: int|
                    0 <= k < claims(gv.take(gi + 1)).len() ==> #[trigger] claims(gv.take(gi + 1))[k]
                        == c[k],
                by_match@.len() == claims(gv.take(gi as int)).len() + mi,
                forall|k: int|
                    0 <= k < by_match@.len() ==> (#[trigger] by_match@[k]).0@ == c[k].0
                        && by_match@[k].1 as int == c[k].1 && by_match@[k].1 < groups@.len(),
                forall|i: int, j: int|
                    0 <= i < j < by_match@.len() ==> #[trigger] by_match@[i].0@
                        != #[trigger] by_match@[j].0@,
            decreases group.match_strings@.len() - mi,
        {
            let ms = &group.match_strings[mi];
            let ghost k = by_match@.len() as int;
            proof {
                assert(k < claims(gv.take(gi + 1)).len());
                assert(claims(gv.take(gi + 1))[k] == c[k]);
                assert(c[k] == (ms@, gi as int));
            }
            let mut j: usize = 0;
            while j < by_match.len()
                invariant
                    j <= by_match@.len(),
                    k == by_match@.len(),
                    0 <= k < c.len(),
                    c[k] == (ms@, gi as int),
                    gi < groups@.len(),
                    group == groups@[gi as int],
                    gv[gi as int] == group@,
                    gv == groups_view(groups@),
                    c == claims(gv),
                    rep == (|k: int| exists|j: int| 0 <= j < k && #[trigger] c[j].0 == c[k].0),
                    forall|k: int|
                        0 <= k < by_match@.len() ==> (#[trigger] by_match@[k]).0@ == c[k].0
                            && by_match@[k].1 as int == c[k].1 && by_match@[k].1 < groups@.len(),
                    forall|i: int, j: int|
                        0 <= i < j < by_match@.len() ==> #[trigger] by_match@[i].0@
                            != #[trigger] by_match@[j].0@,
                    forall|i: int| 0 <= i < j ==> (#[trigger] by_match@[i]).0@ != ms@,
                decreases by_match@.len() - j,
            {
                if by_match[j].0 == *ms {
                    let earlier = by_match[j].1;
                    let e = DataError::AmbiguousMatchString {
                        match_string: ms.clone(),
                        groups: [groups[earlier].id.clone(), group.id.clone()],
                    };
                    proof {
                        assert(c[j as int].0 == c[k].0);
                        assert(rep(k));
                        assert forall|k2: int| 0 <= k2 < k implies !#[trigger] rep(k2) by {
                            if rep(k2) {
                                let j2 = choose|j2: int| 0 <= j2 < k2 && #[trigger] c[j2].0 == c[k2].0;
                                assert(by_match@[j2].0@ == by_match@[k2].0@);
                            }
                        }
                        lemma_first_where_is(c.len() as int, rep, k);
                        let q = |jj: int| c[jj].0 == c[k].0;
                        assert forall|jj: int| 0 <= jj < j implies !#[trigger] q(jj) by {
                            assert(by_match@[jj].0@ != ms@);
                        }
                        lemma_first_where_is(k, q, j as int);
                        assert(gv[c[j as int].1].id == groups@[earlier as int]@.id);
                        assert(gv[c[k].1].id == group.id@);
                        assert(repeated(c, k) == j);
                        let first = groups@[earlier as int].id;
                        let second = group.id;
                        assert(e matches DataError::AmbiguousMatchString { match_string, groups: g }
                            && match_string@ == ms@ && g[0]@ == first@ && g[1]@ == second@);
                    }
                    return Err(e);
                }
                j = j + 1;
            }
            let ghost before = by_match@;
            by_match.push((ms.clone(), gi));
            proof {
                assert forall|i: int, j2: int|
                    0 <= i < j2 < by_match@.len() implies #[trigger] by_match@[i].0@
                    != #[trigger] by_match@[j2].0@ by {
                    if j2 == k {
                        assert(by_match@[i] == before[i]);
                    }
                }
            }
            mi = mi + 1;
        }
        gi = gi + 1;
    }
    proof {
        assert(gv.take(gv.len() as int) =~= gv);
        assert forall|k: int| 0 <= k < c.len() implies !#[trigger] rep(k) by {
            if rep(k) {
                let j2 = choose|j2: int| 0 <= j2 < k && #[trigger] c[j2].0 == c[k].0;
                assert(by_match@[j2].0@ == by_match@[k].0@);
            }
        }
        lemma_first_where_none(c.len() as int, rep);
        assert forall|i: int, j2: int| 0 <= i < j2 < c.len() implies #[trigger] c[i].0
            != #[trigger] c[j2].0 by {
            assert(by_match@[i].0@ != by_match@[j2].0@);
        }
    }
    Ok(by_match)
}

/// What the odds of a Tier Threshold rest on: whole spawn weights, before any division.
///
/// The chance per Alteration is
/// `(two·weight/own + one·weight/both) / (one + two)`, where `one` and `two` weigh a magic item
/// getting one affix or two.
#[derive(Clone, Copy, Debug, PartialEq, Eq, Structural)]
pub struct OddsBasis {
    /// Summed spawn weight of every tier at or better than the threshold that can spawn here.
    pub weight: u32,
    /// Everything that can roll in the group's own slot, summed.
    pub own_weight: u32,
    /// Everything that can roll in either slot, summed.
    pub both_weight: u32,
    /// The relative weight of a magic item getting one affix.
    pub magic_one: u32,
    /// The relative weight of a magic item getting two affixes.
    pub magic_two: u32,
}

impl OddsBasis {
    /// Nothing at or better than the threshold can spawn at this item level at all.
    pub fn is_impossible(&self) -> (b: bool)
        ensures
            b == (self.weight == 0),
    {
        self.weight == 0
    }
}

/// Does a tier count towards a threshold on a jewel of this level?
pub open spec fn qualifies(t: ModTierView, tier_threshold: u8, ilvl: u32) -> bool {
    t.tier <= tier_threshold && t.required_ilvl <= ilvl
}

/// The summed spawn weight of the qualifying tiers, or `None` when one of them carries no weight.
pub open spec fn qualifying_weight(tiers: Seq<ModTierView>, tier_threshold: u8, ilvl: u32) -> Option<int>
    decreases tiers.len(),
{
    if tiers.len() == 0 {
        Some(0)
    } else {
        match qualifying_weight(tiers.drop_last(), tier_threshold, ilvl) {
            None => None,
            Some(w) => if qualifies(tiers.last(), tier_threshold, ilvl) {
                match tiers.last().spawn_weight {
                    Some(x) => Some(w + x),
                    None => None,
                }
            } else {
                Some(w)
            },
        }
    }
}

/// Every running total of the qualifying weights fits in a `u32`.
pub open spec fn running_weight_fits(tiers: Seq<ModTierView>, tier_threshold: u8, ilvl: u32) -> bool {
    forall|k: int|
        0 <= k <= tiers.len() ==> match #[trigger] qualifying_weight(
            tiers.take(k),
            tier_threshold,
            ilvl,
        ) {
            Some(w) => w <= u32::MAX,
            None => true,
        }
}

proof fn lemma_qualifying_weight_grows(tiers: Seq<ModTierView>, t1: u8, t2: u8, ilvl: u32)
    requires
        t1 <= t2,
        qualifying_weight(tiers, t1, ilvl) is Some,
        qualifying_weight(tiers, t2, ilvl) is Some,
    ensures
        0 <= qualifying_weight(tiers, t1, ilvl).unwrap() <= qualifying_weight(tiers, t2, ilvl).unwrap(),
    decreases tiers.len(),
{
    if tiers.len() > 0 {
        lemma_qualifying_weight_grows(tiers.drop_last(), t1, t2, ilvl);
    }
}

/// The weight of the group's own slot in a totals row.
pub open spec fn own_weight(g: ModGroupView, t: PoolTotals) -> u32 {
    match g.generation {
        Generation::Prefix => t.prefix_weight,
        Generation::Suffix => t.suffix_weight,
    }
}

/// The odds can be summed without leaving `u32`, as the figures are carried.
pub open spec fn odds_in_range(pool: PoolView, group_id: Seq<char>, tier_threshold: u8, ilvl: u32) -> bool {
    match (spec_group_by_id(pool, group_id), spec_totals_at(pool, ilvl)) {
        (Some(g), Some(t)) => t.prefix_weight + t.suffix_weight <= u32::MAX && ((own_weight(g, t)
            != 0 && t.prefix_weight + t.suffix_weight != 0) ==> running_weight_fits(
            g.tiers,
            tier_threshold,
            ilvl,
        )),
        _ => true,
    }
}

/// What a Tier Threshold costs on a jewel of this level.
pub open spec fn spec_odds(pool: PoolView, group_id: Seq<char>, tier_threshold: u8, ilvl: u32) -> Option<OddsBasis> {
    match (spec_group_by_id(pool, group_id), spec_totals_at(pool, ilvl)) {
        (Some(g), Some(t)) => {
            let own = own_weight(g, t);
            let both = t.prefix_weight + t.suffix_weight;
            if own == 0 || both == 0 {
                None
            } else {
                match qualifying_weight(g.tiers, tier_threshold, ilvl) {
                    Some(w) => Some(
                        OddsBasis {
                            weight: w as u32,
                            own_weight: own,
                            both_weight: both as u32,
                            magic_one: pool.magic_split.0,
                            magic_two: pool.magic_split.1,
                        },
                    ),
                    None => None,
                }
            }
        },
        _ => None,
    }
}

/// Loosening the Tier Threshold never lowers the odds: where both thresholds have odds at this
/// item level, the qualifying weight at the looser one is at least that at the stricter one, over the
/// same slot totals and magic-affix weights, so the chance per Alteration cannot fall.
pub proof fn law_loosening_never_lowers_the_odds(
    pool: PoolView,
    group_id: Seq<char>,
    strict: u8,
    loose: u8,
    ilvl: u32,
)
    requires
        strict <= loose,
        odds_in_range(pool, group_id, strict, ilvl),
        odds_in_range(pool, group_id, loose, ilvl),
        spec_odds(pool, group_id, strict, ilvl) is Some,
        spec_odds(pool, group_id, loose, ilvl) is Some,
    ensures
        ({
            let a = spec_odds(pool, group_id, strict, ilvl).unwrap();
            let b = spec_odds(pool, group_id, loose, ilvl).unwrap();
            &&& a.weight <= b.weight
            &&& a.own_weight == b.own_weight
            &&& a.both_weight == b.both_weight
            &&& a.magic_one == b.magic_one
            &&& a.magic_two == b.magic_two
        }),
{
    let g = spec_group_by_id(pool, group_id).unwrap();
    let tiers = g.tiers;
    assert(tiers.take(tiers.len() as int) =~= tiers);
    assert(qualifying_weight(tiers.take(tiers.len() as int), strict, ilvl) == qualifying_weight(
        tiers,
        strict,
        ilvl,
    ));
    assert(qualifying_weight(tiers.take(tiers.len() as int), loose, ilvl) == qualifying_weight(
        tiers,
        loose,
        ilvl,
    ));
    lemma_qualifying_weight_grows(tiers, strict, loose, ilvl);
}

proof fn lemma_qualifying_step(tiers: Seq<ModTierView>, k: int, tier_threshold: u8, ilvl: u32)
    requires
        0 <= k < tiers.len(),
    ensures
        qualifying_weight(tiers.take(k + 1), tier_threshold, ilvl) == match qualifying_weight(
            tiers.take(k),
            tier_threshold,
            ilvl,
        ) {
            None => None,
            Some(w) => if qualifies(tiers[k], tier_threshold, ilvl) {
                match tiers[k].spawn_weight {
                    Some(x) => Some(w + x),
                    None => None,
                }
            } else {
                Some(w)
            },
        },
{
    assert(tiers.take(k + 1).drop_last() =~= tiers.take(k));
}

/// Sum the qualifying weights of a group's tiers, stopping at the first that carries none.
fn sum_qualifying(tiers: &[ModTier], tier_threshold: u8, ilvl: u32) -> (r: Option<u32>)
    requires
        running_weight_fits(tiers_view(tiers@), tier_threshold, ilvl),
    ensures
        match qualifying_weight(tiers_view(tiers@), tier_threshold, ilvl) {
            Some(w) => r == Some(w as u32),
            None => r is None,
        },
{
    let ghost tv = tiers_view(tiers@);
    let mut weight: u32 = 0;
    let mut i: usize = 0;
    proof {
        assert(tv.take(0) =~= Seq::<ModTierView>::empty());
    }
    while i < tiers.len()
        invariant
            i <= tiers@.len(),
            tv == tiers_view(tiers@),
            running_weight_fits(tv, tier_threshold, ilvl),
            qualifying_weight(tv.take(i as int), tier_threshold, ilvl) == Some(weight as int),
        decreases tiers@.len() - i,
    {
        let t = &tiers[i];
        proof {
            lemma_qualifying_step(tv, i as int, tier_threshold, ilvl);
            assert(tv[i as int] == t@);
            assert(qualifying_weight(tv.take(i + 1), tier_threshold, ilvl) is Some ==> qualifying_weight(tv.take(i + 1), tier_threshold, ilvl)->0 <= u32::MAX);
        }
        if t.tier <= tier_threshold && t.required_ilvl <= ilvl {
            match t.spawn_weight {
                Some(x) => {
                    weight = weight + x;
                },
                None => {
                    proof {
                        lemma_qualifying_none(tv, i + 1, tier_threshold, ilvl);
                    }
                    return None;
                },
            }
        }
        i = i + 1;
    }
    proof {
        assert(tv.take(tv.len() as int) =~= tv);
    }
    Some(weight)
}

/// Once the sum is unknowable, it stays unknowable.
proof fn lemma_qualifying_none(tiers: Seq<ModTierView>, k: int, tier_threshold: u8, ilvl: u32)
    requires
        0 <= k <= tiers.len(),
        qualifying_weight(tiers.take(k), tier_threshold, ilvl) is None,
    ensures
        qualifying_weight(tiers, tier_threshold, ilvl) is None,
    decreases tiers.len() - k,
{
    if k < tiers.len() {
        lemma_qualifying_step(tiers, k, tier_threshold, ilvl);
        lemma_qualifying_none(tiers, k + 1, tier_threshold, ilvl);
    } else {
        assert(tiers.take(k) =~= tiers);
    }
}

impl ModPool {
    /// The pool's invariant: no rendered line is claimed twice, and every claim names a group.
    #[verifier::type_invariant]
    pub closed spec fn wf(self) -> bool {
        &&& claims_distinct(claims(groups_view(self.groups@)))
        &&& self.by_match@.len() == claims(groups_view(self.groups@)).len()
        &&& forall|k: int|
            0 <= k < self.by_match@.len() ==> (#[trigger] self.by_match@[k]).0@ == claims(
                groups_view(self.groups@),
            )[k].0 && self.by_match@[k].1 as int == claims(groups_view(self.groups@))[k].1
        &&& forall|k: int|
            0 <= k < self.by_match@.len() ==> (#[trigger] self.by_match@[k]).1 < self.groups@.len()
    }

    /// Build a pool from the tier data: the Base, its groups, the spawn-weight breakpoints and the
    /// one-affix versus two-affix weights for a magic item (each `1` when the data gives none).
    ///
    /// Fails when two groups claim the same rendered line, naming the line and both groups.
    pub fn from_parts(
        base_name: String,
        item_class: String,
        implicit_count: usize,
        prefixes: Vec<GroupSpec>,
        suffixes: Vec<GroupSpec>,
        pool_totals: Vec<PoolTotals>,
        magic_one: Option<u32>,
        magic_two: Option<u32>,
    ) -> (r: Result<ModPool, DataError>)
        ensures
            ({
                let groups = prefixes@.map_values(
                    |g: GroupSpec| group_of_spec(g, Generation::Prefix),
                ) + suffixes@.map_values(|g: GroupSpec| group_of_spec(g, Generation::Suffix));
                let c = claims(groups);
                match first_repeat(c) {
                    None => r matches Ok(pool) && pool.wf() && pool@.base_name == base_name@
                        && pool@.item_class == item_class@ && pool@.implicit_count
                        == implicit_count && pool@.groups == groups && stable_sorted_by_ilvl(
                        pool@.totals,
                        pool_totals@,
                    ) && pool@.magic_split == (
                        match magic_one {
                            Some(n) => n,
                            None => 1u32,
                        },
                        match magic_two {
                            Some(n) => n,
                            None => 1u32,
                        },
                    ),
                    Some(k) => r matches Err(DataError::AmbiguousMatchString { match_string, groups: g })
                        && match_string@ == c[k].0 && g[0]@ == groups[c[repeated(c, k)].1].id
                        && g[1]@ == groups[c[k].1].id,
                }
            }),
    {
        let mut groups: Vec<ModGroup> = Vec::new();
        append_groups(&mut groups, prefixes, Generation::Prefix);
        append_groups(&mut groups, suffixes, Generation::Suffix);
        let ghost gv = groups_view(groups@);
        let by_match = match claim_lines(&groups) {
            Ok(by_match) => by_match,
            Err(e) => {
                return Err(e);
            },
        };
        let mut pool_totals = pool_totals;
        sort_totals(&mut pool_totals);
        let one = match magic_one {
            Some(n) => n,
            None => 1,
        };
        let two = match magic_two {
            Some(n) => n,
            None => 1,
        };
        Ok(
            ModPool {
                base_name,
                item_class,
                implicit_count,
                groups,
                by_match,
                pool_totals,
                magic_affix_split: (one, two),
            },
        )
    }

    /// The Base's name as the game prints it inside an item's name — `Ghastly Eye Jewel`.
    pub fn base_name(&self) -> (s: &str)
        ensures
            s@ == self@.base_name,
    {
        self.base_name.as_str()
    }

    /// The Base's item class as the game prints it — `Abyss Jewels`.
    pub fn item_class(&self) -> (s: &str)
        ensures
            s@ == self@.item_class,
    {
        self.item_class.as_str()
    }

    /// How many implicit modifiers the Base has.
    pub fn implicit_count(&self) -> (n: usize)
        ensures
            n == self@.implicit_count,
    {
        self.implicit_count
    }

    /// Find the Mod Group that renders as this line, values replaced by `#`.
    pub fn group(&self, match_string: &str) -> (r: Option<&ModGroup>)
        ensures
            match r {
                Some(g) => spec_group(self@, match_string@) == Some(g@),
                None => spec_group(self@, match_string@) is None,
            },
    {
        proof {
            use_type_invariant(self);
        }
        let ghost c = claims(groups_view(self.groups@));
        let ghost p = |e: (Seq<char>, int)| e.0 == match_string@;
        let ghost q = |k: int| p(c[k]);
        let key = String::from_str(match_string);
        let mut k: usize = 0;
        while k < self.by_match.len()
            invariant
                k <= self.by_match@.len(),
                self.wf(),
                c == claims(groups_view(self.groups@)),
                key@ == match_string@,
                p == (|e: (Seq<char>, int)| e.0 == match_string@),
                q == (|k: int| p(c[k])),
                forall|j: int| 0 <= j < k ==> !#[trigger] q(j),
            decreases self.by_match@.len() - k,
        {
            if self.by_match[k].0 == key {
                let gi = self.by_match[k].1;
                proof {
                    lemma_first_where_is(c.len() as int, q, k as int);
                }
                return Some(&self.groups[gi]);
            }
            assert(!q(k as int));
            k = k + 1;
        }
        proof {
            lemma_first_where_none(c.len() as int, q);
        }
        None
    }

    /// Find a Mod Group by its identifier — the handle a Target Mod is stored as.
    pub fn group_by_id(&self, id: &str) -> (r: Option<&ModGroup>)
        ensures
            match r {
                Some(g) => spec_group_by_id(self@, id@) == Some(g@),
                None => spec_group_by_id(self@, id@) is None,
            },
    {
        let ghost gv = groups_view(self.groups@);
        let ghost p = |g: ModGroupView| g.id == id@;
        let ghost q = |i: int| p(gv[i]);
        let key = String::from_str(id);
        let mut i: usize = 0;
        while i < self.groups.len()
            invariant
                i <= self.groups@.len(),
                gv == groups_view(self.groups@),
                key@ == id@,
                p == (|g: ModGroupView| g.id == id@),
                q == (|i: int| p(gv[i])),
                forall|j: int| 0 <= j < i ==> !#[trigger] q(j),
            decreases self.groups@.len() - i,
        {
            if self.groups[i].id == key {
                proof {
                    lemma_first_where_is(gv.len() as int, q, i as int);
                }
                return Some(&self.groups[i]);
            }
            assert(!q(i as int));
            i = i + 1;
        }
        proof {
            lemma_first_where_none(gv.len() as int, q);
        }
        None
    }

    /// The spawn-weight totals in force at an item level: the last breakpoint at or below it.
    pub fn totals_at(&self, ilvl: u32) -> (r: Option<PoolTotals>)
        ensures
            r == spec_totals_at(self@, ilvl),
    {
        let ghost t = self.pool_totals@;
        let ghost q = |k: int| t[t.len() - 1 - k].ilvl <= ilvl;
        let n = self.pool_totals.len();
        let mut k: usize = 0;
        while k < n
            invariant
                k <= n,
                n == t.len(),
                t == self.pool_totals@,
                q == (|k: int| t[t.len() - 1 - k].ilvl <= ilvl),
                forall|j: int| 0 <= j < k ==> !#[trigger] q(j),
            decreases n - k,
        {
            let row = self.pool_totals[n - 1 - k];
            if row.ilvl <= ilvl {
                proof {
                    lemma_first_where_is(t.len() as int, q, k as int);
                }
                return Some(row);
            }
            assert(!q(k as int));
            k = k + 1;
        }
        proof {
            lemma_first_where_none(t.len() as int, q);
        }
        None
    }

    /// Can [`ModPool::odds`] be asked about this group, threshold and item level?
    ///
    /// False exactly when its sums would not fit in a `u32`.
    pub fn odds_fit(&self, group_id: &str, tier_threshold: u8, ilvl: u32) -> (b: bool)
        ensures
            b == odds_in_range(self@, group_id@, tier_threshold, ilvl),
    {
        let group = match self.group_by_id(group_id) {
            Some(g) => g,
            None => return true,
        };
        let totals = match self.totals_at(ilvl) {
            Some(t) => t,
            None => return true,
        };
        if totals.prefix_weight as u64 + totals.suffix_weight as u64 > 0xffff_ffff {
            return false;
        }
        let own = match group.generation {
            Generation::Prefix => totals.prefix_weight,
            Generation::Suffix => totals.suffix_weight,
        };
        if own == 0 || totals.prefix_weight + totals.suffix_weight == 0 {
            return true;
        }
        let tiers = group.tiers();
        let ghost tv = tiers_view(tiers@);
        let mut weight: u64 = 0;
        let mut i: usize = 0;
        proof {
            assert(tv.take(0) =~= Seq::<ModTierView>::empty());
        }
        while i < tiers.len()
            invariant
                i <= tiers@.len(),
                tv == tiers_view(tiers@),
                tv == group@.tiers,
                spec_group_by_id(self@, group_id@) == Some(group@),
                spec_totals_at(self@, ilvl) == Some(totals),
                own_weight(group@, totals) != 0,
                totals.prefix_weight + totals.suffix_weight != 0,
                totals.prefix_weight + totals.suffix_weight <= u32::MAX,
                qualifying_weight(tv.take(i as int), tier_threshold, ilvl) == Some(weight as int),
                weight <= u32::MAX,
                forall|k: int| 0 <= k <= i ==> match #[trigger] qualifying_weight(
                    tv.take(k),
                    tier_threshold,
                    ilvl,
                ) {
                    Some(w) => w <= u32::MAX,
                    None => true,
                },
            decreases tiers@.len() - i,
        {
            let t = &tiers[i];
            proof {
                lemma_qualifying_step(tv, i as int, tier_threshold, ilvl);
                assert(tv[i as int] == t@);
            }
            if t.tier <= tier_threshold && t.required_ilvl <= ilvl {
                match t.spawn_weight {
                    Some(x) => {
                        weight = weight + x as u64;
                        if weight > 0xffff_ffff {
                            proof {
                                assert(qualifying_weight(tv.take(i + 1), tier_threshold, ilvl) == Some(weight as int));
                                assert(!running_weight_fits(tv, tier_threshold, ilvl));
                            }
                            return false;
                        }
                    },
                    None => {
                        proof {
                            assert forall|k: int| 0 <= k <= tv.len() implies match #[trigger] qualifying_weight(
                                tv.take(k),
                                tier_threshold,
                                ilvl,
                            ) {
                                Some(w) => w <= u32::MAX,
                                None => true,
                            } by {
                                if k > i {
                                    lemma_qualifying_none(tv.take(k), i + 1, tier_threshold, ilvl);
                                    assert(tv.take(k).take(i + 1) =~= tv.take(i + 1));
                                }
                            }
                        }
                        return true;
                    },
                }
            }
            i = i + 1;
        }
        proof {
            assert(tv.take(tv.len() as int) =~= tv);
        }
        true
    }

    /// What it costs, per Alteration, to hit this group at this Tier Threshold on a jewel of this
    /// level: the weights the chance is computed from.
    ///
    /// Tiers needing a higher item level than the jewel's are left out, because they cannot spawn.
    /// `None` when the group is unknown, the item level is below every breakpoint, a slot total is
    /// zero, or a qualifying tier carries no weight.
    pub fn odds(&self, group_id: &str, tier_threshold: u8, ilvl: u32) -> (r: Option<OddsBasis>)
        requires
            odds_in_range(self@, group_id@, tier_threshold, ilvl),
        ensures
            r == spec_odds(self@, group_id@, tier_threshold, ilvl),
    {
        let group = match self.group_by_id(group_id) {
            Some(g) => g,
            None => return None,
        };
        let totals = match self.totals_at(ilvl) {
            Some(t) => t,
            None => return None,
        };
        let own = match group.generation {
            Generation::Prefix => totals.prefix_weight,
            Generation::Suffix => totals.suffix_weight,
        };
        let both = totals.prefix_weight + totals.suffix_weight;
        if own == 0 || both == 0 {
            return None;
        }
        let weight = match sum_qualifying(group.tiers(), tier_threshold, ilvl) {
            Some(w) => w,
            None => return None,
        };
        let (one, two) = self.magic_affix_split;
        Some(
            OddsBasis {
                weight,
                own_weight: own,
                both_weight: both,
                magic_one: one,
                magic_two: two,
            },
        )
    }

    /// Every group, prefixes then suffixes.
    ///
    /// No two of them claim the same rendered line, so a parsed line belongs to at most one group.
    pub fn groups(&self) -> (g: &[ModGroup])
        ensures
            groups_view(g@) == self@.groups,
            claims_distinct(claims(self@.groups)),
    {
        proof {
            use_type_invariant(self);
        }
        self.groups.as_slice()
    }
}

} // verus!
