//! The hit test: what a Read establishes about the item under the Anchor.
//!
//! The tier is derived from the rolled numbers, never from the game's `(Tier: N)` annotation, which
//! is a client setting. The annotation is cross-checked and reported as a [`Diagnostic`]; it never
//! reaches a [`Verdict`].
//!
//! Ambiguity fails closed: values matching no tier, or more than one, are called a `Hit`, because the
//! safe direction is always to stop. Deciding to `Halt` is the roll cycle's business, not this
//! module's.

use vstd::prelude::*;

use crate::item::{spec_mod_of_group, Item, ItemView, ModView, ParsedMod};
use crate::number::{milli_text, push_milli};
use crate::pool::{
    bands_accept, spec_group_by_id, strings_view, tiers_view, ModPool, ModTier, ModTierView,
    PoolView,
};
use crate::text::{debug_quoted, debug_quoted_string, dec, push_dec};

verus! {

/// What a Read establishes about the item currently under the Anchor.
#[derive(Clone, Copy, Debug, PartialEq, Eq, Structural)]
pub enum Verdict {
    /// The Target Mod is present at or better than the Tier Threshold. Latch.
    Hit,
    /// The Target Mod is positively absent or out of tier. Only a fresh Miss permits a Roll.
    Miss,
    /// Nothing was established. Never permits a Roll; resolved by a Resync.
    Unknown,
}

/// What a [`Target`] is, as a value.
pub struct TargetView {
    pub group_id: Seq<char>,
    pub tier_threshold: u8,
}

/// The Mod Group being crafted for, and the worst tier that still counts as success.
#[derive(Clone, Debug, PartialEq, Eq)]
pub struct Target {
    group_id: String,
    tier_threshold: u8,
}

impl View for Target {
    type V = TargetView;

    closed spec fn view(&self) -> TargetView {
        TargetView { group_id: self.group_id@, tier_threshold: self.tier_threshold }
    }
}

impl Target {
    /// A Target Mod: a Mod Group's identifier and the worst acceptable tier.
    pub fn new(group_id: &str, tier_threshold: u8) -> (t: Target)
        ensures
            t@ == (TargetView { group_id: group_id@, tier_threshold }),
    {
        Target { group_id: String::from_str(group_id), tier_threshold }
    }

    /// The Mod Group being crafted for.
    pub fn group_id(&self) -> (s: &str)
        ensures
            s@ == self@.group_id,
    {
        self.group_id.as_str()
    }

    /// The worst tier that still counts as a Hit. Tier 1 is the best, so a Hit needs
    /// `derived <= tier_threshold`.
    pub fn tier_threshold(&self) -> (t: u8)
        ensures
            t == self@.tier_threshold,
    {
        self.tier_threshold
    }

    /// A copy of this target.
    pub fn duplicate(&self) -> (t: Target)
        ensures
            t@ == self@,
    {
        Target { group_id: self.group_id.clone(), tier_threshold: self.tier_threshold }
    }
}

/// What a [`Diagnostic`] is, as a value.
pub enum DiagnosticView {
    AnnotationDisagrees { line: Seq<char>, derived: u8, annotated: u8 },
    AnnotationAbsent { line: Seq<char> },
    NoTierMatched { line: Seq<char>, values: Seq<i64> },
    ManyTiersMatched { line: Seq<char>, tiers: Seq<u8> },
    UnrecognisedLine { line: Seq<char> },
    NotTheBase { found: Seq<char> },
    UnknownTarget { group_id: Seq<char> },
}

/// Something worth saying about a Read, beyond its Verdict. Some of these make the cycle `Halt`;
/// all of them are logged, so a wrong row in the tier data is discoverable.
#[derive(Clone, Debug, PartialEq, Eq)]
pub enum Diagnostic {
    /// The game's annotation names a different tier than the numbers imply: the tier data is wrong.
    AnnotationDisagrees {
        /// The mod line as rendered.
        line: String,
        /// The tier the rolled values imply, which is what the Verdict used.
        derived: u8,
        /// The tier the game claims.
        annotated: u8,
    },
    /// The Target Mod carried no annotation, or one that names no tier, so no cross-check was
    /// possible. Never a `Halt`.
    AnnotationAbsent {
        /// The mod line as rendered.
        line: String,
    },
    /// The rolled values fall inside no tier of the group. Fails closed to a `Hit`.
    NoTierMatched {
        /// The mod line as rendered.
        line: String,
        /// The values read from it, in thousandths.
        values: Vec<i64>,
    },
    /// The rolled values fall inside more than one tier. Fails closed to a `Hit`.
    ManyTiersMatched {
        /// The mod line as rendered.
        line: String,
        /// Every tier that accepted the values.
        tiers: Vec<u8>,
    },
    /// A line in the explicit-mod section the pool does not recognise.
    UnrecognisedLine {
        /// The line as rendered.
        line: String,
    },
    /// The item is not the Base the pool describes, so it cannot be assessed at all.
    NotTheBase {
        /// The name the game printed.
        found: String,
    },
    /// The Target Mod names a Mod Group this pool does not have. A configuration fault.
    UnknownTarget {
        /// The identifier that was asked for.
        group_id: String,
    },
}

impl View for Diagnostic {
    type V = DiagnosticView;

    open spec fn view(&self) -> DiagnosticView {
        match self {
            Diagnostic::AnnotationDisagrees { line, derived, annotated } =>
                DiagnosticView::AnnotationDisagrees {
                line: line@,
                derived: *derived,
                annotated: *annotated,
            },
            Diagnostic::AnnotationAbsent { line } => DiagnosticView::AnnotationAbsent {
                line: line@,
            },
            Diagnostic::NoTierMatched { line, values } => DiagnosticView::NoTierMatched {
                line: line@,
                values: values@,
            },
            Diagnostic::ManyTiersMatched { line, tiers } => DiagnosticView::ManyTiersMatched {
                line: line@,
                tiers: tiers@,
            },
            Diagnostic::UnrecognisedLine { line } => DiagnosticView::UnrecognisedLine {
                line: line@,
            },
            Diagnostic::NotTheBase { found } => DiagnosticView::NotTheBase { found: found@ },
            Diagnostic::UnknownTarget { group_id } => DiagnosticView::UnknownTarget {
                group_id: group_id@,
            },
        }
    }
}

/// Values in thousandths, printed the way the game prints them and separated by `, `.
pub open spec fn values_text(v: Seq<i64>) -> Seq<char>
    decreases v.len(),
{
    if v.len() == 0 {
        Seq::empty()
    } else if v.len() == 1 {
        milli_text(v[0] as int)
    } else {
        values_text(v.drop_last()) + ", "@ + milli_text(v.last() as int)
    }
}

/// Tier numbers separated by `, `.
pub open spec fn tiers_text(t: Seq<u8>) -> Seq<char>
    decreases t.len(),
{
    if t.len() == 0 {
        Seq::empty()
    } else if t.len() == 1 {
        dec(t[0] as nat)
    } else {
        tiers_text(t.drop_last()) + ", "@ + dec(t.last() as nat)
    }
}

/// What a diagnostic says, in words.
pub open spec fn diagnostic_text(d: DiagnosticView) -> Seq<char> {
    match d {
        DiagnosticView::AnnotationDisagrees { line, derived, annotated } => "the values of "@
            + debug_quoted(line) + " imply Tier "@ + dec(derived as nat) + " but the game says Tier "@
            + dec(annotated as nat) + ": the tier data is wrong."@,
        DiagnosticView::AnnotationAbsent { line } => "no annotation on "@ + debug_quoted(line)
            + " to cross-check against."@,
        DiagnosticView::NoTierMatched { line, values } => "no tier accepts "@ + debug_quoted(line)
            + " (values "@ + values_text(values) + ")."@,
        DiagnosticView::ManyTiersMatched { line, tiers } => "more than one tier accepts "@
            + debug_quoted(line) + " (Tiers "@ + tiers_text(tiers) + ")."@,
        DiagnosticView::UnrecognisedLine { line } => "the pool does not recognise "@
            + debug_quoted(line) + "."@,
        DiagnosticView::NotTheBase { found } => "the item is "@ + debug_quoted(found)
            + ", not the Base the pool describes."@,
        DiagnosticView::UnknownTarget { group_id } => "the pool has no Mod Group "@ + debug_quoted(
            group_id,
        ) + "."@,
    }
}

/// Does this diagnostic mean the app can no longer trust its tier data or its reading of the item?
pub open spec fn halting(d: DiagnosticView) -> bool {
    ||| d is AnnotationDisagrees
    ||| d is UnrecognisedLine
    ||| d is NotTheBase
    ||| d is UnknownTarget
}

impl Diagnostic {
    /// The diagnostic in words, as the log and the window show it.
    pub fn text(&self) -> (s: String)
        ensures
            s@ == diagnostic_text(self@),
    {
        match self {
            Diagnostic::AnnotationDisagrees { line, derived, annotated } => {
                let mut s = String::from_str("the values of ");
                s.append(debug_quoted_string(line.as_str()).as_str());
                s.append(" imply Tier ");
                push_dec(&mut s, *derived as u64);
                s.append(" but the game says Tier ");
                push_dec(&mut s, *annotated as u64);
                s.append(": the tier data is wrong.");
                s
            },
            Diagnostic::AnnotationAbsent { line } => {
                let mut s = String::from_str("no annotation on ");
                s.append(debug_quoted_string(line.as_str()).as_str());
                s.append(" to cross-check against.");
                s
            },
            Diagnostic::NoTierMatched { line, values } => {
                let mut s = String::from_str("no tier accepts ");
                s.append(debug_quoted_string(line.as_str()).as_str());
                s.append(" (values ");
                push_values(&mut s, values.as_slice());
                s.append(").");
                s
            },
            Diagnostic::ManyTiersMatched { line, tiers } => {
                let mut s = String::from_str("more than one tier accepts ");
                s.append(debug_quoted_string(line.as_str()).as_str());
                s.append(" (Tiers ");
                push_tiers(&mut s, tiers.as_slice());
                s.append(").");
                s
            },
            Diagnostic::UnrecognisedLine { line } => {
                let mut s = String::from_str("the pool does not recognise ");
                s.append(debug_quoted_string(line.as_str()).as_str());
                s.append(".");
                s
            },
            Diagnostic::NotTheBase { found } => {
                let mut s = String::from_str("the item is ");
                s.append(debug_quoted_string(found.as_str()).as_str());
                s.append(", not the Base the pool describes.");
                s
            },
            Diagnostic::UnknownTarget { group_id } => {
                let mut s = String::from_str("the pool has no Mod Group ");
                s.append(debug_quoted_string(group_id.as_str()).as_str());
                s.append(".");
                s
            },
        }
    }

    /// A copy of this diagnostic.
    pub fn duplicate(&self) -> (d: Diagnostic)
        ensures
            d@ == self@,
    {
        match self {
            Diagnostic::AnnotationDisagrees { line, derived, annotated } =>
                Diagnostic::AnnotationDisagrees {
                line: line.clone(),
                derived: *derived,
                annotated: *annotated,
            },
            Diagnostic::AnnotationAbsent { line } => Diagnostic::AnnotationAbsent {
                line: line.clone(),
            },
            Diagnostic::NoTierMatched { line, values } => Diagnostic::NoTierMatched {
                line: line.clone(),
                values: copy_values(values.as_slice()),
            },
            Diagnostic::ManyTiersMatched { line, tiers } => Diagnostic::ManyTiersMatched {
                line: line.clone(),
                tiers: copy_tiers(tiers.as_slice()),
            },
            Diagnostic::UnrecognisedLine { line } => Diagnostic::UnrecognisedLine {
                line: line.clone(),
            },
            Diagnostic::NotTheBase { found } => Diagnostic::NotTheBase { found: found.clone() },
            Diagnostic::UnknownTarget { group_id } => Diagnostic::UnknownTarget {
                group_id: group_id.clone(),
            },
        }
    }
}

fn copy_values(v: &[i64]) -> (r: Vec<i64>)
    ensures
        r@ == v@,
{
    let mut r: Vec<i64> = Vec::new();
    let mut i: usize = 0;
    while i < v.len()
        invariant
            i <= v@.len(),
            r@ == v@.take(i as int),
        decreases v@.len() - i,
    {
        r.push(v[i]);
        i = i + 1;
        assert(r@ =~= v@.take(i as int));
    }
    assert(v@.take(v@.len() as int) =~= v@);
    r
}

fn copy_tiers(v: &[u8]) -> (r: Vec<u8>)
    ensures
        r@ == v@,
{
    let mut r: Vec<u8> = Vec::new();
    let mut i: usize = 0;
    while i < v.len()
        invariant
            i <= v@.len(),
            r@ == v@.take(i as int),
        decreases v@.len() - i,
    {
        r.push(v[i]);
        i = i + 1;
        assert(r@ =~= v@.take(i as int));
    }
    assert(v@.take(v@.len() as int) =~= v@);
    r
}

fn push_values(s: &mut String, v: &[i64])
    ensures
        final(s)@ == old(s)@ + values_text(v@),
{
    let mut i: usize = 0;
    while i < v.len()
        invariant
            i <= v@.len(),
            s@ == old(s)@ + values_text(v@.take(i as int)),
        decreases v@.len() - i,
    {
        let ghost before = s@;
        if i > 0 {
            s.append(", ");
        }
        push_milli(s, v[i]);
        proof {
            let t = v@.take(i + 1);
            assert(t.drop_last() =~= v@.take(i as int));
            if i == 0 {
                assert(values_text(v@.take(0)) =~= Seq::<char>::empty());
            }
        }
        i = i + 1;
        assert(s@ =~= old(s)@ + values_text(v@.take(i as int)));
    }
    assert(v@.take(v@.len() as int) =~= v@);
}

fn push_tiers(s: &mut String, v: &[u8])
    ensures
        final(s)@ == old(s)@ + tiers_text(v@),
{
    let mut i: usize = 0;
    while i < v.len()
        invariant
            i <= v@.len(),
            s@ == old(s)@ + tiers_text(v@.take(i as int)),
        decreases v@.len() - i,
    {
        if i > 0 {
            s.append(", ");
        }
        push_dec(s, v[i] as u64);
        proof {
            let t = v@.take(i + 1);
            assert(t.drop_last() =~= v@.take(i as int));
            if i == 0 {
                assert(tiers_text(v@.take(0)) =~= Seq::<char>::empty());
            }
        }
        i = i + 1;
        assert(s@ =~= old(s)@ + tiers_text(v@.take(i as int)));
    }
    assert(v@.take(v@.len() as int) =~= v@);
}

/// What an [`Assessment`] is, as a value.
pub struct AssessmentView {
    pub verdict: Verdict,
    pub tier: Option<u8>,
    pub diagnostics: Seq<DiagnosticView>,
}

/// A Verdict, the tier behind it, and everything else worth reporting.
#[derive(Clone, Debug, PartialEq, Eq)]
pub struct Assessment {
    verdict: Verdict,
    tier: Option<u8>,
    diagnostics: Vec<Diagnostic>,
}

/// The view of each diagnostic.
pub open spec fn diagnostics_view(d: Seq<Diagnostic>) -> Seq<DiagnosticView> {
    d.map_values(|x: Diagnostic| x@)
}

/// Does anything here mean the app can no longer trust its own tier data?
pub open spec fn any_halting(d: Seq<DiagnosticView>) -> bool {
    exists|i: int| 0 <= i < d.len() && halting(#[trigger] d[i])
}

impl View for Assessment {
    type V = AssessmentView;

    closed spec fn view(&self) -> AssessmentView {
        AssessmentView {
            verdict: self.verdict,
            tier: self.tier,
            diagnostics: diagnostics_view(self.diagnostics@),
        }
    }
}

impl Assessment {
    /// The Verdict. This is what the roll cycle acts on.
    pub fn verdict(&self) -> (v: Verdict)
        ensures
            v == self@.verdict,
    {
        self.verdict
    }

    /// The tier derived from the rolled numbers, when the Target Mod was present and unambiguous.
    pub fn tier(&self) -> (t: Option<u8>)
        ensures
            t == self@.tier,
    {
        self.tier
    }

    /// What else was seen.
    pub fn diagnostics(&self) -> (d: &[Diagnostic])
        ensures
            diagnostics_view(d@) == self@.diagnostics,
    {
        self.diagnostics.as_slice()
    }

    /// Does anything here mean the app can no longer trust its own tier data? The roll cycle's
    /// wrong-item and Unknown-run halts are separate; this is only the half the hit test can see.
    pub fn halt_worthy(&self) -> (b: bool)
        ensures
            b == any_halting(self@.diagnostics),
    {
        let ghost dv = diagnostics_view(self.diagnostics@);
        let mut i: usize = 0;
        while i < self.diagnostics.len()
            invariant
                i <= self.diagnostics@.len(),
                dv == diagnostics_view(self.diagnostics@),
                forall|j: int| 0 <= j < i ==> !halting(#[trigger] dv[j]),
            decreases self.diagnostics@.len() - i,
        {
            let h = match &self.diagnostics[i] {
                Diagnostic::AnnotationDisagrees { .. } => true,
                Diagnostic::UnrecognisedLine { .. } => true,
                Diagnostic::NotTheBase { .. } => true,
                Diagnostic::UnknownTarget { .. } => true,
                _ => false,
            };
            if h {
                assert(halting(dv[i as int]));
                return true;
            }
            i = i + 1;
        }
        false
    }
}

/// The tier numbers of the tiers that accept these values, in order.
pub open spec fn matching_tiers(tiers: Seq<ModTierView>, values: Seq<i64>) -> Seq<u8>
    decreases tiers.len(),
{
    if tiers.len() == 0 {
        Seq::empty()
    } else {
        let prev = matching_tiers(tiers.drop_last(), values);
        if bands_accept(tiers.last().bands, values) {
            prev.push(tiers.last().tier)
        } else {
            prev
        }
    }
}

/// A mod's lines joined with newlines.
pub open spec fn joined(lines: Seq<Seq<char>>) -> Seq<char>
    decreases lines.len(),
{
    if lines.len() == 0 {
        Seq::empty()
    } else if lines.len() == 1 {
        lines[0]
    } else {
        joined(lines.drop_last()) + "\n"@ + lines.last()
    }
}

/// One `UnrecognisedLine` per unrecognised line.
pub open spec fn unrecognised_diagnostics(lines: Seq<Seq<char>>) -> Seq<DiagnosticView> {
    lines.map_values(|l: Seq<char>| DiagnosticView::UnrecognisedLine { line: l })
}

/// The assessment of the Target Mod once it is found, given the unrecognised-line diagnostics.
pub open spec fn assess_found(
    found: ModView,
    tiers: Seq<ModTierView>,
    target: TargetView,
    unrec: Seq<DiagnosticView>,
) -> AssessmentView {
    let line = joined(found.lines);
    let matching = matching_tiers(tiers, found.values);
    if matching.len() == 0 {
        AssessmentView {
            verdict: Verdict::Hit,
            tier: None,
            diagnostics: unrec.push(DiagnosticView::NoTierMatched { line, values: found.values }),
        }
    } else if matching.len() > 1 {
        AssessmentView {
            verdict: Verdict::Hit,
            tier: None,
            diagnostics: unrec.push(DiagnosticView::ManyTiersMatched { line, tiers: matching }),
        }
    } else {
        let derived = matching[0];
        let diagnostics = match found.annotation {
            Some(a) => match a.tier {
                Some(t) => if t != derived {
                    unrec.push(DiagnosticView::AnnotationDisagrees { line, derived, annotated: t })
                } else {
                    unrec
                },
                None => unrec.push(DiagnosticView::AnnotationAbsent { line }),
            },
            None => unrec.push(DiagnosticView::AnnotationAbsent { line }),
        };
        let verdict = if derived <= target.tier_threshold {
            Verdict::Hit
        } else if unrec.len() > 0 {
            Verdict::Unknown
        } else {
            Verdict::Miss
        };
        AssessmentView { verdict, tier: Some(derived), diagnostics }
    }
}

/// What a parsed item establishes about a Target Mod.
pub open spec fn spec_assess(item: ItemView, target: TargetView, pool: PoolView) -> AssessmentView {
    let unrec = unrecognised_diagnostics(item.unrecognised);
    if !item.base_matches_pool {
        AssessmentView {
            verdict: Verdict::Unknown,
            tier: None,
            diagnostics: unrec.push(DiagnosticView::NotTheBase { found: item.identity.base_name }),
        }
    } else {
        match spec_group_by_id(pool, target.group_id) {
            None => AssessmentView {
                verdict: Verdict::Unknown,
                tier: None,
                diagnostics: unrec.push(
                    DiagnosticView::UnknownTarget { group_id: target.group_id },
                ),
            },
            Some(group) => match spec_mod_of_group(item.mods, target.group_id) {
                None => AssessmentView {
                    verdict: if unrec.len() == 0 {
                        Verdict::Miss
                    } else {
                        Verdict::Unknown
                    },
                    tier: None,
                    diagnostics: unrec,
                },
                Some(found) => assess_found(found, group.tiers, target, unrec),
            },
        }
    }
}

fn matching_of(tiers: &[ModTier], values: &[i64]) -> (r: Vec<u8>)
    ensures
        r@ == matching_tiers(tiers_view(tiers@), values@),
{
    let ghost tv = tiers_view(tiers@);
    let mut r: Vec<u8> = Vec::new();
    let mut i: usize = 0;
    proof {
        assert(tv.take(0) =~= Seq::<ModTierView>::empty());
    }
    while i < tiers.len()
        invariant
            i <= tiers@.len(),
            tv == tiers_view(tiers@),
            r@ == matching_tiers(tv.take(i as int), values@),
        decreases tiers@.len() - i,
    {
        proof {
            assert(tv.take(i + 1).drop_last() =~= tv.take(i as int));
        }
        if tiers[i].accepts(values) {
            r.push(tiers[i].tier());
        }
        i = i + 1;
    }
    assert(tv.take(tiers@.len() as int) =~= tv);
    r
}

fn join_lines(lines: &[String]) -> (s: String)
    ensures
        s@ == joined(strings_view(lines@)),
{
    let ghost lv = strings_view(lines@);
    let mut s = String::new();
    let mut i: usize = 0;
    proof {
        assert(lv.take(0) =~= Seq::<Seq<char>>::empty());
    }
    while i < lines.len()
        invariant
            i <= lines@.len(),
            lv == strings_view(lines@),
            s@ == joined(lv.take(i as int)),
        decreases lines@.len() - i,
    {
        if i > 0 {
            s.append("\n");
        }
        s.append(lines[i].as_str());
        proof {
            assert(lv.take(i + 1).drop_last() =~= lv.take(i as int));
            if i == 0 {
                assert(joined(lv.take(0)) =~= Seq::<char>::empty());
                assert(s@ =~= joined(lv.take(1)));
            }
        }
        i = i + 1;
        assert(s@ =~= joined(lv.take(i as int)));
    }
    assert(lv.take(lines@.len() as int) =~= lv);
    s
}

fn unrecognised_of(lines: &[String]) -> (r: Vec<Diagnostic>)
    ensures
        diagnostics_view(r@) == unrecognised_diagnostics(strings_view(lines@)),
{
    let mut r: Vec<Diagnostic> = Vec::new();
    let mut i: usize = 0;
    while i < lines.len()
        invariant
            i <= lines@.len(),
            diagnostics_view(r@) == unrecognised_diagnostics(strings_view(lines@.take(i as int))),
        decreases lines@.len() - i,
    {
        let line = lines[i].clone();
        assert(line@ == lines@[i as int]@);
        let ghost before = diagnostics_view(r@);
        r.push(Diagnostic::UnrecognisedLine { line });
        assert(diagnostics_view(r@) =~= before.push(
            DiagnosticView::UnrecognisedLine { line: lines@[i as int]@ },
        ));
        assert(unrecognised_diagnostics(strings_view(lines@.take(i + 1))) =~= before.push(
            DiagnosticView::UnrecognisedLine { line: lines@[i as int]@ },
        ));
        i = i + 1;
    }
    assert(lines@.take(lines@.len() as int) =~= lines@);
    r
}

/// Assess a parsed item against a Target Mod.
pub fn assess(item: &Item, target: &Target, pool: &ModPool) -> (a: Assessment)
    ensures
        a@ == spec_assess(item@, target@, pool@),
{
    let mut diagnostics = unrecognised_of(item.unrecognised());
    let ghost unrec = diagnostics_view(diagnostics@);
    if !item.base_matches_pool() {
        diagnostics.push(
            Diagnostic::NotTheBase { found: String::from_str(item.identity().base_name()) },
        );
        assert(diagnostics_view(diagnostics@) =~= unrec.push(
            DiagnosticView::NotTheBase { found: item@.identity.base_name },
        ));
        return Assessment { verdict: Verdict::Unknown, tier: None, diagnostics };
    }
    let group = match pool.group_by_id(target.group_id()) {
        Some(g) => g,
        None => {
            diagnostics.push(
                Diagnostic::UnknownTarget { group_id: String::from_str(target.group_id()) },
            );
            assert(diagnostics_view(diagnostics@) =~= unrec.push(
                DiagnosticView::UnknownTarget { group_id: target@.group_id },
            ));
            return Assessment { verdict: Verdict::Unknown, tier: None, diagnostics };
        },
    };
    let found: &ParsedMod = match item.mod_of_group(target.group_id()) {
        Some(m) => m,
        None => {
            let verdict = if diagnostics.len() == 0 {
                Verdict::Miss
            } else {
                Verdict::Unknown
            };
            return Assessment { verdict, tier: None, diagnostics };
        },
    };
    let line = join_lines(found.lines());
    let matching = matching_of(group.tiers(), found.values());
    if matching.len() == 0 {
        diagnostics.push(
            Diagnostic::NoTierMatched { line, values: copy_values(found.values()) },
        );
        assert(diagnostics_view(diagnostics@) =~= unrec.push(
            DiagnosticView::NoTierMatched { line: line@, values: found@.values },
        ));
        return Assessment { verdict: Verdict::Hit, tier: None, diagnostics };
    }
    if matching.len() > 1 {
        let ghost m = matching@;
        diagnostics.push(Diagnostic::ManyTiersMatched { line, tiers: matching });
        assert(diagnostics_view(diagnostics@) =~= unrec.push(
            DiagnosticView::ManyTiersMatched { line: line@, tiers: m },
        ));
        return Assessment { verdict: Verdict::Hit, tier: None, diagnostics };
    }
    let derived = matching[0];
    let had_unrecognised = diagnostics.len() > 0;
    let annotated = match found.annotation() {
        Some(annotation) => annotation.tier(),
        None => None,
    };
    match annotated {
        Some(t) => {
            if t != derived {
                diagnostics.push(Diagnostic::AnnotationDisagrees { line, derived, annotated: t });
                assert(diagnostics_view(diagnostics@) =~= unrec.push(
                    DiagnosticView::AnnotationDisagrees { line: line@, derived, annotated: t },
                ));
            }
        },
        None => {
            diagnostics.push(Diagnostic::AnnotationAbsent { line });
            assert(diagnostics_view(diagnostics@) =~= unrec.push(
                DiagnosticView::AnnotationAbsent { line: line@ },
            ));
        },
    }
    let verdict = if derived <= target.tier_threshold() {
        Verdict::Hit
    } else if had_unrecognised {
        Verdict::Unknown
    } else {
        Verdict::Miss
    };
    Assessment { verdict, tier: Some(derived), diagnostics }
}

} // verus!
