//! The Item Text parser: clipboard text in, a structured item out.
//!
//! Only the explicit-mod section is ever consulted. It is found structurally, as the section after
//! the one holding `Item Level:`, never by the `Prefix Modifier` annotation, which is a client
//! setting. Mods are grouped by which Mod Group their lines belong to, never by the annotation, so
//! text with Advanced Mod Descriptions on and off reads the same apart from the annotation field.
//!
//! A line in the explicit-mod section that is neither an annotation, nor a parenthesised
//! description, nor a line the pool recognises is kept in [`Item::unrecognised`]: a mod line the
//! parser fails to recognise is exactly how a Hit would be misread as a Miss.
//!
//! The whole reading is stated as [`spec_parse`], over the text's characters and the pool's view.

use vstd::prelude::*;

use crate::number::{
    all_digits, digits_end, lemma_digits_end, magnitude, magnitude_milli, parse_u32,
    parse_u32_spec, parse_u8, parse_u8_spec, scan_digits, MILLI_CAP,
};
use crate::pool::{spec_group, strings_view, Generation, ModGroupView, ModPool, PoolView};
use crate::search::{first_where, lemma_first_where, lemma_first_where_is, lemma_first_where_none};
use crate::text::{
    chars_of, contains_sub, debug_quoted, debug_quoted_string, find_char, find_sub, has_prefix,
    is_alnum, is_ascii_alphanumeric, is_ascii_digit, is_digit, is_ws, pieces_view,
    position_of, position_of_sub, split_chars, split_on, starts_with, string_of, trim, trim_end,
    trim_end_vec, trim_vec,
};

verus! {

// ── Types ──────────────────────────────────────────────────────────────────────────────────────

/// Why an Item Text could not be read. Every variant means the app does not know what the item is.
#[derive(Clone, Debug, PartialEq, Eq)]
pub enum Unreadable {
    /// The text does not look like an item at all: no `Item Class:` line.
    NotItemText,
    /// No `Rarity:` line, or one naming a rarity this crate does not know.
    Rarity(String),
    /// No `Item Level:` line, or one whose number will not parse.
    ItemLevel(String),
    /// The item has no name line.
    NoName,
    /// The Base declares implicit modifiers, which would shift the section the parser reads.
    ImplicitsUnsupported {
        /// How many the pool says the Base has.
        count: usize,
    },
}

/// An item's rarity, which fixes how many mods it can carry.
#[derive(Clone, Copy, Debug, PartialEq, Eq, Structural)]
pub enum Rarity {
    /// No modifiers.
    Normal,
    /// Up to one prefix and one suffix. The only rarity a Craft Session works on.
    Magic,
    /// Up to two of each.
    Rare,
    /// Not craftable with alterations.
    Unique,
}

/// The game's own word for a rarity.
pub open spec fn rarity_word(r: Rarity) -> Seq<char> {
    match r {
        Rarity::Normal => "Normal"@,
        Rarity::Magic => "Magic"@,
        Rarity::Rare => "Rare"@,
        Rarity::Unique => "Unique"@,
    }
}

/// The rarity a word names, if it names one.
pub open spec fn rarity_of(w: Seq<char>) -> Option<Rarity> {
    if w == "Normal"@ {
        Some(Rarity::Normal)
    } else if w == "Magic"@ {
        Some(Rarity::Magic)
    } else if w == "Rare"@ {
        Some(Rarity::Rare)
    } else if w == "Unique"@ {
        Some(Rarity::Unique)
    } else {
        None
    }
}

impl Rarity {
    /// The game's own word, so a log line reads back as the text it came from.
    pub fn word(self) -> (w: &'static str)
        ensures
            w@ == rarity_word(self),
    {
        match self {
            Rarity::Normal => "Normal",
            Rarity::Magic => "Magic",
            Rarity::Rare => "Rare",
            Rarity::Unique => "Unique",
        }
    }
}

/// What an [`ItemIdentity`] is, as a value.
pub struct IdentityView {
    pub rarity: Rarity,
    pub item_class: Seq<char>,
    pub base_name: Seq<char>,
    pub item_level: u32,
}

/// What a Craft Session pins about the item in front of it, to catch a different item being read.
///
/// The level requirement is deliberately absent: it moves with whichever mods rolled.
#[derive(Clone, Debug, PartialEq, Eq)]
pub struct ItemIdentity {
    rarity: Rarity,
    item_class: String,
    base_name: String,
    item_level: u32,
}

impl View for ItemIdentity {
    type V = IdentityView;

    closed spec fn view(&self) -> IdentityView {
        IdentityView {
            rarity: self.rarity,
            item_class: self.item_class@,
            base_name: self.base_name@,
            item_level: self.item_level,
        }
    }
}

impl ItemIdentity {
    /// The rarity.
    pub fn rarity(&self) -> (r: Rarity)
        ensures
            r == self@.rarity,
    {
        self.rarity
    }

    /// The item class as the game prints it: `Abyss Jewels`.
    pub fn item_class(&self) -> (s: &str)
        ensures
            s@ == self@.item_class,
    {
        self.item_class.as_str()
    }

    /// The Base's name, or the whole name line when it does not contain the pool's Base.
    pub fn base_name(&self) -> (s: &str)
        ensures
            s@ == self@.base_name,
    {
        self.base_name.as_str()
    }

    /// The item level.
    pub fn item_level(&self) -> (l: u32)
        ensures
            l == self@.item_level,
    {
        self.item_level
    }

    /// Do two identities name the same item?
    pub fn same_as(&self, other: &ItemIdentity) -> (b: bool)
        ensures
            b == (self@ == other@),
    {
        self.rarity == other.rarity && self.item_class == other.item_class && self.base_name
            == other.base_name && self.item_level == other.item_level
    }

    /// A copy of this identity.
    pub fn duplicate(&self) -> (r: ItemIdentity)
        ensures
            r@ == self@,
    {
        ItemIdentity {
            rarity: self.rarity,
            item_class: self.item_class.clone(),
            base_name: self.base_name.clone(),
            item_level: self.item_level,
        }
    }
}

/// What an [`Annotation`] is, as a value.
pub struct AnnotationView {
    pub generation: Generation,
    pub affix_name: Seq<char>,
    pub tier: Option<u8>,
    pub tags: Seq<Seq<char>>,
}

/// The game's `{ Prefix Modifier "Annealed" (Tier: 4) — Damage, Physical, Minion }` line, present
/// only with Advanced Mod Descriptions on. Read so it can be logged and cross-checked; it never
/// reaches a Verdict.
#[derive(Clone, Debug, PartialEq, Eq)]
pub struct Annotation {
    generation: Generation,
    affix_name: String,
    tier: Option<u8>,
    tags: Vec<String>,
}

impl View for Annotation {
    type V = AnnotationView;

    closed spec fn view(&self) -> AnnotationView {
        AnnotationView {
            generation: self.generation,
            affix_name: self.affix_name@,
            tier: self.tier,
            tags: strings_view(self.tags@),
        }
    }
}

impl Annotation {
    /// Prefix or suffix, per the game.
    pub fn generation(&self) -> (g: Generation)
        ensures
            g == self@.generation,
    {
        self.generation
    }

    /// The name the game gives this tier of the group: `Annealed`, `of Order`.
    pub fn affix_name(&self) -> (s: &str)
        ensures
            s@ == self@.affix_name,
    {
        self.affix_name.as_str()
    }

    /// The tier the game claims, when it prints one. Logged and cross-checked, never trusted.
    pub fn tier(&self) -> (t: Option<u8>)
        ensures
            t == self@.tier,
    {
        self.tier
    }

    /// The tag list, empty when the game prints none.
    pub fn tags(&self) -> (t: &[String])
        ensures
            strings_view(t@) == self@.tags,
    {
        self.tags.as_slice()
    }
}

// ── Sections ───────────────────────────────────────────────────────────────────────────────────

/// A separator line: three or more dashes and nothing else.
pub open spec fn is_rule(t: Seq<char>) -> bool {
    t.len() >= 3 && forall|i: int| 0 <= i < t.len() ==> #[trigger] t[i] == '-'
}

/// The sections of a text given as its raw lines: each line loses its trailing whitespace, a
/// separator starts a new section, and empty lines are dropped. There is always a first section.
pub open spec fn sections_of(raw: Seq<Seq<char>>) -> Seq<Seq<Seq<char>>>
    decreases raw.len(),
{
    if raw.len() == 0 {
        seq![Seq::empty()]
    } else {
        let prev = sections_of(raw.drop_last());
        let t = trim_end(raw.last());
        if is_rule(t) {
            prev.push(Seq::empty())
        } else if t.len() > 0 {
            prev.update(prev.len() - 1, prev.last().push(t))
        } else {
            prev
        }
    }
}

/// An Item Text's sections.
pub open spec fn text_sections(text: Seq<char>) -> Seq<Seq<Seq<char>>> {
    sections_of(split_on(text, '\n'))
}

pub proof fn lemma_sections_len(raw: Seq<Seq<char>>)
    ensures
        sections_of(raw).len() >= 1,
    decreases raw.len(),
{
    if raw.len() > 0 {
        lemma_sections_len(raw.drop_last());
    }
}

/// The characters of each line of each section.
pub open spec fn secs_view(v: Seq<Vec<Vec<char>>>) -> Seq<Seq<Seq<char>>> {
    v.map_values(|sec: Vec<Vec<char>>| pieces_view(sec@))
}

/// Is every character a dash, and are there at least three?
fn rule_line(t: &[char]) -> (b: bool)
    ensures
        b == is_rule(t@),
{
    if t.len() < 3 {
        return false;
    }
    let mut i: usize = 0;
    while i < t.len()
        invariant
            i <= t@.len(),
            forall|j: int| 0 <= j < i ==> #[trigger] t@[j] == '-',
        decreases t@.len() - i,
    {
        if t[i] != '-' {
            return false;
        }
        i = i + 1;
    }
    true
}

/// Split a text's raw lines into sections.
fn split_sections(raw: &Vec<Vec<char>>) -> (r: Vec<Vec<Vec<char>>>)
    ensures
        secs_view(r@) == sections_of(pieces_view(raw@)),
        r@.len() >= 1,
{
    let mut r: Vec<Vec<Vec<char>>> = Vec::new();
    r.push(Vec::new());
    let ghost rv = pieces_view(raw@);
    proof {
        assert(rv.take(0) =~= Seq::<Seq<char>>::empty());
        assert(pieces_view(r@[0]@) =~= Seq::<Seq<char>>::empty());
        assert(secs_view(r@) =~= sections_of(rv.take(0)));
    }
    let mut i: usize = 0;
    while i < raw.len()
        invariant
            i <= raw@.len(),
            rv == pieces_view(raw@),
            r@.len() >= 1,
            secs_view(r@) == sections_of(rv.take(i as int)),
        decreases raw@.len() - i,
    {
        let t = trim_end_vec(raw[i].as_slice());
        let ghost before = secs_view(r@);
        proof {
            assert(rv.take(i + 1).drop_last() =~= rv.take(i as int));
            assert(rv.take(i + 1).last() == raw@[i as int]@);
        }
        if rule_line(t.as_slice()) {
            r.push(Vec::new());
            assert(pieces_view(r@[r@.len() - 1]@) =~= Seq::<Seq<char>>::empty());
            assert(secs_view(r@) =~= before.push(Seq::empty()));
        } else if t.len() > 0 {
            let last = r.len() - 1;
            let mut sec = r.remove(last);
            sec.push(t);
            r.push(sec);
            assert(pieces_view(r@[last as int]@) =~= before.last().push(trim_end(raw@[i as int]@)));
            assert(secs_view(r@) =~= before.update(before.len() - 1, before.last().push(
                trim_end(raw@[i as int]@),
            )));
        }
        i = i + 1;
    }
    proof {
        assert(rv.take(raw@.len() as int) =~= rv);
    }
    r
}

// ── Finding lines ──────────────────────────────────────────────────────────────────────────────

/// The positions of a section whose line begins with `p`.
pub open spec fn begins_with(sec: Seq<Seq<char>>, p: Seq<char>) -> spec_fn(int) -> bool {
    |i: int| has_prefix(sec[i], p)
}

/// The first line of a section that begins with `p`.
pub open spec fn line_index(sec: Seq<Seq<char>>, p: Seq<char>) -> Option<int> {
    first_where(sec.len() as int, begins_with(sec, p))
}

/// What follows the prefix `p` on a line.
pub open spec fn after(line: Seq<char>, p: Seq<char>) -> Seq<char> {
    line.skip(p.len() as int)
}

/// Find the first line of a section that begins with `p`.
fn find_line(sec: &Vec<Vec<char>>, p: &[char]) -> (r: Option<usize>)
    ensures
        match r {
            Some(i) => line_index(pieces_view(sec@), p@) == Some(i as int),
            None => line_index(pieces_view(sec@), p@) is None,
        },
{
    let ghost sv = pieces_view(sec@);
    let ghost q = begins_with(sv, p@);
    let mut i: usize = 0;
    while i < sec.len()
        invariant
            i <= sec@.len(),
            sv == pieces_view(sec@),
            q == begins_with(sv, p@),
            forall|j: int| 0 <= j < i ==> !#[trigger] q(j),
        decreases sec@.len() - i,
    {
        if starts_with(sec[i].as_slice(), p) {
            proof {
                lemma_first_where_is(sv.len() as int, q, i as int);
            }
            return Some(i);
        }
        assert(!q(i as int));
        i = i + 1;
    }
    proof {
        lemma_first_where_none(sv.len() as int, q);
    }
    None
}

/// The characters after the first `n` of a line.
fn skip_chars(line: &[char], n: usize) -> (r: Vec<char>)
    requires
        n <= line@.len(),
    ensures
        r@ == line@.skip(n as int),
{
    let mut r: Vec<char> = Vec::new();
    let mut i = n;
    while i < line.len()
        invariant
            n <= i <= line@.len(),
            r@ == line@.subrange(n as int, i as int),
        decreases line@.len() - i,
    {
        r.push(line[i]);
        i = i + 1;
        assert(r@ =~= line@.subrange(n as int, i as int));
    }
    r
}

/// The sections holding a line that begins with `p`.
pub open spec fn holds_line(secs: Seq<Seq<Seq<char>>>, p: Seq<char>) -> spec_fn(int) -> bool {
    |i: int| line_index(secs[i], p) is Some
}

/// The first section holding a line that begins with `p`.
pub open spec fn section_index(secs: Seq<Seq<Seq<char>>>, p: Seq<char>) -> Option<int> {
    first_where(secs.len() as int, holds_line(secs, p))
}

/// Find the first section holding a line that begins with `p`, and that line.
fn find_section(secs: &Vec<Vec<Vec<char>>>, p: &[char]) -> (r: Option<(usize, usize)>)
    ensures
        match r {
            Some((s, l)) => section_index(secs_view(secs@), p@) == Some(s as int) && s < secs@.len()
                && line_index(secs_view(secs@)[s as int], p@) == Some(l as int),
            None => section_index(secs_view(secs@), p@) is None,
        },
{
    let ghost sv = secs_view(secs@);
    let ghost q = holds_line(sv, p@);
    let mut i: usize = 0;
    while i < secs.len()
        invariant
            i <= secs@.len(),
            sv == secs_view(secs@),
            q == holds_line(sv, p@),
            forall|j: int| 0 <= j < i ==> !#[trigger] q(j),
        decreases secs@.len() - i,
    {
        match find_line(&secs[i], p) {
            Some(l) => {
                proof {
                    assert(q(i as int));
                    lemma_first_where_is(sv.len() as int, q, i as int);
                }
                return Some((i, l));
            },
            None => {
                assert(!q(i as int));
            },
        }
        i = i + 1;
    }
    proof {
        lemma_first_where_none(sv.len() as int, q);
    }
    None
}

// ── Annotations, descriptions, trailers ───────────────────────────────────────────────────────

/// Are two runs of characters the same?
pub fn same_chars(a: &[char], b: &[char]) -> (r: bool)
    ensures
        r == (a@ == b@),
{
    if a.len() != b.len() {
        return false;
    }
    let mut i: usize = 0;
    while i < a.len()
        invariant
            i <= a@.len(),
            a@.len() == b@.len(),
            forall|j: int| 0 <= j < i ==> a@[j] == b@[j],
        decreases a@.len() - i,
    {
        if a[i] != b[i] {
            return false;
        }
        i = i + 1;
    }
    assert(a@ =~= b@);
    true
}

/// The name between the first two double quotes, or nothing.
pub open spec fn quoted_name(inner: Seq<char>) -> Seq<char> {
    match find_char(inner, '"') {
        Some(a) => {
            let rest = inner.skip(a + 1);
            match find_char(rest, '"') {
                Some(b) => rest.take(b),
                None => Seq::empty(),
            }
        },
        None => Seq::empty(),
    }
}

/// The number inside `(Tier: n)`, if there is one that fits a `u8`.
pub open spec fn annotated_tier(inner: Seq<char>) -> Option<u8> {
    match find_sub(inner, "(Tier: "@) {
        Some(a) => {
            let rest = inner.skip(a + "(Tier: "@.len());
            match find_char(rest, ')') {
                Some(b) => parse_u8_spec(trim(rest.take(b))),
                None => None,
            }
        },
        None => None,
    }
}

/// The non-empty pieces, each trimmed.
pub open spec fn kept_tags(pieces: Seq<Seq<char>>) -> Seq<Seq<char>>
    decreases pieces.len(),
{
    if pieces.len() == 0 {
        Seq::empty()
    } else {
        let prev = kept_tags(pieces.drop_last());
        let t = trim(pieces.last());
        if t.len() > 0 {
            prev.push(t)
        } else {
            prev
        }
    }
}

/// The comma-separated tags after the em-dash, or none.
pub open spec fn tag_list(inner: Seq<char>) -> Seq<Seq<char>> {
    match find_char(inner, '—') {
        Some(a) => kept_tags(split_on(inner.skip(a + 1), ',')),
        None => Seq::empty(),
    }
}

/// What an annotation line says: `{ <type> "<name>" (Tier: <n>) — <tags> }`, with the name, the
/// tier and the tags each optional. A line without a known type is not an annotation.
pub open spec fn annotation_of(line: Seq<char>) -> Option<AnnotationView> {
    if line.len() >= 2 && line[0] == '{' && line.last() == '}' {
        let inner = trim(line.subrange(1, line.len() - 1));
        let generation = if has_prefix(inner, "Prefix"@) {
            Some(Generation::Prefix)
        } else if has_prefix(inner, "Suffix"@) {
            Some(Generation::Suffix)
        } else {
            None
        };
        match generation {
            Some(g) => Some(
                AnnotationView {
                    generation: g,
                    affix_name: quoted_name(inner),
                    tier: annotated_tier(inner),
                    tags: tag_list(inner),
                },
            ),
            None => None,
        }
    } else {
        None
    }
}

fn name_between_quotes(inner: &[char]) -> (r: Vec<char>)
    ensures
        r@ == quoted_name(inner@),
{
    match position_of(inner, '"') {
        Some(a) => {
            let len = inner.len();
            assert(a < len);
            let rest = skip_chars(inner, a + 1);
            match position_of(rest.as_slice(), '"') {
                Some(b) => {
                    let r = copy_prefix(rest.as_slice(), b);
                    r
                },
                None => Vec::new(),
            }
        },
        None => Vec::new(),
    }
}

/// The first `n` characters.
fn copy_prefix(s: &[char], n: usize) -> (r: Vec<char>)
    requires
        n <= s@.len(),
    ensures
        r@ == s@.take(n as int),
{
    let mut r: Vec<char> = Vec::new();
    let mut i: usize = 0;
    while i < n
        invariant
            i <= n <= s@.len(),
            r@ == s@.take(i as int),
        decreases n - i,
    {
        r.push(s[i]);
        i = i + 1;
        assert(r@ =~= s@.take(i as int));
    }
    r
}

fn tier_in(inner: &[char]) -> (r: Option<u8>)
    ensures
        r == annotated_tier(inner@),
{
    let marker = chars_of("(Tier: ");
    match position_of_sub(inner, marker.as_slice()) {
        Some(a) => {
            let len = inner.len();
            assert(a + marker@.len() <= len);
            let rest = skip_chars(inner, a + marker.len());
            match position_of(rest.as_slice(), ')') {
                Some(b) => {
                    let n = copy_prefix(rest.as_slice(), b);
                    let n = trim_vec(n.as_slice());
                    parse_u8(n.as_slice())
                },
                None => None,
            }
        },
        None => None,
    }
}

fn tags_in(inner: &[char]) -> (r: Vec<String>)
    ensures
        strings_view(r@) == tag_list(inner@),
{
    match position_of(inner, '—') {
        Some(a) => {
            let len = inner.len();
            assert(a < len);
            let rest = skip_chars(inner, a + 1);
            let pieces = split_chars(rest.as_slice(), ',');
            let ghost pv = pieces_view(pieces@);
            let mut r: Vec<String> = Vec::new();
            let mut i: usize = 0;
            proof {
                assert(pv.take(0) =~= Seq::<Seq<char>>::empty());
                assert(strings_view(r@) =~= kept_tags(pv.take(0)));
            }
            while i < pieces.len()
                invariant
                    i <= pieces@.len(),
                    pv == pieces_view(pieces@),
                    strings_view(r@) == kept_tags(pv.take(i as int)),
                decreases pieces@.len() - i,
            {
                let t = trim_vec(pieces[i].as_slice());
                proof {
                    assert(pv.take(i + 1).drop_last() =~= pv.take(i as int));
                }
                if t.len() > 0 {
                    r.push(string_of(t.as_slice()));
                    assert(strings_view(r@) =~= kept_tags(pv.take(i as int)).push(trim(pieces@[i as int]@)));
                }
                i = i + 1;
            }
            assert(pv.take(pieces@.len() as int) =~= pv);
            r
        },
        None => Vec::new(),
    }
}

/// Read one annotation line, or `None` if it is not one.
pub fn parse_annotation(line: &[char]) -> (r: Option<Annotation>)
    ensures
        match r {
            Some(a) => annotation_of(line@) == Some(a@),
            None => annotation_of(line@) is None,
        },
{
    if !(line.len() >= 2 && line[0] == '{' && line[line.len() - 1] == '}') {
        return None;
    }
    let body = copy_range_of(line, 1, line.len() - 1);
    let inner = trim_vec(body.as_slice());
    let prefix = chars_of("Prefix");
    let suffix = chars_of("Suffix");
    let generation = if starts_with(inner.as_slice(), prefix.as_slice()) {
        Generation::Prefix
    } else if starts_with(inner.as_slice(), suffix.as_slice()) {
        Generation::Suffix
    } else {
        return None;
    };
    let tier = tier_in(inner.as_slice());
    let name = name_between_quotes(inner.as_slice());
    let tags = tags_in(inner.as_slice());
    Some(Annotation { generation, affix_name: string_of(name.as_slice()), tier, tags })
}

fn copy_range_of(s: &[char], start: usize, end: usize) -> (r: Vec<char>)
    requires
        start <= end <= s@.len(),
    ensures
        r@ == s@.subrange(start as int, end as int),
{
    crate::text::copy_range(s, start, end)
}

/// A parenthesised explanation the game appends to a mod, such as
/// `(Recently refers to the past 4 seconds)`. It holds numbers, so it is excluded by shape.
pub open spec fn is_description(line: Seq<char>) -> bool {
    line.len() >= 1 && line[0] == '(' && line.last() == ')'
}

fn description_line(line: &[char]) -> (b: bool)
    ensures
        b == is_description(line@),
{
    line.len() >= 1 && line[0] == '(' && line[line.len() - 1] == ')'
}

/// A line that can only belong to the trailer.
pub open spec fn is_trailer_line(l: Seq<char>) -> bool {
    ||| has_prefix(l, "Place into"@)
    ||| has_prefix(l, "Note:"@)
    ||| l == "Corrupted"@
    ||| l == "Mirrored"@
    ||| l == "Split"@
    ||| l == "Unmodifiable"@
}

/// Is this section the trailer rather than the explicit-mod section? A whitelist: an unfamiliar
/// section is read as the explicit-mod section, where its lines are unrecognised and fail closed.
pub open spec fn is_trailer(sec: Seq<Seq<char>>) -> bool {
    forall|i: int| 0 <= i < sec.len() ==> is_trailer_line(#[trigger] sec[i])
}

fn trailer_line(l: &[char]) -> (b: bool)
    ensures
        b == is_trailer_line(l@),
{
    starts_with(l, chars_of("Place into").as_slice()) || starts_with(
        l,
        chars_of("Note:").as_slice(),
    ) || same_chars(l, chars_of("Corrupted").as_slice()) || same_chars(
        l,
        chars_of("Mirrored").as_slice(),
    ) || same_chars(l, chars_of("Split").as_slice()) || same_chars(
        l,
        chars_of("Unmodifiable").as_slice(),
    )
}

fn trailer_section(sec: &Vec<Vec<char>>) -> (b: bool)
    ensures
        b == is_trailer(pieces_view(sec@)),
{
    let mut i: usize = 0;
    while i < sec.len()
        invariant
            i <= sec@.len(),
            forall|j: int| 0 <= j < i ==> is_trailer_line(#[trigger] pieces_view(sec@)[j]),
        decreases sec@.len() - i,
    {
        if !trailer_line(sec[i].as_slice()) {
            assert(!is_trailer_line(pieces_view(sec@)[i as int]));
            return false;
        }
        i = i + 1;
    }
    true
}

// ── Rolled values ──────────────────────────────────────────────────────────────────────────────

/// One if a sign stands at `start`.
pub open spec fn sign_len(s: Seq<char>, start: int) -> int {
    if start < s.len() && (s[start] == '+' || s[start] == '-') {
        1
    } else {
        0
    }
}

/// Where a number whose digits begin at `ds` ends: after its digits, and after a `.` and more
/// digits when they follow.
pub open spec fn number_end(s: Seq<char>, ds: int) -> int {
    let de = digits_end(s, ds);
    if de < s.len() && s[de] == '.' && digits_end(s, de + 1) > de + 1 {
        digits_end(s, de + 1)
    } else {
        de
    }
}

/// Where the inline bounds `(lo-hi)` that may follow a value at `i` end: past the first `)` when
/// the text between holds a `-` with something after it, else `i` itself.
pub open spec fn bounds_end(s: Seq<char>, i: int) -> int {
    if 0 <= i < s.len() && s[i] == '(' {
        match find_char(s.skip(i), ')') {
            Some(close) => {
                let inner = s.subrange(i + 1, i + close);
                match find_char(inner, '-') {
                    Some(d) => if d + 1 < inner.len() {
                        i + close + 1
                    } else {
                        i
                    },
                    None => i,
                }
            },
            None => i,
        }
    } else {
        i
    }
}

/// The rolled value printed at `start`, in thousandths, and where it (with its bounds) ends.
///
/// A value is an optional sign, digits, and an optional fraction; it is never part of a longer word,
/// so `T4` holds no value.
pub open spec fn scan_at(s: Seq<char>, start: int) -> Option<(i64, int)> {
    let ds = start + sign_len(s, start);
    let de = digits_end(s, ds);
    if de == ds || (start > 0 && is_alnum(s[start - 1])) {
        None
    } else {
        let fe = number_end(s, ds);
        let frac = if fe > de {
            s.subrange(de + 1, fe)
        } else {
            Seq::empty()
        };
        let m = magnitude_milli(s.subrange(ds, de), frac);
        let v = if sign_len(s, start) == 1 && s[start] == '-' {
            -m
        } else {
            m
        };
        Some((v as i64, bounds_end(s, fe)))
    }
}

pub proof fn lemma_number_end(s: Seq<char>, ds: int)
    requires
        0 <= ds <= s.len(),
    ensures
        digits_end(s, ds) <= number_end(s, ds) <= s.len(),
        number_end(s, ds) > digits_end(s, ds) ==> all_digits(
            s.subrange(digits_end(s, ds) + 1, number_end(s, ds)),
        ),
{
    lemma_digits_end(s, ds);
    let de = digits_end(s, ds);
    if de < s.len() {
        lemma_digits_end(s, de + 1);
    }
}

pub proof fn lemma_bounds_end(s: Seq<char>, i: int)
    requires
        0 <= i <= s.len(),
    ensures
        i <= bounds_end(s, i) <= s.len(),
{
    if 0 <= i < s.len() && s[i] == '(' {
        crate::search::lemma_first_where(
            s.skip(i).len() as int,
            crate::text::holds_char(s.skip(i), ')'),
        );
    }
}

pub proof fn lemma_scan_end(s: Seq<char>, start: int)
    requires
        0 <= start < s.len(),
        scan_at(s, start) is Some,
    ensures
        start < scan_at(s, start).unwrap().1 <= s.len(),
{
    let ds = start + sign_len(s, start);
    lemma_digits_end(s, ds);
    lemma_number_end(s, ds);
    lemma_bounds_end(s, number_end(s, ds));
}

/// Where the rolled value printed at `start` ends, before any inline bounds.
pub open spec fn value_end(s: Seq<char>, start: int) -> int {
    number_end(s, start + sign_len(s, start))
}

/// Does the value printed at `start` carry more than three decimal places? Values are held in
/// thousandths, so such a value is not read as a value at all.
pub open spec fn too_precise(s: Seq<char>, start: int) -> bool {
    value_end(s, start) - digits_end(s, start + sign_len(s, start)) - 1 > 3
}

/// A line with every rolled value replaced by `#`, and the values, from position `i` on. A value
/// with more than three decimal places stays in the match string as printed, so the line matches no
/// Mod Group and is unrecognised.
pub open spec fn norm_from(s: Seq<char>, i: int) -> (Seq<char>, Seq<i64>)
    decreases s.len() - i,
{
    if i < 0 || i >= s.len() {
        (Seq::empty(), Seq::empty())
    } else {
        match scan_at(s, i) {
            Some((v, e)) => {
                proof {
                    lemma_scan_end(s, i);
                }
                let r = norm_from(s, e);
                if too_precise(s, i) {
                    (s.subrange(i, value_end(s, i)) + r.0, r.1)
                } else {
                    (seq!['#'] + r.0, seq![v] + r.1)
                }
            },
            None => {
                let r = norm_from(s, i + 1);
                (seq![s[i]] + r.0, r.1)
            },
        }
    }
}

/// A line's match string (every rolled value replaced by `#`) and its values, in order.
pub open spec fn normalised(line: Seq<char>) -> (Seq<char>, Seq<i64>) {
    norm_from(line, 0)
}

fn bounds_after(s: &[char], i: usize) -> (e: usize)
    requires
        i <= s@.len(),
    ensures
        e == bounds_end(s@, i as int),
{
    if i < s.len() && s[i] == '(' {
        let rest = skip_chars(s, i);
        match position_of(rest.as_slice(), ')') {
            Some(close) => {
                assert(rest@[0] == '(');
                let inner = copy_range_of(s, i + 1, i + close);
                match position_of(inner.as_slice(), '-') {
                    Some(d) => {
                        if d + 1 < inner.len() {
                            i + close + 1
                        } else {
                            i
                        }
                    },
                    None => i,
                }
            },
            None => i,
        }
    } else {
        i
    }
}

fn scan_value(s: &[char], start: usize) -> (r: Option<(i64, usize, usize, bool)>)
    requires
        start < s@.len(),
    ensures
        match r {
            Some((v, e, fe, precise)) => scan_at(s@, start as int) == Some((v, e as int)) && fe
                == value_end(s@, start as int) && precise == !too_precise(s@, start as int),
            None => scan_at(s@, start as int) is None,
        },
{
    let signed = s[start] == '+' || s[start] == '-';
    let ds = if signed {
        start + 1
    } else {
        start
    };
    let de = scan_digits(s, ds);
    proof {
        lemma_digits_end(s@, ds as int);
        lemma_number_end(s@, ds as int);
    }
    if de == ds {
        return None;
    }
    if start > 0 && is_ascii_alphanumeric(s[start - 1]) {
        return None;
    }
    let mut fe = de;
    if de < s.len() && s[de] == '.' {
        let f = scan_digits(s, de + 1);
        if f > de + 1 {
            fe = f;
        }
    }
    let m = if fe > de {
        magnitude(s, ds, de, de + 1, fe)
    } else {
        proof {
            assert(s@.subrange(0, 0) =~= Seq::<char>::empty());
            assert(all_digits(s@.subrange(0, 0)));
        }
        magnitude(s, ds, de, 0, 0)
    };
    let v = if signed && s[start] == '-' {
        -m
    } else {
        m
    };
    proof {
        lemma_bounds_end(s@, fe as int);
    }
    let precise = fe == de || fe - de - 1 <= 3;
    Some((v, bounds_after(s, fe), fe, precise))
}

/// Replace every rolled value in a line with `#`, returning the match string and the values.
pub fn normalise(line: &[char]) -> (r: (Vec<char>, Vec<i64>))
    ensures
        (r.0@, r.1@) == normalised(line@),
{
    let mut out: Vec<char> = Vec::new();
    let mut values: Vec<i64> = Vec::new();
    let mut i: usize = 0;
    proof {
        assert(out@ + norm_from(line@, 0).0 =~= norm_from(line@, 0).0);
        assert(values@ + norm_from(line@, 0).1 =~= norm_from(line@, 0).1);
    }
    while i < line.len()
        invariant
            i <= line@.len(),
            norm_from(line@, 0).0 == out@ + norm_from(line@, i as int).0,
            norm_from(line@, 0).1 == values@ + norm_from(line@, i as int).1,
        decreases line@.len() - i,
    {
        match scan_value(line, i) {
            Some((v, e, fe, precise)) if !precise => {
                proof {
                    lemma_scan_end(line@, i as int);
                    lemma_digits_end(line@, i + sign_len(line@, i as int));
                    lemma_number_end(line@, i + sign_len(line@, i as int));
                    lemma_bounds_end(line@, fe as int);
                }
                let text = copy_range_of(line, i, fe);
                proof {
                    assert(out@ + text@ + norm_from(line@, e as int).0 =~= out@ + norm_from(
                        line@,
                        i as int,
                    ).0);
                    assert(values@ + norm_from(line@, e as int).1 =~= values@ + norm_from(
                        line@,
                        i as int,
                    ).1);
                }
                let mut j: usize = 0;
                let ghost before = out@;
                while j < text.len()
                    invariant
                        j <= text@.len(),
                        out@ == before + text@.take(j as int),
                    decreases text@.len() - j,
                {
                    out.push(text[j]);
                    j = j + 1;
                    assert(out@ =~= before + text@.take(j as int));
                }
                assert(text@.take(text@.len() as int) =~= text@);
                i = e;
            },
            Some((v, e, fe, precise)) => {
                proof {
                    lemma_scan_end(line@, i as int);
                    assert(out@.push('#') + norm_from(line@, e as int).0 =~= out@ + norm_from(
                        line@,
                        i as int,
                    ).0);
                    assert(values@.push(v) + norm_from(line@, e as int).1 =~= values@ + norm_from(
                        line@,
                        i as int,
                    ).1);
                }
                out.push('#');
                values.push(v);
                i = e;
            },
            None => {
                proof {
                    assert(out@.push(line@[i as int]) + norm_from(line@, i + 1).0 =~= out@
                        + norm_from(line@, i as int).0);
                    assert(values@ + norm_from(line@, i + 1).1 =~= values@ + norm_from(
                        line@,
                        i as int,
                    ).1);
                }
                out.push(line[i]);
                i = i + 1;
            },
        }
    }
    proof {
        assert(out@ =~= out@ + norm_from(line@, i as int).0);
        assert(values@ =~= values@ + norm_from(line@, i as int).1);
    }
    (out, values)
}

// ── Mods ───────────────────────────────────────────────────────────────────────────────────────

/// What a [`ParsedMod`] is, as a value.
pub struct ModView {
    pub group_id: Seq<char>,
    pub generation: Generation,
    pub lines: Seq<Seq<char>>,
    pub match_strings: Seq<Seq<char>>,
    pub values: Seq<i64>,
    pub annotation: Option<AnnotationView>,
}

/// One modifier as it appears on the item: the lines it rendered, the values rolled into them (in
/// thousandths), and the Mod Group they belong to. A mod may span several lines of one group, and
/// then its values are read together.
#[derive(Clone, Debug, PartialEq, Eq)]
pub struct ParsedMod {
    group_id: String,
    generation: Generation,
    lines: Vec<String>,
    match_strings: Vec<String>,
    values: Vec<i64>,
    annotation: Option<Annotation>,
}

/// The view of an optional annotation.
pub open spec fn annotation_view(a: Option<Annotation>) -> Option<AnnotationView> {
    match a {
        Some(a) => Some(a@),
        None => None,
    }
}

impl View for ParsedMod {
    type V = ModView;

    closed spec fn view(&self) -> ModView {
        ModView {
            group_id: self.group_id@,
            generation: self.generation,
            lines: strings_view(self.lines@),
            match_strings: strings_view(self.match_strings@),
            values: self.values@,
            annotation: annotation_view(self.annotation),
        }
    }
}

impl ParsedMod {
    /// The Mod Group this mod belongs to.
    pub fn group_id(&self) -> (s: &str)
        ensures
            s@ == self@.group_id,
    {
        self.group_id.as_str()
    }

    /// Prefix or suffix, per the pool rather than per the annotation.
    pub fn generation(&self) -> (g: Generation)
        ensures
            g == self@.generation,
    {
        self.generation
    }

    /// The rendered lines, verbatim.
    pub fn lines(&self) -> (l: &[String])
        ensures
            strings_view(l@) == self@.lines,
    {
        self.lines.as_slice()
    }

    /// The rendered lines with every value replaced by `#`.
    pub fn match_strings(&self) -> (l: &[String])
        ensures
            strings_view(l@) == self@.match_strings,
    {
        self.match_strings.as_slice()
    }

    /// The values rolled into this mod, in thousandths, in the order they were printed.
    pub fn values(&self) -> (v: &[i64])
        ensures
            v@ == self@.values,
    {
        self.values.as_slice()
    }

    /// The game's annotation, if Advanced Mod Descriptions was on.
    pub fn annotation(&self) -> (a: Option<&Annotation>)
        ensures
            match a {
                Some(x) => self@.annotation == Some(x@),
                None => self@.annotation is None,
            },
    {
        match &self.annotation {
            Some(a) => Some(a),
            None => None,
        }
    }
}

/// The explicit-mod section read so far: its mods, its unrecognised lines, whether an annotation
/// was seen, and the annotation waiting for the next mod.
pub struct ModsAcc {
    pub mods: Seq<ModView>,
    pub unrecognised: Seq<Seq<char>>,
    pub annotated: bool,
    pub pending: Option<AnnotationView>,
}

/// Nothing read yet.
pub open spec fn empty_acc() -> ModsAcc {
    ModsAcc { mods: Seq::empty(), unrecognised: Seq::empty(), annotated: false, pending: None }
}

/// Read one more line of the explicit-mod section.
///
/// Consecutive lines of the same Mod Group are one mod; the annotation never decides where a mod
/// begins or ends, it only rides along with the next mod that starts.
pub open spec fn read_line(acc: ModsAcc, line: Seq<char>, pool: PoolView) -> ModsAcc {
    match annotation_of(line) {
        Some(a) => ModsAcc { annotated: true, pending: Some(a), ..acc },
        None => if is_description(line) {
            acc
        } else {
            let (ms, vals) = normalised(line);
            match spec_group(pool, ms) {
                None => ModsAcc { unrecognised: acc.unrecognised.push(line), ..acc },
                Some(g) => if acc.mods.len() > 0 && acc.mods.last().group_id == g.id {
                    let m = acc.mods.last();
                    ModsAcc {
                        mods: acc.mods.update(
                            acc.mods.len() - 1,
                            ModView {
                                lines: m.lines.push(line),
                                match_strings: m.match_strings.push(ms),
                                values: m.values + vals,
                                ..m
                            },
                        ),
                        ..acc
                    }
                } else {
                    ModsAcc {
                        mods: acc.mods.push(
                            ModView {
                                group_id: g.id,
                                generation: g.generation,
                                lines: seq![line],
                                match_strings: seq![ms],
                                values: vals,
                                annotation: acc.pending,
                            },
                        ),
                        pending: None,
                        ..acc
                    }
                },
            }
        },
    }
}

/// Read a whole explicit-mod section.
pub open spec fn read_lines(lines: Seq<Seq<char>>, pool: PoolView) -> ModsAcc
    decreases lines.len(),
{
    if lines.len() == 0 {
        empty_acc()
    } else {
        read_line(read_lines(lines.drop_last(), pool), lines.last(), pool)
    }
}

/// The view of each mod.
pub open spec fn mods_view(s: Seq<ParsedMod>) -> Seq<ModView> {
    s.map_values(|m: ParsedMod| m@)
}

fn append_values(acc: &mut Vec<i64>, more: &Vec<i64>)
    ensures
        final(acc)@ == old(acc)@ + more@,
{
    let mut i: usize = 0;
    while i < more.len()
        invariant
            i <= more@.len(),
            acc@ == old(acc)@ + more@.take(i as int),
        decreases more@.len() - i,
    {
        acc.push(more[i]);
        i = i + 1;
        assert(acc@ =~= old(acc)@ + more@.take(i as int));
    }
    assert(more@.take(more@.len() as int) =~= more@);
}

/// Read the lines of an explicit-mod section.
fn read_section(sec: &Vec<Vec<char>>, pool: &ModPool) -> (r: (Vec<ParsedMod>, Vec<String>, bool))
    ensures
        mods_view(r.0@) == read_lines(pieces_view(sec@), pool@).mods,
        strings_view(r.1@) == read_lines(pieces_view(sec@), pool@).unrecognised,
        r.2 == read_lines(pieces_view(sec@), pool@).annotated,
{
    let ghost lv = pieces_view(sec@);
    let mut mods: Vec<ParsedMod> = Vec::new();
    let mut unrecognised: Vec<String> = Vec::new();
    let mut annotated = false;
    let mut pending: Option<Annotation> = None;
    let mut i: usize = 0;
    proof {
        assert(lv.take(0) =~= Seq::<Seq<char>>::empty());
        assert(mods_view(mods@) =~= Seq::<ModView>::empty());
        assert(strings_view(unrecognised@) =~= Seq::<Seq<char>>::empty());
    }
    while i < sec.len()
        invariant
            i <= sec@.len(),
            lv == pieces_view(sec@),
            mods_view(mods@) == read_lines(lv.take(i as int), pool@).mods,
            strings_view(unrecognised@) == read_lines(lv.take(i as int), pool@).unrecognised,
            annotated == read_lines(lv.take(i as int), pool@).annotated,
            annotation_view(pending) == read_lines(lv.take(i as int), pool@).pending,
        decreases sec@.len() - i,
    {
        let line = sec[i].as_slice();
        let ghost acc = read_lines(lv.take(i as int), pool@);
        proof {
            assert(lv.take(i + 1).drop_last() =~= lv.take(i as int));
            assert(lv.take(i + 1).last() == line@);
        }
        match parse_annotation(line) {
            Some(a) => {
                annotated = true;
                pending = Some(a);
            },
            None => {
                if !description_line(line) {
                    let (ms, vals) = normalise(line);
                    let key = string_of(ms.as_slice());
                    match pool.group(key.as_str()) {
                        None => {
                            unrecognised.push(string_of(line));
                            assert(strings_view(unrecognised@) =~= acc.unrecognised.push(line@));
                        },
                        Some(g) => {
                            let gid = String::from_str(g.id());
                            let n = mods.len();
                            if n > 0 && mods[n - 1].group_id == gid {
                                let mut m = mods.pop().unwrap();
                                let ghost mv = m@;
                                m.lines.push(string_of(line));
                                m.match_strings.push(key);
                                append_values(&mut m.values, &vals);
                                assert(strings_view(m.lines@) =~= mv.lines.push(line@));
                                assert(strings_view(m.match_strings@) =~= mv.match_strings.push(ms@));
                                mods.push(m);
                                assert(mods_view(mods@) =~= acc.mods.update(
                                    acc.mods.len() - 1,
                                    ModView {
                                        lines: mv.lines.push(line@),
                                        match_strings: mv.match_strings.push(ms@),
                                        values: mv.values + vals@,
                                        ..mv
                                    },
                                ));
                            } else {
                                let annotation = pending.take();
                                let mut lines: Vec<String> = Vec::new();
                                lines.push(string_of(line));
                                let mut match_strings: Vec<String> = Vec::new();
                                match_strings.push(key);
                                let m = ParsedMod {
                                    group_id: gid,
                                    generation: g.generation(),
                                    lines,
                                    match_strings,
                                    values: vals,
                                    annotation,
                                };
                                assert(strings_view(m.lines@) =~= seq![line@]);
                                assert(strings_view(m.match_strings@) =~= seq![ms@]);
                                mods.push(m);
                                assert(mods_view(mods@) =~= acc.mods.push(m@));
                            }
                        },
                    }
                }
            },
        }
        i = i + 1;
    }
    proof {
        assert(lv.take(sec@.len() as int) =~= lv);
    }
    (mods, unrecognised, annotated)
}

// ── Items ──────────────────────────────────────────────────────────────────────────────────────

/// What an [`Item`] is, as a value.
pub struct ItemView {
    pub identity: IdentityView,
    pub base_matches_pool: bool,
    pub mods: Seq<ModView>,
    pub unrecognised: Seq<Seq<char>>,
    pub annotated: bool,
}

/// A parsed item: what it is, and what is in its explicit-mod section.
#[derive(Clone, Debug, PartialEq, Eq)]
pub struct Item {
    identity: ItemIdentity,
    base_matches_pool: bool,
    mods: Vec<ParsedMod>,
    unrecognised: Vec<String>,
    annotated: bool,
}

impl View for Item {
    type V = ItemView;

    closed spec fn view(&self) -> ItemView {
        ItemView {
            identity: self.identity@,
            base_matches_pool: self.base_matches_pool,
            mods: mods_view(self.mods@),
            unrecognised: strings_view(self.unrecognised@),
            annotated: self.annotated,
        }
    }
}

/// The mods that belong to a group.
pub open spec fn of_group(mods: Seq<ModView>, id: Seq<char>) -> spec_fn(int) -> bool {
    |i: int| mods[i].group_id == id
}

/// The first mod of a group.
pub open spec fn spec_mod_of_group(mods: Seq<ModView>, id: Seq<char>) -> Option<ModView> {
    match first_where(mods.len() as int, of_group(mods, id)) {
        Some(i) => Some(mods[i]),
        None => None,
    }
}

impl Item {
    /// What a Craft Session pins.
    pub fn identity(&self) -> (i: &ItemIdentity)
        ensures
            i@ == self@.identity,
    {
        &self.identity
    }

    /// Is this the Base the pool describes? A `false` here cannot be assessed at all.
    pub fn base_matches_pool(&self) -> (b: bool)
        ensures
            b == self@.base_matches_pool,
    {
        self.base_matches_pool
    }

    /// The explicit mods, in the order they were printed. Nothing from any other section.
    pub fn mods(&self) -> (m: &[ParsedMod])
        ensures
            mods_view(m@) == self@.mods,
    {
        self.mods.as_slice()
    }

    /// Lines in the explicit-mod section the pool did not recognise.
    pub fn unrecognised(&self) -> (u: &[String])
        ensures
            strings_view(u@) == self@.unrecognised,
    {
        self.unrecognised.as_slice()
    }

    /// Did this text carry annotations, i.e. was Advanced Mod Descriptions on?
    pub fn annotated(&self) -> (b: bool)
        ensures
            b == self@.annotated,
    {
        self.annotated
    }

    /// Find a mod by its Mod Group.
    pub fn mod_of_group(&self, group_id: &str) -> (r: Option<&ParsedMod>)
        ensures
            match r {
                Some(m) => spec_mod_of_group(self@.mods, group_id@) == Some(m@),
                None => spec_mod_of_group(self@.mods, group_id@) is None,
            },
    {
        let ghost mv = mods_view(self.mods@);
        let ghost q = of_group(mv, group_id@);
        let key = String::from_str(group_id);
        let mut i: usize = 0;
        while i < self.mods.len()
            invariant
                i <= self.mods@.len(),
                mv == mods_view(self.mods@),
                q == of_group(mv, group_id@),
                key@ == group_id@,
                forall|j: int| 0 <= j < i ==> !#[trigger] q(j),
            decreases self.mods@.len() - i,
        {
            if self.mods[i].group_id == key {
                proof {
                    lemma_first_where_is(mv.len() as int, q, i as int);
                }
                return Some(&self.mods[i]);
            }
            assert(!q(i as int));
            i = i + 1;
        }
        proof {
            lemma_first_where_none(mv.len() as int, q);
        }
        None
    }
}

/// What an [`Unreadable`] is, as a value.
pub enum UnreadableView {
    NotItemText,
    Rarity(Seq<char>),
    ItemLevel(Seq<char>),
    NoName,
    ImplicitsUnsupported(nat),
}

impl View for Unreadable {
    type V = UnreadableView;

    open spec fn view(&self) -> UnreadableView {
        match self {
            Unreadable::NotItemText => UnreadableView::NotItemText,
            Unreadable::Rarity(d) => UnreadableView::Rarity(d@),
            Unreadable::ItemLevel(d) => UnreadableView::ItemLevel(d@),
            Unreadable::NoName => UnreadableView::NoName,
            Unreadable::ImplicitsUnsupported { count } => UnreadableView::ImplicitsUnsupported(
                *count as nat,
            ),
        }
    }
}

/// What an [`Unreadable`] says, in words.
pub open spec fn unreadable_text(u: UnreadableView) -> Seq<char> {
    match u {
        UnreadableView::NotItemText => "not item text — no `Item Class:` line"@,
        UnreadableView::Rarity(d) => "cannot read the rarity: "@ + d,
        UnreadableView::ItemLevel(d) => "cannot read the item level: "@ + d,
        UnreadableView::NoName => "the item has no name line"@,
        UnreadableView::ImplicitsUnsupported(n) => "this base has "@ + crate::text::dec(n)
            + " implicit modifier(s); the parser only handles bases with none"@,
    }
}

impl Unreadable {
    /// Why the text could not be read, in words.
    pub fn text(&self) -> (s: String)
        ensures
            s@ == unreadable_text(self@),
    {
        match self {
            Unreadable::NotItemText => String::from_str("not item text — no `Item Class:` line"),
            Unreadable::Rarity(d) => {
                let mut s = String::from_str("cannot read the rarity: ");
                s.append(d.as_str());
                s
            },
            Unreadable::ItemLevel(d) => {
                let mut s = String::from_str("cannot read the item level: ");
                s.append(d.as_str());
                s
            },
            Unreadable::NoName => String::from_str("the item has no name line"),
            Unreadable::ImplicitsUnsupported { count } => {
                let mut s = String::from_str("this base has ");
                crate::text::push_dec(&mut s, *count as u64);
                s.append(" implicit modifier(s); the parser only handles bases with none");
                s
            },
        }
    }
}

/// The explicit-mod section read, given the section holding `Item Level:`: the section after it,
/// unless there is none or it is the trailer.
pub open spec fn explicit_mods(secs: Seq<Seq<Seq<char>>>, si: int, pool: PoolView) -> ModsAcc {
    if si + 1 < secs.len() && !is_trailer(secs[si + 1]) {
        read_lines(secs[si + 1], pool)
    } else {
        empty_acc()
    }
}

/// What one Item Text reads as, against a pool.
pub open spec fn spec_parse(text: Seq<char>, pool: PoolView) -> Result<ItemView, UnreadableView> {
    let secs = text_sections(text);
    let header = secs[0];
    if pool.implicit_count != 0 {
        Err(UnreadableView::ImplicitsUnsupported(pool.implicit_count))
    } else {
        match line_index(header, "Item Class:"@) {
            None => Err(UnreadableView::NotItemText),
            Some(ci) => match line_index(header, "Rarity:"@) {
                None => Err(UnreadableView::Rarity("no `Rarity:` line"@)),
                Some(ri) => {
                    let word = trim(after(header[ri], "Rarity:"@));
                    match rarity_of(word) {
                        None => Err(UnreadableView::Rarity("unknown rarity "@ + debug_quoted(word))),
                        Some(rarity) => if ri + 1 >= header.len() {
                            Err(UnreadableView::NoName)
                        } else {
                            let name = trim(header[ri + 1]);
                            match section_index(secs, "Item Level:"@) {
                                None => Err(UnreadableView::ItemLevel("no `Item Level:` line"@)),
                                Some(si) => {
                                    let li = line_index(secs[si], "Item Level:"@).unwrap();
                                    let lv = trim(after(secs[si][li], "Item Level:"@));
                                    match parse_u32_spec(lv) {
                                        None => Err(
                                            UnreadableView::ItemLevel(
                                                debug_quoted(lv) + " is not a number"@,
                                            ),
                                        ),
                                        Some(item_level) => {
                                            let matches = contains_sub(name, pool.base_name);
                                            let acc = explicit_mods(secs, si, pool);
                                            Ok(
                                                ItemView {
                                                    identity: IdentityView {
                                                        rarity,
                                                        item_class: trim(
                                                            after(header[ci], "Item Class:"@),
                                                        ),
                                                        base_name: if matches {
                                                            pool.base_name
                                                        } else {
                                                            name
                                                        },
                                                        item_level,
                                                    },
                                                    base_matches_pool: matches,
                                                    mods: acc.mods,
                                                    unrecognised: acc.unrecognised,
                                                    annotated: acc.annotated,
                                                },
                                            )
                                        },
                                    }
                                },
                            }
                        },
                    }
                },
            },
        }
    }
}

fn rarity_named(w: &[char]) -> (r: Option<Rarity>)
    ensures
        r == rarity_of(w@),
{
    if same_chars(w, chars_of("Normal").as_slice()) {
        Some(Rarity::Normal)
    } else if same_chars(w, chars_of("Magic").as_slice()) {
        Some(Rarity::Magic)
    } else if same_chars(w, chars_of("Rare").as_slice()) {
        Some(Rarity::Rare)
    } else if same_chars(w, chars_of("Unique").as_slice()) {
        Some(Rarity::Unique)
    } else {
        None
    }
}

/// The trimmed text after a prefix on a line that begins with it.
fn value_after(line: &[char], p: &[char]) -> (r: Vec<char>)
    requires
        p@.len() <= line@.len(),
    ensures
        r@ == trim(after(line@, p@)),
{
    let rest = skip_chars(line, p.len());
    trim_vec(rest.as_slice())
}

/// Read one Item Text against the pool of the Base being crafted.
///
/// The pool is needed while parsing: recognising which lines are mods, and which belong together,
/// is a question about the Base.
pub fn parse_item_text(text: &str, pool: &ModPool) -> (r: Result<Item, Unreadable>)
    ensures
        match r {
            Ok(item) => spec_parse(text@, pool@) == Ok::<ItemView, UnreadableView>(item@),
            Err(e) => spec_parse(text@, pool@) == Err::<ItemView, UnreadableView>(e@),
        },
{
    if pool.implicit_count() != 0 {
        return Err(Unreadable::ImplicitsUnsupported { count: pool.implicit_count() });
    }
    let chars = chars_of(text);
    let raw = split_chars(chars.as_slice(), '\n');
    let secs = split_sections(&raw);
    let ghost sv = secs_view(secs@);
    assert(sv == text_sections(text@));
    let header = &secs[0];
    assert(pieces_view(header@) == sv[0]);
    let class_p = chars_of("Item Class:");
    let ci = match find_line(header, class_p.as_slice()) {
        Some(ci) => ci,
        None => {
            return Err(Unreadable::NotItemText);
        },
    };
    proof {
        crate::search::lemma_first_where(sv[0].len() as int, begins_with(sv[0], class_p@));
    }
    let rarity_p = chars_of("Rarity:");
    let ri = match find_line(header, rarity_p.as_slice()) {
        Some(ri) => ri,
        None => {
            return Err(Unreadable::Rarity(String::from_str("no `Rarity:` line")));
        },
    };
    proof {
        crate::search::lemma_first_where(sv[0].len() as int, begins_with(sv[0], rarity_p@));
    }
    let word = value_after(header[ri].as_slice(), rarity_p.as_slice());
    let rarity = match rarity_named(word.as_slice()) {
        Some(rarity) => rarity,
        None => {
            let mut d = String::from_str("unknown rarity ");
            let w = string_of(word.as_slice());
            d.append(debug_quoted_string(w.as_str()).as_str());
            return Err(Unreadable::Rarity(d));
        },
    };
    let hlen = header.len();
    if ri + 1 >= hlen {
        return Err(Unreadable::NoName);
    }
    let name = trim_vec(header[ri + 1].as_slice());
    let level_p = chars_of("Item Level:");
    let (si, li) = match find_section(&secs, level_p.as_slice()) {
        Some(found) => found,
        None => {
            return Err(Unreadable::ItemLevel(String::from_str("no `Item Level:` line")));
        },
    };
    proof {
        crate::search::lemma_first_where(sv[si as int].len() as int, begins_with(sv[si as int], level_p@));
        assert(pieces_view(secs@[si as int]@) == sv[si as int]);
    }
    let lv = value_after(secs[si][li].as_slice(), level_p.as_slice());
    let item_level = match parse_u32(lv.as_slice()) {
        Some(l) => l,
        None => {
            let l = string_of(lv.as_slice());
            let mut d = debug_quoted_string(l.as_str());
            d.append(" is not a number");
            return Err(Unreadable::ItemLevel(d));
        },
    };
    let base = chars_of(pool.base_name());
    let matches = position_of_sub(name.as_slice(), base.as_slice()).is_some();
    let base_name = if matches {
        String::from_str(pool.base_name())
    } else {
        string_of(name.as_slice())
    };
    let item_class = value_after(header[ci].as_slice(), class_p.as_slice());
    let nsecs = secs.len();
    let (mods, unrecognised, annotated) = if si + 1 < nsecs && !trailer_section(
        &secs[si + 1],
    ) {
        assert(pieces_view(secs@[si + 1]@) == sv[si + 1]);
        read_section(&secs[si + 1], pool)
    } else {
        proof {
            assert(mods_view(Seq::<ParsedMod>::empty()) =~= Seq::<ModView>::empty());
            assert(strings_view(Seq::<String>::empty()) =~= Seq::<Seq<char>>::empty());
        }
        (Vec::new(), Vec::new(), false)
    };
    Ok(
        Item {
            identity: ItemIdentity {
                rarity,
                item_class: string_of(item_class.as_slice()),
                base_name,
                item_level,
            },
            base_matches_pool: matches,
            mods,
            unrecognised,
            annotated,
        },
    )
}

} // verus!
