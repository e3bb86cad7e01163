//! The emoji picker's choice of emojis: with no search, the emojis of the
//! selected group; with a search, the first hundred emojis whose name or
//! one of whose shortcodes contains the query, ignoring case.
use vstd::prelude::*;
use crate::space::strs_view;
use crate::text::{contains_ignore_ascii_case, contains_ignore_ascii_case_spec, str_to_lowercase, unicode_lowercase};

verus! {

/// The groups the picker offers, in the order of its buttons.
#[derive(Clone, Copy, Debug, PartialEq, Eq, Structural)]
pub enum EmojiGroup {
    SmileysAndEmotion,
    PeopleAndBody,
    AnimalsAndNature,
    FoodAndDrink,
    TravelAndPlaces,
    Activities,
    Objects,
    Symbols,
    Flags,
}

/// One emoji of the table: its text, its name and its shortcodes.
pub struct EmojiEntry {
    pub glyph: String,
    pub name: String,
    pub shortcodes: Vec<String>,
}

/// An emoji entry seen as values.
pub struct EmojiEntryView {
    pub glyph: Seq<char>,
    pub name: Seq<char>,
    pub shortcodes: Seq<Seq<char>>,
}

impl View for EmojiEntry {
    type V = EmojiEntryView;

    open spec fn view(&self) -> EmojiEntryView {
        EmojiEntryView { glyph: self.glyph@, name: self.name@, shortcodes: strs_view(self.shortcodes@) }
    }
}

/// What the picker shows.
pub struct EmojiGrid {
    /// The emojis offered, in table order.
    pub emojis: Vec<String>,
    /// A search found nothing: the picker says so.
    pub no_results: bool,
}

/// Most emojis a search shows.
pub const SEARCH_LIMIT: usize = 100;

/// The emojis (default skin tone) of a group, in table order, with their
/// names and shortcodes, as the `emojis` crate lists them.
pub uninterp spec fn emoji_entries_of_group(g: EmojiGroup) -> Seq<EmojiEntryView>;

/// Calls `emojis::Group::emojis` for the group and takes each emoji's text,
/// name and shortcodes; the list depends on the group alone (a static
/// table).
#[verifier::external_body]
fn group_entries(g: EmojiGroup) -> (r: Vec<EmojiEntry>)
    ensures
        entries_view(r@) == emoji_entries_of_group(g),
{
    let group = match g {
        EmojiGroup::SmileysAndEmotion => emojis::Group::SmileysAndEmotion,
        EmojiGroup::PeopleAndBody => emojis::Group::PeopleAndBody,
        EmojiGroup::AnimalsAndNature => emojis::Group::AnimalsAndNature,
        EmojiGroup::FoodAndDrink => emojis::Group::FoodAndDrink,
        EmojiGroup::TravelAndPlaces => emojis::Group::TravelAndPlaces,
        EmojiGroup::Activities => emojis::Group::Activities,
        EmojiGroup::Objects => emojis::Group::Objects,
        EmojiGroup::Symbols => emojis::Group::Symbols,
        EmojiGroup::Flags => emojis::Group::Flags,
    };
    group.emojis().map(|e| EmojiEntry { glyph: e.as_str().to_string(), name: e.name().to_string(), shortcodes: e.shortcodes().map(|s| s.to_string()).collect() }).collect()
}

/// The texts of some entries, in order.
pub open spec fn glyphs(entries: Seq<EmojiEntryView>) -> Seq<Seq<char>> {
    entries.map_values(|e: EmojiEntryView| e.glyph)
}

/// The emojis of a group, in table order.
pub open spec fn emojis_of_group(g: EmojiGroup) -> Seq<Seq<char>> {
    glyphs(emoji_entries_of_group(g))
}

/// Every emoji (default skin tone), group by group in the picker's order,
/// which is the order of the crate's table.
pub open spec fn all_group_entries() -> Seq<EmojiEntryView> {
    emoji_entries_of_group(EmojiGroup::SmileysAndEmotion) + emoji_entries_of_group(EmojiGroup::PeopleAndBody)
        + emoji_entries_of_group(EmojiGroup::AnimalsAndNature) + emoji_entries_of_group(
        EmojiGroup::FoodAndDrink,
    ) + emoji_entries_of_group(EmojiGroup::TravelAndPlaces) + emoji_entries_of_group(
        EmojiGroup::Activities,
    ) + emoji_entries_of_group(EmojiGroup::Objects) + emoji_entries_of_group(EmojiGroup::Symbols)
        + emoji_entries_of_group(EmojiGroup::Flags)
}

/// The texts of some entries.
fn glyphs_of(entries: &Vec<EmojiEntry>) -> (r: Vec<String>)
    ensures
        strs_view(r@) == glyphs(entries_view(entries@)),
{
    let mut r: Vec<String> = Vec::new();
    let mut i: usize = 0;
    while i < entries.len()
        invariant
            i <= entries@.len(),
            strs_view(r@) == glyphs(entries_view(entries@)).take(i as int),
        decreases entries@.len() - i,
    {
        assert(entries_view(entries@)[i as int] == entries@[i as int]@);
        assert(glyphs(entries_view(entries@))[i as int] == entries@[i as int].glyph@);
        let ghost before = r@;
        let g = entries[i].glyph.clone();
        r.push(g);
        assert(r@ == before.push(g));
        assert(strs_view(r@) =~= strs_view(before).push(g@));
        assert(glyphs(entries_view(entries@)).take(i + 1) =~= glyphs(entries_view(entries@)).take(i as int).push(g@));
        i = i + 1;
    }
    assert(glyphs(entries_view(entries@)).take(i as int) =~= glyphs(entries_view(entries@)));
    r
}

/// Calls `emojis::iter()` (every emoji in default skin tone, in the crate's
/// table order) and takes each emoji's text, name and shortcodes. The
/// crate's table lists the emojis group by group in the order of the
/// picker's groups, and `Group::emojis` is the block of `iter()` that
/// belongs to the group, so the list is the nine group lists joined in
/// that order.
#[verifier::external_body]
fn emoji_table() -> (r: Vec<EmojiEntry>)
    ensures
        entries_view(r@) == all_group_entries(),
{
    emojis::iter().map(|e| EmojiEntry { glyph: e.as_str().to_string(), name: e.name().to_string(), shortcodes: e.shortcodes().map(|s| s.to_string()).collect() }).collect()
}

/// The lowercase query handed to the search when the query is not ASCII.
pub open spec fn search_fallback(query: Seq<char>) -> Option<Seq<char>> {
    if vstd::utf8::is_ascii_chars(query) {
        None
    } else {
        Some(unicode_lowercase(query))
    }
}

/// An entry matches when its name or one of its shortcodes contains the
/// query, ignoring case.
pub open spec fn entry_matches(e: EmojiEntryView, query: Seq<char>) -> bool {
    ||| contains_ignore_ascii_case_spec(e.name, query, search_fallback(query))
    ||| exists|k: int|
        0 <= k < e.shortcodes.len() && contains_ignore_ascii_case_spec(
            #[trigger] e.shortcodes[k],
            query,
            search_fallback(query),
        )
}

/// The texts of the matching entries, in order.
pub open spec fn matching_glyphs(entries: Seq<EmojiEntryView>, query: Seq<char>) -> Seq<Seq<char>>
    decreases entries.len(),
{
    if entries.len() == 0 {
        Seq::empty()
    } else {
        let rest = matching_glyphs(entries.drop_last(), query);
        if entry_matches(entries.last(), query) {
            rest.push(entries.last().glyph)
        } else {
            rest
        }
    }
}

/// What a search shows: at most the first hundred matches.
pub open spec fn search_results(entries: Seq<EmojiEntryView>, query: Seq<char>) -> Seq<Seq<char>> {
    let m = matching_glyphs(entries, query);
    if m.len() <= SEARCH_LIMIT {
        m
    } else {
        m.take(SEARCH_LIMIT as int)
    }
}

/// The entries seen as values.
pub open spec fn entries_view(v: Seq<EmojiEntry>) -> Seq<EmojiEntryView> {
    v.map_values(|e: EmojiEntry| e@)
}

/// The matches of a longer list start with the matches of its prefix.
proof fn lemma_matching_prefix(entries: Seq<EmojiEntryView>, query: Seq<char>, i: int, j: int)
    requires
        0 <= i <= j <= entries.len(),
    ensures
        matching_glyphs(entries.take(i), query).len() <= matching_glyphs(entries.take(j), query).len(),
        matching_glyphs(entries.take(i), query) == matching_glyphs(entries.take(j), query).take(
            matching_glyphs(entries.take(i), query).len() as int,
        ),
    decreases j - i,
{
    if i < j {
        lemma_matching_prefix(entries, query, i, j - 1);
        assert(entries.take(j).drop_last() =~= entries.take(j - 1));
        let a = matching_glyphs(entries.take(i), query);
        let b = matching_glyphs(entries.take(j - 1), query);
        let c = matching_glyphs(entries.take(j), query);
        assert(c.take(b.len() as int) =~= b);
        assert(c.take(a.len() as int) =~= b.take(a.len() as int));
    } else {
        let a = matching_glyphs(entries.take(i), query);
        assert(a.take(a.len() as int) =~= a);
    }
}

/// Whether one entry matches the query (with the lowercase query when it is
/// not ASCII).
fn entry_matches_exec(e: &EmojiEntry, query: &str, fallback: Option<&str>) -> (r: bool)
    requires
        fallback matches Some(f) ==> f@ == unicode_lowercase(query@),
        (fallback is None) == vstd::utf8::is_ascii_chars(query@),
    ensures
        r == entry_matches(e@, query@),
{
    let ghost fb = match fallback {
        Some(f) => Some(f@),
        None => None,
    };
    assert(fb == search_fallback(query@));
    if contains_ignore_ascii_case(e.name.as_str(), query, fallback) {
        return true;
    }
    let mut k: usize = 0;
    while k < e.shortcodes.len()
        invariant
            k <= e.shortcodes@.len(),
            fb == search_fallback(query@),
            fallback matches Some(f) ==> fb == Some(f@),
            fallback is None ==> fb is None,
            forall|m: int|
                0 <= m < k ==> !contains_ignore_ascii_case_spec(
                    #[trigger] strs_view(e.shortcodes@)[m],
                    query@,
                    search_fallback(query@),
                ),
        decreases e.shortcodes@.len() - k,
    {
        if contains_ignore_ascii_case(e.shortcodes[k].as_str(), query, fallback) {
            assert(strs_view(e.shortcodes@)[k as int] == e.shortcodes@[k as int]@);
            assert(contains_ignore_ascii_case_spec(e@.shortcodes[k as int], query@, search_fallback(query@)));
            return true;
        }
        k = k + 1;
    }
    false
}

/// The first hundred entries that match a non-empty query, in order.
pub fn search_emojis(entries: &Vec<EmojiEntry>, query: &str) -> (r: Vec<String>)
    ensures
        strs_view(r@) == search_results(entries_view(entries@), query@),
{
    let fallback_owned = if query.is_ascii() {
        None
    } else {
        Some(str_to_lowercase(query))
    };
    let fallback: Option<&str> = match &fallback_owned {
        Some(f) => Some(f.as_str()),
        None => None,
    };
    let ghost ev = entries_view(entries@);
    let mut out: Vec<String> = Vec::new();
    let mut i: usize = 0;
    proof {
        if entries@.len() == 0 {
            assert(ev.take(0) =~= ev);
        }
    }
    while i < entries.len()
        invariant_except_break
            i <= entries@.len(),
            ev == entries_view(entries@),
            fallback matches Some(f) ==> f@ == unicode_lowercase(query@),
            (fallback is None) == vstd::utf8::is_ascii_chars(query@),
            strs_view(out@) == matching_glyphs(ev.take(i as int), query@),
            out@.len() < SEARCH_LIMIT,
            i == entries@.len() ==> strs_view(out@) == search_results(ev, query@),
        ensures
            strs_view(out@) == search_results(ev, query@),
        decreases entries@.len() - i,
    {
        let e = &entries[i];
        proof {
            assert(ev.take(i + 1).drop_last() =~= ev.take(i as int));
            assert(ev.take(i + 1).last() == entries@[i as int]@);
        }
        if entry_matches_exec(e, query, fallback) {
            out.push(e.glyph.clone());
            assert(strs_view(out@) =~= matching_glyphs(ev.take(i as int), query@).push(e.glyph@));
        }
        i = i + 1;
        if out.len() >= SEARCH_LIMIT {
            proof {
                lemma_matching_prefix(ev, query@, i as int, ev.len() as int);
                assert(ev.take(ev.len() as int) =~= ev);
            }
            break;
        }
        proof {
            if i == entries.len() {
                assert(ev.take(i as int) =~= ev);
            }
        }
    }
    out
}

/// What the picker shows for a query and a selected group: with no query,
/// the selected group's emojis (nothing when none is selected); else the
/// search results among `entries`, and whether there are none.
pub fn choose_emojis(entries: &Vec<EmojiEntry>, query: &str, group: Option<EmojiGroup>) -> (r: EmojiGrid)
    ensures
        query@.len() == 0 ==> !r.no_results && strs_view(r.emojis@) == match group {
            Some(g) => emojis_of_group(g),
            None => Seq::empty(),
        },
        query@.len() != 0 ==> strs_view(r.emojis@) == search_results(entries_view(entries@), query@)
            && r.no_results == (r.emojis@.len() == 0),
{
    if query.is_empty() {
        let emojis = match group {
            Some(g) => glyphs_of(&group_entries(g)),
            None => Vec::new(),
        };
        proof {
            if group is None {
                assert(strs_view(emojis@) =~= Seq::<Seq<char>>::empty());
            }
        }
        EmojiGrid { emojis, no_results: false }
    } else {
        let emojis = search_emojis(entries, query);
        let no_results = emojis.len() == 0;
        EmojiGrid { emojis, no_results }
    }
}

/// What the picker shows, searching every emoji group by group in the
/// picker's order (the order of the crate's table): as `choose_emojis`
/// over that table.
pub fn emoji_picker_grid(query: &str, group: Option<EmojiGroup>) -> (r: EmojiGrid)
    ensures
        query@.len() == 0 ==> !r.no_results && strs_view(r.emojis@) == match group {
            Some(g) => emojis_of_group(g),
            None => Seq::empty(),
        },
        query@.len() != 0 ==> strs_view(r.emojis@) == search_results(all_group_entries(), query@)
            && r.no_results == (r.emojis@.len() == 0),
{
    let table = emoji_table();
    choose_emojis(&table, query, group)
}

} // verus!
