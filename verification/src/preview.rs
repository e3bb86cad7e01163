//! Preview events: the small subset of a message's structure that the room
//! list preview and the composer preview render (headings, paragraphs, code
//! spans, line breaks and links), with bare `http://` / `https://` URLs in
//! plain text turned into links.
use vstd::prelude::*;
use pulldown_cmark::{Event, Options, Parser, Tag, TagEnd};
use pulldown_cmark::Event::{End, Start};
use crate::text::{chars_of, string_from_chars, occurs_at, occurs_at_exec};

verus! {

/// One element of a rendered preview.
#[derive(Clone, Debug, PartialEq)]
pub enum PreviewEvent {
    StartHeading,
    EndBlock,
    Text(String),
    Code(String),
    Break,
    StartLink(String),
    EndLink,
}

/// A preview event with its text as a sequence of characters.
pub enum PreviewEventView {
    StartHeading,
    EndBlock,
    Text(Seq<char>),
    Code(Seq<char>),
    Break,
    StartLink(Seq<char>),
    EndLink,
}

impl View for PreviewEvent {
    type V = PreviewEventView;

    open spec fn view(&self) -> PreviewEventView {
        match self {
            PreviewEvent::StartHeading => PreviewEventView::StartHeading,
            PreviewEvent::EndBlock => PreviewEventView::EndBlock,
            PreviewEvent::Text(s) => PreviewEventView::Text(s@),
            PreviewEvent::Code(s) => PreviewEventView::Code(s@),
            PreviewEvent::Break => PreviewEventView::Break,
            PreviewEvent::StartLink(s) => PreviewEventView::StartLink(s@),
            PreviewEvent::EndLink => PreviewEventView::EndLink,
        }
    }
}

/// The views of a sequence of preview events.
pub open spec fn events_view(s: Seq<PreviewEvent>) -> Seq<PreviewEventView> {
    s.map_values(|e: PreviewEvent| e@)
}

pub open spec fn http_prefix() -> Seq<char> {
    seq!['h', 't', 't', 'p', ':', '/', '/']
}

pub open spec fn https_prefix() -> Seq<char> {
    seq!['h', 't', 't', 'p', 's', ':', '/', '/']
}

/// ASCII whitespace as `u8::is_ascii_whitespace` defines it.
pub open spec fn is_ascii_ws(c: char) -> bool {
    c == ' ' || c == '\t' || c == '\n' || c == '\x0C' || c == '\r'
}

/// Characters that are trimmed from the end of a detected URL.
pub open spec fn is_url_trailer(c: char) -> bool {
    c == '.' || c == ',' || c == '?' || c == '!' || c == ':' || c == ';' || c == ')' || c == ']'
        || c == '>'
}

/// The first position at or after `i` where `p` occurs in `t`.
pub open spec fn first_occurrence(t: Seq<char>, p: Seq<char>, i: int) -> Option<int>
    decreases t.len() + 1 - i,
{
    if i < 0 || i > t.len() || i + p.len() > t.len() {
        None
    } else if occurs_at(t, p, i) {
        Some(i)
    } else {
        first_occurrence(t, p, i + 1)
    }
}

/// Where the next URL starts at or after `cur`: the first `http://` if there
/// is one, else the first `https://`.
pub open spec fn url_start(t: Seq<char>, cur: int) -> Option<int> {
    match first_occurrence(t, http_prefix(), cur) {
        Some(i) => Some(i),
        None => first_occurrence(t, https_prefix(), cur),
    }
}

/// The first ASCII whitespace at or after `i`, or the end of `t`.
pub open spec fn url_scan_end(t: Seq<char>, i: int) -> int
    decreases t.len() - i,
{
    if i >= t.len() || i < 0 {
        t.len() as int
    } else if is_ascii_ws(t[i]) {
        i
    } else {
        url_scan_end(t, i + 1)
    }
}

/// `end` moved back over trailing punctuation, but not before `start`.
pub open spec fn url_trim_end(t: Seq<char>, start: int, end: int) -> int
    decreases end - start,
{
    if end > start && is_url_trailer(t[end - 1]) {
        url_trim_end(t, start, end - 1)
    } else {
        end
    }
}

/// The end of the URL that starts at `s`.
pub open spec fn url_end(t: Seq<char>, s: int) -> int {
    url_trim_end(t, s, url_scan_end(t, s))
}

pub proof fn lemma_first_occurrence(t: Seq<char>, p: Seq<char>, i: int)
    requires
        0 <= i,
    ensures
        first_occurrence(t, p, i) matches Some(k) ==> i <= k && occurs_at(t, p, k),
        first_occurrence(t, p, i) matches Some(k) ==> forall|j: int|
            i <= j < k ==> !occurs_at(t, p, j),
        first_occurrence(t, p, i) is None ==> forall|j: int| i <= j ==> !occurs_at(t, p, j),
    decreases t.len() + 1 - i,
{
    if i > t.len() || i + p.len() > t.len() {
        assert forall|j: int| i <= j implies !occurs_at(t, p, j) by {}
    } else if occurs_at(t, p, i) {
    } else {
        lemma_first_occurrence(t, p, i + 1);
    }
}

pub proof fn lemma_url_scan_end(t: Seq<char>, i: int)
    requires
        0 <= i <= t.len(),
    ensures
        i <= url_scan_end(t, i) <= t.len(),
        i < t.len() && !is_ascii_ws(t[i]) ==> url_scan_end(t, i) > i,
        forall|j: int| i <= j < url_scan_end(t, i) ==> !is_ascii_ws(#[trigger] t[j]),
        url_scan_end(t, i) < t.len() ==> is_ascii_ws(t[url_scan_end(t, i)]),
    decreases t.len() - i,
{
    if i < t.len() && !is_ascii_ws(t[i]) {
        lemma_url_scan_end(t, i + 1);
    }
}

pub proof fn lemma_url_trim_end(t: Seq<char>, start: int, end: int)
    requires
        start <= end,
    ensures
        start <= url_trim_end(t, start, end) <= end,
        end > start && !is_url_trailer(t[start]) ==> url_trim_end(t, start, end) > start,
    decreases end - start,
{
    if end > start && is_url_trailer(t[end - 1]) {
        lemma_url_trim_end(t, start, end - 1);
    }
}

/// Facts about where a URL found at or after `cur` starts and ends.
pub proof fn lemma_url_bounds(t: Seq<char>, cur: int)
    requires
        0 <= cur < t.len(),
    ensures
        url_start(t, cur) matches Some(s) ==> cur <= s < url_end(t, s) <= t.len(),
{
    lemma_first_occurrence(t, http_prefix(), cur);
    lemma_first_occurrence(t, https_prefix(), cur);
    if let Some(s) = url_start(t, cur) {
        let p = if first_occurrence(t, http_prefix(), cur) is Some {
            http_prefix()
        } else {
            https_prefix()
        };
        assert(occurs_at(t, p, s));
        assert(t.subrange(s, s + p.len())[0] == 'h');
        assert(t[s] == 'h');
        lemma_url_scan_end(t, s);
        lemma_url_trim_end(t, s, url_scan_end(t, s));
    }
}

/// The events that plain text `t` yields from position `cur` on: text runs,
/// and each URL as a link whose text is the URL itself.
pub open spec fn split_from(t: Seq<char>, cur: int) -> Seq<PreviewEventView>
    decreases t.len() - cur,
{
    if cur < 0 || cur >= t.len() {
        seq![]
    } else {
        match url_start(t, cur) {
            None => seq![PreviewEventView::Text(t.subrange(cur, t.len() as int))],
            Some(s) => {
                let e = url_end(t, s);
                let before = if s > cur {
                    seq![PreviewEventView::Text(t.subrange(cur, s))]
                } else {
                    seq![]
                };
                let link = if e > s {
                    seq![
                        PreviewEventView::StartLink(t.subrange(s, e)),
                        PreviewEventView::Text(t.subrange(s, e)),
                        PreviewEventView::EndLink,
                    ]
                } else {
                    seq![]
                };
                proof {
                    lemma_url_bounds(t, cur);
                }
                before + link + split_from(t, e)
            },
        }
    }
}


/// The first position at or after `from` where `p` occurs in `t`.
fn find_from(t: &Vec<char>, p: &Vec<char>, from: usize) -> (r: Option<usize>)
    requires
        from <= t@.len(),
    ensures
        r matches Some(k) ==> first_occurrence(t@, p@, from as int) == Some(k as int),
        r is None ==> first_occurrence(t@, p@, from as int) is None,
{
    if p.len() > t.len() {
        return None;
    }
    let last = t.len() - p.len();
    let mut i = from;
    while i <= last
        invariant
            last + p@.len() == t@.len(),
            from <= i,
            i <= t@.len(),
            first_occurrence(t@, p@, from as int) == first_occurrence(t@, p@, i as int),
        decreases last + 1 - i,
    {
        if occurs_at_exec(t, p, i) {
            return Some(i);
        }
        if i == last {
            return None;
        }
        i = i + 1;
    }
    None
}

fn url_start_exec(t: &Vec<char>, cur: usize) -> (r: Option<usize>)
    requires
        cur <= t@.len(),
    ensures
        r matches Some(k) ==> url_start(t@, cur as int) == Some(k as int),
        r is None ==> url_start(t@, cur as int) is None,
{
    let http = vec!['h', 't', 't', 'p', ':', '/', '/'];
    assert(http@ =~= http_prefix());
    match find_from(t, &http, cur) {
        Some(k) => Some(k),
        None => {
            let https = vec!['h', 't', 't', 'p', 's', ':', '/', '/'];
            assert(https@ =~= https_prefix());
            find_from(t, &https, cur)
        },
    }
}

fn is_ascii_ws_exec(c: char) -> (r: bool)
    ensures
        r == is_ascii_ws(c),
{
    c == ' ' || c == '\t' || c == '\n' || c == '\x0C' || c == '\r'
}

fn is_url_trailer_exec(c: char) -> (r: bool)
    ensures
        r == is_url_trailer(c),
{
    c == '.' || c == ',' || c == '?' || c == '!' || c == ':' || c == ';' || c == ')' || c == ']'
        || c == '>'
}

fn url_end_exec(t: &Vec<char>, s: usize) -> (r: usize)
    requires
        s <= t@.len(),
    ensures
        r == url_end(t@, s as int),
{
    let mut e = s;
    while e < t.len()
        invariant
            s <= e <= t@.len(),
            url_scan_end(t@, s as int) == url_scan_end(t@, e as int),
        ensures
            s <= e <= t@.len(),
            url_scan_end(t@, s as int) == url_scan_end(t@, e as int),
            e < t@.len() ==> is_ascii_ws(t@[e as int]),
        decreases t@.len() - e,
    {
        if is_ascii_ws_exec(t[e]) {
            break;
        }
        e = e + 1;
    }
    assert(url_scan_end(t@, e as int) == e);
    while e > s
        invariant
            s <= e <= t@.len(),
            url_end(t@, s as int) == url_trim_end(t@, s as int, e as int),
        ensures
            s <= e <= t@.len(),
            url_end(t@, s as int) == url_trim_end(t@, s as int, e as int),
            e > s ==> !is_url_trailer(t@[e - 1]),
        decreases e - s,
    {
        if is_url_trailer_exec(t[e - 1]) {
            e = e - 1;
        } else {
            break;
        }
    }
    e
}

/// Appends to `events` the preview of plain text: text runs, with each
/// `http://` or `https://` URL (up to whitespace, without trailing
/// punctuation) as a link whose text is the URL.
pub fn split_text_by_urls(text: &str, events: &mut Vec<PreviewEvent>)
    ensures
        events_view(final(events)@) == events_view(old(events)@) + split_from(text@, 0),
{
    let t = chars_of(text);
    let n = t.len();
    let mut cur: usize = 0;
    while cur < n
        invariant
            t@ == text@,
            n == t@.len(),
            cur <= n,
            events_view(events@) + split_from(t@, cur as int) == events_view(old(events)@)
                + split_from(t@, 0),
        decreases n - cur,
    {
        let ghost before = events@;
        proof {
            lemma_url_bounds(t@, cur as int);
        }
        match url_start_exec(&t, cur) {
            Some(start) => {
                if start > cur {
                    events.push(PreviewEvent::Text(string_from_chars(&t.as_slice()[cur..start])));
                }
                let end = url_end_exec(&t, start);
                if end > start {
                    let url = string_from_chars(&t.as_slice()[start..end]);
                    let url_text = string_from_chars(&t.as_slice()[start..end]);
                    events.push(PreviewEvent::StartLink(url));
                    events.push(PreviewEvent::Text(url_text));
                    events.push(PreviewEvent::EndLink);
                }
                assert(events_view(events@) + split_from(t@, end as int) =~= events_view(before)
                    + split_from(t@, cur as int));
                cur = end;
            },
            None => {
                events.push(PreviewEvent::Text(string_from_chars(&t.as_slice()[cur..n])));
                assert(events_view(events@) + split_from(t@, n as int) =~= events_view(before)
                    + split_from(t@, cur as int));
                cur = n;
            },
        }
    }
}

/// The characters that the text events of a preview show, in order.
pub open spec fn shown_text(evs: Seq<PreviewEventView>) -> Seq<char>
    decreases evs.len(),
{
    if evs.len() == 0 {
        Seq::empty()
    } else {
        shown_text(evs.drop_last()) + match evs.last() {
            PreviewEventView::Text(x) => x,
            _ => Seq::empty(),
        }
    }
}

proof fn lemma_shown_text_concat(a: Seq<PreviewEventView>, b: Seq<PreviewEventView>)
    ensures
        shown_text(a + b) == shown_text(a) + shown_text(b),
    decreases b.len(),
{
    if b.len() == 0 {
        assert(a + b =~= a);
        assert(shown_text(a) + Seq::<char>::empty() =~= shown_text(a));
    } else {
        lemma_shown_text_concat(a, b.drop_last());
        assert((a + b).drop_last() =~= a + b.drop_last());
        assert((a + b).last() == b.last());
        let tail = match b.last() {
            PreviewEventView::Text(x) => x,
            _ => Seq::<char>::empty(),
        };
        assert(shown_text(a) + shown_text(b.drop_last()) + tail =~= shown_text(a) + (shown_text(b.drop_last()) + tail));
    }
}

#[verifier::spinoff_prover]
#[verifier::rlimit(30)]
proof fn lemma_split_from_text(t: Seq<char>, cur: int)
    requires
        0 <= cur <= t.len(),
    ensures
        shown_text(split_from(t, cur)) == t.subrange(cur, t.len() as int),
    decreases t.len() - cur,
{
    if cur == t.len() {
        assert(t.subrange(cur, t.len() as int) =~= Seq::<char>::empty());
    } else {
        lemma_url_bounds(t, cur);
        match url_start(t, cur) {
            None => {
                let only = seq![PreviewEventView::Text(t.subrange(cur, t.len() as int))];
                assert(only.drop_last() =~= Seq::<PreviewEventView>::empty());
                reveal_with_fuel(shown_text, 2);
                assert(shown_text(only) =~= t.subrange(cur, t.len() as int));
            },
            Some(st) => {
                let e = url_end(t, st);
                lemma_split_from_text(t, e);
                let before = if st > cur {
                    seq![PreviewEventView::Text(t.subrange(cur, st))]
                } else {
                    seq![]
                };
                let link = seq![
                    PreviewEventView::StartLink(t.subrange(st, e)),
                    PreviewEventView::Text(t.subrange(st, e)),
                    PreviewEventView::EndLink,
                ];
                assert(split_from(t, cur) == before + link + split_from(t, e));
                lemma_shown_text_concat(before + link, split_from(t, e));
                lemma_shown_text_concat(before, link);
                if st > cur {
                    assert(before.drop_last() =~= Seq::<PreviewEventView>::empty());
                    reveal_with_fuel(shown_text, 2);
                    assert(shown_text(before) =~= t.subrange(cur, st));
                } else {
                    assert(shown_text(before) =~= t.subrange(cur, st));
                }
                assert(shown_text(link) =~= t.subrange(st, e)) by {
                    reveal_with_fuel(shown_text, 4);
                    assert(link.drop_last().drop_last().drop_last() =~= Seq::<PreviewEventView>::empty());
                    assert(link.drop_last().drop_last() =~= seq![PreviewEventView::StartLink(t.subrange(st, e))]);
                    assert(link.drop_last() =~= seq![
                        PreviewEventView::StartLink(t.subrange(st, e)),
                        PreviewEventView::Text(t.subrange(st, e)),
                    ]);
                    assert(Seq::<char>::empty() + t.subrange(st, e) + Seq::<char>::empty() =~= t.subrange(st, e));
                }
                assert(t.subrange(cur, st) + t.subrange(st, e) + t.subrange(e, t.len() as int) =~= t.subrange(
                    cur,
                    t.len() as int,
                ));
            },
        }
    }
}

/// Plain text loses nothing in its preview: the texts of the events that
/// `parse_plain_text` yields, read in order, are the text itself.
pub proof fn law_plain_text_lossless(t: Seq<char>)
    ensures
        shown_text(split_from(t, 0)) == t,
{
    lemma_split_from_text(t, 0);
    assert(t.subrange(0, t.len() as int) =~= t);
}

/// Each link of a plain-text preview shows its own address.
pub proof fn law_plain_text_links_show_their_target(t: Seq<char>, cur: int, i: int)
    requires
        0 <= cur <= t.len(),
        0 <= i < split_from(t, cur).len(),
        split_from(t, cur)[i] is StartLink,
    ensures
        i + 2 < split_from(t, cur).len(),
        split_from(t, cur)[i + 1] == PreviewEventView::Text(split_from(t, cur)[i]->StartLink_0),
        split_from(t, cur)[i + 2] == PreviewEventView::EndLink,
    decreases t.len() - cur,
{
    if cur < t.len() {
        lemma_url_bounds(t, cur);
        match url_start(t, cur) {
            None => {},
            Some(st) => {
                let e = url_end(t, st);
                let before = if st > cur {
                    seq![PreviewEventView::Text(t.subrange(cur, st))]
                } else {
                    seq![]
                };
                let link = seq![
                    PreviewEventView::StartLink(t.subrange(st, e)),
                    PreviewEventView::Text(t.subrange(st, e)),
                    PreviewEventView::EndLink,
                ];
                let rest = split_from(t, e);
                assert(split_from(t, cur) == before + link + rest);
                let k = i - before.len() - 3;
                if i >= before.len() + 3 {
                    assert(split_from(t, cur)[i] == rest[k]);
                    law_plain_text_links_show_their_target(t, e, k);
                    assert(split_from(t, cur)[i + 1] == rest[k + 1]);
                    assert(split_from(t, cur)[i + 2] == rest[k + 2]);
                } else {
                    assert(i == before.len());
                }
            },
        }
    }
}

/// The preview of plain text: its runs of text and its bare URLs as links.
pub fn parse_plain_text(text: &str) -> (events: Vec<PreviewEvent>)
    ensures
        events_view(events@) == split_from(text@, 0),
{
    let mut events = Vec::new();
    split_text_by_urls(text, &mut events);
    assert(events_view(Seq::<PreviewEvent>::empty()) =~= Seq::<PreviewEventView>::empty());
    events
}


/// The markdown parser's events that the preview distinguishes; every other
/// event is `Other`.
pub enum MdEvent {
    StartBlockQuote,
    EndBlockQuote,
    StartHeading,
    StartLink(String),
    EndLink,
    EndParagraph,
    EndHeading,
    Text(String),
    Code(String),
    SoftBreak,
    HardBreak,
    Other,
}

pub enum MdEventView {
    StartBlockQuote,
    EndBlockQuote,
    StartHeading,
    StartLink(Seq<char>),
    EndLink,
    EndParagraph,
    EndHeading,
    Text(Seq<char>),
    Code(Seq<char>),
    SoftBreak,
    HardBreak,
    Other,
}

impl View for MdEvent {
    type V = MdEventView;

    open spec fn view(&self) -> MdEventView {
        match self {
            MdEvent::StartBlockQuote => MdEventView::StartBlockQuote,
            MdEvent::EndBlockQuote => MdEventView::EndBlockQuote,
            MdEvent::StartHeading => MdEventView::StartHeading,
            MdEvent::StartLink(s) => MdEventView::StartLink(s@),
            MdEvent::EndLink => MdEventView::EndLink,
            MdEvent::EndParagraph => MdEventView::EndParagraph,
            MdEvent::EndHeading => MdEventView::EndHeading,
            MdEvent::Text(s) => MdEventView::Text(s@),
            MdEvent::Code(s) => MdEventView::Code(s@),
            MdEvent::SoftBreak => MdEventView::SoftBreak,
            MdEvent::HardBreak => MdEventView::HardBreak,
            MdEvent::Other => MdEventView::Other,
        }
    }
}

pub open spec fn md_events_view(s: Seq<MdEvent>) -> Seq<MdEventView> {
    s.map_values(|e: MdEvent| e@)
}

/// The events that pulldown-cmark's parser yields for `text` with
/// strikethrough and task lists enabled, each reduced to an `MdEvent`.
pub uninterp spec fn commonmark_events(text: Seq<char>) -> Seq<MdEventView>;

/// The HTML that pulldown-cmark renders for `text` with strikethrough enabled.
pub uninterp spec fn commonmark_html(text: Seq<char>) -> Seq<char>;

/// Runs `pulldown_cmark::Parser::new_ext` (strikethrough and task lists) on
/// `text` and tells its events apart; the result depends on `text` alone.
#[verifier::external_body]
fn markdown_events(text: &str) -> (events: Vec<MdEvent>)
    ensures
        md_events_view(events@) == commonmark_events(text@),
{
    Parser::new_ext(text, Options::ENABLE_STRIKETHROUGH | Options::ENABLE_TASKLISTS).map(|e| match e {
        Start(Tag::BlockQuote(_)) => MdEvent::StartBlockQuote,
        End(TagEnd::BlockQuote(_)) => MdEvent::EndBlockQuote,
        Start(Tag::Heading { .. }) => MdEvent::StartHeading,
        Start(Tag::Link { dest_url, .. }) => MdEvent::StartLink(dest_url.to_string()),
        End(TagEnd::Link) => MdEvent::EndLink,
        End(TagEnd::Paragraph) => MdEvent::EndParagraph,
        End(TagEnd::Heading(_)) => MdEvent::EndHeading,
        Event::Text(t) => MdEvent::Text(t.to_string()),
        Event::Code(c) => MdEvent::Code(c.to_string()),
        Event::SoftBreak => MdEvent::SoftBreak,
        Event::HardBreak => MdEvent::HardBreak,
        _ => MdEvent::Other,
    }).collect()
}

/// Renders markdown to HTML with pulldown-cmark (`Parser::new_ext` with
/// strikethrough, then `html::push_html`); the result depends on `markdown`
/// alone.
#[verifier::external_body]
pub fn markdown_to_html(markdown: &str) -> (html: String)
    ensures
        html@ == commonmark_html(markdown@),
{
    let mut html_output = String::new();
    pulldown_cmark::html::push_html(&mut html_output, Parser::new_ext(markdown, Options::ENABLE_STRIKETHROUGH));
    html_output
}

/// The state of the preview while reading markdown events: how deep inside
/// block quotes, whether the first block quote is still open or not reached,
/// and how deep inside links.
pub type MdState = (nat, bool, nat);

/// One markdown event: the new state and the preview events it yields.
pub open spec fn md_step(st: MdState, e: MdEventView, skip_first_blockquote: bool) -> (
    MdState,
    Seq<PreviewEventView>,
) {
    let (bq, first, link) = st;
    match e {
        MdEventView::StartBlockQuote => ((bq + 1, first, link), seq![]),
        MdEventView::EndBlockQuote => {
            if bq > 0 {
                let nb = (bq - 1) as nat;
                ((nb, if nb == 0 { false } else { first }, link), seq![])
            } else {
                (st, seq![])
            }
        },
        _ => {
            if bq > 0 && skip_first_blockquote && first {
                (st, seq![])
            } else {
                match e {
                    MdEventView::StartHeading => (st, seq![PreviewEventView::StartHeading]),
                    MdEventView::StartLink(u) => ((bq, first, link + 1), seq![PreviewEventView::StartLink(u)]),
                    MdEventView::EndLink => (
                        (bq, first, if link > 0 { (link - 1) as nat } else { 0 }),
                        seq![PreviewEventView::EndLink],
                    ),
                    MdEventView::EndParagraph => (st, seq![PreviewEventView::EndBlock]),
                    MdEventView::EndHeading => (st, seq![PreviewEventView::EndBlock]),
                    MdEventView::Text(t) => (
                        st,
                        if link > 0 {
                            seq![PreviewEventView::Text(t)]
                        } else {
                            split_from(t, 0)
                        },
                    ),
                    MdEventView::Code(c) => (st, seq![PreviewEventView::Code(c)]),
                    MdEventView::SoftBreak => (st, seq![PreviewEventView::Break]),
                    MdEventView::HardBreak => (st, seq![PreviewEventView::Break]),
                    _ => (st, seq![]),
                }
            }
        },
    }
}

/// The state after, and the preview yielded by, a sequence of markdown events.
pub open spec fn md_run(evs: Seq<MdEventView>, skip_first_blockquote: bool) -> (
    MdState,
    Seq<PreviewEventView>,
)
    decreases evs.len(),
{
    if evs.len() == 0 {
        ((0nat, true, 0nat), seq![])
    } else {
        let (st, out) = md_run(evs.drop_last(), skip_first_blockquote);
        let (st2, more) = md_step(st, evs.last(), skip_first_blockquote);
        (st2, out + more)
    }
}

/// How many markdown links start among `evs`.
pub open spec fn link_starts(evs: Seq<MdEventView>) -> nat
    decreases evs.len(),
{
    if evs.len() == 0 {
        0
    } else {
        link_starts(evs.drop_last()) + if evs.last() is StartLink {
            1nat
        } else {
            0nat
        }
    }
}

/// How many markdown links end among `evs`.
pub open spec fn link_ends(evs: Seq<MdEventView>) -> nat
    decreases evs.len(),
{
    if evs.len() == 0 {
        0
    } else {
        link_ends(evs.drop_last()) + if evs.last() is EndLink {
            1nat
        } else {
            0nat
        }
    }
}

/// No link ends that has not started: in every prefix of `evs`, at most as
/// many links end as start.
pub open spec fn links_nested(evs: Seq<MdEventView>) -> bool {
    forall|m: int| 0 <= m <= evs.len() ==> link_ends(#[trigger] evs.take(m)) <= link_starts(evs.take(m))
}

/// Without skipping a quoted reply, the preview is inside as many links as
/// have started and not yet ended.
proof fn lemma_link_depth(evs: Seq<MdEventView>)
    requires
        links_nested(evs),
    ensures
        md_run(evs, false).0.2 == link_starts(evs) - link_ends(evs),
    decreases evs.len(),
{
    if evs.len() > 0 {
        let d = evs.drop_last();
        assert forall|m: int| 0 <= m <= d.len() implies link_ends(#[trigger] d.take(m)) <= link_starts(d.take(m)) by {
            assert(d.take(m) =~= evs.take(m));
        }
        lemma_link_depth(d);
        assert(evs.take(evs.len() as int) =~= evs);
    }
}

/// Text that stands outside every markdown link (each link that started
/// before it has ended) is previewed as plain text is: its bare URLs become
/// links, exactly as `parse_plain_text` shows that text.
pub proof fn law_text_outside_links_is_linkified(evs: Seq<MdEventView>, k: int)
    requires
        0 <= k < evs.len(),
        evs[k] is Text,
        links_nested(evs.take(k)),
        link_starts(evs.take(k)) == link_ends(evs.take(k)),
    ensures
        md_run(evs.take(k + 1), false).1 == md_run(evs.take(k), false).1 + split_from(evs[k]->Text_0, 0),
{
    lemma_link_depth(evs.take(k));
    assert(evs.take(k + 1).drop_last() =~= evs.take(k));
    assert(evs.take(k + 1).last() == evs[k]);
}

/// Text inside a markdown link (more links started than ended before it)
/// is previewed as it is, without looking for URLs in it.
pub proof fn law_text_inside_links_is_kept(evs: Seq<MdEventView>, k: int)
    requires
        0 <= k < evs.len(),
        evs[k] is Text,
        links_nested(evs.take(k)),
        link_starts(evs.take(k)) > link_ends(evs.take(k)),
    ensures
        md_run(evs.take(k + 1), false).1 == md_run(evs.take(k), false).1.push(
            PreviewEventView::Text(evs[k]->Text_0),
        ),
{
    lemma_link_depth(evs.take(k));
    assert(evs.take(k + 1).drop_last() =~= evs.take(k));
    assert(evs.take(k + 1).last() == evs[k]);
    assert(seq![PreviewEventView::Text(evs[k]->Text_0)] =~= seq![PreviewEventView::Text(evs[k]->Text_0)]);
}

/// The preview of a sequence of markdown events: headings, paragraph and
/// heading ends, text (with bare URLs as links outside links), inline code
/// and line breaks; with `skip_first_blockquote`, everything inside the
/// first top-level block quote (a reply's quoted fallback) is left out.
pub fn preview_events(events: &Vec<MdEvent>, skip_first_blockquote: bool) -> (out: Vec<PreviewEvent>)
    ensures
        events_view(out@) == md_run(md_events_view(events@), skip_first_blockquote).1,
{
    let mut out: Vec<PreviewEvent> = Vec::new();
    let mut in_blockquote: usize = 0;
    let mut is_first_blockquote = true;
    let mut in_link: usize = 0;
    let mut i: usize = 0;
    while i < events.len()
        invariant
            i <= events@.len(),
            in_blockquote <= i,
            in_link <= i,
            md_run(md_events_view(events@).take(i as int), skip_first_blockquote) == (
                (in_blockquote as nat, is_first_blockquote, in_link as nat),
                events_view(out@),
            ),
        decreases events@.len() - i,
    {
        let ghost prev = out@;
        let ghost evs = md_events_view(events@);
        assert(evs.take(i + 1).drop_last() =~= evs.take(i as int));
        assert(evs.take(i + 1).last() == events@[i as int]@);
        match &events[i] {
            MdEvent::StartBlockQuote => {
                in_blockquote = in_blockquote + 1;
            },
            MdEvent::EndBlockQuote => {
                if in_blockquote > 0 {
                    in_blockquote = in_blockquote - 1;
                    if in_blockquote == 0 {
                        is_first_blockquote = false;
                    }
                }
            },
            other => {
                if in_blockquote > 0 && skip_first_blockquote && is_first_blockquote {
                } else {
                    match other {
                        MdEvent::StartHeading => {
                            out.push(PreviewEvent::StartHeading);
                        },
                        MdEvent::StartLink(u) => {
                            in_link = in_link + 1;
                            out.push(PreviewEvent::StartLink(u.clone()));
                        },
                        MdEvent::EndLink => {
                            if in_link > 0 {
                                in_link = in_link - 1;
                            }
                            out.push(PreviewEvent::EndLink);
                        },
                        MdEvent::EndParagraph => {
                            out.push(PreviewEvent::EndBlock);
                        },
                        MdEvent::EndHeading => {
                            out.push(PreviewEvent::EndBlock);
                        },
                        MdEvent::Text(t) => {
                            if in_link > 0 {
                                out.push(PreviewEvent::Text(t.clone()));
                            } else {
                                split_text_by_urls(t.as_str(), &mut out);
                            }
                        },
                        MdEvent::Code(c) => {
                            out.push(PreviewEvent::Code(c.clone()));
                        },
                        MdEvent::SoftBreak => {
                            out.push(PreviewEvent::Break);
                        },
                        MdEvent::HardBreak => {
                            out.push(PreviewEvent::Break);
                        },
                        _ => {},
                    }
                }
            },
        }
        assert(events_view(out@) =~= events_view(prev) + md_step(
            md_run(evs.take(i as int), skip_first_blockquote).0,
            evs.take(i + 1).last(),
            skip_first_blockquote,
        ).1);
        i = i + 1;
    }
    assert(md_events_view(events@).take(events@.len() as int) =~= md_events_view(events@));
    out
}

/// The preview of a message written in markdown. With
/// `skip_first_blockquote` (a reply), the quoted fallback in the first block
/// quote is left out.
pub fn parse_markdown(text: &str, skip_first_blockquote: bool) -> (events: Vec<PreviewEvent>)
    ensures
        events_view(events@) == md_run(commonmark_events(text@), skip_first_blockquote).1,
{
    let md = markdown_events(text);
    preview_events(&md, skip_first_blockquote)
}

} // verus!
