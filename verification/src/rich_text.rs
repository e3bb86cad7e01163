//! Laying out a preview as styled text: the runs of text with their style,
//! and the byte ranges of the links, for the selectable rich-text widget.
use vstd::prelude::*;
use crate::preview::{PreviewEvent, PreviewEventView, events_view};
use crate::text::str_eq;
use vstd::utf8::encode_utf8;

verus! {

/// How a run of text is drawn.
#[derive(Debug, Clone, Copy, PartialEq, Eq, Structural)]
pub struct SpanStyle {
    /// In a heading.
    pub bold: bool,
    /// In a link (drawn in the link colour).
    pub link: bool,
    /// Code.
    pub monospace: bool,
}

/// The bytes `start..end` of the laid-out text belong to a link to `url`.
pub struct LinkRange {
    pub start: usize,
    pub end: usize,
    pub url: String,
}

/// A preview laid out as text.
pub struct RichContent {
    pub links: Vec<LinkRange>,
    pub spans: Vec<(String, SpanStyle)>,
}

/// Where the layout stands after some events.
pub struct Layout {
    pub link: Option<Seq<char>>,
    pub heading: bool,
    /// Bytes laid out so far.
    pub pos: int,
    pub links: Seq<(int, int, Seq<char>)>,
    pub spans: Seq<(Seq<char>, SpanStyle)>,
}

/// The plain style.
pub open spec fn plain() -> SpanStyle {
    SpanStyle { bold: false, link: false, monospace: false }
}

/// The layout before any event.
pub open spec fn layout_start() -> Layout {
    Layout { link: None, heading: false, pos: 0, links: Seq::empty(), spans: Seq::empty() }
}

/// One event laid out: a block end or a break is a newline (a block end
/// also ends any heading or link); text takes the heading's and the link's
/// style and, in a link, records the link's byte range; code is monospace.
pub open spec fn layout_step(st: Layout, e: PreviewEventView) -> Layout {
    match e {
        PreviewEventView::StartHeading => Layout { heading: true, ..st },
        PreviewEventView::EndBlock => Layout {
            heading: false,
            link: None,
            spans: st.spans.push((seq!['\n'], plain())),
            pos: st.pos + 1,
            ..st
        },
        PreviewEventView::StartLink(url) => Layout { link: Some(url), ..st },
        PreviewEventView::EndLink => Layout { link: None, ..st },
        PreviewEventView::Text(t) => {
            let end = st.pos + encode_utf8(t).len();
            Layout {
                pos: end,
                links: match st.link {
                    Some(url) => st.links.push((st.pos, end, url)),
                    None => st.links,
                },
                spans: st.spans.push(
                    (t, SpanStyle { bold: st.heading, link: st.link is Some, monospace: false }),
                ),
                ..st
            }
        },
        PreviewEventView::Code(c) => Layout {
            pos: st.pos + encode_utf8(c).len(),
            spans: st.spans.push((c, SpanStyle { bold: false, link: false, monospace: true })),
            ..st
        },
        PreviewEventView::Break => Layout {
            pos: st.pos + 1,
            spans: st.spans.push((seq!['\n'], plain())),
            ..st
        },
    }
}

/// The layout after a sequence of events.
pub open spec fn layout_run(evs: Seq<PreviewEventView>) -> Layout
    decreases evs.len(),
{
    if evs.len() == 0 {
        layout_start()
    } else {
        layout_step(layout_run(evs.drop_last()), evs.last())
    }
}

/// The spans without a last span that is a lone newline.
pub open spec fn without_trailing_newline(spans: Seq<(Seq<char>, SpanStyle)>) -> Seq<(Seq<char>, SpanStyle)> {
    if spans.len() > 0 && spans.last().0 == seq!['\n'] {
        spans.drop_last()
    } else {
        spans
    }
}

/// The spans seen as values.
pub open spec fn spans_view(v: Seq<(String, SpanStyle)>) -> Seq<(Seq<char>, SpanStyle)> {
    v.map_values(|p: (String, SpanStyle)| (p.0@, p.1))
}

/// The link ranges seen as values.
pub open spec fn links_view(v: Seq<LinkRange>) -> Seq<(int, int, Seq<char>)> {
    v.map_values(|l: LinkRange| (l.start as int, l.end as int, l.url@))
}

proof fn lemma_layout_pos_grows(evs: Seq<PreviewEventView>, i: int)
    requires
        0 <= i <= evs.len(),
    ensures
        0 <= layout_run(evs.take(i)).pos <= layout_run(evs).pos,
    decreases evs.len() - i,
{
    if i < evs.len() {
        lemma_layout_pos_grows(evs, i + 1);
        assert(evs.take(i + 1).drop_last() =~= evs.take(i));
    } else {
        assert(evs.take(i) =~= evs);
    }
    if i > 0 {
        lemma_layout_pos_nonneg(evs.take(i));
    }
}

proof fn lemma_layout_pos_nonneg(evs: Seq<PreviewEventView>)
    ensures
        layout_run(evs).pos >= 0,
    decreases evs.len(),
{
    if evs.len() > 0 {
        lemma_layout_pos_nonneg(evs.drop_last());
    }
}

/// After a link's end, the layout is outside any link until the next link
/// starts.
proof fn lemma_no_link_after_end(evs: Seq<PreviewEventView>, j: int, m: int)
    requires
        0 <= j < m <= evs.len(),
        evs[j] is EndLink,
        forall|x: int| j < x < m ==> !(#[trigger] evs[x] is StartLink),
    ensures
        layout_run(evs.take(m)).link is None,
    decreases m - j,
{
    assert(evs.take(m).drop_last() =~= evs.take(m - 1));
    assert(evs.take(m).last() == evs[m - 1]);
    if m > j + 1 {
        lemma_no_link_after_end(evs, j, m - 1);
    }
}

/// Inside a link (after its start, before any end of link or block), the
/// layout is in that link.
proof fn lemma_in_link(evs: Seq<PreviewEventView>, j: int, m: int, url: Seq<char>)
    requires
        0 <= j < m <= evs.len(),
        evs[j] == PreviewEventView::StartLink(url),
        forall|x: int|
            j < x < m ==> !(#[trigger] evs[x] is StartLink) && !(evs[x] is EndLink) && !(
            evs[x] is EndBlock),
    ensures
        layout_run(evs.take(m)).link == Some(url),
    decreases m - j,
{
    assert(evs.take(m).drop_last() =~= evs.take(m - 1));
    assert(evs.take(m).last() == evs[m - 1]);
    if m > j + 1 {
        lemma_in_link(evs, j, m - 1, url);
    }
}

/// Text after the end of a link, and before another link starts, is not
/// part of any link: it adds no link range and is not drawn as a link.
pub proof fn law_text_after_link_end_is_plain(evs: Seq<PreviewEventView>, j: int, k: int)
    requires
        0 <= j < k < evs.len(),
        evs[j] is EndLink,
        evs[k] is Text,
        forall|x: int| j < x < k ==> !(#[trigger] evs[x] is StartLink),
    ensures
        layout_run(evs.take(k + 1)).links == layout_run(evs.take(k)).links,
        !layout_run(evs.take(k + 1)).spans.last().1.link,
{
    lemma_no_link_after_end(evs, j, k);
    assert(evs.take(k + 1).drop_last() =~= evs.take(k));
    assert(evs.take(k + 1).last() == evs[k]);
}

/// Text inside a link, after its start and before any end of link or
/// block, is drawn as a link and adds the range of its own bytes, right
/// after what was laid out before it, to that link's target.
pub proof fn law_text_in_link_is_linked(evs: Seq<PreviewEventView>, j: int, k: int, url: Seq<char>)
    requires
        0 <= j < k < evs.len(),
        evs[j] == PreviewEventView::StartLink(url),
        evs[k] is Text,
        forall|x: int|
            j < x < k ==> !(#[trigger] evs[x] is StartLink) && !(evs[x] is EndLink) && !(
            evs[x] is EndBlock),
    ensures
        ({
            let before = layout_run(evs.take(k));
            let after = layout_run(evs.take(k + 1));
            &&& after.links == before.links.push(
                (before.pos, before.pos + encode_utf8(evs[k]->Text_0).len(), url),
            )
            &&& after.spans.last() == (evs[k]->Text_0, SpanStyle { bold: before.heading, link: true, monospace: false })
        }),
{
    lemma_in_link(evs, j, k, url);
    assert(evs.take(k + 1).drop_last() =~= evs.take(k));
    assert(evs.take(k + 1).last() == evs[k]);
}

/// Lays out the events of a preview: the styled runs of text (without a
/// final lone newline) and the byte ranges of the links.
pub fn parse_content(content: &Vec<PreviewEvent>) -> (r: RichContent)
    requires
        layout_run(events_view(content@)).pos <= usize::MAX,
    ensures
        links_view(r.links@) == layout_run(events_view(content@)).links,
        spans_view(r.spans@) == without_trailing_newline(layout_run(events_view(content@)).spans),
{
    let ghost evs = events_view(content@);
    let mut current_link: Option<String> = None;
    let mut is_heading = false;
    let mut byte_pos: usize = 0;
    let mut links: Vec<LinkRange> = Vec::new();
    let mut spans: Vec<(String, SpanStyle)> = Vec::new();
    let mut i: usize = 0;
    proof {
        assert(evs.take(0) =~= Seq::<PreviewEventView>::empty());
        assert(links_view(links@) =~= Seq::<(int, int, Seq<char>)>::empty());
        assert(spans_view(spans@) =~= Seq::<(Seq<char>, SpanStyle)>::empty());
    }
    while i < content.len()
        invariant
            i <= content@.len(),
            evs == events_view(content@),
            layout_run(evs).pos <= usize::MAX,
            ({
                let st = layout_run(evs.take(i as int));
                &&& st.pos == byte_pos
                &&& st.heading == is_heading
                &&& st.link == match current_link {
                    Some(u) => Some(u@),
                    None => None,
                }
                &&& st.links == links_view(links@)
                &&& st.spans == spans_view(spans@)
            }),
        decreases content@.len() - i,
    {
        proof {
            assert(evs.take(i + 1).drop_last() =~= evs.take(i as int));
            assert(evs.take(i + 1).last() == content@[i as int]@);
            lemma_layout_pos_grows(evs, i + 1);
        }
        match &content[i] {
            PreviewEvent::StartHeading => {
                is_heading = true;
            },
            PreviewEvent::EndBlock => {
                is_heading = false;
                current_link = None;
                spans.push(("\n".to_owned(), SpanStyle { bold: false, link: false, monospace: false }));
                byte_pos = byte_pos + 1;
                proof {
                    reveal_strlit("\n");
                    assert(spans@.last().0@ == seq!['\n']);
                    assert(spans@.last().1 == plain());
                    assert(spans_view(spans@) =~= layout_run(evs.take(i as int)).spans.push((seq!['\n'], plain())));
                }
            },
            PreviewEvent::StartLink(url) => {
                current_link = Some(url.clone());
            },
            PreviewEvent::EndLink => {
                current_link = None;
            },
            PreviewEvent::Text(t) => {
                let start = byte_pos;
                byte_pos = byte_pos + t.as_str().len();
                let style = SpanStyle { bold: is_heading, link: current_link.is_some(), monospace: false };
                match &current_link {
                    Some(url) => {
                        links.push(LinkRange { start, end: byte_pos, url: url.clone() });
                        proof {
                            assert(links_view(links@) =~= layout_run(evs.take(i as int)).links.push(
                                (start as int, byte_pos as int, url@),
                            ));
                        }
                    },
                    None => {},
                }
                spans.push((t.clone(), style));
                proof {
                    assert(spans_view(spans@) =~= layout_run(evs.take(i as int)).spans.push((t@, style)));
                }
            },
            PreviewEvent::Code(c) => {
                byte_pos = byte_pos + c.as_str().len();
                let style = SpanStyle { bold: false, link: false, monospace: true };
                spans.push((c.clone(), style));
                proof {
                    assert(spans_view(spans@) =~= layout_run(evs.take(i as int)).spans.push((c@, style)));
                }
            },
            PreviewEvent::Break => {
                byte_pos = byte_pos + 1;
                spans.push(("\n".to_owned(), SpanStyle { bold: false, link: false, monospace: false }));
                proof {
                    reveal_strlit("\n");
                    assert(spans@.last().0@ == seq!['\n']);
                    assert(spans@.last().1 == plain());
                    assert(spans_view(spans@) =~= layout_run(evs.take(i as int)).spans.push((seq!['\n'], plain())));
                }
            },
        }
        i = i + 1;
    }
    proof {
        assert(evs.take(content@.len() as int) =~= evs);
        assert(spans_view(spans@) == layout_run(evs).spans);
    }
    let n = spans.len();
    proof {
        reveal_strlit("\n");
    }
    let last_is_newline = if n > 0 {
        let last: &str = spans[n - 1].0.as_str();
        let newline: &str = "\n";
        let r = str_eq(last, newline);
        proof {
            reveal_strlit("\n");
            assert(newline@ == seq!['\n']);
            assert(last@ == spans@[n - 1].0@);
        }
        r
    } else {
        false
    };
    assert(n > 0 ==> (last_is_newline == (spans@[n - 1].0@ == seq!['\n'])));
    if last_is_newline {
        let ghost before = spans@;
        spans.pop();
        proof {
            assert(spans_view(before).last().0 == before[n - 1].0@);
            assert(spans_view(before).last().0 == seq!['\n']);
            assert(spans_view(spans@) =~= spans_view(before).drop_last());
            assert(without_trailing_newline(spans_view(before)) == spans_view(before).drop_last());
        }
    } else {
        proof {
            if n > 0 {
                assert(spans_view(spans@).last().0 == spans@[n - 1].0@);
                assert(spans@[n - 1].0@ != seq!['\n']);
            }
            assert(without_trailing_newline(spans_view(spans@)) == spans_view(spans@));
        }
    }
    RichContent { links, spans }
}

} // verus!
