use constellations::preview::{parse_markdown, PreviewEvent};
use constellations::rich_text::{parse_content, SpanStyle};

const PLAIN: SpanStyle = SpanStyle { bold: false, link: false, monospace: false };

fn text(s: &str) -> PreviewEvent {
    PreviewEvent::Text(s.to_string())
}

#[test]
fn content_is_laid_out_with_styles_and_link_ranges() {
    let events = vec![
        PreviewEvent::StartHeading,
        text("Title"),
        PreviewEvent::EndBlock,
        text("see "),
        PreviewEvent::StartLink("https://a.b".to_string()),
        text("https://a.b"),
        PreviewEvent::EndLink,
        PreviewEvent::Break,
        PreviewEvent::Code("x=1".to_string()),
    ];
    let c = parse_content(&events);
    let spans: Vec<(&str, SpanStyle)> = c.spans.iter().map(|(s, a)| (s.as_str(), *a)).collect();
    assert_eq!(
        spans,
        vec![
            ("Title", SpanStyle { bold: true, link: false, monospace: false }),
            ("\n", PLAIN),
            ("see ", PLAIN),
            ("https://a.b", SpanStyle { bold: false, link: true, monospace: false }),
            ("\n", PLAIN),
            ("x=1", SpanStyle { bold: false, link: false, monospace: true }),
        ]
    );
    assert_eq!(c.links.len(), 1);
    assert_eq!((c.links[0].start, c.links[0].end), (10, 21));
    assert_eq!(c.links[0].url, "https://a.b");
}

#[test]
fn a_final_newline_is_dropped() {
    let c = parse_content(&vec![text("a"), PreviewEvent::EndBlock]);
    assert_eq!(c.spans.len(), 1);
    assert_eq!(c.spans[0].0, "a");
    let c = parse_content(&vec![]);
    assert!(c.spans.is_empty());
    assert!(c.links.is_empty());
}

#[test]
fn link_ranges_count_bytes() {
    let events = vec![
        text("é"),
        PreviewEvent::StartLink("u".to_string()),
        text("u"),
        PreviewEvent::EndLink,
    ];
    let c = parse_content(&events);
    assert_eq!((c.links[0].start, c.links[0].end), (2, 3));
}

#[test]
fn markdown_preview_lays_out() {
    let events = parse_markdown("# Hi\n\nsome `code`", false);
    let c = parse_content(&events);
    assert!(c.spans.iter().any(|(s, a)| s == "Hi" && a.bold));
    assert!(c.spans.iter().any(|(s, a)| s == "code" && a.monospace));
    assert_ne!(c.spans.last().map(|(s, _)| s.as_str()), Some("\n"));
}
