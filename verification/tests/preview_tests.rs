use constellations::preview::{markdown_to_html, parse_markdown, parse_plain_text, split_text_by_urls, PreviewEvent};

#[test]
fn test_parse_markdown_paragraph() {
    let text = "This is a simple paragraph.";
    let events = parse_markdown(text, false);
    assert_eq!(
        events,
        vec![
            PreviewEvent::Text("This is a simple paragraph.".to_string()),
            PreviewEvent::EndBlock
        ]
    );
}

#[test]
fn test_parse_markdown_heading() {
    let text = "# Heading 1\nSome text.";
    let events = parse_markdown(text, false);
    assert_eq!(
        events,
        vec![
            PreviewEvent::StartHeading,
            PreviewEvent::Text("Heading 1".to_string()),
            PreviewEvent::EndBlock,
            PreviewEvent::Text("Some text.".to_string()),
            PreviewEvent::EndBlock,
        ]
    );
}

#[test]
fn test_parse_markdown_code() {
    let text = "Here is `some code` inline.";
    let events = parse_markdown(text, false);
    assert_eq!(
        events,
        vec![
            PreviewEvent::Text("Here is ".to_string()),
            PreviewEvent::Code("some code".to_string()),
            PreviewEvent::Text(" inline.".to_string()),
            PreviewEvent::EndBlock,
        ]
    );
}

#[test]
fn test_parse_markdown_breaks() {
    let text = "Line 1\nLine 2  \nLine 3";
    let events = parse_markdown(text, false);
    assert_eq!(
        events,
        vec![
            PreviewEvent::Text("Line 1".to_string()),
            PreviewEvent::Break,
            PreviewEvent::Text("Line 2".to_string()),
            PreviewEvent::Break,
            PreviewEvent::Text("Line 3".to_string()),
            PreviewEvent::EndBlock,
        ]
    );
}

#[test]
fn test_parse_markdown_ignored_formatting() {
    let text = "Some **bold** and *italic* text.";
    let events = parse_markdown(text, false);
    assert_eq!(
        events,
        vec![
            PreviewEvent::Text("Some ".to_string()),
            PreviewEvent::Text("bold".to_string()),
            PreviewEvent::Text(" and ".to_string()),
            PreviewEvent::Text("italic".to_string()),
            PreviewEvent::Text(" text.".to_string()),
            PreviewEvent::EndBlock,
        ]
    );
}

#[test]
fn test_parse_markdown_skip_fallback() {
    let text = "> <@alice:example.com> Hello\n\nHi!";
    let events = parse_markdown(text, true);
    assert_eq!(
        events,
        vec![
            PreviewEvent::Text("Hi!".to_string()),
            PreviewEvent::EndBlock
        ]
    );
}

#[test]
fn test_parse_markdown_no_skip_normal_blockquote() {
    let text = "> This is a quote\n\nAnd this is text.";
    let events = parse_markdown(text, false);
    assert_eq!(
        events,
        vec![
            PreviewEvent::Text("This is a quote".to_string()),
            PreviewEvent::EndBlock,
            PreviewEvent::Text("And this is text.".to_string()),
            PreviewEvent::EndBlock,
        ]
    );
}

#[test]
fn test_parse_plain_text_urls() {
    let text = "Check out https://google.com/search?q=test, it is awesome!";
    let events = parse_markdown(text, false);
    assert_eq!(
        events,
        vec![
            PreviewEvent::Text("Check out ".to_string()),
            PreviewEvent::StartLink("https://google.com/search?q=test".to_string()),
            PreviewEvent::Text("https://google.com/search?q=test".to_string()),
            PreviewEvent::EndLink,
            PreviewEvent::Text(", it is awesome!".to_string()),
            PreviewEvent::EndBlock,
        ]
    );
}

#[test]
fn test_parse_plain_text_only_urls() {
    let text = "Check out https://google.com/search?q=test, it is awesome!";
    let events = parse_plain_text(text);
    assert_eq!(
        events,
        vec![
            PreviewEvent::Text("Check out ".to_string()),
            PreviewEvent::StartLink("https://google.com/search?q=test".to_string()),
            PreviewEvent::Text("https://google.com/search?q=test".to_string()),
            PreviewEvent::EndLink,
            PreviewEvent::Text(", it is awesome!".to_string()),
        ]
    );
}

#[test]
fn test_markdown_to_html() {
    let markdown = "# Hello\nThis is **bold** and *italic*.";
    let html = markdown_to_html(markdown);
    assert!(html.contains("<h1>Hello</h1>"));
    assert!(html.contains("<strong>bold</strong>"));
    assert!(html.contains("<em>italic</em>"));
}

#[test]
fn plain_text_without_urls_is_one_text_event() {
    assert_eq!(parse_plain_text("no links here"), vec![PreviewEvent::Text("no links here".to_string())]);
    assert_eq!(parse_plain_text(""), Vec::<PreviewEvent>::new());
}

#[test]
fn plain_text_url_trailing_punctuation_stays_outside_link() {
    let events = parse_plain_text("see http://a.b/c.");
    assert_eq!(
        events,
        vec![
            PreviewEvent::Text("see ".to_string()),
            PreviewEvent::StartLink("http://a.b/c".to_string()),
            PreviewEvent::Text("http://a.b/c".to_string()),
            PreviewEvent::EndLink,
            PreviewEvent::Text(".".to_string()),
        ]
    );
}

#[test]
fn plain_text_keeps_every_character() {
    let text = "a https://x.y b http://z (c)";
    let events = parse_plain_text(text);
    let mut rebuilt = String::new();
    for e in &events {
        if let PreviewEvent::Text(t) = e {
            rebuilt.push_str(t);
        }
    }
    assert_eq!(rebuilt, text);
}

#[test]
fn split_text_appends_to_existing_events() {
    let mut events = vec![PreviewEvent::StartHeading];
    split_text_by_urls("x", &mut events);
    assert_eq!(events, vec![PreviewEvent::StartHeading, PreviewEvent::Text("x".to_string())]);
}

#[test]
fn markdown_link_is_one_link() {
    let events = parse_markdown("[site](https://example.org)", false);
    assert_eq!(
        events,
        vec![
            PreviewEvent::StartLink("https://example.org".to_string()),
            PreviewEvent::Text("site".to_string()),
            PreviewEvent::EndLink,
            PreviewEvent::EndBlock,
        ]
    );
}
