use constellations::composer::{bar_snippet, Composer};
use constellations::preview::{markdown_to_html, PreviewEvent};

fn composer(text: &str, attachments: &[&str]) -> Composer {
    Composer {
        text: text.to_string(),
        attachments: attachments.iter().map(|a| a.to_string()).collect(),
        preview_events: vec![PreviewEvent::Text(text.to_string())],
        is_preview: true,
    }
}

#[test]
fn send_button_needs_text_or_a_file() {
    assert!(!composer("", &[]).can_send());
    assert!(!composer("  \n ", &[]).can_send());
    assert!(composer("hi", &[]).can_send());
    assert!(composer("", &["/tmp/a.png"]).can_send());
}

#[test]
fn nothing_is_sent_without_a_room() {
    let mut c = composer("hello", &["/tmp/a.png"]);
    assert!(c.take_outgoing(false).is_none());
    assert_eq!(c.attachments.len(), 1);
    let mut empty = composer("", &[]);
    assert!(empty.take_outgoing(true).is_none());
}

#[test]
fn text_is_sent_with_its_html_and_files_are_taken() {
    let mut c = composer("**hi**", &["/tmp/a.png", "/tmp/b.pdf"]);
    let out = c.take_outgoing(true).expect("something to send");
    let (body, html) = out.message.expect("a message");
    assert_eq!(body, "**hi**");
    assert_eq!(html, markdown_to_html("**hi**"));
    assert_eq!(html, "<p><strong>hi</strong></p>\n");
    assert_eq!(out.attachments, vec!["/tmp/a.png".to_string(), "/tmp/b.pdf".to_string()]);
    assert!(c.attachments.is_empty());
    assert_eq!(c.text, "**hi**");
    assert!(c.is_preview);
}

#[test]
fn files_alone_clear_the_composer() {
    let mut c = composer("", &["/tmp/a.png"]);
    let out = c.take_outgoing(true).expect("something to send");
    assert!(out.message.is_none());
    assert_eq!(out.attachments.len(), 1);
    assert!(c.text.is_empty());
    assert!(c.preview_events.is_empty());
    assert!(!c.is_preview);
}

#[test]
fn bar_snippet_keeps_a_hundred_characters() {
    let exact = "é".repeat(100);
    assert_eq!(bar_snippet(Some(&exact), &vec![]), exact);
    let long = "x".repeat(101);
    assert_eq!(bar_snippet(Some(&long), &vec![]), format!("{}...", "x".repeat(97)));
    let wide = "€".repeat(150);
    assert_eq!(bar_snippet(Some(&wide), &vec![]), format!("{}...", "€".repeat(97)));
}

#[test]
fn bar_snippet_falls_back_to_the_plain_text() {
    let events = vec![PreviewEvent::Text("hello".into()), PreviewEvent::Break];
    assert_eq!(bar_snippet(None, &events), "hello");
    assert_eq!(bar_snippet(None, &vec![PreviewEvent::Break]), "");
    assert_eq!(bar_snippet(None, &vec![]), "");
    assert_eq!(bar_snippet(Some("body"), &events), "body");
}
