//! The message composer: what pressing "send" hands to the homeserver, and
//! when the send button responds.
use vstd::prelude::*;
use crate::preview::{PreviewEvent, PreviewEventView, commonmark_html, markdown_to_html};
use crate::space::strs_view;
use crate::summary::{is_blank, trim_str};
use crate::text::{chars_of, string_from_chars};

verus! {

/// What is being written in the selected room.
pub struct Composer {
    pub text: String,
    /// Files to attach, by path.
    pub attachments: Vec<String>,
    /// The rendered preview of `text`, when the preview shows.
    pub preview_events: Vec<PreviewEvent>,
    pub is_preview: bool,
}

/// What to send.
pub struct Outgoing {
    /// The message: its Markdown text and its HTML rendering.
    pub message: Option<(String, String)>,
    /// The files to upload, in order.
    pub attachments: Vec<String>,
}

impl Composer {
    /// The send button responds: there is text (not blank) or an attachment.
    pub fn can_send(&self) -> (r: bool)
        ensures
            r == (!is_blank(self.text@) || self.attachments@.len() != 0),
    {
        let t = trim_str(self.text.as_str());
        proof {
            crate::summary::lemma_trim_blank(self.text@);
        }
        !t.is_empty() || self.attachments.len() != 0
    }

    /// Pressing "send" with an engine and a selected room (`has_target`):
    /// nothing happens without them, or when there is neither text nor an
    /// attachment. Otherwise the attachments are taken out of the composer;
    /// non-empty text is sent with its HTML rendering (it stays until the
    /// send is confirmed), and without text the composer is cleared.
    pub fn take_outgoing(&mut self, has_target: bool) -> (r: Option<Outgoing>)
        ensures
            !has_target || (old(self).text@.len() == 0 && old(self).attachments@.len() == 0) ==> r is None
                && *final(self) == *old(self),
            has_target && (old(self).text@.len() != 0 || old(self).attachments@.len() != 0) ==> {
                &&& r matches Some(o) && strs_view(o.attachments@) == strs_view(old(self).attachments@) && match o.message {
                    Some((body, html)) => old(self).text@.len() != 0 && body@ == old(self).text@ && html@
                        == commonmark_html(old(self).text@),
                    None => old(self).text@.len() == 0,
                }
                &&& final(self).attachments@.len() == 0
                &&& if old(self).text@.len() != 0 {
                    *final(self) == (Composer { attachments: final(self).attachments, ..*old(self) })
                } else {
                    &&& final(self).text@.len() == 0
                    &&& final(self).preview_events@.len() == 0
                    &&& !final(self).is_preview
                }
            },
    {
        if !has_target || (self.text.as_str().is_empty() && self.attachments.len() == 0) {
            return None;
        }
        let mut attachments: Vec<String> = Vec::new();
        std::mem::swap(&mut attachments, &mut self.attachments);
        if self.text.as_str().is_empty() {
            self.text = String::new();
            self.preview_events = Vec::new();
            self.is_preview = false;
            return Some(Outgoing { message: None, attachments });
        }
        let html = markdown_to_html(self.text.as_str());
        Some(Outgoing { message: Some((self.text.clone(), html)), attachments })
    }
}

/// The text of the message a reply or edit bar is about: its body where it
/// is a message, else the first text of its plain-text rendering, else
/// nothing.
pub open spec fn bar_text(message_body: Option<Seq<char>>, plain_text: Seq<PreviewEventView>) -> Seq<char> {
    match message_body {
        Some(b) => b,
        None => if plain_text.len() > 0 && plain_text[0] is Text {
            plain_text[0]->Text_0
        } else {
            Seq::empty()
        },
    }
}

/// What the bar shows of a text: all of it up to a hundred characters,
/// else its first ninety-seven and an ellipsis.
pub open spec fn bar_snippet_spec(t: Seq<char>) -> Seq<char> {
    if t.len() > 100 {
        t.take(97) + seq!['.', '.', '.']
    } else {
        t
    }
}

/// The snippet the reply bar and the edit bar show of the message they are
/// about.
pub fn bar_snippet(message_body: Option<&str>, plain_text: &Vec<PreviewEvent>) -> (r: String)
    ensures
        r@ == bar_snippet_spec(
            bar_text(
                match message_body {
                    Some(b) => Some(b@),
                    None => None,
                },
                plain_text@.map_values(|e: PreviewEvent| e@),
            ),
        ),
{
    let mut cs: Vec<char> = match message_body {
        Some(b) => chars_of(b),
        None => if plain_text.len() > 0 {
            match &plain_text[0] {
                PreviewEvent::Text(t) => chars_of(t.as_str()),
                _ => Vec::new(),
            }
        } else {
            Vec::new()
        },
    };
    let ghost t = cs@;
    if cs.len() > 100 {
        cs.truncate(97);
        cs.push('.');
        cs.push('.');
        cs.push('.');
        assert(cs@ =~= t.take(97) + seq!['.', '.', '.']);
    }
    string_from_chars(cs.as_slice())
}

} // verus!
