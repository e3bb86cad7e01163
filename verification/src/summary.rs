//! What the room list shows of a room: the line of its last message that is
//! worth showing, a short preview of a message body, the unread badge, and
//! the summary built from what the server reports about a room.
use vstd::prelude::*;
use vstd::string::{StrSliceExecFns, StringExecFns};
use vstd::utf8::{decode_utf8, encode_utf8, is_char_boundary};
use crate::text::{chars_of, decimal, decimal_string, string_from_chars};
use crate::rooms::{JoinRule, JoinRuleView, RoomData, RoomKind, clone_string_vec, opt_view};
use crate::space::{SpaceHierarchy, child_edge};

verus! {

/// The characters with the Unicode `White_Space` property (those for which
/// `char::is_whitespace` holds).
pub open spec fn is_white_space(c: char) -> bool {
    let u = c as u32;
    ||| 0x09 <= u <= 0x0D
    ||| u == 0x20
    ||| u == 0x85
    ||| u == 0xA0
    ||| u == 0x1680
    ||| 0x2000 <= u <= 0x200A
    ||| u == 0x2028
    ||| u == 0x2029
    ||| u == 0x202F
    ||| u == 0x205F
    ||| u == 0x3000
}

/// Whether `c` is white space.
pub fn is_white_space_char(c: char) -> (r: bool)
    ensures
        r == is_white_space(c),
{
    let u = c as u32;
    (0x09 <= u && u <= 0x0D) || u == 0x20 || u == 0x85 || u == 0xA0 || u == 0x1680 || (0x2000
        <= u && u <= 0x200A) || u == 0x2028 || u == 0x2029 || u == 0x202F || u == 0x205F || u
        == 0x3000
}

/// Where the line that starts at `i` ends: at the next line feed, or at the
/// end of the text.
pub open spec fn line_end(s: Seq<char>, i: int) -> int
    decreases s.len() - i,
{
    if i >= s.len() {
        s.len() as int
    } else if s[i] == '\n' {
        i
    } else {
        line_end(s, i + 1)
    }
}

/// The first position in `[i, e)` that is not white space, or `e`.
pub open spec fn skip_white(s: Seq<char>, i: int, e: int) -> int
    decreases e - i,
{
    if i >= e {
        e
    } else if is_white_space(s[i]) {
        skip_white(s, i + 1, e)
    } else {
        i
    }
}

/// The end of `[b, e)` once trailing white space is dropped.
pub open spec fn trim_back(s: Seq<char>, b: int, e: int) -> int
    decreases e - b,
{
    if e <= b {
        b
    } else if is_white_space(s[e - 1]) {
        trim_back(s, b, e - 1)
    } else {
        e
    }
}

/// The text in `[b, e)` without leading and trailing white space.
pub open spec fn trimmed(s: Seq<char>, b: int, e: int) -> Seq<char> {
    let f = skip_white(s, b, e);
    s.subrange(f, trim_back(s, f, e))
}

/// The line `[b, e)` quotes: its first character that is not white space is `>`.
pub open spec fn is_quote_line(s: Seq<char>, b: int, e: int) -> bool {
    let f = skip_white(s, b, e);
    f < e && s[f] == '>'
}

/// The line `[b, e)` holds nothing but white space.
pub open spec fn is_blank_line(s: Seq<char>, b: int, e: int) -> bool {
    skip_white(s, b, e) >= e
}

/// A line ends at a line feed or at the end of the text, and holds none.
pub proof fn lemma_line_end(s: Seq<char>, i: int)
    requires
        0 <= i <= s.len(),
    ensures
        i <= line_end(s, i) <= s.len(),
        line_end(s, i) < s.len() ==> s[line_end(s, i)] == '\n',
        forall|k: int| i <= k < line_end(s, i) ==> s[k] != '\n',
    decreases s.len() - i,
{
    if i < s.len() && s[i] != '\n' {
        lemma_line_end(s, i + 1);
    }
}

proof fn lemma_skip_white(s: Seq<char>, i: int, e: int)
    requires
        i <= e,
    ensures
        i <= skip_white(s, i, e) <= e,
    decreases e - i,
{
    if i < e && is_white_space(s[i]) {
        lemma_skip_white(s, i + 1, e);
    }
}

proof fn lemma_trim_back(s: Seq<char>, b: int, e: int)
    requires
        b <= e,
    ensures
        b <= trim_back(s, b, e) <= e,
    decreases e - b,
{
    if b < e && is_white_space(s[e - 1]) {
        lemma_trim_back(s, b, e - 1);
    }
}

/// The first line starting at or after position `i` (a line start) that is
/// neither a quote nor blank.
pub open spec fn first_content_line(s: Seq<char>, i: int) -> Option<int>
    decreases s.len() - i,
{
    if i < 0 || i > s.len() {
        None
    } else {
        let e = line_end(s, i);
        if !is_quote_line(s, i, e) && !is_blank_line(s, i, e) {
            Some(i)
        } else if e < s.len() {
            proof {
                lemma_line_end(s, i);
            }
            first_content_line(s, e + 1)
        } else {
            None
        }
    }
}

/// The line of a message that the room list shows: its first line, trimmed;
/// when that line quotes an earlier message, the first line after it that is
/// neither a quote nor blank, trimmed; and the first line again if there is
/// none.
pub open spec fn clean_last_message_spec(s: Seq<char>) -> Seq<char> {
    let e0 = line_end(s, 0);
    if !is_quote_line(s, 0, e0) {
        trimmed(s, 0, e0)
    } else {
        match if e0 < s.len() {
            first_content_line(s, e0 + 1)
        } else {
            None
        } {
            Some(i) => trimmed(s, i, line_end(s, i)),
            None => trimmed(s, 0, e0),
        }
    }
}

proof fn lemma_trim_back_stops(s: Seq<char>, b: int, e: int)
    requires
        b <= e,
    ensures
        trim_back(s, b, e) > b ==> !is_white_space(s[trim_back(s, b, e) - 1]),
    decreases e - b,
{
    if b < e && is_white_space(s[e - 1]) {
        lemma_trim_back_stops(s, b, e - 1);
    }
}

proof fn lemma_first_content_line_range(s: Seq<char>, i: int)
    ensures
        first_content_line(s, i) matches Some(k) ==> 0 <= k <= s.len(),
    decreases s.len() - i,
{
    if 0 <= i <= s.len() {
        let e = line_end(s, i);
        lemma_line_end(s, i);
        if !(!is_quote_line(s, i, e) && !is_blank_line(s, i, e)) && e < s.len() {
            lemma_first_content_line_range(s, e + 1);
        }
    }
}

/// The part of a line left by trimming holds no line feed and starts and
/// ends with a character that is not white space.
proof fn lemma_trimmed_line(s: Seq<char>, b: int)
    requires
        0 <= b <= s.len(),
    ensures
        ({
            let t = trimmed(s, b, line_end(s, b));
            &&& forall|k: int| 0 <= k < t.len() ==> t[k] != '\n'
            &&& t.len() > 0 ==> !is_white_space(t[0]) && !is_white_space(t[t.len() - 1])
        }),
{
    let e = line_end(s, b);
    lemma_line_end(s, b);
    lemma_skip_white(s, b, e);
    lemma_skip_white_stops(s, b, e);
    let f = skip_white(s, b, e);
    lemma_trim_back(s, f, e);
    lemma_trim_back_stops(s, f, e);
    let t = trimmed(s, b, e);
    assert forall|k: int| 0 <= k < t.len() implies t[k] != '\n' by {
        assert(t[k] == s[f + k]);
    }
}

/// A text without line feeds is one line, which ends at its end.
proof fn lemma_single_line(t: Seq<char>)
    requires
        forall|k: int| 0 <= k < t.len() ==> t[k] != '\n',
    ensures
        line_end(t, 0) == t.len(),
{
    lemma_line_end(t, 0);
}

/// The room list's line for a message is its own line: cleaning it again
/// changes nothing.
pub proof fn law_clean_last_message_idempotent(s: Seq<char>)
    ensures
        clean_last_message_spec(clean_last_message_spec(s)) == clean_last_message_spec(s),
{
    let e0 = line_end(s, 0);
    lemma_line_end(s, 0);
    let b = if !is_quote_line(s, 0, e0) {
        0
    } else {
        match if e0 < s.len() {
            first_content_line(s, e0 + 1)
        } else {
            None
        } {
            Some(i) => i,
            None => 0,
        }
    };
    if e0 < s.len() {
        lemma_first_content_line_range(s, e0 + 1);
    }
    assert(clean_last_message_spec(s) == trimmed(s, b, line_end(s, b)));
    lemma_trimmed_line(s, b);
    let t = trimmed(s, b, line_end(s, b));
    lemma_single_line(t);
    let n = t.len() as int;
    assert(clean_last_message_spec(t) == trimmed(t, 0, n));
    if n > 0 {
        assert(skip_white(t, 0, n) == 0);
        assert(trim_back(t, 0, n) == n);
    }
    assert(trimmed(t, 0, n) =~= t);
}

fn line_end_exec(s: &Vec<char>, i: usize) -> (e: usize)
    requires
        i <= s@.len(),
    ensures
        e == line_end(s@, i as int),
        i <= e <= s@.len(),
{
    let mut j: usize = i;
    while j < s.len() && s[j] != '\n'
        invariant
            i <= j <= s@.len(),
            line_end(s@, i as int) == line_end(s@, j as int),
        decreases s@.len() - j,
    {
        j = j + 1;
    }
    j
}

fn skip_white_exec(s: &Vec<char>, i: usize, e: usize) -> (f: usize)
    requires
        i <= e <= s@.len(),
    ensures
        f == skip_white(s@, i as int, e as int),
        i <= f <= e,
{
    let mut j: usize = i;
    while j < e && is_white_space_char(s[j])
        invariant
            i <= j <= e,
            e <= s@.len(),
            skip_white(s@, i as int, e as int) == skip_white(s@, j as int, e as int),
        decreases e - j,
    {
        j = j + 1;
    }
    j
}

fn trim_back_exec(s: &Vec<char>, b: usize, e: usize) -> (t: usize)
    requires
        b <= e <= s@.len(),
    ensures
        t == trim_back(s@, b as int, e as int),
        b <= t <= e,
{
    let mut j: usize = e;
    while j > b && is_white_space_char(s[j - 1])
        invariant
            b <= j <= e,
            e <= s@.len(),
            trim_back(s@, b as int, e as int) == trim_back(s@, b as int, j as int),
        decreases j - b,
    {
        j = j - 1;
    }
    j
}

fn is_quote_line_exec(s: &Vec<char>, b: usize, e: usize) -> (r: bool)
    requires
        b <= e <= s@.len(),
    ensures
        r == is_quote_line(s@, b as int, e as int),
{
    let f = skip_white_exec(s, b, e);
    f < e && s[f] == '>'
}

fn is_blank_line_exec(s: &Vec<char>, b: usize, e: usize) -> (r: bool)
    requires
        b <= e <= s@.len(),
    ensures
        r == is_blank_line(s@, b as int, e as int),
{
    skip_white_exec(s, b, e) >= e
}

/// `s` without white space at either end (as `str::trim`).
pub open spec fn trim_text(s: Seq<char>) -> Seq<char> {
    trimmed(s, 0, s.len() as int)
}

proof fn lemma_skip_white_stops(s: Seq<char>, i: int, e: int)
    requires
        i <= e,
    ensures
        skip_white(s, i, e) < e ==> !is_white_space(s[skip_white(s, i, e)]),
    decreases e - i,
{
    if i < e && is_white_space(s[i]) {
        lemma_skip_white_stops(s, i + 1, e);
    }
}

proof fn lemma_trim_back_keeps(s: Seq<char>, b: int, e: int)
    requires
        b < e,
        !is_white_space(s[b]),
    ensures
        trim_back(s, b, e) > b,
    decreases e - b,
{
    if is_white_space(s[e - 1]) {
        lemma_trim_back_keeps(s, b, e - 1);
    }
}

/// A text trims to nothing exactly when it is blank.
pub proof fn lemma_trim_blank(s: Seq<char>)
    ensures
        (trim_text(s).len() == 0) == is_blank(s),
{
    let n = s.len() as int;
    lemma_skip_white(s, 0, n);
    lemma_skip_white_stops(s, 0, n);
    let f = skip_white(s, 0, n);
    lemma_trim_back(s, f, n);
    if f < n {
        lemma_trim_back_keeps(s, f, n);
    }
}

/// `s` without white space at either end.
pub fn trim_str(s: &str) -> (r: &str)
    ensures
        r@ == trim_text(s@),
{
    let cs = chars_of(s);
    let f = skip_white_exec(&cs, 0, cs.len());
    let t = trim_back_exec(&cs, f, cs.len());
    s.substring_char(f, t)
}

/// `s` holds nothing but white space (trimming it leaves it empty).
pub open spec fn is_blank(s: Seq<char>) -> bool {
    skip_white(s, 0, s.len() as int) >= s.len()
}

/// Whether `s` holds nothing but white space.
pub fn is_blank_str(s: &str) -> (r: bool)
    ensures
        r == is_blank(s@),
{
    let cs = chars_of(s);
    let f = skip_white_exec(&cs, 0, cs.len());
    f >= cs.len()
}

/// The line of a last message that the room list shows (see
/// `clean_last_message_spec`).
pub fn clean_last_message(last_msg: &str) -> (r: &str)
    ensures
        r@ == clean_last_message_spec(last_msg@),
{
    let s = chars_of(last_msg);
    let ghost sv = s@;
    let n = s.len();
    let e0 = line_end_exec(&s, 0);
    let mut b: usize = 0;
    let mut e: usize = e0;
    if is_quote_line_exec(&s, 0, e0) && e0 < n {
        let ghost start = e0 + 1;
        let mut i: usize = e0 + 1;
        let mut done = false;
        while !done
            invariant
                sv == s@,
                n == sv.len(),
                e0 < n,
                start == e0 + 1,
                start <= i <= n,
                !done ==> first_content_line(sv, start) == first_content_line(sv, i as int),
                !done ==> b == 0 && e == e0,
                done ==> match first_content_line(sv, start) {
                    Some(k) => b == k && e == line_end(sv, k) && b <= e <= n,
                    None => b == 0 && e == e0,
                },
            decreases (if done {
                0int
            } else {
                n + 2 - i
            }),
        {
            let le = line_end_exec(&s, i);
            if !is_quote_line_exec(&s, i, le) && !is_blank_line_exec(&s, i, le) {
                b = i;
                e = le;
                done = true;
            } else if le < n {
                i = le + 1;
            } else {
                done = true;
            }
        }
    }
    proof {
        lemma_line_end(sv, 0);
    }
    let f = skip_white_exec(&s, b, e);
    let t = trim_back_exec(&s, f, e);
    proof {
        assert(s@ == last_msg@);
    }
    last_msg.substring_char(f, t)
}

/// The preview of a message body that a room summary keeps: a body of more
/// than 30 bytes is cut to its first 26 bytes and `...` follows; a shorter
/// one is kept whole.
pub open spec fn message_preview(m: Seq<char>) -> Seq<char> {
    if encode_utf8(m).len() > 30 {
        decode_utf8(encode_utf8(m).subrange(0, 26)) + seq!['.', '.', '.']
    } else {
        m
    }
}

/// A body can be previewed when its length in bytes fits in a `usize` (as
/// that of every string does) and cutting it, if it is cut, falls between
/// two characters.
pub open spec fn can_preview(m: Seq<char>) -> bool {
    &&& encode_utf8(m).len() <= usize::MAX
    &&& encode_utf8(m).len() > 30 ==> is_char_boundary(encode_utf8(m), 26)
}

/// The preview of a message body (see `message_preview`).
pub fn preview_last_message(body: &str) -> (r: String)
    requires
        can_preview(body@),
    ensures
        r@ == message_preview(body@),
{
    if body.len() > 30 {
        let (head, _) = body.split_at(26);
        let mut r = head.to_owned();
        r.append("...");
        proof {
            reveal_strlit("...");
            assert("..."@ =~= seq!['.', '.', '.']);
            vstd::utf8::encode_utf8_decode_utf8(head@);
            assert(encode_utf8(head@) == encode_utf8(body@).subrange(0, 26));
            assert(encode_utf8(body@).len() > 30);
        }
        r
    } else {
        body.to_owned()
    }
}

/// The unread badge of a room: the count in brackets, when there is an
/// unread notification.
pub open spec fn unread_label(count: u32) -> Option<Seq<char>> {
    if count > 0 {
        Some(seq!['('] + decimal(count as nat) + seq![')'])
    } else {
        None
    }
}

/// The unread badge for `count` (see `unread_label`).
pub fn unread_count_label(count: u32) -> (r: Option<String>)
    ensures
        opt_view(r) == unread_label(count),
{
    if count > 0 {
        let digits = chars_of(decimal_string(count as u64).as_str());
        let mut cs: Vec<char> = Vec::new();
        cs.push('(');
        let mut i: usize = 0;
        while i < digits.len()
            invariant
                i <= digits@.len(),
                cs@ == seq!['('] + digits@.take(i as int),
            decreases digits@.len() - i,
        {
            cs.push(digits[i]);
            i = i + 1;
            assert(cs@ =~= seq!['('] + digits@.take(i as int));
        }
        cs.push(')');
        assert(digits@.take(digits@.len() as int) =~= digits@);
        assert(cs@ =~= seq!['('] + decimal(count as nat) + seq![')']);
        Some(string_from_chars(cs.as_slice()))
    } else {
        None
    }
}

/// What the server reports about a room, as plain values.
pub struct RoomReport {
    pub id: String,
    /// The room's own name.
    pub name: Option<String>,
    /// The name computed from its members, when it has none of its own.
    pub cached_display_name: Option<String>,
    /// The server's count of unread notifications.
    pub notification_count: u64,
    pub avatar_url: Option<String>,
    /// The body of the latest event, when it is a message.
    pub latest_message_body: Option<String>,
    pub room_type: Option<RoomKind>,
    pub join_rule: Option<JoinRule>,
}

/// The rooms whose members may join a room under a join rule.
pub open spec fn allowed_by(j: Option<JoinRuleView>) -> Seq<Seq<char>> {
    match j {
        Some(JoinRuleView::Restricted(v)) => v,
        Some(JoinRuleView::KnockRestricted(v)) => v,
        _ => Seq::empty(),
    }
}

/// Builds the summary of a room that the room list shows. A space is
/// recorded as a known space. The room's place under a space comes from a
/// space that lists it, when one does.
pub fn room_data_from_report(report: RoomReport, hierarchy: &mut SpaceHierarchy) -> (r: RoomData)
    requires
        old(hierarchy).wf(),
        report.latest_message_body matches Some(b) ==> can_preview(b@),
    ensures
        final(hierarchy).wf(),
        r.id@ == report.id@,
        r@.name == match report.name {
            Some(n) => Some(n@),
            None => opt_view(report.cached_display_name),
        },
        r.unread_count == report.notification_count % 0x1_0000_0000,
        r@.unread_count_str == unread_label(r.unread_count),
        r@.last_message == match report.latest_message_body {
            Some(b) => Some(message_preview(b@)),
            None => None,
        },
        r@.avatar_url == opt_view(report.avatar_url),
        r.room_type == report.room_type,
        r.is_space == (report.room_type matches Some(RoomKind::Space)),
        r@.join_rule == match report.join_rule {
            Some(j) => Some(j@),
            None => None,
        },
        r@.allowed_spaces == allowed_by(r@.join_rule),
        final(hierarchy)@.children == old(hierarchy)@.children,
        final(hierarchy)@.known_spaces == if r.is_space {
            old(hierarchy)@.known_spaces.insert(report.id@)
        } else {
            old(hierarchy)@.known_spaces
        },
        r.parent_space_id is None <==> !exists|p: Seq<char>| #[trigger] child_edge(old(hierarchy)@, p, report.id@),
        r@.parent_space_id matches Some(p) ==> child_edge(old(hierarchy)@, p, report.id@)
            && r@.order == old(hierarchy)@.children[(p, report.id@)].order
            && r.suggested == old(hierarchy)@.children[(p, report.id@)].suggested,
        r.parent_space_id is None ==> r.order is None && !r.suggested,
{
    let name = match report.name {
        Some(n) => Some(n),
        None => report.cached_display_name,
    };
    let unread_count = (report.notification_count % 0x1_0000_0000) as u32;
    let last_message = match &report.latest_message_body {
        Some(b) => Some(preview_last_message(b.as_str())),
        None => None,
    };
    let is_space = match &report.room_type {
        Some(RoomKind::Space) => true,
        _ => false,
    };
    let ghost h0 = hierarchy@;
    if is_space {
        hierarchy.add_space(report.id.clone());
    }
    let (parent_space_id, order, suggested) = match hierarchy.first_parent(report.id.as_str()) {
        Some((p, d)) => {
            assert(child_edge(h0, p@, report.id@));
            (Some(p), d.order, d.suggested)
        },
        None => {
            assert forall|p: Seq<char>| !#[trigger] child_edge(h0, p, report.id@) by {
                if child_edge(h0, p, report.id@) {
                    assert(child_edge(hierarchy@, p, report.id@));
                }
            }
            (None, None, false)
        },
    };
    let allowed_spaces = match &report.join_rule {
        Some(JoinRule::Restricted(v)) => clone_string_vec(v),
        Some(JoinRule::KnockRestricted(v)) => clone_string_vec(v),
        _ => Vec::new(),
    };
    let unread_count_str = unread_count_label(unread_count);
    RoomData {
        id: report.id,
        name,
        last_message,
        unread_count,
        unread_count_str,
        avatar_url: report.avatar_url,
        room_type: report.room_type,
        is_space,
        parent_space_id,
        join_rule: report.join_rule,
        allowed_spaces,
        order,
        suggested,
    }
}


/// The line that shows which message a reply answers: the replied-to
/// sender and a colon, then the replied-to body: cut to its first 47
/// characters and an ellipsis when it is over 50 bytes and over 50
/// characters long; "Replying..." while it is not known (empty).
pub open spec fn reply_snippet_spec(sender: Seq<char>, body: Seq<char>) -> Seq<char> {
    let prefix = if sender.len() == 0 {
        Seq::empty()
    } else {
        sender + seq![':', ' ']
    };
    prefix + if encode_utf8(body).len() <= 50 {
        if body.len() == 0 {
            seq!['R', 'e', 'p', 'l', 'y', 'i', 'n', 'g', '.', '.', '.']
        } else {
            body
        }
    } else if body.len() > 50 {
        body.take(47) + seq!['.', '.', '.']
    } else {
        body
    }
}

/// The reply line for the replied-to `sender` and `body`.
pub fn reply_snippet(sender: &str, body: &str) -> (r: String)
    ensures
        r@ == reply_snippet_spec(sender@, body@),
{
    let mut out: Vec<char> = Vec::new();
    if !sender.is_empty() {
        out = chars_of(sender);
        out.push(':');
        out.push(' ');
    }
    let ghost prefix = out@;
    let cs = chars_of(body);
    let blen = body.as_bytes().len();
    assert(blen == encode_utf8(body@).len());
    let n: usize = if blen <= 50 {
        if cs.len() == 0 {
            out.push('R');
            out.push('e');
            out.push('p');
            out.push('l');
            out.push('y');
            out.push('i');
            out.push('n');
            out.push('g');
            out.push('.');
            out.push('.');
            out.push('.');
            0
        } else {
            cs.len()
        }
    } else if cs.len() > 50 {
        47
    } else {
        cs.len()
    };
    let ghost before = out@;
    let mut i: usize = 0;
    while i < n
        invariant
            n <= cs@.len(),
            cs@ == body@,
            i <= n,
            out@ == before + cs@.take(i as int),
        decreases n - i,
    {
        out.push(cs[i]);
        i = i + 1;
        assert(out@ =~= before + cs@.take(i as int));
    }
    if blen > 50 && cs.len() > 50 {
        out.push('.');
        out.push('.');
        out.push('.');
    }
    proof {
        let p = if sender@.len() == 0 {
            Seq::<char>::empty()
        } else {
            sender@ + seq![':', ' ']
        };
        assert(prefix =~= p);
        assert(cs@.take(cs@.len() as int) =~= cs@);
        assert(cs@.take(0) =~= Seq::<char>::empty());
        if blen <= 50 {
            if cs@.len() == 0 {
                assert(out@ =~= p + seq!['R', 'e', 'p', 'l', 'y', 'i', 'n', 'g', '.', '.', '.']);
            } else {
                assert(out@ =~= p + body@);
            }
        } else if cs@.len() > 50 {
            assert(out@ =~= p + (body@.take(47) + seq!['.', '.', '.']));
        } else {
            assert(out@ =~= p + body@);
        }
        assert(out@ =~= reply_snippet_spec(sender@, body@));
    }
    string_from_chars(out.as_slice())
}

/// How many replies a message's thread shows under it: the larger of the
/// count the server gives and the count of replies seen, when there is a
/// reply, the message is not itself in a thread and no thread is open.
pub fn thread_reply_count(server_count: u32, seen_count: u32, in_thread: bool, thread_open: bool) -> (r: Option<u32>)
    ensures
        r == (if (server_count > 0 || seen_count > 0) && !in_thread && !thread_open {
            Some(if seen_count > server_count { seen_count } else { server_count })
        } else {
            None
        }),
{
    let n = if seen_count > server_count { seen_count } else { server_count };
    if n > 0 && !in_thread && !thread_open {
        Some(n)
    } else {
        None
    }
}

/// What a message's action row offers about its sender's message.
#[derive(Debug, Clone, Copy, PartialEq, Eq, Structural)]
pub enum SenderAction {
    Edit,
    Delete,
    Ignore,
    Unignore,
}

/// The actions a message offers: editing and deleting one's own message;
/// for another's, ignoring its sender, or taking that back where the
/// sender is already ignored.
pub open spec fn sender_actions_spec(is_me: bool, sender_ignored: bool) -> Seq<SenderAction> {
    if is_me {
        seq![SenderAction::Edit, SenderAction::Delete]
    } else if sender_ignored {
        seq![SenderAction::Unignore]
    } else {
        seq![SenderAction::Ignore]
    }
}

/// The actions the message of `sender_id` offers, given whether it is the
/// user's own and the users the user ignores.
pub fn sender_actions(is_me: bool, ignored_users: &Vec<String>, sender_id: &String) -> (r: Vec<SenderAction>)
    ensures
        r@ == sender_actions_spec(is_me, crate::space::strs_view(ignored_users@).contains(sender_id@)),
{
    let mut r: Vec<SenderAction> = Vec::new();
    if is_me {
        r.push(SenderAction::Edit);
        r.push(SenderAction::Delete);
    } else if crate::space::contains_string(ignored_users, sender_id) {
        r.push(SenderAction::Unignore);
    } else {
        r.push(SenderAction::Ignore);
    }
    assert(r@ =~= sender_actions_spec(is_me, crate::space::strs_view(ignored_users@).contains(sender_id@)));
    r
}

} // verus!
