//! Sync state, errors, room summaries and the homeserver address rule.
use vstd::prelude::*;
use crate::text::{chars_of, concat_str, string_from_chars};
use crate::space::{contains_string, strs_view};

verus! {

/// The state of the connection to the homeserver.
#[derive(Debug, Clone, PartialEq, Eq)]
pub enum SyncStatus {
    Disconnected,
    Syncing,
    Connected,
    Error(String),
    MissingSlidingSyncSupport,
}

/// Why syncing (or starting the engine, or logging in) failed.
#[derive(Debug, Clone)]
pub enum SyncError {
    MissingSlidingSyncSupport,
    Matrix(String),
    Http(String),
    Anyhow(String),
    Generic(String),
}

pub open spec fn missing_sliding_sync_text() -> Seq<char> {
    "Sliding Sync (MSC4186) is not supported by the homeserver"@
}

/// The message each error displays.
pub open spec fn sync_error_text(e: SyncError) -> Seq<char> {
    match e {
        SyncError::MissingSlidingSyncSupport => missing_sliding_sync_text(),
        SyncError::Matrix(s) => "Matrix error: "@ + s@,
        SyncError::Http(s) => "HTTP error: "@ + s@,
        SyncError::Anyhow(s) => "Error: "@ + s@,
        SyncError::Generic(s) => "Error: "@ + s@,
    }
}

impl SyncError {
    /// The error's message.
    pub fn to_string(&self) -> (r: String)
        ensures
            r@ == sync_error_text(*self),
    {
        match self {
            SyncError::MissingSlidingSyncSupport => {
                let s = "Sliding Sync (MSC4186) is not supported by the homeserver";
                s.to_owned()
            },
            SyncError::Matrix(s) => concat_str("Matrix error: ", s.as_str()),
            SyncError::Http(s) => concat_str("HTTP error: ", s.as_str()),
            SyncError::Anyhow(s) => concat_str("Error: ", s.as_str()),
            SyncError::Generic(s) => concat_str("Error: ", s.as_str()),
        }
    }
}

/// The sync status to show after a sync error: missing sliding sync support
/// has a status of its own, every other error shows its message.
pub fn status_for_error(e: &SyncError) -> (s: SyncStatus)
    ensures
        match *e {
            SyncError::MissingSlidingSyncSupport => s == SyncStatus::MissingSlidingSyncSupport,
            _ => s matches SyncStatus::Error(m) && m@ == sync_error_text(*e),
        },
{
    match e {
        SyncError::MissingSlidingSyncSupport => SyncStatus::MissingSlidingSyncSupport,
        _ => SyncStatus::Error(e.to_string()),
    }
}


/// `p` is a prefix of `s`.
pub open spec fn has_prefix(s: Seq<char>, p: Seq<char>) -> bool {
    p.len() <= s.len() && s.subrange(0, p.len() as int) == p
}

fn has_prefix_exec(s: &Vec<char>, p: &str) -> (r: bool)
    ensures
        r == has_prefix(s@, p@),
{
    let pc = chars_of(p);
    if pc.len() > s.len() {
        return false;
    }
    let mut i: usize = 0;
    while i < pc.len()
        invariant
            pc@ == p@,
            pc@.len() <= s@.len(),
            i <= pc@.len(),
            forall|k: int| 0 <= k < i ==> s@[k] == pc@[k],
        decreases pc@.len() - i,
    {
        if s[i] != pc[i] {
            assert(s@.subrange(0, pc@.len() as int)[i as int] != pc@[i as int]);
            return false;
        }
        i = i + 1;
    }
    assert(s@.subrange(0, pc@.len() as int) =~= pc@);
    true
}

/// The homeserver address used to connect: kept as given when it is
/// `https://…` or a local `http://` address (localhost, 127.0.0.1, [::1]);
/// otherwise `https://` followed by the address without any `http://`.
pub open spec fn homeserver_url_spec(h: Seq<char>) -> Seq<char> {
    if has_prefix(h, "https://"@) || has_prefix(h, "http://localhost"@) || has_prefix(
        h,
        "http://127.0.0.1"@,
    ) || has_prefix(h, "http://[::1]"@) {
        h
    } else if has_prefix(h, "http://"@) {
        "https://"@ + h.subrange("http://"@.len() as int, h.len() as int)
    } else {
        "https://"@ + h
    }
}

/// A local `http://` address or an `https://` one.
pub open spec fn kept_as_typed(h: Seq<char>) -> bool {
    has_prefix(h, "https://"@) || has_prefix(h, "http://localhost"@) || has_prefix(h, "http://127.0.0.1"@)
        || has_prefix(h, "http://[::1]"@)
}

/// Connecting always goes through HTTPS but for local addresses: an address
/// that is neither local nor already HTTPS becomes `https://` followed by it,
/// with a leading `http://` taken off (so it is one character longer); an
/// address kept as typed is returned unchanged; and normalising twice is
/// normalising once.
pub proof fn law_homeserver_upgraded_to_https(h: Seq<char>)
    ensures
        kept_as_typed(h) ==> homeserver_url_spec(h) == h,
        !kept_as_typed(h) ==> has_prefix(homeserver_url_spec(h), "https://"@),
        !kept_as_typed(h) && has_prefix(h, "http://"@) ==> homeserver_url_spec(h) == "https://"@
            + h.subrange(7, h.len() as int) && homeserver_url_spec(h).len() == h.len() + 1,
        !kept_as_typed(h) && !has_prefix(h, "http://"@) ==> homeserver_url_spec(h) == "https://"@ + h,
        homeserver_url_spec(homeserver_url_spec(h)) == homeserver_url_spec(h),
{
    reveal_strlit("https://");
    reveal_strlit("http://");
    let r = homeserver_url_spec(h);
    if !kept_as_typed(h) {
        assert(r.subrange(0, 8) =~= "https://"@);
        assert(has_prefix(r, "https://"@));
    }
}

/// The address to connect to for what the user typed as homeserver: plain
/// `http://` is only kept for local addresses, everything else uses HTTPS.
pub fn normalize_homeserver_url(homeserver: &str) -> (r: String)
    ensures
        r@ == homeserver_url_spec(homeserver@),
{
    let h = chars_of(homeserver);
    if has_prefix_exec(&h, "https://") || has_prefix_exec(&h, "http://localhost") || has_prefix_exec(
        &h,
        "http://127.0.0.1",
    ) || has_prefix_exec(&h, "http://[::1]") {
        return homeserver.to_owned();
    }
    let mut out = chars_of("https://");
    let ghost base = out@;
    let start: usize = if has_prefix_exec(&h, "http://") {
        proof {
            reveal_strlit("http://");
        }
        7
    } else {
        0
    };
    let mut i = start;
    while i < h.len()
        invariant
            h@ == homeserver@,
            base == "https://"@,
            start <= i <= h@.len(),
            out@ == base + h@.subrange(start as int, i as int),
        decreases h@.len() - i,
    {
        out.push(h[i]);
        i = i + 1;
        assert(out@ =~= base + h@.subrange(start as int, i as int));
    }
    proof {
        reveal_strlit("http://");
        assert(h@.subrange(0, h@.len() as int) =~= h@);
    }
    string_from_chars(out.as_slice())
}


/// The homeserver can do sliding sync: it announces the unstable feature
/// `org.matrix.msc4186` or the spec version `v1.11`.
pub open spec fn supports_sliding_sync_spec(features: Seq<Seq<char>>, versions: Seq<Seq<char>>) -> bool {
    features.contains("org.matrix.msc4186"@) || versions.contains("v1.11"@)
}

/// Whether syncing can start, given the unstable features and the spec
/// versions the homeserver announces: without sliding sync it cannot.
pub fn check_sliding_sync(unstable_features: &Vec<String>, versions: &Vec<String>) -> (r: Result<(), SyncError>)
    ensures
        r is Ok <==> supports_sliding_sync_spec(strs_view(unstable_features@), strs_view(versions@)),
        r matches Err(e) ==> e == SyncError::MissingSlidingSyncSupport,
{
    let feature = "org.matrix.msc4186".to_owned();
    let version = "v1.11".to_owned();
    if contains_string(unstable_features, &feature) || contains_string(versions, &version) {
        Ok(())
    } else {
        Err(SyncError::MissingSlidingSyncSupport)
    }
}

} // verus!
