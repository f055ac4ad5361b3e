//! Typed model of the daemon's change-feed events, and the rendering rules
//! the dispatcher uses: composing an absolute path from a folder root and a
//! folder-relative path, and the one-line human-readable summary of a change.

use vstd::prelude::*;
use vstd::string::StringExecFns;

verus! {

/// Kind of filesystem object a remote change event reports on.
#[derive(Clone, Copy, PartialEq, Eq, Structural, Debug)]
pub enum ChangeKind {
    File,
}

/// What happened to the changed object.
#[derive(Clone, Copy, PartialEq, Eq, Structural, Debug)]
pub enum Action {
    Deleted,
    Modified,
}

/// Payload of a remote change event: one file changed on a peer.
///
/// `rel_path` is relative to the root of the folder named by `folder`; the
/// feed never carries an absolute path, so a local path must be composed with
/// [`compose_path`] after the folder identifier is resolved.
#[derive(Debug)]
pub struct RemoteChange {
    pub change_kind: ChangeKind,
    pub action: Action,
    /// Opaque folder identifier, the key for folder-root resolution.
    pub folder: String,
    /// Path of the changed object, relative to the folder root.
    pub rel_path: String,
    /// Human-readable folder label, distinct from the identifier.
    pub label: String,
    /// Identifier of the peer the change came from.
    pub modified_by: String,
}

/// Payload of a folder-level sync-state transition. Observability only:
/// it triggers no path resolution and no notification.
#[derive(Debug)]
pub struct StateChange {
    pub folder: String,
    pub from: String,
    pub to: String,
}

/// Payload of an event whose type tag is not one of the recognized variants.
/// Such events pass through to the observability sink; they are never a
/// decode error, so one new server-side event type cannot block the feed.
#[derive(Debug)]
pub struct OtherEvent {
    /// The unrecognized type tag, kept for observability.
    pub event_type: String,
}

/// The tagged union of event payloads.
#[derive(Debug)]
pub enum EventData {
    RemoteChange(RemoteChange),
    StateChange(StateChange),
    Other(OtherEvent),
}

/// One envelope of the change feed.
#[derive(Debug)]
pub struct Event {
    /// Server-assigned, monotonically increasing id; the resumption watermark
    /// advances to this after the event is processed.
    pub id: u64,
    /// Cluster-wide sequence number; carried through, not used for resumption.
    pub global_id: u64,
    /// ISO-8601 timestamp text, opaque to this library.
    pub time: String,
    pub data: EventData,
}

/// Whether two strings hold the same characters.
pub fn str_eq(a: &str, b: &str) -> (r: bool)
    ensures
        r == (a@ == b@),
{
    let a_owned = a.to_owned();
    let b_owned = b.to_owned();
    a_owned.eq(&b_owned)
}

/// The word a change kind renders as in a summary line.
pub open spec fn change_word(k: ChangeKind) -> Seq<char> {
    match k {
        ChangeKind::File => "File"@,
    }
}

/// The word an action renders as in a summary line.
pub open spec fn action_word(a: Action) -> Seq<char> {
    match a {
        Action::Deleted => "Deleted"@,
        Action::Modified => "Modified"@,
    }
}

pub fn change_kind_text(k: ChangeKind) -> (r: &'static str)
    ensures
        r@ == change_word(k),
{
    match k {
        ChangeKind::File => "File",
    }
}

pub fn action_text(a: Action) -> (r: &'static str)
    ensures
        r@ == action_word(a),
{
    match a {
        Action::Deleted => "Deleted",
        Action::Modified => "Modified",
    }
}

/// A folder root joined with a folder-relative path: a separator is inserted
/// unless the root already ends with one or is empty.
pub open spec fn composed_path(root: Seq<char>, rel: Seq<char>) -> Seq<char> {
    if root.len() == 0 {
        rel
    } else if root.last() == '/' {
        root + rel
    } else {
        root + "/"@ + rel
    }
}

/// Compose the absolute local path for a change: the resolved folder root
/// joined with the event's folder-relative path. This is the only absolute
/// path ever handed to the notification layer.
pub fn compose_path(root: &str, rel: &str) -> (r: String)
    ensures
        r@ == composed_path(root@, rel@),
{
    let n = root.unicode_len();
    if n == 0 {
        return rel.to_owned();
    }
    let last = root.get_char(n - 1);
    let mut out = root.to_owned();
    if last != '/' {
        out.append("/");
    }
    out.append(rel);
    assert(out@ =~= composed_path(root@, rel@));
    out
}

/// The summary line for a change: the change kind's word, the action's word,
/// then the composed path, as `File Deleted: /root/rel`.
pub open spec fn summary_chars(k: ChangeKind, a: Action, path: Seq<char>) -> Seq<char> {
    change_word(k) + " "@ + action_word(a) + ": "@ + path
}

/// Render the human-readable summary of a change at the given composed path.
pub fn summary_line(k: ChangeKind, a: Action, path: &str) -> (r: String)
    ensures
        r@ == summary_chars(k, a, path@),
{
    let mut out = change_kind_text(k).to_owned();
    out.append(" ");
    out.append(action_text(a));
    out.append(": ");
    out.append(path);
    assert(out@ =~= summary_chars(k, a, path@));
    out
}

} // verus!
