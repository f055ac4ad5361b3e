//! The event decoder: from a JSON response body to typed [`Event`] values.
//!
//! Extraction from the opaque JSON tree happens first, into a [`RawEnvelope`]
//! of plain optional fields; nothing is decided there. The decision — which
//! variant an envelope is, which fields it must carry, and when decoding
//! fails — is [`decode_envelope`], a verified function whose result equals
//! the mathematical decoder [`spec_decode`] on every input.
//!
//! Tolerance rule: an unrecognized type tag is never an error; it decodes to
//! the pass-through [`EventData::Other`] variant, so one newly introduced
//! server event type cannot block draining the feed. Only a malformed
//! envelope (missing id, global id, time or tag) or a recognized variant with
//! a missing or invalid required field fails, and that fails the whole batch.

use vstd::prelude::*;

use crate::events::{
    str_eq, Action, ChangeKind, Event, EventData, OtherEvent, RemoteChange, StateChange,
};
use crate::json::{json_get, json_is_number, json_str, json_u64};

verus! {

/// Why a batch failed to decode.
#[derive(Clone, Copy, PartialEq, Eq, Structural, Debug)]
pub enum DecodeError {
    /// The response body is not well-formed JSON.
    NotJson,
    /// The response body is not a JSON array.
    NotArray,
    /// An envelope has no integral `id` field.
    MissingId,
    /// An envelope has no integral `globalID` field.
    MissingGlobalId,
    /// An envelope has no textual `time` field.
    MissingTime,
    /// An envelope has no textual `type` tag.
    MissingType,
    /// A `RemoteChangeDetected` payload misses a required field or carries an
    /// unknown change kind or action word.
    BadRemoteChange,
    /// A `StateChanged` payload misses a required field.
    BadStateChange,
}

/// The plain fields a payload object may carry, before any decision on them.
/// Fields the known variants never read (such as the deprecated `folderID`)
/// are not extracted and are thereby ignored.
pub struct RawPayload {
    pub change_type: Option<String>,
    pub action: Option<String>,
    pub folder: Option<String>,
    pub path: Option<String>,
    pub label: Option<String>,
    pub modified_by: Option<String>,
    pub from: Option<String>,
    pub to: Option<String>,
    /// Whether the payload carries a numeric `duration` field.
    pub has_duration: bool,
}

/// An event envelope as extracted from the JSON tree: every field still
/// optional, no decision made yet.
pub struct RawEnvelope {
    pub id: Option<u64>,
    pub global_id: Option<u64>,
    pub time: Option<String>,
    pub event_type: Option<String>,
    pub payload: RawPayload,
}

/// The type tag of a remote change event.
pub open spec fn remote_tag() -> Seq<char> {
    "RemoteChangeDetected"@
}

/// The type tag of a sync-state transition event.
pub open spec fn state_tag() -> Seq<char> {
    "StateChanged"@
}

/// The change kind a payload word names, if any.
pub open spec fn change_kind_of(w: Seq<char>) -> Option<ChangeKind> {
    if w == "file"@ {
        Some(ChangeKind::File)
    } else {
        None
    }
}

/// The action a payload word names, if any.
pub open spec fn action_of(w: Seq<char>) -> Option<Action> {
    if w == "deleted"@ {
        Some(Action::Deleted)
    } else if w == "modified"@ {
        Some(Action::Modified)
    } else {
        None
    }
}

/// Whether a payload carries everything a remote change event requires.
pub open spec fn remote_payload_ok(p: RawPayload) -> bool {
    &&& p.change_type is Some && change_kind_of(p.change_type->0@) is Some
    &&& p.action is Some && action_of(p.action->0@) is Some
    &&& p.folder is Some
    &&& p.path is Some
    &&& p.label is Some
    &&& p.modified_by is Some
}

/// Whether a payload carries everything a state transition event requires.
pub open spec fn state_payload_ok(p: RawPayload) -> bool {
    &&& p.folder is Some
    &&& p.from is Some
    &&& p.to is Some
    &&& p.has_duration
}

/// The payload a type tag and raw payload decode to: a recognized tag demands
/// its required fields, any other tag passes through as `Other`.
pub open spec fn spec_classify(tag: String, p: RawPayload) -> Result<EventData, DecodeError> {
    if tag@ == remote_tag() {
        if remote_payload_ok(p) {
            Ok(
                EventData::RemoteChange(
                    RemoteChange {
                        change_kind: change_kind_of(p.change_type->0@)->0,
                        action: action_of(p.action->0@)->0,
                        folder: p.folder->0,
                        rel_path: p.path->0,
                        label: p.label->0,
                        modified_by: p.modified_by->0,
                    },
                ),
            )
        } else {
            Err(DecodeError::BadRemoteChange)
        }
    } else if tag@ == state_tag() {
        if state_payload_ok(p) {
            Ok(
                EventData::StateChange(
                    StateChange { folder: p.folder->0, from: p.from->0, to: p.to->0 },
                ),
            )
        } else {
            Err(DecodeError::BadStateChange)
        }
    } else {
        Ok(EventData::Other(OtherEvent { event_type: tag }))
    }
}

/// The event an envelope decodes to, or the error: the whole decoder as a
/// mathematical function.
pub open spec fn spec_decode(env: RawEnvelope) -> Result<Event, DecodeError> {
    if env.id is None {
        Err(DecodeError::MissingId)
    } else if env.global_id is None {
        Err(DecodeError::MissingGlobalId)
    } else if env.time is None {
        Err(DecodeError::MissingTime)
    } else if env.event_type is None {
        Err(DecodeError::MissingType)
    } else {
        match spec_classify(env.event_type->0, env.payload) {
            Ok(d) => Ok(
                Event { id: env.id->0, global_id: env.global_id->0, time: env.time->0, data: d },
            ),
            Err(e) => Err(e),
        }
    }
}

/// A whole batch of envelopes decoded in order, as a mathematical function:
/// every envelope decoding means the batch decodes element for element; the
/// first envelope that fails decides the batch's error.
pub open spec fn spec_decode_batch(envs: Seq<RawEnvelope>) -> Result<Seq<Event>, DecodeError>
    decreases envs.len(),
{
    if envs.len() == 0 {
        Ok(Seq::empty())
    } else {
        match spec_decode(envs.first()) {
            Err(e) => Err(e),
            Ok(ev) => match spec_decode_batch(envs.drop_first()) {
                Err(e) => Err(e),
                Ok(rest) => Ok(seq![ev] + rest),
            },
        }
    }
}

/// Element-for-element success is batch success.
proof fn lemma_batch_ok(envs: Seq<RawEnvelope>, events: Seq<Event>)
    requires
        events.len() == envs.len(),
        forall|i: int|
            0 <= i < envs.len() ==> ((#[trigger] spec_decode(envs[i])) matches Ok(ev)
                && events[i] == ev),
    ensures
        spec_decode_batch(envs) == Ok::<Seq<Event>, DecodeError>(events),
    decreases envs.len(),
{
    if envs.len() == 0 {
        assert(events =~= Seq::<Event>::empty());
    } else {
        assert(forall|i: int|
            0 <= i < envs.drop_first().len() ==> ((#[trigger] spec_decode(envs.drop_first()[i]))
                matches Ok(ev) && events.drop_first()[i] == ev)) by {
            assert(forall|i: int|
                0 <= i < envs.drop_first().len() ==> envs.drop_first()[i] == envs[i + 1]
                    && events.drop_first()[i] == events[i + 1]);
        }
        lemma_batch_ok(envs.drop_first(), events.drop_first());
        assert(spec_decode(envs[0]) matches Ok(ev) && events[0] == ev);
        assert(seq![events[0]] + events.drop_first() =~= events);
    }
}

/// The first failing envelope decides the batch's error.
proof fn lemma_batch_err(envs: Seq<RawEnvelope>, i: int, e: DecodeError)
    requires
        0 <= i < envs.len(),
        spec_decode(envs[i]) == Err::<Event, DecodeError>(e),
        forall|j: int| 0 <= j < i ==> (#[trigger] spec_decode(envs[j])) is Ok,
    ensures
        spec_decode_batch(envs) == Err::<Seq<Event>, DecodeError>(e),
    decreases i,
{
    if i > 0 {
        assert(spec_decode(envs[0]) is Ok);
        assert(envs.drop_first()[i - 1] == envs[i]);
        assert(forall|j: int|
            0 <= j < i - 1 ==> (#[trigger] spec_decode(envs.drop_first()[j])) is Ok) by {
            assert(forall|j: int|
                0 <= j < i - 1 ==> envs.drop_first()[j] == envs[j + 1]);
        }
        lemma_batch_err(envs.drop_first(), i - 1, e);
    }
}

/// Decode one envelope. The result is exactly [`spec_decode`] of the input:
/// a recognized variant with all its required fields, or the pass-through
/// `Other` variant for an unrecognized tag, or the error that names the first
/// missing piece.
pub fn decode_envelope(env: RawEnvelope) -> (r: Result<Event, DecodeError>)
    ensures
        r == spec_decode(env),
{
    let RawEnvelope { id, global_id, time, event_type, payload } = env;
    let id = match id {
        Some(n) => n,
        None => {
            return Err(DecodeError::MissingId);
        },
    };
    let global_id = match global_id {
        Some(n) => n,
        None => {
            return Err(DecodeError::MissingGlobalId);
        },
    };
    let time = match time {
        Some(t) => t,
        None => {
            return Err(DecodeError::MissingTime);
        },
    };
    let tag = match event_type {
        Some(t) => t,
        None => {
            return Err(DecodeError::MissingType);
        },
    };
    let data = if str_eq(tag.as_str(), "RemoteChangeDetected") {
        let RawPayload { change_type, action, folder, path, label, modified_by, .. } = payload;
        let change_kind = match change_type {
            Some(w) => {
                if str_eq(w.as_str(), "file") {
                    ChangeKind::File
                } else {
                    return Err(DecodeError::BadRemoteChange);
                }
            },
            None => {
                return Err(DecodeError::BadRemoteChange);
            },
        };
        let action = match action {
            Some(w) => {
                if str_eq(w.as_str(), "deleted") {
                    Action::Deleted
                } else if str_eq(w.as_str(), "modified") {
                    Action::Modified
                } else {
                    return Err(DecodeError::BadRemoteChange);
                }
            },
            None => {
                return Err(DecodeError::BadRemoteChange);
            },
        };
        let (folder, rel_path, label, modified_by) = match (folder, path, label, modified_by) {
            (Some(f), Some(p), Some(l), Some(m)) => (f, p, l, m),
            _ => {
                return Err(DecodeError::BadRemoteChange);
            },
        };
        EventData::RemoteChange(
            RemoteChange { change_kind, action, folder, rel_path, label, modified_by },
        )
    } else if str_eq(tag.as_str(), "StateChanged") {
        let RawPayload { folder, from, to, has_duration, .. } = payload;
        let (folder, from, to) = match (folder, from, to) {
            (Some(f), Some(fr), Some(t)) => (f, fr, t),
            _ => {
                return Err(DecodeError::BadStateChange);
            },
        };
        if !has_duration {
            return Err(DecodeError::BadStateChange);
        }
        EventData::StateChange(StateChange { folder, from, to })
    } else {
        EventData::Other(OtherEvent { event_type: tag })
    };
    Ok(Event { id, global_id, time, data })
}

/// An envelope whose type tag is recognized by nobody still decodes, into the
/// pass-through `Other` payload carrying that tag, as long as the envelope
/// fields themselves are present: an unknown event type is never an error.
pub proof fn lemma_unknown_tag_decodes(env: RawEnvelope)
    requires
        env.id is Some,
        env.global_id is Some,
        env.time is Some,
        env.event_type is Some,
        (env.event_type->0)@ != remote_tag(),
        (env.event_type->0)@ != state_tag(),
    ensures
        spec_decode(env) matches Ok(ev) && ev.data == EventData::Other(
            OtherEvent { event_type: env.event_type->0 },
        ),
{
}

/// Pull one optional string field out of a payload object.
fn field_str(data: Option<&serde_json::Value>, key: &str) -> Option<String> {
    match data {
        Some(d) => match json_get(d, key) {
            Some(f) => json_str(f),
            None => None,
        },
        None => None,
    }
}

/// Extract the plain fields of one envelope from the JSON tree. No decision
/// is made here: absent or ill-typed fields come out as `None`, and
/// [`decode_envelope`] decides what that means.
fn extract_envelope(v: &serde_json::Value) -> RawEnvelope {
    let id = match json_get(v, "id") {
        Some(f) => json_u64(f),
        None => None,
    };
    let global_id = match json_get(v, "globalID") {
        Some(f) => json_u64(f),
        None => None,
    };
    let time = match json_get(v, "time") {
        Some(f) => json_str(f),
        None => None,
    };
    let event_type = match json_get(v, "type") {
        Some(f) => json_str(f),
        None => None,
    };
    let data = json_get(v, "data");
    let has_duration = match data {
        Some(d) => match json_get(d, "duration") {
            Some(f) => json_is_number(f),
            None => false,
        },
        None => false,
    };
    let payload = RawPayload {
        change_type: field_str(data, "type"),
        action: field_str(data, "action"),
        folder: field_str(data, "folder"),
        path: field_str(data, "path"),
        label: field_str(data, "label"),
        modified_by: field_str(data, "modifiedBy"),
        from: field_str(data, "from"),
        to: field_str(data, "to"),
        has_duration,
    };
    RawEnvelope { id, global_id, time, event_type, payload }
}

/// Decode a batch of envelopes, in order. Every envelope decoding is the
/// whole batch decoded, element for element in the order given; the first
/// envelope that fails fails the batch with its error. An unrecognized type
/// tag is not a failure, so it can never block draining the rest of the feed.
pub fn decode_batch(envs: Vec<RawEnvelope>) -> (r: Result<Vec<Event>, DecodeError>)
    ensures
        match r {
            Ok(events) => spec_decode_batch(envs@) == Ok::<Seq<Event>, DecodeError>(events@),
            Err(e) => spec_decode_batch(envs@) == Err::<Seq<Event>, DecodeError>(e),
        },
        r matches Ok(events) ==> {
            &&& events@.len() == envs@.len()
            &&& forall|i: int|
                0 <= i < envs@.len() ==> ((#[trigger] spec_decode(envs@[i])) matches Ok(ev)
                    && events@[i] == ev)
        },
        r matches Err(e) ==> exists|i: int|
            {
                &&& 0 <= i < envs@.len()
                &&& (#[trigger] spec_decode(envs@[i])) == Err::<Event, DecodeError>(e)
                &&& forall|j: int| 0 <= j < i ==> (#[trigger] spec_decode(envs@[j])) is Ok
            },
{
    let ghost all = envs@;
    let mut rest = envs;
    let mut out: Vec<Event> = Vec::new();
    while rest.len() > 0
        invariant
            all == envs@,
            out@.len() + rest@.len() == all.len(),
            rest@ == all.skip(out@.len() as int),
            forall|j: int|
                0 <= j < out@.len() ==> ((#[trigger] spec_decode(all[j])) matches Ok(ev)
                    && out@[j] == ev),
        decreases rest@.len(),
    {
        let ghost done = out@.len() as int;
        let env = rest.remove(0);
        proof {
            assert(env == all[done]);
            assert(rest@ =~= all.skip(done + 1));
        }
        match decode_envelope(env) {
            Ok(ev) => out.push(ev),
            Err(e) => {
                proof {
                    assert(spec_decode(all[done]) == Err::<Event, DecodeError>(e));
                    assert forall|j: int| 0 <= j < done implies (#[trigger] spec_decode(
                        all[j],
                    )) is Ok by {}
                    assert(exists|i: int|
                        {
                            &&& 0 <= i < all.len()
                            &&& (#[trigger] spec_decode(all[i])) == Err::<Event, DecodeError>(e)
                            &&& forall|j: int|
                                0 <= j < i ==> (#[trigger] spec_decode(all[j])) is Ok
                        }) by {
                        assert(0 <= done < all.len() && spec_decode(all[done]) == Err::<
                            Event,
                            DecodeError,
                        >(e) && (forall|j: int|
                            0 <= j < done ==> (#[trigger] spec_decode(all[j])) is Ok));
                    }
                    lemma_batch_err(all, done, e);
                }
                return Err(e);
            },
        }
    }
    proof {
        lemma_batch_ok(all, out@);
    }
    Ok(out)
}

/// The envelopes a poll response body extracts to, in server order — a
/// function of the body text alone: `NotJson` for text that is not a JSON
/// document, `NotArray` for a document that is not an array, otherwise one
/// [`RawEnvelope`] per array element, its fields as [`extract_envelope`]
/// reads them.
pub uninterp spec fn envelopes_of(body: Seq<char>) -> Result<Seq<RawEnvelope>, DecodeError>;

/// Relies on `serde_json::from_str`, `Value::as_array`, and the field
/// accessors behind [`extract_envelope`] (`Value::get`, `as_str`, `as_u64`,
/// `is_number`): what a body parses and extracts to is a function of the body
/// text alone, so the result is exactly [`envelopes_of`] of the text.
#[verifier::external_body]
fn extract_batch(body: &str) -> (r: Result<Vec<RawEnvelope>, DecodeError>)
    ensures
        match r {
            Ok(envs) => envelopes_of(body@) == Ok::<Seq<RawEnvelope>, DecodeError>(envs@),
            Err(e) => envelopes_of(body@) == Err::<Seq<RawEnvelope>, DecodeError>(e),
        },
{
    let root: serde_json::Value = match serde_json::from_str(body) {
        Ok(v) => v,
        Err(_) => return Err(DecodeError::NotJson),
    };
    let items = match root.as_array() {
        Some(a) => a,
        None => return Err(DecodeError::NotArray),
    };
    let mut out: Vec<RawEnvelope> = Vec::new();
    for item in items {
        out.push(extract_envelope(item));
    }
    Ok(out)
}

/// A whole poll response body decoded: the envelopes the text extracts to,
/// decoded in server order with the first error deciding.
pub open spec fn spec_decode_events(body: Seq<char>) -> Result<Seq<Event>, DecodeError> {
    match envelopes_of(body) {
        Err(e) => Err(e),
        Ok(envs) => spec_decode_batch(envs),
    }
}

/// Decode a whole poll response body: a JSON array of envelopes, decoded in
/// server order by [`decode_batch`]. The result is exactly
/// [`spec_decode_events`] of the body text.
pub fn decode_events(body: &str) -> (r: Result<Vec<Event>, DecodeError>)
    ensures
        match r {
            Ok(events) => spec_decode_events(body@) == Ok::<Seq<Event>, DecodeError>(events@),
            Err(e) => spec_decode_events(body@) == Err::<Seq<Event>, DecodeError>(e),
        },
{
    match extract_batch(body) {
        Ok(envs) => decode_batch(envs),
        Err(e) => Err(e),
    }
}

/// Whether a status word reports health: the daemon answers `OK`, and a
/// lower-case `ok` is accepted too.
pub open spec fn status_word_ok(w: Seq<char>) -> bool {
    w == "OK"@ || w == "ok"@
}

/// Whether a status word is a recognized healthy status.
pub fn status_ok(status: &str) -> (r: bool)
    ensures
        r == status_word_ok(status@),
{
    str_eq(status, "OK") || str_eq(status, "ok")
}

/// The status word of a health-endpoint response body — a function of the
/// body text alone: `Some` of the `status` field's text when the body is a
/// JSON object with a textual `status` field, `None` otherwise.
pub uninterp spec fn health_status_of(body: Seq<char>) -> Option<Seq<char>>;

/// Relies on `serde_json::from_str`, `Value::get` and `Value::as_str`: the
/// `status` field read out of a body is a function of the body text alone, so
/// the result is exactly [`health_status_of`] of the text.
#[verifier::external_body]
fn extract_status(body: &str) -> (r: Option<String>)
    ensures
        match r {
            Some(s) => health_status_of(body@) == Some(s@),
            None => health_status_of(body@) is None,
        },
{
    let root: serde_json::Value = match serde_json::from_str(body) {
        Ok(v) => v,
        Err(_) => return None,
    };
    match root.get("status") {
        Some(f) => f.as_str().map(|s| s.to_owned()),
        None => None,
    }
}

/// Whether a health-endpoint response body reports a healthy service: a JSON
/// object whose `status` field is a recognized healthy status word.
pub fn health_ok(body: &str) -> (r: bool)
    ensures
        r == (health_status_of(body@) matches Some(w) && status_word_ok(w)),
{
    match extract_status(body) {
        Some(s) => status_ok(s.as_str()),
        None => false,
    }
}

/// The local filesystem root named by a folder-configuration response body —
/// a function of the body text alone: `Some` of the `path` field's text when
/// the body is a JSON object with a textual `path` field, `None` otherwise.
pub uninterp spec fn folder_path_of(body: Seq<char>) -> Option<Seq<char>>;

/// Relies on `serde_json::from_str`, `Value::get` and `Value::as_str`: the
/// `path` field read out of a body is a function of the body text alone, so
/// the result is exactly [`folder_path_of`] of the text.
#[verifier::external_body]
fn extract_folder_path(body: &str) -> (r: Option<String>)
    ensures
        match r {
            Some(p) => folder_path_of(body@) == Some(p@),
            None => folder_path_of(body@) is None,
        },
{
    let root: serde_json::Value = match serde_json::from_str(body) {
        Ok(v) => v,
        Err(_) => return None,
    };
    match root.get("path") {
        Some(f) => f.as_str().map(|s| s.to_owned()),
        None => None,
    }
}

/// Extract the local filesystem root from a folder-configuration response
/// body: the textual `path` field of the JSON object, if present — exactly
/// [`folder_path_of`] of the body text.
pub fn folder_root(body: &str) -> (r: Option<String>)
    ensures
        match r {
            Some(p) => folder_path_of(body@) == Some(p@),
            None => folder_path_of(body@) is None,
        },
{
    extract_folder_path(body)
}

} // verus!
