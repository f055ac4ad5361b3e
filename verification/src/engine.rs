//! The resumable poll-loop engine: one watermark over event ids, one
//! folder-root cache, and the routing policy of the dispatcher.
//!
//! The engine does no I/O. A caller runs the loop around it: ask [`Engine::since`]
//! for the next poll's `since` parameter, decode the response, and for each
//! event in server order take the [`Plan`] from [`Engine::plan_event`], carry
//! it out, and advance the watermark with [`Engine::advance`] — always, even
//! when the side effect failed, so delivery is at-most-once and one bad event
//! never blocks resumption. When a plan asks for a folder fetch, the caller
//! fetches, hands the root to [`Engine::folder_resolved`], and plans the same
//! event again; a failed fetch is simply not handed in, which leaves the
//! cache free of negative entries and lets a later event retry.

use vstd::prelude::*;

use crate::events::{compose_path, composed_path, summary_chars, summary_line, Event, EventData};
use crate::resolver::Resolver;

verus! {

/// What the dispatcher should do with one event.
pub enum Plan {
    /// Present a desktop notification: `body` is the human-readable summary
    /// of the change, `path` the composed absolute path, attached so that the
    /// notification's default action can open that exact file.
    Notify { body: String, path: String },
    /// The event's folder identifier is not cached yet: fetch its
    /// configuration, hand the root to [`Engine::folder_resolved`], and plan
    /// this event again.
    FetchFolder { folder_id: String },
    /// Pass the event through to the observability sink only: no path
    /// resolution, no notification.
    Observe,
}

/// The mathematical shape of a [`Plan`].
pub enum PlanView {
    Notify { body: Seq<char>, path: Seq<char> },
    FetchFolder { folder_id: Seq<char> },
    Observe,
}

impl View for Plan {
    type V = PlanView;

    open spec fn view(&self) -> PlanView {
        match self {
            Plan::Notify { body, path } => PlanView::Notify { body: body@, path: path@ },
            Plan::FetchFolder { folder_id } => PlanView::FetchFolder { folder_id: folder_id@ },
            Plan::Observe => PlanView::Observe,
        }
    }
}

/// The routing policy, as a function of the folder-root cache and the event:
/// a remote change notifies (through the cached root) or asks for the root
/// first; every other variant — recognized or not — is observed only.
pub open spec fn plan_of(cache: Map<Seq<char>, Seq<char>>, e: Event) -> PlanView {
    match e.data {
        EventData::RemoteChange(rc) => {
            if cache.contains_key(rc.folder@) {
                let path = composed_path(cache[rc.folder@], rc.rel_path@);
                PlanView::Notify {
                    body: summary_chars(rc.change_kind, rc.action, path),
                    path,
                }
            } else {
                PlanView::FetchFolder { folder_id: rc.folder@ }
            }
        },
        _ => PlanView::Observe,
    }
}

/// The poll-loop engine: the resumption watermark and the folder-root cache.
pub struct Engine {
    last_id: u64,
    resolver: Resolver,
}

impl Engine {
    /// The resumption watermark: the id of the last processed event, the
    /// `since` parameter of the next poll.
    pub closed spec fn watermark(&self) -> u64 {
        self.last_id
    }

    /// The folder-root cache, as a map from identifier to local root.
    pub closed spec fn cache(&self) -> Map<Seq<char>, Seq<char>> {
        self.resolver@
    }

    /// A fresh engine: watermark 0 — so that, without a bootstrap, the first
    /// poll returns the full backlog — and an empty cache.
    pub fn new() -> (r: Engine)
        ensures
            r.watermark() == 0,
            r.cache() == Map::<Seq<char>, Seq<char>>::empty(),
    {
        Engine { last_id: 0, resolver: Resolver::new() }
    }

    /// The `since` parameter of the next poll.
    pub fn since(&self) -> (r: u64)
        ensures
            r == self.watermark(),
    {
        self.last_id
    }

    /// Initialize the watermark from the bootstrap request (a poll with
    /// `since = 0` and `limit = 1`): the single returned event's id, or 0
    /// when nothing came back, which makes the first real poll an explicit
    /// catch-up over the full backlog.
    pub fn bootstrap(&mut self, events: &Vec<Event>)
        ensures
            final(self).cache() == old(self).cache(),
            final(self).watermark() == if events@.len() == 0 {
                0u64
            } else {
                events@.last().id
            },
    {
        if events.len() == 0 {
            self.last_id = 0;
        } else {
            self.last_id = events[events.len() - 1].id;
        }
    }

    /// Advance the watermark to a processed event's id, unconditionally: a
    /// failed side effect never blocks resumption, so side effects are
    /// at-most-once, and the cache is untouched.
    pub fn advance(&mut self, id: u64)
        ensures
            final(self).watermark() == id,
            final(self).cache() == old(self).cache(),
    {
        self.last_id = id;
    }

    /// Record a fetched folder root. Append-only: an identifier that is
    /// already cached keeps the root it was first resolved to, no other key
    /// changes, and the watermark is untouched. A failed fetch is recorded
    /// nowhere — there is no negative caching — so a later event for the
    /// same folder retries.
    pub fn folder_resolved(&mut self, folder_id: String, root: String)
        ensures
            final(self).watermark() == old(self).watermark(),
            old(self).cache().contains_key(folder_id@) ==> final(self).cache() == old(
                self,
            ).cache(),
            !old(self).cache().contains_key(folder_id@) ==> final(self).cache() == old(
                self,
            ).cache().insert(folder_id@, root@),
    {
        self.resolver.insert(folder_id, root);
    }

    /// Route one event. The result is exactly [`plan_of`] of the cache and
    /// the event; the engine itself is untouched, so planning an event twice
    /// (after its folder was resolved) is sound.
    pub fn plan_event(&self, e: &Event) -> (r: Plan)
        ensures
            r@ == plan_of(self.cache(), *e),
    {
        match &e.data {
            EventData::RemoteChange(rc) => {
                match self.resolver.lookup(rc.folder.as_str()) {
                    Some(root) => {
                        let path = compose_path(root.as_str(), rc.rel_path.as_str());
                        let body = summary_line(rc.change_kind, rc.action, path.as_str());
                        Plan::Notify { body, path }
                    },
                    None => Plan::FetchFolder { folder_id: rc.folder.clone() },
                }
            },
            _ => Plan::Observe,
        }
    }
}

/// The watermark left by a batch processed in order, each event advancing it
/// to its own id.
pub open spec fn watermark_after(init: u64, ids: Seq<u64>) -> u64
    decreases ids.len(),
{
    if ids.len() == 0 {
        init
    } else {
        watermark_after(ids[0], ids.drop_first())
    }
}

/// After any non-empty batch is processed in order, the watermark equals the
/// id of the batch's last event — whatever the events' payload variants, and
/// whatever their side effects did: the advance is unconditional.
pub proof fn lemma_watermark_after_batch(init: u64, ids: Seq<u64>)
    requires
        ids.len() > 0,
    ensures
        watermark_after(init, ids) == ids.last(),
    decreases ids.len(),
{
    if ids.len() == 1 {
        assert(ids.drop_first().len() == 0);
        assert(watermark_after(init, ids) == watermark_after(ids[0], ids.drop_first()));
        assert(watermark_after(ids[0], ids.drop_first()) == ids[0]);
    } else {
        lemma_watermark_after_batch(ids[0], ids.drop_first());
        assert(ids.drop_first().last() == ids.last());
    }
}

/// The ids a batch advances the watermark through, in server order.
pub open spec fn batch_ids(events: Seq<Event>) -> Seq<u64> {
    events.map(|i: int, e: Event| e.id)
}

/// For every event batch: after processing — each event advancing the
/// watermark to its own id — the watermark equals the id of the batch's last
/// element, regardless of whether any element's payload variant was
/// recognized or its side effect succeeded.
pub proof fn lemma_batch_leaves_last_id(init: u64, events: Seq<Event>)
    requires
        events.len() > 0,
    ensures
        watermark_after(init, batch_ids(events)) == events.last().id,
{
    lemma_watermark_after_batch(init, batch_ids(events));
    assert(batch_ids(events).last() == events.last().id);
}

/// The watermark never moves backwards: a poll returns only events past the
/// current watermark, with ids the server assigns in increasing order, so
/// processing any such batch leaves the watermark at or above where it was.
pub proof fn lemma_watermark_monotone(init: u64, ids: Seq<u64>)
    requires
        forall|i: int| 0 <= i < ids.len() ==> init <= #[trigger] ids[i],
    ensures
        init <= watermark_after(init, ids),
{
    if ids.len() > 0 {
        lemma_watermark_after_batch(init, ids);
    }
}

/// A sync-state transition is observability only: whatever its `from` and
/// `to` fields and whatever the cache holds, its plan is `Observe` — never a
/// notification, never a fetch. (Its id still advances the watermark through
/// `advance`, as for every event.)
pub proof fn lemma_state_change_only_observed(cache: Map<Seq<char>, Seq<char>>, e: Event)
    requires
        e.data matches EventData::StateChange(_),
    ensures
        plan_of(cache, e) == PlanView::Observe,
{
}

/// An event whose type tag nobody recognized is passed through to the
/// observability sink, never dropped silently and never notified.
pub proof fn lemma_other_only_observed(cache: Map<Seq<char>, Seq<char>>, e: Event)
    requires
        e.data matches EventData::Other(_),
    ensures
        plan_of(cache, e) == PlanView::Observe,
{
}

/// A failed folder resolution is isolated to its event. The engine records
/// nothing of a failure — the cache the two events see is one and the same —
/// so a later event in the batch whose folder is cached still plans its
/// notification, and the watermark, advanced unconditionally to each
/// attempted event's id in turn, never ends below the failed event's id:
/// the server assigns ids in increasing order, so the later id is at least
/// the failed one's.
pub proof fn lemma_failed_resolution_isolated(
    cache: Map<Seq<char>, Seq<char>>,
    failed: Event,
    later: Event,
)
    requires
        failed.data matches EventData::RemoteChange(rc) && !cache.contains_key(rc.folder@),
        later.data matches EventData::RemoteChange(rc) && cache.contains_key(rc.folder@),
        failed.id <= later.id,
    ensures
        plan_of(cache, failed) matches PlanView::FetchFolder { .. },
        plan_of(cache, later) matches PlanView::Notify { .. },
        failed.id <= watermark_after(failed.id, seq![later.id]),
{
    lemma_watermark_after_batch(failed.id, seq![later.id]);
}

/// At most one fetch per distinct folder identifier: once the cache holds a
/// root for a folder, the plan for any change event in that folder is the
/// notification composed from the cached root — never another fetch.
pub proof fn lemma_no_refetch_once_cached(cache: Map<Seq<char>, Seq<char>>, e: Event)
    requires
        e.data matches EventData::RemoteChange(rc) && cache.contains_key(rc.folder@),
    ensures
        plan_of(cache, e) matches PlanView::Notify { body, path } && (e.data matches
            EventData::RemoteChange(rc) && path == composed_path(cache[rc.folder@], rc.rel_path@)
            && body == summary_chars(rc.change_kind, rc.action, path)),
{
}

} // verus!
