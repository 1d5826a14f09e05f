//! Correlation of replies with the calls that are waiting for them.
//!
//! Every call takes a fresh identifier and leaves a completion handle in the
//! table under it; a reply is handed to the handle registered under its own
//! identifier, and to no other.
use vstd::prelude::*;
use std::collections::HashMap;
use vstd::std_specs::hash::group_hash_axioms;
use crate::error::LibreOfficeError;
use crate::json::Json;
use crate::message::{JsonRpcResponse, decode_response};

verus! {

broadcast use group_hash_axioms;

/// Seconds that a call waits for its reply.
pub const CALL_TIMEOUT_SECS: u64 = 30;

/// Identifiers handed out so far, and the handles of the calls still waiting.
pub struct PendingTable<H> {
    next_id: u64,
    pending: HashMap<u64, H>,
}

/// What the reader does with one event from the server's output.
pub enum ReaderEvent {
    /// A line, read as JSON where it is JSON.
    Line(Option<Json>),
    /// The output ended or could not be read.
    Closed,
}

/// What the reader is to do next.
pub enum ReaderAction<H> {
    /// Hand the reply to the waiting caller.
    Deliver(H, JsonRpcResponse),
    /// A reply that nobody waits for; drop it.
    Unmatched(JsonRpcResponse),
    /// A line that is no reply (diagnostic text); skip it.
    Skip,
    /// The server is gone: fail every call that still waits, and stop.
    Stop(HashMap<u64, H>),
}

/// The handle that a reader action hands a reply to, if any.
pub open spec fn delivered<H>(a: ReaderAction<H>) -> Option<H> {
    match a {
        ReaderAction::Deliver(h, _) => Some(h),
        _ => None,
    }
}

/// The handle under `id`, if there is one.
pub open spec fn handle_of<H>(m: Map<u64, H>, id: u64) -> Option<H> {
    if m.contains_key(id) {
        Some(m[id])
    } else {
        None
    }
}

impl<H> PendingTable<H> {
    /// The identifier that the next call will get.
    pub closed spec fn next(&self) -> u64 {
        self.next_id
    }

    /// The waiting calls, by identifier.
    pub closed spec fn entries(&self) -> Map<u64, H> {
        self.pending@
    }

    /// Identifiers start at 1, and every waiting call has one already handed out.
    pub closed spec fn wf(&self) -> bool {
        &&& self.next_id >= 1
        &&& forall|k: u64| #[trigger] self.pending@.contains_key(k) ==> k < self.next_id
    }

    /// An empty table whose first identifier is 1.
    pub fn new() -> (r: PendingTable<H>)
        ensures
            r.wf(),
            r.next() == 1,
            r.entries() == Map::<u64, H>::empty(),
    {
        PendingTable { next_id: 1, pending: HashMap::new() }
    }

    /// Hands out an identifier without registering a call (for the handshake,
    /// which reads its reply directly). Nothing once every `u64` is used.
    pub fn next_id(&mut self) -> (r: Option<u64>)
        requires
            old(self).wf(),
        ensures
            final(self).wf(),
            final(self).entries() == old(self).entries(),
            old(self).next() < u64::MAX ==> r == Some(old(self).next()) && final(self).next()
                == old(self).next() + 1,
            old(self).next() == u64::MAX ==> r is None && final(self).next() == old(self).next(),
            table_step(*old(self), *final(self), r),
    {
        if self.next_id == u64::MAX {
            return None;
        }
        let id = self.next_id;
        self.next_id = self.next_id + 1;
        Some(id)
    }

    /// Registers a call under a fresh identifier and returns the identifier.
    pub fn register(&mut self, handle: H) -> (r: Option<u64>)
        requires
            old(self).wf(),
        ensures
            final(self).wf(),
            old(self).next() < u64::MAX ==> r == Some(old(self).next()) && final(self).next()
                == old(self).next() + 1 && final(self).entries() == old(self).entries().insert(
                old(self).next(),
                handle,
            ),
            old(self).next() == u64::MAX ==> r is None && final(self).next() == old(self).next()
                && final(self).entries() == old(self).entries(),
            table_step(*old(self), *final(self), r),
    {
        if self.next_id == u64::MAX {
            return None;
        }
        let id = self.next_id;
        self.next_id = self.next_id + 1;
        self.pending.insert(id, handle);
        Some(id)
    }

    /// Takes out the handle of the call waiting under `id`, if there is one.
    pub fn complete(&mut self, id: u64) -> (r: Option<H>)
        requires
            old(self).wf(),
        ensures
            final(self).wf(),
            final(self).next() == old(self).next(),
            table_step(*old(self), *final(self), None),
            r == handle_of(old(self).entries(), id),
            final(self).entries() == old(self).entries().remove(id),
            delivery_step(*old(self), *final(self), id, r),
    {
        self.pending.remove(&id)
    }

    /// Gives up the call waiting under `id` (its wait timed out, or its
    /// request could not be sent): a later reply for it is dropped.
    /// Returns whether the call was still waiting.
    pub fn withdraw(&mut self, id: u64) -> (r: bool)
        requires
            old(self).wf(),
        ensures
            final(self).wf(),
            final(self).next() == old(self).next(),
            table_step(*old(self), *final(self), None),
            r == old(self).entries().contains_key(id),
            final(self).entries() == old(self).entries().remove(id),
    {
        let h = self.pending.remove(&id);
        h.is_some()
    }

    /// Takes out every waiting call, leaving the table empty.
    pub fn take_all(&mut self) -> (r: HashMap<u64, H>)
        requires
            old(self).wf(),
        ensures
            final(self).wf(),
            final(self).next() == old(self).next(),
            table_step(*old(self), *final(self), None),
            r@ == old(self).entries(),
            final(self).entries() == Map::<u64, H>::empty(),
    {
        let mut all: HashMap<u64, H> = HashMap::new();
        std::mem::swap(&mut all, &mut self.pending);
        all
    }

    /// How many calls are waiting.
    pub fn len(&self) -> (r: usize)
        ensures
            r == self.entries().len(),
    {
        self.pending.len()
    }

    /// Whether a call waits under `id`.
    pub fn is_pending(&self, id: u64) -> (r: bool)
        ensures
            r == self.entries().contains_key(id),
    {
        self.pending.contains_key(&id)
    }

    /// Handles one event of the reader: a reply goes to the call registered
    /// under its identifier; a line that is no reply is skipped; the end of the
    /// output fails every waiting call.
    pub fn on_event(&mut self, event: ReaderEvent) -> (r: ReaderAction<H>)
        requires
            old(self).wf(),
        ensures
            final(self).wf(),
            final(self).next() == old(self).next(),
            table_step(*old(self), *final(self), None),
            match event {
                ReaderEvent::Closed => r matches ReaderAction::Stop(all) && all@ == old(
                    self,
                ).entries() && final(self).entries() == Map::<u64, H>::empty(),
                ReaderEvent::Line(None) => r is Skip && final(self).entries() == old(
                    self,
                ).entries(),
                ReaderEvent::Line(Some(j)) => match decode_response(j) {
                    None => r is Skip && final(self).entries() == old(self).entries(),
                    Some(resp) => delivery_step(*old(self), *final(self), resp.id, delivered(r)) && if old(
                        self,
                    ).entries().contains_key(resp.id) {
                        r == ReaderAction::Deliver(old(self).entries()[resp.id], resp)
                            && final(self).entries() == old(self).entries().remove(resp.id)
                    } else {
                        r == ReaderAction::<H>::Unmatched(resp) && final(self).entries() == old(
                            self,
                        ).entries()
                    },
                },
            },
    {
        match event {
            ReaderEvent::Closed => ReaderAction::Stop(self.take_all()),
            ReaderEvent::Line(None) => ReaderAction::Skip,
            ReaderEvent::Line(Some(j)) => match JsonRpcResponse::from_json(j) {
                None => ReaderAction::Skip,
                Some(resp) => {
                    let ghost before = self.entries();
                    match self.complete(resp.id) {
                        Some(h) => ReaderAction::Deliver(h, resp),
                        None => {
                            assert(before.remove(resp.id) == before);
                            ReaderAction::Unmatched(resp)
                        },
                    }
                },
            },
        }
    }
}

/// The outcome of a call from its reply: the peer's error where there is one,
/// else the result, else an invalid response.
pub fn call_outcome(resp: JsonRpcResponse) -> (r: Result<Json, LibreOfficeError>)
    ensures
        match resp.error {
            Some(e) => r matches Err(LibreOfficeError::JsonRpcError { code, message }) && code
                == e.code && message == e.message,
            None => match resp.result {
                Some(v) => r == Ok::<Json, LibreOfficeError>(v),
                None => r matches Err(LibreOfficeError::InvalidResponse(m)) && m@
                    == "Response missing result"@,
            },
        },
{
    match resp.error {
        Some(e) => Err(LibreOfficeError::JsonRpcError { code: e.code, message: e.message }),
        None => match resp.result {
            Some(v) => Ok(v),
            None => Err(LibreOfficeError::InvalidResponse(String::from_str("Response missing result"))),
        },
    }
}

/// The error of a call whose reply did not come in time.
pub fn timeout_error() -> (r: LibreOfficeError)
    ensures
        r == LibreOfficeError::Timeout(CALL_TIMEOUT_SECS),
{
    LibreOfficeError::Timeout(CALL_TIMEOUT_SECS)
}

/// One operation of a table, as the operations' contracts describe it: an
/// identifier handed out is the table's `next`, which then grows by one; an
/// operation that hands out none leaves `next` as it was.
pub open spec fn table_step<H>(
    before: PendingTable<H>,
    after: PendingTable<H>,
    issued: Option<u64>,
) -> bool {
    match issued {
        Some(id) => id == before.next() && after.next() == before.next() + 1,
        None => after.next() == before.next(),
    }
}

/// No sequence of operations lowers `next`.
proof fn lemma_next_grows<H>(tables: Seq<PendingTable<H>>, issued: Seq<Option<u64>>, k: int, l: int)
    requires
        tables.len() == issued.len() + 1,
        forall|i: int| 0 <= i < issued.len() ==> table_step(#[trigger] tables[i], tables[i + 1], issued[i]),
        0 <= k <= l < tables.len(),
    ensures
        tables[k].next() <= tables[l].next(),
    decreases l - k,
{
    if k < l {
        lemma_next_grows(tables, issued, k, l - 1);
        assert(table_step(tables[l - 1], tables[l], issued[l - 1]));
    }
}

/// Identifiers are strictly increasing and never repeat: over any sequence of
/// operations on one table (`tables[i + 1]` is what operation `i` makes of
/// `tables[i]`, and `issued[i]` the identifier it handed out, if any), an
/// identifier handed out earlier is below every one handed out later.
pub proof fn lemma_ids_strictly_increase<H>(tables: Seq<PendingTable<H>>, issued: Seq<Option<u64>>)
    requires
        tables.len() == issued.len() + 1,
        forall|i: int| 0 <= i < issued.len() ==> table_step(#[trigger] tables[i], tables[i + 1], issued[i]),
    ensures
        forall|i: int, j: int|
            0 <= i < j < issued.len() && #[trigger] issued[i] is Some && #[trigger] issued[j] is Some
                ==> issued[i].unwrap() < issued[j].unwrap(),
{
    assert forall|i: int, j: int|
        0 <= i < j < issued.len() && #[trigger] issued[i] is Some && #[trigger] issued[j]
            is Some implies issued[i].unwrap() < issued[j].unwrap() by {
        assert(table_step(tables[i], tables[i + 1], issued[i]));
        assert(table_step(tables[j], tables[j + 1], issued[j]));
        lemma_next_grows(tables, issued, i + 1, j);
    }
}

/// One reply delivered, as `complete` and `on_event` describe it: the handle
/// under `id`, if any, comes out, and the table keeps the others.
pub open spec fn delivery_step<H>(
    before: PendingTable<H>,
    after: PendingTable<H>,
    id: u64,
    handle: Option<H>,
) -> bool {
    &&& handle == handle_of(before.entries(), id)
    &&& after.entries() == before.entries().remove(id)
}

/// Until a reply for it has come, a call keeps its handle in the table.
proof fn lemma_untouched_entries<H>(tables: Seq<PendingTable<H>>, ids: Seq<u64>, handles: Seq<Option<H>>, k: int, x: u64)
    requires
        tables.len() == ids.len() + 1,
        handles.len() == ids.len(),
        forall|i: int| 0 <= i < ids.len() ==> delivery_step(#[trigger] tables[i], tables[i + 1], ids[i], handles[i]),
        0 <= k < tables.len(),
        forall|i: int| 0 <= i < k ==> ids[i] != x,
    ensures
        handle_of(tables[k].entries(), x) == handle_of(tables[0].entries(), x),
    decreases k,
{
    if k > 0 {
        lemma_untouched_entries(tables, ids, handles, k - 1, x);
        assert(delivery_step(tables[k - 1], tables[k], ids[k - 1], handles[k - 1]));
    }
}

/// Replies reach their own callers, however many calls wait and in whatever
/// order the replies come: where the replies to the distinct identifiers
/// `ids` are delivered one after another (`tables[i + 1]` is what delivering
/// `ids[i]` makes of `tables[i]`, and `handles[i]` the handle it took out),
/// each reply reaches exactly the handle that was waiting under its identifier
/// before the first reply came.
pub proof fn lemma_deliveries_reach_their_callers<H>(
    tables: Seq<PendingTable<H>>,
    ids: Seq<u64>,
    handles: Seq<Option<H>>,
)
    requires
        tables.len() == ids.len() + 1,
        handles.len() == ids.len(),
        ids.no_duplicates(),
        forall|i: int| 0 <= i < ids.len() ==> delivery_step(#[trigger] tables[i], tables[i + 1], ids[i], handles[i]),
    ensures
        forall|i: int| 0 <= i < ids.len() ==> #[trigger] handles[i] == handle_of(tables[0].entries(), ids[i]),
{
    assert forall|i: int| 0 <= i < ids.len() implies #[trigger] handles[i] == handle_of(
        tables[0].entries(),
        ids[i],
    ) by {
        assert forall|k: int| 0 <= k < i implies ids[k] != ids[i] by {}
        lemma_untouched_entries(tables, ids, handles, i, ids[i]);
        assert(delivery_step(tables[i], tables[i + 1], ids[i], handles[i]));
    }
}

} // verus!
