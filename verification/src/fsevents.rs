use vstd::prelude::*;

use std::collections::HashMap;

use crate::errors::KanshiError;
use crate::events::{
    clone_path, events_view, EventTypeView, EventView, FileSystemEvent, FileSystemEventType,
    FileSystemTarget, FileSystemTargetKind, KanshiOptions, TargetView,
};

verus! {

broadcast use vstd::std_specs::hash::group_hash_axioms;

// Bits of the per-path flags bitmap delivered by the kernel's file-system
// event stream.
pub const FSE_ITEM_CREATED: u32 = 0x0000_0100;
pub const FSE_ITEM_REMOVED: u32 = 0x0000_0200;
pub const FSE_ITEM_RENAMED: u32 = 0x0000_0800;
pub const FSE_ITEM_MODIFIED: u32 = 0x0000_1000;
pub const FSE_ITEM_IS_DIR: u32 = 0x0002_0000;

/// The semantic verb for a flags bitmap. The created bit wins, but a
/// created-and-removed pair collapses to a delete and a created-and-renamed
/// pair to a move; otherwise removed, then modified, then renamed are tried
/// in that order; anything else is unknown.
pub open spec fn spec_event_type_from_flags(flags: u32) -> EventTypeView {
    if flags & FSE_ITEM_CREATED != 0 {
        if flags & FSE_ITEM_REMOVED != 0 {
            EventTypeView::Delete
        } else if flags & FSE_ITEM_RENAMED != 0 {
            EventTypeView::Move
        } else {
            EventTypeView::Create
        }
    } else if flags & FSE_ITEM_REMOVED != 0 {
        EventTypeView::Delete
    } else if flags & FSE_ITEM_MODIFIED != 0 {
        EventTypeView::Modify
    } else if flags & FSE_ITEM_RENAMED != 0 {
        EventTypeView::Move
    } else {
        EventTypeView::Unknown
    }
}

/// A flags bitmap describes a directory exactly when its is-directory bit
/// is set.
pub open spec fn spec_kind_from_flags(flags: u32) -> FileSystemTargetKind {
    if flags & FSE_ITEM_IS_DIR != 0 {
        FileSystemTargetKind::Directory
    } else {
        FileSystemTargetKind::File
    }
}

/// Map one entry's flags bitmap to its semantic verb.
pub fn event_type_from_flags(flags: u32) -> (t: FileSystemEventType)
    ensures
        t@ == spec_event_type_from_flags(flags),
{
    if flags & FSE_ITEM_CREATED != 0 {
        if flags & FSE_ITEM_REMOVED != 0 {
            FileSystemEventType::Delete
        } else if flags & FSE_ITEM_RENAMED != 0 {
            FileSystemEventType::Move
        } else {
            FileSystemEventType::Create
        }
    } else if flags & FSE_ITEM_REMOVED != 0 {
        FileSystemEventType::Delete
    } else if flags & FSE_ITEM_MODIFIED != 0 {
        FileSystemEventType::Modify
    } else if flags & FSE_ITEM_RENAMED != 0 {
        FileSystemEventType::Move
    } else {
        FileSystemEventType::Unknown
    }
}

/// Read the file-vs-directory discriminator out of a flags bitmap.
pub fn kind_from_flags(flags: u32) -> (k: FileSystemTargetKind)
    ensures
        k == spec_kind_from_flags(flags),
{
    if flags & FSE_ITEM_IS_DIR != 0 {
        FileSystemTargetKind::Directory
    } else {
        FileSystemTargetKind::File
    }
}

/// One entry of a callback batch, already lifted out of the kernel's
/// dictionary form: the UTF path bytes, the optional 64-bit file ID, and the
/// flags bitmap.
#[derive(Clone, Debug, PartialEq, Eq)]
pub struct FsEventRecord {
    pub path: Vec<u8>,
    pub file_id: Option<i64>,
    pub flags: u32,
}

/// Mathematical image of an `FsEventRecord`.
pub struct FsEventRecordView {
    pub path: Seq<u8>,
    pub file_id: Option<i64>,
    pub flags: u32,
}

impl View for FsEventRecord {
    type V = FsEventRecordView;

    open spec fn view(&self) -> FsEventRecordView {
        FsEventRecordView { path: self.path@, file_id: self.file_id, flags: self.flags }
    }
}

/// The mathematical image of a batch of records.
pub open spec fn records_view(rs: Seq<FsEventRecord>) -> Seq<FsEventRecordView> {
    rs.map_values(|r: FsEventRecord| r@)
}

/// The image of the rename-pairing map: file ID to the target of the
/// buffered first half.
pub open spec fn pending_view(m: Map<i64, FileSystemTarget>) -> Map<i64, TargetView> {
    Map::new(|k: i64| m.dom().contains(k), |k: i64| m[k]@)
}

/// The events that one callback batch delivers, given the rename halves
/// still waiting for their peer.
///
/// Entries are emitted in index order, except that a rename half whose file
/// ID is known is buffered until its peer arrives; the pair is then emitted
/// contiguously, source half first. The buffered first half names the source
/// path, the entry that completes the pair the destination. A rename half
/// without a file ID is emitted as a plain `Move`. Halves still buffered
/// when the batch ends are dropped.
pub open spec fn spec_process_batch(
    rs: Seq<FsEventRecordView>,
    pending: Map<i64, TargetView>,
) -> Seq<EventView>
    decreases rs.len(),
{
    if rs.len() == 0 {
        Seq::empty()
    } else {
        let r = rs[0];
        let rest = rs.drop_first();
        let tgt = TargetView { kind: spec_kind_from_flags(r.flags), path: r.path };
        let et = spec_event_type_from_flags(r.flags);
        match (et, r.file_id) {
            (EventTypeView::Move, Some(id)) => {
                if pending.contains_key(id) {
                    let src = pending[id];
                    seq![
                        EventView { event_type: EventTypeView::MovedFrom(r.path), target: Some(src) },
                        EventView {
                            event_type: EventTypeView::MovedTo(src.path),
                            target: Some(tgt),
                        },
                    ] + spec_process_batch(rest, pending.remove(id))
                } else {
                    spec_process_batch(rest, pending.insert(id, tgt))
                }
            },
            _ => seq![EventView { event_type: et, target: Some(tgt) }] + spec_process_batch(
                rest,
                pending,
            ),
        }
    }
}

/// Translate one callback batch into the events it delivers, pairing the
/// two halves of a rename by their shared file ID.
///
/// This is the whole per-batch decision: the caller only reads the kernel's
/// arrays into `records` and sends each returned event onward in order.
pub fn process_fsevents_batch(records: &Vec<FsEventRecord>) -> (out: Vec<FileSystemEvent>)
    ensures
        events_view(out@) == spec_process_batch(records_view(records@), Map::empty()),
{
    let ghost total = spec_process_batch(records_view(records@), Map::<i64, TargetView>::empty());
    let mut out: Vec<FileSystemEvent> = Vec::new();
    let mut pending: HashMap<i64, FileSystemTarget> = HashMap::new();
    let mut i: usize = 0;
    proof {
        assert(events_view(out@) =~= Seq::<EventView>::empty());
        assert(records_view(records@).skip(0) =~= records_view(records@));
        assert(pending_view(pending@) =~= Map::<i64, TargetView>::empty());
        assert(Seq::<EventView>::empty() + total =~= total);
    }
    while i < records.len()
        invariant
            i <= records.len(),
            events_view(out@) + spec_process_batch(
                records_view(records@).skip(i as int),
                pending_view(pending@),
            ) == total,
        decreases records.len() - i,
    {
        let ghost pre_out = out@;
        let ghost pre_pending = pending@;
        proof {
            assert(records_view(records@).skip(i as int)[0] == records@[i as int]@);
            assert(records_view(records@).skip(i as int).drop_first() =~= records_view(
                records@,
            ).skip(i as int + 1));
        }
        let r = &records[i];
        let kind = kind_from_flags(r.flags);
        let et = event_type_from_flags(r.flags);
        let tgt = FileSystemTarget { kind, path: clone_path(&r.path) };
        let ghost tgtv = tgt@;
        let is_move = (match &et {
            FileSystemEventType::Move => true,
            _ => false,
        });
        if is_move && r.file_id.is_some() {
            let id = r.file_id.unwrap();
            if pending.contains_key(&id) {
                let src = pending.remove(&id).unwrap();
                let ghost srcv = src@;
                let src_path = clone_path(&src.path);
                let e1 = FileSystemEvent {
                    event_type: FileSystemEventType::MovedFrom(clone_path(&r.path)),
                    target: Some(src),
                };
                let e2 = FileSystemEvent {
                    event_type: FileSystemEventType::MovedTo(src_path),
                    target: Some(tgt),
                };
                out.push(e1);
                out.push(e2);
                proof {
                    assert(pending_view(pre_pending)[id] == srcv);
                    assert(pending_view(pending@) =~= pending_view(pre_pending).remove(id));
                    assert(events_view(out@) =~= events_view(pre_out) + seq![e1@, e2@]);
                }
            } else {
                pending.insert(id, tgt);
                proof {
                    assert(!pending_view(pre_pending).contains_key(id));
                    assert(pending_view(pending@) =~= pending_view(pre_pending).insert(id, tgtv));
                }
            }
        } else {
            let e = FileSystemEvent { event_type: et, target: Some(tgt) };
            out.push(e);
            proof {
                assert(events_view(out@) =~= events_view(pre_out) + seq![e@]);
            }
        }
        i = i + 1;
    }
    proof {
        assert(records_view(records@).skip(records@.len() as int) =~= Seq::<
            FsEventRecordView,
        >::empty());
    }
    out
}

/// Renames a batch delivers come as contiguous ordered pairs: wherever a
/// `MovedFrom` event stands in the output, the event right after it is its
/// `MovedTo` peer, and the two describe the same rename — the first names
/// the source in its target and the destination in its payload, the second
/// the destination in its target and the source in its payload.
pub proof fn lemma_batch_pairs(rs: Seq<FsEventRecordView>, pending: Map<i64, TargetView>, j: int)
    requires
        0 <= j < spec_process_batch(rs, pending).len(),
        spec_process_batch(rs, pending)[j].event_type is MovedFrom,
    ensures
        j + 1 < spec_process_batch(rs, pending).len(),
        ({
            let out = spec_process_batch(rs, pending);
            let e1 = out[j];
            let e2 = out[j + 1];
            &&& e2.event_type is MovedTo
            &&& e1.target is Some
            &&& e2.target is Some
            &&& e1.event_type->MovedFrom_0 == e2.target->0.path
            &&& e2.event_type->MovedTo_0 == e1.target->0.path
        }),
    decreases rs.len(),
{
    if rs.len() == 0 {
    } else {
        let r = rs[0];
        let rest = rs.drop_first();
        let tgt = TargetView { kind: spec_kind_from_flags(r.flags), path: r.path };
        let et = spec_event_type_from_flags(r.flags);
        match (et, r.file_id) {
            (EventTypeView::Move, Some(id)) => {
                if pending.contains_key(id) {
                    if j >= 2 {
                        lemma_batch_pairs(rest, pending.remove(id), j - 2);
                    }
                } else {
                    lemma_batch_pairs(rest, pending.insert(id, tgt), j);
                }
            },
            _ => {
                if j >= 1 {
                    lemma_batch_pairs(rest, pending, j - 1);
                }
            },
        }
    }
}

/// The converse adjacency: wherever a `MovedTo` event stands in the
/// output, the event right before it is its `MovedFrom` peer. Together
/// with the lemma above, each paired rename yields exactly the two
/// opposite halves, side by side.
pub proof fn lemma_batch_pairs_converse(
    rs: Seq<FsEventRecordView>,
    pending: Map<i64, TargetView>,
    j: int,
)
    requires
        0 <= j < spec_process_batch(rs, pending).len(),
        spec_process_batch(rs, pending)[j].event_type is MovedTo,
    ensures
        j >= 1,
        ({
            let out = spec_process_batch(rs, pending);
            let e1 = out[j - 1];
            let e2 = out[j];
            &&& e1.event_type is MovedFrom
            &&& e1.target is Some
            &&& e2.target is Some
            &&& e1.event_type->MovedFrom_0 == e2.target->0.path
            &&& e2.event_type->MovedTo_0 == e1.target->0.path
        }),
    decreases rs.len(),
{
    if rs.len() == 0 {
    } else {
        let r = rs[0];
        let rest = rs.drop_first();
        let tgt = TargetView { kind: spec_kind_from_flags(r.flags), path: r.path };
        let et = spec_event_type_from_flags(r.flags);
        match (et, r.file_id) {
            (EventTypeView::Move, Some(id)) => {
                if pending.contains_key(id) {
                    if j >= 2 {
                        lemma_batch_pairs_converse(rest, pending.remove(id), j - 2);
                    }
                } else {
                    lemma_batch_pairs_converse(rest, pending.insert(id, tgt), j);
                }
            },
            _ => {
                if j >= 1 {
                    lemma_batch_pairs_converse(rest, pending, j - 1);
                }
            },
        }
    }
}

/// When every entry of a batch carries a non-empty path — the kernel
/// always names the path an event is about — and every buffered rename
/// half does too, then every delivered event carries a target with a
/// non-empty path; in particular every create, delete and modify event
/// does.
pub proof fn lemma_batch_paths_nonempty(
    rs: Seq<FsEventRecordView>,
    pending: Map<i64, TargetView>,
    j: int,
)
    requires
        forall|i: int| 0 <= i < rs.len() ==> rs[i].path.len() > 0,
        forall|id: i64| pending.contains_key(id) ==> pending[id].path.len() > 0,
        0 <= j < spec_process_batch(rs, pending).len(),
    ensures
        spec_process_batch(rs, pending)[j].target is Some,
        spec_process_batch(rs, pending)[j].target->0.path.len() > 0,
    decreases rs.len(),
{
    if rs.len() == 0 {
    } else {
        let r = rs[0];
        let rest = rs.drop_first();
        let tgt = TargetView { kind: spec_kind_from_flags(r.flags), path: r.path };
        let et = spec_event_type_from_flags(r.flags);
        assert(forall|i: int| 0 <= i < rest.len() ==> rest[i] == rs[i + 1]);
        match (et, r.file_id) {
            (EventTypeView::Move, Some(id)) => {
                if pending.contains_key(id) {
                    if j >= 2 {
                        lemma_batch_paths_nonempty(rest, pending.remove(id), j - 2);
                    }
                } else {
                    lemma_batch_paths_nonempty(rest, pending.insert(id, tgt), j);
                }
            },
            _ => {
                if j >= 1 {
                    lemma_batch_paths_nonempty(rest, pending, j - 1);
                }
            },
        }
    }
}

/// The native event-stream reference, held as an opaque handle word. The
/// type has no copy or clone: once the handle is taken out for release it
/// is gone, so it can be stopped, invalidated and released only once.
#[derive(Debug, PartialEq, Eq)]
pub struct WrappedEventStreamRef(pub usize);

/// The serial dispatch queue the stream is bound to, held as an opaque
/// handle word. No copy or clone: it can be released only once.
#[derive(Debug, PartialEq, Eq)]
pub struct WrappedDispatchQueue(pub usize);

/// Lifecycle core of the Darwin tracer: the cancellation flag, the two
/// native-handle slots — lazily populated by `start`, emptied by `close` —
/// and the directories registered before the stream is built. The kernel
/// calls themselves (building the native path array, creating the stream
/// and queue, releasing them) are made by the shell around the library,
/// which this state directs.
pub struct FSEventsTracer {
    pub cancelled: bool,
    pub stream: Option<WrappedEventStreamRef>,
    pub dispatch_queue: Option<WrappedDispatchQueue>,
    pub paths_to_watch: Vec<Vec<u8>>,
}

/// The tracer after `close`, with what the call returns: success, and the
/// handles the caller must now release. A first close surrenders both
/// slots; a repeated close changes nothing and surrenders nothing.
pub open spec fn spec_fsevents_close(t: FSEventsTracer) -> (
    FSEventsTracer,
    bool,
    Option<WrappedEventStreamRef>,
    Option<WrappedDispatchQueue>,
) {
    if t.cancelled {
        (t, true, None, None)
    } else {
        (
            FSEventsTracer { cancelled: true, stream: None, dispatch_queue: None, ..t },
            true,
            t.stream,
            t.dispatch_queue,
        )
    }
}

impl FSEventsTracer {
    /// The tracer is started once the stream slot is occupied.
    pub open spec fn started(&self) -> bool {
        self.stream is Some
    }

    /// A fresh tracer: nothing created yet, nothing registered.
    pub fn new(_opts: KanshiOptions) -> (t: FSEventsTracer)
        ensures
            !t.cancelled,
            !t.started(),
            t.dispatch_queue is None,
            t.paths_to_watch@.len() == 0,
    {
        FSEventsTracer {
            cancelled: false,
            stream: None,
            dispatch_queue: None,
            paths_to_watch: Vec::new(),
        }
    }

    /// Register a directory. `dir` is the path already resolved to absolute
    /// form by the caller, `exists` what the filesystem said of it.
    /// Registration is only open while the engine is neither started nor
    /// cancelled: it fails with already-started once the stream slot is
    /// occupied, with stream-closed after `close`, and with a filesystem
    /// error when the directory does not exist; otherwise the path joins
    /// the pending list. No kernel stream is installed here.
    pub fn watch(&mut self, dir: Vec<u8>, exists: bool) -> (r: Result<(), KanshiError>)
        ensures
            r is Ok <==> (!old(self).started() && !old(self).cancelled && exists),
            old(self).started() ==> r == Err::<(), KanshiError>(KanshiError::ListenerStartedError),
            !old(self).started() && old(self).cancelled ==> r == Err::<(), KanshiError>(
                KanshiError::StreamClosedError,
            ),
            !old(self).started() && !old(self).cancelled && !exists ==> (r matches Err(
                KanshiError::FileSystemError(_),
            )),
            r is Err ==> *final(self) == *old(self),
            r is Ok ==> {
                &&& final(self).cancelled == old(self).cancelled
                &&& final(self).stream == old(self).stream
                &&& final(self).dispatch_queue == old(self).dispatch_queue
                &&& final(self).paths_to_watch@ == old(self).paths_to_watch@.push(dir)
            },
    {
        if self.stream.is_some() {
            Err(KanshiError::ListenerStartedError)
        } else if self.cancelled {
            Err(KanshiError::StreamClosedError)
        } else if !exists {
            Err(KanshiError::FileSystemError("ENOENT Directory does not exist".to_string()))
        } else {
            self.paths_to_watch.push(dir);
            Ok(())
        }
    }

    /// Gate of `start`: fails with already-started once the stream slot is
    /// occupied, and with stream-closed after `close` — a cancelled tracer
    /// cannot be restarted.
    pub fn start_gate(&self) -> (r: Result<(), KanshiError>)
        ensures
            r is Ok <==> (!self.started() && !self.cancelled),
            self.started() ==> r == Err::<(), KanshiError>(KanshiError::ListenerStartedError),
            !self.started() && self.cancelled ==> r == Err::<(), KanshiError>(
                KanshiError::StreamClosedError,
            ),
    {
        if self.stream.is_some() {
            Err(KanshiError::ListenerStartedError)
        } else if self.cancelled {
            Err(KanshiError::StreamClosedError)
        } else {
            Ok(())
        }
    }

    /// Store the freshly created stream and queue handles in their slots
    /// for later teardown. `start` then awaits cancellation.
    pub fn install(&mut self, stream: WrappedEventStreamRef, queue: WrappedDispatchQueue)
        requires
            !old(self).started(),
        ensures
            *final(self) == (FSEventsTracer {
                stream: Some(stream),
                dispatch_queue: Some(queue),
                ..*old(self)
            }),
    {
        self.stream = Some(stream);
        self.dispatch_queue = Some(queue);
    }

    /// Close the tracer. Idempotent: an already-cancelled tracer reports
    /// success at once and hands back no handle, so nothing is released a
    /// second time. A first close cancels — which releases the `start`
    /// awaiter and ends every subscriber's stream — and moves whatever
    /// handles exist out of their slots; the caller must stop, invalidate
    /// and release them exactly once.
    pub fn close(&mut self) -> (r: (bool, Option<WrappedEventStreamRef>, Option<
        WrappedDispatchQueue,
    >))
        ensures
            ({
                let (t2, ok, s, q) = spec_fsevents_close(*old(self));
                *final(self) == t2 && r.0 == ok && r.1 == s && r.2 == q
            }),
    {
        if self.cancelled {
            (true, None, None)
        } else {
            self.cancelled = true;
            let s = self.stream.take();
            let q = self.dispatch_queue.take();
            (true, s, q)
        }
    }
}

/// `close` called twice returns true both times, and the second close
/// hands back no handle and changes nothing: whatever native references
/// existed were surrendered by the first close alone, so none is released
/// twice.
pub proof fn lemma_fsevents_close_idempotent(t: FSEventsTracer)
    ensures
        ({
            let (t1, ok1, _s1, _q1) = spec_fsevents_close(t);
            let (t2, ok2, s2, q2) = spec_fsevents_close(t1);
            ok1 && ok2 && s2 is None && q2 is None && t2 == t1
        }),
{
}

} // verus!
