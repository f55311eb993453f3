use vstd::prelude::*;

use crate::errors::KanshiError;
use crate::events::{
    clone_path, EventTypeView, EventView, FileSystemEvent, FileSystemEventType, FileSystemTarget,
    FileSystemTargetKind, KanshiOptions, TargetView,
};

verus! {

// Bits of the kernel's filesystem-notification event mask, as delivered in
// each event record.
pub const FAN_MODIFY: u64 = 0x0000_0002;
pub const FAN_CREATE: u64 = 0x0000_0100;
pub const FAN_DELETE: u64 = 0x0000_0200;
pub const FAN_DELETE_SELF: u64 = 0x0000_0400;
pub const FAN_MOVE_SELF: u64 = 0x0000_0800;
pub const FAN_EVENT_ON_CHILD: u64 = 0x0800_0000;
pub const FAN_RENAME: u64 = 0x1000_0000;
pub const FAN_ONDIR: u64 = 0x4000_0000;

/// The kernel errno for "no such file or directory".
pub const ERRNO_NOENT: i32 = 2;

/// The semantic verb for a non-rename event mask, in first-match order:
/// create, then delete-self or delete, then modify, then move-self;
/// anything else is unknown.
pub open spec fn spec_event_type_from_mask(mask: u64) -> EventTypeView {
    if mask & FAN_CREATE != 0 {
        EventTypeView::Create
    } else if mask & FAN_DELETE_SELF != 0 {
        EventTypeView::Delete
    } else if mask & FAN_DELETE != 0 {
        EventTypeView::Delete
    } else if mask & FAN_MODIFY != 0 {
        EventTypeView::Modify
    } else if mask & FAN_MOVE_SELF != 0 {
        EventTypeView::Move
    } else {
        EventTypeView::Unknown
    }
}

/// A mask describes a directory exactly when its "on directory" bit is set.
pub open spec fn spec_kind_from_mask(mask: u64) -> FileSystemTargetKind {
    if mask & FAN_ONDIR != 0 {
        FileSystemTargetKind::Directory
    } else {
        FileSystemTargetKind::File
    }
}

/// Map a non-rename event mask to its semantic verb.
pub fn event_type_from_mask(mask: u64) -> (t: FileSystemEventType)
    ensures
        t@ == spec_event_type_from_mask(mask),
{
    if mask & FAN_CREATE != 0 {
        FileSystemEventType::Create
    } else if mask & FAN_DELETE_SELF != 0 {
        FileSystemEventType::Delete
    } else if mask & FAN_DELETE != 0 {
        FileSystemEventType::Delete
    } else if mask & FAN_MODIFY != 0 {
        FileSystemEventType::Modify
    } else if mask & FAN_MOVE_SELF != 0 {
        FileSystemEventType::Move
    } else {
        FileSystemEventType::Unknown
    }
}

/// Read the file-vs-directory discriminator out of an event mask.
pub fn kind_from_mask(mask: u64) -> (k: FileSystemTargetKind)
    ensures
        k == spec_kind_from_mask(mask),
{
    if mask & FAN_ONDIR != 0 {
        FileSystemTargetKind::Directory
    } else {
        FileSystemTargetKind::File
    }
}

/// A mark failure on a freshly created directory is tolerated exactly when
/// the kernel reports that the directory no longer exists (it was created
/// and removed before the mark landed); any other failure is fatal.
pub fn mark_error_is_fatal(errno: i32) -> (fatal: bool)
    ensures
        fatal <==> errno != ERRNO_NOENT,
{
    errno != ERRNO_NOENT
}

/// Append a record's name to the directory path resolved from its file
/// handle: no name or the self-entry `.` leaves the path alone, any other
/// name is joined with a `/` separator.
pub fn append_record_name(path: Vec<u8>, name: Option<Vec<u8>>) -> (r: Vec<u8>)
    ensures
        (match name {
            None => r@ == path@,
            Some(n) => {
                if n@ == seq![46u8] {
                    r@ == path@
                } else {
                    r@ == path@ + seq![47u8] + n@
                }
            },
        }),
{
    match name {
        None => path,
        Some(mut n) => {
            if n.len() == 1 && n[0] == 46 {
                proof {
                    assert(n@ =~= seq![46u8]);
                }
                path
            } else {
                let mut r = path;
                r.push(47);
                r.append(&mut n);
                r
            }
        },
    }
}

/// How a file-ID record is tagged inside a rename event: the record naming
/// the old directory and name, the one naming the new, or any other record.
#[derive(Clone, Copy, Debug, PartialEq, Eq, Structural)]
pub enum RecordInfoType {
    OldDirName,
    NewDirName,
    Other,
}

/// What resolving a record's opaque file handle to a path produced.
#[derive(Clone, Debug, PartialEq, Eq)]
pub enum RecordPath {
    /// The handle resolved; the record's name, if any, is already appended.
    Resolved(Vec<u8>),
    /// The kernel reported the handle stale: the object is gone, and the
    /// record must be skipped rather than treated as an error.
    Stale,
    /// Resolution failed with the given errno for any other reason.
    Failed(i32),
}

/// One file-ID record of an event, with its handle already resolved.
#[derive(Clone, Debug, PartialEq, Eq)]
pub struct ResolvedRecord {
    pub info_type: RecordInfoType,
    pub path: RecordPath,
}

/// Mathematical image of a `RecordPath`.
pub enum RecordPathView {
    Resolved(Seq<u8>),
    Stale,
    Failed(i32),
}

/// Mathematical image of a `ResolvedRecord`.
pub struct RecordView {
    pub info_type: RecordInfoType,
    pub path: RecordPathView,
}

impl View for RecordPath {
    type V = RecordPathView;

    open spec fn view(&self) -> RecordPathView {
        match self {
            RecordPath::Resolved(p) => RecordPathView::Resolved(p@),
            RecordPath::Stale => RecordPathView::Stale,
            RecordPath::Failed(e) => RecordPathView::Failed(*e),
        }
    }
}

impl View for ResolvedRecord {
    type V = RecordView;

    open spec fn view(&self) -> RecordView {
        RecordView { info_type: self.info_type, path: self.path@ }
    }
}

/// The mathematical image of an event's record list.
pub open spec fn record_seq_view(rs: Seq<ResolvedRecord>) -> Seq<RecordView> {
    rs.map_values(|r: ResolvedRecord| r@)
}

/// Mathematical image of an `Option`al path.
pub open spec fn opt_path_view(o: Option<Vec<u8>>) -> Option<Seq<u8>> {
    match o {
        Some(p) => Some(p@),
        None => None,
    }
}

/// What a decoded event obliges the running adapter to do next.
#[derive(Clone, Debug, PartialEq, Eq)]
pub enum LinuxOutcome {
    /// Send this one event.
    Emit(FileSystemEvent),
    /// Send the two halves of a reconstructed rename, in this order.
    EmitPair(FileSystemEvent, FileSystemEvent),
    /// Install a mark on the newly created directory, then send the event.
    /// A mark failure because the directory already vanished is tolerated;
    /// any other mark failure is fatal.
    EmitWithMark(FileSystemEvent, Vec<u8>),
    /// Drop the event: its only record went stale.
    Skip,
    /// Path resolution failed with this errno; the adapter stops with a
    /// filesystem error.
    Abort(i32),
}

/// Mathematical image of a `LinuxOutcome`.
pub enum LinuxOutcomeView {
    Emit(EventView),
    EmitPair(EventView, EventView),
    EmitWithMark(EventView, Seq<u8>),
    Skip,
    Abort(i32),
}

impl View for LinuxOutcome {
    type V = LinuxOutcomeView;

    open spec fn view(&self) -> LinuxOutcomeView {
        match self {
            LinuxOutcome::Emit(e) => LinuxOutcomeView::Emit(e@),
            LinuxOutcome::EmitPair(e1, e2) => LinuxOutcomeView::EmitPair(e1@, e2@),
            LinuxOutcome::EmitWithMark(e, p) => LinuxOutcomeView::EmitWithMark(e@, p@),
            LinuxOutcome::Skip => LinuxOutcomeView::Skip,
            LinuxOutcome::Abort(e) => LinuxOutcomeView::Abort(*e),
        }
    }
}

/// Walk a rename event's records for its two halves. Records are read in
/// order; the record tagged old-directory-name gives the source path, the
/// one tagged new-directory-name the destination. A stale handle stops the
/// walk, keeping the halves found so far; any other resolution failure
/// fails the walk with its errno.
pub open spec fn spec_rename_scan(
    rs: Seq<RecordView>,
    from: Option<Seq<u8>>,
    to: Option<Seq<u8>>,
) -> Result<(Option<Seq<u8>>, Option<Seq<u8>>), i32>
    decreases rs.len(),
{
    if rs.len() == 0 {
        Ok((from, to))
    } else {
        match rs[0].path {
            RecordPathView::Stale => Ok((from, to)),
            RecordPathView::Failed(e) => Err(e),
            RecordPathView::Resolved(p) => {
                let from2 = if rs[0].info_type == RecordInfoType::OldDirName {
                    Some(p)
                } else {
                    from
                };
                let to2 = if rs[0].info_type == RecordInfoType::NewDirName {
                    Some(p)
                } else {
                    to
                };
                spec_rename_scan(rs.drop_first(), from2, to2)
            },
        }
    }
}

/// Result of walking a non-rename event's records for a path.
pub enum PathScan {
    /// Every record resolved; the last resolved path, if any.
    Path(Option<Seq<u8>>),
    /// A stale handle: the whole event is skipped.
    Stale,
    /// A resolution failure with this errno: the adapter stops.
    Fail(i32),
}

/// Walk a non-rename event's records. The last resolved path wins; a stale
/// handle discards the event; any other resolution failure is fatal.
pub open spec fn spec_path_scan(rs: Seq<RecordView>, acc: Option<Seq<u8>>) -> PathScan
    decreases rs.len(),
{
    if rs.len() == 0 {
        PathScan::Path(acc)
    } else {
        match rs[0].path {
            RecordPathView::Stale => PathScan::Stale,
            RecordPathView::Failed(e) => PathScan::Fail(e),
            RecordPathView::Resolved(p) => spec_path_scan(rs.drop_first(), Some(p)),
        }
    }
}

/// The outcome one kernel event obliges: rename events are reassembled from
/// their two halves, everything else maps to a single verb with at most one
/// path; a created directory additionally asks for a fresh mark.
pub open spec fn spec_decode_fanotify_event(mask: u64, rs: Seq<RecordView>) -> LinuxOutcomeView {
    let kind = spec_kind_from_mask(mask);
    if mask & FAN_RENAME != 0 {
        match spec_rename_scan(rs, None, None) {
            Err(e) => LinuxOutcomeView::Abort(e),
            Ok((from, to)) => match (from, to) {
                (Some(src), Some(dst)) => LinuxOutcomeView::EmitPair(
                    EventView {
                        event_type: EventTypeView::MovedFrom(dst),
                        target: Some(TargetView { kind, path: src }),
                    },
                    EventView {
                        event_type: EventTypeView::MovedTo(src),
                        target: Some(TargetView { kind, path: dst }),
                    },
                ),
                (Some(src), None) => LinuxOutcomeView::Emit(
                    EventView {
                        event_type: EventTypeView::Move,
                        target: Some(TargetView { kind, path: src }),
                    },
                ),
                (None, Some(dst)) => LinuxOutcomeView::Emit(
                    EventView {
                        event_type: EventTypeView::Move,
                        target: Some(TargetView { kind, path: dst }),
                    },
                ),
                (None, None) => LinuxOutcomeView::Emit(
                    EventView {
                        event_type: EventTypeView::Move,
                        target: Some(TargetView { kind, path: Seq::empty() }),
                    },
                ),
            },
        }
    } else {
        let et = spec_event_type_from_mask(mask);
        match spec_path_scan(rs, None) {
            PathScan::Fail(e) => LinuxOutcomeView::Abort(e),
            PathScan::Stale => LinuxOutcomeView::Skip,
            PathScan::Path(acc) => match acc {
                Some(path) => {
                    if path.len() > 0 {
                        let ev = EventView { event_type: et, target: Some(TargetView { kind, path }) };
                        if mask & FAN_CREATE != 0 && kind == FileSystemTargetKind::Directory {
                            LinuxOutcomeView::EmitWithMark(ev, path)
                        } else {
                            LinuxOutcomeView::Emit(ev)
                        }
                    } else {
                        LinuxOutcomeView::Emit(EventView { event_type: et, target: None })
                    }
                },
                None => LinuxOutcomeView::Emit(EventView { event_type: et, target: None }),
            },
        }
    }
}

/// Decode one kernel event — its mask and its resolved records — into the
/// action the adapter performs: the exact events to send, a mark to install
/// first, a skip, or a fatal errno.
#[verifier::loop_isolation(false)]
pub fn decode_fanotify_event(mask: u64, records: &Vec<ResolvedRecord>) -> (o: LinuxOutcome)
    ensures
        o@ == spec_decode_fanotify_event(mask, record_seq_view(records@)),
{
    let ghost rv = record_seq_view(records@);
    let kind = kind_from_mask(mask);
    if mask & FAN_RENAME != 0 {
        let ghost goal = spec_rename_scan(rv, None, None);
        let mut from: Option<Vec<u8>> = None;
        let mut to: Option<Vec<u8>> = None;
        let mut i: usize = 0;
        proof {
            assert(rv.skip(0) =~= rv);
        }
        while i < records.len()
            invariant
                i <= records@.len(),
                spec_rename_scan(rv.skip(i as int), opt_path_view(from), opt_path_view(to))
                    == goal,
            decreases records@.len() - i,
        {
            proof {
                assert(rv.skip(i as int)[0] == records@[i as int]@);
                assert(rv.skip(i as int).drop_first() =~= rv.skip(i as int + 1));
            }
            match &records[i].path {
                RecordPath::Stale => {
                    // The walk stops here; the halves found so far stand.
                    proof {
                        assert(rv.skip(records@.len() as int) =~= Seq::<RecordView>::empty());
                    }
                    i = records.len();
                },
                RecordPath::Failed(e) => {
                    return LinuxOutcome::Abort(*e);
                },
                RecordPath::Resolved(p) => {
                    if records[i].info_type == RecordInfoType::OldDirName {
                        from = Some(clone_path(p));
                    } else if records[i].info_type == RecordInfoType::NewDirName {
                        to = Some(clone_path(p));
                    }
                    i = i + 1;
                },
            }
        }
        proof {
            assert(rv.skip(records@.len() as int) =~= Seq::<RecordView>::empty());
        }
        match (from, to) {
            (Some(src), Some(dst)) => {
                let src_copy = clone_path(&src);
                let dst_copy = clone_path(&dst);
                let e1 = FileSystemEvent {
                    event_type: FileSystemEventType::MovedFrom(dst_copy),
                    target: Some(FileSystemTarget { kind, path: src }),
                };
                let e2 = FileSystemEvent {
                    event_type: FileSystemEventType::MovedTo(src_copy),
                    target: Some(FileSystemTarget { kind, path: dst }),
                };
                LinuxOutcome::EmitPair(e1, e2)
            },
            (Some(src), None) => LinuxOutcome::Emit(
                FileSystemEvent {
                    event_type: FileSystemEventType::Move,
                    target: Some(FileSystemTarget { kind, path: src }),
                },
            ),
            (None, Some(dst)) => LinuxOutcome::Emit(
                FileSystemEvent {
                    event_type: FileSystemEventType::Move,
                    target: Some(FileSystemTarget { kind, path: dst }),
                },
            ),
            (None, None) => LinuxOutcome::Emit(
                FileSystemEvent {
                    event_type: FileSystemEventType::Move,
                    target: Some(FileSystemTarget { kind, path: Vec::new() }),
                },
            ),
        }
    } else {
        let et = event_type_from_mask(mask);
        let ghost goal = spec_path_scan(rv, None);
        let mut path: Option<Vec<u8>> = None;
        let mut i: usize = 0;
        proof {
            assert(rv.skip(0) =~= rv);
        }
        while i < records.len()
            invariant
                i <= records@.len(),
                spec_path_scan(rv.skip(i as int), opt_path_view(path)) == goal,
            decreases records@.len() - i,
        {
            proof {
                assert(rv.skip(i as int)[0] == records@[i as int]@);
                assert(rv.skip(i as int).drop_first() =~= rv.skip(i as int + 1));
            }
            match &records[i].path {
                RecordPath::Stale => {
                    return LinuxOutcome::Skip;
                },
                RecordPath::Failed(e) => {
                    return LinuxOutcome::Abort(*e);
                },
                RecordPath::Resolved(p) => {
                    path = Some(clone_path(p));
                },
            }
            i = i + 1;
        }
        proof {
            assert(rv.skip(records@.len() as int) =~= Seq::<RecordView>::empty());
        }
        let has_path = (match &path {
            Some(p) => p.len() > 0,
            None => false,
        });
        if has_path {
            let p = path.unwrap();
            let is_dir = kind == FileSystemTargetKind::Directory;
            let ev = FileSystemEvent {
                event_type: et,
                target: Some(FileSystemTarget { kind, path: clone_path(&p) }),
            };
            if mask & FAN_CREATE != 0 && is_dir {
                LinuxOutcome::EmitWithMark(ev, p)
            } else {
                LinuxOutcome::Emit(ev)
            }
        } else {
            LinuxOutcome::Emit(FileSystemEvent { event_type: et, target: None })
        }
    }
}

/// A parsed copy of the kernel's variable-length file handle as it sits in
/// a notification record: a length field, a type field, and that many
/// opaque payload bytes. The handle identifies a filesystem object across
/// renames and may go stale once the object is gone.
#[derive(Clone, Debug, PartialEq, Eq)]
pub struct FileHandle {
    pub handle_bytes: u32,
    pub handle_type: i32,
    pub f_handle: Vec<u8>,
}

impl FileHandle {
    /// A handle is well formed when its length field counts exactly the
    /// payload bytes it carries.
    pub open spec fn wf(&self) -> bool {
        self.handle_bytes == self.f_handle@.len()
    }

    /// The number of bytes the handle occupies in a record: the eight
    /// header bytes and its payload.
    pub fn encoded_len(&self) -> (n: usize)
        requires
            self.f_handle@.len() + 8 <= usize::MAX,
        ensures
            n == self.f_handle@.len() + 8,
    {
        self.f_handle.len() + 8
    }
}

/// The 32-bit little-endian value at offset `i` of a byte string.
pub open spec fn spec_le32(s: Seq<u8>, i: int) -> u32
    recommends
        0 <= i,
        i + 4 <= s.len(),
{
    (s[i] as u32) | (s[i + 1] as u32) << 8 | (s[i + 2] as u32) << 16 | (s[i + 3] as u32) << 24
}

/// Read a file handle out of the raw bytes of a record, laid out as the
/// kernel writes them on the library's little-endian targets: the length
/// word, the type word, then as many payload bytes as the length word
/// counts. Returns nothing when the buffer is too short for the header or
/// for the payload the header announces.
pub fn parse_file_handle(buf: &Vec<u8>) -> (r: Option<FileHandle>)
    ensures
        (match r {
            Some(h) => {
                &&& buf@.len() >= 8
                &&& h.handle_bytes == spec_le32(buf@, 0)
                &&& h.handle_type == spec_le32(buf@, 4) as i32
                &&& 8 + h.handle_bytes <= buf@.len()
                &&& h.f_handle@ == buf@.subrange(8, 8 + h.handle_bytes as int)
                &&& h.wf()
            },
            None => buf@.len() < 8 || 8 + spec_le32(buf@, 0) > buf@.len(),
        }),
{
    if buf.len() < 8 {
        return None;
    }
    let hb: u32 = (buf[0] as u32) | (buf[1] as u32) << 8 | (buf[2] as u32) << 16 | (buf[3] as u32)
        << 24;
    let ht_word: u32 = (buf[4] as u32) | (buf[5] as u32) << 8 | (buf[6] as u32) << 16 | (buf[7]
        as u32) << 24;
    if hb as u64 + 8 > buf.len() as u64 {
        return None;
    }
    let blen: usize = buf.len();
    let mut payload: Vec<u8> = Vec::new();
    let mut i: usize = 0;
    while i < hb as usize
        invariant
            i <= hb as usize,
            blen == buf@.len(),
            8 + hb <= blen,
            payload@ == buf@.subrange(8, 8 + i as int),
        decreases hb as usize - i,
    {
        payload.push(buf[8 + i]);
        proof {
            assert(payload@ =~= buf@.subrange(8, 8 + i as int + 1));
        }
        i = i + 1;
    }
    Some(
        FileHandle {
            handle_bytes: hb,
            handle_type: #[verifier::truncate] (ht_word as i32),
            f_handle: payload,
        },
    )
}

/// For every rename that decodes to a pair, exactly two events come out,
/// `MovedFrom` first, and they describe one rename: the first names the
/// source in its target and the destination in its payload, the second the
/// destination in its target and the source in its payload, and both carry
/// the kind the mask reported.
pub proof fn lemma_fanotify_rename_pair(
    mask: u64,
    rs: Seq<RecordView>,
    e1: EventView,
    e2: EventView,
)
    requires
        spec_decode_fanotify_event(mask, rs) == LinuxOutcomeView::EmitPair(e1, e2),
    ensures
        e1.target is Some,
        e2.target is Some,
        e1.event_type matches EventTypeView::MovedFrom(dst) && dst == e2.target->0.path,
        e2.event_type matches EventTypeView::MovedTo(src) && src == e1.target->0.path,
        e1.target->0.kind == spec_kind_from_mask(mask),
        e2.target->0.kind == spec_kind_from_mask(mask),
{
}

/// Every decoded event that carries a create, delete or modify verb and a
/// target has a non-empty target path, and its kind is the one the mask
/// reported.
pub proof fn lemma_fanotify_event_path_nonempty(mask: u64, rs: Seq<RecordView>, e: EventView)
    requires
        (spec_decode_fanotify_event(mask, rs) matches LinuxOutcomeView::Emit(ev) && ev == e) || (
        spec_decode_fanotify_event(mask, rs) matches LinuxOutcomeView::EmitWithMark(ev, _) && ev
            == e),
        e.event_type is Create || e.event_type is Delete || e.event_type is Modify,
    ensures
        e.target matches Some(t) ==> t.path.len() > 0 && t.kind == spec_kind_from_mask(mask),
{
}

/// Lifecycle core of the Linux tracer. The kernel handles — the
/// notification descriptor and the readiness poller — are owned by the
/// shell around the library; this state takes every decision about them:
/// whether a watch may be installed, whether the event loop keeps running,
/// and what `close` must tear down.
pub struct FanotifyTracer {
    pub cancelled: bool,
}

/// The tracer after `close` has run: cancelled, whatever it was before.
pub open spec fn spec_fanotify_close(t: FanotifyTracer) -> (FanotifyTracer, bool) {
    (FanotifyTracer { cancelled: true }, t.cancelled)
}

impl FanotifyTracer {
    /// A fresh tracer is not cancelled.
    pub fn new(_opts: KanshiOptions) -> (t: FanotifyTracer)
        ensures
            !t.cancelled,
    {
        FanotifyTracer { cancelled: false }
    }

    /// Gate of `watch`: once the tracer is closed, registration fails with
    /// the stream-closed error before any mark is installed; otherwise the
    /// traversal may proceed.
    pub fn watch_gate(&self) -> (r: Result<(), KanshiError>)
        ensures
            r is Ok <==> !self.cancelled,
            self.cancelled ==> r == Err::<(), KanshiError>(KanshiError::StreamClosedError),
    {
        if self.cancelled {
            Err(KanshiError::StreamClosedError)
        } else {
            Ok(())
        }
    }

    /// The event loop of `start` takes another turn exactly while the
    /// tracer has not been cancelled.
    pub fn should_continue(&self) -> (r: bool)
        ensures
            r == !self.cancelled,
    {
        !self.cancelled
    }

    /// First half of `close`: flip the cancellation flag. Returns whether
    /// the tracer was already closed, in which case the caller reports
    /// success at once and touches no kernel resource; only a first close
    /// goes on to deregister the descriptor and flush the marks.
    pub fn close_begin(&mut self) -> (already: bool)
        ensures
            (*final(self), already) == spec_fanotify_close(*old(self)),
    {
        let already = self.cancelled;
        self.cancelled = true;
        already
    }

    /// Second half of a first `close`: it succeeded exactly when both
    /// teardown steps — deregistering from the poller and flushing the
    /// marks — succeeded.
    pub fn close_result(deregister_ok: bool, flush_ok: bool) -> (ok: bool)
        ensures
            ok == (deregister_ok && flush_ok),
    {
        deregister_ok && flush_ok
    }
}

/// Closing a closed tracer succeeds and is free of side effects: the second
/// of two consecutive closes reports "already closed" — so the caller
/// returns true without touching the kernel handles again — and leaves the
/// state exactly where the first close put it.
pub proof fn lemma_fanotify_close_idempotent(t: FanotifyTracer)
    ensures
        ({
            let (t1, _) = spec_fanotify_close(t);
            let (t2, already2) = spec_fanotify_close(t1);
            already2 && t2 == t1
        }),
{
}

/// A closed tracer accepts no watch: after any `close`, the `watch` gate
/// fails with the stream-closed error, so no mark is installed.
pub proof fn lemma_watch_after_close_refused(t: FanotifyTracer)
    ensures
        spec_fanotify_close(t).0.cancelled,
{
}

} // verus!
