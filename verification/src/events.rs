use vstd::prelude::*;

verus! {

/// Whether the subject of an event is a plain file or a directory.
#[derive(Clone, Copy, Debug, PartialEq, Eq, Structural)]
pub enum FileSystemTargetKind {
    File,
    Directory,
}

/// The subject of an event: a discriminator plus an OS-native path carried
/// as raw bytes (paths are never required to be valid UTF-8).
#[derive(Clone, Debug, PartialEq, Eq)]
pub struct FileSystemTarget {
    pub kind: FileSystemTargetKind,
    pub path: Vec<u8>,
}

/// The semantic verb of an event.
///
/// `MovedFrom` and `MovedTo` describe the two halves of one rename: each
/// carries the peer path of the pair as its payload, while its target names
/// the path the half is about.
#[derive(Clone, Debug, PartialEq, Eq)]
pub enum FileSystemEventType {
    Create,
    Modify,
    Delete,
    Move,
    MovedFrom(Vec<u8>),
    MovedTo(Vec<u8>),
    Unknown,
}

/// One delivered notification. `target` is `None` only when no path could be
/// resolved for the event.
#[derive(Clone, Debug, PartialEq, Eq)]
pub struct FileSystemEvent {
    pub event_type: FileSystemEventType,
    pub target: Option<FileSystemTarget>,
}

/// Tracer configuration. Currently empty; reserved for future tuning knobs.
#[derive(Clone, Copy, Debug, PartialEq, Eq, Structural)]
pub struct KanshiOptions {}

/// Mathematical image of a `FileSystemTarget`.
pub struct TargetView {
    pub kind: FileSystemTargetKind,
    pub path: Seq<u8>,
}

/// Mathematical image of a `FileSystemEventType`.
pub enum EventTypeView {
    Create,
    Modify,
    Delete,
    Move,
    MovedFrom(Seq<u8>),
    MovedTo(Seq<u8>),
    Unknown,
}

/// Mathematical image of a `FileSystemEvent`.
pub struct EventView {
    pub event_type: EventTypeView,
    pub target: Option<TargetView>,
}

impl View for FileSystemTarget {
    type V = TargetView;

    open spec fn view(&self) -> TargetView {
        TargetView { kind: self.kind, path: self.path@ }
    }
}

impl View for FileSystemEventType {
    type V = EventTypeView;

    open spec fn view(&self) -> EventTypeView {
        match self {
            FileSystemEventType::Create => EventTypeView::Create,
            FileSystemEventType::Modify => EventTypeView::Modify,
            FileSystemEventType::Delete => EventTypeView::Delete,
            FileSystemEventType::Move => EventTypeView::Move,
            FileSystemEventType::MovedFrom(peer) => EventTypeView::MovedFrom(peer@),
            FileSystemEventType::MovedTo(peer) => EventTypeView::MovedTo(peer@),
            FileSystemEventType::Unknown => EventTypeView::Unknown,
        }
    }
}

impl View for FileSystemEvent {
    type V = EventView;

    open spec fn view(&self) -> EventView {
        EventView {
            event_type: self.event_type@,
            target: match self.target {
                Some(t) => Some(t@),
                None => None,
            },
        }
    }
}

/// Copy a path; the copy holds the same bytes.
pub fn clone_path(p: &Vec<u8>) -> (r: Vec<u8>)
    ensures
        r@ == p@,
{
    let r = p.clone();
    proof {
        assert(r@ =~= p@);
    }
    r
}

/// The mathematical image of a sequence of delivered events.
pub open spec fn events_view(es: Seq<FileSystemEvent>) -> Seq<EventView> {
    es.map_values(|e: FileSystemEvent| e@)
}

} // verus!
