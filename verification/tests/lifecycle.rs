use kanshi::errors::KanshiError;
use kanshi::events::{
    FileSystemEvent, FileSystemEventType, FileSystemTarget, FileSystemTargetKind, KanshiOptions,
};
use kanshi::fanotify::FanotifyTracer;
use kanshi::fsevents::{FSEventsTracer, WrappedDispatchQueue, WrappedEventStreamRef};
use kanshi::stream::{stream_step, RecvOutcome, StreamStep};
use kanshi::traversal::TraversalState;

fn some_event() -> FileSystemEvent {
    FileSystemEvent {
        event_type: FileSystemEventType::Create,
        target: Some(FileSystemTarget {
            kind: FileSystemTargetKind::File,
            path: b"/R/a.txt".to_vec(),
        }),
    }
}

#[test]
fn watch_after_close_is_refused() {
    let mut tracer = FanotifyTracer::new(KanshiOptions {});
    assert_eq!(tracer.watch_gate(), Ok(()));
    tracer.close_begin();
    assert_eq!(tracer.watch_gate(), Err(KanshiError::StreamClosedError));
}

#[test]
fn fanotify_close_twice_succeeds_and_skips_teardown() {
    let mut tracer = FanotifyTracer::new(KanshiOptions {});
    // first close: not yet cancelled, so the caller tears down the handles
    assert!(!tracer.close_begin());
    assert!(FanotifyTracer::close_result(true, true));
    // second close: already cancelled, the caller reports true untouched
    assert!(tracer.close_begin());
}

#[test]
fn fanotify_close_reports_teardown_failures() {
    assert!(!FanotifyTracer::close_result(false, true));
    assert!(!FanotifyTracer::close_result(true, false));
    assert!(!FanotifyTracer::close_result(false, false));
}

#[test]
fn event_loop_stops_once_cancelled() {
    let mut tracer = FanotifyTracer::new(KanshiOptions {});
    assert!(tracer.should_continue());
    tracer.close_begin();
    assert!(!tracer.should_continue());
}

#[test]
fn fsevents_close_surrenders_each_handle_once() {
    let mut tracer = FSEventsTracer::new(KanshiOptions {});
    tracer.install(WrappedEventStreamRef(7), WrappedDispatchQueue(9));
    let (ok, stream, queue) = tracer.close();
    assert!(ok);
    assert_eq!(stream, Some(WrappedEventStreamRef(7)));
    assert_eq!(queue, Some(WrappedDispatchQueue(9)));
    // a second close succeeds and hands back nothing: no double release
    let (ok2, stream2, queue2) = tracer.close();
    assert!(ok2);
    assert_eq!(stream2, None);
    assert_eq!(queue2, None);
}

#[test]
fn fsevents_close_before_start_has_nothing_to_release() {
    let mut tracer = FSEventsTracer::new(KanshiOptions {});
    let (ok, stream, queue) = tracer.close();
    assert!(ok);
    assert_eq!(stream, None);
    assert_eq!(queue, None);
}

#[test]
fn fsevents_watch_appends_pending_paths() {
    let mut tracer = FSEventsTracer::new(KanshiOptions {});
    assert_eq!(tracer.watch(b"/R".to_vec(), true), Ok(()));
    assert_eq!(tracer.watch(b"/R/sub".to_vec(), true), Ok(()));
    assert_eq!(tracer.paths_to_watch, vec![b"/R".to_vec(), b"/R/sub".to_vec()]);
}

#[test]
fn fsevents_watch_rejects_missing_directories() {
    let mut tracer = FSEventsTracer::new(KanshiOptions {});
    match tracer.watch(b"/R/gone".to_vec(), false) {
        Err(KanshiError::FileSystemError(_)) => {},
        other => panic!("expected a filesystem error, got {:?}", other),
    }
    assert!(tracer.paths_to_watch.is_empty());
}

#[test]
fn fsevents_watch_and_start_refuse_once_started() {
    let mut tracer = FSEventsTracer::new(KanshiOptions {});
    assert_eq!(tracer.start_gate(), Ok(()));
    tracer.install(WrappedEventStreamRef(1), WrappedDispatchQueue(2));
    assert_eq!(
        tracer.watch(b"/R".to_vec(), true),
        Err(KanshiError::ListenerStartedError)
    );
    assert_eq!(tracer.start_gate(), Err(KanshiError::ListenerStartedError));
}

#[test]
fn fsevents_cancelled_tracer_cannot_be_restarted() {
    let mut tracer = FSEventsTracer::new(KanshiOptions {});
    tracer.close();
    assert_eq!(tracer.start_gate(), Err(KanshiError::StreamClosedError));
    assert_eq!(
        tracer.watch(b"/R".to_vec(), true),
        Err(KanshiError::StreamClosedError)
    );
}

#[test]
fn subscriber_stream_ends_on_cancellation() {
    // close() wins the race while a subscriber awaits: the sequence ends
    // cleanly, whatever the channel still holds
    assert_eq!(stream_step(true, RecvOutcome::Event(some_event())), StreamStep::End);
    assert_eq!(stream_step(true, RecvOutcome::Closed), StreamStep::End);
    assert_eq!(stream_step(true, RecvOutcome::Lagged(4)), StreamStep::End);
}

#[test]
fn subscriber_stream_yields_skips_and_ends() {
    let e = some_event();
    assert_eq!(
        stream_step(false, RecvOutcome::Event(e.clone())),
        StreamStep::Yield(e)
    );
    assert_eq!(stream_step(false, RecvOutcome::Lagged(12)), StreamStep::Skip);
    assert_eq!(stream_step(false, RecvOutcome::Closed), StreamStep::End);
}

#[test]
fn traversal_visits_breadth_first() {
    let mut t = TraversalState::new(b"/R".to_vec());
    assert_eq!(t.next_dir(), Some(b"/R".to_vec()));
    assert!(t.observe_entry(10, false, true, b"/R/sub1".to_vec()));
    assert!(t.observe_entry(11, false, true, b"/R/sub2".to_vec()));
    assert_eq!(t.next_dir(), Some(b"/R/sub1".to_vec()));
    assert_eq!(t.next_dir(), Some(b"/R/sub2".to_vec()));
    assert_eq!(t.next_dir(), None);
}

#[test]
fn traversal_marks_an_inode_only_once() {
    let mut t = TraversalState::new(b"/R".to_vec());
    assert!(t.observe_entry(10, false, true, b"/R/sub".to_vec()));
    // a hard link to the same directory inode is not marked again
    assert!(!t.observe_entry(10, false, true, b"/R/alias".to_vec()));
}

#[test]
fn traversal_skips_symlinks_and_plain_files() {
    let mut t = TraversalState::new(b"/R".to_vec());
    assert!(!t.observe_entry(20, true, true, b"/R/link".to_vec()));
    assert!(!t.observe_entry(21, false, false, b"/R/file".to_vec()));
    // the file's inode was remembered all the same
    assert!(!t.observe_entry(21, false, true, b"/R/file-as-dir".to_vec()));
    // but the symlink's inode was not
    assert!(t.observe_entry(20, false, true, b"/R/real".to_vec()));
    assert_eq!(t.next_dir(), Some(b"/R".to_vec()));
    assert_eq!(t.next_dir(), Some(b"/R/real".to_vec()));
    assert_eq!(t.next_dir(), None);
}

#[test]
fn empty_directory_tree_ends_immediately() {
    let mut t = TraversalState::new(b"/R".to_vec());
    assert_eq!(t.next_dir(), Some(b"/R".to_vec()));
    assert_eq!(t.next_dir(), None);
}
