use kanshi::events::{FileSystemEvent, FileSystemEventType, FileSystemTarget, FileSystemTargetKind};
use kanshi::fsevents::{
    event_type_from_flags, kind_from_flags, process_fsevents_batch, FsEventRecord,
    FSE_ITEM_CREATED, FSE_ITEM_IS_DIR, FSE_ITEM_MODIFIED, FSE_ITEM_REMOVED, FSE_ITEM_RENAMED,
};

fn rec(path: &[u8], file_id: Option<i64>, flags: u32) -> FsEventRecord {
    FsEventRecord { path: path.to_vec(), file_id, flags }
}

fn ev(
    event_type: FileSystemEventType,
    kind: FileSystemTargetKind,
    path: &[u8],
) -> FileSystemEvent {
    FileSystemEvent {
        event_type,
        target: Some(FileSystemTarget { kind, path: path.to_vec() }),
    }
}

#[test]
fn flags_to_event_type_priority() {
    assert_eq!(event_type_from_flags(FSE_ITEM_CREATED), FileSystemEventType::Create);
    assert_eq!(
        event_type_from_flags(FSE_ITEM_CREATED | FSE_ITEM_REMOVED),
        FileSystemEventType::Delete
    );
    assert_eq!(
        event_type_from_flags(FSE_ITEM_CREATED | FSE_ITEM_RENAMED),
        FileSystemEventType::Move
    );
    assert_eq!(event_type_from_flags(FSE_ITEM_REMOVED), FileSystemEventType::Delete);
    assert_eq!(event_type_from_flags(FSE_ITEM_MODIFIED), FileSystemEventType::Modify);
    assert_eq!(event_type_from_flags(FSE_ITEM_RENAMED), FileSystemEventType::Move);
    assert_eq!(event_type_from_flags(FSE_ITEM_IS_DIR), FileSystemEventType::Unknown);
}

#[test]
fn flags_to_kind() {
    assert_eq!(kind_from_flags(FSE_ITEM_IS_DIR), FileSystemTargetKind::Directory);
    assert_eq!(kind_from_flags(FSE_ITEM_CREATED), FileSystemTargetKind::File);
}

#[test]
fn single_create_is_delivered_directly() {
    let batch = vec![rec(b"/R/a.txt", Some(41), FSE_ITEM_CREATED)];
    let out = process_fsevents_batch(&batch);
    assert_eq!(
        out,
        vec![ev(FileSystemEventType::Create, FileSystemTargetKind::File, b"/R/a.txt")]
    );
}

#[test]
fn rename_halves_pair_up_by_file_id() {
    let batch = vec![
        rec(b"/R/a.txt", Some(7), FSE_ITEM_RENAMED),
        rec(b"/R/b.txt", Some(7), FSE_ITEM_RENAMED),
    ];
    let out = process_fsevents_batch(&batch);
    assert_eq!(
        out,
        vec![
            FileSystemEvent {
                event_type: FileSystemEventType::MovedFrom(b"/R/b.txt".to_vec()),
                target: Some(FileSystemTarget {
                    kind: FileSystemTargetKind::File,
                    path: b"/R/a.txt".to_vec(),
                }),
            },
            FileSystemEvent {
                event_type: FileSystemEventType::MovedTo(b"/R/a.txt".to_vec()),
                target: Some(FileSystemTarget {
                    kind: FileSystemTargetKind::File,
                    path: b"/R/b.txt".to_vec(),
                }),
            },
        ]
    );
}

#[test]
fn rename_without_file_id_is_an_unpaired_move() {
    let batch = vec![rec(b"/R/a.txt", None, FSE_ITEM_RENAMED)];
    let out = process_fsevents_batch(&batch);
    assert_eq!(
        out,
        vec![ev(FileSystemEventType::Move, FileSystemTargetKind::File, b"/R/a.txt")]
    );
}

#[test]
fn half_without_a_peer_is_dropped_at_batch_end() {
    let batch = vec![rec(b"/R/a.txt", Some(7), FSE_ITEM_RENAMED)];
    let out = process_fsevents_batch(&batch);
    assert_eq!(out, Vec::<FileSystemEvent>::new());
}

#[test]
fn distinct_file_ids_do_not_pair() {
    let batch = vec![
        rec(b"/R/a.txt", Some(7), FSE_ITEM_RENAMED),
        rec(b"/R/b.txt", Some(8), FSE_ITEM_RENAMED),
    ];
    let out = process_fsevents_batch(&batch);
    assert_eq!(out, Vec::<FileSystemEvent>::new());
}

#[test]
fn other_events_keep_index_order_around_a_pair() {
    let batch = vec![
        rec(b"/R/one", None, FSE_ITEM_CREATED),
        rec(b"/R/a.txt", Some(7), FSE_ITEM_RENAMED),
        rec(b"/R/two", None, FSE_ITEM_MODIFIED),
        rec(b"/R/b.txt", Some(7), FSE_ITEM_RENAMED),
        rec(b"/R/three", None, FSE_ITEM_REMOVED),
    ];
    let out = process_fsevents_batch(&batch);
    assert_eq!(out.len(), 5);
    assert_eq!(
        out[0],
        ev(FileSystemEventType::Create, FileSystemTargetKind::File, b"/R/one")
    );
    assert_eq!(
        out[1],
        ev(FileSystemEventType::Modify, FileSystemTargetKind::File, b"/R/two")
    );
    // the pair is emitted contiguously once completed, source first
    assert_eq!(
        out[2].event_type,
        FileSystemEventType::MovedFrom(b"/R/b.txt".to_vec())
    );
    assert_eq!(out[2].target.as_ref().unwrap().path, b"/R/a.txt".to_vec());
    assert_eq!(
        out[3].event_type,
        FileSystemEventType::MovedTo(b"/R/a.txt".to_vec())
    );
    assert_eq!(out[3].target.as_ref().unwrap().path, b"/R/b.txt".to_vec());
    assert_eq!(
        out[4],
        ev(FileSystemEventType::Delete, FileSystemTargetKind::File, b"/R/three")
    );
}

#[test]
fn directory_rename_keeps_each_halves_kind() {
    let batch = vec![
        rec(b"/R/old", Some(9), FSE_ITEM_RENAMED | FSE_ITEM_IS_DIR),
        rec(b"/R/new", Some(9), FSE_ITEM_RENAMED | FSE_ITEM_IS_DIR),
    ];
    let out = process_fsevents_batch(&batch);
    assert_eq!(out.len(), 2);
    assert_eq!(out[0].target.as_ref().unwrap().kind, FileSystemTargetKind::Directory);
    assert_eq!(out[1].target.as_ref().unwrap().kind, FileSystemTargetKind::Directory);
}

#[test]
fn created_and_removed_collapse_to_delete() {
    let batch = vec![rec(b"/R/tmp", Some(3), FSE_ITEM_CREATED | FSE_ITEM_REMOVED)];
    let out = process_fsevents_batch(&batch);
    assert_eq!(
        out,
        vec![ev(FileSystemEventType::Delete, FileSystemTargetKind::File, b"/R/tmp")]
    );
}

#[test]
fn unknown_flags_are_delivered_as_unknown() {
    let batch = vec![rec(b"/R/a.txt", None, 0)];
    let out = process_fsevents_batch(&batch);
    assert_eq!(
        out,
        vec![ev(FileSystemEventType::Unknown, FileSystemTargetKind::File, b"/R/a.txt")]
    );
}

#[test]
fn empty_batch_delivers_nothing() {
    let out = process_fsevents_batch(&Vec::new());
    assert_eq!(out, Vec::<FileSystemEvent>::new());
}
