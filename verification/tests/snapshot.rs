//! Tests of the snapshot reader: the four phases, the mandatory drain when
//! advancing phases, the data-node sentinel, and snapshot discovery.

use zklog::error::Error;
use zklog::persistence::snapshot::SnapshotFile;
use zklog::SessionId;
use zklog::Zxid;

fn push_i32(out: &mut Vec<u8>, v: i32) {
    out.extend_from_slice(&v.to_be_bytes());
}

fn push_i64(out: &mut Vec<u8>, v: i64) {
    out.extend_from_slice(&v.to_be_bytes());
}

fn push_u64(out: &mut Vec<u8>, v: u64) {
    out.extend_from_slice(&v.to_be_bytes());
}

fn push_str(out: &mut Vec<u8>, s: &str) {
    push_i32(out, s.len() as i32);
    out.extend_from_slice(s.as_bytes());
}

fn snap_header() -> Vec<u8> {
    let mut out = Vec::new();
    push_i32(&mut out, 0x5a4b_534e); // "ZKSN"
    push_i32(&mut out, 2);
    push_i64(&mut out, 88); // database id
    out
}

fn push_session(out: &mut Vec<u8>, id: i64, timeout: i32) {
    push_i64(out, id);
    push_i32(out, timeout);
}

fn push_acl_entry(out: &mut Vec<u8>, entry_id: i64, acls: &[(u32, &str, &str)]) {
    push_i64(out, entry_id);
    push_i32(out, acls.len() as i32);
    for (perms, scheme, id) in acls {
        push_i32(out, *perms as i32);
        push_str(out, scheme);
        push_str(out, id);
    }
}

fn push_stat(out: &mut Vec<u8>, czxid: i64, mzxid: i64) {
    push_i64(out, czxid);
    push_i64(out, mzxid);
    push_u64(out, 1000); // ctime
    push_u64(out, 2000); // mtime
    push_i32(out, 1); // version
    push_i32(out, 2); // cversion
    push_i32(out, 3); // aversion
    push_i64(out, 0); // ephemeral owner
    push_i64(out, czxid); // pzxid
}

fn push_data_node(out: &mut Vec<u8>, path: &str, data: &[u8], czxid: i64, mzxid: i64) {
    push_str(out, path);
    push_i32(out, data.len() as i32);
    out.extend_from_slice(data);
    push_i64(out, 4); // ACL cache reference
    push_stat(out, czxid, mzxid);
}

/// A snapshot with two sessions, one ACL cache entry, and two data nodes,
/// whose highest node transaction id is 0x64.
fn sample_snapshot() -> Vec<u8> {
    let mut out = snap_header();
    push_i32(&mut out, 2);
    push_session(&mut out, 0x11, 30000);
    push_session(&mut out, 0x22, 40000);
    push_i32(&mut out, 1);
    push_acl_entry(&mut out, 4, &[(31, "world", "anyone")]);
    push_data_node(&mut out, "/app", &[1, 2, 3], 0x50, 0x64);
    push_data_node(&mut out, "/app/x", &[], 0x60, 0x33);
    push_str(&mut out, "/"); // sentinel closing the section
    out
}

#[test]
fn read_snapshot() {
    let snap = SnapshotFile::new("snapshot.64", sample_snapshot()).unwrap();
    let zxid = snap.zxid();
    assert_eq!(zxid, Zxid(0x64));

    let mut snap = snap.sessions().unwrap();
    let mut session_ids = Vec::new();
    while let Some(s) = snap.next_session() {
        session_ids.push(s.unwrap().id);
    }
    assert_eq!(session_ids, vec![SessionId(0x11), SessionId(0x22)]);

    let mut snap = snap.acls().unwrap();
    let mut entries = 0;
    while let Some(a) = snap.next_acl_entry() {
        let entry = a.unwrap();
        assert_eq!(entry.entry_id.0, 4);
        assert_eq!(entry.acl.len(), 1);
        assert_eq!(entry.acl[0].id.scheme, "world");
        entries += 1;
    }
    assert_eq!(entries, 1);

    let mut snap = snap.data_nodes().unwrap();
    let mut max_zxid = Zxid(0);
    let mut count = 0;
    while let Some(x) = snap.next_data_node() {
        let (path, node) = x.unwrap();
        assert!(path == "/app" || path == "/app/x");
        if node.stat.czxid.0 > max_zxid.0 {
            max_zxid = node.stat.czxid;
        }
        if node.stat.mzxid.0 > max_zxid.0 {
            max_zxid = node.stat.mzxid;
        }
        count += 1;
    }
    // The sentinel itself is not handed out, and the highest node
    // transaction id of a well-formed capture is the capture's own.
    assert_eq!(count, 2);
    assert_eq!(max_zxid, zxid);
}

#[test]
fn snapshot_skip_sessions_lands_at_acl_section() {
    // Advancing to the ACL section without reading the sessions behaves
    // exactly like reading them all first: the same ACL entries come out.
    let consumed = {
        let snap = SnapshotFile::new("snapshot.64", sample_snapshot()).unwrap();
        let mut snap = snap.sessions().unwrap();
        let mut n = 0;
        while let Some(s) = snap.next_session() {
            s.unwrap();
            n += 1;
        }
        assert_eq!(n, 2);
        let mut snap = snap.acls().unwrap();
        let mut entries = Vec::new();
        while let Some(a) = snap.next_acl_entry() {
            entries.push(a.unwrap());
        }
        entries
    };
    let skipped = {
        let snap = SnapshotFile::new("snapshot.64", sample_snapshot()).unwrap();
        let snap = snap.sessions().unwrap();
        let mut snap = snap.acls().unwrap();
        let mut entries = Vec::new();
        while let Some(a) = snap.next_acl_entry() {
            entries.push(a.unwrap());
        }
        entries
    };
    assert_eq!(consumed, skipped);
    assert_eq!(consumed.len(), 1);
}

#[test]
fn snapshot_partially_consumed_sessions() {
    let snap = SnapshotFile::new("snapshot.64", sample_snapshot()).unwrap();
    let mut snap = snap.sessions().unwrap();
    let first = snap.next_session().unwrap().unwrap();
    assert_eq!(first.id, SessionId(0x11));
    // One of two sessions consumed: the transition drains the other.
    let mut snap = snap.acls().unwrap();
    let mut entries = 0;
    while let Some(a) = snap.next_acl_entry() {
        a.unwrap();
        entries += 1;
    }
    assert_eq!(entries, 1);
}

#[test]
fn snapshot_errored_section_stays_errored() {
    // The session count claims one session but the stream ends: the failed
    // decode marks the reader errored, and the phase transition fails.
    let mut data = snap_header();
    push_i32(&mut data, 1);
    let snap = SnapshotFile::new("snapshot.1", data).unwrap();
    let mut snap = snap.sessions().unwrap();
    assert_eq!(snap.next_session(), Some(Err(Error::Eof)));
    assert_eq!(snap.next_session(), None);
    assert!(matches!(snap.acls(), Err(Error::SectionErrored)));

    // The same stream, with the drain itself hitting the torn section.
    let mut data = snap_header();
    push_i32(&mut data, 1);
    let snap = SnapshotFile::new("snapshot.1", data).unwrap();
    let snap = snap.sessions().unwrap();
    assert!(matches!(snap.acls(), Err(Error::SectionErrored)));
}

#[test]
fn snapshot_negative_counts_are_empty() {
    // Negative session and ACL counts are null containers: both sections
    // are empty, with no error.
    let mut data = snap_header();
    push_i32(&mut data, -1); // null session section
    push_i32(&mut data, -7); // null ACL section
    push_str(&mut data, "/");
    let snap = SnapshotFile::new("snapshot.2", data).unwrap();
    let mut snap = snap.sessions().unwrap();
    assert_eq!(snap.next_session(), None);
    let mut snap = snap.acls().unwrap();
    assert_eq!(snap.next_acl_entry(), None);
    let mut snap = snap.data_nodes().unwrap();
    assert!(snap.next_data_node().is_none());
    assert!(snap.next_data_node().is_none());
}

#[test]
fn snapshot_acl_entry_with_null_list() {
    let mut data = snap_header();
    push_i32(&mut data, 0); // no sessions
    push_i32(&mut data, 1); // one ACL cache entry ...
    push_i64(&mut data, 9);
    push_i32(&mut data, -1); // ... whose list is the null container
    let snap = SnapshotFile::new("snapshot.3", data).unwrap();
    let snap = snap.sessions().unwrap();
    let mut snap = snap.acls().unwrap();
    let entry = snap.next_acl_entry().unwrap().unwrap();
    assert_eq!(entry.entry_id.0, 9);
    assert!(entry.acl.is_empty());
}

#[test]
fn snapshot_bad_name_or_header() {
    assert!(matches!(
        SnapshotFile::new("snapshot", sample_snapshot()),
        Err(Error::FormatMismatch)
    ));
    let mut data = Vec::new();
    push_i32(&mut data, 0x5a4b_4c47); // log magic in a snapshot
    push_i32(&mut data, 2);
    push_i64(&mut data, 0);
    assert!(matches!(SnapshotFile::new("snapshot.1", data), Err(Error::FormatMismatch)));
    let mut data = Vec::new();
    push_i32(&mut data, 0x5a4b_534e);
    push_i32(&mut data, 1); // wrong version
    push_i64(&mut data, 0);
    assert!(matches!(SnapshotFile::new("snapshot.1", data), Err(Error::FormatMismatch)));
}

#[test]
fn most_recent_snapshot_picks_last() {
    let names = vec![
        "snapshot.1".to_owned(),
        "log.5".to_owned(),
        "snapshot.3".to_owned(),
        "other".to_owned(),
    ];
    assert_eq!(
        SnapshotFile::most_recent_snapshot(&names),
        Some("snapshot.3".to_owned())
    );
    let none: Vec<String> = vec!["log.5".to_owned()];
    assert_eq!(SnapshotFile::most_recent_snapshot(&none), None);
}

#[test]
fn snapshot_skip_both_sections() {
    // Jumping straight to the data nodes drains sessions and ACL entries
    // alike: the same two nodes come out.
    let snap = SnapshotFile::new("snapshot.64", sample_snapshot()).unwrap();
    let snap = snap.sessions().unwrap();
    let snap = snap.acls().unwrap();
    let mut snap = snap.data_nodes().unwrap();
    let mut paths = Vec::new();
    while let Some(x) = snap.next_data_node() {
        paths.push(x.unwrap().0);
    }
    assert_eq!(paths, vec!["/app".to_owned(), "/app/x".to_owned()]);
}
