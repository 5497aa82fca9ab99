//! Tests of the transaction log reader: record iteration, the clean end of
//! a log, partial records, and segment discovery.

use zklog::error::Error;
use zklog::proto::ErrorCode;
use zklog::persistence::txnlog::find_txnlog;
use zklog::persistence::txnlog::find_txnlog_paths;
use zklog::persistence::txnlog::TxnlogFile;
use zklog::persistence::zxid_from_path;
use zklog::txn::MultiTxnOperation;
use zklog::txn::TxnOperation;
use zklog::Zxid;

fn push_i32(out: &mut Vec<u8>, v: i32) {
    out.extend_from_slice(&v.to_be_bytes());
}

fn push_i64(out: &mut Vec<u8>, v: i64) {
    out.extend_from_slice(&v.to_be_bytes());
}

fn push_u64(out: &mut Vec<u8>, v: u64) {
    out.extend_from_slice(&v.to_be_bytes());
}

fn push_str(out: &mut Vec<u8>, s: &str) {
    push_i32(out, s.len() as i32);
    out.extend_from_slice(s.as_bytes());
}

fn log_header() -> Vec<u8> {
    let mut out = Vec::new();
    push_i32(&mut out, 0x5a4b_4c47); // "ZKLG"
    push_i32(&mut out, 2);
    push_i64(&mut out, 77); // database id
    out
}

/// A transaction whose operation is a bare close-session.
fn close_session_txn(zxid: i64) -> Vec<u8> {
    let mut out = Vec::new();
    push_i64(&mut out, 0x1000); // client_id
    push_i32(&mut out, 5); // cxid
    push_i64(&mut out, zxid);
    push_u64(&mut out, 1_600_000_000); // time
    push_i32(&mut out, -11); // CloseSession discriminant
    out
}

fn record(txn: &[u8], guard: u8) -> Vec<u8> {
    let mut out = Vec::new();
    push_u64(&mut out, 0xDEAD_BEEF); // checksum, read but not verified
    push_i32(&mut out, txn.len() as i32);
    out.extend_from_slice(txn);
    out.push(guard);
    out
}

fn end_marker() -> Vec<u8> {
    let mut out = Vec::new();
    push_u64(&mut out, 0);
    push_i32(&mut out, 0); // zero length: clean end of the log
    out
}

#[test]
fn txnlog_clean_end() {
    // A log terminated by a zero-length record yields every preceding
    // transaction and then a clean end of stream with no error.
    let mut data = log_header();
    data.extend_from_slice(&record(&close_session_txn(5), 0x42));
    data.extend_from_slice(&record(&close_session_txn(6), 0x42));
    data.extend_from_slice(&end_marker());

    let mut log = TxnlogFile::new(data).unwrap();
    let t1 = log.next().unwrap().unwrap();
    assert_eq!(t1.header.zxid, Zxid(5));
    assert!(matches!(t1.op, TxnOperation::CloseSession));
    let t2 = log.next().unwrap().unwrap();
    assert_eq!(t2.header.zxid, Zxid(6));
    assert!(log.next().is_none());
    assert!(log.next().is_none());
}

#[test]
fn txnlog_partial_record() {
    // A record whose guard byte is not 0x42 is a partial write: it yields a
    // PartialRecord error and nothing afterwards.
    let mut data = log_header();
    data.extend_from_slice(&record(&close_session_txn(5), 0x42));
    data.extend_from_slice(&record(&close_session_txn(6), 0x00));
    data.extend_from_slice(&end_marker());

    let mut log = TxnlogFile::new(data).unwrap();
    assert!(log.next().unwrap().is_ok());
    assert_eq!(log.next(), Some(Err(Error::PartialRecord)));
    assert!(log.next().is_none());
    assert!(log.next().is_none());
}

#[test]
fn txnlog_bad_magic() {
    let mut data = Vec::new();
    push_i32(&mut data, 0x5a4b_534e); // snapshot magic in a log
    push_i32(&mut data, 2);
    push_i64(&mut data, 0);
    assert!(matches!(TxnlogFile::new(data), Err(Error::FormatMismatch)));
}

#[test]
fn txnlog_bad_version() {
    let mut data = Vec::new();
    push_i32(&mut data, 0x5a4b_4c47);
    push_i32(&mut data, 3);
    push_i64(&mut data, 0);
    assert!(matches!(TxnlogFile::new(data), Err(Error::FormatMismatch)));
}

#[test]
fn txnlog_truncated_record() {
    let mut data = log_header();
    data.extend_from_slice(&[0x00, 0x01, 0x02]); // a torn checksum
    let mut log = TxnlogFile::new(data).unwrap();
    assert_eq!(log.next(), Some(Err(Error::Eof)));
    assert!(log.next().is_none());
}

#[test]
fn txnlog_create_txn() {
    let mut txn = Vec::new();
    push_i64(&mut txn, 9); // client_id
    push_i32(&mut txn, 1); // cxid
    push_i64(&mut txn, 42); // zxid
    push_u64(&mut txn, 7); // time
    push_i32(&mut txn, 1); // Create discriminant
    push_str(&mut txn, "/a");
    push_i32(&mut txn, 2); // data, as a counted byte sequence
    txn.push(0x10);
    txn.push(0x20);
    push_i32(&mut txn, 1); // one ACL
    push_i32(&mut txn, 31); // perms
    push_str(&mut txn, "world");
    push_str(&mut txn, "anyone");
    txn.push(1); // ephemeral
    push_i32(&mut txn, 3); // parent_c_version

    let mut data = log_header();
    data.extend_from_slice(&record(&txn, 0x42));
    data.extend_from_slice(&end_marker());

    let mut log = TxnlogFile::new(data).unwrap();
    let t = log.next().unwrap().unwrap();
    assert_eq!(t.header.zxid, Zxid(42));
    match t.op {
        TxnOperation::Create(c) => {
            assert_eq!(c.path, "/a");
            assert_eq!(c.data, vec![0x10, 0x20]);
            assert_eq!(c.acl.len(), 1);
            assert_eq!(c.acl[0].perms.0, 31);
            assert_eq!(c.acl[0].id.scheme, "world");
            assert_eq!(c.acl[0].id.id, "anyone");
            assert!(c.ephemeral);
            assert_eq!(c.parent_c_version.0, 3);
        },
        other => panic!("wrong operation: {:?}", other),
    }
    assert!(log.next().is_none());
}

#[test]
fn txnlog_multi_txn() {
    let mut txn = Vec::new();
    push_i64(&mut txn, 9);
    push_i32(&mut txn, 1);
    push_i64(&mut txn, 50);
    push_u64(&mut txn, 7);
    push_i32(&mut txn, 14); // Multi discriminant
    push_i32(&mut txn, 1); // one sub-operation
    push_i32(&mut txn, 2); // Delete discriminant (type first ...)
    push_i32(&mut txn, 99); // ... then a length field, consumed and discarded
    push_str(&mut txn, "/x");

    let mut data = log_header();
    data.extend_from_slice(&record(&txn, 0x42));
    data.extend_from_slice(&end_marker());

    let mut log = TxnlogFile::new(data).unwrap();
    let t = log.next().unwrap().unwrap();
    match t.op {
        TxnOperation::Multi(m) => {
            assert_eq!(m.txns.len(), 1);
            match &m.txns[0] {
                MultiTxnOperation::Delete(d) => assert_eq!(d.path, "/x"),
                other => panic!("wrong sub-operation: {:?}", other),
            }
        },
        other => panic!("wrong operation: {:?}", other),
    }
}

#[test]
fn txnlog_error_txn() {
    let mut txn = Vec::new();
    push_i64(&mut txn, 9);
    push_i32(&mut txn, 1);
    push_i64(&mut txn, 51);
    push_u64(&mut txn, 7);
    push_i32(&mut txn, -1); // Error discriminant
    push_i32(&mut txn, -110); // NodeExists

    let mut data = log_header();
    data.extend_from_slice(&record(&txn, 0x42));
    data.extend_from_slice(&end_marker());

    let mut log = TxnlogFile::new(data).unwrap();
    let t = log.next().unwrap().unwrap();
    match t.op {
        TxnOperation::Error(e) => assert_eq!(e.err, ErrorCode::NodeExists),
        other => panic!("wrong operation: {:?}", other),
    }
}

#[test]
fn txnlog_unknown_discriminant() {
    // Exists (code 3) is a valid operation code, but no transaction carries
    // it; a code outside the table is also a mapping error.
    let mut txn = Vec::new();
    push_i64(&mut txn, 9);
    push_i32(&mut txn, 1);
    push_i64(&mut txn, 52);
    push_u64(&mut txn, 7);
    push_i32(&mut txn, 3); // Exists: registered, but not an operation variant

    let mut data = log_header();
    data.extend_from_slice(&record(&txn, 0x42));

    let mut log = TxnlogFile::new(data).unwrap();
    assert_eq!(log.next(), Some(Err(Error::UnknownDiscriminant(3))));

    let mut txn = Vec::new();
    push_i64(&mut txn, 9);
    push_i32(&mut txn, 1);
    push_i64(&mut txn, 53);
    push_u64(&mut txn, 7);
    push_i32(&mut txn, 999); // not in the operation code table at all

    let mut data = log_header();
    data.extend_from_slice(&record(&txn, 0x42));

    let mut log = TxnlogFile::new(data).unwrap();
    assert_eq!(log.next(), Some(Err(Error::UnknownDiscriminant(999))));
}

#[test]
fn find_paths_picks_tightest_prefix() {
    // Segment ids {1, 5, 10}: for target 7 the highest id at or below it is
    // 5, so segments 5 and 10 are returned, ascending.
    let names = vec![
        "log.a".to_owned(), // id 10
        "log.1".to_owned(),
        "log.5".to_owned(),
        "snapshot.3".to_owned(), // not a log segment
        "notes.txt".to_owned(), // extension is not hex
    ];
    let paths = find_txnlog_paths(&names, Zxid(7)).unwrap();
    assert_eq!(paths, vec!["log.5".to_owned(), "log.a".to_owned()]);
}

#[test]
fn find_paths_no_segment() {
    let names = vec!["log.1".to_owned(), "log.5".to_owned(), "log.a".to_owned()];
    assert_eq!(find_txnlog_paths(&names, Zxid(0)), Err(Error::NoSegmentFound(0)));
}

#[test]
fn find_paths_exact_target() {
    let names = vec!["log.1".to_owned(), "log.5".to_owned(), "log.a".to_owned()];
    let paths = find_txnlog_paths(&names, Zxid(10)).unwrap();
    assert_eq!(paths, vec!["log.a".to_owned()]);
}

#[test]
fn find_txnlog_filters_and_concatenates() {
    let mut seg1 = log_header();
    seg1.extend_from_slice(&record(&close_session_txn(3), 0x42));
    seg1.extend_from_slice(&record(&close_session_txn(5), 0x42));
    seg1.extend_from_slice(&end_marker());
    let mut seg2 = log_header();
    seg2.extend_from_slice(&record(&close_session_txn(9), 0x42));
    seg2.extend_from_slice(&end_marker());

    let items = find_txnlog(vec![seg1, seg2], Zxid(5)).unwrap();
    let zxids: Vec<i64> = items.iter().map(|r| r.as_ref().unwrap().header.zxid.0).collect();
    assert_eq!(zxids, vec![5, 9]);
}

#[test]
fn find_txnlog_fails_when_a_segment_cannot_open() {
    let mut seg1 = log_header();
    seg1.extend_from_slice(&end_marker());
    let mut seg2 = Vec::new();
    push_i32(&mut seg2, 0x5a4b_534e); // wrong magic
    push_i32(&mut seg2, 2);
    push_i64(&mut seg2, 0);

    assert_eq!(find_txnlog(vec![seg1, seg2], Zxid(0)), Err(Error::FormatMismatch));
}

#[test]
fn zxid_from_path_parses_extension() {
    assert_eq!(zxid_from_path("log.200000001"), Some(Zxid(0x2_0000_0001)));
    assert_eq!(zxid_from_path("snapshot.1000005d0"), Some(Zxid(0x1_0000_05d0)));
    assert_eq!(zxid_from_path("log.ABC"), Some(Zxid(0xABC)));
    assert_eq!(zxid_from_path("nodot"), None);
    assert_eq!(zxid_from_path("log."), None);
    assert_eq!(zxid_from_path("log.xyz"), None);
    // One hex digit past what a signed 64-bit integer holds.
    assert_eq!(zxid_from_path("log.8000000000000000"), None);
    assert_eq!(zxid_from_path("log.7fffffffffffffff"), Some(Zxid(i64::MAX)));
}

#[test]
fn txnlog_all_operation_kinds() {
    // One record per remaining operation kind, in one log.
    let mut data = log_header();

    // CreateSession: a session timeout.
    let mut txn = Vec::new();
    push_i64(&mut txn, 1);
    push_i32(&mut txn, 1);
    push_i64(&mut txn, 60);
    push_u64(&mut txn, 7);
    push_i32(&mut txn, -10);
    push_i32(&mut txn, 30000);
    data.extend_from_slice(&record(&txn, 0x42));

    // Create2: same payload shape as Create.
    let mut txn = Vec::new();
    push_i64(&mut txn, 1);
    push_i32(&mut txn, 1);
    push_i64(&mut txn, 61);
    push_u64(&mut txn, 7);
    push_i32(&mut txn, 15);
    push_str(&mut txn, "/b");
    push_i32(&mut txn, 0); // empty data
    push_i32(&mut txn, 0); // no ACLs
    txn.push(0); // not ephemeral
    push_i32(&mut txn, 1);
    data.extend_from_slice(&record(&txn, 0x42));

    // CreateTTL: a raw data buffer and a time-to-live.
    let mut txn = Vec::new();
    push_i64(&mut txn, 1);
    push_i32(&mut txn, 1);
    push_i64(&mut txn, 62);
    push_u64(&mut txn, 7);
    push_i32(&mut txn, 21);
    push_str(&mut txn, "/t");
    push_i32(&mut txn, 1); // buffer length
    txn.push(0xAB);
    push_i32(&mut txn, 0); // no ACLs
    push_i32(&mut txn, 2);
    push_i64(&mut txn, 5000); // ttl
    data.extend_from_slice(&record(&txn, 0x42));

    // CreateContainer.
    let mut txn = Vec::new();
    push_i64(&mut txn, 1);
    push_i32(&mut txn, 1);
    push_i64(&mut txn, 63);
    push_u64(&mut txn, 7);
    push_i32(&mut txn, 19);
    push_str(&mut txn, "/c");
    push_i32(&mut txn, 0); // empty buffer
    push_i32(&mut txn, 0); // no ACLs
    push_i32(&mut txn, 0);
    data.extend_from_slice(&record(&txn, 0x42));

    // DeleteContainer.
    let mut txn = Vec::new();
    push_i64(&mut txn, 1);
    push_i32(&mut txn, 1);
    push_i64(&mut txn, 64);
    push_u64(&mut txn, 7);
    push_i32(&mut txn, 20);
    push_str(&mut txn, "/c");
    data.extend_from_slice(&record(&txn, 0x42));

    // SetData.
    let mut txn = Vec::new();
    push_i64(&mut txn, 1);
    push_i32(&mut txn, 1);
    push_i64(&mut txn, 65);
    push_u64(&mut txn, 7);
    push_i32(&mut txn, 5);
    push_str(&mut txn, "/b");
    push_i32(&mut txn, 2);
    txn.push(1);
    txn.push(2);
    push_i32(&mut txn, 4); // version
    data.extend_from_slice(&record(&txn, 0x42));

    // Reconfig carries a set-data payload.
    let mut txn = Vec::new();
    push_i64(&mut txn, 1);
    push_i32(&mut txn, 1);
    push_i64(&mut txn, 66);
    push_u64(&mut txn, 7);
    push_i32(&mut txn, 16);
    push_str(&mut txn, "/zookeeper/config");
    push_i32(&mut txn, 0);
    push_i32(&mut txn, -1);
    data.extend_from_slice(&record(&txn, 0x42));

    // SetACL.
    let mut txn = Vec::new();
    push_i64(&mut txn, 1);
    push_i32(&mut txn, 1);
    push_i64(&mut txn, 67);
    push_u64(&mut txn, 7);
    push_i32(&mut txn, 7);
    push_str(&mut txn, "/b");
    push_i32(&mut txn, 1);
    push_i32(&mut txn, 1); // read permission
    push_str(&mut txn, "digest");
    push_str(&mut txn, "u:x");
    push_i32(&mut txn, 9);
    data.extend_from_slice(&record(&txn, 0x42));

    // A multi with a version check.
    let mut txn = Vec::new();
    push_i64(&mut txn, 1);
    push_i32(&mut txn, 1);
    push_i64(&mut txn, 68);
    push_u64(&mut txn, 7);
    push_i32(&mut txn, 14);
    push_i32(&mut txn, 1);
    push_i32(&mut txn, 13); // Check
    push_i32(&mut txn, 0); // ignored length
    push_str(&mut txn, "/b");
    push_i32(&mut txn, 4);
    data.extend_from_slice(&record(&txn, 0x42));

    data.extend_from_slice(&end_marker());

    let mut log = TxnlogFile::new(data).unwrap();
    let mut kinds = Vec::new();
    while let Some(item) = log.next() {
        let t = item.unwrap();
        kinds.push(match t.op {
            TxnOperation::CreateSession(cs) => {
                assert_eq!(cs.time_out.0, 30000);
                "create_session"
            },
            TxnOperation::Create2(c) => {
                assert_eq!(c.path, "/b");
                "create2"
            },
            TxnOperation::CreateTTL(c) => {
                assert_eq!(c.data, vec![0xAB]);
                assert_eq!(c.ttl, 5000);
                "create_ttl"
            },
            TxnOperation::CreateContainer(c) => {
                assert!(c.acl.is_empty());
                "create_container"
            },
            TxnOperation::DeleteContainer(d) => {
                assert_eq!(d.path, "/c");
                "delete_container"
            },
            TxnOperation::SetData(s) => {
                assert_eq!(s.data, vec![1, 2]);
                assert_eq!(s.version.0, 4);
                "set_data"
            },
            TxnOperation::Reconfig(s) => {
                assert_eq!(s.path, "/zookeeper/config");
                "reconfig"
            },
            TxnOperation::SetACL(s) => {
                assert_eq!(s.acl[0].id.scheme, "digest");
                assert_eq!(s.version.0, 9);
                "set_acl"
            },
            TxnOperation::Multi(m) => {
                match &m.txns[0] {
                    MultiTxnOperation::Check(c) => {
                        assert_eq!(c.path, "/b");
                        assert_eq!(c.version.0, 4);
                    },
                    other => panic!("wrong sub-operation: {:?}", other),
                }
                "multi_check"
            },
            other => panic!("unexpected operation: {:?}", other),
        });
    }
    assert_eq!(
        kinds,
        vec![
            "create_session",
            "create2",
            "create_ttl",
            "create_container",
            "delete_container",
            "set_data",
            "reconfig",
            "set_acl",
            "multi_check",
        ]
    );
}
