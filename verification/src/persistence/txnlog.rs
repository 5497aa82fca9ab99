//! The transaction log reader: an iterator over one segment file's records,
//! and the discovery of the right set of segment files for a target
//! transaction id.
//!
//! A record is an 8-byte checksum (read, deliberately not verified), a
//! 4-byte record length, the encoded [`Txn`], and one guard byte that must
//! be the ASCII letter `B`. A zero record length marks the unused tail of
//! the pre-allocated segment: a clean end of the log. A wrong guard byte
//! marks a partial write at the tail of an in-progress file.

use vstd::prelude::*;
use vstd::string::StringSliceAdditionalSpecFns;
use vstd::string::StrSliceExecFns;
use vstd::utf8::encode_utf8;
use vstd::seq_lib::group_to_multiset_ensures;
use vstd::seq_lib::lemma_multiset_commutative;

use crate::codec::from_reader;
use crate::codec::seq_view;
use crate::codec::spec_u32;
use crate::codec::spec_u64;
use crate::codec::spec_u8;
use crate::codec::Decode;
use crate::codec::Deserializer;
use crate::codec::EnumEncoding;
use crate::codec::EnumMappingView;
use crate::error::Error;
use crate::persistence::spec_zxid_from_path;
use crate::persistence::FileHeader;
use crate::persistence::TXNLOG_MAGIC;
use crate::proto::ErrorCode;
use crate::proto::OpCode;
use crate::proto::OpCodeEnum;
use crate::txn::Txn;
use crate::txn::TxnView;
use crate::Zxid;

verus! {

/// The registry a transaction log reader decodes under: the operation code
/// table for the two operation enums (the outer one bare, the inner one
/// followed by a length field), and the error code table.
pub open spec fn txnlog_registry() -> Seq<EnumMappingView> {
    seq![
        (EnumMappingView {
            name: "ErrorCode"@,
            codes: ErrorCode::spec_codes(),
            encoding: EnumEncoding::Type,
        }),
        (EnumMappingView {
            name: "MultiTxnOperation"@,
            codes: OpCode::spec_codes(),
            encoding: EnumEncoding::TypeThenLength,
        }),
        (EnumMappingView {
            name: "TxnOperation"@,
            codes: OpCode::spec_codes(),
            encoding: EnumEncoding::Type,
        }),
    ]
}

/// Pure parser for one transaction record: checksum, record length, the
/// transaction, and the guard byte. A zero length yields no transaction (the
/// clean end of the log); a guard byte other than `B` is a partial record.
pub open spec fn spec_record(reg: Seq<EnumMappingView>, s: Seq<u8>) -> Result<
    (Option<TxnView>, Seq<u8>),
    Error,
> {
    match spec_u64(s) {
        Err(e) => Err(e),
        Ok((_crc, s1)) => match spec_u32(s1) {
            Err(e) => Err(e),
            Ok((len, s2)) => if len == 0 {
                Ok((None, s2))
            } else {
                match Txn::spec_decode(reg, s2) {
                    Err(e) => Err(e),
                    Ok((txn, s3)) => match spec_u8(s3) {
                        Err(e) => Err(e),
                        Ok((b, s4)) => if b == 0x42 {
                            Ok((Some(txn), s4))
                        } else {
                            Err(Error::PartialRecord)
                        },
                    },
                }
            },
        },
    }
}

/// Pure parser for a whole segment's body after the header: what open, then
/// reading every record, hands out. Each decoded transaction at or past
/// `target` is kept, older ones are dropped; a decode failure contributes
/// its error as the final item and ends the segment.
pub open spec fn spec_segment_kept(reg: Seq<EnumMappingView>, s: Seq<u8>, target: i64) -> Seq<
    Result<TxnView, Error>,
>
    decreases s.len(),
    via spec_segment_kept_decreases
{
    match spec_record(reg, s) {
        Err(e) => seq![Err(e)],
        Ok((None, _rest)) => seq![],
        Ok((Some(t), rest)) => (if t.header.zxid.0 >= target {
            seq![Ok(t)]
        } else {
            seq![]
        }) + spec_segment_kept(reg, rest, target),
    }
}

/// A record that carries a transaction consumes its checksum, length, the
/// transaction's bytes and the guard byte, so the tail is strictly shorter.
pub proof fn lemma_record_shrinks(reg: Seq<EnumMappingView>, s: Seq<u8>)
    ensures
        (spec_record(reg, s) matches Ok(pr) && pr.0 is Some) ==> spec_record(reg, s)->Ok_0.1.len()
            < s.len(),
{
    match spec_u64(s) {
        Err(_) => {},
        Ok((_crc, s1)) => {
            match spec_u32(s1) {
                Err(_) => {},
                Ok((len, s2)) => {
                    if len != 0 {
                        crate::txn::lemma_txn_le(reg, s2);
                    }
                },
            }
        },
    }
}

/// Reading a segment record by record comes to an end, because every record
/// that carries a transaction shortens the tail.
#[via_fn]
proof fn spec_segment_kept_decreases(reg: Seq<EnumMappingView>, s: Seq<u8>, target: i64) {
    lemma_record_shrinks(reg, s);
}

/// A transaction log segment file, after its header has been read and
/// validated: an iterator over the records that follow.
pub struct TxnlogFile {
    deser: Deserializer,
    done: bool,
}

/// Pure parser for opening a segment: the file header, which must carry the
/// log magic number and version 2.
pub open spec fn spec_open(s: Seq<u8>) -> Result<(FileHeader, Seq<u8>), Error> {
    match FileHeader::spec_decode(txnlog_registry(), s) {
        Err(e) => Err(e),
        Ok((h, rest)) => if h.magic != TXNLOG_MAGIC || h.version != 2 {
            Err(Error::FormatMismatch)
        } else {
            Ok((h, rest))
        },
    }
}

impl TxnlogFile {
    /// The cursor is within the stream.
    pub closed spec fn wf(&self) -> bool {
        self.deser.wf()
    }

    /// The bytes not yet consumed.
    pub closed spec fn remaining(&self) -> Seq<u8> {
        self.deser.remaining()
    }

    /// The reader's registry.
    pub closed spec fn registry(&self) -> Seq<EnumMappingView> {
        self.deser.registry()
    }

    /// Whether the reader has reached its terminal state: a clean end of
    /// log, or any error. Once set, no further record is handed out.
    pub closed spec fn spec_done(&self) -> bool {
        self.done
    }

    /// Opens a segment held in memory: registers the three enum tables and
    /// reads and validates the file header.
    pub fn new(data: Vec<u8>) -> (r: Result<TxnlogFile, Error>)
        ensures
            match spec_open(data@) {
                Ok((h, rest)) => r matches Ok(f) && f.wf() && !f.spec_done() && f.remaining()
                    == rest && f.registry() == txnlog_registry(),
                Err(e) => r == Err::<TxnlogFile, Error>(e),
            },
    {
        let ghost input = data@;
        let mut deser = from_reader(data);
        // The record length is read separately from the operation
        // discriminant, since a zero length marks the end of the log, so the
        // outer operation enum is registered as bare type.
        deser.add_enum_mapping("TxnOperation", OpCode::codes_to_names(), EnumEncoding::Type);
        deser.add_enum_mapping(
            "MultiTxnOperation",
            OpCode::codes_to_names(),
            EnumEncoding::TypeThenLength,
        );
        deser.add_enum("ErrorCode", ErrorCode::codes_to_names());
        proof {
            assert(deser.registry() =~= txnlog_registry());
            assert(deser.remaining() == input);
        }
        let header = match FileHeader::decode(&mut deser) {
            Ok(h) => h,
            Err(e) => { return Err(e) },
        };
        if header.magic != TXNLOG_MAGIC {
            return Err(Error::FormatMismatch);
        }
        if header.version != 2 {
            return Err(Error::FormatMismatch);
        }
        Ok(TxnlogFile { deser, done: false })
    }

    /// Hands out the next transaction, or nothing at the end of the log.
    ///
    /// A zero record length is the clean end of the pre-allocated segment:
    /// the reader becomes done and yields nothing, with no error. A record
    /// whose guard byte is not `B` is a partial write: the reader yields
    /// that one `PartialRecord` error and becomes done. Once done, every
    /// further call yields nothing, even after an error.
    pub fn next(&mut self) -> (r: Option<Result<Txn, Error>>)
        requires
            old(self).wf(),
        ensures
            final(self).wf(),
            final(self).registry() == old(self).registry(),
            old(self).spec_done() ==> r is None && final(self).spec_done(),
            !old(self).spec_done() ==> match spec_record(
                old(self).registry(),
                old(self).remaining(),
            ) {
                Ok((Some(txn), rest)) => r matches Some(Ok(t)) && t@ == txn && !final(self).spec_done() && final(self).remaining() == rest,
                Ok((None, _rest)) => r is None && final(self).spec_done(),
                Err(e) => r == Some(Err::<Txn, Error>(e)) && final(self).spec_done(),
            },
    {
        if self.done {
            return None;
        }
        // The checksum over the record's bytes; read but, deliberately, not
        // verified.
        let _crc = match self.deser.read_u64() {
            Ok(v) => v,
            Err(e) => {
                self.done = true;
                return Some(Err(e));
            },
        };
        let length = match self.deser.read_u32() {
            Ok(v) => v,
            Err(e) => {
                self.done = true;
                return Some(Err(e));
            },
        };
        if length == 0 {
            // Segments are pre-allocated; a zero length marks the unused
            // tail, the clean end of the log.
            self.done = true;
            return None;
        }
        let txn = match Txn::decode(&mut self.deser) {
            Ok(v) => v,
            Err(e) => {
                self.done = true;
                return Some(Err(e));
            },
        };
        let guard = match self.deser.read_u8() {
            Ok(v) => v,
            Err(e) => {
                self.done = true;
                return Some(Err(e));
            },
        };
        if guard != 0x42 {
            self.done = true;
            return Some(Err(Error::PartialRecord));
        }
        Some(Ok(txn))
    }
}

/// `p` is the first bytes of `b`.
pub open spec fn has_prefix(b: Seq<u8>, p: Seq<u8>) -> bool {
    b.len() >= p.len() && b.subrange(0, p.len() as int) == p
}

/// The bytes of the prefix that log segment names carry, "log.".
pub open spec fn log_prefix() -> Seq<u8> {
    seq![108u8, 111u8, 103u8, 46u8]
}

/// The segment id a file name carries: for a name with the segment prefix,
/// the id its extension encodes.
pub open spec fn log_id(name: Seq<char>) -> Option<int> {
    if has_prefix(encode_utf8(name), log_prefix()) {
        spec_zxid_from_path(encode_utf8(name))
    } else {
        None
    }
}

/// Whether a file name carries the log segment prefix.
fn starts_with_log(name: &str) -> (r: bool)
    ensures
        r == has_prefix(name.spec_bytes(), log_prefix()),
{
    let bytes = name.as_bytes_vec();
    if bytes.len() < 4 {
        return false;
    }
    let r = bytes[0] == 108 && bytes[1] == 111 && bytes[2] == 103 && bytes[3] == 46;
    proof {
        if r {
            assert(bytes@.subrange(0, 4) =~= log_prefix());
        } else {
            if has_prefix(bytes@, log_prefix()) {
                assert(bytes@.subrange(0, 4)[0] == bytes@[0]);
                assert(bytes@.subrange(0, 4)[1] == bytes@[1]);
                assert(bytes@.subrange(0, 4)[2] == bytes@[2]);
                assert(bytes@.subrange(0, 4)[3] == bytes@[3]);
            }
        }
    }
    r
}

/// An element is in a sequence with one more pushed exactly when it is the
/// pushed one or was already there.
proof fn lemma_push_contains<T>(s: Seq<T>, x: T, y: T)
    ensures
        s.push(x).contains(y) <==> (s.contains(y) || y == x),
{
    if s.contains(y) {
        let i = s.lemma_contains_to_index(y);
        assert(s.push(x)[i] == y);
    }
    if y == x {
        assert(s.push(x)[s.len() as int] == y);
    }
    if s.push(x).contains(y) {
        let i = s.push(x).lemma_contains_to_index(y);
        if i < s.len() {
            assert(s[i] == y);
        }
    }
}

/// An element is in a sequence with one more inserted exactly when it is the
/// inserted one or was already there.
proof fn lemma_insert_contains<T>(s: Seq<T>, p: int, x: T, y: T)
    requires
        0 <= p <= s.len(),
    ensures
        s.insert(p, x).contains(y) <==> (s.contains(y) || y == x),
{
    s.insert_ensures(p, x);
    if s.contains(y) {
        let i = s.lemma_contains_to_index(y);
        if i < p {
            assert(s.insert(p, x)[i] == y);
        } else {
            assert(s.insert(p, x)[i + 1] == y);
        }
    }
    if y == x {
        assert(s.insert(p, x)[p] == y);
    }
    if s.insert(p, x).contains(y) {
        let i = s.insert(p, x).lemma_contains_to_index(y);
        if i < p {
            assert(s[i] == y);
        } else if i > p {
            assert(s[i - 1] == y);
        }
    }
}

/// An element is in a sequence exactly when it is the last one or among the
/// rest.
proof fn lemma_drop_last_contains<T>(s: Seq<T>, y: T)
    requires
        s.len() > 0,
    ensures
        s.contains(y) <==> (s.drop_last().contains(y) || y == s.last()),
{
    assert(s =~= s.drop_last().push(s.last()));
    lemma_push_contains(s.drop_last(), s.last(), y);
}

/// Sorts segment id / name pairs by id, ascending. The result holds exactly
/// the pairs of the input.
fn sort_pairs(pairs: Vec<(i64, String)>) -> (r: Vec<(i64, String)>)
    ensures
        r@.len() == pairs@.len(),
        forall|i: int, j: int| 0 <= i < j < r@.len() ==> (#[trigger] r@[i]).0 <= (#[trigger] r@[j]).0,
        forall|x: (i64, String)| r@.contains(x) <==> pairs@.contains(x),
        r@.to_multiset() == pairs@.to_multiset(),
{
    broadcast use group_to_multiset_ensures;

    let ghost orig = pairs@;
    let mut rest = pairs;
    let mut out: Vec<(i64, String)> = Vec::new();
    proof {
        assert(out@.to_multiset().add(rest@.to_multiset()) =~= orig.to_multiset());
    }
    while rest.len() > 0
        invariant
            out@.len() + rest@.len() == orig.len(),
            forall|i: int, j: int| 0 <= i < j < out@.len() ==> (#[trigger] out@[i]).0
                <= (#[trigger] out@[j]).0,
            forall|x: (i64, String)| orig.contains(x) <==> (out@.contains(x) || rest@.contains(x)),
            out@.to_multiset().add(rest@.to_multiset()) == orig.to_multiset(),
        decreases rest@.len(),
    {
        let ghost rest_pre = rest@;
        let ghost out_pre = out@;
        let item = match rest.pop() {
            Some(v) => v,
            None => { return out },
        };
        proof {
            broadcast use group_to_multiset_ensures;

            assert forall|x: (i64, String)| rest_pre.contains(x) <==> (rest@.contains(x) || x
                == item) by {
                lemma_drop_last_contains(rest_pre, x);
            }
            assert(rest_pre =~= rest@.push(item));
            assert(rest_pre.to_multiset() =~= rest@.to_multiset().insert(item));
        }
        let mut p: usize = 0;
        while p < out.len() && out[p].0 <= item.0
            invariant
                p <= out@.len(),
                out@ == out_pre,
                forall|q: int| 0 <= q < p ==> (#[trigger] out@[q]).0 <= item.0,
            decreases out@.len() - p,
        {
            p = p + 1;
        }
        proof {
            out_pre.insert_ensures(p as int, item);
        }
        out.insert(p, item);
        proof {
            assert forall|i: int, j: int| 0 <= i < j < out@.len() implies (#[trigger] out@[i]).0
                <= (#[trigger] out@[j]).0 by {
                if j < p {
                } else if i >= p + 1 {
                    assert(out@[i] == out_pre[i - 1] && out@[j] == out_pre[j - 1]);
                } else if i < p && j == p {
                    assert(out@[i] == out_pre[i]);
                } else if i < p && j > p {
                    assert(out@[i] == out_pre[i] && out@[j] == out_pre[j - 1]);
                } else if i == p && j > p {
                    assert(out@[j] == out_pre[j - 1]);
                    assert(p < out_pre.len() ==> item.0 <= out_pre[p as int].0);
                }
            }
            assert forall|x: (i64, String)| orig.contains(x) <==> (out@.contains(x)
                || rest@.contains(x)) by {
                lemma_insert_contains(out_pre, p as int, item, x);
            }
            lemma_insert_multiset(out_pre, p as int, item);
            assert(out@.to_multiset().add(rest@.to_multiset()) =~= orig.to_multiset());
        }
    }
    proof {
        assert(rest@.len() == 0);
        assert forall|x: (i64, String)|
            out@.to_multiset().add(rest@.to_multiset()).count(x) == out@.to_multiset().count(
            x,
        ) by {
            if rest@.to_multiset().count(x) > 0 {
                assert(rest@.contains(x));
            }
        }
        assert(out@.to_multiset() =~= orig.to_multiset());
    }
    out
}

/// The (id, name) pairs of the log segment files among `names`, in their
/// order of appearance.
pub open spec fn spec_pairs(names: Seq<String>) -> Seq<(i64, String)>
    decreases names.len(),
{
    if names.len() == 0 {
        Seq::empty()
    } else {
        (match log_id(names[0]@) {
            Some(z) => seq![((z as i64), names[0])],
            None => Seq::empty(),
        }) + spec_pairs(names.skip(1))
    }
}

/// How many pairs carry an id at or past `lo`.
pub open spec fn count_ge(pairs: Seq<(i64, String)>, lo: int) -> nat
    decreases pairs.len(),
{
    if pairs.len() == 0 {
        0
    } else {
        (if pairs[0].0 >= lo {
            1nat
        } else {
            0nat
        }) + count_ge(pairs.skip(1), lo)
    }
}

/// How many of `names` are log segment files with an id at or past `lo`.
pub open spec fn count_selected(names: Seq<String>, lo: int) -> nat {
    count_ge(spec_pairs(names), lo)
}

/// One more name at the end contributes its pair, if it is a segment's, at
/// the end.
proof fn lemma_spec_pairs_snoc(names: Seq<String>, x: String)
    ensures
        spec_pairs(names.push(x)) =~= spec_pairs(names) + (match log_id(x@) {
            Some(z) => seq![((z as i64), x)],
            None => Seq::<(i64, String)>::empty(),
        }),
    decreases names.len(),
{
    let tail = (match log_id(x@) {
        Some(z) => seq![((z as i64), x)],
        None => Seq::<(i64, String)>::empty(),
    });
    if names.len() == 0 {
        assert(names.push(x)[0] == x);
        assert(names.push(x).skip(1) =~= Seq::<String>::empty());
        assert(spec_pairs(Seq::<String>::empty()) =~= Seq::<(i64, String)>::empty());
        assert(tail + Seq::<(i64, String)>::empty() =~= tail);
        assert(Seq::<(i64, String)>::empty() + tail =~= tail);
    } else {
        assert(names.push(x)[0] == names[0]);
        assert(names.push(x).skip(1) =~= names.skip(1).push(x));
        lemma_spec_pairs_snoc(names.skip(1), x);
        let head = (match log_id(names[0]@) {
            Some(z) => seq![((z as i64), names[0])],
            None => Seq::<(i64, String)>::empty(),
        });
        assert(head + (spec_pairs(names.skip(1)) + tail) =~= (head + spec_pairs(names.skip(1)))
            + tail);
    }
}

/// Counting a concatenation counts both halves.
proof fn lemma_count_ge_concat(a: Seq<(i64, String)>, b: Seq<(i64, String)>, lo: int)
    ensures
        count_ge(a + b, lo) == count_ge(a, lo) + count_ge(b, lo),
    decreases a.len(),
{
    if a.len() == 0 {
        assert(a + b =~= b);
    } else {
        assert((a + b)[0] == a[0]);
        assert((a + b).skip(1) =~= a.skip(1) + b);
        lemma_count_ge_concat(a.skip(1), b, lo);
    }
}

/// Taking one pair out takes exactly its contribution out of the count.
proof fn lemma_count_ge_remove(t: Seq<(i64, String)>, i: int, lo: int)
    requires
        0 <= i < t.len(),
    ensures
        count_ge(t, lo) == (if t[i].0 >= lo {
            1nat
        } else {
            0nat
        }) + count_ge(t.remove(i), lo),
{
    let front = t.subrange(0, i);
    let mid = seq![t[i]];
    let back = t.subrange(i + 1, t.len() as int);
    assert(t =~= (front + mid) + back);
    lemma_count_ge_concat(front + mid, back, lo);
    lemma_count_ge_concat(front, mid, lo);
    lemma_count_ge_concat(front, back, lo);
    assert(t.remove(i) == front + back);
    assert(mid[0] == t[i]);
    assert(mid.skip(1) =~= Seq::<(i64, String)>::empty());
    assert(count_ge(Seq::<(i64, String)>::empty(), lo) == 0);
}

/// Two sequences holding the same pairs, in whatever order, count the same.
proof fn lemma_count_ge_permutation(s: Seq<(i64, String)>, t: Seq<(i64, String)>, lo: int)
    requires
        s.to_multiset() == t.to_multiset(),
    ensures
        count_ge(s, lo) == count_ge(t, lo),
    decreases s.len(),
{
    broadcast use group_to_multiset_ensures;

    if s.len() == 0 {
        assert(s.to_multiset().len() == 0);
        assert(t.len() == 0);
    } else {
        let x = s[0];
        assert(s =~= seq![x] + s.skip(1));
        lemma_multiset_commutative(seq![x], s.skip(1));
        assert(seq![x] =~= Seq::<(i64, String)>::empty().push(x));
        assert(s.to_multiset() =~= s.skip(1).to_multiset().insert(x));
        assert(t.to_multiset().count(x) > 0);
        assert(t.contains(x));
        let i = t.lemma_contains_to_index(x);
        assert(t.remove(i).to_multiset() =~= t.to_multiset().remove(x));
        assert(s.skip(1).to_multiset() =~= t.remove(i).to_multiset());
        lemma_count_ge_permutation(s.skip(1), t.remove(i), lo);
        lemma_count_ge_remove(t, i, lo);
    }
}

/// Inserting an element anywhere adds exactly it to the sequence's pairs.
proof fn lemma_insert_multiset(s: Seq<(i64, String)>, p: int, x: (i64, String))
    requires
        0 <= p <= s.len(),
    ensures
        s.insert(p, x).to_multiset() =~= s.to_multiset().insert(x),
{
    broadcast use group_to_multiset_ensures;

    let front = s.subrange(0, p);
    let back = s.subrange(p, s.len() as int);
    assert(s.insert(p, x) == front.push(x) + back);
    lemma_multiset_commutative(front.push(x), back);
    assert(s =~= front + back);
    lemma_multiset_commutative(front, back);
}

/// `start` is the id of the starting segment for `target` among `names`:
/// some name carries it, it is at or below the target, and no other carried
/// id at or below the target is higher.
pub open spec fn segment_start(names: Seq<String>, target: i64, start: int) -> bool {
    &&& exists|k: int| 0 <= k < names.len() && #[trigger] log_id(names[k]@) == Some(start)
    &&& start <= target
    &&& forall|k: int|
        0 <= k < names.len() ==> match #[trigger] log_id(names[k]@) {
            Some(z) => z <= target ==> z <= start,
            None => true,
        }
}

/// `paths` holds exactly the names whose segment id is at or past `start`,
/// ordered by ascending id.
pub open spec fn selected_paths(names: Seq<String>, start: int, paths: Seq<String>) -> bool {
    &&& paths.len() == count_selected(names, start)
    &&& forall|i: int|
        0 <= i < paths.len() ==> names.contains(#[trigger] paths[i]) && (match log_id(paths[i]@) {
            Some(z) => z >= start,
            None => false,
        })
    &&& forall|k: int|
        (0 <= k < names.len() && match #[trigger] log_id(names[k]@) {
            Some(z) => z >= start,
            None => false,
        }) ==> paths.contains(names[k])
    &&& forall|i: int, j: int|
        0 <= i < j < paths.len() ==> log_id(#[trigger] paths[i]@)->Some_0 <= log_id(
            #[trigger] paths[j]@,
        )->Some_0
}

/// Finds the log segment files that cover transactions at or after
/// `snapshot_zxid`, given the file names of a log directory.
///
/// Among the names that carry the segment prefix and a parseable id, the
/// highest id at or below the target marks the starting segment: the
/// tightest prefix guaranteed to contain or precede the target. Every
/// segment from the starting one on is returned, ordered by ascending id.
/// When no segment id lies at or below the target there is no valid
/// starting point, and discovery fails with `NoSegmentFound`.
pub fn find_txnlog_paths(names: &Vec<String>, snapshot_zxid: Zxid) -> (r: Result<Vec<String>, Error>)
    ensures
        match r {
            Ok(paths) => exists|start: int|
                #[trigger] segment_start(names@, snapshot_zxid.0, start) && selected_paths(
                    names@,
                    start,
                    paths@,
                ),
            Err(e) => {
                &&& e == Error::NoSegmentFound(snapshot_zxid.0)
                &&& forall|k: int|
                    0 <= k < names@.len() ==> match #[trigger] log_id(names@[k]@) {
                        Some(z) => z > snapshot_zxid.0,
                        None => true,
                    }
            },
        },
{
    // Collect (id, name) for every name that looks like a log segment.
    let mut pairs: Vec<(i64, String)> = Vec::new();
    let mut i: usize = 0;
    proof {
        assert(names@.take(0) =~= Seq::<String>::empty());
        assert(spec_pairs(Seq::<String>::empty()) =~= Seq::<(i64, String)>::empty());
        assert(pairs@ =~= spec_pairs(names@.take(0)));
    }
    while i < names.len()
        invariant
            i <= names@.len(),
            pairs@ == spec_pairs(names@.take(i as int)),
            forall|m: int|
                0 <= m < pairs@.len() ==> log_id((#[trigger] pairs@[m]).1@) == Some(
                    pairs@[m].0 as int,
                ) && names@.contains(pairs@[m].1),
            forall|k: int|
                0 <= k < i ==> match #[trigger] log_id(names@[k]@) {
                    Some(z) => pairs@.contains((z as i64, names@[k])),
                    None => true,
                },
        decreases names@.len() - i,
    {
        let ghost pairs_pre = pairs@;
        let name = &names[i];
        if starts_with_log(name.as_str()) {
            match crate::persistence::zxid_from_path(name.as_str()) {
                Some(z) => {
                    pairs.push((z.0, name.clone()));
                },
                None => {},
            }
        }
        proof {
            if pairs@.len() > pairs_pre.len() {
                assert forall|k: int|
                    0 <= k < i + 1 implies match #[trigger] log_id(names@[k]@) {
                    Some(z) => pairs@.contains((z as i64, names@[k])),
                    None => true,
                } by {
                    match log_id(names@[k]@) {
                        Some(z) => {
                            lemma_push_contains(pairs_pre, pairs@.last(), (z as i64, names@[k]));
                        },
                        None => {},
                    }
                }
                assert(names@.contains(names@[i as int]));
            }
            assert(names@.take(i + 1) =~= names@.take(i as int).push(names@[i as int]));
            lemma_spec_pairs_snoc(names@.take(i as int), names@[i as int]);
            assert(pairs@ =~= spec_pairs(names@.take(i + 1)));
        }
        i = i + 1;
    }
    proof {
        assert(names@.take(names@.len() as int) =~= names@);
        assert(pairs@ == spec_pairs(names@));
    }
    // Find the highest id at or below the target.
    let mut best: i64 = 0;
    let mut have: bool = false;
    let mut k: usize = 0;
    while k < pairs.len()
        invariant
            k <= pairs@.len(),
            have ==> (exists|m: int|
                0 <= m < pairs@.len() && (#[trigger] pairs@[m]).0 == best) && best
                <= snapshot_zxid.0,
            forall|m: int|
                0 <= m < k ==> ((#[trigger] pairs@[m]).0 <= snapshot_zxid.0 ==> have && pairs@[m].0
                    <= best),
        decreases pairs@.len() - k,
    {
        if pairs[k].0 <= snapshot_zxid.0 && (!have || pairs[k].0 > best) {
            best = pairs[k].0;
            have = true;
        }
        k = k + 1;
    }
    if !have {
        proof {
            assert forall|kk: int|
                0 <= kk < names@.len() implies match #[trigger] log_id(names@[kk]@) {
                Some(z) => z > snapshot_zxid.0,
                None => true,
            } by {
                match log_id(names@[kk]@) {
                    Some(z) => {
                        let m = pairs@.lemma_contains_to_index((z as i64, names@[kk]));
                    },
                    None => {},
                }
            }
        }
        return Err(Error::NoSegmentFound(snapshot_zxid.0));
    }
    let ghost pairs_v = pairs@;
    // Keep every segment from the starting one on, in ascending id order.
    let sorted = sort_pairs(pairs);
    proof {
        assert forall|m: int|
            0 <= m < sorted@.len() implies log_id((#[trigger] sorted@[m]).1@) == Some(
            sorted@[m].0 as int,
        ) && names@.contains(sorted@[m].1) by {
            assert(sorted@.contains(sorted@[m]));
            let q = pairs_v.lemma_contains_to_index(sorted@[m]);
        }
    }
    let mut out: Vec<String> = Vec::new();
    let mut m: usize = 0;
    proof {
        assert(sorted@.skip(0) =~= sorted@);
    }
    while m < sorted.len()
        invariant
            m <= sorted@.len(),
            best <= snapshot_zxid.0,
            out@.len() + count_ge(sorted@.skip(m as int), best as int) == count_ge(
                sorted@,
                best as int,
            ),
            forall|q: int|
                0 <= q < sorted@.len() ==> log_id((#[trigger] sorted@[q]).1@) == Some(
                    sorted@[q].0 as int,
                ) && names@.contains(sorted@[q].1),
            forall|i2: int, j2: int| 0 <= i2 < j2 < sorted@.len() ==> (#[trigger] sorted@[i2]).0
                <= (#[trigger] sorted@[j2]).0,
            forall|x: (i64, String)| sorted@.contains(x) <==> pairs_v.contains(x),
            forall|q: int|
                0 <= q < m ==> ((#[trigger] sorted@[q]).0 >= best ==> out@.contains(sorted@[q].1)),
            forall|t: int|
                0 <= t < out@.len() ==> names@.contains(#[trigger] out@[t]) && log_id(out@[t]@)
                    is Some && log_id(out@[t]@)->Some_0 >= best,
            forall|t: int, q: int|
                0 <= t < out@.len() && m <= q < sorted@.len() ==> log_id(
                    (#[trigger] out@[t])@,
                )->Some_0 <= (#[trigger] sorted@[q]).0,
            forall|t1: int, t2: int|
                0 <= t1 < t2 < out@.len() ==> log_id((#[trigger] out@[t1])@)->Some_0 <= log_id(
                    (#[trigger] out@[t2])@,
                )->Some_0,
        decreases sorted@.len() - m,
    {
        let ghost out_pre = out@;
        if sorted[m].0 >= best {
            out.push(sorted[m].1.clone());
            proof {
                assert(out@ =~= out_pre.push(sorted@[m as int].1));
                assert forall|q: int|
                    0 <= q < m + 1 implies ((#[trigger] sorted@[q]).0 >= best ==> out@.contains(
                    sorted@[q].1,
                )) by {
                    if sorted@[q].0 >= best {
                        lemma_push_contains(out_pre, sorted@[m as int].1, sorted@[q].1);
                    }
                }
            }
        }
        proof {
            assert(sorted@.skip(m as int)[0] == sorted@[m as int]);
            assert(sorted@.skip(m as int).skip(1) =~= sorted@.skip(m + 1));
        }
        m = m + 1;
    }
    proof {
        assert(sorted@.skip(sorted@.len() as int) =~= Seq::<(i64, String)>::empty());
        assert(count_ge(Seq::<(i64, String)>::empty(), best as int) == 0);
        lemma_count_ge_permutation(sorted@, pairs_v, best as int);
        assert(out@.len() == count_selected(names@, best as int));
    }
    proof {
        let start = best as int;
        let wm = choose|mm: int| 0 <= mm < pairs_v.len() && (#[trigger] pairs_v[mm]).0 == best;
        assert(pairs_v.contains(pairs_v[wm]));
        let kk = names@.lemma_contains_to_index(pairs_v[wm].1);
        assert(log_id(names@[kk]@) == Some(start));
        assert forall|k2: int|
            0 <= k2 < names@.len() implies match #[trigger] log_id(names@[k2]@) {
            Some(z) => z <= snapshot_zxid.0 ==> z <= start,
            None => true,
        } by {
            match log_id(names@[k2]@) {
                Some(z) => {
                    let mq = pairs_v.lemma_contains_to_index((z as i64, names@[k2]));
                },
                None => {},
            }
        }
        assert forall|k2: int|
            (0 <= k2 < names@.len() && match #[trigger] log_id(names@[k2]@) {
                Some(z) => z >= start,
                None => false,
            }) implies out@.contains(names@[k2]) by {
            let z = log_id(names@[k2]@)->Some_0;
            let mq = sorted@.lemma_contains_to_index((z as i64, names@[k2]));
        }
        assert(segment_start(names@, snapshot_zxid.0, start) && selected_paths(
            names@,
            start,
            out@,
        ));
    }
    Ok(out)
}

/// The views of a sequence of decoded-or-failed transactions.
pub open spec fn items_view(s: Seq<Result<Txn, Error>>) -> Seq<Result<TxnView, Error>> {
    s.map_values(
        |x: Result<Txn, Error>|
            match x {
                Ok(t) => Ok(t@),
                Err(e) => Err(e),
            },
    )
}

/// Pure parser for reading a run of segments in order: every segment must
/// open (the first segment that does not fail the whole run), and the kept
/// items of each segment follow those of the segments before it.
pub open spec fn spec_find(segs: Seq<Seq<u8>>, target: i64) -> Result<
    Seq<Result<TxnView, Error>>,
    Error,
>
    decreases segs.len(),
{
    if segs.len() == 0 {
        Ok(seq![])
    } else {
        match spec_open(segs[0]) {
            Err(e) => Err(e),
            Ok((_h, rest)) => match spec_find(segs.skip(1), target) {
                Err(e) => Err(e),
                Ok(items) => Ok(spec_segment_kept(txnlog_registry(), rest, target) + items),
            },
        }
    }
}

/// Reads the given log segments in order and hands out every transaction at
/// or past `snapshot_zxid`.
///
/// Every segment must open with a valid header; the first that does not
/// fails the whole call, and no transaction is handed out. Within a
/// segment, transactions older than the target (which a segment may hold at
/// its start) are dropped; a record that fails to decode contributes its
/// error as the segment's last item, and reading continues with the next
/// segment.
#[verifier::rlimit(60)]
pub fn find_txnlog(segments: Vec<Vec<u8>>, snapshot_zxid: Zxid) -> (r: Result<
    Vec<Result<Txn, Error>>,
    Error,
>)
    ensures
        match r {
            Ok(items) => spec_find(seq_view(segments@), snapshot_zxid.0) == Ok::<_, Error>(
                items_view(items@),
            ),
            Err(e) => spec_find(seq_view(segments@), snapshot_zxid.0) == Err::<
                Seq<Result<TxnView, Error>>,
                _,
            >(e),
        },
{
    let ghost orig = seq_view(segments@);
    let ghost target = snapshot_zxid.0;
    let ghost reg = txnlog_registry();
    let total = segments.len();
    let mut rest_segs = segments;
    let mut out: Vec<Result<Txn, Error>> = Vec::new();
    let mut i: usize = 0;
    proof {
        assert(orig.skip(0) =~= orig);
        assert(items_view(out@) =~= Seq::<Result<TxnView, Error>>::empty());
        match spec_find(orig, target) {
            Err(_) => {},
            Ok(items) => {
                assert(Seq::<Result<TxnView, Error>>::empty() + items =~= items);
            },
        }
    }
    while rest_segs.len() > 0
        invariant
            orig == seq_view(segments@),
            target == snapshot_zxid.0,
            orig.len() == total,
            seq_view(rest_segs@) =~= orig.skip(i as int),
            i + rest_segs@.len() == orig.len(),
            reg == txnlog_registry(),
            spec_find(orig, target) == (match spec_find(orig.skip(i as int), target) {
                Err(e) => Err::<Seq<Result<TxnView, Error>>, Error>(e),
                Ok(items) => Ok(items_view(out@) + items),
            }),
        decreases rest_segs@.len(),
    {
        let ghost segs_pre = rest_segs@;
        let data = rest_segs.remove(0);
        proof {
            assert forall|j: int| 0 <= j < rest_segs@.len() implies seq_view(rest_segs@)[j]
                == orig.skip(i + 1)[j] by {
                assert(rest_segs@[j] == segs_pre[j + 1]);
                assert(seq_view(segs_pre)[j + 1] == orig.skip(i as int)[j + 1]);
            }
            assert(seq_view(rest_segs@) =~= orig.skip(i + 1));
            assert(seq_view(segs_pre)[0] == orig.skip(i as int)[0]);
            assert(data@ == orig.skip(i as int)[0]);
        }
        let mut file = match TxnlogFile::new(data) {
            Ok(f) => f,
            Err(e) => {
                proof {
                    assert(spec_find(orig.skip(i as int), target) == Err::<
                        Seq<Result<TxnView, Error>>,
                        Error,
                    >(e));
                }
                return Err(e);
            },
        };
        proof {
            assert(orig.skip(i as int).skip(1) =~= orig.skip(i + 1));
            match spec_find(orig.skip(i + 1), target) {
                Err(_) => {},
                Ok(items2) => {
                    let kept = spec_segment_kept(reg, file.remaining(), target);
                    assert((items_view(out@) + kept) + items2 =~= items_view(out@) + (kept
                        + items2));
                },
            }
        }
        loop
            invariant_except_break
                !file.spec_done(),
                spec_find(orig, target) == (match spec_find(orig.skip(i + 1), target) {
                    Err(e) => Err::<Seq<Result<TxnView, Error>>, Error>(e),
                    Ok(items) => Ok(
                        (items_view(out@) + spec_segment_kept(reg, file.remaining(), target))
                            + items,
                    ),
                }),
            invariant
                file.wf(),
                file.registry() == reg,
                reg == txnlog_registry(),
                target == snapshot_zxid.0,
            ensures
                spec_find(orig, target) == (match spec_find(orig.skip(i + 1), target) {
                    Err(e) => Err::<Seq<Result<TxnView, Error>>, Error>(e),
                    Ok(items) => Ok(items_view(out@) + items),
                }),
            decreases file.remaining().len(),
        {
            let ghost pre = file.remaining();
            let ghost out_pre = out@;
            match file.next() {
                None => {
                    proof {
                        assert(spec_segment_kept(reg, pre, target) =~= Seq::<
                            Result<TxnView, Error>,
                        >::empty());
                        assert(items_view(out@) + Seq::<Result<TxnView, Error>>::empty()
                            =~= items_view(out@));
                    }
                    break ;
                },
                Some(Ok(t)) => {
                    proof {
                        lemma_record_shrinks(reg, pre);
                    }
                    let ghost tv = t@;
                    let ghost kept_rest = spec_segment_kept(reg, file.remaining(), target);
                    if t.header.zxid.0 >= snapshot_zxid.0 {
                        out.push(Ok(t));
                        proof {
                            assert(spec_segment_kept(reg, pre, target) =~= seq![
                                Ok::<TxnView, Error>(tv),
                            ] + kept_rest);
                            assert(items_view(out@) =~= items_view(out_pre) + seq![
                                Ok::<TxnView, Error>(tv),
                            ]);
                            assert(items_view(out_pre) + (seq![Ok::<TxnView, Error>(tv)]
                                + kept_rest) =~= (items_view(out_pre) + seq![
                                Ok::<TxnView, Error>(tv),
                            ]) + kept_rest);
                        }
                    } else {
                        proof {
                            assert(spec_segment_kept(reg, pre, target) =~= Seq::<
                                Result<TxnView, Error>,
                            >::empty() + kept_rest);
                            assert(Seq::<Result<TxnView, Error>>::empty() + kept_rest
                                =~= kept_rest);
                            assert(spec_segment_kept(reg, pre, target) =~= kept_rest);
                        }
                    }
                },
                Some(Err(e)) => {
                    out.push(Err(e));
                    proof {
                        assert(spec_segment_kept(reg, pre, target) =~= seq![
                            Err::<TxnView, Error>(e),
                        ]);
                        assert(items_view(out@) =~= items_view(out_pre) + seq![
                            Err::<TxnView, Error>(e),
                        ]);
                    }
                    break ;
                },
            }
        }
        i = i + 1;
    }
    proof {
        assert(orig.skip(i as int) =~= Seq::<Seq<u8>>::empty());
        assert(items_view(out@) + Seq::<Result<TxnView, Error>>::empty() =~= items_view(out@));
    }
    Ok(out)
}

} // verus!
