//! What the two file-level readers share: the common file header, the two
//! magic numbers, and the parsing of the transaction id out of a file name.
//!
//! Log segments are named `log.<hex id>` and snapshots `snapshot.<hex id>`:
//! the part after the last dot is read as a base-16 64-bit integer.

use vstd::prelude::*;
use vstd::string::StringSliceAdditionalSpecFns;
use vstd::string::StrSliceExecFns;

use crate::codec::spec_i32;
use crate::codec::spec_i64;
use crate::codec::Decode;
use crate::codec::Deserializer;
use crate::codec::EnumMappingView;
use crate::error::Error;
use crate::Zxid;

pub mod snapshot;
pub mod txnlog;

verus! {

/// The magic number opening a transaction log file ("ZKLG").
pub const TXNLOG_MAGIC: i32 = 0x5a4b_4c47;

/// The magic number opening a snapshot file ("ZKSN").
pub const SNAP_MAGIC: i32 = 0x5a4b_534e;

/// The common preamble both file kinds start with. The magic number must be
/// the kind's own and the version must be 2.
#[derive(Debug, Copy, Clone, PartialEq, Eq, Structural)]
pub struct FileHeader {
    pub magic: i32,
    pub version: i32,
    pub dbid: i64,
}

impl View for FileHeader {
    type V = FileHeader;

    open spec fn view(&self) -> FileHeader {
        *self
    }
}

impl Decode for FileHeader {
    open spec fn spec_decode(reg: Seq<EnumMappingView>, s: Seq<u8>) -> Result<
        (FileHeader, Seq<u8>),
        Error,
    > {
        match spec_i32(s) {
            Err(e) => Err(e),
            Ok((magic, s1)) => match spec_i32(s1) {
                Err(e) => Err(e),
                Ok((version, s2)) => match spec_i64(s2) {
                    Err(e) => Err(e),
                    Ok((dbid, s3)) => Ok(((FileHeader { magic, version, dbid }), s3)),
                },
            },
        }
    }

    fn decode(d: &mut Deserializer) -> (r: Result<FileHeader, Error>) {
        let magic = match d.read_i32() {
            Ok(v) => v,
            Err(e) => { return Err(e) },
        };
        let version = match d.read_i32() {
            Ok(v) => v,
            Err(e) => { return Err(e) },
        };
        let dbid = match d.read_i64() {
            Ok(v) => v,
            Err(e) => { return Err(e) },
        };
        Ok(FileHeader { magic, version, dbid })
    }
}

/// `p` is the position of the last dot among the bytes `b`.
pub open spec fn is_last_dot(b: Seq<u8>, p: int) -> bool {
    &&& 0 <= p < b.len()
    &&& b[p] == 46u8
    &&& forall|j: int| p < j < b.len() ==> b[j] != 46u8
}

/// The value of one ASCII hex digit, if the byte is one.
pub open spec fn spec_hex_digit(b: u8) -> Option<int> {
    if 48 <= b <= 57 {
        Some((b - 48) as int)
    } else if 97 <= b <= 102 {
        Some((b - 97) as int + 10)
    } else if 65 <= b <= 70 {
        Some((b - 65) as int + 10)
    } else {
        None
    }
}

/// Folds hex digits into a value left to right, starting from `acc`; fails
/// on a byte that is no hex digit and on a value past the largest signed
/// 64-bit integer.
pub open spec fn spec_hex_value(e: Seq<u8>, acc: int) -> Option<int>
    decreases e.len(),
{
    if e.len() == 0 {
        Some(acc)
    } else {
        match spec_hex_digit(e[0]) {
            None => None,
            Some(d) => if acc * 16 + d > 0x7fff_ffff_ffff_ffff {
                None
            } else {
                spec_hex_value(e.skip(1), acc * 16 + d)
            },
        }
    }
}

/// The value of a non-empty string of hex digits.
pub open spec fn spec_parse_hex(e: Seq<u8>) -> Option<int> {
    if e.len() == 0 {
        None
    } else {
        spec_hex_value(e, 0)
    }
}

/// The transaction id a file name encodes: the hex value of what follows the
/// last dot, if there is a dot and the suffix is non-empty hex that fits a
/// signed 64-bit integer.
pub open spec fn spec_zxid_from_path(b: Seq<u8>) -> Option<int> {
    if exists|p: int| is_last_dot(b, p) {
        spec_parse_hex(b.skip((choose|p: int| is_last_dot(b, p)) + 1))
    } else {
        None
    }
}

/// Two positions that are each the last dot are the same position.
proof fn lemma_last_dot_unique(b: Seq<u8>, p1: int, p2: int)
    requires
        is_last_dot(b, p1),
        is_last_dot(b, p2),
    ensures
        p1 == p2,
{
    if p1 < p2 {
        assert(b[p2] != 46u8);
    }
    if p2 < p1 {
        assert(b[p1] != 46u8);
    }
}

/// Parses the transaction id encoded in a file name: the part after the last
/// dot, read as base-16.
pub fn zxid_from_path(path: &str) -> (r: Option<Zxid>)
    ensures
        match r {
            Some(z) => spec_zxid_from_path(path.spec_bytes()) == Some(z.0 as int),
            None => spec_zxid_from_path(path.spec_bytes()) is None,
        },
{
    let bytes = path.as_bytes_vec();
    let n = bytes.len();
    let mut i: usize = n;
    let mut dot: usize = 0;
    let mut found: bool = false;
    while !found && i > 0
        invariant
            i <= n,
            n == bytes@.len(),
            bytes@ == path.spec_bytes(),
            !found ==> forall|j: int| i <= j < n ==> bytes@[j] != 46u8,
            found ==> is_last_dot(bytes@, dot as int),
        decreases i,
    {
        i = i - 1;
        if bytes[i] == 46 {
            found = true;
            dot = i;
        }
    }
    if !found {
        proof {
            assert forall|p: int| !is_last_dot(bytes@, p) by {
                if 0 <= p < n {
                    assert(bytes@[p] != 46u8);
                }
            }
        }
        return None;
    }
    let ghost ext = bytes@.skip(dot + 1);
    if dot + 1 >= n {
        proof {
            assert(ext.len() == 0);
            lemma_choose_is_dot(bytes@, dot as int);
        }
        return None;
    }
    let mut acc: i64 = 0;
    let mut k: usize = dot + 1;
    while k < n
        invariant
            dot < k <= n,
            n == bytes@.len(),
            bytes@ == path.spec_bytes(),
            ext == bytes@.skip(dot + 1),
            is_last_dot(bytes@, dot as int),
            0 <= acc,
            spec_hex_value(ext, 0) == spec_hex_value(bytes@.skip(k as int), acc as int),
        decreases n - k,
    {
        let ghost cur = bytes@.skip(k as int);
        proof {
            assert(cur.len() > 0);
            assert(cur[0] == bytes@[k as int]);
            assert(cur.skip(1) =~= bytes@.skip(k + 1));
        }
        let b = bytes[k];
        let d: i64;
        if b >= 48 && b <= 57 {
            d = (b - 48) as i64;
        } else if b >= 97 && b <= 102 {
            d = (b - 97) as i64 + 10;
        } else if b >= 65 && b <= 70 {
            d = (b - 65) as i64 + 10;
        } else {
            proof {
                assert(spec_hex_digit(cur[0]) is None);
            }
            return None;
        }
        proof {
            assert(spec_hex_digit(cur[0]) == Some(d as int));
        }
        let next: i64;
        match acc.checked_mul(16) {
            Some(x) => {
                match x.checked_add(d) {
                    Some(y) => { next = y;
                    },
                    None => {
                        proof {
                            lemma_choose_is_dot(bytes@, dot as int);
                        }
                        return None;
                    },
                }
            },
            None => {
                proof {
                    lemma_choose_is_dot(bytes@, dot as int);
                }
                return None;
            },
        }
        acc = next;
        k = k + 1;
    }
    proof {
        assert(bytes@.skip(n as int) =~= Seq::<u8>::empty());
        lemma_choose_is_dot(bytes@, dot as int);
    }
    Some(Zxid(acc))
}

/// With `p` the last dot of `b`, the chosen last-dot position is `p`, so the
/// id `b` encodes is the hex value of what follows `p`.
proof fn lemma_choose_is_dot(b: Seq<u8>, p: int)
    requires
        is_last_dot(b, p),
    ensures
        spec_zxid_from_path(b) == spec_parse_hex(b.skip(p + 1)),
{
    let c = choose|q: int| is_last_dot(b, q);
    lemma_last_dot_unique(b, c, p);
}

} // verus!
