//! The binary decoding engine: big-endian primitives pulled off an owned,
//! forward-only byte stream, plus the enum discriminant registry.
//!
//! Every executable read is specified against a pure parser on `Seq<u8>`
//! (`spec_u8`, `spec_i32`, `spec_string`, ...) that returns either the decoded
//! value together with the bytes left over, or the exact error the read
//! reports. The file-level readers state their contracts by composing these
//! parsers.

use vstd::prelude::*;
use vstd::utf8::decode_utf8;
use vstd::utf8::valid_utf8;

use crate::error::Error;

verus! {

/// The largest accepted string length, in bytes.
pub const MAX_LENGTH: usize = 1048576;

/// The value of four bytes read as one big-endian unsigned 32-bit integer.
pub open spec fn be_u32(b: Seq<u8>) -> u32
    recommends
        b.len() == 4,
{
    ((b[0] as u32) << 24) | ((b[1] as u32) << 16) | ((b[2] as u32) << 8) | (b[3] as u32)
}

/// The value of eight bytes read as one big-endian unsigned 64-bit integer.
pub open spec fn be_u64(b: Seq<u8>) -> u64
    recommends
        b.len() == 8,
{
    ((b[0] as u64) << 56) | ((b[1] as u64) << 48) | ((b[2] as u64) << 40) | ((b[3] as u64) << 32)
        | ((b[4] as u64) << 24) | ((b[5] as u64) << 16) | ((b[6] as u64) << 8) | (b[7] as u64)
}

/// The value of four bytes read as one big-endian signed 32-bit integer.
pub open spec fn be_i32(b: Seq<u8>) -> i32
    recommends
        b.len() == 4,
{
    be_u32(b) as i32
}

/// The value of eight bytes read as one big-endian signed 64-bit integer.
pub open spec fn be_i64(b: Seq<u8>) -> i64
    recommends
        b.len() == 8,
{
    be_u64(b) as i64
}

/// Pure parser for one byte.
pub open spec fn spec_u8(s: Seq<u8>) -> Result<(u8, Seq<u8>), Error> {
    if s.len() < 1 {
        Err(Error::Eof)
    } else {
        Ok((s[0], s.skip(1)))
    }
}

/// Pure parser for a boolean: one byte, zero is false, anything else is true.
pub open spec fn spec_bool(s: Seq<u8>) -> Result<(bool, Seq<u8>), Error> {
    match spec_u8(s) {
        Err(e) => Err(e),
        Ok((b, rest)) => Ok((b != 0, rest)),
    }
}

/// Pure parser for one signed byte.
pub open spec fn spec_i8(s: Seq<u8>) -> Result<(i8, Seq<u8>), Error> {
    match spec_u8(s) {
        Err(e) => Err(e),
        Ok((b, rest)) => Ok((b as i8, rest)),
    }
}

/// Pure parser for a big-endian unsigned 32-bit integer.
pub open spec fn spec_u32(s: Seq<u8>) -> Result<(u32, Seq<u8>), Error> {
    if s.len() < 4 {
        Err(Error::Eof)
    } else {
        Ok((be_u32(s.subrange(0, 4)), s.skip(4)))
    }
}

/// Pure parser for a big-endian signed 32-bit integer.
pub open spec fn spec_i32(s: Seq<u8>) -> Result<(i32, Seq<u8>), Error> {
    if s.len() < 4 {
        Err(Error::Eof)
    } else {
        Ok((be_i32(s.subrange(0, 4)), s.skip(4)))
    }
}

/// Pure parser for a big-endian unsigned 64-bit integer.
pub open spec fn spec_u64(s: Seq<u8>) -> Result<(u64, Seq<u8>), Error> {
    if s.len() < 8 {
        Err(Error::Eof)
    } else {
        Ok((be_u64(s.subrange(0, 8)), s.skip(8)))
    }
}

/// Pure parser for a big-endian signed 64-bit integer.
pub open spec fn spec_i64(s: Seq<u8>) -> Result<(i64, Seq<u8>), Error> {
    if s.len() < 8 {
        Err(Error::Eof)
    } else {
        Ok((be_i64(s.subrange(0, 8)), s.skip(8)))
    }
}

/// Pure parser for a sequence or map count: a signed 32-bit integer, where a
/// negative value stands for the wire format's "null container" and is
/// collapsed to zero elements.
pub open spec fn spec_count(s: Seq<u8>) -> Result<(usize, Seq<u8>), Error> {
    match spec_i32(s) {
        Err(e) => Err(e),
        Ok((n, rest)) => Ok(((if n < 0 { 0usize } else { n as usize }), rest)),
    }
}

/// Pure parser for a string: a 4-byte length that must not exceed
/// [`MAX_LENGTH`], followed by that many bytes of UTF-8 text.
pub open spec fn spec_string(s: Seq<u8>) -> Result<(Seq<char>, Seq<u8>), Error> {
    if s.len() < 4 {
        Err(Error::Eof)
    } else {
        let n = be_u32(s.subrange(0, 4)) as int;
        if n > MAX_LENGTH {
            Err(Error::TooLarge(be_u32(s.subrange(0, 4)) as usize))
        } else if s.len() - 4 < n {
            Err(Error::Eof)
        } else if !valid_utf8(s.subrange(4, 4 + n)) {
            Err(Error::InvalidText)
        } else {
            Ok((decode_utf8(s.subrange(4, 4 + n)), s.skip(4 + n)))
        }
    }
}

/// Pure parser for a raw byte buffer: a 4-byte unsigned length followed by
/// that many raw bytes.
pub open spec fn spec_buffer(s: Seq<u8>) -> Result<(Seq<u8>, Seq<u8>), Error> {
    if s.len() < 4 {
        Err(Error::Eof)
    } else {
        let n = be_u32(s.subrange(0, 4)) as int;
        if s.len() - 4 < n {
            Err(Error::Eof)
        } else {
            Ok((s.subrange(4, 4 + n), s.skip(4 + n)))
        }
    }
}

/// Pure parser for bytes stored as a counted sequence of single bytes: a
/// 4-byte signed count (negative collapsed to zero) followed by that many
/// bytes.
pub open spec fn spec_byte_seq(s: Seq<u8>) -> Result<(Seq<u8>, Seq<u8>), Error> {
    match spec_count(s) {
        Err(e) => Err(e),
        Ok((n, rest)) => if rest.len() < n {
            Err(Error::Eof)
        } else {
            Ok((rest.subrange(0, n as int), rest.skip(n as int)))
        },
    }
}

/// Order of type and length in the encoding of an enumeration.
///
/// The wire format does not encode enumerations consistently:
/// - in multi operations it is type, length, data;
/// - elsewhere it is length, type, data;
/// - in some places the length is read separately beforehand, so only the
///   type remains.
#[derive(Debug, Copy, Clone, PartialEq, Eq, Structural)]
pub enum EnumEncoding {
    TypeThenLength,
    LengthThenType,
    Type,
}

/// The mathematical content of one registry entry: a type's name, its table
/// of discriminant codes with their variant names, and the byte layout of the
/// discriminant on the wire.
#[verifier::ext_equal]
pub struct EnumMappingView {
    pub name: Seq<char>,
    pub codes: Seq<(i32, Seq<char>)>,
    pub encoding: EnumEncoding,
}

/// One registered enum type: the key callers decode it under, its code table,
/// and its discriminant layout.
pub struct EnumMapping {
    name: String,
    codes: Vec<(i32, String)>,
    encoding: EnumEncoding,
}

/// The mathematical content of a code table handed to the registry.
pub open spec fn table_view(codes: Seq<(i32, String)>) -> Seq<(i32, Seq<char>)> {
    codes.map_values(|p: (i32, String)| (p.0, p.1@))
}

impl View for EnumMapping {
    type V = EnumMappingView;

    closed spec fn view(&self) -> EnumMappingView {
        EnumMappingView { name: self.name@, codes: table_view(self.codes@), encoding: self.encoding }
    }
}

/// The first entry registered under `name`, if any; later registrations of
/// the same name shadow earlier ones, so the first entry is the current one.
pub open spec fn reg_find(reg: Seq<EnumMappingView>, name: Seq<char>) -> Option<EnumMappingView>
    decreases reg.len(),
{
    if reg.len() == 0 {
        None
    } else if reg[0].name == name {
        Some(reg[0])
    } else {
        reg_find(reg.skip(1), name)
    }
}

/// The variant name a code table assigns to `code`, if any.
pub open spec fn table_find(codes: Seq<(i32, Seq<char>)>, code: i32) -> Option<Seq<char>>
    decreases codes.len(),
{
    if codes.len() == 0 {
        None
    } else if codes[0].0 == code {
        Some(codes[0].1)
    } else {
        table_find(codes.skip(1), code)
    }
}

/// Pure parser for the discriminant of an enum of the named type, against a
/// registry: resolves the registration, reads the discriminant and, per the
/// registered layout, a length field that is consumed and discarded, and
/// checks the code against the table.
pub open spec fn spec_discriminant(reg: Seq<EnumMappingView>, name: Seq<char>, s: Seq<u8>) -> Result<
    (i32, Seq<u8>),
    Error,
> {
    match reg_find(reg, name) {
        None => Err(Error::UnregisteredEnum),
        Some(m) => {
            let read = match m.encoding {
                EnumEncoding::Type => spec_i32(s),
                EnumEncoding::LengthThenType => match spec_i32(s) {
                    Err(e) => Err(e),
                    Ok((_len, s1)) => spec_i32(s1),
                },
                EnumEncoding::TypeThenLength => match spec_i32(s) {
                    Err(e) => Err(e),
                    Ok((code, s1)) => match spec_i32(s1) {
                        Err(e) => Err(e),
                        Ok((_len, s2)) => Ok((code, s2)),
                    },
                },
            };
            match read {
                Err(e) => Err(e),
                Ok((code, rest)) => if table_find(m.codes, code) is Some {
                    Ok((code, rest))
                } else {
                    Err(Error::UnknownDiscriminant(code))
                },
            }
        },
    }
}

/// The decoding engine: an exclusively owned byte stream positioned at a
/// cursor, plus the enum discriminant registry for this decoding session.
pub struct Deserializer {
    data: Vec<u8>,
    pos: usize,
    enum_mappings: Vec<EnumMapping>,
}

impl Deserializer {
    /// The cursor never passes the end of the stream.
    pub closed spec fn wf(&self) -> bool {
        self.pos <= self.data@.len()
    }

    /// The bytes not yet consumed.
    pub closed spec fn remaining(&self) -> Seq<u8> {
        self.data@.skip(self.pos as int)
    }

    /// The registered enum mappings, newest first.
    pub closed spec fn registry(&self) -> Seq<EnumMappingView> {
        self.enum_mappings@.map_values(|m: EnumMapping| m@)
    }
}

/// A decoder positioned at the start of `data`, with an empty registry.
pub fn from_reader(data: Vec<u8>) -> (d: Deserializer)
    ensures
        d.wf(),
        d.remaining() == data@,
        d.registry() == Seq::<EnumMappingView>::empty(),
{
    let d = Deserializer { data, pos: 0, enum_mappings: Vec::new() };
    proof {
        assert(d.remaining() =~= d.data@);
        assert(d.registry() =~= Seq::<EnumMappingView>::empty());
    }
    d
}

impl Deserializer {
    /// Registers a discriminant mapping for an enum type decoded under
    /// `name`, shadowing any earlier registration of the same name.
    pub fn add_enum_mapping(&mut self, name: &str, codes: Vec<(i32, String)>, encoding: EnumEncoding)
        requires
            old(self).wf(),
        ensures
            final(self).wf(),
            final(self).remaining() == old(self).remaining(),
            final(self).registry() == old(self).registry().insert(
                0,
                (EnumMappingView { name: name@, codes: table_view(codes@), encoding }),
            ),
    {
        let ghost prior = self.enum_mappings@;
        let entry = EnumMapping { name: name.to_owned(), codes, encoding };
        self.enum_mappings.insert(0, entry);
        proof {
            assert(self.registry() =~= prior.map_values(|m: EnumMapping| m@).insert(0, entry@));
        }
    }

    /// Registers a field-less enum type, whose values are encoded as a bare
    /// discriminant.
    pub fn add_enum(&mut self, name: &str, codes: Vec<(i32, String)>)
        requires
            old(self).wf(),
        ensures
            final(self).wf(),
            final(self).remaining() == old(self).remaining(),
            final(self).registry() == old(self).registry().insert(
                0,
                (EnumMappingView {
                    name: name@,
                    codes: table_view(codes@),
                    encoding: EnumEncoding::Type,
                }),
            ),
    {
        self.add_enum_mapping(name, codes, EnumEncoding::Type)
    }

    /// Reads one byte.
    pub fn read_u8(&mut self) -> (r: Result<u8, Error>)
        requires
            old(self).wf(),
        ensures
            final(self).wf(),
            final(self).registry() == old(self).registry(),
            match r {
                Ok(v) => spec_u8(old(self).remaining()) == Ok::<_, Error>((
                    v,
                    final(self).remaining(),
                )),
                Err(e) => spec_u8(old(self).remaining()) == Err::<(u8, Seq<u8>), _>(e)
                    && final(self).remaining() == old(self).remaining(),
            },
    {
        if self.data.len() - self.pos < 1 {
            Err(Error::Eof)
        } else {
            let b = self.data[self.pos];
            self.pos = self.pos + 1;
            proof {
                assert(self.remaining() =~= old(self).remaining().skip(1));
            }
            Ok(b)
        }
    }

    /// Reads a boolean: one byte, zero is false, anything else is true.
    pub fn read_bool(&mut self) -> (r: Result<bool, Error>)
        requires
            old(self).wf(),
        ensures
            final(self).wf(),
            final(self).registry() == old(self).registry(),
            match r {
                Ok(v) => spec_bool(old(self).remaining()) == Ok::<_, Error>((
                    v,
                    final(self).remaining(),
                )),
                Err(e) => spec_bool(old(self).remaining()) == Err::<(bool, Seq<u8>), _>(e)
                    && final(self).remaining() == old(self).remaining(),
            },
    {
        match self.read_u8() {
            Ok(b) => Ok(b != 0),
            Err(e) => Err(e),
        }
    }

    /// Reads one signed byte.
    pub fn read_i8(&mut self) -> (r: Result<i8, Error>)
        requires
            old(self).wf(),
        ensures
            final(self).wf(),
            final(self).registry() == old(self).registry(),
            match r {
                Ok(v) => spec_i8(old(self).remaining()) == Ok::<_, Error>((
                    v,
                    final(self).remaining(),
                )),
                Err(e) => spec_i8(old(self).remaining()) == Err::<(i8, Seq<u8>), _>(e)
                    && final(self).remaining() == old(self).remaining(),
            },
    {
        match self.read_u8() {
            Ok(b) => Ok(b as i8),
            Err(e) => Err(e),
        }
    }

    /// Reads a big-endian unsigned 32-bit integer.
    pub fn read_u32(&mut self) -> (r: Result<u32, Error>)
        requires
            old(self).wf(),
        ensures
            final(self).wf(),
            final(self).registry() == old(self).registry(),
            match r {
                Ok(v) => spec_u32(old(self).remaining()) == Ok::<_, Error>((
                    v,
                    final(self).remaining(),
                )),
                Err(e) => spec_u32(old(self).remaining()) == Err::<(u32, Seq<u8>), _>(e)
                    && final(self).remaining() == old(self).remaining(),
            },
    {
        if self.data.len() - self.pos < 4 {
            Err(Error::Eof)
        } else {
            let b0 = self.data[self.pos];
            let b1 = self.data[self.pos + 1];
            let b2 = self.data[self.pos + 2];
            let b3 = self.data[self.pos + 3];
            let v = ((b0 as u32) << 24) | ((b1 as u32) << 16) | ((b2 as u32) << 8) | (b3 as u32);
            self.pos = self.pos + 4;
            proof {
                let s = old(self).remaining();
                assert(s.subrange(0, 4)[0] == b0);
                assert(s.subrange(0, 4)[1] == b1);
                assert(s.subrange(0, 4)[2] == b2);
                assert(s.subrange(0, 4)[3] == b3);
                assert(self.remaining() =~= s.skip(4));
            }
            Ok(v)
        }
    }

    /// Reads a big-endian signed 32-bit integer.
    pub fn read_i32(&mut self) -> (r: Result<i32, Error>)
        requires
            old(self).wf(),
        ensures
            final(self).wf(),
            final(self).registry() == old(self).registry(),
            match r {
                Ok(v) => spec_i32(old(self).remaining()) == Ok::<_, Error>((
                    v,
                    final(self).remaining(),
                )),
                Err(e) => spec_i32(old(self).remaining()) == Err::<(i32, Seq<u8>), _>(e)
                    && final(self).remaining() == old(self).remaining(),
            },
    {
        match self.read_u32() {
            Ok(v) => Ok(v as i32),
            Err(e) => Err(e),
        }
    }

    /// Reads a big-endian unsigned 64-bit integer.
    pub fn read_u64(&mut self) -> (r: Result<u64, Error>)
        requires
            old(self).wf(),
        ensures
            final(self).wf(),
            final(self).registry() == old(self).registry(),
            match r {
                Ok(v) => spec_u64(old(self).remaining()) == Ok::<_, Error>((
                    v,
                    final(self).remaining(),
                )),
                Err(e) => spec_u64(old(self).remaining()) == Err::<(u64, Seq<u8>), _>(e)
                    && final(self).remaining() == old(self).remaining(),
            },
    {
        if self.data.len() - self.pos < 8 {
            Err(Error::Eof)
        } else {
            let b0 = self.data[self.pos];
            let b1 = self.data[self.pos + 1];
            let b2 = self.data[self.pos + 2];
            let b3 = self.data[self.pos + 3];
            let b4 = self.data[self.pos + 4];
            let b5 = self.data[self.pos + 5];
            let b6 = self.data[self.pos + 6];
            let b7 = self.data[self.pos + 7];
            let v = ((b0 as u64) << 56) | ((b1 as u64) << 48) | ((b2 as u64) << 40) | ((b3
                as u64) << 32) | ((b4 as u64) << 24) | ((b5 as u64) << 16) | ((b6 as u64) << 8) | (
            b7 as u64);
            self.pos = self.pos + 8;
            proof {
                let s = old(self).remaining();
                assert(s.subrange(0, 8)[0] == b0);
                assert(s.subrange(0, 8)[1] == b1);
                assert(s.subrange(0, 8)[2] == b2);
                assert(s.subrange(0, 8)[3] == b3);
                assert(s.subrange(0, 8)[4] == b4);
                assert(s.subrange(0, 8)[5] == b5);
                assert(s.subrange(0, 8)[6] == b6);
                assert(s.subrange(0, 8)[7] == b7);
                assert(self.remaining() =~= s.skip(8));
            }
            Ok(v)
        }
    }

    /// Reads a big-endian signed 64-bit integer.
    pub fn read_i64(&mut self) -> (r: Result<i64, Error>)
        requires
            old(self).wf(),
        ensures
            final(self).wf(),
            final(self).registry() == old(self).registry(),
            match r {
                Ok(v) => spec_i64(old(self).remaining()) == Ok::<_, Error>((
                    v,
                    final(self).remaining(),
                )),
                Err(e) => spec_i64(old(self).remaining()) == Err::<(i64, Seq<u8>), _>(e)
                    && final(self).remaining() == old(self).remaining(),
            },
    {
        match self.read_u64() {
            Ok(v) => Ok(v as i64),
            Err(e) => Err(e),
        }
    }

    /// Reads a sequence or map count: a signed 32-bit integer, a negative
    /// value standing for the null container and collapsed to zero.
    pub fn read_count(&mut self) -> (r: Result<usize, Error>)
        requires
            old(self).wf(),
        ensures
            final(self).wf(),
            final(self).registry() == old(self).registry(),
            match r {
                Ok(v) => spec_count(old(self).remaining()) == Ok::<_, Error>((
                    v,
                    final(self).remaining(),
                )),
                Err(e) => spec_count(old(self).remaining()) == Err::<(usize, Seq<u8>), _>(e)
                    && final(self).remaining() == old(self).remaining(),
            },
    {
        match self.read_i32() {
            Ok(n) => if n < 0 {
                Ok(0)
            } else {
                Ok(n as usize)
            },
            Err(e) => Err(e),
        }
    }
}

/// Pure parser for `n` values read in order, each by `elem`.
pub open spec fn spec_elems<T>(
    elem: spec_fn(Seq<u8>) -> Result<(T, Seq<u8>), Error>,
    n: nat,
    s: Seq<u8>,
) -> Result<(Seq<T>, Seq<u8>), Error>
    decreases n,
{
    if n == 0 {
        Ok((Seq::empty(), s))
    } else {
        match elem(s) {
            Err(e) => Err(e),
            Ok((v, rest)) => match spec_elems(elem, (n - 1) as nat, rest) {
                Err(e) => Err(e),
                Ok((vs, rest2)) => Ok((seq![v] + vs, rest2)),
            },
        }
    }
}

/// Pure parser for a counted sequence or map section: a count field (negative
/// collapsed to zero) followed by that many values read by `elem`.
pub open spec fn spec_counted<T>(
    elem: spec_fn(Seq<u8>) -> Result<(T, Seq<u8>), Error>,
    s: Seq<u8>,
) -> Result<(Seq<T>, Seq<u8>), Error> {
    match spec_count(s) {
        Err(e) => Err(e),
        Ok((n, rest)) => spec_elems(elem, n as nat, rest),
    }
}

/// Law: reading `m + k` values in one go is the same as reading `m` values
/// and then `k` more from what is left — the same items come out, in the same
/// order, and the stream lands at the same place. This is why skipping the
/// unread tail of a section positions the cursor exactly where consuming the
/// whole section would.
pub proof fn lemma_elems_split<T>(
    elem: spec_fn(Seq<u8>) -> Result<(T, Seq<u8>), Error>,
    m: nat,
    k: nat,
    s: Seq<u8>,
)
    ensures
        spec_elems(elem, m + k, s) == match spec_elems(elem, m, s) {
            Err(e) => Err::<(Seq<T>, Seq<u8>), Error>(e),
            Ok((vs, rest)) => match spec_elems(elem, k, rest) {
                Err(e) => Err(e),
                Ok((ws, rest2)) => Ok((vs + ws, rest2)),
            },
        },
    decreases m,
{
    if m == 0 {
        assert(m + k == k);
        match spec_elems(elem, k, s) {
            Ok((ws, rest2)) => {
                assert(Seq::<T>::empty() + ws =~= ws);
            },
            Err(_) => {},
        }
    } else {
        match elem(s) {
            Err(_) => {},
            Ok((v, rest)) => {
                lemma_elems_split(elem, (m - 1) as nat, k, rest);
                assert((m + k - 1) as nat == (m - 1) as nat + k);
                match spec_elems(elem, (m - 1) as nat, rest) {
                    Err(_) => {},
                    Ok((vs, rest1)) => {
                        match spec_elems(elem, k, rest1) {
                            Err(_) => {},
                            Ok((ws, rest2)) => {
                                assert((seq![v] + vs) + ws =~= seq![v] + (vs + ws));
                            },
                        }
                    },
                }
            },
        }
    }
}

/// Law: a sequence or map whose count field is negative is an empty
/// container, never an error — the wire format's null container collapses to
/// the empty one.
pub proof fn lemma_negative_count_empty<T>(
    elem: spec_fn(Seq<u8>) -> Result<(T, Seq<u8>), Error>,
    s: Seq<u8>,
)
    requires
        spec_i32(s) matches Ok((n, rest)) && n < 0,
    ensures
        spec_counted(elem, s) == Ok::<_, Error>((
            Seq::<T>::empty(),
            spec_i32(s)->Ok_0.1,
        )),
{
}

/// The big-endian bytes of an unsigned 32-bit integer.
pub open spec fn u32_to_be(v: u32) -> Seq<u8> {
    seq![((v >> 24) & 0xff) as u8, ((v >> 16) & 0xff) as u8, ((v >> 8) & 0xff) as u8, (v
        & 0xff) as u8]
}

/// The big-endian bytes of a signed 32-bit integer.
pub open spec fn i32_to_be(v: i32) -> Seq<u8> {
    u32_to_be(v as u32)
}

/// Reading four encoded bytes back gives the encoded integer.
pub proof fn lemma_be_u32_round_trip(v: u32)
    ensures
        be_u32(u32_to_be(v)) == v,
{
    assert((((v >> 24) & 0xff) as u8 as u32) << 24 | (((v >> 16) & 0xff) as u8 as u32) << 16 | (((v
        >> 8) & 0xff) as u8 as u32) << 8 | ((v & 0xff) as u8 as u32) == v) by (bit_vector);
}

/// Reading four encoded bytes back gives the encoded signed integer.
pub proof fn lemma_be_i32_round_trip(v: i32)
    ensures
        be_i32(i32_to_be(v)) == v,
{
    lemma_be_u32_round_trip(v as u32);
    assert((v as u32) as i32 == v) by (bit_vector);
}

/// The big-endian bytes of an unsigned 64-bit integer.
pub open spec fn u64_to_be(v: u64) -> Seq<u8> {
    seq![((v >> 56) & 0xff) as u8, ((v >> 48) & 0xff) as u8, ((v >> 40) & 0xff) as u8, ((v >> 32)
        & 0xff) as u8, ((v >> 24) & 0xff) as u8, ((v >> 16) & 0xff) as u8, ((v >> 8) & 0xff) as u8, (
    v & 0xff) as u8]
}

/// The big-endian bytes of a signed 64-bit integer.
pub open spec fn i64_to_be(v: i64) -> Seq<u8> {
    u64_to_be(v as u64)
}

/// Reading eight encoded bytes back gives the encoded integer.
pub proof fn lemma_be_u64_round_trip(v: u64)
    ensures
        be_u64(u64_to_be(v)) == v,
{
    assert((((v >> 56) & 0xff) as u8 as u64) << 56 | (((v >> 48) & 0xff) as u8 as u64) << 48 | (((v
        >> 40) & 0xff) as u8 as u64) << 40 | (((v >> 32) & 0xff) as u8 as u64) << 32 | (((v >> 24)
        & 0xff) as u8 as u64) << 24 | (((v >> 16) & 0xff) as u8 as u64) << 16 | (((v >> 8)
        & 0xff) as u8 as u64) << 8 | ((v & 0xff) as u8 as u64) == v) by (bit_vector);
}

/// Reading eight encoded bytes back gives the encoded signed integer.
pub proof fn lemma_be_i64_round_trip(v: i64)
    ensures
        be_i64(i64_to_be(v)) == v,
{
    lemma_be_u64_round_trip(v as u64);
    assert((v as u64) as i64 == v) by (bit_vector);
}

/// The bytes a discriminant (and, per the layout, a length field) occupies on
/// the wire when the discriminant is `code` and the length field is `len`.
pub open spec fn discriminant_to_be(encoding: EnumEncoding, code: i32, len: i32) -> Seq<u8> {
    match encoding {
        EnumEncoding::Type => i32_to_be(code),
        EnumEncoding::LengthThenType => i32_to_be(len) + i32_to_be(code),
        EnumEncoding::TypeThenLength => i32_to_be(code) + i32_to_be(len),
    }
}

/// Law: for every (type, discriminant) pair registered for an enum, reading
/// the discriminant from a buffer holding exactly its encoding followed by
/// the variant's payload resolves that discriminant and leaves exactly the
/// payload — the discriminant encoding round-trips through the registry.
pub proof fn lemma_discriminant_round_trip(
    reg: Seq<EnumMappingView>,
    name: Seq<char>,
    code: i32,
    len: i32,
    payload: Seq<u8>,
)
    requires
        reg_find(reg, name) matches Some(m) && table_find(m.codes, code) is Some,
    ensures
        spec_discriminant(reg, name, discriminant_to_be(reg_find(reg, name)->Some_0.encoding, code, len) + payload)
            == Ok::<_, Error>((code, payload)),
{
    let m = reg_find(reg, name)->Some_0;
    lemma_be_i32_round_trip(code);
    lemma_be_i32_round_trip(len);
    let s = discriminant_to_be(m.encoding, code, len) + payload;
    match m.encoding {
        EnumEncoding::Type => {
            assert(s.subrange(0, 4) =~= i32_to_be(code));
            assert(s.skip(4) =~= payload);
        },
        EnumEncoding::LengthThenType => {
            assert(s.subrange(0, 4) =~= i32_to_be(len));
            assert(s.skip(4).subrange(0, 4) =~= i32_to_be(code));
            assert(s.skip(4).skip(4) =~= payload);
        },
        EnumEncoding::TypeThenLength => {
            assert(s.subrange(0, 4) =~= i32_to_be(code));
            assert(s.skip(4).subrange(0, 4) =~= i32_to_be(len));
            assert(s.skip(4).skip(4) =~= payload);
        },
    }
}

/// The views of a sequence of values, element by element.
pub open spec fn seq_view<T: View>(s: Seq<T>) -> Seq<T::V> {
    s.map_values(|x: T| x@)
}

/// A shape the decoding engine can produce: a pure parser describes the
/// value's mathematical content, and the executable decoder is proved to
/// produce exactly what the parser says, byte for byte.
pub trait Decode: View + Sized {
    /// Pure parser for one value of this shape, against a registry.
    spec fn spec_decode(reg: Seq<EnumMappingView>, s: Seq<u8>) -> Result<(Self::V, Seq<u8>), Error>;

    /// Decodes one value of this shape off the stream.
    fn decode(d: &mut Deserializer) -> (r: Result<Self, Error>)
        requires
            old(d).wf(),
        ensures
            final(d).wf(),
            final(d).registry() == old(d).registry(),
            match r {
                Ok(v) => Self::spec_decode(old(d).registry(), old(d).remaining()) == Ok::<
                    _,
                    Error,
                >((v@, final(d).remaining())),
                Err(e) => Self::spec_decode(old(d).registry(), old(d).remaining()) == Err::<
                    (Self::V, Seq<u8>),
                    _,
                >(e),
            },
    ;
}

/// The element parser of a decodable shape, under a fixed registry.
pub open spec fn decode_parser<T: Decode>(reg: Seq<EnumMappingView>) -> spec_fn(Seq<u8>) -> Result<
    (T::V, Seq<u8>),
    Error,
> {
    |s: Seq<u8>| T::spec_decode(reg, s)
}

/// Decodes `n` values of one shape, in order.
pub fn decode_elems<T: Decode>(d: &mut Deserializer, n: usize) -> (r: Result<Vec<T>, Error>)
    requires
        old(d).wf(),
    ensures
        final(d).wf(),
        final(d).registry() == old(d).registry(),
        match r {
            Ok(v) => v@.len() == n && spec_elems(
                decode_parser::<T>(old(d).registry()),
                n as nat,
                old(d).remaining(),
            ) == Ok::<_, Error>((seq_view(v@), final(d).remaining())),
            Err(e) => spec_elems(
                decode_parser::<T>(old(d).registry()),
                n as nat,
                old(d).remaining(),
            ) == Err::<(Seq<T::V>, Seq<u8>), _>(e),
        },
{
    let ghost reg = old(d).registry();
    let ghost p = decode_parser::<T>(reg);
    let ghost full = spec_elems(p, n as nat, old(d).remaining());
    let mut items: Vec<T> = Vec::new();
    let mut i: usize = 0;
    while i < n
        invariant
            d.wf(),
            d.registry() == reg,
            reg == old(d).registry(),
            i <= n,
            items@.len() == i,
            p == decode_parser::<T>(reg),
            full == spec_elems(p, n as nat, old(d).remaining()),
            full == (match spec_elems(p, (n - i) as nat, d.remaining()) {
                Ok(pr) => Ok::<_, Error>((seq_view(items@) + pr.0, pr.1)),
                Err(e) => Err::<(Seq<T::V>, Seq<u8>), Error>(e),
            }),
        decreases n - i,
    {
        let ghost pre = d.remaining();
        let ghost prev = items@;
        match T::decode(d) {
            Err(e) => {
                proof {
                    assert(p(pre) == T::spec_decode(reg, pre));
                    assert(spec_elems(p, (n - i) as nat, pre) == Err::<(Seq<T::V>, Seq<u8>), _>(
                        e,
                    ));
                }
                return Err(e);
            },
            Ok(item) => {
                items.push(item);
                proof {
                    assert(p(pre) == T::spec_decode(reg, pre));
                    assert(seq_view(items@) =~= seq_view(prev) + seq![item@]);
                    match spec_elems(p, ((n - i) - 1) as nat, d.remaining()) {
                        Err(_) => {},
                        Ok((vs, r2)) => {
                            assert((seq_view(prev) + seq![item@]) + vs =~= seq_view(prev) + (seq![
                                item@,
                            ] + vs));
                        },
                    }
                }
                i = i + 1;
            },
        }
    }
    proof {
        assert(seq_view(items@) + Seq::<T::V>::empty() =~= seq_view(items@));
    }
    Ok(items)
}

/// Decodes a counted sequence of one shape: the count field, then that many
/// values.
pub fn decode_vec<T: Decode>(d: &mut Deserializer) -> (r: Result<Vec<T>, Error>)
    requires
        old(d).wf(),
    ensures
        final(d).wf(),
        final(d).registry() == old(d).registry(),
        match r {
            Ok(v) => spec_counted(decode_parser::<T>(old(d).registry()), old(d).remaining())
                == Ok::<_, Error>((seq_view(v@), final(d).remaining())),
            Err(e) => spec_counted(decode_parser::<T>(old(d).registry()), old(d).remaining())
                == Err::<(Seq<T::V>, Seq<u8>), _>(e),
        },
{
    let n = match d.read_count() {
        Ok(v) => v,
        Err(e) => { return Err(e) },
    };
    match decode_elems::<T>(d, n) {
        Ok(v) => Ok(v),
        Err(e) => Err(e),
    }
}

/// Relies on `String::from_utf8`: it succeeds exactly when the bytes are
/// valid UTF-8, and then returns the string of the characters they encode.
#[verifier::external_body]
fn string_from_utf8(bytes: Vec<u8>) -> (r: Option<String>)
    ensures
        r is Some <==> valid_utf8(bytes@),
        r matches Some(s) ==> s@ == decode_utf8(bytes@),
{
    String::from_utf8(bytes).ok()
}

/// Every entry of `reg` up to `i` misses `name` and entry `i` matches it, so
/// the registry lookup resolves to entry `i`.
proof fn lemma_reg_find_hit(reg: Seq<EnumMappingView>, name: Seq<char>, i: int)
    requires
        0 <= i < reg.len(),
        reg[i].name == name,
        forall|j: int| 0 <= j < i ==> reg[j].name != name,
    ensures
        reg_find(reg, name) == Some(reg[i]),
    decreases i,
{
    if i > 0 {
        lemma_reg_find_hit(reg.skip(1), name, i - 1);
    }
}

/// No entry of `reg` carries `name`, so the registry lookup misses.
proof fn lemma_reg_find_miss(reg: Seq<EnumMappingView>, name: Seq<char>)
    requires
        forall|j: int| 0 <= j < reg.len() ==> reg[j].name != name,
    ensures
        reg_find(reg, name) is None,
    decreases reg.len(),
{
    if reg.len() > 0 {
        lemma_reg_find_miss(reg.skip(1), name);
    }
}

/// Every row of `codes` up to `i` misses `code` and row `i` matches it, so
/// the table lookup resolves to row `i`.
proof fn lemma_table_find_hit(codes: Seq<(i32, Seq<char>)>, code: i32, i: int)
    requires
        0 <= i < codes.len(),
        codes[i].0 == code,
        forall|j: int| 0 <= j < i ==> codes[j].0 != code,
    ensures
        table_find(codes, code) == Some(codes[i].1),
    decreases i,
{
    if i > 0 {
        lemma_table_find_hit(codes.skip(1), code, i - 1);
    }
}

/// No row of `codes` carries `code`, so the table lookup misses.
proof fn lemma_table_find_miss(codes: Seq<(i32, Seq<char>)>, code: i32)
    requires
        forall|j: int| 0 <= j < codes.len() ==> codes[j].0 != code,
    ensures
        table_find(codes, code) is None,
    decreases codes.len(),
{
    if codes.len() > 0 {
        lemma_table_find_miss(codes.skip(1), code);
    }
}

impl Deserializer {
    /// Takes the next `n` bytes off the stream.
    fn take_bytes(&mut self, n: usize) -> (r: Result<Vec<u8>, Error>)
        requires
            old(self).wf(),
        ensures
            final(self).wf(),
            final(self).registry() == old(self).registry(),
            match r {
                Ok(v) => old(self).remaining().len() >= n && v@ == old(self).remaining().subrange(
                    0,
                    n as int,
                ) && final(self).remaining() == old(self).remaining().skip(n as int),
                Err(e) => e == Error::Eof && old(self).remaining().len() < n
                    && final(self).remaining() == old(self).remaining(),
            },
    {
        if self.data.len() - self.pos < n {
            Err(Error::Eof)
        } else {
            let mut bytes: Vec<u8> = Vec::new();
            let mut i: usize = 0;
            let dlen = self.data.len();
            while i < n
                invariant
                    self == old(self),
                    self.wf(),
                    i <= n,
                    self.data@.len() == dlen,
                    n <= self.data@.len() - self.pos,
                    bytes@ =~= self.data@.subrange(self.pos as int, self.pos + i),
                decreases n - i,
            {
                bytes.push(self.data[self.pos + i]);
                i = i + 1;
                proof {
                    assert(bytes@ =~= self.data@.subrange(self.pos as int, self.pos + i));
                }
            }
            self.pos = self.pos + n;
            proof {
                assert(bytes@ =~= old(self).remaining().subrange(0, n as int));
                assert(self.remaining() =~= old(self).remaining().skip(n as int));
            }
            Ok(bytes)
        }
    }

    /// Reads a string: a 4-byte length, checked against [`MAX_LENGTH`],
    /// followed by that many bytes of UTF-8 text.
    pub fn read_string(&mut self) -> (r: Result<String, Error>)
        requires
            old(self).wf(),
        ensures
            final(self).wf(),
            final(self).registry() == old(self).registry(),
            match r {
                Ok(v) => spec_string(old(self).remaining()) == Ok::<_, Error>((
                    v@,
                    final(self).remaining(),
                )),
                Err(e) => spec_string(old(self).remaining()) == Err::<(Seq<char>, Seq<u8>), _>(e),
            },
    {
        let len = match self.read_u32() {
            Ok(v) => v,
            Err(e) => { return Err(e) },
        };
        if len > MAX_LENGTH as u32 {
            return Err(Error::TooLarge(len as usize));
        }
        let bytes = match self.take_bytes(len as usize) {
            Ok(v) => v,
            Err(e) => { return Err(e) },
        };
        proof {
            let s = old(self).remaining();
            assert(bytes@ =~= s.subrange(4, 4 + len as int));
            assert(self.remaining() =~= s.skip(4 + len as int));
        }
        match string_from_utf8(bytes) {
            Some(text) => Ok(text),
            None => Err(Error::InvalidText),
        }
    }

    /// Reads a raw byte buffer: a 4-byte unsigned length followed by that
    /// many raw bytes.
    pub fn read_buffer(&mut self) -> (r: Result<Vec<u8>, Error>)
        requires
            old(self).wf(),
        ensures
            final(self).wf(),
            final(self).registry() == old(self).registry(),
            match r {
                Ok(v) => spec_buffer(old(self).remaining()) == Ok::<_, Error>((
                    v@,
                    final(self).remaining(),
                )),
                Err(e) => spec_buffer(old(self).remaining()) == Err::<(Seq<u8>, Seq<u8>), _>(e),
            },
    {
        let len = match self.read_u32() {
            Ok(v) => v,
            Err(e) => { return Err(e) },
        };
        let bytes = match self.take_bytes(len as usize) {
            Ok(v) => v,
            Err(e) => { return Err(e) },
        };
        proof {
            let s = old(self).remaining();
            assert(bytes@ =~= s.subrange(4, 4 + len as int));
            assert(self.remaining() =~= s.skip(4 + len as int));
        }
        Ok(bytes)
    }

    /// Reads bytes stored as a counted sequence of single bytes: a 4-byte
    /// signed count (negative collapsed to zero) followed by that many bytes.
    pub fn read_byte_seq(&mut self) -> (r: Result<Vec<u8>, Error>)
        requires
            old(self).wf(),
        ensures
            final(self).wf(),
            final(self).registry() == old(self).registry(),
            match r {
                Ok(v) => spec_byte_seq(old(self).remaining()) == Ok::<_, Error>((
                    v@,
                    final(self).remaining(),
                )),
                Err(e) => spec_byte_seq(old(self).remaining()) == Err::<(Seq<u8>, Seq<u8>), _>(e),
            },
    {
        let n = match self.read_count() {
            Ok(v) => v,
            Err(e) => { return Err(e) },
        };
        match self.take_bytes(n) {
            Ok(v) => Ok(v),
            Err(e) => Err(e),
        }
    }

    /// Reads the discriminant of an enum of the type registered under
    /// `name`, together with the length field the registered layout says to
    /// consume and discard, and resolves the code against the table.
    #[verifier::loop_isolation(false)]
    pub fn read_enum_discriminant(&mut self, name: &str) -> (r: Result<i32, Error>)
        requires
            old(self).wf(),
        ensures
            final(self).wf(),
            final(self).registry() == old(self).registry(),
            match r {
                Ok(code) => spec_discriminant(old(self).registry(), name@, old(self).remaining())
                    == Ok::<_, Error>((code, final(self).remaining())),
                Err(e) => spec_discriminant(old(self).registry(), name@, old(self).remaining())
                    == Err::<(i32, Seq<u8>), _>(e),
            },
    {
        let owned = name.to_owned();
        let mut idx: usize = 0;
        let mut found: bool = false;
        while !found && idx < self.enum_mappings.len()
            invariant
                idx <= self.enum_mappings@.len(),
                found ==> idx < self.enum_mappings@.len() && self.registry()[idx as int].name
                    == name@,
                forall|j: int| 0 <= j < idx ==> self.registry()[j].name != name@,
            decreases self.enum_mappings@.len() - idx, (if found { 0int } else { 1int }),
        {
            if self.enum_mappings[idx].name == owned {
                found = true;
            } else {
                idx = idx + 1;
            }
        }
        if !found {
            proof {
                lemma_reg_find_miss(self.registry(), name@);
            }
            return Err(Error::UnregisteredEnum);
        }
        proof {
            lemma_reg_find_hit(self.registry(), name@, idx as int);
        }
        let ghost entry = reg_find(old(self).registry(), name@)->Some_0;
        let encoding = self.enum_mappings[idx].encoding;
        proof {
            assert(entry == old(self).registry()[idx as int]);
            assert(self.enum_mappings@[idx as int]@ == entry);
            assert(encoding == entry.encoding);
        }
        let code: i32 = match encoding {
            EnumEncoding::Type => {
                match self.read_i32() {
                    Ok(v) => v,
                    Err(e) => { return Err(e) },
                }
            },
            EnumEncoding::LengthThenType => {
                match self.read_i32() {
                    Ok(_len) => {},
                    Err(e) => { return Err(e) },
                }
                match self.read_i32() {
                    Ok(v) => v,
                    Err(e) => { return Err(e) },
                }
            },
            EnumEncoding::TypeThenLength => {
                let v = match self.read_i32() {
                    Ok(v) => v,
                    Err(e) => { return Err(e) },
                };
                match self.read_i32() {
                    Ok(_len) => {},
                    Err(e) => { return Err(e) },
                }
                v
            },
        };
        let ghost snap = *self;
        let codes = &self.enum_mappings[idx].codes;
        let mut k: usize = 0;
        while k < codes.len()
            invariant
                *self == snap,
                self.wf(),
                self.registry() == old(self).registry(),
                entry == reg_find(old(self).registry(), name@)->Some_0,
                idx < self.enum_mappings@.len(),
                codes@ == self.enum_mappings@[idx as int].codes@,
                entry.codes == table_view(codes@),
                k <= codes@.len(),
                forall|j: int| 0 <= j < k ==> entry.codes[j].0 != code,
            decreases codes@.len() - k,
        {
            if codes[k].0 == code {
                proof {
                    lemma_table_find_hit(entry.codes, code, k as int);
                }
                return Ok(code);
            }
            k = k + 1;
        }
        proof {
            lemma_table_find_miss(entry.codes, code);
        }
        Err(Error::UnknownDiscriminant(code))
    }
}

} // verus!
