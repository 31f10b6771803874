use crate::backoff::pow_nat;
use crate::worker::{Options, Record, SerializedRecord};
use base64::Engine;
use vstd::prelude::*;

verus! {

/// The MessagePack encoding of a string.
pub uninterp spec fn msgpack_str(s: Seq<char>) -> Seq<u8>;

/// The `n` low bytes of `v`, most significant first.
pub open spec fn be_bytes(v: nat, n: nat) -> Seq<u8>
    decreases n,
{
    if n == 0 {
        seq![]
    } else {
        be_bytes(v / 256, (n - 1) as nat).push((v % 256) as u8)
    }
}

/// `v` in `n` bytes of two's complement, most significant first.
pub open spec fn twos_bytes(v: int, n: nat) -> Seq<u8> {
    be_bytes((v % pow_nat(256, n) as int) as nat, n)
}

/// The MessagePack encoding of a signed integer in its shortest form: a fixint
/// byte, or a marker followed by the value in 1, 2, 4 or 8 big-endian bytes,
/// as a signed type below zero and as an unsigned one from zero on.
pub open spec fn msgpack_int(v: int) -> Seq<u8> {
    if -32 <= v < 0 {
        seq![(v + 256) as u8]
    } else if -128 <= v < -32 {
        seq![0xd0u8] + twos_bytes(v, 1)
    } else if -32768 <= v < -128 {
        seq![0xd1u8] + twos_bytes(v, 2)
    } else if -0x8000_0000 <= v < -32768 {
        seq![0xd2u8] + twos_bytes(v, 4)
    } else if v < -0x8000_0000 {
        seq![0xd3u8] + twos_bytes(v, 8)
    } else if v < 128 {
        seq![v as u8]
    } else if v < 256 {
        seq![0xccu8] + twos_bytes(v, 1)
    } else if v < 65536 {
        seq![0xcdu8] + twos_bytes(v, 2)
    } else if v < 0x1_0000_0000 {
        seq![0xceu8] + twos_bytes(v, 4)
    } else {
        seq![0xcfu8] + twos_bytes(v, 8)
    }
}

/// The padded base64 text, standard alphabet, of some bytes.
pub uninterp spec fn base64_of(b: Seq<u8>) -> Seq<char>;

/// Relies on `rmp_serde::to_vec` on a `str`: the string's MessagePack
/// encoding. Writing to a `Vec` fails only where memory cannot be reserved.
#[verifier::external_body]
fn pack_str(s: &str) -> (r: Option<Vec<u8>>)
    ensures
        r is Some,
        r matches Some(v) ==> v@ == msgpack_str(s@),
{
    rmp_serde::to_vec(s).ok()
}

/// Relies on `rmp_serde::to_vec` on an `i64`, which writes through
/// `rmp::encode::write_sint`: the integer's shortest MessagePack form. Writing
/// to a `Vec` fails only where memory cannot be reserved.
#[verifier::external_body]
fn pack_int(v: i64) -> (r: Option<Vec<u8>>)
    ensures
        r is Some,
        r matches Some(b) ==> b@ == msgpack_int(v as int),
{
    rmp_serde::to_vec(&v).ok()
}

/// Relies on `base64::engine::general_purpose::STANDARD.encode`: padded
/// output, four characters for each started group of three bytes. Padded
/// base64 is decoded back to the same bytes (`STANDARD.decode`), so no other
/// bytes have the same text.
#[verifier::external_body]
fn base64_standard(b: &[u8]) -> (r: String)
    requires
        b@.len() <= 0xffff_ffff,
    ensures
        r@ == base64_of(b@),
        r@.len() == 4 * ((b@.len() + 2) / 3),
        forall|c: Seq<u8>| #[trigger] base64_of(c) == r@ ==> c == b@,
{
    base64::engine::general_purpose::STANDARD.encode(b)
}

/// Relies on `uuid::Uuid::new_v4`: the 16 bytes of a random identifier.
#[verifier::external_body]
fn random_uuid_bytes() -> (r: Vec<u8>)
    ensures
        r@.len() == 16,
{
    uuid::Uuid::new_v4().as_bytes().to_vec()
}

/// MessagePack's header of a fixed array of four elements.
pub const ARRAY4: u8 = 0x94;

/// MessagePack's header of a fixed map of one entry.
pub const MAP1: u8 = 0x81;

/// The wire form of a record: the array `[tag, timestamp, record, options]`,
/// where options is the map `{"chunk": chunk}` and the record's payload is
/// already a MessagePack map.
pub open spec fn frame(r: Record) -> Seq<u8> {
    seq![ARRAY4] + msgpack_str(r.tag@) + msgpack_int(r.timestamp as int) + r.record@ + seq![MAP1]
        + msgpack_str("chunk"@) + msgpack_str(r.options.chunk@)
}

fn append_all(out: &mut Vec<u8>, part: &Vec<u8>)
    ensures
        final(out)@ == old(out)@ + part@,
{
    let mut i: usize = 0;
    while i < part.len()
        invariant
            i <= part@.len(),
            out@ == old(out)@ + part@.subrange(0, i as int),
        decreases part@.len() - i,
    {
        out.push(part[i]);
        i = i + 1;
        proof {
            assert(part@.subrange(0, i as int) == part@.subrange(0, i - 1) + seq![part@[i - 1]]);
        }
    }
    proof {
        assert(part@.subrange(0, part@.len() as int) == part@);
    }
}

/// Encodes a record for the wire. The chunk that its ack must carry is kept
/// beside the bytes.
pub fn encode(record: &Record) -> (r: Option<SerializedRecord>)
    ensures
        r is Some,
        r matches Some(s) ==> s.record@ == frame(*record) && s.chunk@ == record.options.chunk@,
{
    let tag = pack_str(record.tag.as_str())?;
    let ts = pack_int(record.timestamp)?;
    let key = pack_str("chunk")?;
    let chunk = pack_str(record.options.chunk.as_str())?;
    let mut out: Vec<u8> = Vec::new();
    out.push(ARRAY4);
    append_all(&mut out, &tag);
    append_all(&mut out, &ts);
    append_all(&mut out, &record.record);
    out.push(MAP1);
    append_all(&mut out, &key);
    append_all(&mut out, &chunk);
    proof {
        assert(out@ =~= frame(*record));
    }
    Some(SerializedRecord { record: out, chunk: record.options.chunk.clone() })
}

/// The chunk identifier made from the bytes of an identifier: their base64 text.
pub fn chunk_from_id(id: &[u8]) -> (r: String)
    requires
        id@.len() <= 0xffff_ffff,
    ensures
        r@ == base64_of(id@),
        r@.len() == 4 * ((id@.len() + 2) / 3),
        id@.len() > 0 ==> r@.len() > 0,
        forall|c: Seq<u8>| #[trigger] base64_of(c) == r@ ==> c == id@,
{
    base64_standard(id)
}

/// A fresh chunk identifier: the base64 text of a random 128-bit identifier,
/// from which that identifier can be read back.
pub fn new_chunk() -> (r: String)
    ensures
        exists|id: Seq<u8>|
            id.len() == 16 && r@ == base64_of(id) && forall|c: Seq<u8>| #[trigger]
                base64_of(c) == r@ ==> c == id,
        r@.len() == 24,
{
    let id = random_uuid_bytes();
    let r = chunk_from_id(id.as_slice());
    proof {
        assert(id@.len() == 16 && r@ == base64_of(id@) && forall|c: Seq<u8>| #[trigger]
            base64_of(c) == r@ ==> c == id@);
    }
    r
}

/// A record with the given tag, payload and timestamp, and the chunk made from `id`.
pub fn record_with_id(tag: &str, record: Vec<u8>, timestamp: i64, id: &[u8]) -> (r: Record)
    requires
        id@.len() <= 0xffff_ffff,
    ensures
        r.tag@ == tag@,
        r.record@ == record@,
        r.timestamp == timestamp,
        r.options.chunk@ == base64_of(id@),
        r.options.chunk@.len() == 4 * ((id@.len() + 2) / 3),
        forall|c: Seq<u8>| #[trigger] base64_of(c) == r.options.chunk@ ==> c == id@,
{
    Record {
        tag: tag.to_owned(),
        timestamp,
        record,
        options: Options { chunk: chunk_from_id(id) },
    }
}

/// A record with the given tag, payload and timestamp, and a fresh chunk.
pub fn new_record(tag: &str, record: Vec<u8>, timestamp: i64) -> (r: Record)
    ensures
        r.tag@ == tag@,
        r.record@ == record@,
        r.timestamp == timestamp,
        exists|id: Seq<u8>|
            id.len() == 16 && r.options.chunk@ == base64_of(id) && forall|c: Seq<u8>| #[trigger]
                base64_of(c) == r.options.chunk@ ==> c == id,
        r.options.chunk@.len() == 24,
{
    Record { tag: tag.to_owned(), timestamp, record, options: Options { chunk: new_chunk() } }
}

} // verus!
