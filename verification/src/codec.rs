//! The account's persistence format: a stream of records, each a tag byte,
//! the payload's length as eight big-endian bytes, and the payload.
//!
//! Tag 0 holds the raw signing key, tag 1 the directory as JSON, tag 2 the
//! list of order addresses as JSON.

use crate::model::Error;
use vstd::prelude::*;

verus! {

/// The tag of the record that holds the raw signing key.
pub const TAG_KEY: u8 = 0;

/// The tag of the record that holds the directory as JSON.
pub const TAG_DIRECTORY: u8 = 1;

/// The tag of the record that holds the list of order addresses as JSON.
pub const TAG_ORDER_URLS: u8 = 2;

/// The width of a record's length field in bytes.
pub const LENGTH_WIDTH: usize = 8;

/// The number that a byte string denotes, most significant byte first.
pub open spec fn be_value(bytes: Seq<u8>) -> nat
    decreases bytes.len(),
{
    if bytes.len() == 0 {
        0
    } else {
        be_value(bytes.drop_last()) * 256 + bytes.last() as nat
    }
}

/// The `width` least significant bytes of a number, most significant first.
pub open spec fn be_bytes(value: nat, width: nat) -> Seq<u8>
    decreases width,
{
    if width == 0 {
        Seq::empty()
    } else {
        be_bytes(value / 256, (width - 1) as nat).push((value % 256) as u8)
    }
}

/// 256 to the power of `n`.
pub open spec fn pow256(n: nat) -> nat
    decreases n,
{
    if n == 0 {
        1
    } else {
        256 * pow256((n - 1) as nat)
    }
}

/// One record: the tag, the payload's length in eight bytes, the payload.
pub open spec fn record(tag: u8, payload: Seq<u8>) -> Seq<u8> {
    seq![tag] + be_bytes(payload.len(), 8) + payload
}

/// The stream of an account: the key, the directory and the order
/// addresses, in that order.
pub open spec fn encoded(key: Seq<u8>, directory: Seq<u8>, order_urls: Seq<u8>) -> Seq<u8> {
    record(TAG_KEY, key) + record(TAG_DIRECTORY, directory) + record(TAG_ORDER_URLS, order_urls)
}

/// The payloads found in a stream so far, by tag.
pub struct Slots {
    pub key: Option<Seq<u8>>,
    pub directory: Option<Seq<u8>>,
    pub order_urls: Option<Seq<u8>>,
}

impl Slots {
    /// No payload found yet.
    pub open spec fn empty() -> Slots {
        Slots { key: None, directory: None, order_urls: None }
    }

    /// The slots after a record with `tag` and `payload`: the payload takes
    /// the place of an earlier one with the same tag.
    pub open spec fn with(self, tag: u8, payload: Seq<u8>) -> Slots {
        if tag == TAG_KEY {
            Slots { key: Some(payload), ..self }
        } else if tag == TAG_DIRECTORY {
            Slots { directory: Some(payload), ..self }
        } else {
            Slots { order_urls: Some(payload), ..self }
        }
    }
}

/// Reads a stream of records into slots. `None` where the stream holds an
/// unknown tag where a record begins, or ends inside a record.
pub open spec fn parsed(bytes: Seq<u8>, slots: Slots) -> Option<Slots>
    decreases bytes.len(),
{
    if bytes.len() == 0 {
        Some(slots)
    } else if bytes[0] > TAG_ORDER_URLS {
        None
    } else if bytes.len() < 9 {
        None
    } else {
        let length = be_value(bytes.subrange(1, 9)) as int;
        if bytes.len() - 9 < length {
            None
        } else {
            parsed(
                bytes.skip(9 + length),
                slots.with(bytes[0], bytes.subrange(9, 9 + length)),
            )
        }
    }
}

/// What a stream decodes to: its key and directory payloads and, where
/// present, its payload of order addresses. `None` where the stream is
/// malformed or lacks the key or the directory.
pub open spec fn decoded(bytes: Seq<u8>) -> Option<(Seq<u8>, Seq<u8>, Option<Seq<u8>>)> {
    match parsed(bytes, Slots::empty()) {
        Some(slots) => if slots.key is Some && slots.directory is Some {
            Some((slots.key->0, slots.directory->0, slots.order_urls))
        } else {
            None
        },
        None => None,
    }
}

/// The bytes of an optional byte vector.
pub open spec fn bytes_of(bytes: Option<Vec<u8>>) -> Option<Seq<u8>> {
    match bytes {
        Some(b) => Some(b@),
        None => None,
    }
}

/// The payloads of a decoded stream.
#[derive(Debug)]
pub struct Records {
    /// The raw signing key.
    pub key: Vec<u8>,
    /// The directory as JSON.
    pub directory: Vec<u8>,
    /// The list of order addresses as JSON, where the stream holds one.
    pub order_urls: Option<Vec<u8>>,
}

impl Records {
    /// The payloads as byte strings.
    pub open spec fn payloads(&self) -> (Seq<u8>, Seq<u8>, Option<Seq<u8>>) {
        (self.key@, self.directory@, bytes_of(self.order_urls))
    }
}

/// Eight bytes are below 256 to the power of eight, which is one more than
/// the largest `u64`.
proof fn be_value_bound(bytes: Seq<u8>)
    ensures
        be_value(bytes) < pow256(bytes.len()),
        pow256(8) == 0x1_0000_0000_0000_0000,
    decreases bytes.len(),
{
    reveal_with_fuel(pow256, 9);
    if bytes.len() > 0 {
        be_value_bound(bytes.drop_last());
        let shorter = be_value(bytes.drop_last());
        let power = pow256((bytes.len() - 1) as nat);
    }
}

/// The bytes of a number have the width asked for.
proof fn be_bytes_len(value: nat, width: nat)
    ensures
        be_bytes(value, width).len() == width,
    decreases width,
{
    if width > 0 {
        be_bytes_len(value / 256, (width - 1) as nat);
    }
}

/// A number that fits into `width` bytes is the value of its bytes.
pub proof fn be_value_of_be_bytes(value: nat, width: nat)
    requires
        value < pow256(width),
    ensures
        be_value(be_bytes(value, width)) == value,
    decreases width,
{
    if width > 0 {
        let power = pow256((width - 1) as nat);
        be_value_of_be_bytes(value / 256, (width - 1) as nat);
        let bytes = be_bytes(value, width);
        assert(bytes.drop_last() =~= be_bytes(value / 256, (width - 1) as nat));
    }
}

/// A stream that begins with a well-formed record parses to what the rest
/// of the stream parses to, with the record's payload in its slot.
pub proof fn parsed_record(tag: u8, payload: Seq<u8>, rest: Seq<u8>, slots: Slots)
    requires
        tag <= TAG_ORDER_URLS,
        payload.len() <= u64::MAX,
    ensures
        parsed(record(tag, payload) + rest, slots) == parsed(rest, slots.with(tag, payload)),
{
    let bytes = record(tag, payload) + rest;
    let length = payload.len() as int;
    be_bytes_len(payload.len(), 8);
    be_value_bound(seq![]);
    be_value_of_be_bytes(payload.len(), 8);
    assert(bytes.subrange(1, 9) =~= be_bytes(payload.len(), 8));
    assert(bytes.subrange(9, 9 + length) =~= payload);
    assert(bytes.skip(9 + length) =~= rest);
}

/// Decoding the stream of an account gives back the key, the directory
/// payload and the payload of order addresses that went into it.
pub proof fn decoded_of_encoded(key: Seq<u8>, directory: Seq<u8>, order_urls: Seq<u8>)
    requires
        key.len() <= u64::MAX,
        directory.len() <= u64::MAX,
        order_urls.len() <= u64::MAX,
    ensures
        decoded(encoded(key, directory, order_urls)) == Some((key, directory, Some(order_urls))),
{
    let empty = Seq::<u8>::empty();
    let s0 = Slots::empty();
    let s1 = s0.with(TAG_KEY, key);
    let s2 = s1.with(TAG_DIRECTORY, directory);
    let s3 = s2.with(TAG_ORDER_URLS, order_urls);
    let tail2 = record(TAG_ORDER_URLS, order_urls);
    let tail1 = record(TAG_DIRECTORY, directory) + tail2;
    assert(encoded(key, directory, order_urls) =~= record(TAG_KEY, key) + tail1);
    parsed_record(TAG_KEY, key, tail1, s0);
    parsed_record(TAG_DIRECTORY, directory, tail2, s1);
    parsed_record(TAG_ORDER_URLS, order_urls, empty, s2);
}

/// Reads the eight bytes at `at` as a number, most significant byte first.
fn read_length(bytes: &[u8], at: usize) -> (length: u64)
    requires
        at + 8 <= bytes@.len(),
    ensures
        length == be_value(bytes@.subrange(at as int, at + 8)),
{
    let mut length: u64 = 0;
    let mut i: usize = 0;
    while i < LENGTH_WIDTH
        invariant
            i <= 8,
            at + 8 <= bytes.len(),
            length == be_value(bytes@.subrange(at as int, at + i)),
        decreases 8 - i,
    {
        let ghost seen = bytes@.subrange(at as int, at + i);
        let ghost next = bytes@.subrange(at as int, at + i + 1);
        proof {
            be_value_bound(seen);
            be_value_bound(next);
            reveal_with_fuel(pow256, 9);
            assert(next.drop_last() =~= seen);
        }
        length = length * 256 + bytes[at + i] as u64;
        i += 1;
    }
    length
}

/// Appends `length` to `out` as eight bytes, most significant byte first.
fn write_length(out: &mut Vec<u8>, length: u64)
    ensures
        final(out)@ == old(out)@ + be_bytes(length as nat, 8),
{
    let b7 = (length % 256) as u8;
    let r6 = length / 256;
    let b6 = (r6 % 256) as u8;
    let r5 = r6 / 256;
    let b5 = (r5 % 256) as u8;
    let r4 = r5 / 256;
    let b4 = (r4 % 256) as u8;
    let r3 = r4 / 256;
    let b3 = (r3 % 256) as u8;
    let r2 = r3 / 256;
    let b2 = (r2 % 256) as u8;
    let r1 = r2 / 256;
    let b1 = (r1 % 256) as u8;
    let r0 = r1 / 256;
    let b0 = (r0 % 256) as u8;
    out.push(b0);
    out.push(b1);
    out.push(b2);
    out.push(b3);
    out.push(b4);
    out.push(b5);
    out.push(b6);
    out.push(b7);
    proof {
        reveal_with_fuel(be_bytes, 9);
    }
}

/// Appends the bytes of `payload` to `out`.
fn write_bytes(out: &mut Vec<u8>, payload: &[u8])
    ensures
        final(out)@ == old(out)@ + payload@,
{
    let mut i: usize = 0;
    while i < payload.len()
        invariant
            i <= payload.len(),
            out@ == old(out)@ + payload@.take(i as int),
        decreases payload.len() - i,
    {
        out.push(payload[i]);
        i += 1;
    }
}

/// Appends the record of `tag` and `payload` to `out`.
pub fn write_record(out: &mut Vec<u8>, tag: u8, payload: &[u8])
    ensures
        final(out)@ == old(out)@ + record(tag, payload@),
{
    out.push(tag);
    write_length(out, payload.len() as u64);
    write_bytes(out, payload);
}

/// The stream of an account with the given key, directory payload and
/// payload of order addresses. Decoding it gives the three back.
pub fn encode(key: &[u8], directory: &[u8], order_urls: &[u8]) -> (bytes: Vec<u8>)
    ensures
        bytes@ == encoded(key@, directory@, order_urls@),
        decoded(bytes@) == Some((key@, directory@, Some(order_urls@))),
{
    let mut bytes: Vec<u8> = Vec::new();
    write_record(&mut bytes, TAG_KEY, key);
    write_record(&mut bytes, TAG_DIRECTORY, directory);
    write_record(&mut bytes, TAG_ORDER_URLS, order_urls);
    proof {
        // The lengths of byte strings in memory fit the length field.
        assert(key@.len() == key.len());
        assert(directory@.len() == directory.len());
        assert(order_urls@.len() == order_urls.len());
        decoded_of_encoded(key@, directory@, order_urls@);
    }
    bytes
}

/// A copy of the bytes of `bytes` from `from` up to `to`.
fn copy_range(bytes: &[u8], from: usize, to: usize) -> (copy: Vec<u8>)
    requires
        from <= to <= bytes@.len(),
    ensures
        copy@ == bytes@.subrange(from as int, to as int),
{
    let mut copy: Vec<u8> = Vec::new();
    let mut i: usize = from;
    while i < to
        invariant
            from <= i <= to <= bytes@.len(),
            copy@ == bytes@.subrange(from as int, i as int),
        decreases to - i,
    {
        copy.push(bytes[i]);
        i += 1;
    }
    copy
}

/// Decodes the stream of an account into its payloads.
///
/// Succeeds exactly where the stream is a sequence of whole records with
/// known tags that holds a key and a directory; of several records with one
/// tag the last counts. Every failure is a `ParseFromBytes`.
pub fn decode(bytes: &[u8]) -> (r: Result<Records, Error>)
    ensures
        match decoded(bytes@) {
            Some(payloads) => r is Ok && r->Ok_0.payloads() == payloads,
            None => r is Err && r->Err_0 is ParseFromBytes,
        },
{
    let mut key: Option<Vec<u8>> = None;
    let mut directory: Option<Vec<u8>> = None;
    let mut order_urls: Option<Vec<u8>> = None;
    let mut index: usize = 0;
    proof {
        assert(bytes@.skip(0) =~= bytes@);
    }
    while index < bytes.len()
        invariant
            index <= bytes.len(),
            parsed(bytes@, Slots::empty()) == parsed(
                bytes@.skip(index as int),
                Slots {
                    key: bytes_of(key),
                    directory: bytes_of(directory),
                    order_urls: bytes_of(order_urls),
                },
            ),
        decreases bytes@.len() - index,
    {
        let ghost rest = bytes@.skip(index as int);
        let tag = bytes[index];
        if tag > TAG_ORDER_URLS {
            return Err(Error::ParseFromBytes("unknown bytes".to_string()));
        }
        if bytes.len() - index < 1 + LENGTH_WIDTH {
            return Err(Error::ParseFromBytes("bytes length".to_string()));
        }
        let length = read_length(bytes, index + 1);
        assert(rest.subrange(1, 9) =~= bytes@.subrange(index + 1, index + 9));
        let start = index + 1 + LENGTH_WIDTH;
        if ((bytes.len() - start) as u64) < length {
            return Err(Error::ParseFromBytes("bytes cut short".to_string()));
        }
        let end = start + length as usize;
        let payload = copy_range(bytes, start, end);
        assert(rest.subrange(9, 9 + length) =~= payload@);
        assert(rest.skip(9 + length) =~= bytes@.skip(end as int));
        if tag == TAG_KEY {
            key = Some(payload);
        } else if tag == TAG_DIRECTORY {
            directory = Some(payload);
        } else {
            order_urls = Some(payload);
        }
        index = end;
    }
    match (key, directory) {
        (Some(key), Some(directory)) => Ok(Records { key, directory, order_urls }),
        (None, _) => Err(Error::ParseFromBytes("no signing key".to_string())),
        (_, None) => Err(Error::ParseFromBytes("no directory".to_string())),
    }
}

} // verus!
