//! The recursive-length-prefix list encoder of the `rlp` crate, as this
//! library sees it: a stream that takes one list of byte-string items and
//! gives out the bytes of that list.
//!
//! Verus sees nothing inside an `rlp::RlpStream`. What the contracts say of a
//! stream they say through two names, the items appended so far and the
//! length the list was declared with. The bytes that come out are named by
//! `rlp_list` and, for every list short of 2^32 bytes, written out as
//! `rlp_encoding`. The contracts on the stream's own functions are not
//! proved: each states what the outside source shows.

use vstd::prelude::*;
use crate::numeric::{be_value, U256};
use crate::types::Address;

verus! {

/// `rlp::RlpStream`, carried through as it is.
#[verifier::external_type_specification]
#[verifier::external_body]
pub struct ExRlpStream(rlp::RlpStream);

/// The payloads of the items appended to the stream's list so far, in order.
/// The payload of an item is the byte string that it stands for, before any
/// length prefix.
pub uninterp spec fn stream_items(s: rlp::RlpStream) -> Seq<Seq<u8>>;

/// The number of items the stream's list was declared with, or `None` while
/// no list has been begun.
pub uninterp spec fn stream_declared(s: rlp::RlpStream) -> Option<nat>;

/// The bytes that the `rlp` crate gives for the list of these item payloads.
/// For a list whose encoded items take less than 2^32 bytes they are
/// [`rlp_encoding`]; beyond that the crate cuts the length it writes to 32
/// bits.
pub uninterp spec fn rlp_list(items: Seq<Seq<u8>>) -> Seq<u8>;

/// The prefix of `len` bytes of content: one byte `short + len` up to 55
/// bytes, else the byte `long` plus the number of bytes of the length, and
/// the length itself without leading zeros.
pub open spec fn rlp_prefix(short: nat, long: nat, len: nat) -> Seq<u8> {
    if len <= 55 {
        seq![(short + len) as u8]
    } else {
        seq![(long + uint_payload(len).len()) as u8] + uint_payload(len)
    }
}

/// The encoding of one byte string: a single byte below 0x80 stands for
/// itself, every other string follows its prefix.
pub open spec fn rlp_item(payload: Seq<u8>) -> Seq<u8> {
    if payload.len() == 1 && payload[0] < 0x80 {
        payload
    } else {
        rlp_prefix(0x80, 0xb7, payload.len()) + payload
    }
}

/// The encodings of the items, one after the other.
pub open spec fn rlp_items(items: Seq<Seq<u8>>) -> Seq<u8>
    decreases items.len(),
{
    if items.len() == 0 {
        Seq::empty()
    } else {
        rlp_items(items.drop_last()) + rlp_item(items.last())
    }
}

/// The recursive-length-prefix encoding of a list of byte strings: the
/// prefix of a list, then the encoded items.
pub open spec fn rlp_encoding(items: Seq<Seq<u8>>) -> Seq<u8> {
    rlp_prefix(0xc0, 0xf7, rlp_items(items).len()) + rlp_items(items)
}

/// The lists that the `rlp` crate encodes as the format lays down: those
/// whose encoded items take less than 2^32 bytes.
pub open spec fn rlp_encodable(items: Seq<Seq<u8>>) -> bool {
    rlp_items(items).len() < 0x1_0000_0000
}

/// The payload of an unsigned integer: its big-endian bytes without leading
/// zero bytes, so that zero has the empty payload.
pub open spec fn uint_payload(n: nat) -> Seq<u8>
    decreases n,
{
    if n == 0 {
        Seq::empty()
    } else {
        uint_payload(n / 256).push((n % 256) as u8)
    }
}

/// The payload of an integer is the shortest byte string that denotes it: it
/// reads back as the integer, it is empty for zero only, and it does not
/// begin with a zero byte.
pub proof fn lemma_uint_payload(n: nat)
    ensures
        be_value(uint_payload(n)) == n,
        uint_payload(n).len() == 0 <==> n == 0,
        n > 0 ==> uint_payload(n)[0] != 0,
    decreases n,
{
    if n > 0 {
        let high = n / 256;
        let low = (n % 256) as u8;
        lemma_uint_payload(high);
        let payload = uint_payload(n);
        assert(payload == uint_payload(high).push(low));
        assert(payload.drop_last() =~= uint_payload(high));
        assert(payload.last() == low);
        assert(be_value(payload) == be_value(uint_payload(high)) * 256 + low as nat);
        if high > 0 {
            assert(payload[0] == uint_payload(high)[0]);
        }
    }
}

/// A stream that is ready to take one more item.
pub open spec fn stream_open(s: rlp::RlpStream) -> bool {
    stream_declared(s) matches Some(n) && stream_items(s).len() < n
}

/// A stream whose list has all the items it was declared with.
pub open spec fn stream_complete(s: rlp::RlpStream) -> bool {
    stream_declared(s) matches Some(n) && stream_items(s).len() == n
}

/// `rlp::RlpStream::new`: an empty stream in which no list is begun.
pub assume_specification[ rlp::RlpStream::new ]() -> (s: rlp::RlpStream)
    ensures
        stream_items(s) == Seq::<Seq<u8>>::empty(),
        stream_declared(s) is None,
;

/// `rlp::RlpStream::begin_list` on a fresh stream: declares a list of `len`
/// items, none of them appended yet.
#[verifier::external_body]
pub(crate) fn stream_begin_list(s: &mut rlp::RlpStream, len: usize)
    requires
        stream_declared(*old(s)) is None,
        stream_items(*old(s)).len() == 0,
    ensures
        stream_declared(*final(s)) == Some(len as nat),
        stream_items(*final(s)) == Seq::<Seq<u8>>::empty(),
{
    s.begin_list(len);
}

/// `rlp::RlpStream::append` of a 256-bit integer: one more item, whose
/// payload is the integer's big-endian bytes without leading zeros. The
/// outside function panics on an item beyond the declared length, which is
/// left out.
#[verifier::external_body]
pub(crate) fn stream_append_uint(s: &mut rlp::RlpStream, value: &U256)
    requires
        stream_open(*old(s)),
    ensures
        stream_declared(*final(s)) == stream_declared(*old(s)),
        stream_items(*final(s)) == stream_items(*old(s)).push(uint_payload(value@)),
{
    s.append(&web3::types::U256([value.l0, value.l1, value.l2, value.l3]));
}

/// `rlp::RlpStream::append` of an address: one more item, whose payload is
/// the twenty bytes of the address.
#[verifier::external_body]
pub(crate) fn stream_append_address(s: &mut rlp::RlpStream, value: &Address)
    requires
        stream_open(*old(s)),
    ensures
        stream_declared(*final(s)) == stream_declared(*old(s)),
        stream_items(*final(s)) == stream_items(*old(s)).push(value@),
{
    s.append(&web3::types::Address::from(value.0));
}

/// `rlp::RlpStream::append` of a byte vector: one more item, whose payload
/// is the bytes themselves.
#[verifier::external_body]
pub(crate) fn stream_append_bytes(s: &mut rlp::RlpStream, value: &Vec<u8>)
    requires
        stream_open(*old(s)),
    ensures
        stream_declared(*final(s)) == stream_declared(*old(s)),
        stream_items(*final(s)) == stream_items(*old(s)).push(value@),
{
    s.append(value);
}

/// `rlp::RlpStream::out`: the encoded list. The outside function panics
/// while items are missing, which is left out. It writes every length in at
/// most four bytes, so the bytes are those of the format for a list whose
/// encoded items take less than 2^32 bytes.
pub assume_specification[ rlp::RlpStream::out ](s: rlp::RlpStream) -> (bytes: Vec<u8>)
    requires
        stream_complete(s),
    ensures
        bytes@ == rlp_list(stream_items(s)),
        rlp_encodable(stream_items(s)) ==> bytes@ == rlp_encoding(stream_items(s)),
;

} // verus!
