//! Reading and writing the byte format of cross-chain messages.

use crate::message::{
    action_tag, decodes_to, decoding, encodable, le_u32, le_u32_value, le_u64, le_u64_value,
    max_len, wire, wire_bytes, wire_opt_text, wire_opt_u64, CrossChainAction, CrossChainMessage,
    MessageView,
};
use vstd::arithmetic::div_mod::{lemma_fundamental_div_mod, lemma_fundamental_div_mod_converse};
use vstd::prelude::*;
use vstd::slice::{slice_subrange, slice_to_vec};
use vstd::utf8::*;

verus! {

/// Four digits below 256 are the base-256 digits of the number they sum to.
proof fn lemma_base_256_digits(v: int, d0: int, d1: int, d2: int, d3: int)
    requires
        0 <= d0 < 0x100,
        0 <= d1 < 0x100,
        0 <= d2 < 0x100,
        0 <= d3 < 0x100,
        v == d0 + d1 * 0x100 + d2 * 0x1_0000 + d3 * 0x100_0000,
    ensures
        0 <= v <= 0xffff_ffff,
        v % 0x100 == d0,
        (v / 0x100) % 0x100 == d1,
        (v / 0x1_0000) % 0x100 == d2,
        (v / 0x100_0000) % 0x100 == d3,
{
    let q1 = d1 + d2 * 0x100 + d3 * 0x1_0000;
    let q2 = d2 + d3 * 0x100;
    lemma_fundamental_div_mod_converse(v, 0x100, q1, d0);
    lemma_fundamental_div_mod_converse(q1, 0x100, q2, d1);
    lemma_fundamental_div_mod_converse(v, 0x1_0000, q2, d0 + d1 * 0x100);
    lemma_fundamental_div_mod_converse(q2, 0x100, d3, d2);
    lemma_fundamental_div_mod_converse(v, 0x100_0000, d3, d0 + d1 * 0x100 + d2 * 0x1_0000);
    lemma_fundamental_div_mod_converse(d3, 0x100, 0, d3);
}

/// Four little-endian bytes and the number they stand for determine each other.
pub proof fn lemma_le_u32_round_trip(v: u32)
    ensures
        le_u32(v).len() == 4,
        le_u32_value(le_u32(v)) == v,
{
    let q1 = v as int / 0x100;
    let q2 = q1 / 0x100;
    let q3 = q2 / 0x100;
    lemma_fundamental_div_mod(v as int, 0x100);
    lemma_fundamental_div_mod(q1, 0x100);
    lemma_fundamental_div_mod(q2, 0x100);
    lemma_base_256_digits(v as int, v as int % 0x100, q1 % 0x100, q2 % 0x100, q3);
}

/// Every four bytes are the little-endian form of exactly one number.
pub proof fn lemma_le_u32_of_value(b: Seq<u8>)
    requires
        b.len() == 4,
    ensures
        0 <= le_u32_value(b) <= max_len(),
        le_u32(le_u32_value(b) as u32) == b,
{
    lemma_base_256_digits(le_u32_value(b), b[0] as int, b[1] as int, b[2] as int, b[3] as int);
    assert(le_u32(le_u32_value(b) as u32) =~= b);
}

/// Eight little-endian bytes and the number they stand for determine each other.
pub proof fn lemma_le_u64_round_trip(v: u64)
    ensures
        le_u64(v).len() == 8,
        le_u64_value(le_u64(v)) == v,
{
    let lo = (v % 0x1_0000_0000) as u32;
    let hi = (v / 0x1_0000_0000) as u32;
    lemma_fundamental_div_mod(v as int, 0x1_0000_0000);
    lemma_le_u32_round_trip(lo);
    lemma_le_u32_round_trip(hi);
    assert(le_u64(v).subrange(0, 4) =~= le_u32(lo));
    assert(le_u64(v).subrange(4, 8) =~= le_u32(hi));
}

/// Every eight bytes are the little-endian form of exactly one number.
pub proof fn lemma_le_u64_of_value(b: Seq<u8>)
    requires
        b.len() == 8,
    ensures
        0 <= le_u64_value(b) <= u64::MAX,
        le_u64(le_u64_value(b) as u64) == b,
{
    let lo = b.subrange(0, 4);
    let hi = b.subrange(4, 8);
    lemma_le_u32_of_value(lo);
    lemma_le_u32_of_value(hi);
    let v = le_u64_value(b);
    lemma_fundamental_div_mod_converse(v, 0x1_0000_0000, le_u32_value(hi), le_u32_value(lo));
    assert(le_u64(v as u64) == lo + hi);
    assert(lo + hi =~= b);
}

/// The action that a tag byte stands for.
spec fn action_of_tag(tag: u8) -> CrossChainAction {
    if tag == 0 {
        CrossChainAction::MintNft
    } else if tag == 1 {
        CrossChainAction::TransferToken
    } else {
        CrossChainAction::Custom
    }
}

/// A length-prefixed byte string that starts at `p`, with the position behind it.
spec fn parse_bytes(b: Seq<u8>, p: int) -> Option<(Seq<u8>, int)> {
    if 0 <= p && p + 4 <= b.len() {
        let n = le_u32_value(b.subrange(p, p + 4));
        if p + 4 + n <= b.len() {
            Some((b.subrange(p + 4, p + 4 + n), p + 4 + n))
        } else {
            None
        }
    } else {
        None
    }
}

/// An optional text that starts at `p`, with the position behind it.
spec fn parse_opt_text(b: Seq<u8>, p: int) -> Option<(Option<Seq<char>>, int)> {
    if 0 <= p < b.len() {
        if b[p] == 0 {
            Some((None, p + 1))
        } else if b[p] == 1 {
            match parse_bytes(b, p + 1) {
                Some((raw, q)) => if valid_utf8(raw) {
                    Some((Some(decode_utf8(raw)), q))
                } else {
                    None
                },
                None => None,
            }
        } else {
            None
        }
    } else {
        None
    }
}

/// An optional integer that starts at `p`, with the position behind it.
spec fn parse_opt_u64(b: Seq<u8>, p: int) -> Option<(Option<u64>, int)> {
    if 0 <= p < b.len() {
        if b[p] == 0 {
            Some((None, p + 1))
        } else if b[p] == 1 {
            if p + 9 <= b.len() {
                Some((Some(le_u64_value(b.subrange(p + 1, p + 9)) as u64), p + 9))
            } else {
                None
            }
        } else {
            None
        }
    } else {
        None
    }
}

/// The message that is read field by field from `b`, where every field is
/// well formed and nothing is left over.
spec fn parse(b: Seq<u8>) -> Option<MessageView> {
    if b.len() < 33 || b[0] > 2 {
        None
    } else {
        match parse_opt_text(b, 33) {
            None => None,
            Some((metadata_uri, p1)) => match parse_opt_u64(b, p1) {
                None => None,
                Some((token_id, p2)) => match parse_bytes(b, p2) {
                    None => None,
                    Some((data, p3)) => if p3 == b.len() {
                        Some(
                            MessageView {
                                action: action_of_tag(b[0]),
                                recipient: b.subrange(1, 33),
                                metadata_uri,
                                token_id,
                                data,
                            },
                        )
                    } else {
                        None
                    },
                },
            },
        }
    }
}

proof fn lemma_parse_bytes_sound(b: Seq<u8>, p: int)
    requires
        parse_bytes(b, p) is Some,
    ensures
        ({
            let (data, q) = parse_bytes(b, p).unwrap();
            &&& 0 <= p
            &&& q == p + 4 + data.len()
            &&& q <= b.len()
            &&& data.len() <= max_len()
            &&& b.subrange(p, q) == wire_bytes(data)
        }),
{
    let (data, q) = parse_bytes(b, p).unwrap();
    lemma_le_u32_of_value(b.subrange(p, p + 4));
    assert(b.subrange(p, q) =~= wire_bytes(data));
}

proof fn lemma_parse_bytes_complete(b: Seq<u8>, p: int, data: Seq<u8>)
    requires
        0 <= p,
        data.len() <= max_len(),
        p + 4 + data.len() <= b.len(),
        b.subrange(p, p + 4 + data.len()) == wire_bytes(data),
    ensures
        parse_bytes(b, p) == Some((data, p + 4 + data.len())),
{
    let w = wire_bytes(data);
    lemma_le_u32_round_trip(data.len() as u32);
    assert(b.subrange(p, p + 4) =~= w.subrange(0, 4));
    assert(w.subrange(0, 4) =~= le_u32(data.len() as u32));
    assert(b.subrange(p + 4, p + 4 + data.len()) =~= w.subrange(4, 4 + data.len() as int));
    assert(w.subrange(4, 4 + data.len() as int) =~= data);
}

proof fn lemma_parse_opt_text_sound(b: Seq<u8>, p: int)
    requires
        parse_opt_text(b, p) is Some,
    ensures
        ({
            let (text, q) = parse_opt_text(b, p).unwrap();
            &&& 0 <= p < q <= b.len()
            &&& text matches Some(s) ==> encode_utf8(s).len() <= max_len()
            &&& b.subrange(p, q) == wire_opt_text(text)
        }),
{
    let (text, q) = parse_opt_text(b, p).unwrap();
    if b[p] == 1 {
        lemma_parse_bytes_sound(b, p + 1);
        let raw = parse_bytes(b, p + 1).unwrap().0;
        decode_utf8_encode_utf8(raw);
        assert(b.subrange(p, q) =~= seq![1u8] + b.subrange(p + 1, q));
    } else {
        assert(b.subrange(p, q) =~= seq![0u8]);
    }
}

proof fn lemma_parse_opt_text_complete(b: Seq<u8>, p: int, text: Option<Seq<char>>)
    requires
        0 <= p,
        text matches Some(s) ==> encode_utf8(s).len() <= max_len(),
        p + wire_opt_text(text).len() <= b.len(),
        b.subrange(p, p + wire_opt_text(text).len()) == wire_opt_text(text),
    ensures
        parse_opt_text(b, p) == Some((text, p + wire_opt_text(text).len())),
{
    let w = wire_opt_text(text);
    assert(b[p] == b.subrange(p, p + w.len())[0]);
    match text {
        None => {},
        Some(s) => {
            let raw = encode_utf8(s);
            lemma_le_u32_round_trip(raw.len() as u32);
            assert(b.subrange(p + 1, p + 1 + 4 + raw.len()) =~= w.subrange(1, w.len() as int));
            assert(w.subrange(1, w.len() as int) =~= wire_bytes(raw));
            lemma_parse_bytes_complete(b, p + 1, raw);
            encode_utf8_valid_utf8(s);
            encode_utf8_decode_utf8(s);
        },
    }
}

proof fn lemma_parse_opt_u64_sound(b: Seq<u8>, p: int)
    requires
        parse_opt_u64(b, p) is Some,
    ensures
        ({
            let (value, q) = parse_opt_u64(b, p).unwrap();
            &&& 0 <= p < q <= b.len()
            &&& b.subrange(p, q) == wire_opt_u64(value)
        }),
{
    let (value, q) = parse_opt_u64(b, p).unwrap();
    if b[p] == 1 {
        lemma_le_u64_of_value(b.subrange(p + 1, p + 9));
        assert(b.subrange(p, q) =~= seq![1u8] + b.subrange(p + 1, p + 9));
    } else {
        assert(b.subrange(p, q) =~= seq![0u8]);
    }
}

proof fn lemma_parse_opt_u64_complete(b: Seq<u8>, p: int, value: Option<u64>)
    requires
        0 <= p,
        p + wire_opt_u64(value).len() <= b.len(),
        b.subrange(p, p + wire_opt_u64(value).len()) == wire_opt_u64(value),
    ensures
        parse_opt_u64(b, p) == Some((value, p + wire_opt_u64(value).len())),
{
    let w = wire_opt_u64(value);
    assert(b[p] == b.subrange(p, p + w.len())[0]);
    match value {
        None => {},
        Some(v) => {
            lemma_le_u64_round_trip(v);
            assert(b.subrange(p + 1, p + 9) =~= w.subrange(1, 9));
            assert(w.subrange(1, 9) =~= le_u64(v));
        },
    }
}

/// What is read from bytes is a message whose format those bytes are.
proof fn lemma_parse_sound(b: Seq<u8>)
    requires
        parse(b) is Some,
    ensures
        decodes_to(b, parse(b).unwrap()),
{
    let m = parse(b).unwrap();
    lemma_parse_opt_text_sound(b, 33);
    let (metadata_uri, p1) = parse_opt_text(b, 33).unwrap();
    lemma_parse_opt_u64_sound(b, p1);
    let (token_id, p2) = parse_opt_u64(b, p1).unwrap();
    lemma_parse_bytes_sound(b, p2);
    let (data, p3) = parse_bytes(b, p2).unwrap();
    assert(wire(m) =~= seq![b[0]] + b.subrange(1, 33) + b.subrange(33, p1) + b.subrange(p1, p2)
        + b.subrange(p2, p3));
    assert(wire(m) =~= b);
}

/// The format of a message is read back as that message.
proof fn lemma_parse_complete(m: MessageView)
    requires
        encodable(m),
    ensures
        parse(wire(m)) == Some(m),
{
    let b = wire(m);
    let w1 = wire_opt_text(m.metadata_uri);
    let w2 = wire_opt_u64(m.token_id);
    let w3 = wire_bytes(m.data);
    let p1: int = 33 + w1.len() as int;
    let p2: int = p1 + w2.len() as int;
    let p3: int = p2 + w3.len() as int;
    assert(b.len() == p3);
    assert(b[0] == action_tag(m.action));
    assert(action_of_tag(b[0]) == m.action);
    assert(b.subrange(1, 33) =~= m.recipient);
    assert(b.subrange(33, p1) =~= w1);
    assert(b.subrange(p1, p2) =~= w2);
    assert(b.subrange(p2, p3) =~= w3);
    lemma_parse_opt_text_complete(b, 33, m.metadata_uri);
    lemma_parse_opt_u64_complete(b, p1, m.token_id);
    lemma_parse_bytes_complete(b, p2, m.data);
}

/// Reading field by field finds the message that the bytes stand for, and
/// fails exactly where they stand for none.
proof fn lemma_decoding_is_parse(b: Seq<u8>)
    ensures
        decoding(b) == parse(b),
{
    if parse(b) is Some {
        lemma_parse_sound(b);
        let m = parse(b).unwrap();
        let c = choose|c: MessageView| decodes_to(b, c);
        lemma_parse_complete(c);
    } else {
        if exists|m: MessageView| decodes_to(b, m) {
            let c = choose|c: MessageView| decodes_to(b, c);
            lemma_parse_complete(c);
        }
    }
}

/// Writing a message and reading the bytes back gives the message itself,
/// equal in every field.
pub proof fn lemma_round_trip(m: MessageView)
    requires
        encodable(m),
    ensures
        decoding(wire(m)) == Some(m),
{
    lemma_decoding_is_parse(wire(m));
    lemma_parse_complete(m);
}

/// No two messages share a format.
pub proof fn lemma_wire_injective(a: MessageView, b: MessageView)
    requires
        encodable(a),
        encodable(b),
        wire(a) == wire(b),
    ensures
        a == b,
{
    lemma_parse_complete(a);
    lemma_parse_complete(b);
}

/// Bytes that decode are the format of what they decode to.
pub proof fn lemma_decoding_sound(bytes: Seq<u8>)
    requires
        decoding(bytes) is Some,
    ensures
        encodable(decoding(bytes).unwrap()),
        wire(decoding(bytes).unwrap()) == bytes,
{
}

/// Calls `String::from_utf8`: the bytes become a text exactly when they are
/// well-formed UTF-8, and the text is then the one whose UTF-8 form they are.
#[verifier::external_body]
fn text_from_utf8(bytes: Vec<u8>) -> (r: Option<String>)
    ensures
        r is Some <==> valid_utf8(bytes@),
        r matches Some(s) ==> encode_utf8(s@) == bytes@,
{
    String::from_utf8(bytes).ok()
}

fn read_u32(b: &[u8], p: usize) -> (r: u32)
    requires
        p + 4 <= b@.len(),
    ensures
        r == le_u32_value(b@.subrange(p as int, p + 4)),
{
    let b0: u32 = b[p] as u32;
    let b1: u32 = b[p + 1] as u32;
    let b2: u32 = b[p + 2] as u32;
    let b3: u32 = b[p + 3] as u32;
    b0 + b1 * 0x100 + b2 * 0x1_0000 + b3 * 0x100_0000
}

pub(crate) fn read_u64(b: &[u8], p: usize) -> (r: u64)
    requires
        p + 8 <= b@.len(),
    ensures
        r == le_u64_value(b@.subrange(p as int, p + 8)),
{
    let len: usize = b.len();
    assert(p + 8 <= len);
    let lo: u64 = read_u32(b, p) as u64;
    let hi: u64 = read_u32(b, p + 4) as u64;
    proof {
        let w = b@.subrange(p as int, p + 8);
        assert(w.subrange(0, 4) =~= b@.subrange(p as int, p + 4));
        assert(w.subrange(4, 8) =~= b@.subrange(p + 4, p + 8));
    }
    lo + hi * 0x1_0000_0000
}

pub(crate) fn read_32(b: &[u8], p: usize) -> (r: [u8; 32])
    requires
        p + 32 <= b@.len(),
    ensures
        r@ == b@.subrange(p as int, p + 32),
{
    let len: usize = b.len();
    let mut r: [u8; 32] = [0u8; 32];
    let mut i: usize = 0;
    while i < 32
        invariant
            i <= 32,
            p + 32 <= b@.len(),
            b@.len() == len,
            forall|j: int| 0 <= j < i ==> r[j] == b@[p + j],
        decreases 32 - i,
    {
        r[i] = b[p + i];
        i = i + 1;
    }
    assert(r@ =~= b@.subrange(p as int, p + 32));
    r
}

fn read_bytes(b: &[u8], p: usize) -> (r: Option<(Vec<u8>, usize)>)
    requires
        p <= b@.len(),
    ensures
        match r {
            Some((v, q)) => parse_bytes(b@, p as int) == Some((v@, q as int)),
            None => parse_bytes(b@, p as int) is None,
        },
{
    if b.len() - p < 4 {
        return None;
    }
    let n: usize = read_u32(b, p) as usize;
    if b.len() - p - 4 < n {
        return None;
    }
    let start: usize = p + 4;
    let end: usize = start + n;
    let v = slice_to_vec(slice_subrange(b, start, end));
    Some((v, end))
}

fn read_opt_text(b: &[u8], p: usize) -> (r: Option<(Option<String>, usize)>)
    requires
        p <= b@.len(),
    ensures
        match r {
            Some((Some(s), q)) => parse_opt_text(b@, p as int) == Some((Some(s@), q as int)),
            Some((None, q)) => parse_opt_text(b@, p as int) == Some(
                (None::<Seq<char>>, q as int),
            ),
            None => parse_opt_text(b@, p as int) is None,
        },
{
    if p >= b.len() {
        return None;
    }
    let flag: u8 = b[p];
    if flag == 0 {
        Some((None, p + 1))
    } else if flag == 1 {
        match read_bytes(b, p + 1) {
            Some((raw, q)) => {
                match text_from_utf8(raw) {
                    Some(s) => {
                        proof {
                            encode_utf8_decode_utf8(s@);
                        }
                        Some((Some(s), q))
                    },
                    None => None,
                }
            },
            None => None,
        }
    } else {
        None
    }
}

fn read_opt_u64(b: &[u8], p: usize) -> (r: Option<(Option<u64>, usize)>)
    requires
        p <= b@.len(),
    ensures
        match r {
            Some((v, q)) => parse_opt_u64(b@, p as int) == Some((v, q as int)),
            None => parse_opt_u64(b@, p as int) is None,
        },
{
    if p >= b.len() {
        return None;
    }
    let flag: u8 = b[p];
    if flag == 0 {
        Some((None, p + 1))
    } else if flag == 1 {
        if b.len() - p < 9 {
            return None;
        }
        let v: u64 = read_u64(b, p + 1);
        Some((Some(v), p + 9))
    } else {
        None
    }
}

fn write_u32(out: &mut Vec<u8>, v: u32)
    ensures
        final(out)@ == old(out)@ + le_u32(v),
{
    out.push((v % 0x100) as u8);
    out.push(((v / 0x100) % 0x100) as u8);
    out.push(((v / 0x1_0000) % 0x100) as u8);
    out.push(((v / 0x100_0000) % 0x100) as u8);
    assert(out@ =~= old(out)@ + le_u32(v));
}

pub(crate) fn write_u64(out: &mut Vec<u8>, v: u64)
    ensures
        final(out)@ == old(out)@ + le_u64(v),
{
    write_u32(out, (v % 0x1_0000_0000) as u32);
    write_u32(out, (v / 0x1_0000_0000) as u32);
    assert(out@ =~= old(out)@ + le_u64(v));
}

pub(crate) fn write_all(out: &mut Vec<u8>, data: &[u8])
    ensures
        final(out)@ == old(out)@ + data@,
{
    let mut i: usize = 0;
    while i < data.len()
        invariant
            i <= data@.len(),
            out@ == old(out)@ + data@.subrange(0, i as int),
        decreases data@.len() - i,
    {
        out.push(data[i]);
        i = i + 1;
        assert(out@ =~= old(out)@ + data@.subrange(0, i as int));
    }
    assert(data@.subrange(0, i as int) =~= data@);
}

fn write_bytes(out: &mut Vec<u8>, data: &[u8])
    requires
        data@.len() <= max_len(),
    ensures
        final(out)@ == old(out)@ + wire_bytes(data@),
{
    write_u32(out, data.len() as u32);
    write_all(out, data);
    assert(out@ =~= old(out)@ + wire_bytes(data@));
}

impl CrossChainAction {
    /// The tag byte that stands for the action.
    pub fn tag(&self) -> (r: u8)
        ensures
            r == action_tag(*self),
    {
        match self {
            CrossChainAction::MintNft => 0,
            CrossChainAction::TransferToken => 1,
            CrossChainAction::Custom => 2,
        }
    }

    /// The action that a tag byte stands for, if it stands for one.
    pub fn from_tag(tag: u8) -> (r: Option<CrossChainAction>)
        ensures
            match r {
                Some(a) => action_tag(a) == tag,
                None => tag > 2,
            },
    {
        if tag == 0 {
            Some(CrossChainAction::MintNft)
        } else if tag == 1 {
            Some(CrossChainAction::TransferToken)
        } else if tag == 2 {
            Some(CrossChainAction::Custom)
        } else {
            None
        }
    }
}

impl CrossChainMessage {
    /// Reads a message from its bytes.
    ///
    /// Succeeds exactly when `bytes` are the format of a message, and then
    /// returns that message; bytes that are cut short, malformed or followed
    /// by anything else give `None`.
    pub fn try_from_slice(bytes: &[u8]) -> (r: Option<CrossChainMessage>)
        ensures
            match r {
                Some(m) => decoding(bytes@) == Some(m@),
                None => decoding(bytes@) is None,
            },
    {
        proof {
            lemma_decoding_is_parse(bytes@);
        }
        if bytes.len() < 33 {
            return None;
        }
        let action = match CrossChainAction::from_tag(bytes[0]) {
            Some(a) => a,
            None => {
                return None;
            },
        };
        let recipient: [u8; 32] = read_32(bytes, 1);
        let (metadata_uri, p1) = match read_opt_text(bytes, 33) {
            Some(x) => x,
            None => {
                return None;
            },
        };
        proof {
            lemma_parse_opt_text_sound(bytes@, 33);
        }
        let (token_id, p2) = match read_opt_u64(bytes, p1) {
            Some(x) => x,
            None => {
                return None;
            },
        };
        proof {
            lemma_parse_opt_u64_sound(bytes@, p1 as int);
        }
        let (data, p3) = match read_bytes(bytes, p2) {
            Some(x) => x,
            None => {
                return None;
            },
        };
        if p3 != bytes.len() {
            return None;
        }
        Some(CrossChainMessage { action, recipient, metadata_uri, token_id, data })
    }

    /// Writes the message as bytes.
    ///
    /// Succeeds exactly when the text and the payload are short enough for
    /// their length prefixes, and then returns the format of the message.
    pub fn try_to_vec(&self) -> (r: Option<Vec<u8>>)
        ensures
            r is Some <==> encodable(self@),
            r matches Some(v) ==> v@ == wire(self@),
    {
        if self.data.len() > 0xffff_ffff {
            return None;
        }
        let mut out: Vec<u8> = Vec::new();
        out.push(self.action.tag());
        write_all(&mut out, self.recipient.as_slice());
        match &self.metadata_uri {
            None => {
                out.push(0);
            },
            Some(s) => {
                let raw = s.as_str().as_bytes();
                if raw.len() > 0xffff_ffff {
                    return None;
                }
                out.push(1);
                write_bytes(&mut out, raw);
            },
        }
        match self.token_id {
            None => {
                out.push(0);
            },
            Some(v) => {
                out.push(1);
                write_u64(&mut out, v);
            },
        }
        write_bytes(&mut out, self.data.as_slice());
        assert(out@ =~= wire(self@));
        Some(out)
    }
}

} // verus!
