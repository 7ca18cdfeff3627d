//! Cross-chain messages and their byte format.
//!
//! A message travels as a compact little-endian record:
//!
//! | field          | bytes                                                  |
//! |----------------|--------------------------------------------------------|
//! | `action`       | one tag byte: 0, 1 or 2                                |
//! | `recipient`    | thirty-two raw bytes                                   |
//! | `metadata_uri` | `0`, or `1` followed by a length-prefixed UTF-8 string |
//! | `token_id`     | `0`, or `1` followed by eight little-endian bytes      |
//! | `data`         | a four-byte little-endian length, then the payload     |
//!
//! Nothing may follow the payload. [`wire`] is the format as a function from
//! messages to bytes, and [`decoding`] is its inverse.

use vstd::prelude::*;
use vstd::utf8::*;

verus! {

/// What the remote side asks the local side to do.
#[derive(Clone, Copy, Debug, PartialEq, Eq, Structural)]
pub enum CrossChainAction {
    MintNft,
    TransferToken,
    Custom,
}

/// A message exchanged with the remote network.
#[derive(Clone, Debug, PartialEq, Eq)]
pub struct CrossChainMessage {
    pub action: CrossChainAction,
    pub recipient: [u8; 32],
    pub metadata_uri: Option<String>,
    pub token_id: Option<u64>,
    pub data: Vec<u8>,
}

/// The mathematical content of a [`CrossChainMessage`].
pub ghost struct MessageView {
    pub action: CrossChainAction,
    pub recipient: Seq<u8>,
    pub metadata_uri: Option<Seq<char>>,
    pub token_id: Option<u64>,
    pub data: Seq<u8>,
}

impl View for CrossChainMessage {
    type V = MessageView;

    open spec fn view(&self) -> MessageView {
        MessageView {
            action: self.action,
            recipient: self.recipient@,
            metadata_uri: match self.metadata_uri {
                Some(s) => Some(s@),
                None => None,
            },
            token_id: self.token_id,
            data: self.data@,
        }
    }
}

/// Largest length that a length prefix can express.
pub open spec fn max_len() -> int {
    0xffff_ffff
}

/// The four little-endian bytes of `v`.
pub open spec fn le_u32(v: u32) -> Seq<u8> {
    seq![
        (v % 0x100) as u8,
        ((v / 0x100) % 0x100) as u8,
        ((v / 0x1_0000) % 0x100) as u8,
        ((v / 0x100_0000) % 0x100) as u8,
    ]
}

/// The number that four little-endian bytes stand for.
pub open spec fn le_u32_value(b: Seq<u8>) -> int
    recommends
        b.len() == 4,
{
    b[0] + b[1] * 0x100 + b[2] * 0x1_0000 + b[3] * 0x100_0000
}

/// The eight little-endian bytes of `v`: those of its low half, then those
/// of its high half.
pub open spec fn le_u64(v: u64) -> Seq<u8> {
    le_u32((v % 0x1_0000_0000) as u32) + le_u32((v / 0x1_0000_0000) as u32)
}

/// The number that eight little-endian bytes stand for.
pub open spec fn le_u64_value(b: Seq<u8>) -> int
    recommends
        b.len() == 8,
{
    le_u32_value(b.subrange(0, 4)) + le_u32_value(b.subrange(4, 8)) * 0x1_0000_0000
}

/// The tag byte of an action.
pub open spec fn action_tag(action: CrossChainAction) -> u8 {
    match action {
        CrossChainAction::MintNft => 0,
        CrossChainAction::TransferToken => 1,
        CrossChainAction::Custom => 2,
    }
}

/// A byte string behind its four-byte length.
pub open spec fn wire_bytes(data: Seq<u8>) -> Seq<u8> {
    le_u32(data.len() as u32) + data
}

/// An optional text: a presence byte, then the UTF-8 bytes behind their length.
pub open spec fn wire_opt_text(text: Option<Seq<char>>) -> Seq<u8> {
    match text {
        None => seq![0u8],
        Some(s) => seq![1u8] + wire_bytes(encode_utf8(s)),
    }
}

/// An optional integer: a presence byte, then eight little-endian bytes.
pub open spec fn wire_opt_u64(value: Option<u64>) -> Seq<u8> {
    match value {
        None => seq![0u8],
        Some(v) => seq![1u8] + le_u64(v),
    }
}

/// The messages that the format can carry: the recipient has thirty-two
/// bytes, and the text and the payload are short enough for a length prefix.
pub open spec fn encodable(m: MessageView) -> bool {
    &&& m.recipient.len() == 32
    &&& m.metadata_uri matches Some(s) ==> encode_utf8(s).len() <= max_len()
    &&& m.data.len() <= max_len()
}

/// The bytes of a message.
pub open spec fn wire(m: MessageView) -> Seq<u8> {
    seq![action_tag(m.action)] + m.recipient + wire_opt_text(m.metadata_uri) + wire_opt_u64(
        m.token_id,
    ) + wire_bytes(m.data)
}

/// `bytes` is the format of the message `m`.
pub open spec fn decodes_to(bytes: Seq<u8>, m: MessageView) -> bool {
    encodable(m) && wire(m) == bytes
}

/// The message that `bytes` stand for, if they stand for one.
pub open spec fn decoding(bytes: Seq<u8>) -> Option<MessageView> {
    if exists|m: MessageView| decodes_to(bytes, m) {
        Some(choose|m: MessageView| decodes_to(bytes, m))
    } else {
        None
    }
}

} // verus!
