//! The message catalog: the closed set of messages that may cross the
//! boundary, the numeric identifier of each, and the conversion between a
//! message and its fixed-layout wire record.
//!
//! A price travels as the 64 bits of its IEEE 754 representation.

use vstd::prelude::*;
use vstd::bytes::*;
use vstd::slice::slice_subrange;
use crate::wire::{
    append_bytes, lemma_int_bytes, lemma_unpack_pack, pack_text, spec_i32_bytes, spec_i32_value,
    spec_i64_bytes, spec_i64_value, spec_pack_text, spec_payload_len, spec_unpack_text, text_fits,
    unpack_text,
};

verus! {

/// Identifier of [`Message::Ping`].
pub const MSG_PING: i32 = 1;

/// Identifier of [`Message::Pong`].
pub const MSG_PONG: i32 = 2;

/// Identifier of [`Message::Subscribe`].
pub const MSG_SUBSCRIBE: i32 = 3;

/// Identifier of [`Message::Unsubscribe`].
pub const MSG_UNSUBSCRIBE: i32 = 4;

/// Identifier of [`Message::MarketUpdate`].
pub const MSG_MARKETUPDATE: i32 = 5;

/// Bytes that a topic occupies on the wire, terminator included.
pub const TOPIC_CAPACITY: usize = 32;

/// Bytes that a symbol occupies on the wire, terminator included.
pub const SYMBOL_CAPACITY: usize = 8;

/// Length of the wire record of a market update.
pub const MARKETUPDATE_WIRE_LEN: usize = 28;

/// A message as an island holds it.
#[derive(Debug, PartialEq, Eq)]
pub enum Message {
    Ping { count: i32 },
    Pong { count: i32 },
    Subscribe { topic: Vec<u8> },
    Unsubscribe { topic: Vec<u8> },
    MarketUpdate { symbol: Vec<u8>, price_bits: u64, timestamp: i64, volume: i32 },
}

/// The mathematical value of a [`Message`].
pub enum MessageView {
    Ping { count: i32 },
    Pong { count: i32 },
    Subscribe { topic: Seq<u8> },
    Unsubscribe { topic: Seq<u8> },
    MarketUpdate { symbol: Seq<u8>, price_bits: u64, timestamp: i64, volume: i32 },
}

impl View for Message {
    type V = MessageView;

    open spec fn view(&self) -> MessageView {
        match *self {
            Message::Ping { count } => MessageView::Ping { count },
            Message::Pong { count } => MessageView::Pong { count },
            Message::Subscribe { topic } => MessageView::Subscribe { topic: topic@ },
            Message::Unsubscribe { topic } => MessageView::Unsubscribe { topic: topic@ },
            Message::MarketUpdate { symbol, price_bits, timestamp, volume } => {
                MessageView::MarketUpdate { symbol: symbol@, price_bits, timestamp, volume }
            },
        }
    }
}

/// Whether `id` names a message of the catalog.
pub open spec fn spec_known_id(id: i32) -> bool {
    id == MSG_PING || id == MSG_PONG || id == MSG_SUBSCRIBE || id == MSG_UNSUBSCRIBE || id
        == MSG_MARKETUPDATE
}

/// The identifier of a message.
pub open spec fn spec_message_id(m: MessageView) -> i32 {
    match m {
        MessageView::Ping { .. } => MSG_PING,
        MessageView::Pong { .. } => MSG_PONG,
        MessageView::Subscribe { .. } => MSG_SUBSCRIBE,
        MessageView::Unsubscribe { .. } => MSG_UNSUBSCRIBE,
        MessageView::MarketUpdate { .. } => MSG_MARKETUPDATE,
    }
}

/// The length of the wire record that `id` names; zero for an identifier
/// outside the catalog.
pub open spec fn spec_wire_len(id: i32) -> nat {
    if id == MSG_PING || id == MSG_PONG {
        4
    } else if id == MSG_SUBSCRIBE || id == MSG_UNSUBSCRIBE {
        TOPIC_CAPACITY as nat
    } else if id == MSG_MARKETUPDATE {
        MARKETUPDATE_WIRE_LEN as nat
    } else {
        0
    }
}

/// The wire record of a message.
pub open spec fn spec_to_wire(m: MessageView) -> Seq<u8> {
    match m {
        MessageView::Ping { count } => spec_i32_bytes(count),
        MessageView::Pong { count } => spec_i32_bytes(count),
        MessageView::Subscribe { topic } => spec_pack_text(topic, TOPIC_CAPACITY as nat),
        MessageView::Unsubscribe { topic } => spec_pack_text(topic, TOPIC_CAPACITY as nat),
        MessageView::MarketUpdate { symbol, price_bits, timestamp, volume } => {
            spec_pack_text(symbol, SYMBOL_CAPACITY as nat) + spec_u64_to_le_bytes(price_bits)
                + spec_i64_bytes(timestamp) + spec_i32_bytes(volume)
        },
    }
}

/// The message that a wire record holds: none where the identifier is outside
/// the catalog or the record has not the length that the identifier names.
pub open spec fn spec_from_wire(id: i32, bytes: Seq<u8>) -> Option<MessageView> {
    if !spec_known_id(id) || bytes.len() != spec_wire_len(id) {
        None
    } else if id == MSG_PING {
        Some(MessageView::Ping { count: spec_i32_value(bytes) })
    } else if id == MSG_PONG {
        Some(MessageView::Pong { count: spec_i32_value(bytes) })
    } else if id == MSG_SUBSCRIBE {
        Some(MessageView::Subscribe { topic: spec_unpack_text(bytes) })
    } else if id == MSG_UNSUBSCRIBE {
        Some(MessageView::Unsubscribe { topic: spec_unpack_text(bytes) })
    } else {
        Some(
            MessageView::MarketUpdate {
                symbol: spec_unpack_text(bytes.subrange(0, 8)),
                price_bits: spec_u64_from_le_bytes(bytes.subrange(8, 16)),
                timestamp: spec_i64_value(bytes.subrange(16, 24)),
                volume: spec_i32_value(bytes.subrange(24, 28)),
            },
        )
    }
}

/// Every text field of the message fits the capacity of its wire field.
pub open spec fn spec_within_capacity(m: MessageView) -> bool {
    match m {
        MessageView::Subscribe { topic } => text_fits(topic, TOPIC_CAPACITY as nat),
        MessageView::Unsubscribe { topic } => text_fits(topic, TOPIC_CAPACITY as nat),
        MessageView::MarketUpdate { symbol, .. } => text_fits(symbol, SYMBOL_CAPACITY as nat),
        _ => true,
    }
}

/// What a text field of `cap` bytes retains of `text`.
pub open spec fn spec_clip_text(text: Seq<u8>, cap: nat) -> Seq<u8> {
    spec_unpack_text(text.take(spec_payload_len(text, cap) as int))
}

/// The message as it arrives on the other side: every text field cut to what
/// its wire field retains.
pub open spec fn spec_clip(m: MessageView) -> MessageView {
    match m {
        MessageView::Subscribe { topic } => MessageView::Subscribe {
            topic: spec_clip_text(topic, TOPIC_CAPACITY as nat),
        },
        MessageView::Unsubscribe { topic } => MessageView::Unsubscribe {
            topic: spec_clip_text(topic, TOPIC_CAPACITY as nat),
        },
        MessageView::MarketUpdate { symbol, price_bits, timestamp, volume } => {
            MessageView::MarketUpdate {
                symbol: spec_clip_text(symbol, SYMBOL_CAPACITY as nat),
                price_bits,
                timestamp,
                volume,
            }
        },
        _ => m,
    }
}

/// The identifier of a message decides the length of its wire record,
/// whatever the length of its text fields.
pub proof fn lemma_wire_len(m: MessageView)
    ensures
        spec_known_id(spec_message_id(m)),
        spec_to_wire(m).len() == spec_wire_len(spec_message_id(m)),
{
    match m {
        MessageView::Ping { count } => {
            lemma_int_bytes(count, 0, 0);
        },
        MessageView::Pong { count } => {
            lemma_int_bytes(count, 0, 0);
        },
        MessageView::MarketUpdate { symbol, price_bits, timestamp, volume } => {
            lemma_int_bytes(volume, timestamp, price_bits);
        },
        _ => {},
    }
}

/// Converting a message to its wire record and back yields the message with
/// its text fields cut to capacity.
pub proof fn lemma_wire_transfer(m: MessageView)
    ensures
        spec_from_wire(spec_message_id(m), spec_to_wire(m)) == Some(spec_clip(m)),
{
    lemma_wire_len(m);
    match m {
        MessageView::Ping { count } => {
            lemma_int_bytes(count, 0, 0);
        },
        MessageView::Pong { count } => {
            lemma_int_bytes(count, 0, 0);
        },
        MessageView::Subscribe { topic } => {
            lemma_unpack_pack(topic, TOPIC_CAPACITY as nat);
        },
        MessageView::Unsubscribe { topic } => {
            lemma_unpack_pack(topic, TOPIC_CAPACITY as nat);
        },
        MessageView::MarketUpdate { symbol, price_bits, timestamp, volume } => {
            lemma_int_bytes(volume, timestamp, price_bits);
            lemma_unpack_pack(symbol, SYMBOL_CAPACITY as nat);
            let w = spec_to_wire(m);
            assert(w.subrange(0, 8) =~= spec_pack_text(symbol, SYMBOL_CAPACITY as nat));
            assert(w.subrange(8, 16) =~= spec_u64_to_le_bytes(price_bits));
            assert(w.subrange(16, 24) =~= spec_i64_bytes(timestamp));
            assert(w.subrange(24, 28) =~= spec_i32_bytes(volume));
        },
    }
}

/// Round trip: a message whose text fields are within capacity comes back
/// from its wire record unchanged.
pub proof fn lemma_round_trip(m: MessageView)
    requires
        spec_within_capacity(m),
    ensures
        spec_from_wire(spec_message_id(m), spec_to_wire(m)) == Some(m),
{
    lemma_wire_transfer(m);
    match m {
        MessageView::Subscribe { topic } => {
            lemma_unpack_pack(topic, TOPIC_CAPACITY as nat);
        },
        MessageView::Unsubscribe { topic } => {
            lemma_unpack_pack(topic, TOPIC_CAPACITY as nat);
        },
        MessageView::MarketUpdate { symbol, .. } => {
            lemma_unpack_pack(symbol, SYMBOL_CAPACITY as nat);
        },
        _ => {},
    }
}

/// Whether `id` names a message of the catalog.
pub fn known_id(id: i32) -> (known: bool)
    ensures
        known == spec_known_id(id),
{
    id == MSG_PING || id == MSG_PONG || id == MSG_SUBSCRIBE || id == MSG_UNSUBSCRIBE || id
        == MSG_MARKETUPDATE
}

fn i32_to_wire(x: i32) -> (out: Vec<u8>)
    ensures
        out@ == spec_i32_bytes(x),
{
    u32_to_le_bytes(#[verifier::truncate] (x as u32))
}

fn i32_from_wire(bytes: &[u8]) -> (x: i32)
    requires
        bytes@.len() == 4,
    ensures
        x == spec_i32_value(bytes@),
{
    #[verifier::truncate] (u32_from_le_bytes(bytes) as i32)
}

fn i64_to_wire(x: i64) -> (out: Vec<u8>)
    ensures
        out@ == spec_i64_bytes(x),
{
    u64_to_le_bytes(#[verifier::truncate] (x as u64))
}

fn i64_from_wire(bytes: &[u8]) -> (x: i64)
    requires
        bytes@.len() == 8,
    ensures
        x == spec_i64_value(bytes@),
{
    #[verifier::truncate] (u64_from_le_bytes(bytes) as i64)
}

impl Message {
    /// The identifier under which this message travels.
    pub fn message_id(&self) -> (id: i32)
        ensures
            id == spec_message_id(self@),
            spec_known_id(id),
    {
        match self {
            Message::Ping { .. } => MSG_PING,
            Message::Pong { .. } => MSG_PONG,
            Message::Subscribe { .. } => MSG_SUBSCRIBE,
            Message::Unsubscribe { .. } => MSG_UNSUBSCRIBE,
            Message::MarketUpdate { .. } => MSG_MARKETUPDATE,
        }
    }

    /// Converts the message to its wire record. A text field longer than its
    /// capacity allows is cut, not refused.
    pub fn to_wire(&self) -> (out: Vec<u8>)
        ensures
            out@ == spec_to_wire(self@),
            out@.len() == spec_wire_len(spec_message_id(self@)),
    {
        proof {
            lemma_wire_len(self@);
        }
        match self {
            Message::Ping { count } => i32_to_wire(*count),
            Message::Pong { count } => i32_to_wire(*count),
            Message::Subscribe { topic } => pack_text(topic.as_slice(), TOPIC_CAPACITY),
            Message::Unsubscribe { topic } => pack_text(topic.as_slice(), TOPIC_CAPACITY),
            Message::MarketUpdate { symbol, price_bits, timestamp, volume } => {
                let mut out: Vec<u8> = pack_text(symbol.as_slice(), SYMBOL_CAPACITY);
                let price: Vec<u8> = u64_to_le_bytes(*price_bits);
                append_bytes(&mut out, price.as_slice());
                let stamp: Vec<u8> = i64_to_wire(*timestamp);
                append_bytes(&mut out, stamp.as_slice());
                let vol: Vec<u8> = i32_to_wire(*volume);
                append_bytes(&mut out, vol.as_slice());
                out
            },
        }
    }

    /// Reads the message that a wire record holds. There is none where `id`
    /// is outside the catalog, or where the record has not the length that
    /// `id` names.
    pub fn from_wire(id: i32, bytes: &[u8]) -> (out: Option<Message>)
        ensures
            match spec_from_wire(id, bytes@) {
                Some(m) => out is Some && out.unwrap()@ == m,
                None => out is None,
            },
    {
        if id == MSG_PING {
            if bytes.len() != 4 {
                return None;
            }
            Some(Message::Ping { count: i32_from_wire(bytes) })
        } else if id == MSG_PONG {
            if bytes.len() != 4 {
                return None;
            }
            Some(Message::Pong { count: i32_from_wire(bytes) })
        } else if id == MSG_SUBSCRIBE {
            if bytes.len() != TOPIC_CAPACITY {
                return None;
            }
            Some(Message::Subscribe { topic: unpack_text(bytes) })
        } else if id == MSG_UNSUBSCRIBE {
            if bytes.len() != TOPIC_CAPACITY {
                return None;
            }
            Some(Message::Unsubscribe { topic: unpack_text(bytes) })
        } else if id == MSG_MARKETUPDATE {
            if bytes.len() != MARKETUPDATE_WIRE_LEN {
                return None;
            }
            let symbol: Vec<u8> = unpack_text(slice_subrange(bytes, 0, 8));
            let price_bits: u64 = u64_from_le_bytes(slice_subrange(bytes, 8, 16));
            let timestamp: i64 = i64_from_wire(slice_subrange(bytes, 16, 24));
            let volume: i32 = i32_from_wire(slice_subrange(bytes, 24, 28));
            Some(Message::MarketUpdate { symbol, price_bits, timestamp, volume })
        } else {
            None
        }
    }
}

} // verus!
