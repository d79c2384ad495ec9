//! The rawsocket framing: a four-octet handshake in each direction, then
//! messages behind a four-octet header.

use crate::messages::types::Error;
use crate::text::{decimal, push_length};
use vstd::arithmetic::power2::{lemma2_to64, lemma_pow2_strictly_increases, lemma_pow2_unfold, pow2};
use vstd::prelude::*;

verus! {

const MAGIC: u8 = 0x7F;

/// The greatest message size that the handshake can announce: 16 MiB.
pub const PROTOCOL_MAX_MSG_SIZE: usize = 0x100_0000;

pub const DEFAULT_MAX_MSG_SIZE: usize = 0x10_0000;

#[derive(Debug, Clone, Copy, PartialEq, Eq, Structural)]
pub enum SerializerID {
    Json,
    Msgpack,
    Cbor,
}

impl SerializerID {
    /// The number that stands for the serializer in the handshake.
    pub open spec fn number(self) -> int {
        match self {
            SerializerID::Json => 1,
            SerializerID::Msgpack => 2,
            SerializerID::Cbor => 3,
        }
    }

    /// The serializer that a number stands for.
    pub open spec fn of_number(value: int) -> Option<SerializerID> {
        if value == 1 {
            Some(SerializerID::Json)
        } else if value == 2 {
            Some(SerializerID::Msgpack)
        } else if value == 3 {
            Some(SerializerID::Cbor)
        } else {
            None
        }
    }

    pub fn from_u8(value: u8) -> (r: Option<SerializerID>)
        ensures
            r == Self::of_number(value as int),
    {
        match value {
            1 => Some(SerializerID::Json),
            2 => Some(SerializerID::Msgpack),
            3 => Some(SerializerID::Cbor),
            _ => None,
        }
    }

    pub fn to_u8(self) -> (r: u8)
        ensures
            r == self.number(),
    {
        match self {
            SerializerID::Json => 1,
            SerializerID::Msgpack => 2,
            SerializerID::Cbor => 3,
        }
    }
}

/// What a frame carries.
#[derive(Debug, Clone, Copy, PartialEq, Eq, Structural)]
pub enum Message {
    Wamp,
    Ping,
    Pong,
}

impl Message {
    /// The number that stands for the kind of frame in the header.
    pub open spec fn number(self) -> int {
        match self {
            Message::Wamp => 0,
            Message::Ping => 1,
            Message::Pong => 2,
        }
    }

    /// The kind of frame that a number stands for.
    pub open spec fn of_number(value: int) -> Option<Message> {
        if value == 0 {
            Some(Message::Wamp)
        } else if value == 1 {
            Some(Message::Ping)
        } else if value == 2 {
            Some(Message::Pong)
        } else {
            None
        }
    }

    pub fn from_u8(value: u8) -> (r: Option<Message>)
        ensures
            r == Self::of_number(value as int),
    {
        match value {
            0 => Some(Message::Wamp),
            1 => Some(Message::Ping),
            2 => Some(Message::Pong),
            _ => None,
        }
    }

    pub fn to_u8(self) -> (r: u8)
        ensures
            r == self.number(),
    {
        match self {
            Message::Wamp => 0,
            Message::Ping => 1,
            Message::Pong => 2,
        }
    }
}

#[derive(Debug)]
pub struct Handshake {
    serializer_id: SerializerID,
    max_message_size: usize,
}

/// The model of a [`Handshake`].
pub struct HandshakeView {
    pub serializer_id: SerializerID,
    pub max_message_size: int,
}

impl View for Handshake {
    type V = HandshakeView;

    closed spec fn view(&self) -> HandshakeView {
        HandshakeView {
            serializer_id: self.serializer_id,
            max_message_size: self.max_message_size as int,
        }
    }
}

impl Handshake {
    pub fn new(serializer: SerializerID, max_message_size: usize) -> (r: Self)
        ensures
            r@ == (HandshakeView {
                serializer_id: serializer,
                max_message_size: max_message_size as int,
            }),
    {
        Handshake { serializer_id: serializer, max_message_size }
    }

    pub fn serializer_id(&self) -> (r: SerializerID)
        ensures
            r == self@.serializer_id,
    {
        self.serializer_id
    }

    pub fn max_message_size(&self) -> (r: usize)
        ensures
            r == self@.max_message_size,
    {
        self.max_message_size
    }
}

/// Whether a message size can be announced: a power of two from 512
/// octets to 16 MiB.
pub open spec fn is_legal_size(size: int) -> bool {
    exists|e: nat| 9 <= e <= 24 && size == pow2(e)
}

/// The exponent of a legal size.
pub open spec fn exponent(size: int) -> nat {
    choose|e: nat| 9 <= e <= 24 && size == pow2(e)
}

/// What a handshake is sent as: the magic octet, an octet with the
/// exponent of the size above 9 in its high half and the number of the
/// serializer in its low half, and two zero octets; or the text of the
/// error for a size that cannot be announced.
pub open spec fn handshake_octets(hs: HandshakeView) -> Result<Seq<u8>, Seq<char>> {
    if hs.max_message_size > 0x100_0000 {
        Err("max_message_size must not be more than 16 megabytes"@)
    } else if !is_legal_size(hs.max_message_size) {
        Err("max_message_size must be a power of 2 and >= 512"@)
    } else {
        Ok(
            seq![
                0x7Fu8,
                ((exponent(hs.max_message_size) - 9) * 16 + hs.serializer_id.number()) as u8,
                0u8,
                0u8,
            ],
        )
    }
}

/// What four or other octets are received as: a handshake, or the text of
/// the error.
pub open spec fn handshake_of(data: Seq<u8>) -> Result<HandshakeView, Seq<char>> {
    if data.len() != 4 {
        Err("expected 4 bytes for handshake response, got "@ + decimal(data.len() as int))
    } else if data[0] != 0x7F {
        Err("expected MAGIC, got "@ + decimal(data[0] as int))
    } else if data[2] != 0 || data[3] != 0 {
        Err(
            "expected 0x00 for third and fourth byte, got "@ + decimal(data[2] as int) + " and "@
                + decimal(data[3] as int),
        )
    } else {
        match SerializerID::of_number(data[1] as int % 16) {
            Some(serializer) => Ok(
                HandshakeView {
                    serializer_id: serializer,
                    max_message_size: pow2((data[1] as int / 16 + 9) as nat) as int,
                },
            ),
            None => Err("got invalid serializer byte"@),
        }
    }
}

/// A legal size has one exponent.
pub proof fn lemma_exponent(size: int, e: nat)
    requires
        9 <= e <= 24,
        size == pow2(e),
    ensures
        is_legal_size(size),
        exponent(size) == e,
{
    let chosen = exponent(size);
    if chosen < e {
        lemma_pow2_strictly_increases(chosen, e);
    } else if e < chosen {
        lemma_pow2_strictly_increases(e, chosen);
    }
}

/// Every handshake with a legal size is sent as four octets from which
/// the same handshake is received.
pub proof fn handshake_round_trip(hs: HandshakeView)
    requires
        is_legal_size(hs.max_message_size),
    ensures
        handshake_octets(hs) is Ok,
        handshake_of(handshake_octets(hs)->Ok_0) == Ok::<HandshakeView, Seq<char>>(hs),
{
    let e = exponent(hs.max_message_size);
    lemma_pow2_strictly_increases(e, 25);
    lemma2_to64();
    assert(pow2(24) == 0x100_0000);
    if e < 24 {
        lemma_pow2_strictly_increases(e, 24);
    }
    let id = hs.serializer_id.number();
    let b1 = (e - 9) * 16 + id;
    assert(0 <= b1 < 256);
    assert(b1 % 16 == id);
    assert(b1 / 16 == e - 9);
}

/// The four octets that announce `hs`.
pub fn send_handshake(hs: &Handshake) -> (r: Result<Vec<u8>, Error>)
    ensures
        match r {
            Ok(data) => handshake_octets(hs@) == Ok::<Seq<u8>, Seq<char>>(data@),
            Err(e) => handshake_octets(hs@) == Err::<Seq<u8>, Seq<char>>(e.message@),
        },
{
    if hs.max_message_size() > PROTOCOL_MAX_MSG_SIZE {
        return Err(Error::text("max_message_size must not be more than 16 megabytes"));
    }
    let size = hs.max_message_size();
    let mut log2: u8 = 0;
    let mut power: usize = 1;
    proof {
        lemma2_to64();
    }
    while power < size
        invariant
            log2 <= 24,
            power == pow2(log2 as nat),
            size <= 0x100_0000,
            power < size ==> log2 < 24,
            forall|e: nat| e < log2 ==> pow2(e) < size,
        decreases 24 - log2,
    {
        proof {
            lemma2_to64();
            lemma_pow2_unfold((log2 + 1) as nat);
            assert(pow2(24) == 0x100_0000);
            if log2 + 1 < 24 {
                lemma_pow2_strictly_increases((log2 + 1) as nat, 24);
            }
            assert forall|e: nat| e < log2 + 1 implies pow2(e) < size by {
                if e < log2 {
                } else {
                    assert(e == log2);
                }
            }
        }
        power = power * 2;
        log2 = log2 + 1;
    }
    if power != size || log2 < 9 {
        proof {
            if is_legal_size(size as int) {
                let e = exponent(size as int);
                if e < log2 {
                    assert(pow2(e) < size);
                } else if e > log2 {
                    lemma_pow2_strictly_increases(log2 as nat, e);
                }
            }
        }
        return Err(Error::text("max_message_size must be a power of 2 and >= 512"));
    }
    proof {
        lemma_exponent(size as int, log2 as nat);
    }
    let high: u8 = log2 - 9;
    let low: u8 = hs.serializer_id().to_u8();
    assert(((high << 4) | (low & 0x0F)) == high * 16 + low) by (bit_vector)
        requires
            high < 16,
            low < 16,
    ;
    let b1 = (high << 4) | (low & 0x0F);
    let data = vec![MAGIC, b1, 0x00, 0x00];
    assert(data@ =~= handshake_octets(hs@)->Ok_0);
    Ok(data)
}

/// Reads the four octets of a handshake.
pub fn receive_handshake(data: &[u8]) -> (r: Result<Handshake, Error>)
    ensures
        match r {
            Ok(hs) => handshake_of(data@) == Ok::<HandshakeView, Seq<char>>(hs@),
            Err(e) => handshake_of(data@) == Err::<HandshakeView, Seq<char>>(e.message@),
        },
{
    if data.len() != 4 {
        let mut message = String::from_str("expected 4 bytes for handshake response, got ");
        push_length(&mut message, data.len());
        return Err(Error::new(message));
    }
    if data[0] != MAGIC {
        let mut message = String::from_str("expected MAGIC, got ");
        push_length(&mut message, data[0] as usize);
        return Err(Error::new(message));
    }
    if data[2] != 0x00 || data[3] != 0x00 {
        let mut message = String::from_str("expected 0x00 for third and fourth byte, got ");
        push_length(&mut message, data[2] as usize);
        message.append(" and ");
        push_length(&mut message, data[3] as usize);
        return Err(Error::new(message));
    }
    let b1 = data[1];
    assert(b1 & 0x0F == b1 % 16) by (bit_vector);
    assert(b1 >> 4 == b1 / 16) by (bit_vector);
    match SerializerID::from_u8(b1 & 0x0F) {
        Some(serializer) => {
            let size_shift: u8 = (b1 >> 4) + 9;
            let mut max_message_size: usize = 1;
            let mut i: u8 = 0;
            proof {
                lemma2_to64();
            }
            while i < size_shift
                invariant
                    i <= size_shift <= 24,
                    max_message_size == pow2(i as nat),
                    max_message_size <= 0x100_0000,
                decreases size_shift - i,
            {
                proof {
                    lemma2_to64();
                    lemma_pow2_unfold((i + 1) as nat);
                    assert(pow2(24) == 0x100_0000);
                    if i + 1 < 24 {
                        lemma_pow2_strictly_increases((i + 1) as nat, 24);
                    }
                }
                max_message_size = max_message_size * 2;
                i = i + 1;
            }
            Ok(Handshake::new(serializer, max_message_size))
        },
        None => Err(Error::text("got invalid serializer byte")),
    }
}

#[derive(Debug)]
pub struct MessageHeader {
    kind: Message,
    length: usize,
}

/// The model of a [`MessageHeader`].
pub struct MessageHeaderView {
    pub kind: Message,
    pub length: int,
}

impl View for MessageHeader {
    type V = MessageHeaderView;

    closed spec fn view(&self) -> MessageHeaderView {
        MessageHeaderView { kind: self.kind, length: self.length as int }
    }
}

impl MessageHeader {
    pub fn new(kind: Message, length: usize) -> (r: Self)
        ensures
            r@ == (MessageHeaderView { kind, length: length as int }),
    {
        MessageHeader { kind, length }
    }

    pub fn kind(&self) -> (r: Message)
        ensures
            r == self@.kind,
    {
        self.kind
    }

    pub fn length(&self) -> (r: usize)
        ensures
            r == self@.length,
    {
        self.length
    }
}

/// The three octets of a length, most significant first. Of a length of
/// 16 MiB or more only what is below 16 MiB is kept.
pub open spec fn length_octets(length: int) -> Seq<u8> {
    seq![
        ((length / 0x1_0000) % 0x100) as u8,
        ((length / 0x100) % 0x100) as u8,
        (length % 0x100) as u8,
    ]
}

/// The length that octets stand for, most significant first.
pub open spec fn length_of(octets: Seq<u8>) -> int
    decreases octets.len(),
{
    if octets.len() == 0 {
        0
    } else {
        length_of(octets.drop_last()) * 0x100 + octets.last()
    }
}

/// What a header is sent as: the number of its kind, then its length.
pub open spec fn header_octets(header: MessageHeaderView) -> Seq<u8> {
    seq![header.kind.number() as u8] + length_octets(header.length)
}

/// What four or other octets are received as: a header, or the text of the
/// error.
pub open spec fn header_of(data: Seq<u8>) -> Result<MessageHeaderView, Seq<char>> {
    if data.len() != 4 {
        Err("expected 4 bytes for message header"@)
    } else {
        match Message::of_number(data[0] as int) {
            Some(kind) => Ok(MessageHeaderView { kind, length: length_of(data.subrange(1, 4)) }),
            None => Err("received invalid message type"@),
        }
    }
}

/// The length that three octets stand for.
pub proof fn lemma_length_of_three(octets: Seq<u8>)
    requires
        octets.len() == 3,
    ensures
        length_of(octets) == octets[0] * 0x1_0000 + octets[1] * 0x100 + octets[2],
{
    let two = octets.drop_last();
    let one = two.drop_last();
    assert(one.drop_last().len() == 0);
    assert(length_of(one) == length_of(one.drop_last()) * 0x100 + one.last());
    assert(length_of(two) == length_of(one) * 0x100 + two.last());
}

/// Every header with a length below 16 MiB is sent as four octets from
/// which the same header is received.
pub proof fn header_round_trip(header: MessageHeaderView)
    requires
        0 <= header.length < 0x100_0000,
    ensures
        header_of(header_octets(header)) == Ok::<MessageHeaderView, Seq<char>>(header),
{
    let data = header_octets(header);
    assert(data.subrange(1, 4) =~= length_octets(header.length));
    lemma_length_of_three(length_octets(header.length));
}

/// The four octets of a frame header.
pub fn send_message_header(header: &MessageHeader) -> (r: Vec<u8>)
    ensures
        r@ == header_octets(header@),
{
    let bytes = int_to_bytes(header.length());
    let data = vec![header.kind().to_u8(), bytes[0], bytes[1], bytes[2]];
    assert(data@ =~= header_octets(header@));
    data
}

/// Reads the four octets of a frame header.
pub fn receive_message_header(data: &[u8]) -> (r: Result<MessageHeader, Error>)
    ensures
        match r {
            Ok(header) => header_of(data@) == Ok::<MessageHeaderView, Seq<char>>(header@),
            Err(e) => header_of(data@) == Err::<MessageHeaderView, Seq<char>>(e.message@),
        },
{
    if data.len() != 4 {
        return Err(Error::text("expected 4 bytes for message header"));
    }
    match Message::from_u8(data[0]) {
        Some(kind) => {
            let length = bytes_to_int(data, 1, 4);
            Ok(MessageHeader::new(kind, length))
        },
        None => Err(Error::text("received invalid message type")),
    }
}

fn int_to_bytes(i: usize) -> (r: [u8; 3])
    ensures
        r@ == length_octets(i as int),
{
    let wide = i as u64;
    assert(((wide >> 16) & 0xFF) == (wide / 0x1_0000) % 0x100) by (bit_vector);
    assert(((wide >> 8) & 0xFF) == (wide / 0x100) % 0x100) by (bit_vector);
    assert((wide & 0xFF) == wide % 0x100) by (bit_vector);
    let r = [((wide >> 16) & 0xFF) as u8, ((wide >> 8) & 0xFF) as u8, (wide & 0xFF) as u8];
    assert(r@ =~= length_octets(i as int));
    r
}

fn bytes_to_int(b: &[u8], from: usize, to: usize) -> (r: usize)
    requires
        from <= to <= b@.len(),
        to - from <= 3,
    ensures
        r == length_of(b@.subrange(from as int, to as int)),
{
    let mut acc: usize = 0;
    let mut i: usize = from;
    while i < to
        invariant
            from <= i <= to <= b@.len(),
            to - from <= 3,
            acc == length_of(b@.subrange(from as int, i as int)),
            i - from == 0 ==> acc == 0,
            i - from == 1 ==> acc < 0x100,
            i - from == 2 ==> acc < 0x1_0000,
        decreases to - i,
    {
        proof {
            assert(b@.subrange(from as int, i + 1).drop_last() =~= b@.subrange(
                from as int,
                i as int,
            ));
        }
        let byte = b[i] as usize;
        assert((acc << 8) | byte == acc * 0x100 + byte) by (bit_vector)
            requires
                acc < 0x1_0000,
                byte < 0x100,
        ;
        acc = (acc << 8) | byte;
        i += 1;
    }
    acc
}

} // verus!
