//! The block-exchange codec: turning a decoded wire message into the
//! requests and responses that it carries.

use vstd::prelude::*;
use crate::bytes::copy_bytes;
use crate::cid::{cid_of_bytes, Cid};

verus! {

/// Largest message that is read: two mebibytes.
pub const MAX_BUF_SIZE: usize = 1024 * 1024 * 2;

/// Wire value of a want for a whole block.
pub const WANT_BLOCK: i32 = 0;

/// Wire value of a want for the mere presence of a block.
pub const WANT_HAVE: i32 = 1;

/// Wire value of "the block is here".
pub const PRESENCE_HAVE: i32 = 0;

/// Wire value of "the block is not here".
pub const PRESENCE_DONT_HAVE: i32 = 1;

/// One entry of the want list of a wire message.
#[derive(Debug)]
pub struct WantlistEntry {
    /// The identifier of the block, in binary form.
    pub block: Vec<u8>,
    /// Whether the entry withdraws an earlier want.
    pub cancel: bool,
    pub want_type: i32,
    pub send_dont_have: bool,
}

/// One block carried by a wire message.
#[derive(Debug)]
pub struct Payload {
    /// The identifier that the payload's prefix and data give, if they give
    /// one.
    pub cid: Option<Cid>,
    pub data: Vec<u8>,
}

/// One statement of a wire message on the presence of a block.
#[derive(Debug)]
pub struct BlockPresence {
    /// The identifier of the block, in binary form.
    pub cid: Vec<u8>,
    pub presence_type: i32,
}

/// A wire message, as decoded.
#[derive(Debug)]
pub struct WireMessage {
    pub wantlist: Option<Vec<WantlistEntry>>,
    pub payload: Vec<Payload>,
    pub block_presences: Vec<BlockPresence>,
}

/// What a request asks for.
#[derive(Clone, Copy, Debug, PartialEq, Eq, Structural)]
pub enum RequestType {
    Have,
    Block,
}

#[derive(Debug)]
pub struct BitswapRequest {
    pub ty: RequestType,
    pub cid: Cid,
    pub send_dont_have: bool,
}

#[derive(Debug)]
pub enum BitswapResponse {
    Have(bool),
    Block(Vec<u8>),
}

#[derive(Debug)]
pub enum BitswapMessage {
    Request(BitswapRequest),
    Response(Cid, BitswapResponse),
}

/// What a message holds, with identifiers and data as byte sequences.
pub enum MessageModel {
    Request { ty: RequestType, cid: Seq<u8>, send_dont_have: bool },
    Have { cid: Seq<u8>, have: bool },
    Block { cid: Seq<u8>, data: Seq<u8> },
}

impl View for BitswapMessage {
    type V = MessageModel;

    open spec fn view(&self) -> MessageModel {
        match *self {
            BitswapMessage::Request(r) => MessageModel::Request {
                ty: r.ty,
                cid: r.cid@,
                send_dont_have: r.send_dont_have,
            },
            BitswapMessage::Response(cid, BitswapResponse::Have(have)) => MessageModel::Have {
                cid: cid@,
                have,
            },
            BitswapMessage::Response(cid, BitswapResponse::Block(data)) => MessageModel::Block {
                cid: cid@,
                data: data@,
            },
        }
    }
}

/// What a list of messages holds.
pub open spec fn models(messages: Seq<BitswapMessage>) -> Seq<MessageModel> {
    Seq::new(messages.len(), |i: int| messages[i]@)
}

/// Why a wire message was refused. Each variant gives the position of the
/// offending item in its list.
#[derive(Clone, Copy, Debug, PartialEq, Eq, Structural)]
pub enum DecodeError {
    /// A want that is not cancelled names no content identifier.
    WantedCid(usize),
    /// The prefix and data of a block give no content identifier.
    PayloadCid(usize),
    /// A statement of presence names no content identifier.
    PresenceCid(usize),
}

/// The request type that a wire value stands for, if any.
pub open spec fn request_type_of(want_type: i32) -> Option<RequestType> {
    if want_type == WANT_HAVE {
        Some(RequestType::Have)
    } else if want_type == WANT_BLOCK {
        Some(RequestType::Block)
    } else {
        None
    }
}

/// The presence that a wire value stands for, if any.
pub open spec fn presence_of(presence_type: i32) -> Option<bool> {
    if presence_type == PRESENCE_HAVE {
        Some(true)
    } else if presence_type == PRESENCE_DONT_HAVE {
        Some(false)
    } else {
        None
    }
}

/// The requests of a want list. Cancelled entries are passed over. Every
/// other entry must name a content identifier, and is then passed over as
/// well if its type is unknown.
pub open spec fn wanted(entries: Seq<WantlistEntry>) -> Result<Seq<MessageModel>, DecodeError>
    decreases entries.len(),
{
    if entries.len() == 0 {
        Ok(Seq::empty())
    } else {
        match wanted(entries.drop_last()) {
            Err(e) => Err(e),
            Ok(parts) => {
                let entry = entries.last();
                if entry.cancel {
                    Ok(parts)
                } else {
                    match cid_of_bytes(entry.block@) {
                        None => Err(DecodeError::WantedCid((entries.len() - 1) as usize)),
                        Some(cid) => match request_type_of(entry.want_type) {
                            Some(ty) => Ok(
                                parts.push(
                                    MessageModel::Request {
                                        ty,
                                        cid,
                                        send_dont_have: entry.send_dont_have,
                                    },
                                ),
                            ),
                            None => Ok(parts),
                        },
                    }
                }
            },
        }
    }
}

/// The blocks of a message, each under its content identifier.
pub open spec fn delivered(payload: Seq<Payload>) -> Result<Seq<MessageModel>, DecodeError>
    decreases payload.len(),
{
    if payload.len() == 0 {
        Ok(Seq::empty())
    } else {
        match delivered(payload.drop_last()) {
            Err(e) => Err(e),
            Ok(parts) => match payload.last().cid {
                None => Err(DecodeError::PayloadCid((payload.len() - 1) as usize)),
                Some(cid) => Ok(
                    parts.push(MessageModel::Block { cid: cid@, data: payload.last().data@ }),
                ),
            },
        }
    }
}

/// The statements of presence of a message. Every statement must name a
/// content identifier, and is then passed over if its type is unknown.
pub open spec fn announced(presences: Seq<BlockPresence>) -> Result<Seq<MessageModel>, DecodeError>
    decreases presences.len(),
{
    if presences.len() == 0 {
        Ok(Seq::empty())
    } else {
        match announced(presences.drop_last()) {
            Err(e) => Err(e),
            Ok(parts) => match cid_of_bytes(presences.last().cid@) {
                None => Err(DecodeError::PresenceCid((presences.len() - 1) as usize)),
                Some(cid) => match presence_of(presences.last().presence_type) {
                    Some(have) => Ok(parts.push(MessageModel::Have { cid, have })),
                    None => Ok(parts),
                },
            },
        }
    }
}

/// The entries of a want list that may be absent.
pub open spec fn entries_of(wantlist: Option<Vec<WantlistEntry>>) -> Seq<WantlistEntry> {
    match wantlist {
        Some(entries) => entries@,
        None => Seq::empty(),
    }
}

/// Everything that a wire message carries: its requests, then its blocks,
/// then its statements of presence. The first item that cannot be read, in
/// that order, makes the whole message an error.
pub open spec fn carried(message: WireMessage) -> Result<Seq<MessageModel>, DecodeError> {
    match wanted(entries_of(message.wantlist)) {
        Err(e) => Err(e),
        Ok(requests) => match delivered(message.payload@) {
            Err(e) => Err(e),
            Ok(blocks) => match announced(message.block_presences@) {
                Err(e) => Err(e),
                Ok(presences) => Ok(requests + blocks + presences),
            },
        },
    }
}

/// What a result of decoding holds.
pub open spec fn decoded(result: Result<Vec<BitswapMessage>, DecodeError>) -> Result<
    Seq<MessageModel>,
    DecodeError,
> {
    match result {
        Ok(parts) => Ok(models(parts@)),
        Err(e) => Err(e),
    }
}

/// The request type that a wire value stands for, if any.
pub fn request_type(want_type: i32) -> (ty: Option<RequestType>)
    ensures
        ty == request_type_of(want_type),
{
    if want_type == WANT_HAVE {
        Some(RequestType::Have)
    } else if want_type == WANT_BLOCK {
        Some(RequestType::Block)
    } else {
        None
    }
}

/// The presence that a wire value stands for, if any.
pub fn presence(presence_type: i32) -> (have: Option<bool>)
    ensures
        have == presence_of(presence_type),
{
    if presence_type == PRESENCE_HAVE {
        Some(true)
    } else if presence_type == PRESENCE_DONT_HAVE {
        Some(false)
    } else {
        None
    }
}

/// Reads the requests of a want list; see [`wanted`].
pub fn read_wantlist(entries: &Vec<WantlistEntry>) -> (result: Result<
    Vec<BitswapMessage>,
    DecodeError,
>)
    ensures
        decoded(result) == wanted(entries@),
{
    let mut parts: Vec<BitswapMessage> = Vec::new();
    let mut i: usize = 0;
    proof {
        assert(entries@.subrange(0, 0) =~= Seq::<WantlistEntry>::empty());
        assert(models(parts@) =~= Seq::<MessageModel>::empty());
    }
    while i < entries.len()
        invariant
            i <= entries@.len(),
            wanted(entries@.subrange(0, i as int)) == Ok::<Seq<MessageModel>, DecodeError>(
                models(parts@),
            ),
        decreases entries@.len() - i,
    {
        let entry = &entries[i];
        let ghost before = models(parts@);
        proof {
            let next = entries@.subrange(0, i + 1);
            assert(next.drop_last() =~= entries@.subrange(0, i as int));
            assert(next.last() == entries@[i as int]);
            assert(next.len() - 1 == i);
        }
        if !entry.cancel {
            match Cid::try_from_bytes(&entry.block) {
                None => {
                    proof {
                        lemma_wanted_error_stays(entries@, i + 1);
                    }
                    return Err(DecodeError::WantedCid(i));
                },
                Some(cid) => match request_type(entry.want_type) {
                    Some(ty) => {
                        parts.push(
                            BitswapMessage::Request(
                                BitswapRequest { ty, cid, send_dont_have: entry.send_dont_have },
                            ),
                        );
                        proof {
                            assert(models(parts@) =~= before.push(parts@.last()@));
                        }
                    },
                    None => {},
                },
            }
        }
        i += 1;
    }
    proof {
        assert(entries@.subrange(0, entries@.len() as int) =~= entries@);
    }
    Ok(parts)
}

/// An error in the first `n` entries of a want list is the error of the
/// whole list.
proof fn lemma_wanted_error_stays(entries: Seq<WantlistEntry>, n: int)
    requires
        0 <= n <= entries.len(),
        wanted(entries.subrange(0, n)) is Err,
    ensures
        wanted(entries) == wanted(entries.subrange(0, n)),
    decreases entries.len(),
{
    if n < entries.len() {
        let shorter = entries.drop_last();
        assert(shorter.subrange(0, n) =~= entries.subrange(0, n));
        lemma_wanted_error_stays(shorter, n);
    } else {
        assert(entries.subrange(0, n) =~= entries);
    }
}

/// An error in the first `n` blocks of a message is the error of all its
/// blocks.
proof fn lemma_delivered_error_stays(payload: Seq<Payload>, n: int)
    requires
        0 <= n <= payload.len(),
        delivered(payload.subrange(0, n)) is Err,
    ensures
        delivered(payload) == delivered(payload.subrange(0, n)),
    decreases payload.len(),
{
    if n < payload.len() {
        let shorter = payload.drop_last();
        assert(shorter.subrange(0, n) =~= payload.subrange(0, n));
        lemma_delivered_error_stays(shorter, n);
    } else {
        assert(payload.subrange(0, n) =~= payload);
    }
}

/// An error in the first `n` statements of presence is the error of all of
/// them.
proof fn lemma_announced_error_stays(presences: Seq<BlockPresence>, n: int)
    requires
        0 <= n <= presences.len(),
        announced(presences.subrange(0, n)) is Err,
    ensures
        announced(presences) == announced(presences.subrange(0, n)),
    decreases presences.len(),
{
    if n < presences.len() {
        let shorter = presences.drop_last();
        assert(shorter.subrange(0, n) =~= presences.subrange(0, n));
        lemma_announced_error_stays(shorter, n);
    } else {
        assert(presences.subrange(0, n) =~= presences);
    }
}

/// Reads the blocks of a message; see [`delivered`].
pub fn read_payload(payload: &Vec<Payload>) -> (result: Result<Vec<BitswapMessage>, DecodeError>)
    ensures
        decoded(result) == delivered(payload@),
{
    let mut parts: Vec<BitswapMessage> = Vec::new();
    let mut i: usize = 0;
    proof {
        assert(payload@.subrange(0, 0) =~= Seq::<Payload>::empty());
        assert(models(parts@) =~= Seq::<MessageModel>::empty());
    }
    while i < payload.len()
        invariant
            i <= payload@.len(),
            delivered(payload@.subrange(0, i as int)) == Ok::<Seq<MessageModel>, DecodeError>(
                models(parts@),
            ),
        decreases payload@.len() - i,
    {
        let ghost before = models(parts@);
        proof {
            let next = payload@.subrange(0, i + 1);
            assert(next.drop_last() =~= payload@.subrange(0, i as int));
            assert(next.last() == payload@[i as int]);
            assert(next.len() - 1 == i);
        }
        match &payload[i].cid {
            None => {
                proof {
                    lemma_delivered_error_stays(payload@, i + 1);
                }
                return Err(DecodeError::PayloadCid(i));
            },
            Some(cid) => {
                parts.push(
                    BitswapMessage::Response(
                        cid.duplicate(),
                        BitswapResponse::Block(copy_bytes(&payload[i].data)),
                    ),
                );
                proof {
                    assert(models(parts@) =~= before.push(parts@.last()@));
                }
            },
        }
        i += 1;
    }
    proof {
        assert(payload@.subrange(0, payload@.len() as int) =~= payload@);
    }
    Ok(parts)
}

/// Reads the statements of presence of a message; see [`announced`].
pub fn read_presences(presences: &Vec<BlockPresence>) -> (result: Result<
    Vec<BitswapMessage>,
    DecodeError,
>)
    ensures
        decoded(result) == announced(presences@),
{
    let mut parts: Vec<BitswapMessage> = Vec::new();
    let mut i: usize = 0;
    proof {
        assert(presences@.subrange(0, 0) =~= Seq::<BlockPresence>::empty());
        assert(models(parts@) =~= Seq::<MessageModel>::empty());
    }
    while i < presences.len()
        invariant
            i <= presences@.len(),
            announced(presences@.subrange(0, i as int)) == Ok::<Seq<MessageModel>, DecodeError>(
                models(parts@),
            ),
        decreases presences@.len() - i,
    {
        let ghost before = models(parts@);
        proof {
            let next = presences@.subrange(0, i + 1);
            assert(next.drop_last() =~= presences@.subrange(0, i as int));
            assert(next.last() == presences@[i as int]);
            assert(next.len() - 1 == i);
        }
        match Cid::try_from_bytes(&presences[i].cid) {
            None => {
                proof {
                    lemma_announced_error_stays(presences@, i + 1);
                }
                return Err(DecodeError::PresenceCid(i));
            },
            Some(cid) => match presence(presences[i].presence_type) {
                Some(have) => {
                    parts.push(BitswapMessage::Response(cid, BitswapResponse::Have(have)));
                    proof {
                        assert(models(parts@) =~= before.push(parts@.last()@));
                    }
                },
                None => {},
            },
        }
        i += 1;
    }
    proof {
        assert(presences@.subrange(0, presences@.len() as int) =~= presences@);
    }
    Ok(parts)
}

/// The codec of the block-exchange protocol.
#[derive(Debug, Clone, Copy)]
pub struct BitswapRequestResponseCodec;

impl BitswapRequestResponseCodec {
    /// Reads what a wire message carries; see [`carried`].
    pub fn read_request(&self, message: &WireMessage) -> (result: Result<
        Vec<BitswapMessage>,
        DecodeError,
    >)
        ensures
            decoded(result) == carried(*message),
    {
        let requests = match &message.wantlist {
            Some(entries) => read_wantlist(entries),
            None => {
                let none: Vec<WantlistEntry> = Vec::new();
                read_wantlist(&none)
            },
        };
        let mut parts = match requests {
            Ok(parts) => parts,
            Err(e) => {
                return Err(e);
            },
        };
        let mut blocks = match read_payload(&message.payload) {
            Ok(blocks) => blocks,
            Err(e) => {
                return Err(e);
            },
        };
        let mut presences = match read_presences(&message.block_presences) {
            Ok(presences) => presences,
            Err(e) => {
                return Err(e);
            },
        };
        let ghost first = models(parts@);
        let ghost second = models(blocks@);
        let ghost third = models(presences@);
        parts.append(&mut blocks);
        parts.append(&mut presences);
        proof {
            assert(models(parts@) =~= first + second + third);
        }
        Ok(parts)
    }

    /// The one message that a request sends. Sending several at once is not
    /// supported.
    pub fn outbound<'a>(&self, messages: &'a Vec<BitswapMessage>) -> (message: &'a BitswapMessage)
        requires
            messages@.len() == 1,
        ensures
            *message == messages@[0],
    {
        &messages[0]
    }
}

} // verus!
