//! Probe and reply datagrams, and their fixed binary layout.
//!
//! Every integer is little-endian:
//!
//! ```text
//! offset  size  field
//! 0       8     magic: the bytes `flytrap\0`
//! 8       8     sender
//! 16      8     recipient
//! 24      4     sequence number, never zero
//! 28      2     number of bytes after this field
//! 30      2     kind of contents: 0x10 request, 0x11 reply
//! 32      ...   the contents
//! ```
//!
//! A request holds the time it was sent (8 bytes) and the time the sender
//! last heard of the recipient (8 bytes, zero for never). A reply holds the
//! sequence number it answers (4 bytes), 4 zero bytes, the time the request
//! was sent, the time it was received, and the time the sender last heard of
//! the recipient (8 bytes each, the last zero for never).

use super::buffer::{
    clear, get_u16_le, get_u32_le, get_u64_le, len, put_u16_le, put_u32_le, put_u64_le, remaining,
    unread, written,
};
use super::seq::Sequence;
use super::time::Timestamp;
use crate::machine::MachineId;
use bytes::{Bytes, BytesMut};
use vstd::bytes::{
    spec_u16_from_le_bytes, spec_u16_to_le_bytes, spec_u32_from_le_bytes, spec_u32_to_le_bytes,
    spec_u64_from_le_bytes, spec_u64_to_le_bytes,
};
use vstd::prelude::*;
use vstd::std_specs::convert::FromSpecImpl;

verus! {

/// The bytes `flytrap\0`, read as a little-endian number.
pub const MAGIC: u64 = 0x0070_6172_7479_6c66;

/// The length of the shortest buffer that is read at all: everything up to
/// and including the kind of contents.
pub const MIN_LEN: usize = 32;

/// The kind of contents that marks a request.
pub const TYPE_REQUEST: u16 = 0x10;

/// The kind of contents that marks a reply.
pub const TYPE_REPLY: u16 = 0x11;

/// The number of bytes that a request takes after the kind of contents.
pub const REQUEST_LEN: usize = 16;

/// The number of bytes that a reply takes after the kind of contents.
pub const REPLY_LEN: usize = 32;

/// The wire field of an optional timestamp: zero for none.
pub open spec fn last_field(last: Option<Timestamp>) -> u64 {
    match last {
        Some(time) => time.0,
        None => 0,
    }
}

/// The optional timestamp that a wire field holds: none for zero.
pub open spec fn last_of(field: u64) -> Option<Timestamp> {
    if field > 0 {
        Some(Timestamp(field))
    } else {
        None
    }
}

/// A probe: the time it was sent, and the last time the sender heard of the
/// recipient.
#[derive(PartialEq, Eq, Structural, Copy, Clone, Debug)]
pub struct Request {
    pub sent: Timestamp,
    pub last: Option<Timestamp>,
}

impl Request {
    pub fn new(sent: Timestamp, last: Option<Timestamp>) -> (request: Request)
        ensures
            request == (Request { sent, last }),
    {
        Request { sent, last }
    }

    /// The bytes of a request, after the kind of contents.
    pub open spec fn encoded(self) -> Seq<u8> {
        spec_u64_to_le_bytes(self.sent.0) + spec_u64_to_le_bytes(last_field(self.last))
    }

    /// The request that 16 bytes hold.
    pub open spec fn decoded(bytes: Seq<u8>) -> Request {
        Request {
            sent: Timestamp(spec_u64_from_le_bytes(bytes.subrange(0, 8))),
            last: last_of(spec_u64_from_le_bytes(bytes.subrange(8, 16))),
        }
    }

    fn read(data: &mut Bytes) -> (request: Request)
        requires
            unread(*old(data)).len() >= REQUEST_LEN,
        ensures
            request == Request::decoded(unread(*old(data))),
            unread(*final(data)) == unread(*old(data)).skip(REQUEST_LEN as int),
    {
        let ghost bytes = unread(*data);
        let sent = get_u64_le(data);
        let last = get_u64_le(data);
        proof {
            assert(bytes.skip(8).subrange(0, 8) =~= bytes.subrange(8, 16));
            assert(bytes.skip(8).skip(8) =~= bytes.skip(16));
        }
        Request {
            sent: Timestamp::new(sent),
            last: if last > 0 {
                Some(Timestamp::new(last))
            } else {
                None
            },
        }
    }

    fn write(&self, data: &mut BytesMut)
        ensures
            written(*final(data)) == written(*old(data)) + self.encoded(),
    {
        put_u64_le(data, self.sent.into_raw());
        let last: u64 = match self.last {
            Some(time) => time.into_raw(),
            None => 0,
        };
        put_u64_le(data, last);
        assert(written(*data) =~= written(*old(data)) + self.encoded());
    }
}

/// An answer to a probe: the sequence number of the probe, the time the probe
/// was sent and the time it was received, and the last time the sender heard
/// of the recipient.
#[derive(PartialEq, Eq, Structural, Copy, Clone, Debug)]
pub struct Reply {
    pub to: Sequence,
    pub sent: Timestamp,
    pub received: Timestamp,
    pub last: Option<Timestamp>,
}

impl Reply {
    pub fn new(to: Sequence, sent: Timestamp, received: Timestamp, last: Option<Timestamp>) -> (reply:
        Reply)
        ensures
            reply == (Reply { to, sent, received, last }),
    {
        Reply { to, sent, received, last }
    }

    /// The bytes of a reply, after the kind of contents.
    pub open spec fn encoded(self) -> Seq<u8> {
        spec_u32_to_le_bytes(self.to@) + spec_u32_to_le_bytes(0) + spec_u64_to_le_bytes(
            self.sent.0,
        ) + spec_u64_to_le_bytes(self.received.0) + spec_u64_to_le_bytes(last_field(self.last))
    }

    /// The reply that 32 bytes hold: none where the sequence number is zero
    /// or the padding is not.
    pub open spec fn decoded(bytes: Seq<u8>) -> Option<Reply> {
        let to = spec_u32_from_le_bytes(bytes.subrange(0, 4));
        let padding = spec_u32_from_le_bytes(bytes.subrange(4, 8));
        if to == 0 || padding != 0 {
            None
        } else {
            Some(
                Reply {
                    to: Sequence::of(to),
                    sent: Timestamp(spec_u64_from_le_bytes(bytes.subrange(8, 16))),
                    received: Timestamp(spec_u64_from_le_bytes(bytes.subrange(16, 24))),
                    last: last_of(spec_u64_from_le_bytes(bytes.subrange(24, 32))),
                },
            )
        }
    }

    fn read(data: &mut Bytes) -> (reply: Option<Reply>)
        requires
            unread(*old(data)).len() >= REPLY_LEN,
        ensures
            reply == Reply::decoded(unread(*old(data))),
            unread(*final(data)) == unread(*old(data)).skip(REPLY_LEN as int),
    {
        let ghost bytes = unread(*data);
        let to = get_u32_le(data);
        let padding = get_u32_le(data);
        let sent = get_u64_le(data);
        let received = get_u64_le(data);
        let last = get_u64_le(data);
        proof {
            assert(bytes.skip(4).subrange(0, 4) =~= bytes.subrange(4, 8));
            assert(bytes.skip(4).skip(4) =~= bytes.skip(8));
            assert(bytes.skip(8).subrange(0, 8) =~= bytes.subrange(8, 16));
            assert(bytes.skip(8).skip(8) =~= bytes.skip(16));
            assert(bytes.skip(16).subrange(0, 8) =~= bytes.subrange(16, 24));
            assert(bytes.skip(16).skip(8) =~= bytes.skip(24));
            assert(bytes.skip(24).subrange(0, 8) =~= bytes.subrange(24, 32));
            assert(bytes.skip(24).skip(8) =~= bytes.skip(32));
        }
        if padding != 0 {
            return None;
        }
        match Sequence::receive(to) {
            Some(to) => Some(
                Reply {
                    to,
                    sent: Timestamp::new(sent),
                    received: Timestamp::new(received),
                    last: if last > 0 {
                        Some(Timestamp::new(last))
                    } else {
                        None
                    },
                },
            ),
            None => None,
        }
    }

    fn write(&self, data: &mut BytesMut)
        ensures
            written(*final(data)) == written(*old(data)) + self.encoded(),
    {
        put_u32_le(data, self.to.value());
        put_u32_le(data, 0);
        put_u64_le(data, self.sent.into_raw());
        put_u64_le(data, self.received.into_raw());
        let last: u64 = match self.last {
            Some(time) => time.into_raw(),
            None => 0,
        };
        put_u64_le(data, last);
        assert(written(*data) =~= written(*old(data)) + self.encoded());
    }
}

/// What a message carries: a probe or the answer to one.
#[derive(PartialEq, Eq, Structural, Copy, Clone, Debug)]
pub enum Contents {
    Request(Request),
    Reply(Reply),
}

impl Contents {
    /// The kind of contents, as the wire names it.
    pub open spec fn spec_discriminant(self) -> u16 {
        match self {
            Contents::Request(_) => TYPE_REQUEST,
            Contents::Reply(_) => TYPE_REPLY,
        }
    }

    /// The kind of contents, as the wire names it.
    pub fn discriminant(&self) -> (kind: u16)
        ensures
            kind == self.spec_discriminant(),
    {
        match self {
            Contents::Request(_) => TYPE_REQUEST,
            Contents::Reply(_) => TYPE_REPLY,
        }
    }

    /// The bytes of the contents: the kind, then the fields.
    pub open spec fn encoded(self) -> Seq<u8> {
        spec_u16_to_le_bytes(self.spec_discriminant()) + match self {
            Contents::Request(request) => request.encoded(),
            Contents::Reply(reply) => reply.encoded(),
        }
    }

    /// The contents that the bytes begin with, where they hold at least the
    /// kind: none for an unknown kind, for fewer bytes than the kind needs,
    /// and for a reply that is none.
    pub open spec fn decoded(bytes: Seq<u8>) -> Option<Contents> {
        let kind = spec_u16_from_le_bytes(bytes.subrange(0, 2));
        if kind == TYPE_REQUEST {
            if bytes.len() < 2 + REQUEST_LEN {
                None
            } else {
                Some(Contents::Request(Request::decoded(bytes.skip(2))))
            }
        } else if kind == TYPE_REPLY {
            if bytes.len() < 2 + REPLY_LEN {
                None
            } else {
                match Reply::decoded(bytes.skip(2)) {
                    Some(reply) => Some(Contents::Reply(reply)),
                    None => None,
                }
            }
        } else {
            None
        }
    }

    /// The number of bytes that reading the contents takes from the buffer.
    pub open spec fn consumed(bytes: Seq<u8>) -> nat {
        let kind = spec_u16_from_le_bytes(bytes.subrange(0, 2));
        if kind == TYPE_REQUEST && bytes.len() >= 2 + REQUEST_LEN {
            (2 + REQUEST_LEN) as nat
        } else if kind == TYPE_REPLY && bytes.len() >= 2 + REPLY_LEN {
            (2 + REPLY_LEN) as nat
        } else {
            2
        }
    }

    fn read(data: &mut Bytes) -> (contents: Option<Contents>)
        requires
            unread(*old(data)).len() >= 2,
        ensures
            contents == Contents::decoded(unread(*old(data))),
            unread(*final(data)) == unread(*old(data)).skip(
                Contents::consumed(unread(*old(data))) as int,
            ),
    {
        let ghost bytes = unread(*data);
        let kind = get_u16_le(data);
        if kind == TYPE_REQUEST {
            if remaining(data) < REQUEST_LEN {
                return None;
            }
            let request = Request::read(data);
            assert(bytes.skip(2).skip(REQUEST_LEN as int) =~= bytes.skip(2 + REQUEST_LEN));
            Some(Contents::Request(request))
        } else if kind == TYPE_REPLY {
            if remaining(data) < REPLY_LEN {
                return None;
            }
            let reply = Reply::read(data);
            assert(bytes.skip(2).skip(REPLY_LEN as int) =~= bytes.skip(2 + REPLY_LEN));
            match reply {
                Some(reply) => Some(Contents::Reply(reply)),
                None => None,
            }
        } else {
            None
        }
    }

    fn write(&self, data: &mut BytesMut)
        ensures
            written(*final(data)) == written(*old(data)) + self.encoded(),
    {
        put_u16_le(data, self.discriminant());
        match self {
            Contents::Request(request) => request.write(data),
            Contents::Reply(reply) => reply.write(data),
        }
        assert(written(*data) =~= written(*old(data)) + self.encoded());
    }

    /// The number of bytes that the contents take on the wire.
    pub open spec fn spec_len(self) -> u16 {
        match self {
            Contents::Request(_) => (2 + REQUEST_LEN) as u16,
            Contents::Reply(_) => (2 + REPLY_LEN) as u16,
        }
    }

    fn wire_len(&self) -> (count: u16)
        ensures
            count == self.spec_len(),
    {
        match self {
            Contents::Request(_) => 18,
            Contents::Reply(_) => 34,
        }
    }
}

impl FromSpecImpl<Request> for Contents {
    open spec fn obeys_from_spec() -> bool {
        true
    }

    open spec fn from_spec(value: Request) -> Contents {
        Contents::Request(value)
    }
}

impl From<Request> for Contents {
    fn from(value: Request) -> (contents: Contents) {
        Contents::Request(value)
    }
}

impl FromSpecImpl<Reply> for Contents {
    open spec fn obeys_from_spec() -> bool {
        true
    }

    open spec fn from_spec(value: Reply) -> Contents {
        Contents::Reply(value)
    }
}

impl From<Reply> for Contents {
    fn from(value: Reply) -> (contents: Contents) {
        Contents::Reply(value)
    }
}

/// The unit of the wire: who sends it, to whom, under which sequence number,
/// and what it carries.
#[derive(PartialEq, Eq, Structural, Copy, Clone, Debug)]
pub struct Message {
    pub from: MachineId,
    pub to: MachineId,
    pub seq: Sequence,
    pub contents: Contents,
}

impl Message {
    pub fn new(from: MachineId, to: MachineId, seq: Sequence, contents: Contents) -> (message:
        Message)
        ensures
            message == (Message { from, to, seq, contents }),
    {
        Message { from, to, seq, contents }
    }

    /// The bytes of the message on the wire.
    pub open spec fn encoded(self) -> Seq<u8> {
        spec_u64_to_le_bytes(MAGIC) + spec_u64_to_le_bytes(self.from@) + spec_u64_to_le_bytes(
            self.to@,
        ) + spec_u32_to_le_bytes(self.seq@) + spec_u16_to_le_bytes(self.contents.spec_len())
            + self.contents.encoded()
    }

    /// Whether the header that the bytes begin with is one of a message: the
    /// bytes are long enough, the magic is right, neither machine ID nor the
    /// sequence number is zero, and as many bytes follow the length as it says.
    pub open spec fn header_accepted(bytes: Seq<u8>) -> bool {
        &&& bytes.len() >= MIN_LEN
        &&& spec_u64_from_le_bytes(bytes.subrange(0, 8)) == MAGIC
        &&& spec_u64_from_le_bytes(bytes.subrange(8, 16)) != 0
        &&& spec_u64_from_le_bytes(bytes.subrange(16, 24)) != 0
        &&& spec_u32_from_le_bytes(bytes.subrange(24, 28)) != 0
        &&& spec_u16_from_le_bytes(bytes.subrange(28, 30)) <= bytes.len() - 30
    }

    /// The message that the bytes begin with, if they begin with one.
    pub open spec fn decoded(bytes: Seq<u8>) -> Option<Message> {
        if !Message::header_accepted(bytes) {
            None
        } else {
            match Contents::decoded(bytes.skip(30)) {
                Some(contents) => Some(
                    Message {
                        from: MachineId::of(spec_u64_from_le_bytes(bytes.subrange(8, 16))),
                        to: MachineId::of(spec_u64_from_le_bytes(bytes.subrange(16, 24))),
                        seq: Sequence::of(spec_u32_from_le_bytes(bytes.subrange(24, 28))),
                        contents,
                    },
                ),
                None => None,
            }
        }
    }

    /// The number of bytes that [`Message::read`] takes from the buffer: all
    /// of a message that it accepts, and of one that it rejects the fields up
    /// to the one that decided.
    pub open spec fn consumed(bytes: Seq<u8>) -> nat {
        if bytes.len() < MIN_LEN {
            0
        } else if spec_u64_from_le_bytes(bytes.subrange(0, 8)) != MAGIC {
            8
        } else if spec_u64_from_le_bytes(bytes.subrange(8, 16)) == 0 || spec_u64_from_le_bytes(
            bytes.subrange(16, 24),
        ) == 0 {
            24
        } else if !Message::header_accepted(bytes) {
            30
        } else {
            30 + Contents::consumed(bytes.skip(30))
        }
    }

    /// Read a message from the front of `data`.
    ///
    /// Nothing is returned where fewer than [`MIN_LEN`] bytes are left, the
    /// magic is wrong, a machine ID or a sequence number is zero, the length
    /// field says more than is left, the kind of contents is unknown, fewer
    /// bytes follow than the kind needs, or the padding of a reply is not zero.
    pub fn read(data: &mut Bytes) -> (message: Option<Message>)
        ensures
            message == Message::decoded(unread(*old(data))),
            unread(*final(data)) == unread(*old(data)).skip(
                Message::consumed(unread(*old(data))) as int,
            ),
    {
        let ghost bytes = unread(*data);
        assert(bytes.skip(0) =~= bytes);
        if remaining(data) < MIN_LEN {
            return None;
        }
        if get_u64_le(data) != MAGIC {
            return None;
        }
        let from = get_u64_le(data);
        let to = get_u64_le(data);
        proof {
            assert(bytes.skip(8).subrange(0, 8) =~= bytes.subrange(8, 16));
            assert(bytes.skip(8).skip(8) =~= bytes.skip(16));
            assert(bytes.skip(16).subrange(0, 8) =~= bytes.subrange(16, 24));
            assert(bytes.skip(16).skip(8) =~= bytes.skip(24));
        }
        let (from, to) = match (MachineId::from_raw(from), MachineId::from_raw(to)) {
            (Some(from), Some(to)) => (from, to),
            _ => {
                return None;
            },
        };
        let seq = get_u32_le(data);
        let length = get_u16_le(data) as usize;
        proof {
            assert(bytes.skip(24).subrange(0, 4) =~= bytes.subrange(24, 28));
            assert(bytes.skip(24).skip(4) =~= bytes.skip(28));
            assert(bytes.skip(28).subrange(0, 2) =~= bytes.subrange(28, 30));
            assert(bytes.skip(28).skip(2) =~= bytes.skip(30));
        }
        if length > remaining(data) {
            return None;
        }
        let seq = match Sequence::receive(seq) {
            Some(seq) => seq,
            None => {
                return None;
            },
        };
        let contents = Contents::read(data);
        proof {
            assert(bytes.skip(30).skip(Contents::consumed(bytes.skip(30)) as int) =~= bytes.skip(
                (30 + Contents::consumed(bytes.skip(30))) as int,
            ));
        }
        match contents {
            Some(contents) => Some(Message { from, to, seq, contents }),
            None => None,
        }
    }

    /// Write the message into `data`, in place of what `data` held, and
    /// return its length.
    pub fn write(&self, data: &mut BytesMut) -> (length: usize)
        ensures
            written(*final(data)) == self.encoded(),
            length == self.encoded().len(),
    {
        clear(data);
        put_u64_le(data, MAGIC);
        put_u64_le(data, self.from.into_raw());
        put_u64_le(data, self.to.into_raw());
        put_u32_le(data, self.seq.value());
        put_u16_le(data, self.contents.wire_len());
        self.contents.write(data);
        assert(written(*data) =~= self.encoded());
        len(data)
    }
}

/// Whether the wire can tell `last` from none: a time of zero reads back
/// as none.
pub open spec fn last_survives(last: Option<Timestamp>) -> bool {
    last != Some(Timestamp(0))
}

impl Contents {
    /// Whether reading gives back these contents: the sequence number that a
    /// reply answers is not zero, as it never is in a value that was built by
    /// [`Sequence::new`], and `last` is not a time of zero.
    pub open spec fn survives(self) -> bool {
        match self {
            Contents::Request(request) => last_survives(request.last),
            Contents::Reply(reply) => reply.to@ != 0 && last_survives(reply.last),
        }
    }
}

impl Message {
    /// Whether reading gives back this message: no machine ID and no sequence
    /// number in it is zero, as none ever is in a value that was built by the
    /// constructors, and `last` is not a time of zero.
    pub open spec fn survives(self) -> bool {
        &&& self.from@ != 0
        &&& self.to@ != 0
        &&& self.seq@ != 0
        &&& self.contents.survives()
    }
}

proof fn lemma_last_round_trip(last: Option<Timestamp>)
    requires
        last_survives(last),
    ensures
        last_of(last_field(last)) == last,
{
}

proof fn lemma_request_round_trip(request: Request, rest: Seq<u8>)
    requires
        last_survives(request.last),
    ensures
        request.encoded().len() == REQUEST_LEN,
        Request::decoded(request.encoded() + rest) == request,
{
    vstd::bytes::lemma_auto_spec_u64_to_from_le_bytes();
    let a = spec_u64_to_le_bytes(request.sent.0);
    let b = spec_u64_to_le_bytes(last_field(request.last));
    let bytes = request.encoded() + rest;
    assert(bytes.subrange(0, 8) =~= a);
    assert(bytes.subrange(8, 16) =~= b);
    lemma_last_round_trip(request.last);
}

proof fn lemma_reply_round_trip(reply: Reply, rest: Seq<u8>)
    requires
        reply.to@ != 0,
        last_survives(reply.last),
    ensures
        reply.encoded().len() == REPLY_LEN,
        Reply::decoded(reply.encoded() + rest) == Some(reply),
{
    vstd::bytes::lemma_auto_spec_u64_to_from_le_bytes();
    vstd::bytes::lemma_auto_spec_u32_to_from_le_bytes();
    let a = spec_u32_to_le_bytes(reply.to@);
    let b = spec_u32_to_le_bytes(0);
    let c = spec_u64_to_le_bytes(reply.sent.0);
    let d = spec_u64_to_le_bytes(reply.received.0);
    let e = spec_u64_to_le_bytes(last_field(reply.last));
    let bytes = reply.encoded() + rest;
    assert(bytes.subrange(0, 4) =~= a);
    assert(bytes.subrange(4, 8) =~= b);
    assert(bytes.subrange(8, 16) =~= c);
    assert(bytes.subrange(16, 24) =~= d);
    assert(bytes.subrange(24, 32) =~= e);
    lemma_last_round_trip(reply.last);
    Sequence::lemma_of(reply.to@, reply.to);
}

proof fn lemma_contents_round_trip(contents: Contents, rest: Seq<u8>)
    requires
        contents.survives(),
    ensures
        contents.encoded().len() == contents.spec_len(),
        Contents::decoded(contents.encoded() + rest) == Some(contents),
        Contents::consumed(contents.encoded() + rest) == contents.encoded().len(),
{
    vstd::bytes::lemma_auto_spec_u16_to_from_le_bytes();
    let kind = spec_u16_to_le_bytes(contents.spec_discriminant());
    let bytes = contents.encoded() + rest;
    assert(bytes.subrange(0, 2) =~= kind);
    match contents {
        Contents::Request(request) => {
            lemma_request_round_trip(request, rest);
            assert(bytes.skip(2) =~= request.encoded() + rest);
        },
        Contents::Reply(reply) => {
            lemma_reply_round_trip(reply, rest);
            assert(bytes.skip(2) =~= reply.encoded() + rest);
        },
    }
}

/// Reading what was written gives back the message that was written, whatever
/// follows it in the buffer, and takes exactly the bytes of the message.
pub proof fn lemma_round_trip(message: Message, rest: Seq<u8>)
    requires
        message.survives(),
    ensures
        Message::decoded(message.encoded() + rest) == Some(message),
        Message::consumed(message.encoded() + rest) == message.encoded().len(),
{
    vstd::bytes::lemma_auto_spec_u64_to_from_le_bytes();
    vstd::bytes::lemma_auto_spec_u32_to_from_le_bytes();
    vstd::bytes::lemma_auto_spec_u16_to_from_le_bytes();
    let a = spec_u64_to_le_bytes(MAGIC);
    let b = spec_u64_to_le_bytes(message.from@);
    let c = spec_u64_to_le_bytes(message.to@);
    let d = spec_u32_to_le_bytes(message.seq@);
    let e = spec_u16_to_le_bytes(message.contents.spec_len());
    let bytes = message.encoded() + rest;
    lemma_contents_round_trip(message.contents, rest);
    assert(bytes.subrange(0, 8) =~= a);
    assert(bytes.subrange(8, 16) =~= b);
    assert(bytes.subrange(16, 24) =~= c);
    assert(bytes.subrange(24, 28) =~= d);
    assert(bytes.subrange(28, 30) =~= e);
    assert(bytes.skip(30) =~= message.contents.encoded() + rest);
    MachineId::lemma_of(message.from@, message.from);
    MachineId::lemma_of(message.to@, message.to);
    Sequence::lemma_of(message.seq@, message.seq);
}

/// A buffer is rejected where it is shorter than the shortest message, where
/// it does not begin with the magic, and where the kind of its contents is
/// neither that of a request nor that of a reply.
pub proof fn lemma_rejects(bytes: Seq<u8>)
    requires
        bytes.len() < MIN_LEN || spec_u64_from_le_bytes(bytes.subrange(0, 8)) != MAGIC || ({
            let kind = spec_u16_from_le_bytes(bytes.subrange(30, 32));
            kind != TYPE_REQUEST && kind != TYPE_REPLY
        }),
    ensures
        Message::decoded(bytes) is None,
{
    if Message::header_accepted(bytes) {
        assert(bytes.skip(30).subrange(0, 2) =~= bytes.subrange(30, 32));
    }
}

/// A buffer whose sequence number field is zero is rejected.
pub proof fn lemma_rejects_zero_sequence(bytes: Seq<u8>)
    requires
        bytes.len() >= MIN_LEN,
        spec_u32_from_le_bytes(bytes.subrange(24, 28)) == 0,
    ensures
        Message::decoded(bytes) is None,
{
}

/// On the wire the magic is the eight bytes `flytrap\0`.
pub proof fn lemma_magic_bytes()
    ensures
        spec_u64_to_le_bytes(MAGIC) == seq![0x66u8, 0x6c, 0x79, 0x74, 0x72, 0x61, 0x70, 0x00],
{
    vstd::bytes::spec_u64_to_le_bytes_to_open(MAGIC);
    let m: u64 = MAGIC;
    assert(m & 0xff == 0x66 && (m >> 8) & 0xff == 0x6c && (m >> 16) & 0xff == 0x79 && (m >> 24)
        & 0xff == 0x74 && (m >> 32) & 0xff == 0x72 && (m >> 40) & 0xff == 0x61 && (m >> 48) & 0xff
        == 0x70 && (m >> 56) & 0xff == 0x00) by (bit_vector)
        requires
            m == 0x0070_6172_7479_6c66u64,
    ;
    assert(vstd::bytes::spec_u64_to_le_bytes_open(MAGIC) =~= seq![
        0x66u8,
        0x6c,
        0x79,
        0x74,
        0x72,
        0x61,
        0x70,
        0x00,
    ]);
}

} // verus!
