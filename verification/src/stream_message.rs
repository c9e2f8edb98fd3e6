//! The messages of the headless selector and their frames on the socket:
//! four bytes of length, least significant first, then the body.

pub mod error;

use vstd::prelude::*;
use vstd::string::StringExecFns;
use crate::stream_message::error::Error;
use crate::utils::{join, runtime_dir, spec_fallback_dir, spec_join};

verus! {

/// What the service asks of the selector.
#[derive(Debug)]
pub enum Request {
    /// Let the user choose one of these monitors.
    ScreenShare { monitors: Vec<String> },
}

/// What the selector answers.
#[derive(Clone, Copy, Debug, PartialEq, Eq, Structural)]
pub enum Response {
    /// The user chose the monitor at this place.
    Success { index: u32 },
    /// The user chose nothing.
    Cancel,
    /// The selector is serving another request.
    Busy,
}

/// A message that can be turned into the body of a frame and back.
pub trait SyncCodec: Sized {
    /// Reads a message from the body of a frame.
    fn read_from(body: &Vec<u8>) -> Result<Self, Error>;

    /// The body of the frame for this message.
    fn write_to(&self) -> Result<Vec<u8>, Error>;
}

/// A stream that messages are read from and written to.
pub trait SocketMessage<T: SyncCodec> {
    /// Reads the next message.
    fn read_msg(&mut self) -> Result<T, Error>;

    /// Writes a message.
    fn write_msg(&mut self, message: T) -> Result<(), Error>;
}

/// The four bytes that stand for `value`, least significant first.
pub open spec fn spec_le_bytes(value: u32) -> Seq<u8> {
    seq![
        (value & 0xff) as u8,
        ((value >> 8) & 0xff) as u8,
        ((value >> 16) & 0xff) as u8,
        ((value >> 24) & 0xff) as u8,
    ]
}

/// The number that four bytes stand for, least significant first.
pub open spec fn spec_le_value(b0: u8, b1: u8, b2: u8, b3: u8) -> u32 {
    (b0 as u32) | ((b1 as u32) << 8) | ((b2 as u32) << 16) | ((b3 as u32) << 24)
}

/// The four bytes of a number stand for that number again.
pub proof fn lemma_le_round_trip(value: u32)
    ensures
        spec_le_value(
            spec_le_bytes(value)[0],
            spec_le_bytes(value)[1],
            spec_le_bytes(value)[2],
            spec_le_bytes(value)[3],
        ) == value,
{
    assert(((value & 0xff) as u8 as u32) | ((((value >> 8) & 0xff) as u8 as u32) << 8) | ((((value
        >> 16) & 0xff) as u8 as u32) << 16) | ((((value >> 24) & 0xff) as u8 as u32) << 24)
        == value) by (bit_vector);
}

/// The number that four bytes stand for, least significant first.
pub fn announced_length(header: [u8; 4]) -> (length: u32)
    ensures
        length == spec_le_value(header[0], header[1], header[2], header[3]),
{
    (header[0] as u32) | ((header[1] as u32) << 8) | ((header[2] as u32) << 16) | ((header[3] as u32)
        << 24)
}

/// The frame for a body: its length in four bytes, then the body.
pub open spec fn spec_frame(body: Seq<u8>) -> Seq<u8> {
    spec_le_bytes(body.len() as u32) + body
}

/// What reading one frame from `bytes` gives: the body and what is left
/// after it.  `Eof` where fewer than four bytes are there; an i/o error
/// where the body is cut short.
pub enum FrameRead {
    /// A whole frame was there.
    Frame { body: Vec<u8>, rest: usize },
    /// There is no frame.
    Failed(Error),
}

/// The length that the frame at `start` announces.
pub open spec fn spec_announced(bytes: Seq<u8>, start: int) -> u32 {
    spec_le_value(bytes[start], bytes[start + 1], bytes[start + 2], bytes[start + 3])
}

/// Wraps a body into a frame.  A body of more bytes than four bytes of
/// length can tell has no frame.
pub fn encode_frame(body: &Vec<u8>) -> (frame: Result<Vec<u8>, Error>)
    ensures
        match frame {
            Ok(bytes) => body@.len() <= u32::MAX && bytes@ == spec_frame(body@),
            Err(error) => body@.len() > u32::MAX && error is Serialization,
        },
{
    if body.len() > 0xffff_ffff {
        return Err(Error::Serialization(String::from_str("message too long")));
    }
    let length: u32 = body.len() as u32;
    let mut frame: Vec<u8> = Vec::new();
    frame.push((length & 0xff) as u8);
    frame.push(((length >> 8) & 0xff) as u8);
    frame.push(((length >> 16) & 0xff) as u8);
    frame.push(((length >> 24) & 0xff) as u8);
    let mut index: usize = 0;
    while index < body.len()
        invariant
            index <= body.len(),
            frame@ == spec_le_bytes(length) + body@.take(index as int),
        decreases body.len() - index,
    {
        frame.push(body[index]);
        proof {
            assert(body@.take(index as int).push(body@[index as int]) =~= body@.take(
                index as int + 1,
            ));
            assert((spec_le_bytes(length) + body@.take(index as int)).push(body@[index as int])
                =~= spec_le_bytes(length) + body@.take(index as int + 1));
        }
        index = index + 1;
    }
    proof {
        assert(body@.take(index as int) =~= body@);
    }
    Ok(frame)
}

/// Reads the frame that begins at `start`.
pub fn decode_frame(bytes: &Vec<u8>, start: usize) -> (read: FrameRead)
    requires
        start <= bytes@.len(),
    ensures
        match read {
            FrameRead::Frame { body, rest } => {
                &&& start + 4 <= bytes@.len()
                &&& rest == start + 4 + spec_announced(bytes@, start as int)
                &&& rest <= bytes@.len()
                &&& body@ == bytes@.subrange(start + 4, rest as int)
            },
            FrameRead::Failed(error) => {
                if start + 4 > bytes@.len() {
                    error is Eof
                } else {
                    &&& error is Io
                    &&& start + 4 + spec_announced(bytes@, start as int) > bytes@.len()
                }
            },
        },
{
    if bytes.len() - start < 4 {
        return FrameRead::Failed(Error::Eof);
    }
    let b0: u8 = bytes[start];
    let b1: u8 = bytes[start + 1];
    let b2: u8 = bytes[start + 2];
    let b3: u8 = bytes[start + 3];
    let length: u32 = (b0 as u32) | ((b1 as u32) << 8) | ((b2 as u32) << 16) | ((b3 as u32) << 24);
    let available: usize = bytes.len() - start - 4;
    if length as u64 > available as u64 {
        return FrameRead::Failed(Error::Io(String::from_str("failed to fill whole buffer")));
    }
    let count: usize = length as usize;
    let first: usize = start + 4;
    let mut body: Vec<u8> = Vec::new();
    let mut index: usize = 0;
    while index < count
        invariant
            index <= count,
            first + count <= bytes@.len(),
            bytes@.len() <= usize::MAX,
            body@ == bytes@.subrange(first as int, first + index),
        decreases count - index,
    {
        body.push(bytes[first + index]);
        proof {
            assert(bytes@.subrange(first as int, first + index).push(bytes@[first + index])
                =~= bytes@.subrange(first as int, first + index + 1));
        }
        index = index + 1;
    }
    FrameRead::Frame { body, rest: first + count }
}

/// A frame that was written reads back as the body it was made of, and
/// nothing is left over.
pub proof fn lemma_frame_round_trip(body: Seq<u8>)
    requires
        body.len() <= u32::MAX,
    ensures
        spec_frame(body).len() == 4 + body.len(),
        spec_announced(spec_frame(body), 0) == body.len(),
        spec_frame(body).subrange(4, 4 + body.len() as int) == body,
{
    lemma_le_round_trip(body.len() as u32);
    assert(spec_frame(body).subrange(4, 4 + body.len() as int) =~= body);
}

/// A stream in memory: the bytes that came in, how many of them were
/// read, and the bytes that went out.
pub struct ByteStream {
    /// The bytes that came in.
    pub incoming: Vec<u8>,
    /// How many of the incoming bytes were read.
    pub read: usize,
    /// The bytes that went out.
    pub outgoing: Vec<u8>,
}

impl ByteStream {
    /// Not more was read than came in.
    pub open spec fn wf(&self) -> bool {
        self.read <= self.incoming@.len()
    }

    /// A stream with these bytes to read and nothing written.
    pub fn new(incoming: Vec<u8>) -> (stream: ByteStream)
        ensures
            stream.wf(),
            stream.incoming@ == incoming@,
            stream.read == 0,
            stream.outgoing@.len() == 0,
    {
        ByteStream { incoming, read: 0, outgoing: Vec::new() }
    }

    /// Reads the body of the next frame and moves past it.  On an error
    /// nothing is consumed.
    pub fn read_frame(&mut self) -> (body: Result<Vec<u8>, Error>)
        requires
            old(self).wf(),
        ensures
            final(self).wf(),
            final(self).incoming == old(self).incoming,
            final(self).outgoing == old(self).outgoing,
            match body {
                Ok(bytes) => {
                    &&& old(self).read + 4 <= old(self).incoming@.len()
                    &&& final(self).read == old(self).read + 4 + spec_announced(
                        old(self).incoming@,
                        old(self).read as int,
                    )
                    &&& bytes@ == old(self).incoming@.subrange(
                        old(self).read + 4,
                        final(self).read as int,
                    )
                },
                Err(error) => {
                    &&& final(self).read == old(self).read
                    &&& if old(self).read + 4 > old(self).incoming@.len() {
                        error is Eof
                    } else {
                        &&& error is Io
                        &&& old(self).read + 4 + spec_announced(
                            old(self).incoming@,
                            old(self).read as int,
                        ) > old(self).incoming@.len()
                    }
                },
            },
    {
        match decode_frame(&self.incoming, self.read) {
            FrameRead::Frame { body, rest } => {
                self.read = rest;
                Ok(body)
            },
            FrameRead::Failed(error) => Err(error),
        }
    }

    /// Writes the frame for `body`.  A body that has no frame is an error
    /// and nothing is written.
    pub fn write_frame(&mut self, body: &Vec<u8>) -> (written: Result<(), Error>)
        ensures
            final(self).incoming == old(self).incoming,
            final(self).read == old(self).read,
            match written {
                Ok(_) => body@.len() <= u32::MAX && final(self).outgoing@ == old(self).outgoing@
                    + spec_frame(body@),
                Err(error) => body@.len() > u32::MAX && error is Serialization && final(self).outgoing@ == old(self).outgoing@,
            },
    {
        match encode_frame(body) {
            Ok(mut frame) => {
                self.outgoing.append(&mut frame);
                Ok(())
            },
            Err(error) => Err(error),
        }
    }
}

/// What reading one message does to a stream.
///
/// Where fewer than four bytes are left, the stream has ended: the result
/// is `Eof` and nothing is read.  Where the body that the next four bytes
/// announce is cut short, the result is an i/o error and nothing is read.
/// Otherwise the whole frame is read, whatever its body holds, and the
/// result is what the codec makes of the body.  What came in and what went
/// out never change.
pub open spec fn spec_read_message<T>(
    before: ByteStream,
    after: ByteStream,
    message: Result<T, Error>,
) -> bool {
    let start = before.read as int;
    &&& after.incoming == before.incoming
    &&& after.outgoing == before.outgoing
    &&& if start + 4 > before.incoming@.len() {
        &&& message matches Err(error)
        &&& error is Eof
        &&& after.read == before.read
    } else if start + 4 + spec_announced(before.incoming@, start) > before.incoming@.len() {
        &&& message matches Err(error)
        &&& error is Io
        &&& after.read == before.read
    } else {
        after.read == start + 4 + spec_announced(before.incoming@, start)
    }
}

/// What writing does to a stream, given what the codec made of the
/// message.
///
/// A body whose length four bytes can tell is written as its frame, and
/// the result is `Ok`.  A longer body is an error of serialization, and an
/// error of the codec is handed on as it is; in both cases nothing is
/// written.  What came in never changes.
pub open spec fn spec_write_encoded(
    before: ByteStream,
    after: ByteStream,
    encoded: Result<Vec<u8>, Error>,
    written: Result<(), Error>,
) -> bool {
    &&& after.incoming == before.incoming
    &&& after.read == before.read
    &&& match encoded {
        Ok(body) => if body@.len() <= u32::MAX {
            &&& written.is_ok()
            &&& after.outgoing@ == before.outgoing@ + spec_frame(body@)
        } else {
            &&& written matches Err(error)
            &&& error is Serialization
            &&& after.outgoing@ == before.outgoing@
        },
        Err(error) => {
            &&& written == Err::<(), Error>(error)
            &&& after.outgoing@ == before.outgoing@
        },
    }
}

/// What writing one message does to a stream: what `spec_write_encoded`
/// says, for whatever the codec made of the message.
pub open spec fn spec_write_message(
    before: ByteStream,
    after: ByteStream,
    written: Result<(), Error>,
) -> bool {
    exists|encoded: Result<Vec<u8>, Error>| #[trigger]
        spec_write_encoded(before, after, encoded, written)
}

impl ByteStream {
    /// Reads the next frame and the message in its body.
    pub fn read_message<T: SyncCodec>(&mut self) -> (message: Result<T, Error>)
        ensures
            spec_read_message::<T>(*old(self), *final(self), message),
            old(self).wf() ==> final(self).wf(),
    {
        if self.incoming.len() < 4 || self.incoming.len() - 4 < self.read {
            return Err(Error::Eof);
        }
        match self.read_frame() {
            Ok(body) => T::read_from(&body),
            Err(error) => Err(error),
        }
    }

    /// Writes what the codec made of a message: the frame of a body, or
    /// nothing where the codec had none.
    pub fn write_encoded(&mut self, encoded: Result<Vec<u8>, Error>) -> (written: Result<(), Error>)
        ensures
            spec_write_encoded(*old(self), *final(self), encoded, written),
    {
        match encoded {
            Ok(body) => self.write_frame(&body),
            Err(error) => Err(error),
        }
    }

    /// Writes the frame for a message.
    pub fn write_message<T: SyncCodec>(&mut self, message: T) -> (written: Result<(), Error>)
        ensures
            spec_write_message(*old(self), *final(self), written),
    {
        let encoded = message.write_to();
        let ghost made = encoded;
        let written = self.write_encoded(encoded);
        proof {
            assert(spec_write_encoded(*old(self), *self, made, written));
        }
        written
    }
}

impl<T: SyncCodec> SocketMessage<T> for ByteStream {
    /// Reads the next message from the bytes that came in.
    fn read_msg(&mut self) -> (message: Result<T, Error>)
        ensures
            spec_read_message::<T>(*old(self), *final(self), message),
            old(self).wf() ==> final(self).wf(),
    {
        self.read_message()
    }

    /// Writes a message to the bytes that go out.
    fn write_msg(&mut self, message: T) -> (written: Result<(), Error>)
        ensures
            spec_write_message(*old(self), *final(self), written),
    {
        self.write_message(message)
    }
}

/// The path of the selector's socket: `luminus_selector.sock` in the
/// runtime directory that the environment names, or in `/tmp`.
pub fn server_sock(runtime_dir_from_environment: Option<String>) -> (path: String)
    ensures
        path@ == spec_join(
            match runtime_dir_from_environment {
                Some(named) => named@,
                None => spec_fallback_dir(),
            },
            "luminus_selector.sock"@,
        ),
{
    join(runtime_dir(runtime_dir_from_environment), "luminus_selector.sock")
}

} // verus!
