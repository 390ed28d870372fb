//! Frames: how a message travels over a byte stream.
//!
//! A frame is four bytes that mark the protocol, the length of the body as a
//! big-endian 32-bit number, and the body.
use crate::text::{concat, decimal, decimal_digits};
use vstd::prelude::*;

verus! {

/// The bytes before the body of a frame.
pub const HEADER_LEN: usize = 8;

/// How long to wait for a connection to have something to read.
pub const POLL_MILLIS: u64 = 10;

/// The number that four big-endian bytes stand for.
pub open spec fn number_of(bytes: Seq<u8>) -> int {
    bytes[0] * 0x100_0000 + bytes[1] * 0x1_0000 + bytes[2] * 0x100 + bytes[3]
}

/// The four big-endian bytes of a number.
pub open spec fn bytes_of(n: int) -> Seq<u8> {
    seq![
        (n / 0x100_0000 % 0x100) as u8,
        (n / 0x1_0000 % 0x100) as u8,
        (n / 0x100 % 0x100) as u8,
        (n % 0x100) as u8,
    ]
}

/// The four bytes of a 32-bit number stand for it.
proof fn lemma_number_of_bytes(n: int)
    requires
        0 <= n <= u32::MAX,
    ensures
        number_of(bytes_of(n)) == n,
{
}

/// The length of the body that a header announces.
pub open spec fn announced(header: Seq<u8>) -> int {
    number_of(header.subrange(4, 8))
}

/// The length of the body that a header announces.
pub fn body_length(header: &Vec<u8>) -> (r: u32)
    requires
        header@.len() >= HEADER_LEN,
    ensures
        r == announced(header@),
        r == header@[4] * 0x100_0000 + header@[5] * 0x1_0000 + header@[6] * 0x100 + header@[7],
{
    (header[4] as u32) * 0x100_0000 + (header[5] as u32) * 0x1_0000 + (header[6] as u32) * 0x100 + (
    header[7] as u32)
}

/// The frame of a body.
pub open spec fn frame_of(magic: Seq<u8>, body: Seq<u8>) -> Seq<u8> {
    magic + bytes_of(body.len() as int) + body
}

/// Why a frame cannot be made or taken apart.
#[derive(Debug, Clone, Copy, PartialEq, Eq, Structural)]
pub enum FrameError {
    /// The body has this many bytes, which is more than a message may have.
    TooLarge(usize),
    /// The bytes do not begin as a frame of this protocol does.
    BadMagic,
    /// The bytes end before the frame does, or go on after it.
    BadLength,
}

/// Whether a body may be sent.
pub open spec fn sendable(len: nat, max_message_size: usize) -> bool {
    len <= max_message_size && len <= u32::MAX
}

/// Makes the frame of a body.
pub fn encode_frame(magic: &[u8; 4], body: &Vec<u8>, max_message_size: usize) -> (r: Result<
    Vec<u8>,
    FrameError,
>)
    ensures
        sendable(body@.len(), max_message_size) ==> (r matches Ok(frame) && frame@ == frame_of(
            magic@,
            body@,
        )),
        !sendable(body@.len(), max_message_size) ==> r == Err::<Vec<u8>, FrameError>(
            FrameError::TooLarge(body@.len() as usize),
        ),
        r is Ok <==> body@.len() <= max_message_size && body@.len() <= 0xffff_ffff,
        r matches Ok(frame) ==> frame@.len() == 8 + body@.len() && frame@.subrange(0, 4) == magic@
            && frame@.skip(8) == body@ && number_of(frame@.subrange(4, 8)) == body@.len(),
{
    let len: usize = body.len();
    if len > max_message_size || len > u32::MAX as usize {
        return Err(FrameError::TooLarge(len));
    }
    let mut frame: Vec<u8> = Vec::new();
    frame.push(magic[0]);
    frame.push(magic[1]);
    frame.push(magic[2]);
    frame.push(magic[3]);
    frame.push((len / 0x100_0000 % 0x100) as u8);
    frame.push((len / 0x1_0000 % 0x100) as u8);
    frame.push((len / 0x100 % 0x100) as u8);
    frame.push((len % 0x100) as u8);
    assert(frame@ =~= magic@ + bytes_of(len as int));
    frame.extend_from_slice(body.as_slice());
    assert(frame@ =~= frame_of(magic@, body@));
    proof {
        lemma_number_of_bytes(body@.len() as int);
        assert(frame@.subrange(0, 4) =~= magic@);
        assert(frame@.subrange(4, 8) =~= bytes_of(body@.len() as int));
        assert(frame@.skip(8) =~= body@);
    }
    Ok(frame)
}

/// The body of a frame, or what is wrong with it.
pub open spec fn taken_apart(magic: Seq<u8>, frame: Seq<u8>) -> Result<Seq<u8>, FrameError> {
    if frame.len() < HEADER_LEN {
        Err(FrameError::BadLength)
    } else if frame.subrange(0, 4) != magic {
        Err(FrameError::BadMagic)
    } else if announced(frame) != frame.len() - HEADER_LEN {
        Err(FrameError::BadLength)
    } else {
        Ok(frame.subrange(8, frame.len() as int))
    }
}

/// Takes the body out of a frame.
pub fn decode_frame(magic: &[u8; 4], frame: &Vec<u8>) -> (r: Result<Vec<u8>, FrameError>)
    ensures
        match r {
            Ok(body) => taken_apart(magic@, frame@) == Ok::<Seq<u8>, FrameError>(body@),
            Err(e) => taken_apart(magic@, frame@) == Err::<Seq<u8>, FrameError>(e),
        },
{
    if frame.len() < HEADER_LEN {
        return Err(FrameError::BadLength);
    }
    if frame[0] != magic[0] || frame[1] != magic[1] || frame[2] != magic[2] || frame[3]
        != magic[3] {
        assert(frame@.subrange(0, 4)[0] != magic@[0] || frame@.subrange(0, 4)[1] != magic@[1]
            || frame@.subrange(0, 4)[2] != magic@[2] || frame@.subrange(0, 4)[3] != magic@[3]);
        return Err(FrameError::BadMagic);
    }
    assert(frame@.subrange(0, 4) =~= magic@);
    let length: u32 = body_length(frame);
    if length as usize != frame.len() - HEADER_LEN {
        return Err(FrameError::BadLength);
    }
    let mut body: Vec<u8> = Vec::new();
    let mut i: usize = HEADER_LEN;
    while i < frame.len()
        invariant
            HEADER_LEN <= i <= frame@.len(),
            body@ == frame@.subrange(8, i as int),
        decreases frame@.len() - i,
    {
        body.push(frame[i]);
        i += 1;
        assert(body@ =~= frame@.subrange(8, i as int));
    }
    Ok(body)
}

/// Why no message was received.
#[derive(Debug, Clone, Copy, PartialEq, Eq, Structural)]
pub enum ReceiveError {
    /// The other side has closed the connection between two messages.
    Closed,
    /// The message has this many bytes, which is more than a message may have.
    TooLarge(usize),
    /// The connection failed.
    Connection,
}

impl ReceiveError {
    /// The error in words, unless it is that of the connection, which speaks for
    /// itself.
    pub open spec fn words(self) -> Option<Seq<char>> {
        match self {
            ReceiveError::Closed => Some("Connection closed by peer"@),
            ReceiveError::TooLarge(length) => Some(
                "Message too large: "@ + decimal_digits(length as nat) + " bytes"@,
            ),
            ReceiveError::Connection => None,
        }
    }

    /// The error in words, unless it is that of the connection.
    pub fn text(&self) -> (r: Option<String>)
        ensures
            match r {
                Some(text) => self.words() == Some(text@),
                None => self.words() is None,
            },
    {
        match self {
            ReceiveError::Closed => Some("Connection closed by peer".to_owned()),
            ReceiveError::TooLarge(length) => {
                let head = concat("Message too large: ", decimal(*length as u64).as_str());
                Some(concat(head.as_str(), " bytes"))
            },
            ReceiveError::Connection => None,
        }
    }
}

/// What is to be done next to receive a message.
#[derive(Debug)]
pub enum ReceiveAction {
    /// Wait until there is something to read, for `POLL_MILLIS` at most.
    AwaitReadable,
    /// Read up to so many bytes, without waiting.
    TryRead(usize),
    /// Read up to so many bytes, and wait until there is at least one.
    Read(usize),
    /// A frame has arrived.
    Deliver(Vec<u8>),
    /// There is no message yet.
    Nothing,
    /// No message can be received.
    Fail(ReceiveError),
}

/// What came of the last action.
#[derive(Debug)]
pub enum ReceiveEvent {
    Readable,
    TimedOut,
    WouldBlock,
    /// These bytes were read. There are none if the other side has closed the connection.
    Read(Vec<u8>),
    Failed,
}

/// What is to be done next, by value.
pub enum ReceiveOutput {
    AwaitReadable,
    TryRead(int),
    Read(int),
    Deliver(Seq<u8>),
    Nothing,
    Fail(ReceiveError),
}

/// What came of the last action, by value.
pub enum ReceiveInput {
    Readable,
    TimedOut,
    WouldBlock,
    Read(Seq<u8>),
    Failed,
}

impl View for ReceiveAction {
    type V = ReceiveOutput;

    open spec fn view(&self) -> ReceiveOutput {
        match *self {
            ReceiveAction::AwaitReadable => ReceiveOutput::AwaitReadable,
            ReceiveAction::TryRead(n) => ReceiveOutput::TryRead(n as int),
            ReceiveAction::Read(n) => ReceiveOutput::Read(n as int),
            ReceiveAction::Deliver(frame) => ReceiveOutput::Deliver(frame@),
            ReceiveAction::Nothing => ReceiveOutput::Nothing,
            ReceiveAction::Fail(e) => ReceiveOutput::Fail(e),
        }
    }
}

impl View for ReceiveEvent {
    type V = ReceiveInput;

    open spec fn view(&self) -> ReceiveInput {
        match *self {
            ReceiveEvent::Readable => ReceiveInput::Readable,
            ReceiveEvent::TimedOut => ReceiveInput::TimedOut,
            ReceiveEvent::WouldBlock => ReceiveInput::WouldBlock,
            ReceiveEvent::Read(bytes) => ReceiveInput::Read(bytes@),
            ReceiveEvent::Failed => ReceiveInput::Failed,
        }
    }
}

/// How far the receiving of messages has come.
#[derive(Debug, Clone, Copy, PartialEq, Eq, Structural)]
pub enum ReceivePhase {
    /// A poll begins with a look at whether there is something to read.
    Polling,
    Reading,
    Failed(ReceiveError),
}

/// The receiving of messages, by value.
#[verifier::ext_equal]
pub struct ReceiverState {
    pub max_message_size: usize,
    /// Whether the connection is polled, and never waited for.
    pub polled: bool,
    pub phase: ReceivePhase,
    /// What has arrived of the next frame.
    pub arrived: Seq<u8>,
}

/// Nothing has arrived of the next frame yet.
pub open spec fn begun(max_message_size: usize, polled: bool) -> ReceiverState {
    ReceiverState {
        max_message_size,
        polled,
        phase: if polled {
            ReceivePhase::Polling
        } else {
            ReceivePhase::Reading
        },
        arrived: Seq::empty(),
    }
}

/// How many bytes are asked for next: the rest of the header, and then the rest of the
/// body that it announces.
pub open spec fn missing(arrived: Seq<u8>) -> int {
    if arrived.len() < HEADER_LEN {
        HEADER_LEN - arrived.len()
    } else {
        HEADER_LEN + announced(arrived) - arrived.len()
    }
}

/// What has arrived is a part of a frame that may be received, and not all of it.
pub open spec fn well_formed(s: ReceiverState) -> bool {
    &&& s.arrived.len() >= HEADER_LEN ==> announced(s.arrived) <= s.max_message_size
    &&& missing(s.arrived) > 0
    &&& s.phase is Polling ==> s.polled
}

/// What is to be done next.
pub open spec fn pending(s: ReceiverState) -> ReceiveOutput {
    match s.phase {
        ReceivePhase::Polling => ReceiveOutput::AwaitReadable,
        ReceivePhase::Reading => if s.polled {
            ReceiveOutput::TryRead(missing(s.arrived))
        } else {
            ReceiveOutput::Read(missing(s.arrived))
        },
        ReceivePhase::Failed(e) => ReceiveOutput::Fail(e),
    }
}

/// The receiving has failed for good.
pub open spec fn failed(s: ReceiverState, e: ReceiveError) -> (ReceiverState, ReceiveOutput) {
    (ReceiverState { phase: ReceivePhase::Failed(e), ..s }, ReceiveOutput::Fail(e))
}

/// More bytes of a frame have arrived. A frame that is too large is refused as soon as
/// its header is there. A frame that is complete is delivered, and the next one begins.
pub open spec fn joined(s: ReceiverState, bytes: Seq<u8>) -> (ReceiverState, ReceiveOutput) {
    let arrived = s.arrived + bytes;
    if arrived.len() >= HEADER_LEN && announced(arrived) > s.max_message_size {
        failed(
            begun(s.max_message_size, s.polled),
            ReceiveError::TooLarge(announced(arrived) as usize),
        )
    } else if missing(arrived) == 0 {
        (begun(s.max_message_size, s.polled), ReceiveOutput::Deliver(arrived))
    } else {
        let next = ReceiverState { arrived, ..s };
        (next, pending(next))
    }
}

/// How the receiving goes on, and what is to be done next. A poll that finds nothing
/// more to read keeps what has arrived for the next poll. A poll that finds the end of
/// the stream between two frames tells that it was closed; an end that is waited for or
/// cuts a frame short is a failure of the connection. An input that does not answer the
/// pending action changes nothing, so that the action is asked for again.
pub open spec fn advanced(s: ReceiverState, input: ReceiveInput) -> (
    ReceiverState,
    ReceiveOutput,
) {
    match (s.phase, input) {
        (ReceivePhase::Polling, ReceiveInput::Readable) => {
            let next = ReceiverState { phase: ReceivePhase::Reading, ..s };
            (next, pending(next))
        },
        (ReceivePhase::Polling, ReceiveInput::TimedOut) => (s, ReceiveOutput::Nothing),
        (ReceivePhase::Reading, ReceiveInput::WouldBlock) if s.polled => (
            ReceiverState { phase: ReceivePhase::Polling, ..s },
            ReceiveOutput::Nothing,
        ),
        (ReceivePhase::Reading, ReceiveInput::Read(bytes)) if bytes.len() == 0 => failed(
            s,
            if s.polled && s.arrived.len() == 0 {
                ReceiveError::Closed
            } else {
                ReceiveError::Connection
            },
        ),
        (ReceivePhase::Reading, ReceiveInput::Read(bytes)) if bytes.len() <= missing(
            s.arrived,
        ) => joined(s, bytes),
        (ReceivePhase::Polling | ReceivePhase::Reading, ReceiveInput::Failed) => failed(
            s,
            ReceiveError::Connection,
        ),
        _ => (s, pending(s)),
    }
}

/// The receiving of the messages of a connection, one after the other.
#[derive(Debug)]
pub struct Receiver {
    max_message_size: usize,
    polled: bool,
    phase: ReceivePhase,
    arrived: Vec<u8>,
}

impl View for Receiver {
    type V = ReceiverState;

    closed spec fn view(&self) -> ReceiverState {
        ReceiverState {
            max_message_size: self.max_message_size,
            polled: self.polled,
            phase: self.phase,
            arrived: self.arrived@,
        }
    }
}

impl Receiver {
    /// Receives messages, and waits for each as long as it takes.
    pub fn receive(max_message_size: usize) -> (r: Self)
        ensures
            r@ == begun(max_message_size, false),
            well_formed(r@),
    {
        Receiver {
            max_message_size,
            polled: false,
            phase: ReceivePhase::Reading,
            arrived: Vec::new(),
        }
    }

    /// Receives messages from a connection that is polled. What has arrived of a message
    /// when a poll ends is kept for the next one, and is not waited for.
    pub fn try_receive(max_message_size: usize) -> (r: Self)
        ensures
            r@ == begun(max_message_size, true),
            well_formed(r@),
    {
        Receiver {
            max_message_size,
            polled: true,
            phase: ReceivePhase::Polling,
            arrived: Vec::new(),
        }
    }

    /// How many bytes are asked for next.
    fn bytes_missing(&self) -> (r: usize)
        requires
            well_formed(self@),
        ensures
            r == missing(self@.arrived),
    {
        let len: usize = self.arrived.len();
        if len < HEADER_LEN {
            HEADER_LEN - len
        } else {
            let length: usize = body_length(&self.arrived) as usize;
            length - (len - HEADER_LEN)
        }
    }

    /// What is to be done next.
    pub fn action(&self) -> (r: ReceiveAction)
        requires
            well_formed(self@),
        ensures
            r@ == pending(self@),
    {
        match self.phase {
            ReceivePhase::Polling => ReceiveAction::AwaitReadable,
            ReceivePhase::Reading => {
                let n: usize = self.bytes_missing();
                if self.polled {
                    ReceiveAction::TryRead(n)
                } else {
                    ReceiveAction::Read(n)
                }
            },
            ReceivePhase::Failed(e) => ReceiveAction::Fail(e),
        }
    }

    fn fail(&mut self, e: ReceiveError) -> (r: ReceiveAction)
        ensures
            (final(self)@, r@) == failed(old(self)@, e),
    {
        self.phase = ReceivePhase::Failed(e);
        ReceiveAction::Fail(e)
    }

    fn join(&mut self, bytes: Vec<u8>) -> (r: ReceiveAction)
        requires
            well_formed(old(self)@),
            old(self)@.phase is Reading,
            0 < bytes@.len() <= missing(old(self)@.arrived),
        ensures
            (final(self)@, r@) == joined(old(self)@, bytes@),
            well_formed(final(self)@),
    {
        let ghost before = self.arrived@;
        let mut arrived: Vec<u8> = Vec::new();
        std::mem::swap(&mut arrived, &mut self.arrived);
        arrived.extend_from_slice(bytes.as_slice());
        assert(arrived@ =~= before + bytes@);
        proof {
            if before.len() >= HEADER_LEN {
                lemma_announced_by_header(before, bytes@);
            }
        }
        if arrived.len() < HEADER_LEN {
            self.arrived = arrived;
            return self.action();
        }
        let length: usize = body_length(&arrived) as usize;
        if length > self.max_message_size {
            return self.fail(ReceiveError::TooLarge(length));
        }
        if arrived.len() - HEADER_LEN == length {
            self.phase = if self.polled {
                ReceivePhase::Polling
            } else {
                ReceivePhase::Reading
            };
            ReceiveAction::Deliver(arrived)
        } else {
            self.arrived = arrived;
            self.action()
        }
    }

    /// Takes in what came of the pending action, and says what is to be done next.
    pub fn advance(&mut self, event: ReceiveEvent) -> (r: ReceiveAction)
        requires
            well_formed(old(self)@),
        ensures
            (final(self)@, r@) == advanced(old(self)@, event@),
            well_formed(final(self)@),
    {
        match (self.phase, event) {
            (ReceivePhase::Polling, ReceiveEvent::Readable) => {
                self.phase = ReceivePhase::Reading;
                self.action()
            },
            (ReceivePhase::Polling, ReceiveEvent::TimedOut) => ReceiveAction::Nothing,
            (ReceivePhase::Reading, ReceiveEvent::WouldBlock) => {
                if self.polled {
                    self.phase = ReceivePhase::Polling;
                    ReceiveAction::Nothing
                } else {
                    self.action()
                }
            },
            (ReceivePhase::Reading, ReceiveEvent::Read(bytes)) => {
                if bytes.len() == 0 {
                    if self.polled && self.arrived.len() == 0 {
                        self.fail(ReceiveError::Closed)
                    } else {
                        self.fail(ReceiveError::Connection)
                    }
                } else if bytes.len() <= self.bytes_missing() {
                    self.join(bytes)
                } else {
                    self.action()
                }
            },
            (ReceivePhase::Polling | ReceivePhase::Reading, ReceiveEvent::Failed) => self.fail(
                ReceiveError::Connection,
            ),
            _ => self.action(),
        }
    }
}

/// What a header announces does not change when more bytes arrive.
proof fn lemma_announced_by_header(arrived: Seq<u8>, bytes: Seq<u8>)
    requires
        arrived.len() >= HEADER_LEN,
    ensures
        announced(arrived + bytes) == announced(arrived),
{
    assert((arrived + bytes).subrange(4, 8) =~= arrived.subrange(4, 8));
}

/// A frame gives back the body that it was made of.
pub proof fn law_frame_round_trip(magic: Seq<u8>, body: Seq<u8>)
    requires
        magic.len() == 4,
        body.len() <= u32::MAX,
    ensures
        taken_apart(magic, frame_of(magic, body)) == Ok::<Seq<u8>, FrameError>(body),
{
    let frame = frame_of(magic, body);
    lemma_number_of_bytes(body.len() as int);
    assert(frame.subrange(0, 4) =~= magic);
    assert(frame.subrange(4, 8) =~= bytes_of(body.len() as int));
    assert(frame.subrange(8, frame.len() as int) =~= body);
}

/// Only the frame of a body is taken apart into it.
pub proof fn law_frame_is_unique(magic: Seq<u8>, frame: Seq<u8>)
    requires
        magic.len() == 4,
        taken_apart(magic, frame) is Ok,
    ensures
        frame == frame_of(magic, taken_apart(magic, frame)->Ok_0),
{
    let body = taken_apart(magic, frame)->Ok_0;
    let length = frame.subrange(4, 8);
    assert(bytes_of(number_of(length)) =~= length) by {
        let n = number_of(length);
        assert(n / 0x100_0000 == length[0]);
        assert(n / 0x1_0000 == length[0] * 0x100 + length[1]);
        assert(n / 0x100 == length[0] * 0x1_0000 + length[1] * 0x100 + length[2]);
    }
    assert(frame =~= frame.subrange(0, 4) + length + frame.subrange(8, frame.len() as int));
}

/// A connection that is polled is never waited for: whatever has arrived of a message
/// and whatever happens, nothing is asked for that waits for the other side longer than
/// one poll takes. A poll that finds no more to read ends without a message, and keeps
/// what has arrived.
pub proof fn law_poll_does_not_wait(s: ReceiverState, input: ReceiveInput)
    requires
        well_formed(s),
        s.polled,
    ensures
        !(pending(s) is Read),
        !(advanced(s, input).1 is Read),
        advanced(s, input).0.polled,
        s.phase is Reading ==> advanced(s, ReceiveInput::WouldBlock) == (
            ReceiverState { phase: ReceivePhase::Polling, ..s },
            ReceiveOutput::Nothing,
        ),
        s.phase is Polling ==> advanced(s, ReceiveInput::TimedOut) == (s, ReceiveOutput::Nothing),
{
}

/// Whether an input answers what is asked for, on a connection that does not fail.
pub open spec fn answers(s: ReceiverState, input: ReceiveInput) -> bool {
    match s.phase {
        ReceivePhase::Polling => input is Readable || input is TimedOut,
        ReceivePhase::Reading => match input {
            ReceiveInput::Read(bytes) => 0 < bytes.len() <= missing(s.arrived),
            ReceiveInput::WouldBlock => s.polled,
            _ => false,
        },
        ReceivePhase::Failed(_) => false,
    }
}

/// The receiving after inputs that follow one another, and the frames that were
/// delivered meanwhile.
pub open spec fn received(s: ReceiverState, inputs: Seq<ReceiveInput>) -> (
    ReceiverState,
    Seq<Seq<u8>>,
)
    decreases inputs.len(),
{
    if inputs.len() == 0 {
        (s, seq![])
    } else {
        let (before, delivered) = received(s, inputs.drop_last());
        let (after, output) = advanced(before, inputs.last());
        (
            after,
            match output {
                ReceiveOutput::Deliver(frame) => delivered.push(frame),
                _ => delivered,
            },
        )
    }
}

/// Whether each input answers what was asked for.
pub open spec fn answers_all(s: ReceiverState, inputs: Seq<ReceiveInput>) -> bool
    decreases inputs.len(),
{
    inputs.len() > 0 ==> {
        &&& answers_all(s, inputs.drop_last())
        &&& answers(received(s, inputs.drop_last()).0, inputs.last())
    }
}

/// The bytes that were read.
pub open spec fn bytes_read(inputs: Seq<ReceiveInput>) -> Seq<u8>
    decreases inputs.len(),
{
    if inputs.len() == 0 {
        seq![]
    } else {
        let before = bytes_read(inputs.drop_last());
        match inputs.last() {
            ReceiveInput::Read(bytes) => before + bytes,
            _ => before,
        }
    }
}

/// The frames of some bodies.
pub open spec fn frames_of(magic: Seq<u8>, bodies: Seq<Seq<u8>>) -> Seq<Seq<u8>> {
    bodies.map_values(|body: Seq<u8>| frame_of(magic, body))
}

/// Frames one after the other, as they travel.
pub open spec fn stream_of(frames: Seq<Seq<u8>>) -> Seq<u8>
    decreases frames.len(),
{
    if frames.len() == 0 {
        seq![]
    } else {
        stream_of(frames.drop_last()) + frames.last()
    }
}

/// The frames up to one, and that one, begin the stream.
proof fn lemma_stream_begins(frames: Seq<Seq<u8>>, k: int)
    requires
        0 <= k < frames.len(),
    ensures
        stream_of(frames.take(k)).len() + frames[k].len() <= stream_of(frames).len(),
        stream_of(frames).subrange(
            0,
            (stream_of(frames.take(k)).len() + frames[k].len()) as int,
        ) == stream_of(frames.take(k)) + frames[k],
    decreases frames.len(),
{
    let before = frames.drop_last();
    if k == frames.len() - 1 {
        assert(frames.take(k) =~= before);
        assert(stream_of(frames).subrange(0, stream_of(frames).len() as int) =~= stream_of(
            frames,
        ));
    } else {
        lemma_stream_begins(before, k);
        assert(before.take(k) =~= frames.take(k));
        let n = (stream_of(frames.take(k)).len() + frames[k].len()) as int;
        assert(stream_of(frames).subrange(0, n) =~= stream_of(before).subrange(0, n));
    }
}

/// What holds after each input: the bytes that were read are the frames that were
/// delivered and a part of the next one.
spec fn in_step(
    s: ReceiverState,
    delivered: Seq<Seq<u8>>,
    read: Seq<u8>,
    frames: Seq<Seq<u8>>,
) -> bool {
    let k = delivered.len() as int;
    &&& k <= frames.len()
    &&& delivered == frames.take(k)
    &&& read == stream_of(frames.take(k)) + s.arrived
    &&& k == frames.len() ==> s.arrived.len() == 0
    &&& k < frames.len() ==> s.arrived.len() < frames[k].len() && s.arrived == frames[k].take(
        s.arrived.len() as int,
    )
    &&& !(s.phase is Failed)
    &&& well_formed(s)
}

proof fn lemma_frame_announces(magic: Seq<u8>, body: Seq<u8>, arrived: Seq<u8>)
    requires
        magic.len() == 4,
        body.len() <= u32::MAX,
        HEADER_LEN <= arrived.len() <= frame_of(magic, body).len(),
        arrived == frame_of(magic, body).take(arrived.len() as int),
    ensures
        announced(arrived) == body.len(),
{
    lemma_number_of_bytes(body.len() as int);
    assert(arrived.subrange(4, 8) =~= bytes_of(body.len() as int));
}

/// More bytes of the stream keep the receiving in step with it.
#[verifier::spinoff_prover]
proof fn lemma_read_in_step(
    magic: Seq<u8>,
    bodies: Seq<Seq<u8>>,
    s: ReceiverState,
    delivered: Seq<Seq<u8>>,
    read: Seq<u8>,
    bytes: Seq<u8>,
)
    requires
        magic.len() == 4,
        forall|i: int|
            0 <= i < bodies.len() ==> sendable((#[trigger] bodies[i]).len(), s.max_message_size),
        in_step(s, delivered, read, frames_of(magic, bodies)),
        s.phase is Reading,
        0 < bytes.len() <= missing(s.arrived),
        (read + bytes).is_prefix_of(stream_of(frames_of(magic, bodies))),
    ensures
        ({
            let (after, output) = joined(s, bytes);
            let all = match output {
                ReceiveOutput::Deliver(frame) => delivered.push(frame),
                _ => delivered,
            };
            &&& in_step(after, all, read + bytes, frames_of(magic, bodies))
            &&& after.max_message_size == s.max_message_size
            &&& after.polled == s.polled
        }),
{
    let frames = frames_of(magic, bodies);
    let stream = stream_of(frames);
    let k = delivered.len() as int;
    let arrived = s.arrived + bytes;
    let done = stream_of(frames.take(k));
    let now = read + bytes;
    assert(now =~= done + arrived);
    if k == frames.len() {
        assert(frames.take(k) =~= frames);
        assert(now.len() > stream.len());
        assert(false);
    }
    let frame = frames[k];
    let body = bodies[k];
    assert(frame == frame_of(magic, body));
    lemma_stream_begins(frames, k);
    if s.arrived.len() >= HEADER_LEN {
        lemma_frame_announces(magic, body, s.arrived);
    }
    assert(arrived.len() <= frame.len());
    assert(arrived =~= frame.take(arrived.len() as int)) by {
        let whole = done + frame;
        assert forall|i: int| 0 <= i < arrived.len() implies arrived[i] == frame[i] by {
            assert(now[done.len() + i] == arrived[i]);
            assert(stream.subrange(0, now.len() as int)[done.len() + i] == stream[done.len()
                + i]);
            assert(stream.subrange(0, whole.len() as int)[done.len() + i] == whole[done.len()
                + i]);
        }
    }
    if arrived.len() >= HEADER_LEN {
        lemma_frame_announces(magic, body, arrived);
    }
    if arrived.len() == frame.len() {
        assert(arrived =~= frame);
        assert(delivered.push(frame) =~= frames.take(k + 1));
        assert(frames.take(k + 1).drop_last() =~= frames.take(k));
        assert(now =~= stream_of(frames.take(k + 1)) + Seq::<u8>::empty());
        if k + 1 < frames.len() {
            assert(frames[k + 1] == frame_of(magic, bodies[k + 1]));
            assert(frames[k + 1].take(0) =~= seq![]);
        }
    }
}

proof fn lemma_in_step(
    magic: Seq<u8>,
    bodies: Seq<Seq<u8>>,
    max_message_size: usize,
    polled: bool,
    inputs: Seq<ReceiveInput>,
)
    requires
        magic.len() == 4,
        forall|i: int|
            0 <= i < bodies.len() ==> sendable((#[trigger] bodies[i]).len(), max_message_size),
        answers_all(begun(max_message_size, polled), inputs),
        bytes_read(inputs).is_prefix_of(stream_of(frames_of(magic, bodies))),
    ensures
        ({
            let (s, delivered) = received(begun(max_message_size, polled), inputs);
            &&& in_step(s, delivered, bytes_read(inputs), frames_of(magic, bodies))
            &&& s.max_message_size == max_message_size
            &&& s.polled == polled
        }),
    decreases inputs.len(),
{
    let frames = frames_of(magic, bodies);
    let stream = stream_of(frames);
    let start = begun(max_message_size, polled);
    if inputs.len() == 0 {
        assert(frames.take(0) =~= seq![]);
        assert(stream_of(frames.take(0)) + Seq::<u8>::empty() =~= seq![]);
        if frames.len() > 0 {
            assert(frames[0].take(0) =~= seq![]);
        }
    } else {
        let earlier = inputs.drop_last();
        let read_before = bytes_read(earlier);
        let read = bytes_read(inputs);
        assert(read_before.is_prefix_of(stream)) by {
            assert(read_before =~= read.subrange(0, read_before.len() as int));
            assert(stream.subrange(0, read_before.len() as int) =~= read_before);
        }
        lemma_in_step(magic, bodies, max_message_size, polled, earlier);
        let (s, delivered) = received(start, earlier);
        match inputs.last() {
            ReceiveInput::Read(bytes) => {
                lemma_read_in_step(magic, bodies, s, delivered, read_before, bytes);
            },
            _ => {},
        }
    }
}

/// What is written is read back: when the frames of some bodies travel one after the
/// other, the frames that are delivered are the first of them, as they were sent, and
/// what has arrived beyond them is kept. Once every byte was read, every frame was
/// delivered. It does not matter in which pieces the bytes arrive, nor whether the
/// connection is polled or waited for, nor how many polls end in the midst of a frame.
pub proof fn law_read_back(
    magic: Seq<u8>,
    bodies: Seq<Seq<u8>>,
    max_message_size: usize,
    polled: bool,
    inputs: Seq<ReceiveInput>,
)
    requires
        magic.len() == 4,
        forall|i: int|
            0 <= i < bodies.len() ==> sendable((#[trigger] bodies[i]).len(), max_message_size),
        answers_all(begun(max_message_size, polled), inputs),
        bytes_read(inputs).is_prefix_of(stream_of(frames_of(magic, bodies))),
    ensures
        ({
            let frames = frames_of(magic, bodies);
            let (s, delivered) = received(begun(max_message_size, polled), inputs);
            &&& delivered.is_prefix_of(frames)
            &&& bytes_read(inputs) == stream_of(delivered) + s.arrived
            &&& delivered.len() < frames.len() ==> s.arrived.len() < frames[delivered.len() as int].len()
            &&& !(s.phase is Failed)
            &&& bytes_read(inputs) == stream_of(frames) ==> delivered == frames && s.arrived.len()
                == 0
        }),
{
    lemma_in_step(magic, bodies, max_message_size, polled, inputs);
    let frames = frames_of(magic, bodies);
    let (s, delivered) = received(begun(max_message_size, polled), inputs);
    let k = delivered.len() as int;
    assert(frames.subrange(0, k) =~= frames.take(k));
    if k < frames.len() {
        lemma_stream_begins(frames, k);
    } else {
        assert(frames.take(k) =~= frames);
    }
}

/// A header that arrives in parts changes nothing: a connection that was polled, however
/// often and in whatever pieces, has delivered the same frames as one that was waited
/// for, once the same bytes were read of both, and keeps the same part of the next one.
pub proof fn law_partial_header(
    magic: Seq<u8>,
    bodies: Seq<Seq<u8>>,
    max_message_size: usize,
    polls: Seq<ReceiveInput>,
    waits: Seq<ReceiveInput>,
)
    requires
        magic.len() == 4,
        forall|i: int|
            0 <= i < bodies.len() ==> sendable((#[trigger] bodies[i]).len(), max_message_size),
        answers_all(begun(max_message_size, true), polls),
        answers_all(begun(max_message_size, false), waits),
        bytes_read(polls) == bytes_read(waits),
        bytes_read(polls).is_prefix_of(stream_of(frames_of(magic, bodies))),
    ensures
        received(begun(max_message_size, true), polls).1 == received(
            begun(max_message_size, false),
            waits,
        ).1,
        received(begun(max_message_size, true), polls).0.arrived == received(
            begun(max_message_size, false),
            waits,
        ).0.arrived,
{
    lemma_in_step(magic, bodies, max_message_size, true, polls);
    lemma_in_step(magic, bodies, max_message_size, false, waits);
    let frames = frames_of(magic, bodies);
    let (s, delivered) = received(begun(max_message_size, true), polls);
    let (t, others) = received(begun(max_message_size, false), waits);
    let k = delivered.len() as int;
    let m = others.len() as int;
    if k < m {
        lemma_stream_begins(frames.take(m), k);
        assert(frames.take(m).take(k) =~= frames.take(k));
    } else if m < k {
        lemma_stream_begins(frames.take(k), m);
        assert(frames.take(k).take(m) =~= frames.take(m));
    }
    let done = stream_of(frames.take(k));
    assert(s.arrived =~= (done + s.arrived).skip(done.len() as int));
    assert(t.arrived =~= (done + t.arrived).skip(done.len() as int));
}

/// A message that is too large is refused by its header alone, however it arrives:
/// nothing of its body is asked for, and nothing after it is received.
pub proof fn law_oversized_is_refused(s: ReceiverState, bytes: Seq<u8>, later: ReceiveInput)
    requires
        well_formed(s),
        s.phase is Reading,
        bytes.len() > 0,
        s.arrived.len() + bytes.len() == HEADER_LEN,
        announced(s.arrived + bytes) > s.max_message_size,
    ensures
        ({
            let refusal = ReceiveOutput::Fail(
                ReceiveError::TooLarge(announced(s.arrived + bytes) as usize),
            );
            let (end, output) = advanced(s, ReceiveInput::Read(bytes));
            &&& output == refusal
            &&& advanced(end, later) == (end, refusal)
        }),
{
}

/// A frame is laid out for everyone to read: the four bytes of the protocol, the length of the
/// body with its highest byte first, and the body, with nothing between or after them.
pub proof fn law_frame_layout(magic: Seq<u8>, body: Seq<u8>)
    requires
        magic.len() == 4,
        body.len() <= 0xffff_ffff,
    ensures
        ({
            let frame = frame_of(magic, body);
            &&& frame.len() == 8 + body.len()
            &&& forall|i: int| 0 <= i < 4 ==> #[trigger] frame[i] == magic[i]
            &&& frame[4] * 0x100_0000 + frame[5] * 0x1_0000 + frame[6] * 0x100 + frame[7]
                == body.len()
            &&& forall|i: int| 0 <= i < body.len() ==> frame[8 + i] == #[trigger] body[i]
        }),
{
    lemma_number_of_bytes(body.len() as int);
    let frame = frame_of(magic, body);
    assert(frame[4] == bytes_of(body.len() as int)[0]);
    assert(frame[5] == bytes_of(body.len() as int)[1]);
    assert(frame[6] == bytes_of(body.len() as int)[2]);
    assert(frame[7] == bytes_of(body.len() as int)[3]);
}

/// A header announces the number that its last four bytes stand for, the highest first.
pub proof fn law_header_announces(header: Seq<u8>)
    requires
        header.len() >= 8,
    ensures
        announced(header) == header[4] * 0x100_0000 + header[5] * 0x1_0000 + header[6] * 0x100
            + header[7],
{
}

/// A body is sent exactly if it is no larger than a message may be and its length fits into
/// 32 bits.
pub proof fn law_what_may_be_sent(len: nat, max_message_size: usize)
    ensures
        sendable(len, max_message_size) <==> len <= max_message_size && len <= 0xffff_ffff,
        HEADER_LEN == 8,
        POLL_MILLIS == 10,
{
}

/// What is wrong with a frame is told: one that is too short for a header, or whose body does
/// not have the length that the header announces, has a wrong length; one that is long enough
/// but begins with other bytes is of another protocol; and every other one is taken apart.
pub proof fn law_broken_frames(magic: Seq<u8>, frame: Seq<u8>)
    requires
        magic.len() == 4,
    ensures
        frame.len() < 8 ==> taken_apart(magic, frame) == Err::<Seq<u8>, FrameError>(
            FrameError::BadLength,
        ),
        frame.len() >= 8 && (exists|i: int| 0 <= i < 4 && #[trigger] frame[i] != magic[i])
            ==> taken_apart(magic, frame) == Err::<Seq<u8>, FrameError>(FrameError::BadMagic),
        frame.len() >= 8 && (forall|i: int| 0 <= i < 4 ==> #[trigger] frame[i] == magic[i]) ==> {
            let length = frame[4] * 0x100_0000 + frame[5] * 0x1_0000 + frame[6] * 0x100 + frame[7];
            taken_apart(magic, frame) == (if length == frame.len() - 8 {
                Ok::<Seq<u8>, FrameError>(frame.skip(8))
            } else {
                Err(FrameError::BadLength)
            })
        },
{
    if frame.len() >= 8 {
        let start = frame.subrange(0, 4);
        if exists|i: int| 0 <= i < 4 && #[trigger] frame[i] != magic[i] {
            let i = choose|i: int| 0 <= i < 4 && #[trigger] frame[i] != magic[i];
            assert(start[i] != magic[i]);
        } else {
            assert(start =~= magic);
            assert(frame.subrange(8, frame.len() as int) =~= frame.skip(8));
        }
    }
}

/// Never more is asked for than the rest of the header, and then the rest of the body that the
/// header announces; so nothing of the next frame is read.
pub proof fn law_asks_for_the_rest(s: ReceiverState)
    requires
        well_formed(s),
        s.phase is Reading,
    ensures
        s.arrived.len() < 8 ==> missing(s.arrived) == 8 - s.arrived.len(),
        s.arrived.len() >= 8 ==> {
            let length = s.arrived[4] * 0x100_0000 + s.arrived[5] * 0x1_0000 + s.arrived[6] * 0x100
                + s.arrived[7];
            missing(s.arrived) == 8 + length - s.arrived.len()
        },
        missing(s.arrived) > 0,
        s.polled ==> pending(s) == ReceiveOutput::TryRead(missing(s.arrived)),
        !s.polled ==> pending(s) == ReceiveOutput::Read(missing(s.arrived)),
{
}

/// The end of the stream is told for what it is: where it is found by a poll between two
/// frames the connection was closed; where a frame is cut short, or a message is waited for,
/// the connection has failed. Any other failure is one of the connection.
pub proof fn law_end_of_stream(s: ReceiverState)
    requires
        well_formed(s),
        !(s.phase is Failed),
    ensures
        s.phase is Reading ==> advanced(s, ReceiveInput::Read(Seq::empty())).1
            == ReceiveOutput::Fail(
            if s.polled && s.arrived.len() == 0 {
                ReceiveError::Closed
            } else {
                ReceiveError::Connection
            },
        ),
        advanced(s, ReceiveInput::Failed).1 == ReceiveOutput::Fail(ReceiveError::Connection),
        advanced(s, ReceiveInput::Failed).0.phase is Failed,
{
}

/// A receiver that has failed stays so, and tells the same failure again.
pub proof fn law_failure_is_final(s: ReceiverState, input: ReceiveInput, e: ReceiveError)
    requires
        well_formed(s),
        s.phase == ReceivePhase::Failed(e),
    ensures
        advanced(s, input) == (s, ReceiveOutput::Fail(e)),
        pending(s) == ReceiveOutput::Fail(e),
{
}

/// A poll looks before it reads: it begins with a look at whether there is something to read,
/// reads only if there is, and is over when there is not.
pub proof fn law_poll_looks_first(s: ReceiverState)
    requires
        well_formed(s),
        s.phase is Polling,
    ensures
        pending(s) == ReceiveOutput::AwaitReadable,
        advanced(s, ReceiveInput::Readable).1 == ReceiveOutput::TryRead(missing(s.arrived)),
        advanced(s, ReceiveInput::Readable).0.arrived == s.arrived,
        advanced(s, ReceiveInput::TimedOut) == (s, ReceiveOutput::Nothing),
        begun(s.max_message_size, true).phase is Polling,
        begun(s.max_message_size, false).phase is Reading,
        begun(s.max_message_size, s.polled).arrived.len() == 0,
{
}

/// An error of the receiver is told with its own number, and only that of the connection
/// speaks for itself.
pub proof fn law_receive_errors_are_told(length: usize)
    ensures
        ReceiveError::TooLarge(length).words() == Some(
            "Message too large: "@ + decimal_digits(length as nat) + " bytes"@,
        ),
        ReceiveError::Closed.words() == Some("Connection closed by peer"@),
        ReceiveError::Connection.words() is None,
{
}

/// What was read is taken in whole, and what is delivered is handed out whole: no byte is lost
/// between the receiver and the connection.
pub proof fn law_bytes_are_taken_as_they_are(event: ReceiveEvent, action: ReceiveAction)
    ensures
        event matches ReceiveEvent::Read(bytes) ==> event@ == ReceiveInput::Read(bytes@),
        event is Readable ==> event@ is Readable,
        event is TimedOut ==> event@ is TimedOut,
        event is WouldBlock ==> event@ is WouldBlock,
        event is Failed ==> event@ is Failed,
        action matches ReceiveAction::Deliver(frame) ==> action@ == ReceiveOutput::Deliver(frame@),
        action matches ReceiveAction::TryRead(n) ==> action@ == ReceiveOutput::TryRead(n as int),
        action matches ReceiveAction::Read(n) ==> action@ == ReceiveOutput::Read(n as int),
        action matches ReceiveAction::Fail(e) ==> action@ == ReceiveOutput::Fail(e),
        action is AwaitReadable ==> action@ is AwaitReadable,
        action is Nothing ==> action@ is Nothing,
{
}

} // verus!
