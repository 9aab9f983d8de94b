//! A track downloaded while it plays. The decoder reads from the front of one buffer while the
//! response keeps filling the back, so playback starts after a short preroll instead of after
//! the whole file.
//!
//! Everything here is a decision on the state of the download: what an arrival does to it, and
//! what a reader is answered. Waiting, locking and the connection belong to the caller, who asks
//! again whenever an answer is `Step::Wait`.

use vstd::prelude::*;

verus! {

/// How much has to be in before the decoder is let loose on the buffer. At any ordinary
/// bitrate this is several seconds of audio, and the download outruns playback many times
/// over, so the lead only grows from here.
pub const PREROLL: usize = 262144;

/// How many seconds a read waits for bytes that have not arrived. The decoder is pulled on the
/// audio thread, so a wait there is silence: bounded, because a dead connection must not hold
/// the output for the rest of the session.
pub const PATIENCE_SECS: u64 = 20;

/// What a stream can fail with.
#[derive(Clone, Copy, Debug, PartialEq, Eq, Structural)]
pub enum StreamError {
    /// The download failed before the preroll was in.
    BrokeEarly,
    /// The download failed, and every byte that did arrive has been read.
    Broke,
    /// The wait of a read ran out of patience.
    Stalled,
    /// The target of a seek lies before the first byte.
    BeforeStart,
}

/// The class of I/O error that a `StreamError` is reported as.
#[derive(Clone, Copy, Debug, PartialEq, Eq, Structural)]
pub enum ErrorClass {
    Other,
    TimedOut,
    InvalidInput,
}

impl StreamError {
    pub open spec fn message_spec(self) -> Seq<char> {
        match self {
            StreamError::BrokeEarly => "the stream broke before playback could start"@,
            StreamError::Broke => "the stream broke"@,
            StreamError::Stalled => "the stream stopped arriving"@,
            StreamError::BeforeStart => "cannot seek before the start"@,
        }
    }

    pub fn message(&self) -> (text: &'static str)
        ensures
            text@ == self.message_spec(),
    {
        match self {
            StreamError::BrokeEarly => "the stream broke before playback could start",
            StreamError::Broke => "the stream broke",
            StreamError::Stalled => "the stream stopped arriving",
            StreamError::BeforeStart => "cannot seek before the start",
        }
    }

    pub fn class(&self) -> (class: ErrorClass)
        ensures
            class == (match *self {
                StreamError::Stalled => ErrorClass::TimedOut,
                StreamError::BeforeStart => ErrorClass::InvalidInput,
                _ => ErrorClass::Other,
            }),
    {
        match self {
            StreamError::Stalled => ErrorClass::TimedOut,
            StreamError::BeforeStart => ErrorClass::InvalidInput,
            _ => ErrorClass::Other,
        }
    }
}

/// The answer to a question that may have to wait for more of the download.
#[derive(Debug, PartialEq, Eq)]
pub enum Step<T> {
    Ready(T),
    Wait,
}

/// Why a question is asked: for the first time or because the download moved on, or because
/// the wait before it ran out of patience.
#[derive(Clone, Copy, Debug, PartialEq, Eq, Structural)]
pub enum Wake {
    Moved,
    TimedOut,
}

/// Where a seek goes.
#[derive(Clone, Copy, Debug, PartialEq, Eq, Structural)]
pub enum SeekFrom {
    Start(u64),
    Current(i64),
    End(i64),
}

/// What the connection hands over.
pub enum Event<'a> {
    Chunk(&'a [u8]),
    End,
    Broke,
}

/// What the download does after an event.
#[derive(Clone, Copy, Debug, PartialEq, Eq, Structural)]
pub enum Pumped {
    /// Carry on; this many bytes are in.
    Progress(usize),
    /// There is nothing more to come.
    Stopped,
}

/// An `Event` as a value.
pub enum Arrival {
    Chunk(Seq<u8>),
    End,
    Broke,
}

impl<'a> View for Event<'a> {
    type V = Arrival;

    open spec fn view(&self) -> Arrival {
        match *self {
            Event::Chunk(chunk) => Arrival::Chunk(chunk@),
            Event::End => Arrival::End,
            Event::Broke => Arrival::Broke,
        }
    }
}

/// The state of a download: the bytes that are in, the length the server announced, whether the
/// download is over, and whether it ended by breaking.
#[verifier::ext_equal]
pub struct Body {
    pub bytes: Seq<u8>,
    pub total: Option<u64>,
    pub done: bool,
    pub failed: bool,
}

pub open spec fn two_to_64() -> int {
    0x1_0000_0000_0000_0000
}

impl Body {
    /// A download of which nothing has arrived.
    pub open spec fn fresh(total: Option<u64>) -> Body {
        Body { bytes: Seq::empty(), total, done: false, failed: false }
    }

    /// Only a download that is over has failed.
    pub open spec fn valid(self) -> bool {
        self.failed ==> self.done
    }

    pub open spec fn finished(self, failed: bool) -> Body {
        Body { bytes: self.bytes, total: self.total, done: true, failed }
    }

    /// The state after one arrival.
    pub open spec fn after(self, arrival: Arrival) -> Body {
        match arrival {
            Arrival::Chunk(chunk) => Body {
                bytes: self.bytes + chunk,
                total: self.total,
                done: self.done,
                failed: self.failed,
            },
            Arrival::End => self.finished(false),
            Arrival::Broke => self.finished(true),
        }
    }

    /// How many bytes have to be in before playback starts: the preroll, or the whole body
    /// where the server announced less.
    pub open spec fn wanted(self) -> nat {
        match self.total {
            Some(total) if total < PREROLL => total as nat,
            _ => PREROLL as nat,
        }
    }

    /// Whether opening is over, when `len` bytes were last reported in and `closed` says that no
    /// more reports come, and how it ends.
    pub open spec fn open_step(self, len: nat, closed: bool) -> Step<Result<(), StreamError>> {
        if len < self.wanted() && !self.done && !closed {
            Step::Wait
        } else if self.failed {
            Step::Ready(Err(StreamError::BrokeEarly))
        } else {
            Step::Ready(Ok(()))
        }
    }

    /// How many bytes a read with `room` takes at `at`.
    pub open spec fn available(self, at: nat, room: nat) -> nat {
        if at >= self.bytes.len() {
            0
        } else if room < self.bytes.len() - at {
            room
        } else {
            (self.bytes.len() - at) as nat
        }
    }

    /// The bytes that such a read takes.
    pub open spec fn taken(self, at: nat, room: nat) -> Seq<u8> {
        if at >= self.bytes.len() {
            Seq::empty()
        } else {
            self.bytes.subrange(at as int, (at + self.available(at, room)) as int)
        }
    }

    /// What a read at `at` with `room` bytes of space is answered.
    pub open spec fn read_step(self, at: nat, room: nat, wake: Wake) -> Step<
        Result<nat, StreamError>,
    > {
        if wake == Wake::TimedOut {
            Step::Ready(Err(StreamError::Stalled))
        } else if at < self.bytes.len() {
            Step::Ready(Ok(self.available(at, room)))
        } else if self.failed {
            Step::Ready(Err(StreamError::Broke))
        } else if self.done {
            Step::Ready(Ok(0))
        } else {
            Step::Wait
        }
    }

    /// The end of the body: the announced length; without one the final length once the download
    /// ends, or what is in when patience has run out.
    pub open spec fn end_step(self, wake: Wake) -> Step<nat> {
        if self.total is Some {
            Step::Ready(self.total->0 as nat)
        } else if self.done || wake == Wake::TimedOut {
            Step::Ready(self.bytes.len())
        } else {
            Step::Wait
        }
    }

    /// The byte a seek from `at` aims for.
    pub open spec fn seek_target(self, at: nat, pos: SeekFrom, wake: Wake) -> Step<int> {
        match pos {
            SeekFrom::Start(offset) => Step::Ready(offset as int),
            SeekFrom::Current(delta) => Step::Ready(at + delta),
            SeekFrom::End(delta) => match self.end_step(wake) {
                Step::Ready(end) => Step::Ready(end + delta),
                Step::Wait => Step::Wait,
            },
        }
    }

    /// What a seek from `at` is answered. A target past the largest position wraps around.
    pub open spec fn seek_step(self, at: nat, pos: SeekFrom, wake: Wake) -> Step<
        Result<nat, StreamError>,
    > {
        match self.seek_target(at, pos, wake) {
            Step::Wait => Step::Wait,
            Step::Ready(target) => if target < 0 {
                Step::Ready(Err(StreamError::BeforeStart))
            } else {
                Step::Ready(Ok((target % two_to_64()) as nat))
            },
        }
    }
}

/// The answer of a read as a value.
pub open spec fn counted(step: Step<Result<usize, StreamError>>) -> Step<Result<nat, StreamError>> {
    match step {
        Step::Ready(Ok(count)) => Step::Ready(Ok(count as nat)),
        Step::Ready(Err(error)) => Step::Ready(Err(error)),
        Step::Wait => Step::Wait,
    }
}

/// A seek that aims for `target` is answered so: refused before the first byte, exact up to the
/// largest position, and counted from the start again past it.
pub open spec fn lands(step: Step<Result<u64, StreamError>>, target: int) -> bool {
    &&& target < 0 ==> step == Step::Ready(Err::<u64, StreamError>(StreamError::BeforeStart))
    &&& 0 <= target <= u64::MAX ==> step is Ready && step->Ready_0 is Ok && step->Ready_0->Ok_0
        == target
    &&& u64::MAX < target ==> step is Ready && step->Ready_0 is Ok && step->Ready_0->Ok_0 == target
        - u64::MAX - 1
}

/// The answer of a seek as a value.
pub open spec fn positioned(step: Step<Result<u64, StreamError>>) -> Step<
    Result<nat, StreamError>,
> {
    match step {
        Step::Ready(Ok(at)) => Step::Ready(Ok(at as nat)),
        Step::Ready(Err(error)) => Step::Ready(Err(error)),
        Step::Wait => Step::Wait,
    }
}

/// One download in progress. `reader` hands out an independent cursor over its bytes, so a
/// preloaded track can be decoded more than once.
pub struct Stream {
    bytes: Vec<u8>,
    total: Option<u64>,
    done: bool,
    failed: bool,
}

impl View for Stream {
    type V = Body;

    closed spec fn view(&self) -> Body {
        Body { bytes: self.bytes@, total: self.total, done: self.done, failed: self.failed }
    }
}

impl Stream {
    /// Only a download that is over has failed.
    #[verifier::type_invariant]
    spec fn failed_only_when_over(self) -> bool {
        self.failed ==> self.done
    }

    /// A download that has just been started, of a body whose length the server announced or
    /// did not.
    pub fn start(total: Option<u64>) -> (stream: Stream)
        ensures
            stream@ == Body::fresh(total),
            stream@.valid(),
            stream@.bytes.len() == 0,
            stream@.total == total,
            !stream@.done,
            !stream@.failed,
    {
        let stream = Stream { bytes: Vec::new(), total, done: false, failed: false };
        assert(stream@ =~= Body::fresh(total));
        stream
    }

    /// How many bytes have to be in before playback starts.
    pub fn wanted(&self) -> (wanted: usize)
        ensures
            wanted == self@.wanted(),
            wanted <= 262144,
            self@.total is None ==> wanted == 262144,
            self@.total is Some && self@.total->0 < 262144 ==> wanted == self@.total->0,
            self@.total is Some && self@.total->0 >= 262144 ==> wanted == 262144,
    {
        match self.total {
            Some(total) => if total < PREROLL as u64 {
                total as usize
            } else {
                PREROLL
            },
            None => PREROLL,
        }
    }

    /// Decides whether the stream can be handed out, once `len` bytes are reported in or the
    /// reports have `closed`: ready when the preroll is in, or the whole body for a track
    /// shorter than that, or the download is over; an error if it broke by then.
    pub fn open(&self, len: usize, closed: bool) -> (step: Step<Result<(), StreamError>>)
        ensures
            step == self@.open_step(len as nat, closed),
            self@.valid(),
            step is Wait <==> !closed && !self@.done && len < 262144 && (self@.total is None || len
                < self@.total->0),
            !(step is Wait) && self@.failed ==> step == Step::Ready(
                Err::<(), StreamError>(StreamError::BrokeEarly),
            ),
            !(step is Wait) && !self@.failed ==> step == Step::Ready(Ok::<(), StreamError>(())),
    {
        if len < self.wanted() && !self.done() && !closed {
            Step::Wait
        } else if self.failed() {
            Step::Ready(Err(StreamError::BrokeEarly))
        } else {
            Step::Ready(Ok(()))
        }
    }

    /// A cursor at the first byte.
    pub fn reader(&self) -> (reader: Reader)
        ensures
            reader@ == 0,
    {
        Reader { at: 0 }
    }

    /// The body length the server announced, if it did.
    pub fn total(&self) -> (total: Option<u64>)
        ensures
            total == self@.total,
    {
        self.total
    }

    pub fn done(&self) -> (done: bool)
        ensures
            done == self@.done,
            self@.valid(),
    {
        proof {
            use_type_invariant(self);
        }
        self.done
    }

    pub fn failed(&self) -> (failed: bool)
        ensures
            failed == self@.failed,
            self@.valid(),
    {
        proof {
            use_type_invariant(self);
        }
        self.failed
    }

    /// Ends the download.
    pub fn finish(&mut self, failed: bool)
        ensures
            final(self)@ == old(self)@.finished(failed),
            final(self)@.valid(),
            final(self)@.bytes == old(self)@.bytes,
            final(self)@.total == old(self)@.total,
            final(self)@.done,
            final(self)@.failed == failed,
    {
        self.done = true;
        self.failed = failed;
    }

    /// Takes in what the connection handed over, and says whether to keep pulling.
    pub fn pump(&mut self, event: Event<'_>) -> (pumped: Pumped)
        ensures
            final(self)@ == old(self)@.after(event@),
            final(self)@.valid(),
            final(self)@.bytes.len() <= usize::MAX,
            match event {
                Event::Chunk(_) => {
                    &&& pumped is Progress
                    &&& pumped->Progress_0 == final(self)@.bytes.len()
                },
                _ => pumped == Pumped::Stopped,
            },
            final(self)@.total == old(self)@.total,
            match event {
                Event::Chunk(chunk) => {
                    &&& final(self)@.bytes == old(self)@.bytes + chunk@
                    &&& final(self)@.done == old(self)@.done
                    &&& final(self)@.failed == old(self)@.failed
                },
                Event::End => {
                    &&& final(self)@.bytes == old(self)@.bytes
                    &&& final(self)@.done
                    &&& !final(self)@.failed
                },
                Event::Broke => {
                    &&& final(self)@.bytes == old(self)@.bytes
                    &&& final(self)@.done
                    &&& final(self)@.failed
                },
            },
    {
        proof {
            use_type_invariant(&*self);
            law_bytes_fit(*self);
        }
        match event {
            Event::Chunk(chunk) => {
                let mut bytes: Vec<u8> = Vec::new();
                std::mem::swap(&mut bytes, &mut self.bytes);
                bytes.extend_from_slice(chunk);
                self.bytes = bytes;
                assert(self@.bytes =~= old(self)@.bytes + chunk@);
                Pumped::Progress(self.bytes.len())
            },
            Event::End => {
                self.finish(false);
                Pumped::Stopped
            },
            Event::Broke => {
                self.finish(true);
                Pumped::Stopped
            },
        }
    }
}

/// A cursor over a `Stream`. Reading past what has arrived has to wait until more does, so a
/// decoder simply waits out a slow connection.
pub struct Reader {
    at: u64,
}

impl View for Reader {
    type V = nat;

    closed spec fn view(&self) -> nat {
        self.at as nat
    }
}

impl Reader {
    /// The position of the cursor, in bytes from the start.
    pub fn position(&self) -> (at: u64)
        ensures
            at == self@,
    {
        self.at
    }

    /// The end of the body: the announced length, or the final length once the download ends.
    /// A server that announced nothing makes this wait for the last byte, as long as patience
    /// lasts; once that has run out, the end is where the bytes that are in end.
    pub fn end(&self, stream: &Stream, wake: Wake) -> (step: Step<u64>)
        ensures
            stream@.end_step(wake) == (match step {
                Step::Ready(end) => Step::Ready(end as nat),
                Step::Wait => Step::Wait,
            }),
            stream@.valid(),
            stream@.bytes.len() <= usize::MAX,
            self@ <= u64::MAX,
            stream@.total is Some ==> step == Step::Ready(stream@.total->0),
            stream@.total is None && (stream@.done || wake == Wake::TimedOut) ==> step is Ready
                && step->Ready_0 == stream@.bytes.len(),
            stream@.total is None && !stream@.done && wake == Wake::Moved ==> step is Wait,
    {
        proof {
            use_type_invariant(stream);
            law_bytes_fit(*stream);
        }
        if let Some(total) = stream.total {
            return Step::Ready(total);
        }
        if stream.done || wake == Wake::TimedOut {
            return Step::Ready(state_len(stream));
        }
        Step::Wait
    }

    /// Copies what is in at the cursor to the front of `buf`, as much as there is room for, and
    /// moves the cursor past it. With nothing in there, waits while the download runs and patience
    /// lasts.
    pub fn read(&mut self, stream: &Stream, buf: &mut [u8], wake: Wake) -> (step: Step<
        Result<usize, StreamError>,
    >)
        ensures
            counted(step) == stream@.read_step(old(self)@, old(buf)@.len(), wake),
            stream@.valid(),
            stream@.bytes.len() <= usize::MAX,
            final(self)@ <= u64::MAX,
            match step {
                Step::Ready(Ok(count)) => {
                    &&& count == stream@.available(old(self)@, old(buf)@.len())
                    &&& final(self)@ == old(self)@ + count
                    &&& final(buf)@ == stream@.taken(old(self)@, old(buf)@.len()) + old(
                        buf,
                    )@.subrange(count as int, old(buf)@.len() as int)
                },
                _ => final(self)@ == old(self)@ && final(buf)@ == old(buf)@,
            },
            final(buf)@.len() == old(buf)@.len(),
            wake == Wake::TimedOut ==> step == Step::Ready(
                Err::<usize, StreamError>(StreamError::Stalled),
            ),
            wake == Wake::Moved && old(self)@ < stream@.bytes.len() ==> {
                &&& step is Ready && step->Ready_0 is Ok
                &&& final(self)@ == old(self)@ + step->Ready_0->Ok_0
                &&& step->Ready_0->Ok_0 <= old(buf)@.len()
                &&& old(self)@ + step->Ready_0->Ok_0 <= stream@.bytes.len()
                &&& step->Ready_0->Ok_0 == old(buf)@.len() || old(self)@ + step->Ready_0->Ok_0
                    == stream@.bytes.len()
                &&& forall|j: int|
                    0 <= j < step->Ready_0->Ok_0 ==> #[trigger] final(buf)@[j]
                        == stream@.bytes[old(self)@ + j]
                &&& forall|j: int|
                    step->Ready_0->Ok_0 <= j < old(buf)@.len() ==> #[trigger] final(buf)@[j]
                        == old(buf)@[j]
            },
            wake == Wake::Moved && old(self)@ >= stream@.bytes.len() ==> {
                &&& final(self)@ == old(self)@
                &&& final(buf)@ == old(buf)@
                &&& stream@.failed ==> step == Step::Ready(
                    Err::<usize, StreamError>(StreamError::Broke),
                )
                &&& !stream@.failed && stream@.done ==> step == Step::Ready(
                    Ok::<usize, StreamError>(0),
                )
                &&& !stream@.failed && !stream@.done ==> step is Wait
            },
    {
        proof {
            use_type_invariant(stream);
            law_bytes_fit(*stream);
        }
        if wake == Wake::TimedOut {
            return Step::Ready(Err(StreamError::Stalled));
        }
        if self.at < state_len(stream) {
            let start: usize = self.at as usize;
            let rest: usize = stream.bytes.len() - start;
            let count: usize = if buf.len() < rest {
                buf.len()
            } else {
                rest
            };
            let ghost before = buf@;
            let mut i: usize = 0;
            while i < count
                invariant
                    i <= count <= before.len(),
                    buf@.len() == before.len(),
                    start + count <= stream.bytes@.len() <= usize::MAX,
                    forall|j: int| 0 <= j < i ==> buf@[j] == stream.bytes@[start + j],
                    forall|j: int| i <= j < before.len() ==> buf@[j] == before[j],
                decreases count - i,
            {
                buf[i] = stream.bytes[start + i];
                i = i + 1;
            }
            assert(buf@ =~= stream@.bytes.subrange(start as int, start + count)
                + before.subrange(count as int, before.len() as int));
            self.at = self.at + count as u64;
            return Step::Ready(Ok(count));
        }
        if stream.failed {
            return Step::Ready(Err(StreamError::Broke));
        }
        if stream.done {
            assert(buf@ =~= Seq::<u8>::empty() + buf@.subrange(0, buf@.len() as int));
            return Step::Ready(Ok(0));
        }
        Step::Wait
    }

    /// Moves the cursor. A target before the start is refused and leaves the cursor where it
    /// is; seeking from the end waits, as `end` does, where the end is not known yet.
    pub fn seek(&mut self, stream: &Stream, pos: SeekFrom, wake: Wake) -> (step: Step<
        Result<u64, StreamError>,
    >)
        ensures
            positioned(step) == stream@.seek_step(old(self)@, pos, wake),
            final(self)@ == (match step {
                Step::Ready(Ok(at)) => at as nat,
                _ => old(self)@,
            }),
            pos matches SeekFrom::Start(offset) ==> step == Step::Ready(
                Ok::<u64, StreamError>(offset),
            ),
            pos matches SeekFrom::Current(delta) ==> lands(step, old(self)@ + delta),
            pos matches SeekFrom::End(delta) ==> {
                &&& stream@.total is Some ==> lands(step, stream@.total->0 + delta)
                &&& stream@.total is None && (stream@.done || wake == Wake::TimedOut) ==> lands(
                    step,
                    stream@.bytes.len() + delta,
                )
                &&& stream@.total is None && !stream@.done && wake == Wake::Moved ==> step is Wait
            },
            stream@.valid(),
            stream@.bytes.len() <= usize::MAX,
            final(self)@ <= u64::MAX,
    {
        proof {
            use_type_invariant(stream);
            law_bytes_fit(*stream);
        }
        let target: i128 = match pos {
            SeekFrom::Start(offset) => offset as i128,
            SeekFrom::Current(delta) => self.at as i128 + delta as i128,
            SeekFrom::End(delta) => match self.end(stream, wake) {
                Step::Ready(end) => end as i128 + delta as i128,
                Step::Wait => {
                    return Step::Wait;
                },
            },
        };
        if target < 0 {
            return Step::Ready(Err(StreamError::BeforeStart));
        }
        let at: u64 = wrapped(target);
        self.at = at;
        Step::Ready(Ok(at))
    }
}

/// The bytes that are in always fit in memory, so their number does not overflow.
pub proof fn law_bytes_fit(stream: Stream)
    ensures
        stream@.bytes.len() <= usize::MAX,
{
    assert(stream.bytes.len() == stream.bytes@.len());
}

/// How many bytes are in.
fn state_len(stream: &Stream) -> (len: u64)
    ensures
        len == stream@.bytes.len(),
{
    stream.bytes.len() as u64
}

/// The low half of a position.
fn wrapped(target: i128) -> (at: u64)
    requires
        target >= 0,
    ensures
        at == target as int % two_to_64(),
{
    let at: u64 = #[verifier::truncate]
    (target as u64);
    assert(at as i128 == target % 0x1_0000_0000_0000_0000i128) by (bit_vector)
        requires
            target >= 0,
            at == target as u64,
    ;
    at
}

} // verus!
