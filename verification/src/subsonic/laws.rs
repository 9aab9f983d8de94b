//! What holds of a download and its readers over many calls.

use vstd::prelude::*;

use crate::subsonic::stream::{
    counted, positioned, two_to_64, Arrival, Body, SeekFrom, Step, StreamError, Wake, PREROLL,
};

verus! {

/// The state after a run of arrivals. Nothing is pulled once the download is over.
pub open spec fn run(body: Body, arrivals: Seq<Arrival>) -> Body
    decreases arrivals.len(),
{
    if body.done || arrivals.len() == 0 {
        body
    } else {
        run(body.after(arrivals[0]), arrivals.drop_first())
    }
}

/// The chunks that come before the connection ends or breaks, in a row.
pub open spec fn carried(arrivals: Seq<Arrival>) -> Seq<u8>
    decreases arrivals.len(),
{
    if arrivals.len() == 0 {
        Seq::empty()
    } else {
        match arrivals[0] {
            Arrival::Chunk(chunk) => chunk + carried(arrivals.drop_first()),
            _ => Seq::empty(),
        }
    }
}

/// The arrival at `i` is the first that is not a chunk.
pub open spec fn ends_at(arrivals: Seq<Arrival>, i: int) -> bool {
    &&& 0 <= i < arrivals.len()
    &&& !(arrivals[i] is Chunk)
    &&& forall|j: int| 0 <= j < i ==> #[trigger] arrivals[j] is Chunk
}

/// A download holds exactly the chunks that arrived, in order; it keeps the announced length; it
/// is over once the connection ended or broke, and has failed if it broke.
pub proof fn law_download_holds_what_arrived(body: Body, arrivals: Seq<Arrival>)
    requires
        !body.done,
        body.valid(),
    ensures
        run(body, arrivals).bytes == body.bytes + carried(arrivals),
        run(body, arrivals).total == body.total,
        run(body, arrivals).valid(),
        run(body, arrivals).done <==> exists|i: int| ends_at(arrivals, i),
        run(body, arrivals).failed <==> exists|i: int|
            ends_at(arrivals, i) && arrivals[i] is Broke,
    decreases arrivals.len(),
{
    if arrivals.len() == 0 {
        assert(body.bytes + carried(arrivals) =~= body.bytes);
    } else {
        let next = body.after(arrivals[0]);
        let rest = arrivals.drop_first();
        match arrivals[0] {
            Arrival::Chunk(chunk) => {
                law_download_holds_what_arrived(next, rest);
                assert(body.bytes + (chunk + carried(rest)) =~= (body.bytes + chunk) + carried(
                    rest,
                ));
                assert forall|i: int| ends_at(rest, i) implies #[trigger] ends_at(
                    arrivals,
                    i + 1,
                ) && arrivals[i + 1] == rest[i] by {
                    assert forall|j: int| 0 <= j < i + 1 implies #[trigger] arrivals[j] is Chunk by {
                        if j > 0 {
                            assert(rest[j - 1] is Chunk);
                        }
                    }
                }
                assert forall|i: int| ends_at(arrivals, i) implies #[trigger] ends_at(rest, i - 1)
                    && arrivals[i] == rest[i - 1] by {
                    assert(arrivals[0] is Chunk);
                    assert(i > 0);
                    assert forall|j: int| 0 <= j < i - 1 implies #[trigger] rest[j] is Chunk by {
                        assert(arrivals[j + 1] is Chunk);
                    }
                }
                if run(next, rest).done {
                    let i = choose|i: int| ends_at(rest, i);
                    assert(ends_at(arrivals, i + 1));
                }
                if run(next, rest).failed {
                    let i = choose|i: int| ends_at(rest, i) && rest[i] is Broke;
                    assert(ends_at(arrivals, i + 1) && arrivals[i + 1] is Broke);
                }
                if exists|i: int| ends_at(arrivals, i) {
                    let i = choose|i: int| ends_at(arrivals, i);
                    assert(ends_at(rest, i - 1));
                }
                if exists|i: int| ends_at(arrivals, i) && arrivals[i] is Broke {
                    let i = choose|i: int| ends_at(arrivals, i) && arrivals[i] is Broke;
                    assert(ends_at(rest, i - 1) && rest[i - 1] is Broke);
                }
            },
            _ => {
                assert(run(next, rest) == next);
                assert(body.bytes + carried(arrivals) =~= body.bytes);
                assert(ends_at(arrivals, 0));
                assert forall|i: int| ends_at(arrivals, i) implies i == 0 by {
                    if i > 0 {
                        assert(arrivals[0] is Chunk);
                    }
                }
            },
        }
    }
}

/// Bytes that are in stay where they are, whatever arrives.
pub proof fn law_buffer_only_grows(body: Body, arrivals: Seq<Arrival>)
    ensures
        body.bytes.is_prefix_of(run(body, arrivals).bytes),
        run(body, arrivals).total == body.total,
        body.done ==> run(body, arrivals) == body,
    decreases arrivals.len(),
{
    if !body.done && arrivals.len() > 0 {
        law_buffer_only_grows(body.after(arrivals[0]), arrivals.drop_first());
        assert(body.bytes.is_prefix_of(body.after(arrivals[0]).bytes));
    }
}

/// One read that did not time out: the state it met, and the space it had.
pub struct Look {
    pub body: Body,
    pub room: nat,
}

/// Reads of one download, each at the same time as the one before or later.
pub open spec fn growing(looks: Seq<Look>) -> bool {
    forall|i: int, j: int|
        0 <= i <= j < looks.len() ==> (#[trigger] looks[i]).body.bytes.is_prefix_of(
            (#[trigger] looks[j]).body.bytes,
        )
}

/// Where a cursor that stood at `at` stands after those reads.
pub open spec fn cursor(looks: Seq<Look>, at: nat) -> nat
    decreases looks.len(),
{
    if looks.len() == 0 {
        at
    } else {
        cursor(looks.drop_first(), at + looks[0].body.available(at, looks[0].room))
    }
}

/// What those reads gave, in a row.
pub open spec fn heard(looks: Seq<Look>, at: nat) -> Seq<u8>
    decreases looks.len(),
{
    if looks.len() == 0 {
        Seq::empty()
    } else {
        looks[0].body.taken(at, looks[0].room) + heard(
            looks.drop_first(),
            at + looks[0].body.available(at, looks[0].room),
        )
    }
}

/// However the reads are cut and however slowly the download comes in, a reader hears the body
/// from where it stood, without a gap and without a byte twice.
pub proof fn law_reads_follow_the_body(looks: Seq<Look>, at: nat)
    requires
        growing(looks),
        looks.len() > 0,
    ensures
        cursor(looks, at) >= at,
        heard(looks, at).len() == cursor(looks, at) - at,
        cursor(looks, at) > at ==> cursor(looks, at) <= looks.last().body.bytes.len()
            && heard(looks, at) == looks.last().body.bytes.subrange(
            at as int,
            cursor(looks, at) as int,
        ),
    decreases looks.len(),
{
    let first = looks[0];
    let last = looks.last();
    let rest = looks.drop_first();
    let next = at + first.body.available(at, first.room);
    assert(first.body.bytes.is_prefix_of(last.body.bytes)) by {
        assert(looks[0].body.bytes.is_prefix_of(looks[looks.len() - 1].body.bytes));
    }
    let taken = first.body.taken(at, first.room);
    if next > at {
        assert(taken =~= last.body.bytes.subrange(at as int, next as int));
    }
    if rest.len() == 0 {
        assert(heard(rest, next) =~= Seq::<u8>::empty());
        assert(cursor(rest, next) == next);
        assert(taken + heard(rest, next) =~= taken);
    } else {
        assert(growing(rest)) by {
            assert forall|i: int, j: int| 0 <= i <= j < rest.len() implies (
            #[trigger] rest[i]).body.bytes.is_prefix_of((#[trigger] rest[j]).body.bytes) by {
                assert(looks[i + 1].body.bytes.is_prefix_of(looks[j + 1].body.bytes));
            }
        }
        law_reads_follow_the_body(rest, next);
        assert(rest.last() == last);
        let end = cursor(rest, next);
        if end > at {
            if end > next {
                assert(taken + last.body.bytes.subrange(next as int, end as int)
                    =~= last.body.bytes.subrange(at as int, end as int));
            } else {
                assert(heard(rest, next) =~= Seq::<u8>::empty());
                assert(taken + heard(rest, next) =~= taken);
            }
        }
    }
}

/// A reader that starts at the first byte and reads until it is told that there is no more has
/// heard exactly the chunks that arrived.
pub proof fn law_reader_hears_what_arrived(
    total: Option<u64>,
    arrivals: Seq<Arrival>,
    looks: Seq<Look>,
    room: nat,
)
    requires
        growing(looks),
        looks.len() > 0,
        looks.last().body == run(Body::fresh(total), arrivals),
        room > 0,
        looks.last().body.read_step(cursor(looks, 0), room, Wake::Moved) == Step::Ready(
            Ok::<nat, StreamError>(0),
        ),
    ensures
        heard(looks, 0) == carried(arrivals),
        !looks.last().body.failed,
{
    let body = looks.last().body;
    law_reads_follow_the_body(looks, 0);
    law_download_holds_what_arrived(Body::fresh(total), arrivals);
    let end = cursor(looks, 0);
    assert(Body::fresh(total).bytes + carried(arrivals) =~= carried(arrivals));
    if end < body.bytes.len() {
        assert(body.available(end, room) > 0);
        assert(false);
    }
    if end > 0 {
        assert(body.bytes.subrange(0, end as int) =~= body.bytes);
    } else {
        assert(heard(looks, 0) =~= body.bytes);
    }
}

/// A failure hides no byte: a read reports it only where the cursor has passed everything that
/// arrived, and what did arrive reads as it would without the failure.
pub proof fn law_failure_comes_last(body: Body, at: nat, room: nat)
    ensures
        body.read_step(at, room, Wake::Moved) == Step::Ready(
            Err::<nat, StreamError>(StreamError::Broke),
        ) <==> body.failed && at >= body.bytes.len(),
        at < body.bytes.len() ==> body.finished(true).read_step(at, room, Wake::Moved)
            == body.finished(false).read_step(at, room, Wake::Moved),
        body.finished(true).taken(at, room) == body.finished(false).taken(at, room),
{
}

/// A read waits only for a download that still runs, at a position that is not in yet.
pub proof fn law_reads_wait_only_for_more(body: Body, at: nat, room: nat, wake: Wake)
    requires
        body.valid(),
    ensures
        body.read_step(at, room, wake) is Wait <==> wake == Wake::Moved && !body.done && at
            >= body.bytes.len(),
{
}

/// Opening waits for the preroll, or for the whole body of a track shorter than that, and never
/// for a download that is over.
pub proof fn law_open_waits_for_the_preroll(body: Body, len: nat)
    requires
        body.valid(),
    ensures
        body.open_step(len, false) is Wait <==> !body.done && len < PREROLL && (
        body.total is None || len < body.total->0),
        body.open_step(len, true) is Ready,
{
}

/// Arrivals in two parts come to the same as in one.
proof fn lemma_run_in_parts(body: Body, arrivals: Seq<Arrival>, i: int)
    requires
        0 <= i <= arrivals.len(),
    ensures
        run(body, arrivals) == run(run(body, arrivals.take(i)), arrivals.skip(i)),
    decreases arrivals.len(),
{
    if i == 0 {
        assert(arrivals.skip(0) =~= arrivals);
        assert(run(body, arrivals.take(0)) == body);
    } else if !body.done {
        let rest = arrivals.drop_first();
        lemma_run_in_parts(body.after(arrivals[0]), rest, i - 1);
        assert(arrivals.take(i).drop_first() =~= rest.take(i - 1));
        assert(arrivals.skip(i) =~= rest.skip(i - 1));
    }
}

/// A stream that is handed out is ready to play: the preroll is in, or the whole body of a track
/// shorter than that, or the download is over; and it has not broken. The length that was
/// reported may lag behind: it is that of the state after the first `i` arrivals. Reports close
/// only once the download is over.
pub proof fn law_opened_means_prerolled(
    total: Option<u64>,
    arrivals: Seq<Arrival>,
    i: int,
    closed: bool,
)
    requires
        0 <= i <= arrivals.len(),
        closed ==> run(Body::fresh(total), arrivals).done,
        run(Body::fresh(total), arrivals).open_step(
            run(Body::fresh(total), arrivals.take(i)).bytes.len(),
            closed,
        ) == Step::Ready(Ok::<(), StreamError>(())),
    ensures
        ({
            let now = run(Body::fresh(total), arrivals);
            &&& now.bytes.len() >= now.wanted() || now.done
            &&& !now.failed
        }),
{
    let then = run(Body::fresh(total), arrivals.take(i));
    lemma_run_in_parts(Body::fresh(total), arrivals, i);
    law_buffer_only_grows(then, arrivals.skip(i));
}

/// The end is the announced length; without one it is waited for while the download runs and
/// patience lasts, and is then the number of bytes that came.
pub proof fn law_end_is_announced_or_final(body: Body, wake: Wake)
    ensures
        body.total is Some ==> body.end_step(wake) == Step::Ready(body.total->0 as nat),
        body.total is None && body.done ==> body.end_step(wake) == Step::Ready(body.bytes.len()),
        body.total is None && !body.done ==> body.end_step(Wake::Moved) == Step::<nat>::Wait,
        body.total is None ==> body.end_step(Wake::TimedOut) == Step::Ready(body.bytes.len()),
{
}

/// A seek goes exactly where it aims; it is refused where it aims before the first byte, and
/// only there, and it waits only for an end that is not known. A target past the largest
/// position is out of reach.
pub proof fn law_seek_goes_where_it_aims(body: Body, at: nat, pos: SeekFrom, wake: Wake)
    requires
        body.seek_target(at, pos, wake) matches Step::Ready(target) ==> target < two_to_64(),
    ensures
        match body.seek_target(at, pos, wake) {
            Step::Ready(target) => body.seek_step(at, pos, wake) == (if target < 0 {
                Step::Ready(Err::<nat, StreamError>(StreamError::BeforeStart))
            } else {
                Step::Ready(Ok::<nat, StreamError>(target as nat))
            }),
            Step::Wait => body.seek_step(at, pos, wake) is Wait,
        },
        body.seek_step(at, pos, wake) is Wait <==> pos is End && body.end_step(wake) is Wait,
{
}

/// A seek from the start goes to its offset, whatever is in and whatever was announced.
pub proof fn law_seek_from_the_start(body: Body, at: nat, offset: u64, wake: Wake)
    ensures
        body.seek_step(at, SeekFrom::Start(offset), wake) == Step::Ready(
            Ok::<nat, StreamError>(offset as nat),
        ),
{
}

/// A seek from the cursor goes that far from it: it is refused before the first byte, exact up
/// to the largest position, and wraps to the start past it. What is in does not matter.
pub proof fn law_seek_from_the_cursor(body: Body, at: nat, delta: i64, wake: Wake)
    requires
        at <= u64::MAX,
    ensures
        at + delta < 0 ==> body.seek_step(at, SeekFrom::Current(delta), wake) == Step::Ready(
            Err::<nat, StreamError>(StreamError::BeforeStart),
        ),
        0 <= at + delta <= 0xffff_ffff_ffff_ffff ==> body.seek_step(
            at,
            SeekFrom::Current(delta),
            wake,
        ) == Step::Ready(Ok::<nat, StreamError>((at + delta) as nat)),
        at + delta > 0xffff_ffff_ffff_ffff ==> body.seek_step(at, SeekFrom::Current(delta), wake)
            == Step::Ready(Ok::<nat, StreamError>((at + delta - 0x1_0000_0000_0000_0000) as nat)),
{
}

/// A seek from the end goes that far from the announced length; without one, from the bytes that
/// came once the download is over or patience has run out, and until then it waits.
pub proof fn law_seek_from_the_end(body: Body, at: nat, delta: i64, wake: Wake, end: int)
    requires
        body.bytes.len() <= u64::MAX,
        body.total is Some ==> end == body.total->0,
        body.total is None ==> end == body.bytes.len(),
    ensures
        ({
            let step = body.seek_step(at, SeekFrom::End(delta), wake);
            let known = body.total is Some || body.done || wake == Wake::TimedOut;
            &&& !known ==> step is Wait
            &&& known && end + delta < 0 ==> step == Step::Ready(
                Err::<nat, StreamError>(StreamError::BeforeStart),
            )
            &&& known && 0 <= end + delta <= 0xffff_ffff_ffff_ffff ==> step == Step::Ready(
                Ok::<nat, StreamError>((end + delta) as nat),
            )
            &&& known && end + delta > 0xffff_ffff_ffff_ffff ==> step == Step::Ready(
                Ok::<nat, StreamError>((end + delta - 0x1_0000_0000_0000_0000) as nat),
            )
        }),
{
}

/// Opening is refused exactly where it is over and the download has failed, and succeeds exactly
/// where it is over and the download has not; so a healthy download is handed out as soon as the
/// preroll is in, however long the track.
pub proof fn law_open_is_refused_only_when_broken(body: Body, len: nat, closed: bool)
    ensures
        body.open_step(len, closed) is Wait <==> !closed && !body.done && len < 262144 && (
        body.total is None || len < body.total->0),
        body.open_step(len, closed) == Step::Ready(
            Err::<(), StreamError>(StreamError::BrokeEarly),
        ) <==> !(body.open_step(len, closed) is Wait) && body.failed,
        body.open_step(len, closed) == Step::Ready(Ok::<(), StreamError>(())) <==> !(
        body.open_step(len, closed) is Wait) && !body.failed,
        len >= 262144 && !body.failed ==> body.open_step(len, closed) == Step::Ready(
            Ok::<(), StreamError>(()),
        ),
{
}

/// What is wanted is the announced length or the preroll, whichever is less.
pub proof fn law_wanted_is_the_lesser(body: Body)
    ensures
        body.total is None ==> body.wanted() == 262144,
        body.total is Some ==> body.wanted() <= body.total->0 && body.wanted() <= 262144 && (
        body.wanted() == body.total->0 || body.wanted() == 262144),
{
}

/// What a read is answered: nothing but a stall after a wait without patience left; as many
/// bytes as are in and fit, and the very bytes at the cursor; past them the failure, the end, or
/// a wait.
pub proof fn law_read_answers(body: Body, at: nat, room: nat)
    ensures
        body.read_step(at, room, Wake::TimedOut) == Step::Ready(
            Err::<nat, StreamError>(StreamError::Stalled),
        ),
        at < body.bytes.len() ==> {
            &&& body.read_step(at, room, Wake::Moved) is Ready
            &&& body.read_step(at, room, Wake::Moved)->Ready_0 is Ok
            &&& body.read_step(at, room, Wake::Moved)->Ready_0->Ok_0 == body.taken(at, room).len()
            &&& body.taken(at, room).len() <= room
            &&& at + body.taken(at, room).len() <= body.bytes.len()
            &&& body.taken(at, room).len() == room || at + body.taken(at, room).len()
                == body.bytes.len()
            &&& forall|j: int|
                0 <= j < body.taken(at, room).len() ==> #[trigger] body.taken(at, room)[j]
                    == body.bytes[at + j]
        },
        at >= body.bytes.len() ==> {
            &&& body.taken(at, room).len() == 0
            &&& body.failed ==> body.read_step(at, room, Wake::Moved) == Step::Ready(
                Err::<nat, StreamError>(StreamError::Broke),
            )
            &&& !body.failed && body.done ==> body.read_step(at, room, Wake::Moved) == Step::Ready(
                Ok::<nat, StreamError>(0),
            )
            &&& !body.failed && !body.done ==> body.read_step(at, room, Wake::Moved) is Wait
        },
        body.available(at, room) == body.taken(at, room).len(),
{
}

/// A chunk goes to the back of what is in and changes nothing else; an end and a break change no
/// byte, end the download, and differ in whether it has failed.
pub proof fn law_arrivals(body: Body, chunk: Seq<u8>, total: Option<u64>)
    ensures
        body.after(Arrival::Chunk(chunk)).bytes == body.bytes + chunk,
        body.after(Arrival::Chunk(chunk)).done == body.done,
        body.after(Arrival::Chunk(chunk)).failed == body.failed,
        body.after(Arrival::Chunk(chunk)).total == body.total,
        body.after(Arrival::End) == (Body {
            bytes: body.bytes,
            total: body.total,
            done: true,
            failed: false,
        }),
        body.after(Arrival::Broke) == (Body {
            bytes: body.bytes,
            total: body.total,
            done: true,
            failed: true,
        }),
        Body::fresh(total) == (Body {
            bytes: Seq::<u8>::empty(),
            total,
            done: false,
            failed: false,
        }),
{
}

/// Answers are the same as values: two answers that differ differ as values.
pub proof fn law_answers_are_values(
    a: Step<Result<usize, StreamError>>,
    b: Step<Result<usize, StreamError>>,
    p: Step<Result<u64, StreamError>>,
    q: Step<Result<u64, StreamError>>,
)
    ensures
        counted(a) == counted(b) <==> a == b,
        positioned(p) == positioned(q) <==> p == q,
        a is Ready && a->Ready_0 is Ok ==> counted(a) == Step::Ready(
            Ok::<nat, StreamError>(a->Ready_0->Ok_0 as nat),
        ),
        p is Ready && p->Ready_0 is Ok ==> positioned(p) == Step::Ready(
            Ok::<nat, StreamError>(p->Ready_0->Ok_0 as nat),
        ),
{
}

} // verus!
