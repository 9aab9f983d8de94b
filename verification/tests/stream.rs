use music::subsonic::stream::{
    ErrorClass, Event, Pumped, SeekFrom, Step, Stream, StreamError, Wake, PATIENCE_SECS, PREROLL,
};

fn downloaded(total: Option<u64>, chunks: &[&[u8]]) -> Stream {
    let mut stream = Stream::start(total);
    for chunk in chunks {
        stream.pump(Event::Chunk(chunk));
    }
    stream
}

#[test]
fn limits_are_those_of_the_player() {
    assert_eq!(PREROLL, 256 * 1024);
    assert_eq!(PATIENCE_SECS, 20);
}

#[test]
fn a_fresh_download_is_empty_and_running() {
    let stream = Stream::start(Some(7));
    assert_eq!(stream.total(), Some(7));
    assert!(!stream.done());
    assert!(!stream.failed());
    assert_eq!(stream.reader().position(), 0);
    assert_eq!(Stream::start(None).total(), None);
}

#[test]
fn pumping_reports_progress_and_stops_at_the_end() {
    let mut stream = Stream::start(None);
    assert_eq!(stream.pump(Event::Chunk(&[1, 2, 3])), Pumped::Progress(3));
    assert_eq!(stream.pump(Event::Chunk(&[])), Pumped::Progress(3));
    assert_eq!(stream.pump(Event::Chunk(&[4])), Pumped::Progress(4));
    assert_eq!(stream.pump(Event::End), Pumped::Stopped);
    assert!(stream.done());
    assert!(!stream.failed());
}

#[test]
fn a_broken_connection_fails_the_download() {
    let mut stream = downloaded(Some(9), &[&[1]]);
    assert_eq!(stream.pump(Event::Broke), Pumped::Stopped);
    assert!(stream.done());
    assert!(stream.failed());
    assert_eq!(stream.total(), Some(9));
}

#[test]
fn finishing_keeps_the_bytes() {
    let mut stream = downloaded(None, &[&[5, 6]]);
    stream.finish(false);
    let mut buf = [0; 4];
    let mut reader = stream.reader();
    assert_eq!(reader.read(&stream, &mut buf, Wake::Moved), Step::Ready(Ok(2)));
    assert_eq!(buf, [5, 6, 0, 0]);
    assert_eq!(reader.read(&stream, &mut buf, Wake::Moved), Step::Ready(Ok(0)));
    assert_eq!(buf, [5, 6, 0, 0]);
}

#[test]
fn the_preroll_is_what_opening_wants() {
    assert_eq!(Stream::start(None).wanted(), PREROLL);
    assert_eq!(Stream::start(Some(10)).wanted(), 10);
    assert_eq!(Stream::start(Some(0)).wanted(), 0);
    assert_eq!(Stream::start(Some(PREROLL as u64)).wanted(), PREROLL);
    assert_eq!(Stream::start(Some(PREROLL as u64 + 1)).wanted(), PREROLL);
    assert_eq!(Stream::start(Some(u64::MAX)).wanted(), PREROLL);
}

#[test]
fn opening_waits_for_the_preroll_or_the_whole_of_a_short_track() {
    let long = Stream::start(None);
    assert_eq!(long.open(PREROLL - 1, false), Step::Wait);
    assert_eq!(long.open(PREROLL, false), Step::Ready(Ok(())));
    let short = Stream::start(Some(3));
    assert_eq!(short.open(2, false), Step::Wait);
    assert_eq!(short.open(3, false), Step::Ready(Ok(())));
    assert_eq!(Stream::start(Some(0)).open(0, false), Step::Ready(Ok(())));
}

#[test]
fn opening_does_not_wait_for_a_download_that_is_over() {
    let mut stream = Stream::start(Some(100));
    stream.pump(Event::End);
    assert_eq!(stream.open(0, false), Step::Ready(Ok(())));
    assert_eq!(Stream::start(Some(100)).open(0, true), Step::Ready(Ok(())));
}

#[test]
fn opening_goes_by_the_report_even_where_it_lags() {
    let mut stream = Stream::start(Some(4));
    assert_eq!(stream.pump(Event::Chunk(&[1, 2])), Pumped::Progress(2));
    assert_eq!(stream.pump(Event::Chunk(&[3, 4])), Pumped::Progress(4));
    assert_eq!(stream.open(2, false), Step::Wait);
    assert_eq!(stream.open(4, false), Step::Ready(Ok(())));
}

#[test]
fn opening_fails_where_the_download_broke() {
    let mut stream = Stream::start(None);
    stream.pump(Event::Broke);
    assert_eq!(stream.open(0, false), Step::Ready(Err(StreamError::BrokeEarly)));
    assert_eq!(
        stream.open(PREROLL, true),
        Step::Ready(Err(StreamError::BrokeEarly))
    );
}

#[test]
fn a_read_takes_what_fits_and_what_is_in() {
    let stream = downloaded(None, &[&[1, 2], &[3, 4, 5]]);
    let mut reader = stream.reader();
    let mut small = [9; 2];
    assert_eq!(reader.read(&stream, &mut small, Wake::Moved), Step::Ready(Ok(2)));
    assert_eq!(small, [1, 2]);
    assert_eq!(reader.position(), 2);
    let mut large = [9; 5];
    assert_eq!(reader.read(&stream, &mut large, Wake::Moved), Step::Ready(Ok(3)));
    assert_eq!(large, [3, 4, 5, 9, 9]);
    assert_eq!(reader.position(), 5);
    assert_eq!(reader.read(&stream, &mut large, Wake::Moved), Step::Wait);
    assert_eq!(large, [3, 4, 5, 9, 9]);
    assert_eq!(reader.position(), 5);
}

#[test]
fn a_read_without_room_takes_nothing() {
    let stream = downloaded(None, &[&[1]]);
    let mut reader = stream.reader();
    assert_eq!(reader.read(&stream, &mut [], Wake::Moved), Step::Ready(Ok(0)));
    assert_eq!(reader.position(), 0);
}

#[test]
fn a_stalled_read_times_out() {
    let stream = downloaded(None, &[&[1]]);
    let mut reader = stream.reader();
    let mut buf = [0; 1];
    assert_eq!(
        reader.read(&stream, &mut buf, Wake::TimedOut),
        Step::Ready(Err(StreamError::Stalled))
    );
    assert_eq!(buf, [0]);
    assert_eq!(reader.position(), 0);
}

#[test]
fn a_failure_comes_after_the_bytes_that_arrived() {
    let mut stream = downloaded(Some(10), &[&[1, 2]]);
    stream.pump(Event::Broke);
    let mut reader = stream.reader();
    let mut buf = [0; 8];
    assert_eq!(reader.read(&stream, &mut buf, Wake::Moved), Step::Ready(Ok(2)));
    assert_eq!(&buf[..2], &[1, 2]);
    assert_eq!(
        reader.read(&stream, &mut buf, Wake::Moved),
        Step::Ready(Err(StreamError::Broke))
    );
}

#[test]
fn a_reader_hears_every_chunk_once_and_in_order() {
    let mut stream = Stream::start(None);
    let mut reader = stream.reader();
    let mut heard: Vec<u8> = Vec::new();
    let chunks: [&[u8]; 4] = [&[1, 2, 3], &[], &[4], &[5, 6, 7, 8]];
    for chunk in chunks {
        stream.pump(Event::Chunk(chunk));
        let mut buf = [0; 2];
        if let Step::Ready(Ok(count)) = reader.read(&stream, &mut buf, Wake::Moved) {
            heard.extend_from_slice(&buf[..count]);
        }
    }
    stream.pump(Event::End);
    loop {
        let mut buf = [0; 3];
        match reader.read(&stream, &mut buf, Wake::Moved) {
            Step::Ready(Ok(0)) => break,
            Step::Ready(Ok(count)) => heard.extend_from_slice(&buf[..count]),
            _ => panic!("the download is over"),
        }
    }
    assert_eq!(heard, [1, 2, 3, 4, 5, 6, 7, 8]);
}

#[test]
fn readers_do_not_disturb_each_other() {
    let stream = downloaded(None, &[&[1, 2, 3]]);
    let mut first = stream.reader();
    let mut buf = [0; 3];
    first.read(&stream, &mut buf, Wake::Moved);
    let mut second = stream.reader();
    let mut again = [0; 3];
    assert_eq!(second.read(&stream, &mut again, Wake::Moved), Step::Ready(Ok(3)));
    assert_eq!(again, buf);
}

#[test]
fn the_end_is_announced_or_final() {
    let announced = downloaded(Some(50), &[&[1]]);
    assert_eq!(announced.reader().end(&announced, Wake::Moved), Step::Ready(50));
    assert_eq!(announced.reader().end(&announced, Wake::TimedOut), Step::Ready(50));
    let mut unknown = downloaded(None, &[&[1, 2]]);
    let reader = unknown.reader();
    assert_eq!(reader.end(&unknown, Wake::Moved), Step::Wait);
    assert_eq!(reader.end(&unknown, Wake::TimedOut), Step::Ready(2));
    unknown.pump(Event::End);
    assert_eq!(reader.end(&unknown, Wake::Moved), Step::Ready(2));
}

#[test]
fn seeking_moves_the_cursor() {
    let stream = downloaded(Some(100), &[&[1, 2, 3, 4]]);
    let mut reader = stream.reader();
    assert_eq!(reader.seek(&stream, SeekFrom::Start(3), Wake::Moved), Step::Ready(Ok(3)));
    let mut buf = [0; 4];
    assert_eq!(reader.read(&stream, &mut buf, Wake::Moved), Step::Ready(Ok(1)));
    assert_eq!(buf[0], 4);
    assert_eq!(reader.seek(&stream, SeekFrom::Current(-2), Wake::Moved), Step::Ready(Ok(2)));
    assert_eq!(reader.seek(&stream, SeekFrom::Current(0), Wake::Moved), Step::Ready(Ok(2)));
    assert_eq!(reader.seek(&stream, SeekFrom::End(-1), Wake::Moved), Step::Ready(Ok(99)));
    assert_eq!(reader.read(&stream, &mut buf, Wake::Moved), Step::Wait);
}

#[test]
fn seeking_before_the_start_is_refused() {
    let stream = downloaded(Some(10), &[&[1, 2]]);
    let mut reader = stream.reader();
    reader.seek(&stream, SeekFrom::Start(1), Wake::Moved);
    assert_eq!(
        reader.seek(&stream, SeekFrom::Current(-2), Wake::Moved),
        Step::Ready(Err(StreamError::BeforeStart))
    );
    assert_eq!(reader.position(), 1);
    assert_eq!(
        reader.seek(&stream, SeekFrom::End(-11), Wake::Moved),
        Step::Ready(Err(StreamError::BeforeStart))
    );
    assert_eq!(
        reader.seek(&stream, SeekFrom::Current(i64::MIN), Wake::Moved),
        Step::Ready(Err(StreamError::BeforeStart))
    );
}

#[test]
fn seeking_from_an_unknown_end_waits() {
    let stream = downloaded(None, &[&[1, 2]]);
    let mut reader = stream.reader();
    assert_eq!(reader.seek(&stream, SeekFrom::End(0), Wake::Moved), Step::Wait);
    assert_eq!(reader.position(), 0);
    assert_eq!(reader.seek(&stream, SeekFrom::End(0), Wake::TimedOut), Step::Ready(Ok(2)));
}

#[test]
fn seeking_past_the_largest_position_wraps() {
    let stream = downloaded(None, &[&[1]]);
    let mut reader = stream.reader();
    assert_eq!(
        reader.seek(&stream, SeekFrom::Start(u64::MAX), Wake::Moved),
        Step::Ready(Ok(u64::MAX))
    );
    assert_eq!(reader.seek(&stream, SeekFrom::Current(1), Wake::Moved), Step::Ready(Ok(0)));
}

#[test]
fn errors_say_what_happened() {
    assert_eq!(
        StreamError::BrokeEarly.message(),
        "the stream broke before playback could start"
    );
    assert_eq!(StreamError::Broke.message(), "the stream broke");
    assert_eq!(StreamError::Stalled.message(), "the stream stopped arriving");
    assert_eq!(StreamError::BeforeStart.message(), "cannot seek before the start");
    assert_eq!(StreamError::BrokeEarly.class(), ErrorClass::Other);
    assert_eq!(StreamError::Broke.class(), ErrorClass::Other);
    assert_eq!(StreamError::Stalled.class(), ErrorClass::TimedOut);
    assert_eq!(StreamError::BeforeStart.class(), ErrorClass::InvalidInput);
}
