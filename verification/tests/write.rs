use wezterm::write::{write_all, WriteReply, WriteStep};

/// Writes `buf` to a writer that gives these replies.
fn run<'a>(buf: &'a [u8], replies: &[WriteReply]) -> (Vec<u8>, WriteStep<'a>) {
    let mut taken = Vec::new();
    let mut step = write_all(buf, None);
    for reply in replies {
        match step {
            WriteStep::Write(rest) => {
                if let WriteReply::Wrote(n) = reply {
                    taken.extend_from_slice(&rest[..*n]);
                }
                step = write_all(rest, Some(*reply));
            }
            _ => break,
        }
    }
    (taken, step)
}

#[test]
fn nothing_to_write_is_done_at_once() {
    assert_eq!(write_all(b"", None), WriteStep::Done);
}

#[test]
fn all_bytes_are_delivered_in_order() {
    let replies = [
        WriteReply::Wrote(2),
        WriteReply::Interrupted,
        WriteReply::Wrote(1),
        WriteReply::WouldBlock,
        WriteReply::WouldBlock,
        WriteReply::Wrote(3),
    ];
    let (taken, step) = run(b"abcdef", &replies);
    assert_eq!(taken, b"abcdef".to_vec());
    assert_eq!(step, WriteStep::Done);
}

#[test]
fn what_is_left_is_written_next() {
    let (taken, step) = run(b"abcdef", &[WriteReply::Wrote(4)]);
    assert_eq!(taken, b"abcd".to_vec());
    assert_eq!(step, WriteStep::Write(b"ef"));
}

#[test]
fn a_writer_that_blocks_is_asked_again() {
    assert_eq!(
        write_all(b"abc", Some(WriteReply::WouldBlock)),
        WriteStep::Write(b"abc")
    );
    assert_eq!(
        write_all(b"abc", Some(WriteReply::Interrupted)),
        WriteStep::Write(b"abc")
    );
}

#[test]
fn a_writer_that_takes_nothing_is_an_error() {
    let (taken, step) = run(b"abc", &[WriteReply::Wrote(1), WriteReply::Wrote(0)]);
    assert_eq!(taken, b"a".to_vec());
    assert_eq!(step, WriteStep::WroteZero);
}

#[test]
fn the_error_of_the_writer_is_passed_on() {
    let (taken, step) = run(b"abc", &[WriteReply::Wrote(1), WriteReply::Failed]);
    assert_eq!(taken, b"a".to_vec());
    assert_eq!(step, WriteStep::Failed);
}
