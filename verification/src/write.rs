//! Writing all of a text to a writer that may take it piece by piece.
use vstd::prelude::*;
use vstd::slice::slice_subrange;

verus! {

/// What a writer answered when it was given some bytes.
#[derive(Debug, Clone, Copy, PartialEq, Eq, Structural)]
pub enum WriteReply {
    /// It took this many of them, from the first on.
    Wrote(usize),
    Interrupted,
    WouldBlock,
    /// It failed for another reason.
    Failed,
}

/// What is to be done next.
#[derive(Debug, Clone, Copy, PartialEq, Eq)]
pub enum WriteStep<'a> {
    /// Give these bytes to the writer.
    Write(&'a [u8]),
    /// All is written.
    Done,
    /// Fail: the writer takes nothing more.
    WroteZero,
    /// Fail with the error of the writer.
    Failed,
}

#[verifier::ext_equal]
pub enum WriteModel {
    Write(Seq<u8>),
    Done,
    WroteZero,
    Failed,
}

impl<'a> View for WriteStep<'a> {
    type V = WriteModel;

    open spec fn view(&self) -> WriteModel {
        match self {
            WriteStep::Write(rest) => WriteModel::Write(rest@),
            WriteStep::Done => WriteModel::Done,
            WriteStep::WroteZero => WriteModel::WroteZero,
            WriteStep::Failed => WriteModel::Failed,
        }
    }
}

/// What is to be done with the bytes that are left.
pub open spec fn write_rest(rest: Seq<u8>) -> WriteModel {
    if rest.len() == 0 {
        WriteModel::Done
    } else {
        WriteModel::Write(rest)
    }
}

/// What is to be done after the writer was given some bytes and replied.
pub open spec fn after_reply(given: Seq<u8>, reply: WriteReply) -> WriteModel {
    match reply {
        WriteReply::Wrote(n) => if n == 0 {
            WriteModel::WroteZero
        } else {
            write_rest(given.skip(n as int))
        },
        WriteReply::Interrupted => write_rest(given),
        WriteReply::WouldBlock => write_rest(given),
        WriteReply::Failed => WriteModel::Failed,
    }
}

/// Whether the writer took no more bytes than it was given.
pub open spec fn honest_reply(given: Seq<u8>, reply: WriteReply) -> bool {
    reply matches WriteReply::Wrote(n) ==> n <= given.len()
}

/// What is to be done after the writer gave these replies, one to each write.
pub open spec fn after_replies(buf: Seq<u8>, replies: Seq<WriteReply>) -> WriteModel
    decreases replies.len(),
{
    if buf.len() == 0 || replies.len() == 0 {
        write_rest(buf)
    } else {
        match after_reply(buf, replies[0]) {
            WriteModel::Write(rest) => after_replies(rest, replies.drop_first()),
            end => end,
        }
    }
}

/// Whether each reply is honest, given what its write offered.
pub open spec fn honest_replies(buf: Seq<u8>, replies: Seq<WriteReply>) -> bool
    decreases replies.len(),
{
    buf.len() == 0 || replies.len() == 0 || (honest_reply(buf, replies[0]) && match after_reply(
        buf,
        replies[0],
    ) {
        WriteModel::Write(rest) => honest_replies(rest, replies.drop_first()),
        _ => true,
    })
}

/// The bytes that the writer took, in the order in which it took them.
pub open spec fn taken(buf: Seq<u8>, replies: Seq<WriteReply>) -> Seq<u8>
    decreases replies.len(),
{
    if buf.len() == 0 || replies.len() == 0 {
        Seq::empty()
    } else {
        match replies[0] {
            WriteReply::Wrote(n) => if n == 0 {
                Seq::empty()
            } else {
                buf.take(n as int) + taken(buf.skip(n as int), replies.drop_first())
            },
            WriteReply::Interrupted => taken(buf, replies.drop_first()),
            WriteReply::WouldBlock => taken(buf, replies.drop_first()),
            WriteReply::Failed => Seq::empty(),
        }
    }
}

/// A step of a write that keeps going when the writer is interrupted or would
/// block. `buf` is what is left, which the writer was given last; `reply` is its
/// reply, and absent when it was given nothing yet.
pub fn write_all<'a>(buf: &'a [u8], reply: Option<WriteReply>) -> (step: WriteStep<'a>)
    requires
        reply matches Some(r) ==> honest_reply(buf@, r),
    ensures
        step@ == match reply {
            Some(r) => after_reply(buf@, r),
            None => write_rest(buf@),
        },
{
    let mut buf = buf;
    match reply {
        Some(WriteReply::Wrote(0)) => {
            return WriteStep::WroteZero;
        },
        Some(WriteReply::Wrote(n)) => {
            buf = slice_subrange(buf, n, buf.len());
        },
        Some(WriteReply::Interrupted) => {},
        Some(WriteReply::WouldBlock) => {},
        Some(WriteReply::Failed) => {
            return WriteStep::Failed;
        },
        None => {},
    }
    if buf.len() == 0 {
        WriteStep::Done
    } else {
        WriteStep::Write(buf)
    }
}

/// Whatever the writer replies, it takes the bytes in order, each once: what it took,
/// followed by what it is to be given next, is all there was. When the write is
/// done it took everything, and when it failed it took the first of the bytes, but
/// not all of them.
pub proof fn law_write_all_delivers(buf: Seq<u8>, replies: Seq<WriteReply>)
    requires
        honest_replies(buf, replies),
    ensures
        match after_replies(buf, replies) {
            WriteModel::Done => taken(buf, replies) == buf,
            WriteModel::Write(rest) => taken(buf, replies) + rest == buf && rest.len() > 0,
            WriteModel::WroteZero => taken(buf, replies).is_prefix_of(buf) && taken(
                buf,
                replies,
            ).len() < buf.len(),
            WriteModel::Failed => taken(buf, replies).is_prefix_of(buf) && taken(
                buf,
                replies,
            ).len() < buf.len(),
        },
    decreases replies.len(),
{
    if buf.len() == 0 || replies.len() == 0 {
        assert(taken(buf, replies) + buf =~= buf);
    } else {
        match replies[0] {
            WriteReply::Wrote(n) => {
                if n > 0 {
                    let rest = buf.skip(n as int);
                    law_write_all_delivers(rest, replies.drop_first());
                    assert(buf.take(n as int) + rest =~= buf);
                    let later = taken(rest, replies.drop_first());
                    assert(rest.len() == 0 ==> later =~= Seq::<u8>::empty());
                    match after_replies(rest, replies.drop_first()) {
                        WriteModel::Write(left) => {
                            assert((buf.take(n as int) + later) + left =~= buf.take(n as int) + (
                            later + left));
                        },
                        _ => {},
                    }
                }
            },
            WriteReply::Interrupted => {
                law_write_all_delivers(buf, replies.drop_first());
            },
            WriteReply::WouldBlock => {
                law_write_all_delivers(buf, replies.drop_first());
            },
            WriteReply::Failed => {},
        }
    }
}

/// A writer that is interrupted or would block for a while makes no difference to
/// what is written and to how the write ends.
pub proof fn law_write_all_retries(buf: Seq<u8>, replies: Seq<WriteReply>, retry: WriteReply)
    requires
        retry == WriteReply::Interrupted || retry == WriteReply::WouldBlock,
    ensures
        after_replies(buf, seq![retry] + replies) == after_replies(buf, replies),
        taken(buf, seq![retry] + replies) == taken(buf, replies),
{
    let all = seq![retry] + replies;
    assert(all.drop_first() =~= replies);
    assert(all[0] == retry);
}

/// A write ends where the writer fails, and where it takes no byte of those that are left.
pub proof fn law_write_all_ends(buf: Seq<u8>, replies: Seq<WriteReply>)
    requires
        buf.len() > 0,
        replies.len() > 0,
    ensures
        replies[0] is Failed ==> after_replies(buf, replies) == WriteModel::Failed,
        replies[0] == WriteReply::Wrote(0) ==> after_replies(buf, replies) == WriteModel::WroteZero,
        after_replies(buf, replies) is Failed ==> exists|i: int|
            0 <= i < replies.len() && (#[trigger] replies[i]) is Failed,
        after_replies(buf, replies) is WroteZero ==> exists|i: int|
            0 <= i < replies.len() && #[trigger] replies[i] == WriteReply::Wrote(0),
    decreases replies.len(),
{
    assert(replies[0] == replies[0]);
    if let WriteModel::Write(rest) = after_reply(buf, replies[0]) {
        let later = replies.drop_first();
        if later.len() > 0 && rest.len() > 0 {
            law_write_all_ends(rest, later);
            if after_replies(rest, later) is Failed {
                let i = choose|i: int| 0 <= i < later.len() && (#[trigger] later[i]) is Failed;
                assert(replies[i + 1] == later[i]);
            }
            if after_replies(rest, later) is WroteZero {
                let i = choose|i: int|
                    0 <= i < later.len() && #[trigger] later[i] == WriteReply::Wrote(0);
                assert(replies[i + 1] == later[i]);
            }
        }
    }
}

/// A write of nothing is done before anything is written.
pub proof fn law_write_nothing(replies: Seq<WriteReply>)
    ensures
        after_replies(Seq::empty(), replies) == WriteModel::Done,
{
}

} // verus!
