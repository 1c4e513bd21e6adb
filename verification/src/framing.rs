//! Streamed framing: what a batch looks like on a byte stream and what a reader makes of it.
//!
//! On a streamed link every batch travels as `[u16 length, little endian][body]`. A *strict* reader
//! fetches exactly the prefix and then exactly the body. A *folding* reader fetches whatever the
//! stream offers and keeps the surplus for the next batch. This module says what either reader
//! delivers for any way in which the stream was cut into reads.

use vstd::prelude::*;

verus! {

/// Length of the prefix that precedes every batch on a streamed link.
pub const L_LEN: usize = 2;

/// The batch length that a prefix announces.
pub open spec fn announced(prefix: Seq<u8>) -> nat {
    (prefix[0] as nat) + 256 * (prefix[1] as nat)
}

/// The prefix of a batch of `len` bytes.
pub open spec fn prefix_of(len: nat) -> Seq<u8> {
    seq![(len % 256) as u8, (len / 256) as u8]
}

/// A batch on the wire.
pub open spec fn framed(body: Seq<u8>) -> Seq<u8> {
    prefix_of(body.len()) + body
}

/// Consecutive batches on the wire.
pub open spec fn wire(bodies: Seq<Seq<u8>>) -> Seq<u8>
    decreases bodies.len(),
{
    if bodies.len() == 0 {
        Seq::empty()
    } else {
        framed(bodies[0]) + wire(bodies.drop_first())
    }
}

/// What a folding reader can do with the bytes that it has gathered.
pub enum Fold {
    /// The batch is not complete: one more read is needed.
    Short,
    /// The announced batch does not fit the receive buffer.
    TooLong,
    /// The first `need` gathered bytes are one whole batch, prefix included.
    Whole { need: nat },
}

/// The state of a batch of which the bytes `gathered` are at hand, with a receive buffer of `room`
/// bytes. A buffer that cannot even hold the prefix never completes anything.
pub open spec fn fold(gathered: Seq<u8>, room: nat) -> Fold {
    if room < L_LEN || gathered.len() < L_LEN {
        Fold::Short
    } else if L_LEN + announced(gathered) > room {
        Fold::TooLong
    } else if gathered.len() < L_LEN + announced(gathered) {
        Fold::Short
    } else {
        Fold::Whole { need: (L_LEN + announced(gathered)) as nat }
    }
}

/// What one receive amounts to.
pub enum Received {
    /// A batch, the bytes carried over to the next receive, and the reads not yet made.
    Batch { body: Seq<u8>, carry: Seq<u8>, unread: Seq<Seq<u8>> },
    /// The announced batch does not fit the receive buffer.
    TooLong,
    /// The stream ended inside a batch.
    Closed,
}

/// One receive of a folding reader that starts with the bytes `gathered` and on a stream whose
/// next reads deliver `reads`.
pub open spec fn recv_folded(gathered: Seq<u8>, reads: Seq<Seq<u8>>, room: nat) -> Received
    decreases reads.len(),
{
    match fold(gathered, room) {
        Fold::TooLong => Received::TooLong,
        Fold::Whole { need } => Received::Batch {
            body: gathered.subrange(L_LEN as int, need as int),
            carry: gathered.skip(need as int),
            unread: reads,
        },
        Fold::Short => if reads.len() == 0 {
            Received::Closed
        } else {
            recv_folded(gathered + reads[0], reads.drop_first(), room)
        },
    }
}

/// The bodies that `count` consecutive receives of a folding reader deliver, if all succeed.
pub open spec fn drain_folded(
    carry: Seq<u8>,
    reads: Seq<Seq<u8>>,
    room: nat,
    count: nat,
) -> Option<Seq<Seq<u8>>>
    decreases count,
{
    if count == 0 {
        Some(Seq::empty())
    } else {
        match recv_folded(carry, reads, room) {
            Received::Batch { body, carry, unread } => match drain_folded(
                carry,
                unread,
                room,
                (count - 1) as nat,
            ) {
                Some(rest) => Some(seq![body] + rest),
                None => None,
            },
            _ => None,
        }
    }
}

/// One receive of a strict reader on the byte stream `stream`: the prefix, then the body.
pub open spec fn recv_strict(stream: Seq<u8>, room: nat) -> Received {
    if stream.len() < L_LEN {
        Received::Closed
    } else if L_LEN + announced(stream) > room {
        Received::TooLong
    } else if stream.len() < L_LEN + announced(stream) {
        Received::Closed
    } else {
        Received::Batch {
            body: stream.subrange(L_LEN as int, (L_LEN + announced(stream)) as int),
            carry: Seq::empty(),
            unread: seq![stream.skip((L_LEN + announced(stream)) as int)],
        }
    }
}

/// The length that a prefix announces is the length that it was made for.
pub proof fn prefix_announces_length(len: nat)
    requires
        len <= u16::MAX,
    ensures
        announced(prefix_of(len)) == len,
        prefix_of(len).len() == L_LEN,
{
}

/// A folding reader delivers the next frame of the stream and keeps all that follows it: what it
/// carried plus what the reads deliver is the frame of the batch, followed by what it now carries
/// and what is still unread.
pub proof fn batch_is_next_frame(gathered: Seq<u8>, reads: Seq<Seq<u8>>, room: nat)
    ensures
        recv_folded(gathered, reads, room) matches Received::Batch { body, carry, unread } ==> {
            &&& gathered + reads.flatten() == framed(body) + carry + unread.flatten()
            &&& L_LEN + body.len() <= room
        },
    decreases reads.len(),
{
    match fold(gathered, room) {
        Fold::Whole { need } => {
            let body = gathered.subrange(L_LEN as int, need as int);
            assert(framed(body) =~= gathered.take(need as int)) by {
                assert(body.len() == announced(gathered));
            }
            assert(gathered + reads.flatten() =~= framed(body) + gathered.skip(need as int)
                + reads.flatten());
        },
        Fold::Short => if reads.len() != 0 {
            batch_is_next_frame(gathered + reads[0], reads.drop_first(), room);
            assert(gathered + reads.flatten() =~= gathered + reads[0]
                + reads.drop_first().flatten());
        },
        Fold::TooLong => {},
    }
}

/// However the stream is cut into reads, the receive that finds a whole frame of `body` at the
/// front of its bytes and of the stream delivers `body`, and leaves exactly the rest.
pub proof fn written_batch_is_received(
    gathered: Seq<u8>,
    reads: Seq<Seq<u8>>,
    room: nat,
    body: Seq<u8>,
    rest: Seq<u8>,
)
    requires
        gathered + reads.flatten() == framed(body) + rest,
        body.len() <= u16::MAX,
        L_LEN + body.len() <= room,
    ensures
        recv_folded(gathered, reads, room) matches Received::Batch { body: got, carry, unread }
            && got == body && carry + unread.flatten() == rest,
    decreases reads.len(),
{
    let all = gathered + reads.flatten();
    prefix_announces_length(body.len());
    if gathered.len() >= L_LEN {
        assert(gathered[0] == all[0] && gathered[1] == all[1]);
        assert(all[0] == framed(body)[0] && all[1] == framed(body)[1]);
        assert(announced(gathered) == body.len());
    }
    match fold(gathered, room) {
        Fold::Whole { need } => {
            assert(need == framed(body).len());
            assert(gathered.subrange(L_LEN as int, need as int) =~= body) by {
                assert forall|i: int| 0 <= i < body.len() implies gathered[L_LEN + i] == body[i] by {
                    assert(all[L_LEN + i] == gathered[L_LEN + i]);
                    assert((framed(body) + rest)[L_LEN + i] == body[i]);
                }
            }
            assert(gathered.skip(need as int) + reads.flatten() =~= all.skip(need as int));
            assert(all.skip(need as int) =~= rest);
        },
        Fold::Short => {
            if reads.len() == 0 {
                assert(reads.flatten() =~= Seq::<u8>::empty());
                assert(all =~= gathered);
                assert(false);
            }
            assert(gathered + reads.flatten() =~= gathered + reads[0]
                + reads.drop_first().flatten());
            written_batch_is_received(gathered + reads[0], reads.drop_first(), room, body, rest);
        },
        Fold::TooLong => {},
    }
}

/// What was written is what is received: on a stream that holds `bodies`, in frames and in any
/// cutting into reads, as many receives deliver exactly `bodies`, byte for byte and in order.
pub proof fn written_batches_are_received(
    carry: Seq<u8>,
    reads: Seq<Seq<u8>>,
    room: nat,
    bodies: Seq<Seq<u8>>,
    rest: Seq<u8>,
)
    requires
        carry + reads.flatten() == wire(bodies) + rest,
        forall|i: int|
            #![trigger bodies[i]]
            0 <= i < bodies.len() ==> bodies[i].len() <= u16::MAX && L_LEN + bodies[i].len()
                <= room,
    ensures
        drain_folded(carry, reads, room, bodies.len()) == Some(bodies),
    decreases bodies.len(),
{
    if bodies.len() == 0 {
        assert(bodies =~= Seq::empty());
    } else {
        let tail = bodies.drop_first();
        assert(wire(bodies) + rest =~= framed(bodies[0]) + (wire(tail) + rest));
        written_batch_is_received(carry, reads, room, bodies[0], wire(tail) + rest);
        if let Received::Batch { body, carry: next, unread } = recv_folded(carry, reads, room) {
            assert forall|i: int|
                #![trigger tail[i]]
                0 <= i < tail.len() implies tail[i].len() <= u16::MAX && L_LEN + tail[i].len()
                <= room by {
                assert(tail[i] == bodies[i + 1]);
            }
            written_batches_are_received(next, unread, room, tail, rest);
            assert(seq![body] + tail =~= bodies);
        }
    }
}

/// A folding reader reads only while its bytes do not complete a batch, so it makes as few reads as
/// the stream allows; a batch that is carried whole costs no read at all.
pub proof fn reads_only_while_short(gathered: Seq<u8>, reads: Seq<Seq<u8>>, room: nat)
    ensures
        recv_folded(gathered, reads, room) matches Received::Batch { body, carry, unread } ==> {
            &&& unread.len() <= reads.len()
            &&& unread == reads.skip(reads.len() - unread.len())
            &&& forall|j: int|
                0 <= j < reads.len() - unread.len() ==> fold(
                    gathered + #[trigger] reads.take(j).flatten(),
                    room,
                ) is Short
        },
        fold(gathered, room) is Whole ==> recv_folded(gathered, reads, room)->unread == reads,
    decreases reads.len(),
{
    match fold(gathered, room) {
        Fold::Short => if reads.len() != 0 {
            let later = reads.drop_first();
            reads_only_while_short(gathered + reads[0], later, room);
            if let Received::Batch { body, carry, unread } = recv_folded(gathered, reads, room) {
                assert(unread =~= reads.skip(reads.len() - unread.len()));
                assert forall|j: int| 0 <= j < reads.len() - unread.len() implies fold(
                    gathered + #[trigger] reads.take(j).flatten(),
                    room,
                ) is Short by {
                    if j == 0 {
                        assert(reads.take(0).flatten() =~= Seq::<u8>::empty());
                        assert(gathered + reads.take(0).flatten() =~= gathered);
                    } else {
                        assert(reads.take(j).drop_first() =~= later.take(j - 1));
                        assert(reads.take(j).flatten() =~= reads[0] + later.take(j - 1).flatten());
                        assert(gathered + reads.take(j).flatten() =~= gathered + reads[0]
                            + later.take(j - 1).flatten());
                    }
                }
            }
        },
        Fold::Whole { need } => {
            assert(reads.skip(0) =~= reads);
        },
        Fold::TooLong => {},
    }
}

/// A stream that ends inside a batch is reported as closed, in any cutting into reads.
pub proof fn truncated_batch_is_closed(
    gathered: Seq<u8>,
    reads: Seq<Seq<u8>>,
    room: nat,
    body: Seq<u8>,
)
    requires
        gathered + reads.flatten() == framed(body).take((gathered + reads.flatten()).len() as int),
        (gathered + reads.flatten()).len() < framed(body).len(),
        body.len() <= u16::MAX,
        L_LEN + body.len() <= room,
    ensures
        recv_folded(gathered, reads, room) is Closed,
    decreases reads.len(),
{
    let all = gathered + reads.flatten();
    prefix_announces_length(body.len());
    if gathered.len() >= L_LEN {
        assert(gathered[0] == all[0] && gathered[1] == all[1]);
        assert(all[0] == framed(body)[0] && all[1] == framed(body)[1]);
        assert(announced(gathered) == body.len());
    }
    assert(fold(gathered, room) is Short);
    if reads.len() != 0 {
        assert(all =~= gathered + reads[0] + reads.drop_first().flatten());
        truncated_batch_is_closed(gathered + reads[0], reads.drop_first(), room, body);
    }
}

/// A batch longer than the receive buffer is rejected, in any cutting into reads.
pub proof fn oversized_batch_is_rejected(gathered: Seq<u8>, reads: Seq<Seq<u8>>, room: nat)
    requires
        room >= L_LEN,
        (gathered + reads.flatten()).len() >= L_LEN,
        L_LEN + announced(gathered + reads.flatten()) > room,
    ensures
        recv_folded(gathered, reads, room) is TooLong,
    decreases reads.len(),
{
    let all = gathered + reads.flatten();
    if gathered.len() >= L_LEN {
        assert(gathered[0] == all[0] && gathered[1] == all[1]);
    } else if reads.len() == 0 {
        assert(reads.flatten() =~= Seq::<u8>::empty());
        assert(all =~= gathered);
    } else {
        assert(all =~= gathered + reads[0] + reads.drop_first().flatten());
        oversized_batch_is_rejected(gathered + reads[0], reads.drop_first(), room);
    }
}

/// The two readers agree: a folding reader delivers, rejects or misses exactly what a strict reader
/// does on the same bytes, and leaves the same bytes behind.
pub proof fn readers_agree(gathered: Seq<u8>, reads: Seq<Seq<u8>>, room: nat)
    requires
        room >= L_LEN,
    ensures
        match recv_folded(gathered, reads, room) {
            Received::Batch { body, carry, unread } => {
                recv_strict(gathered + reads.flatten(), room) == (Received::Batch {
                    body,
                    carry: Seq::empty(),
                    unread: seq![carry + unread.flatten()],
                })
            },
            Received::TooLong => recv_strict(gathered + reads.flatten(), room) is TooLong,
            Received::Closed => recv_strict(gathered + reads.flatten(), room) is Closed,
        },
    decreases reads.len(),
{
    let all = gathered + reads.flatten();
    if gathered.len() >= L_LEN {
        assert(gathered[0] == all[0] && gathered[1] == all[1]);
    }
    match fold(gathered, room) {
        Fold::Whole { need } => {
            assert(gathered.subrange(L_LEN as int, need as int) =~= all.subrange(
                L_LEN as int,
                need as int,
            ));
            assert(gathered.skip(need as int) + reads.flatten() =~= all.skip(need as int));
        },
        Fold::Short => if reads.len() == 0 {
            assert(reads.flatten() =~= Seq::<u8>::empty());
            assert(all =~= gathered);
        } else {
            assert(all =~= gathered + reads[0] + reads.drop_first().flatten());
            readers_agree(gathered + reads[0], reads.drop_first(), room);
        },
        Fold::TooLong => {},
    }
}

} // verus!
