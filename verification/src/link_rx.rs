//! The batch reader of a unicast link.

use vstd::prelude::*;
use vstd::string::*;

#[allow(unused_imports)]
use crate::framing::announced;
#[allow(unused_imports)]
use crate::framing::fold;
#[allow(unused_imports)]
use crate::framing::recv_folded;
#[allow(unused_imports)]
use crate::framing::recv_strict;
#[allow(unused_imports)]
use crate::framing::Fold;
#[allow(unused_imports)]
use crate::framing::Received;
use crate::framing::L_LEN;
use crate::link::LinkError;
use crate::link::LinkUnicast;
use crate::link::TransportLinkUnicastConfig;
use crate::rx_carry::RxCarry;

verus! {

/// The reader of a unicast link.
#[derive(Debug)]
pub struct TransportLinkUnicastRx {
    pub link: LinkUnicast,
    pub config: TransportLinkUnicastConfig,
    /// Present only in a reader that owns the byte stream for its whole lifetime; its absence keeps
    /// the strict two-read framing of a throwaway reader.
    pub carry: Option<RxCarry>,
}

/// What happened since the reader last asked for something.
#[derive(Clone, Copy, PartialEq, Eq, Structural, Debug)]
pub enum RecvEvent {
    /// A receive begins.
    Start,
    /// One read into `dst[at..]` delivered `n` bytes.
    Read { at: usize, n: usize },
    /// The two bytes of the length prefix were read.
    Prefix { lo: u8, hi: u8 },
    /// `dst[from..to]` was filled exactly.
    Body { to: usize },
    /// A datagram of `n` bytes was read into `dst`.
    Datagram { n: usize },
}

/// What the reader asks for next.
#[derive(Clone, Copy, PartialEq, Eq, Structural, Debug)]
pub enum RecvStep {
    /// One read into `dst[at..]`, of as many bytes as the stream offers.
    Read { at: usize },
    /// An exact read of the length prefix, outside `dst`.
    ReadPrefix,
    /// An exact read into `dst[from..to]`.
    ReadBody { from: usize, to: usize },
    /// One read into `dst`.
    ReadDatagram,
    /// The batch lies in `dst[..end]`.
    Done { end: usize },
}

impl Clone for TransportLinkUnicastRx {
    /// A reader of the same link and kind that carries nothing. A reader is cloned before its first
    /// read, when there is nothing to carry over.
    fn clone(&self) -> (rx: Self)
        ensures
            rx.wf(),
            rx.link == self.link,
            rx.config == self.config,
            rx.carry is Some <==> self.carry is Some,
            rx.pending().len() == 0,
    {
        TransportLinkUnicastRx {
            link: self.link.clone(),
            config: self.config,
            carry: match &self.carry {
                Some(_) => Some(RxCarry::default()),
                None => None,
            },
        }
    }
}

/// The bytes of the batch that are at hand when a folding reader takes up `event`: those carried,
/// after those already in the receive buffer.
pub open spec fn gathered(rx: TransportLinkUnicastRx, dst: Seq<u8>, event: RecvEvent) -> Seq<u8> {
    match event {
        RecvEvent::Read { at, n } => dst.take(at + n) + rx.pending(),
        _ => rx.pending(),
    }
}

/// What one step of a folding reader does: `rx`, `dst` and `event` lead to `next`, `filled` and
/// `res`. An empty read ends the stream. Otherwise the gathered bytes decide: while they are short
/// of a batch, they stay at the front of the buffer and one more read is asked for; once they are
/// whole, the batch is at the front of the buffer and all that follows it is carried.
pub open spec fn folded_step(
    rx: TransportLinkUnicastRx,
    dst: Seq<u8>,
    event: RecvEvent,
    next: TransportLinkUnicastRx,
    filled: Seq<u8>,
    res: Result<RecvStep, LinkError>,
) -> bool {
    let bytes = gathered(rx, dst, event);
    &&& filled.len() == dst.len()
    &&& next.same_link(&rx)
    &&& if event matches RecvEvent::Read { at: _, n: 0 } {
        &&& res == Err::<RecvStep, LinkError>(LinkError::ConnectionClosed)
        &&& next.pending() == rx.pending()
        &&& filled == dst
    } else {
        match fold(bytes, dst.len()) {
            Fold::Short => {
                &&& res matches Ok(RecvStep::Read { at })
                &&& at <= dst.len()
                &&& dst.len() >= L_LEN ==> at < dst.len()
                &&& filled.take(at as int) + next.pending() == bytes
                &&& next.pending().len() == 0 || dst.len() < L_LEN
            },
            Fold::TooLong => {
                &&& res == Err::<RecvStep, LinkError>(LinkError::InvalidBatchLength)
                &&& next.pending() == if event is Start {
                    rx.pending().skip(L_LEN as int)
                } else {
                    rx.pending()
                }
            },
            Fold::Whole { need } => {
                &&& res matches Ok(RecvStep::Done { end })
                &&& end == need
                &&& filled.take(end as int) == bytes.take(need as int)
                &&& next.pending() == bytes.skip(need as int)
            },
        }
    }
}

/// What one step of a strict reader asks for, with a receive buffer of `room` bytes.
pub open spec fn strict_step(event: RecvEvent, room: nat) -> Result<RecvStep, LinkError> {
    match event {
        RecvEvent::Prefix { lo, hi } => if L_LEN + announced(seq![lo, hi]) <= room {
            Ok(
                RecvStep::ReadBody {
                    from: L_LEN,
                    to: (L_LEN + announced(seq![lo, hi])) as usize,
                },
            )
        } else {
            Err(LinkError::InvalidBatchLength)
        },
        RecvEvent::Body { to } => Ok(RecvStep::Done { end: to }),
        _ => Ok(RecvStep::ReadPrefix),
    }
}

/// What one step of a datagram reader asks for: one read per message.
pub open spec fn datagram_step(event: RecvEvent, room: nat) -> Result<RecvStep, LinkError> {
    match event {
        RecvEvent::Datagram { n } => if n <= room {
            Ok(RecvStep::Done { end: n })
        } else {
            Err(LinkError::OutOfBounds)
        },
        _ => Ok(RecvStep::ReadDatagram),
    }
}

/// The events that can follow a start of this reader: those that answer what it asks for.
pub open spec fn answers(rx: TransportLinkUnicastRx, room: nat, event: RecvEvent) -> bool {
    if !rx.link.is_streamed {
        &&& event is Start || event is Datagram
        &&& rx.pending().len() == 0
    } else if rx.carry is Some {
        match event {
            RecvEvent::Start => true,
            RecvEvent::Read { at, n } => at + n <= room && (rx.pending().len() == 0 || room
                < L_LEN),
            _ => false,
        }
    } else {
        match event {
            RecvEvent::Start => true,
            RecvEvent::Prefix { .. } => true,
            RecvEvent::Body { to } => to <= room,
            _ => false,
        }
    }
}

impl TransportLinkUnicastRx {
    /// The carry, where there is one, is valid.
    pub open spec fn wf(&self) -> bool {
        self.carry matches Some(carry) ==> carry.wf()
    }

    /// The carried bytes.
    pub open spec fn pending(&self) -> Seq<u8> {
        match self.carry {
            Some(carry) => carry@,
            None => Seq::empty(),
        }
    }

    /// Only the carry differs.
    pub open spec fn same_link(&self, other: &Self) -> bool {
        &&& self.link == other.link
        &&& self.config == other.config
        &&& self.carry is Some <==> other.carry is Some
    }

    fn carry_take(&mut self, dst: &mut [u8], at: usize, want: usize) -> (n: usize)
        requires
            old(self).wf(),
            at <= old(dst)@.len(),
        ensures
            final(self).wf(),
            final(self).same_link(old(self)),
            n == crate::rx_carry::min_len(
                crate::rx_carry::min_len(want as int, old(self).pending().len() as int),
                old(dst)@.len() - at,
            ),
            final(self).pending() == old(self).pending().skip(n as int),
            final(dst)@ == old(dst)@.take(at as int) + old(self).pending().take(n as int) + old(
                dst,
            )@.skip(at + n),
    {
        let ghost before = dst@;
        match self.carry.as_mut() {
            Some(carry) => carry.take_into(dst, at, want),
            None => {
                assert(before =~= before.take(at as int) + Seq::<u8>::empty().take(0)
                    + before.skip(at as int));
                0
            },
        }
    }

    fn carry_stash(&mut self, src: &[u8])
        requires
            old(self).wf(),
            old(self).pending().len() == 0,
        ensures
            final(self).wf(),
            final(self).same_link(old(self)),
            old(self).carry is Some ==> final(self).pending() == src@,
    {
        if let Some(carry) = self.carry.as_mut() {
            carry.stash(src);
        }
    }

    /// The outcome of one read of `n` bytes: an empty read signals a closed stream.
    pub fn read_some(&self, n: usize) -> (res: Result<usize, LinkError>)
        ensures
            n == 0 ==> res == Err::<usize, LinkError>(LinkError::ConnectionClosed),
            n != 0 ==> res == Ok::<usize, LinkError>(n),
    {
        if n == 0 {
            Err(LinkError::ConnectionClosed)
        } else {
            Ok(n)
        }
    }

    /// Streamed framing, folded form: one step of assembling a batch with as few reads as the
    /// stream allows, keeping any surplus for the next receive.
    ///
    /// The surplus is stashed as the last thing before the batch is reported, so a receive that is
    /// abandoned between two steps never leaves the carry holding the next batch.
    pub fn recv_streamed_folded(&mut self, dst: &mut [u8], event: RecvEvent) -> (res: Result<
        RecvStep,
        LinkError,
    >)
        requires
            old(self).wf(),
            old(self).carry is Some,
            event is Start || event is Read,
            event matches RecvEvent::Read { at, n } ==> at + n <= old(dst)@.len() && (old(
                self,
            ).pending().len() == 0 || old(dst)@.len() < L_LEN),
        ensures
            final(self).wf(),
            folded_step(*old(self), old(dst)@, event, *final(self), final(dst)@, res),
    {
        let ghost bytes = gathered(*self, dst@, event);
        let ghost before = *self;
        let room: usize = dst.len();
        let mut have: usize = match event {
            RecvEvent::Read { at, n } => {
                match self.read_some(n) {
                    Ok(n) => at + n,
                    Err(error) => {
                        return Err(error);
                    },
                }
            },
            _ => {
                let n: usize = self.carry_take(dst, 0, L_LEN);
                n
            },
        };
        assert(dst@.take(have as int) + self.pending() =~= bytes);
        if have < L_LEN {
            assert(fold(bytes, room as nat) is Short);
            return Ok(RecvStep::Read { at: have });
        }
        assert(dst@.take(have as int)[0] == bytes[0]);
        assert(dst@.take(have as int)[1] == bytes[1]);
        let len: usize = dst[0] as usize + 256 * dst[1] as usize;
        let need: usize = L_LEN + len;
        if need > room {
            return Err(LinkError::InvalidBatchLength);
        }
        if have < need {
            let ghost part = dst@;
            let ghost rest = self.pending();
            let n: usize = self.carry_take(dst, have, need - have);
            assert(dst@.take(have + n) =~= part.take(have as int) + rest.take(n as int));
            have = have + n;
            assert(dst@.take(have as int) + self.pending() =~= bytes);
        }
        if have < need {
            return Ok(RecvStep::Read { at: have });
        }
        if have > need {
            assert(self.pending().len() == 0);
            assert(dst@.take(have as int) =~= bytes);
            self.carry_stash(vstd::slice::slice_subrange(dst, need, have));
            assert(self.pending() =~= bytes.skip(need as int));
        }
        assert(dst@.take(need as int) =~= bytes.take(need as int));
        assert(self.pending() =~= bytes.skip(need as int));
        Ok(RecvStep::Done { end: need })
    }

    /// Streamed framing, strict form: one step of reading the prefix and then the body, never a
    /// byte more. `room` is the length of the receive buffer.
    pub fn recv_streamed_strict(&self, room: usize, event: RecvEvent) -> (res: Result<
        RecvStep,
        LinkError,
    >)
        requires
            event is Start || event is Prefix || event is Body,
        ensures
            res == strict_step(event, room as nat),
    {
        match event {
            RecvEvent::Prefix { lo, hi } => {
                assert(seq![lo, hi][0] == lo && seq![lo, hi][1] == hi);
                let len: usize = lo as usize + 256 * hi as usize;
                let need: usize = L_LEN + len;
                if need <= room {
                    Ok(RecvStep::ReadBody { from: L_LEN, to: need })
                } else {
                    Err(LinkError::InvalidBatchLength)
                }
            },
            RecvEvent::Body { to } => Ok(RecvStep::Done { end: to }),
            _ => Ok(RecvStep::ReadPrefix),
        }
    }

    /// One step of receiving a batch into `dst`: folded on a stream that the reader owns, strict
    /// on any other stream, one message per read on a datagram link.
    pub fn recv_batch(&mut self, dst: &mut [u8], event: RecvEvent) -> (res: Result<
        RecvStep,
        LinkError,
    >)
        requires
            old(self).wf(),
            answers(*old(self), old(dst)@.len(), event),
        ensures
            final(self).wf(),
            final(self).same_link(old(self)),
            if !old(self).link.is_streamed {
                &&& res == datagram_step(event, old(dst)@.len())
                &&& final(dst)@ == old(dst)@
                &&& final(self).pending() == old(self).pending()
            } else if old(self).carry is Some {
                folded_step(*old(self), old(dst)@, event, *final(self), final(dst)@, res)
            } else {
                &&& res == strict_step(event, old(dst)@.len())
                &&& final(dst)@ == old(dst)@
                &&& final(self).pending() == old(self).pending()
            },
    {
        if self.link.is_streamed {
            if self.carry.is_some() {
                self.recv_streamed_folded(dst, event)
            } else {
                self.recv_streamed_strict(dst.len(), event)
            }
        } else {
            match event {
                RecvEvent::Datagram { n } => {
                    if n <= dst.len() {
                        Ok(RecvStep::Done { end: n })
                    } else {
                        Err(LinkError::OutOfBounds)
                    }
                },
                _ => Ok(RecvStep::ReadDatagram),
            }
        }
    }

    /// Length of the buffer into which a single message is received.
    pub fn recv_buffer_len(&self) -> (len: usize)
        ensures
            len == self.config.batch.mtu,
    {
        self.config.batch.mtu as usize
    }

    /// The batch that was initialized from the received bytes, or the text of the failure on the
    /// reader displayed as `link`.
    pub fn initialized<B>(&self, link: &str, batch: Result<B, &str>) -> (res: Result<B, String>)
        ensures
            match batch {
                Ok(batch) => res == Ok::<B, String>(batch),
                Err(reason) => res matches Err(text) && text@ == "Read error from link: "@ + link@
                    + ". "@ + reason@ + "."@,
            },
    {
        match batch {
            Ok(batch) => Ok(batch),
            Err(reason) => Err(
                "Read error from link: ".to_owned().concat(link).concat(". ").concat(reason).concat(
                    ".",
                ),
            ),
        }
    }

    /// The message of a received batch, given what its decoding gave.
    pub fn recv<M>(&self, decoded: Option<M>) -> (res: Result<M, LinkError>)
        ensures
            match decoded {
                Some(msg) => res == Ok::<M, LinkError>(msg),
                None => res == Err::<M, LinkError>(LinkError::Decode),
            },
    {
        match decoded {
            Some(msg) => Ok(msg),
            None => Err(LinkError::Decode),
        }
    }
}

/// The steps of a folding reader make up one receive of the stream: a step that reports a batch
/// delivers what the receive delivers, a step that rejects a batch does so where the receive does,
/// and a step that asks for a read leaves the receive where it was, to be taken up with the bytes
/// that the read delivered.
pub proof fn step_advances_receive(
    rx: TransportLinkUnicastRx,
    dst: Seq<u8>,
    event: RecvEvent,
    next: TransportLinkUnicastRx,
    filled: Seq<u8>,
    res: Result<RecvStep, LinkError>,
    reads: Seq<Seq<u8>>,
)
    requires
        rx.carry is Some,
        rx.link.is_streamed,
        L_LEN <= dst.len() <= usize::MAX,
        answers(rx, dst.len(), event),
        !(event matches RecvEvent::Read { at: _, n: 0 }),
        folded_step(rx, dst, event, next, filled, res),
    ensures
        res matches Ok(RecvStep::Done { end }) ==> recv_folded(
            gathered(rx, dst, event),
            reads,
            dst.len(),
        ) == (Received::Batch {
            body: filled.subrange(L_LEN as int, end as int),
            carry: next.pending(),
            unread: reads,
        }),
        res is Err ==> recv_folded(gathered(rx, dst, event), reads, dst.len()) is TooLong,
        res matches Ok(RecvStep::Read { at }) ==> {
            &&& reads.len() == 0 ==> recv_folded(
                gathered(rx, dst, event),
                reads,
                dst.len(),
            ) is Closed
            &&& (reads.len() > 0 && 0 < reads[0].len() <= dst.len() - at) ==> {
                let read = RecvEvent::Read { at, n: reads[0].len() as usize };
                let refilled = filled.take(at as int) + reads[0] + filled.skip(at + reads[0].len());
                &&& answers(next, refilled.len(), read)
                &&& recv_folded(gathered(rx, dst, event), reads, dst.len()) == recv_folded(
                    gathered(next, refilled, read),
                    reads.drop_first(),
                    dst.len(),
                )
            }
        },
        res matches Ok(step) ==> step is Done || step is Read,
{
    let bytes = gathered(rx, dst, event);
    match fold(bytes, dst.len()) {
        Fold::Whole { need } => {
            assert(bytes.subrange(L_LEN as int, need as int) =~= bytes.take(need as int).skip(
                L_LEN as int,
            ));
            assert(filled.subrange(L_LEN as int, need as int) =~= filled.take(need as int).skip(
                L_LEN as int,
            ));
        },
        Fold::Short => if let Ok(RecvStep::Read { at }) = res {
            if reads.len() > 0 && 0 < reads[0].len() <= dst.len() - at {
                let read = RecvEvent::Read { at, n: reads[0].len() as usize };
                let refilled = filled.take(at as int) + reads[0] + filled.skip(at + reads[0].len());
                assert(refilled.take(at + reads[0].len()) =~= filled.take(at as int) + reads[0]);
                assert(gathered(next, refilled, read) =~= bytes + reads[0]);
            }
        },
        Fold::TooLong => {},
    }
}

/// The steps of a strict reader make up one receive of the stream: the prefix decides whether the
/// batch is rejected, and else the body is read from exactly the bytes of the batch.
pub proof fn strict_steps_make_up_a_receive(stream: Seq<u8>, room: nat)
    requires
        stream.len() >= L_LEN,
        room <= usize::MAX,
    ensures
        match strict_step(RecvEvent::Prefix { lo: stream[0], hi: stream[1] }, room) {
            Ok(RecvStep::ReadBody { from, to }) => {
                &&& from == L_LEN
                &&& from <= to <= room
                &&& strict_step(RecvEvent::Body { to }, room) == Ok::<RecvStep, LinkError>(
                    RecvStep::Done { end: to },
                )
                &&& recv_strict(stream, room) == if stream.len() < to {
                    Received::Closed
                } else {
                    Received::Batch {
                        body: stream.subrange(from as int, to as int),
                        carry: Seq::empty(),
                        unread: seq![stream.skip(to as int)],
                    }
                }
            },
            Ok(_) => false,
            Err(error) => error is InvalidBatchLength && recv_strict(stream, room) is TooLong,
        },
{
}

/// A datagram is a batch as it is, and is rejected if and only if it claims more bytes than the
/// receive buffer has.
pub proof fn datagram_is_a_batch(n: usize, room: nat)
    ensures
        n <= room <==> datagram_step(RecvEvent::Datagram { n }, room) == Ok::<RecvStep, LinkError>(
            RecvStep::Done { end: n },
        ),
        n > room <==> datagram_step(RecvEvent::Datagram { n }, room) == Err::<RecvStep, LinkError>(
            LinkError::OutOfBounds,
        ),
{
}

/// A receive begins with a read: of one datagram, or of the prefix by a strict reader.
pub proof fn receive_begins_with_a_read(room: nat)
    ensures
        datagram_step(RecvEvent::Start, room) == Ok::<RecvStep, LinkError>(RecvStep::ReadDatagram),
        strict_step(RecvEvent::Start, room) == Ok::<RecvStep, LinkError>(RecvStep::ReadPrefix),
{
}

/// A stream that ends is reported as closed, whatever was gathered before, and no byte is lost or
/// made up by it.
pub proof fn empty_read_closes_the_stream(
    rx: TransportLinkUnicastRx,
    dst: Seq<u8>,
    at: usize,
    n: usize,
    next: TransportLinkUnicastRx,
    filled: Seq<u8>,
    res: Result<RecvStep, LinkError>,
)
    requires
        folded_step(rx, dst, RecvEvent::Read { at, n }, next, filled, res),
    ensures
        n == 0 ==> res == Err::<RecvStep, LinkError>(LinkError::ConnectionClosed),
        n == 0 ==> next.pending() == rx.pending() && filled == dst,
        n != 0 ==> !(res matches Err(error) && error is ConnectionClosed),
{
}

/// A batch that does not fit costs the carry its prefix, where the receive began with it, and nothing
/// else.
pub proof fn rejected_batch_keeps_the_carry(
    rx: TransportLinkUnicastRx,
    dst: Seq<u8>,
    event: RecvEvent,
    next: TransportLinkUnicastRx,
    filled: Seq<u8>,
    res: Result<RecvStep, LinkError>,
)
    requires
        folded_step(rx, dst, event, next, filled, res),
        res == Err::<RecvStep, LinkError>(LinkError::InvalidBatchLength),
    ensures
        event is Start ==> rx.pending() == rx.pending().take(L_LEN as int) + next.pending(),
        event is Start ==> next.pending().len() + L_LEN == rx.pending().len(),
        event is Read ==> next.pending() == rx.pending(),
{
    if event is Start {
        assert(rx.pending() =~= rx.pending().take(L_LEN as int) + rx.pending().skip(L_LEN as int));
    }
}

} // verus!
