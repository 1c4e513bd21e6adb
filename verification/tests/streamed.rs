//! Carry-over of the folding reader, driven over a scripted byte stream whose chunks fall where each
//! case wants them.

use std::collections::VecDeque;

use zenoh_net::framing::L_LEN;
use zenoh_net::link::BatchConfig;
use zenoh_net::link::LinkUnicast;
use zenoh_net::link::TransportLinkUnicast;
use zenoh_net::link::TransportLinkUnicastConfig;
use zenoh_net::link::TransportLinkUnicastDirection;
use zenoh_net::link_rx::RecvEvent;
use zenoh_net::link_rx::RecvStep;
use zenoh_net::link_rx::TransportLinkUnicastRx;

const MTU: u16 = 1024;

/// A link whose `read` hands out scripted chunks.
struct ScriptedLink {
    chunks: VecDeque<Vec<u8>>,
    reads: usize,
}

impl ScriptedLink {
    fn new(chunks: Vec<Vec<u8>>) -> ScriptedLink {
        ScriptedLink { chunks: chunks.into(), reads: 0 }
    }

    fn read(&mut self, buffer: &mut [u8]) -> usize {
        self.reads += 1;
        let Some(front) = self.chunks.front_mut() else {
            return 0;
        };
        let n = front.len().min(buffer.len());
        buffer[..n].copy_from_slice(&front[..n]);
        front.drain(..n);
        if front.is_empty() {
            self.chunks.pop_front();
        }
        n
    }

    fn read_exact(&mut self, buffer: &mut [u8]) -> Result<(), String> {
        let mut done = 0;
        while done < buffer.len() {
            let n = self.read(&mut buffer[done..]);
            if n == 0 {
                return Err("scripted stream exhausted".to_string());
            }
            done += n;
        }
        Ok(())
    }
}

fn transport_link(streamed: bool) -> TransportLinkUnicast {
    let link = LinkUnicast {
        mtu: MTU,
        is_streamed: streamed,
        src: "tcp/127.0.0.1:1".to_string(),
        dst: "tcp/127.0.0.1:2".to_string(),
    };
    let config = TransportLinkUnicastConfig {
        direction: TransportLinkUnicastDirection::Inbound,
        batch: BatchConfig { mtu: MTU, is_streamed: streamed, is_compression: false },
        priorities: None,
        reliability: None,
    };
    TransportLinkUnicast::new(link, config)
}

/// `[u16 len][body]` on the wire.
fn framed(body: &[u8]) -> Vec<u8> {
    let mut out = (body.len() as u16).to_le_bytes().to_vec();
    out.extend_from_slice(body);
    out
}

fn body(seed: u8, len: usize) -> Vec<u8> {
    (0..len).map(|i| seed.wrapping_add(i as u8)).collect()
}

fn recv_batch(rx: &mut TransportLinkUnicastRx, link: &mut ScriptedLink) -> Result<Vec<u8>, String> {
    let mut dst = vec![0u8; MTU as usize];
    let mut event = RecvEvent::Start;
    loop {
        let step = rx.recv_batch(&mut dst, event).map_err(|e| e.message("tcp/127.0.0.1:1"))?;
        event = match step {
            RecvStep::Read { at } => {
                let n = link.read(&mut dst[at..]);
                RecvEvent::Read { at, n }
            }
            RecvStep::ReadPrefix => {
                let mut prefix = [0u8; L_LEN];
                link.read_exact(&mut prefix)?;
                RecvEvent::Prefix { lo: prefix[0], hi: prefix[1] }
            }
            RecvStep::ReadBody { from, to } => {
                link.read_exact(&mut dst[from..to])?;
                RecvEvent::Body { to }
            }
            RecvStep::ReadDatagram => {
                let n = link.read(&mut dst);
                RecvEvent::Datagram { n }
            }
            RecvStep::Done { end } => {
                let from = if rx.link.is_streamed { L_LEN } else { 0 };
                return Ok(dst[from..end].to_vec());
            }
        };
    }
}

fn drain(
    rx: &mut TransportLinkUnicastRx,
    link: &mut ScriptedLink,
    count: usize,
) -> Result<Vec<Vec<u8>>, String> {
    let mut out = Vec::new();
    for _ in 0..count {
        out.push(recv_batch(rx, link)?);
    }
    Ok(out)
}

/// Several whole batches delivered by one read: the folding reader returns them all, in order, and
/// never goes back to the socket.
#[test]
fn one_read_carrying_three_batches() {
    let bodies = [body(1, 40), body(2, 7), body(3, 100)];
    let mut wire = Vec::new();
    for b in &bodies {
        wire.extend_from_slice(&framed(b));
    }
    let mut link = ScriptedLink::new(vec![wire]);
    let mut rx = transport_link(true).rx_buffered();

    let got = drain(&mut rx, &mut link, 3).expect("three batches");
    assert_eq!(got, bodies.to_vec(), "batches must survive the carry intact");
    assert_eq!(link.reads, 1, "three batches arrived in one read; the fold must not read again");
}

/// The same stream through the strict reader costs two reads per batch.
#[test]
fn strict_reader_still_costs_two_reads_per_batch() {
    let bodies = [body(1, 40), body(2, 7), body(3, 100)];
    let mut wire = Vec::new();
    for b in &bodies {
        wire.extend_from_slice(&framed(b));
    }
    let mut link = ScriptedLink::new(vec![wire]);
    let mut rx = transport_link(true).rx();

    let got = drain(&mut rx, &mut link, 3).expect("three batches");
    assert_eq!(got, bodies.to_vec());
    assert_eq!(
        link.reads, 6,
        "strict framing: one read for the prefix and one for the body, per batch"
    );
}

/// A batch split across read boundaries: the fold keeps pulling until the body is complete.
#[test]
fn batch_split_across_reads() {
    let b = body(9, 300);
    let wire = framed(&b);
    let (head, tail) = wire.split_at(120);
    let mut link = ScriptedLink::new(vec![
        head.to_vec(),
        tail[..50].to_vec(),
        tail[50..].to_vec(),
    ]);
    let mut rx = transport_link(true).rx_buffered();

    let got = drain(&mut rx, &mut link, 1).expect("one batch");
    assert_eq!(got, vec![b]);
}

/// The length prefix itself straddles a read boundary.
#[test]
fn length_prefix_split_across_reads() {
    let b = body(5, 64);
    let wire = framed(&b);
    assert_eq!(L_LEN, 2);
    let mut link = ScriptedLink::new(vec![
        wire[..1].to_vec(),
        wire[1..2].to_vec(),
        wire[2..].to_vec(),
    ]);
    let mut rx = transport_link(true).rx_buffered();

    let got = drain(&mut rx, &mut link, 1).expect("one batch");
    assert_eq!(got, vec![b]);
}

/// One read ends in the middle of the next length prefix: the carry holds a single byte that the
/// next call consumes before it reads again.
#[test]
fn carry_holds_a_lone_prefix_byte() {
    let first = body(11, 30);
    let second = body(22, 45);
    let mut wire = framed(&first);
    let second_framed = framed(&second);
    wire.push(second_framed[0]);
    let mut link = ScriptedLink::new(vec![wire, second_framed[1..].to_vec()]);
    let mut rx = transport_link(true).rx_buffered();

    let got = drain(&mut rx, &mut link, 2).expect("two batches");
    assert_eq!(got, vec![first, second]);
    assert_eq!(link.reads, 2, "one read per scripted chunk, and no more");
}

/// One read ends with a complete prefix but no body.
#[test]
fn carry_holds_a_whole_prefix_without_its_body() {
    let first = body(31, 16);
    let second = body(41, 80);
    let mut wire = framed(&first);
    let second_framed = framed(&second);
    wire.extend_from_slice(&second_framed[..L_LEN]);
    let mut link = ScriptedLink::new(vec![wire, second_framed[L_LEN..].to_vec()]);
    let mut rx = transport_link(true).rx_buffered();

    let got = drain(&mut rx, &mut link, 2).expect("two batches");
    assert_eq!(got, vec![first, second]);
}

/// A long run of batches, seven bytes per read.
#[test]
fn many_batches_through_tiny_reads() {
    let bodies: Vec<Vec<u8>> = (0..25u8).map(|i| body(i, 3 + (i as usize % 17))).collect();
    let mut wire = Vec::new();
    for b in &bodies {
        wire.extend_from_slice(&framed(b));
    }
    let chunks: Vec<Vec<u8>> = wire.chunks(7).map(<[u8]>::to_vec).collect();
    let mut link = ScriptedLink::new(chunks);
    let mut rx = transport_link(true).rx_buffered();

    let got = drain(&mut rx, &mut link, bodies.len()).expect("all batches");
    assert_eq!(got, bodies);
}

/// A batch with an empty body does not desynchronise the one that follows it.
#[test]
fn zero_length_batch_does_not_desync_the_stream() {
    let next = body(77, 20);
    let mut wire = framed(&[]);
    wire.extend_from_slice(&framed(&next));
    let mut link = ScriptedLink::new(vec![wire]);
    let mut rx = transport_link(true).rx_buffered();

    let got = drain(&mut rx, &mut link, 2).expect("two batches");
    assert_eq!(got, vec![Vec::new(), next]);
}

/// A stream that closes in the middle of a batch is an error.
#[test]
fn eof_mid_batch_is_an_error() {
    let b = body(3, 200);
    let wire = framed(&b);
    let mut link = ScriptedLink::new(vec![wire[..50].to_vec()]);
    let mut rx = transport_link(true).rx_buffered();

    let err = drain(&mut rx, &mut link, 1).expect_err("truncated batch must fail");
    assert!(err.contains("Connection closed"), "unexpected error: {err}");
}

/// A batch longer than the receive buffer is rejected.
#[test]
fn oversized_batch_length_is_rejected() {
    let mut wire = (MTU).to_le_bytes().to_vec();
    wire.extend_from_slice(&body(1, 16));
    let mut link = ScriptedLink::new(vec![wire]);
    let mut rx = transport_link(true).rx_buffered();

    let err = drain(&mut rx, &mut link, 1).expect_err("oversized batch must fail");
    assert!(err.contains("Invalid batch length"), "unexpected error: {err}");
}

/// A clone of a reader that has read nothing starts with an empty carry and still folds.
#[test]
fn clone_of_a_fresh_buffered_reader_is_buffered_and_empty() {
    let bodies = [body(1, 10), body(2, 10)];
    let mut wire = Vec::new();
    for b in &bodies {
        wire.extend_from_slice(&framed(b));
    }
    let mut link = ScriptedLink::new(vec![wire]);
    let rx = transport_link(true).rx_buffered();
    let mut clone = rx.clone();

    let got = drain(&mut clone, &mut link, 2).expect("two batches");
    assert_eq!(got, bodies.to_vec());
    assert_eq!(link.reads, 1, "the clone must still fold, not fall back to strict framing");
}

/// The strict reader rejects the batch that the folding reader rejects.
#[test]
fn strict_reader_rejects_an_oversized_batch() {
    let mut wire = (MTU - 1).to_le_bytes().to_vec();
    wire.extend_from_slice(&body(1, 16));
    let mut link = ScriptedLink::new(vec![wire]);
    let mut rx = transport_link(true).rx();
    assert_eq!(
        drain(&mut rx, &mut link, 1),
        Err(
            "Read error from link: tcp/127.0.0.1:1. Invalid batch length or buffer size."
                .to_string()
        )
    );
}

/// The longest batch that fits the buffer is received by both readers.
#[test]
fn longest_batch_is_received() {
    let b = body(7, MTU as usize - L_LEN);
    let mut link = ScriptedLink::new(vec![framed(&b)]);
    let mut rx = transport_link(true).rx_buffered();
    assert_eq!(drain(&mut rx, &mut link, 1), Ok(vec![b.clone()]));

    let mut link = ScriptedLink::new(vec![framed(&b)]);
    let mut rx = transport_link(true).rx();
    assert_eq!(drain(&mut rx, &mut link, 1), Ok(vec![b]));
}

/// A datagram is a batch.
#[test]
fn datagram_is_one_batch() {
    let b = body(4, 33);
    let mut link = ScriptedLink::new(vec![b.clone()]);
    let mut rx = transport_link(false).rx_buffered();
    assert_eq!(drain(&mut rx, &mut link, 1), Ok(vec![b]));
    assert_eq!(link.reads, 1);
}

/// A read that claims more bytes than the buffer has is an error.
#[test]
fn datagram_beyond_the_buffer_is_an_error() {
    let mut rx = transport_link(false).rx();
    let mut dst = [0u8; 8];
    assert_eq!(rx.recv_batch(&mut dst, RecvEvent::Start), Ok(RecvStep::ReadDatagram));
    let error = rx.recv_batch(&mut dst, RecvEvent::Datagram { n: 9 }).unwrap_err();
    assert_eq!(
        error.message("udp/127.0.0.1:1"),
        "Read error from link: udp/127.0.0.1:1. ZSlice index(es) out of bounds"
    );
}

/// A message is received into a buffer as long as the mtu, and must decode.
#[test]
fn received_message_must_decode() {
    let rx = transport_link(true).rx();
    assert_eq!(rx.recv_buffer_len(), 1024);
    assert_eq!(rx.recv(Some(5u8)), Ok(5));
    let error = rx.recv::<u8>(None).unwrap_err();
    assert_eq!(error.message("l"), "Decode error on link: l");
    assert_eq!(rx.initialized("l", Ok(6u8)), Ok(6));
    assert_eq!(
        rx.initialized::<u8>("l", Err("bad")),
        Err("Read error from link: l. bad.".to_string())
    );
    assert_eq!(rx.read_some(4), Ok(4));
    assert_eq!(
        rx.read_some(0).unwrap_err().message("l"),
        "Read error from link: l. Connection closed."
    );
}
