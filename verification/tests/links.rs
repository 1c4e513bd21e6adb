//! Links, their writers and their acknowledgements.

use zenoh_net::link::BBuf;
use zenoh_net::link::BatchConfig;
use zenoh_net::link::Close;
use zenoh_net::link::Finalize;
use zenoh_net::link::Link;
use zenoh_net::link::LinkError;
use zenoh_net::link::LinkUnicast;
use zenoh_net::link::Reliability;
use zenoh_net::link::TransportLinkUnicast;
use zenoh_net::link::TransportLinkUnicastConfig;
use zenoh_net::link::TransportLinkUnicastDirection;
use zenoh_net::link_ack::LinkUnicastWithOpenAck;
use zenoh_net::link_ack::MaybeOpenAck;
use zenoh_net::link_ack::OpenAck;
use zenoh_net::rx_carry::RxCarry;

fn unicast(mtu: u16, dst: &str) -> LinkUnicast {
    LinkUnicast {
        mtu,
        is_streamed: true,
        src: "tcp/127.0.0.1:1".to_string(),
        dst: dst.to_string(),
    }
}

fn config(mtu: u16, is_compression: bool) -> TransportLinkUnicastConfig {
    TransportLinkUnicastConfig {
        direction: TransportLinkUnicastDirection::Outbound,
        batch: BatchConfig { mtu, is_streamed: true, is_compression },
        priorities: None,
        reliability: Some(Reliability::Reliable),
    }
}

#[test]
fn mtu_is_capped_by_the_link() {
    let link = TransportLinkUnicast::new(unicast(1000, "a"), config(65535, false));
    assert_eq!(link.config.batch.mtu, 1000);
    let link = link.reconfigure(config(500, true));
    assert_eq!(link.config.batch.mtu, 500);
    assert!(link.config.batch.is_compression);
    let link = link.reconfigure(config(2000, false));
    assert_eq!(link.config.batch.mtu, 1000);
}

#[test]
fn reported_link_has_ends_of_the_link() {
    let link = TransportLinkUnicast::new(unicast(1000, "tcp/127.0.0.1:2"), config(500, false));
    let reported: Link = link.link();
    assert_eq!(reported.src, "tcp/127.0.0.1:1");
    assert_eq!(reported.dst, "tcp/127.0.0.1:2");
    assert_eq!(reported.mtu, 1000);
    assert_eq!(reported.reliability, Some(Reliability::Reliable));
    assert!(link == reported);
    let other = TransportLinkUnicast::new(unicast(1000, "tcp/127.0.0.1:3"), config(500, false));
    assert!(!(other == reported));
}

/// Twenty bytes more than eleven tenths of the mtu.
#[test]
fn compressing_writer_has_room_for_a_batch() {
    let link = TransportLinkUnicast::new(unicast(65535, "a"), config(65535, true));
    let buffer = link.tx().buffer.expect("a buffer");
    assert_eq!(buffer.capacity, 72108);
    assert!(buffer.bytes.is_empty());
    let small = link.reconfigure(config(1024, true));
    assert_eq!(small.tx().buffer.expect("a buffer").capacity, 1146);
    let plain = small.reconfigure(config(1024, false));
    assert!(plain.tx().buffer.is_none());
}

#[test]
fn batch_is_written_from_where_it_lies() {
    let link = TransportLinkUnicast::new(unicast(100, "a"), config(100, false));
    let mut tx = link.tx();
    assert_eq!(tx.send_batch(Some(Finalize::Batch), &[1, 2]), Ok(&[1u8, 2][..]));
    assert_eq!(tx.send_batch(None, &[1, 2]), Err(LinkError::Write));
    assert_eq!(
        tx.send_batch(Some(Finalize::Buffer), &[1, 2]),
        Err(LinkError::InvalidBufferFinalization)
    );
    tx.buffer = Some(BBuf { bytes: vec![9], capacity: 130 });
    assert_eq!(tx.send_batch(Some(Finalize::Buffer), &[1, 2]), Ok(&[9u8][..]));
    assert_eq!(tx.send(Some(7), Some(Finalize::Buffer), &[1, 2]), Ok((&[9u8][..], 7)));
    assert_eq!(tx.send(Some(7), Some(Finalize::Batch), &[1, 2]), Ok((&[1u8, 2][..], 7)));
    assert_eq!(tx.send(None, Some(Finalize::Batch), &[1, 2]), Err(LinkError::Write));
}

#[test]
fn link_errors_have_texts() {
    assert_eq!(LinkError::Write.message("l"), "Write error on link: l");
    assert_eq!(LinkError::InvalidBufferFinalization.message("l"), "Invalid buffer finalization");
    assert_eq!(
        LinkError::ConnectionClosed.message("l"),
        "Read error from link: l. Connection closed."
    );
    assert_eq!(
        LinkError::InvalidBatchLength.message("l"),
        "Read error from link: l. Invalid batch length or buffer size."
    );
}

#[test]
fn closing_announces_a_reason() {
    let link = TransportLinkUnicast::new(unicast(100, "a"), config(100, false));
    assert_eq!(link.close(Some(3)), Some(Close { reason: 3, session: false }));
    assert_eq!(link.close(None), None);
}

#[test]
fn acknowledgement_is_not_compressed() {
    let link = TransportLinkUnicast::new(unicast(100, "a"), config(100, true));
    let mut ack = MaybeOpenAck::new(&link, Some(OpenAck { body: vec![5] }));
    let sending = ack.send_open_ack().expect("an acknowledgement");
    assert_eq!(sending.msg.body, vec![5]);
    assert!(!ack.link.inner.config.batch.is_compression);
    ack.open_ack_sent(sending);
    assert!(ack.link.inner.config.batch.is_compression);
    assert!(ack.send_open_ack().is_none());
    assert!(ack.link.inner.config.batch.is_compression);
    assert_eq!(ack.link().dst, "a");
}

#[test]
fn opened_link_comes_apart() {
    let link = TransportLinkUnicast::new(unicast(100, "a"), config(100, false));
    let other = TransportLinkUnicast::new(unicast(100, "b"), config(100, false));
    let opened = LinkUnicastWithOpenAck::new(
        link.clone(),
        Some(OpenAck { body: vec![5] }),
        Some(other.clone()),
    );
    assert_eq!(opened.inner_config().batch.mtu, 100);
    assert_eq!(opened.text("link", "ack"), "link(ack)");
    let (first, ack, second) = opened.unpack();
    assert_eq!(first.link.dst, "a");
    assert!(ack.open_ack.is_some());
    assert_eq!(second.expect("a link").link.dst, "b");

    let opened = LinkUnicastWithOpenAck::new(link, None, Some(other));
    assert_eq!(opened.text("link", "ack"), "link");
    let (first, second) = opened.fail();
    assert_eq!(first.link.dst, "a");
    assert_eq!(second.expect("a link").link.dst, "b");
}

#[test]
fn carry_hands_out_what_was_stashed() {
    let mut carry = RxCarry::default();
    assert!(carry.is_empty());
    carry.stash(&[1, 2, 3, 4, 5]);
    assert_eq!(carry.pending(), 5);
    let mut dst = [0u8; 4];
    assert_eq!(carry.take_into(&mut dst, 1, 2), 2);
    assert_eq!(dst, [0, 1, 2, 0]);
    assert_eq!(carry.pending(), 3);
    assert_eq!(carry.take_into(&mut dst, 0, 10), 3);
    assert_eq!(dst, [3, 4, 5, 0]);
    assert!(carry.is_empty());
    assert_eq!(carry.take_into(&mut dst, 0, 1), 0);
}
