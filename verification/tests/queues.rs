//! Queues of faces, and locks.

use zenoh_net::link::Reliability;
use zenoh_net::lock_compat::PlMutex;
use zenoh_net::lock_compat::PlRwLock;
use zenoh_net::queueing::accepted;
use zenoh_net::queueing::after_offer;
use zenoh_net::queueing::build_ctx;
use zenoh_net::queueing::call_for_received;
use zenoh_net::queueing::enabled;
use zenoh_net::queueing::next_call;
use zenoh_net::queueing::queue_capacity;
use zenoh_net::queueing::Attempt;
use zenoh_net::queueing::CongestionControl;
use zenoh_net::queueing::Declare;
use zenoh_net::queueing::Interest;
use zenoh_net::queueing::Offer;
use zenoh_net::queueing::Outcome;
use zenoh_net::queueing::PrimitiveCall;
use zenoh_net::queueing::Push;
use zenoh_net::queueing::QueuedMsg;
use zenoh_net::queueing::QueueSwitch;
use zenoh_net::queueing::QueueingPrimitives;
use zenoh_net::queueing::Request;
use zenoh_net::queueing::Response;
use zenoh_net::queueing::ResponseFinal;

fn push(n: u8, congestion_control: CongestionControl) -> Push {
    Push { body: vec![n], congestion_control }
}

#[test]
fn capacity_comes_from_the_setting() {
    assert_eq!(queue_capacity(None), 1024);
    assert_eq!(queue_capacity(Some("16")), 16);
    assert_eq!(queue_capacity(Some("+16")), 16);
    assert_eq!(queue_capacity(Some("1000000")), 1_000_000);
    for bad in ["0", "1000001", "", "+", "-1", " 16", "16 ", "1_000", "99999999999999999999999"] {
        assert_eq!(queue_capacity(Some(bad)), 1024);
    }
    let (queue, _rx) = QueueingPrimitives::new(Some("3"));
    assert_eq!(queue.capacity(), Some(3));
}

#[test]
fn queues_are_switched_on_by_a_setting() {
    assert!(enabled(Some("1")));
    assert!(enabled(Some("true")));
    assert!(enabled(Some("yes")));
    assert!(!enabled(Some("TRUE")));
    assert!(!enabled(Some("0")));
    assert!(!enabled(Some("")));
    assert!(!enabled(None));
}

#[test]
fn worker_gets_calls_in_order() {
    let (queue, rx) = QueueingPrimitives::new(None);
    let expr = Some("a/b".to_string());
    assert!(queue.send_declare(build_ctx(Declare { body: vec![1] }, expr)));
    assert!(queue.send_push(push(2, CongestionControl::Drop), Reliability::BestEffort));
    assert!(queue.send_interest(build_ctx(Interest { body: vec![3] }, None)));
    assert!(queue.send_request(Request { body: vec![4] }));
    assert!(queue.send_response(Response { body: vec![5] }));
    assert!(queue.send_response_final(ResponseFinal { body: vec![6] }));
    drop(queue);

    let Some(PrimitiveCall::SendDeclare(ctx)) = next_call(&rx) else {
        panic!("a declaration");
    };
    assert_eq!((ctx.msg.body, ctx.full_expr.as_deref()), (vec![1], Some("a/b")));
    let Some(PrimitiveCall::SendPush(msg, reliability)) = next_call(&rx) else {
        panic!("a push");
    };
    assert_eq!((msg.body, reliability), (vec![2], Reliability::BestEffort));
    let Some(PrimitiveCall::SendInterest(ctx)) = next_call(&rx) else {
        panic!("an interest");
    };
    assert_eq!((ctx.msg.body, ctx.full_expr), (vec![3], None));
    assert!(matches!(next_call(&rx), Some(PrimitiveCall::SendRequest(m)) if m.body == [4]));
    assert!(matches!(next_call(&rx), Some(PrimitiveCall::SendResponse(m)) if m.body == [5]));
    assert!(matches!(next_call(&rx), Some(PrimitiveCall::SendResponseFinal(m)) if m.body == [6]));
    assert!(next_call(&rx).is_none());
}

#[test]
fn full_queue_drops_only_what_may_be_dropped() {
    let (queue, rx) = QueueingPrimitives::new(Some("1"));
    assert!(queue.send_push(push(1, CongestionControl::Drop), Reliability::Reliable));
    assert!(!queue.send_push(push(2, CongestionControl::Drop), Reliability::Reliable));
    assert!(matches!(next_call(&rx), Some(PrimitiveCall::SendPush(m, _)) if m.body == [1]));
    assert!(queue.send_push(push(3, CongestionControl::Block), Reliability::Reliable));
    assert!(matches!(next_call(&rx), Some(PrimitiveCall::SendPush(m, _)) if m.body == [3]));
    assert!(queue.send(PrimitiveCall::SendRequest(Request { body: vec![4] })));
    assert!(!queue.enqueue(QueuedMsg::Request(Request { body: vec![5] }), false));
    assert!(matches!(next_call(&rx), Some(PrimitiveCall::SendRequest(m)) if m.body == [4]));
}

#[test]
fn nothing_is_accepted_without_a_worker() {
    let (queue, rx) = QueueingPrimitives::new(None);
    drop(rx);
    assert!(!queue.send_request(Request { body: vec![] }));
    assert!(!queue.send_push(push(1, CongestionControl::Block), Reliability::Reliable));
}

/// A call that is queued and taken out again is the same call.
#[test]
fn queued_calls_are_repeated() {
    let call = PrimitiveCall::SendPush(push(1, CongestionControl::Block), Reliability::Reliable);
    let (item, blocks) = call.into_queued();
    assert!(blocks);
    let PrimitiveCall::SendPush(msg, reliability) = item.into_call() else {
        panic!("a push");
    };
    assert_eq!((msg.body, reliability), (vec![1], Reliability::Reliable));
    let call = PrimitiveCall::SendPush(push(1, CongestionControl::Drop), Reliability::Reliable);
    assert!(!call.into_queued().1);
    let call = PrimitiveCall::SendDeclare(build_ctx(Declare { body: vec![2] }, None));
    let (item, blocks) = call.into_queued();
    assert!(blocks);
    assert!(matches!(item.into_call(), PrimitiveCall::SendDeclare(ctx) if ctx.msg.body == [2]));
}

#[test]
fn received_item_is_called() {
    let item = QueuedMsg::Response(Response { body: vec![3] });
    let call = call_for_received(Some(item));
    assert!(matches!(call, Some(PrimitiveCall::SendResponse(m)) if m.body == [3]));
    assert!(call_for_received(None).is_none());
}

#[test]
fn offer_decides_what_to_do() {
    let item = || QueuedMsg::Request(Request { body: vec![8] });
    assert!(matches!(after_offer(Offer::Taken, false), Attempt::Settled(Outcome::Accepted)));
    assert!(matches!(after_offer(Offer::Taken, true), Attempt::Settled(Outcome::Accepted)));
    let Attempt::Settled(Outcome::Dropped { item: QueuedMsg::Request(msg) }) =
        after_offer(Offer::Full(item()), false)
    else {
        panic!("the item is dropped");
    };
    assert_eq!(msg.body, vec![8]);
    let Attempt::Wait(QueuedMsg::Request(msg)) = after_offer(Offer::Full(item()), true) else {
        panic!("the item waits");
    };
    assert_eq!(msg.body, vec![8]);
    assert!(matches!(
        after_offer(Offer::Disconnected(item()), true),
        Attempt::Settled(Outcome::Disconnected { .. })
    ));
}

#[test]
fn outcome_says_whether_an_item_is_queued() {
    let item = || QueuedMsg::Request(Request { body: vec![8] });
    assert!(accepted(Outcome::Accepted));
    assert!(accepted(Outcome::Waited { unsent: None }));
    assert!(!accepted(Outcome::Waited { unsent: Some(item()) }));
    assert!(!accepted(Outcome::Dropped { item: item() }));
    assert!(!accepted(Outcome::Disconnected { item: item() }));
}

/// What is not queued comes back.
#[test]
fn refused_items_come_back() {
    let (queue, rx) = QueueingPrimitives::new(Some("1"));
    let call = |n| PrimitiveCall::SendPush(push(n, CongestionControl::Drop), Reliability::Reliable);
    assert!(matches!(queue.offer(call(1)), Outcome::Accepted));
    let Outcome::Dropped { item: QueuedMsg::Push(msg, reliability) } = queue.offer(call(2)) else {
        panic!("the push is dropped");
    };
    assert_eq!((msg.body, reliability), (vec![2], Reliability::Reliable));
    drop(rx);
    let item = QueuedMsg::Response(Response { body: vec![3] });
    let Outcome::Disconnected { item: QueuedMsg::Response(msg) } = queue.offer_item(item, true)
    else {
        panic!("nobody receives");
    };
    assert_eq!(msg.body, vec![3]);
}

#[test]
fn switch_keeps_its_first_answer() {
    let mut switch = QueueSwitch::new();
    assert!(switch.enabled(Some("yes")));
    assert!(switch.enabled(None));
    assert!(switch.enabled(Some("0")));
    let mut switch = QueueSwitch::new();
    assert!(!switch.enabled(None));
    assert!(!switch.enabled(Some("1")));
}

#[test]
fn locks_hold_their_value() {
    let mut lock = PlRwLock::new(5);
    assert_eq!(*lock.read().unwrap(), 5);
    *lock.write().unwrap() += 1;
    assert_eq!(*lock.read().unwrap(), 6);
    *lock.get_mut().unwrap() = 9;
    assert_eq!(*lock.read().unwrap(), 9);
    let mutex = PlMutex::new(String::from("a"));
    mutex.lock().unwrap().push('b');
    assert_eq!(*mutex.lock().unwrap(), "ab");
}

/// Readers share the lock.
#[test]
fn readers_do_not_exclude_each_other() {
    let lock = PlRwLock::new(5);
    let first = lock.read().unwrap();
    let second = lock.read().unwrap();
    assert_eq!(*first + *second, 10);
}
