//! Per-face queueing of outgoing calls.
//!
//! Each destination face has a bounded channel of its own, so that a slow consumer fills only its
//! own queue. One channel carries all types of message, so that their order is kept and a
//! declaration arrives before the data that needs it. A worker takes the messages out and makes the
//! calls.
//!
//! A push waits for room only if its congestion control says so, and is dropped otherwise. All other
//! messages belong to the control plane and wait: they are dropped only when the worker is gone.

use flume::Receiver;
use flume::SendError;
use flume::Sender;
use flume::TrySendError;
use vstd::prelude::*;
use vstd::string::*;

use crate::link::Reliability;
#[allow(unused_imports)]
use crate::metric_text::decimal_text;

verus! {

/// `flume::Sender`, the sending side of a channel.
#[verifier::external_type_specification]
#[verifier::external_body]
#[verifier::reject_recursive_types(T)]
pub struct ExSender<T>(Sender<T>);

/// `flume::Receiver`, the receiving side of a channel.
#[verifier::external_type_specification]
#[verifier::external_body]
#[verifier::reject_recursive_types(T)]
pub struct ExReceiver<T>(Receiver<T>);

/// Default capacity of the queue of a face.
pub const DEFAULT_CAPACITY: usize = 1024;

/// Largest capacity of the queue of a face.
pub const MAX_CAPACITY: usize = 1_000_000;

/// What a full queue does to a push.
#[derive(Clone, Copy, PartialEq, Eq, Structural, Debug)]
pub enum CongestionControl {
    Drop,
    Block,
}

/// An interest, encoded.
#[derive(Debug)]
pub struct Interest {
    pub body: Vec<u8>,
}

/// A declaration, encoded.
#[derive(Debug)]
pub struct Declare {
    pub body: Vec<u8>,
}

/// A push of data, encoded, and its congestion control.
#[derive(Debug)]
pub struct Push {
    pub body: Vec<u8>,
    pub congestion_control: CongestionControl,
}

/// A request, encoded.
#[derive(Debug)]
pub struct Request {
    pub body: Vec<u8>,
}

/// A response, encoded.
#[derive(Debug)]
pub struct Response {
    pub body: Vec<u8>,
}

/// The end of the responses to a request, encoded.
#[derive(Debug)]
pub struct ResponseFinal {
    pub body: Vec<u8>,
}

/// A message with the full key expression that it was resolved to.
#[derive(Debug)]
pub struct RoutingContext<T> {
    pub msg: T,
    pub full_expr: Option<String>,
}

/// A call of the primitives of a face.
#[derive(Debug)]
pub enum PrimitiveCall {
    SendInterest(RoutingContext<Interest>),
    SendDeclare(RoutingContext<Declare>),
    SendPush(Push, Reliability),
    SendRequest(Request),
    SendResponse(Response),
    SendResponseFinal(ResponseFinal),
}

/// Items moving through the queue of a face.
#[derive(Debug)]
pub enum QueuedMsg {
    Interest(Interest, Option<String>),
    Declare(Declare, Option<String>),
    Push(Push, Reliability),
    Request(Request),
    Response(Response),
    ResponseFinal(ResponseFinal),
}

impl PrimitiveCall {
    /// The item that stands for the call in the queue.
    pub open spec fn queued(self) -> QueuedMsg {
        match self {
            PrimitiveCall::SendInterest(ctx) => QueuedMsg::Interest(ctx.msg, ctx.full_expr),
            PrimitiveCall::SendDeclare(ctx) => QueuedMsg::Declare(ctx.msg, ctx.full_expr),
            PrimitiveCall::SendPush(msg, reliability) => QueuedMsg::Push(msg, reliability),
            PrimitiveCall::SendRequest(msg) => QueuedMsg::Request(msg),
            PrimitiveCall::SendResponse(msg) => QueuedMsg::Response(msg),
            PrimitiveCall::SendResponseFinal(msg) => QueuedMsg::ResponseFinal(msg),
        }
    }

    /// Whether the call waits for room in a full queue.
    pub open spec fn blocks(self) -> bool {
        match self {
            PrimitiveCall::SendPush(msg, _) => msg.congestion_control is Block,
            _ => true,
        }
    }
}

impl PrimitiveCall {
    /// The item that stands for the call in the queue, and whether it waits for room.
    pub fn into_queued(self) -> (item: (QueuedMsg, bool))
        ensures
            item == (self.queued(), self.blocks()),
    {
        match self {
            PrimitiveCall::SendInterest(ctx) => (QueuedMsg::Interest(ctx.msg, ctx.full_expr), true),
            PrimitiveCall::SendDeclare(ctx) => (QueuedMsg::Declare(ctx.msg, ctx.full_expr), true),
            PrimitiveCall::SendPush(msg, reliability) => {
                let block_when_full: bool = match msg.congestion_control {
                    CongestionControl::Block => true,
                    CongestionControl::Drop => false,
                };
                (QueuedMsg::Push(msg, reliability), block_when_full)
            },
            PrimitiveCall::SendRequest(msg) => (QueuedMsg::Request(msg), true),
            PrimitiveCall::SendResponse(msg) => (QueuedMsg::Response(msg), true),
            PrimitiveCall::SendResponseFinal(msg) => (QueuedMsg::ResponseFinal(msg), true),
        }
    }
}

impl QueuedMsg {
    /// The call that the item stands for.
    pub open spec fn call(self) -> PrimitiveCall {
        match self {
            QueuedMsg::Interest(msg, full_expr) => PrimitiveCall::SendInterest(
                RoutingContext { msg, full_expr },
            ),
            QueuedMsg::Declare(msg, full_expr) => PrimitiveCall::SendDeclare(
                RoutingContext { msg, full_expr },
            ),
            QueuedMsg::Push(msg, reliability) => PrimitiveCall::SendPush(msg, reliability),
            QueuedMsg::Request(msg) => PrimitiveCall::SendRequest(msg),
            QueuedMsg::Response(msg) => PrimitiveCall::SendResponse(msg),
            QueuedMsg::ResponseFinal(msg) => PrimitiveCall::SendResponseFinal(msg),
        }
    }

    /// The call that the item stands for.
    pub fn into_call(self) -> (call: PrimitiveCall)
        ensures
            call == self.call(),
    {
        match self {
            QueuedMsg::Interest(msg, full_expr) => PrimitiveCall::SendInterest(
                build_ctx(msg, full_expr),
            ),
            QueuedMsg::Declare(msg, full_expr) => PrimitiveCall::SendDeclare(
                build_ctx(msg, full_expr),
            ),
            QueuedMsg::Push(msg, reliability) => PrimitiveCall::SendPush(msg, reliability),
            QueuedMsg::Request(msg) => PrimitiveCall::SendRequest(msg),
            QueuedMsg::Response(msg) => PrimitiveCall::SendResponse(msg),
            QueuedMsg::ResponseFinal(msg) => PrimitiveCall::SendResponseFinal(msg),
        }
    }
}

/// The message with the key expression that was queued beside it.
pub fn build_ctx<T>(msg: T, full_expr: Option<String>) -> (ctx: RoutingContext<T>)
    ensures
        ctx == (RoutingContext { msg, full_expr }),
{
    RoutingContext { msg, full_expr }
}

/// Only decimal digits, and at least one.
pub open spec fn all_digits(text: Seq<char>) -> bool {
    text.len() > 0 && forall|i: int| 0 <= i < text.len() ==> '0' <= #[trigger] text[i] <= '9'
}

/// The number that decimal digits stand for.
pub open spec fn decimal_value(text: Seq<char>) -> nat
    decreases text.len(),
{
    if text.len() == 0 {
        0
    } else {
        decimal_value(text.drop_last()) * 10 + (text.last() as nat - '0' as nat) as nat
    }
}

/// The number that a text stands for: decimal digits, with or without a plus sign before them.
pub open spec fn parsed_number(text: Seq<char>) -> Option<usize> {
    let digits = if text.len() > 0 && text[0] == '+' {
        text.drop_first()
    } else {
        text
    };
    if all_digits(digits) && decimal_value(digits) <= usize::MAX {
        Some(decimal_value(digits) as usize)
    } else {
        None
    }
}

/// Calls `str::parse` for `usize`: the text is an optional plus sign followed by decimal digits and
/// nothing else, and the number fits.
#[verifier::external_body]
fn parse_number(text: &str) -> (number: Option<usize>)
    ensures
        number == parsed_number(text@),
{
    text.parse().ok()
}

/// The capacity of a queue for a setting: a number from one to the largest capacity, and the default
/// for anything else.
pub open spec fn capacity_for(setting: Option<Seq<char>>) -> usize {
    match setting {
        Some(text) => match parsed_number(text) {
            Some(n) => if 0 < n <= MAX_CAPACITY {
                n
            } else {
                DEFAULT_CAPACITY
            },
            None => DEFAULT_CAPACITY,
        },
        None => DEFAULT_CAPACITY,
    }
}

/// The text of a setting.
pub open spec fn setting_text(setting: Option<&str>) -> Option<Seq<char>> {
    match setting {
        Some(text) => Some(text@),
        None => None,
    }
}

/// The capacity of a queue for a setting.
pub fn queue_capacity(setting: Option<&str>) -> (capacity: usize)
    ensures
        capacity == capacity_for(setting_text(setting)),
{
    if let Some(text) = setting {
        if let Some(n) = parse_number(text) {
            if 0 < n && n <= MAX_CAPACITY {
                return n;
            }
        }
    }
    DEFAULT_CAPACITY
}

/// Whether a setting switches the queues on.
pub fn enabled(setting: Option<&str>) -> (res: bool)
    ensures
        res == switches_on(setting_text(setting)),
{
    match setting {
        Some(text) => {
            let text: String = text.to_owned();
            text == "1".to_owned() || text == "true".to_owned() || text == "yes".to_owned()
        },
        None => false,
    }
}

/// The setting switches the queues on.
pub open spec fn switches_on(setting: Option<Seq<char>>) -> bool {
    setting matches Some(text) && (text == "1"@ || text == "true"@ || text == "yes"@)
}

/// The switch of the queues, which keeps the answer that it gave first.
#[derive(Clone, Copy, PartialEq, Eq, Structural, Debug)]
pub struct QueueSwitch {
    pub answer: Option<bool>,
}

impl QueueSwitch {
    /// The switch after it was asked with a setting.
    pub open spec fn asked(self, setting: Option<Seq<char>>) -> QueueSwitch {
        match self.answer {
            Some(_) => self,
            None => QueueSwitch { answer: Some(switches_on(setting)) },
        }
    }

    /// A switch that was never asked.
    pub fn new() -> (switch: QueueSwitch)
        ensures
            switch.answer is None,
    {
        QueueSwitch { answer: None }
    }

    /// Whether the queues are on: as the setting says when this is first asked, and the same ever
    /// after.
    pub fn enabled(&mut self, setting: Option<&str>) -> (res: bool)
        ensures
            *final(self) == old(self).asked(setting_text(setting)),
            final(self).answer == Some(res),
    {
        match self.answer {
            Some(answer) => answer,
            None => {
                let answer: bool = enabled(setting);
                self.answer = Some(answer);
                answer
            },
        }
    }
}

/// The first answer of a switch is kept, whatever the setting is later.
pub proof fn first_answer_is_kept(
    switch: QueueSwitch,
    first: Option<Seq<char>>,
    later: Option<Seq<char>>,
)
    requires
        switch.answer is None,
    ensures
        switch.asked(first).answer == Some(switches_on(first)),
        switch.asked(first).asked(later) == switch.asked(first),
{
}

/// The number of items that fit into a bounded channel.
pub uninterp spec fn channel_capacity(tx: Sender<QueuedMsg>) -> Option<usize>;

/// Calls `flume::bounded`: a channel with room for `capacity` items.
#[verifier::external_body]
fn bounded(capacity: usize) -> (channel: (Sender<QueuedMsg>, Receiver<QueuedMsg>))
    ensures
        channel_capacity(channel.0) == Some(capacity),
{
    flume::bounded(capacity)
}

/// Calls `Sender::capacity`: the number of items that fit into the channel, if it is bounded.
#[verifier::external_body]
fn sender_capacity(tx: &Sender<QueuedMsg>) -> (capacity: Option<usize>)
    ensures
        capacity == channel_capacity(*tx),
{
    tx.capacity()
}

/// What a channel answers to the offer of an item.
#[derive(Debug)]
pub enum Offer {
    /// The channel took it.
    Taken,
    /// The channel had no room for it.
    Full(QueuedMsg),
    /// Nobody receives from the channel.
    Disconnected(QueuedMsg),
}

/// The answers that a channel can give to the offer of an item: an item that is not taken comes back
/// as it was.
pub open spec fn answers_offer(msg: QueuedMsg, offer: Offer) -> bool {
    match offer {
        Offer::Taken => true,
        Offer::Full(item) => item == msg,
        Offer::Disconnected(item) => item == msg,
    }
}

/// Calls `Sender::try_send`. Which of the answers comes depends on the receiving side; an item that
/// comes back is the one that was offered.
#[verifier::external_body]
fn try_send(tx: &Sender<QueuedMsg>, msg: QueuedMsg) -> (offer: Offer)
    ensures
        answers_offer(msg, offer),
{
    match tx.try_send(msg) {
        Ok(()) => Offer::Taken,
        Err(TrySendError::Full(item)) => Offer::Full(item),
        Err(TrySendError::Disconnected(item)) => Offer::Disconnected(item),
    }
}

/// Calls `Sender::send`, which waits for room, and gives the item back if it was not sent, as it
/// was. It is sent unless the receiving side is gone, of which nothing can be known beforehand.
#[verifier::external_body]
fn send_blocking(tx: &Sender<QueuedMsg>, msg: QueuedMsg) -> (unsent: Option<QueuedMsg>)
    ensures
        unsent matches Some(item) ==> item == msg,
{
    match tx.send(msg) {
        Ok(()) => None,
        Err(SendError(item)) => Some(item),
    }
}

/// Calls `Receiver::recv`, which waits for an item and gives none once all senders are gone and the
/// channel is empty. Which item comes depends on the sending side.
#[verifier::external_body]
fn receive(rx: &Receiver<QueuedMsg>) -> (item: Option<QueuedMsg>)
{
    rx.recv().ok()
}

/// What became of an item. One that is not in the queue comes back.
#[derive(Debug)]
pub enum Outcome {
    /// There was room for it.
    Accepted,
    /// There was no room, and it waited. It was sent, unless the receiving side went away.
    Waited { unsent: Option<QueuedMsg> },
    /// There was no room, and it was dropped.
    Dropped { item: QueuedMsg },
    /// Nobody receives.
    Disconnected { item: QueuedMsg },
}

/// The item is in the queue.
pub open spec fn is_accepted(outcome: Outcome) -> bool {
    match outcome {
        Outcome::Accepted => true,
        Outcome::Waited { unsent } => unsent is None,
        Outcome::Dropped { .. } => false,
        Outcome::Disconnected { .. } => false,
    }
}

/// Whether the item is in the queue.
pub fn accepted(outcome: Outcome) -> (res: bool)
    ensures
        res == is_accepted(outcome),
{
    match outcome {
        Outcome::Accepted => true,
        Outcome::Waited { unsent } => unsent.is_none(),
        Outcome::Dropped { .. } => false,
        Outcome::Disconnected { .. } => false,
    }
}

/// The outcomes that an item can have: it waits only if it must not be dropped for want of room, it is
/// dropped for want of room only if it may be, and an item that comes back is the one that was
/// offered.
pub open spec fn can_become(msg: QueuedMsg, block_when_full: bool, outcome: Outcome) -> bool {
    match outcome {
        Outcome::Accepted => true,
        Outcome::Waited { unsent } => block_when_full && (unsent matches Some(item) ==> item
            == msg),
        Outcome::Dropped { item } => !block_when_full && item == msg,
        Outcome::Disconnected { item } => item == msg,
    }
}

/// What to do after an item was offered.
#[derive(Debug)]
pub enum Attempt {
    /// Nothing: this became of the item.
    Settled(Outcome),
    /// Wait until there is room for the item.
    Wait(QueuedMsg),
}

/// What to do after an item was offered: wait only if the channel is full and the item must not be
/// dropped.
pub open spec fn attempt_after(offer: Offer, block_when_full: bool) -> Attempt {
    match offer {
        Offer::Taken => Attempt::Settled(Outcome::Accepted),
        Offer::Full(item) => if block_when_full {
            Attempt::Wait(item)
        } else {
            Attempt::Settled(Outcome::Dropped { item })
        },
        Offer::Disconnected(item) => Attempt::Settled(Outcome::Disconnected { item }),
    }
}

/// What to do after an item was offered.
pub fn after_offer(offer: Offer, block_when_full: bool) -> (attempt: Attempt)
    ensures
        attempt == attempt_after(offer, block_when_full),
{
    match offer {
        Offer::Taken => Attempt::Settled(Outcome::Accepted),
        Offer::Full(item) => if block_when_full {
            Attempt::Wait(item)
        } else {
            Attempt::Settled(Outcome::Dropped { item })
        },
        Offer::Disconnected(item) => Attempt::Settled(Outcome::Disconnected { item }),
    }
}

/// The primitives of a face behind a queue. The worker that makes the calls ends when this is
/// dropped.
pub struct QueueingPrimitives {
    tx: Sender<QueuedMsg>,
}

impl QueueingPrimitives {
    /// The channel of this queue was offered the item, and answered so.
    pub closed spec fn answered(&self, msg: QueuedMsg, offer: Offer) -> bool {
        call_ensures(try_send, (&self.tx, msg), offer)
    }

    /// The item was sent into the channel of this queue when there was room for it, or came back.
    pub closed spec fn waited(&self, msg: QueuedMsg, unsent: Option<QueuedMsg>) -> bool {
        call_ensures(send_blocking, (&self.tx, msg), unsent)
    }

    /// This became of an item, as the channel of this queue answered. An item is queued only where the
    /// channel has it.
    pub open spec fn became(
        &self,
        msg: QueuedMsg,
        block_when_full: bool,
        outcome: Outcome,
    ) -> bool {
        match outcome {
            Outcome::Accepted => self.answered(msg, Offer::Taken),
            Outcome::Waited { unsent } => {
                &&& block_when_full
                &&& self.answered(msg, Offer::Full(msg))
                &&& self.waited(msg, unsent)
            },
            Outcome::Dropped { item } => {
                &&& !block_when_full
                &&& item == msg
                &&& self.answered(msg, Offer::Full(msg))
            },
            Outcome::Disconnected { item } => {
                &&& item == msg
                &&& self.answered(msg, Offer::Disconnected(msg))
            },
        }
    }

    /// An item was put into this queue or not, as the channel answered.
    pub open spec fn queues(&self, msg: QueuedMsg, block_when_full: bool, res: bool) -> bool {
        exists|outcome: Outcome|
            {
                &&& #[trigger] self.became(msg, block_when_full, outcome)
                &&& can_become(msg, block_when_full, outcome)
                &&& res == is_accepted(outcome)
            }
    }

    /// The number of items that fit into the queue.
    pub closed spec fn queue_limit(&self) -> Option<usize> {
        channel_capacity(self.tx)
    }

    /// The queue for a setting of its capacity, and the side from which the worker receives.
    pub fn new(setting: Option<&str>) -> (queue: (QueueingPrimitives, Receiver<QueuedMsg>))
        ensures
            queue.0.queue_limit() == Some(capacity_for(setting_text(setting))),
    {
        let (tx, rx) = bounded(queue_capacity(setting));
        (QueueingPrimitives { tx }, rx)
    }

    /// The number of items that fit into the queue.
    pub fn capacity(&self) -> (capacity: Option<usize>)
        ensures
            capacity == self.queue_limit(),
    {
        sender_capacity(&self.tx)
    }

    /// Offers an item to the queue. If it is full, waits for room or drops the item.
    pub fn offer_item(&self, msg: QueuedMsg, block_when_full: bool) -> (outcome: Outcome)
        ensures
            self.became(msg, block_when_full, outcome),
            can_become(msg, block_when_full, outcome),
            !block_when_full ==> outcome !is Waited,
            block_when_full ==> outcome !is Dropped,
    {
        let ghost offered = msg;
        let offer = try_send(&self.tx, msg);
        assert(self.answered(offered, offer));
        match after_offer(offer, block_when_full) {
            Attempt::Settled(outcome) => outcome,
            Attempt::Wait(item) => Outcome::Waited { unsent: send_blocking(&self.tx, item) },
        }
    }

    /// Offers a call to the queue, as the item that stands for it.
    pub fn offer(&self, call: PrimitiveCall) -> (outcome: Outcome)
        ensures
            self.became(call.queued(), call.blocks(), outcome),
            can_become(call.queued(), call.blocks(), outcome),
            !call.blocks() ==> outcome !is Waited,
            call.blocks() ==> outcome !is Dropped,
    {
        let (msg, block_when_full) = call.into_queued();
        self.offer_item(msg, block_when_full)
    }

    /// Puts an item into the queue, and says whether it is there: what [`accepted`] says of what became
    /// of it.
    pub fn enqueue(&self, msg: QueuedMsg, block_when_full: bool) -> (res: bool)
        ensures
            self.queues(msg, block_when_full, res),
    {
        accepted(self.offer_item(msg, block_when_full))
    }

    /// Queues a call, and says whether it is queued: what [`accepted`] says of what became of its item.
    pub fn send(&self, call: PrimitiveCall) -> (res: bool)
        ensures
            self.queues(call.queued(), call.blocks(), res),
    {
        accepted(self.offer(call))
    }

    /// Queues an interest. It is never dropped for want of room.
    pub fn send_interest(&self, ctx: RoutingContext<Interest>) -> (res: bool)
        ensures
            self.queues(QueuedMsg::Interest(ctx.msg, ctx.full_expr), true, res),
    {
        self.send(PrimitiveCall::SendInterest(ctx))
    }

    /// Queues a declaration. It is never dropped for want of room.
    pub fn send_declare(&self, ctx: RoutingContext<Declare>) -> (res: bool)
        ensures
            self.queues(QueuedMsg::Declare(ctx.msg, ctx.full_expr), true, res),
    {
        self.send(PrimitiveCall::SendDeclare(ctx))
    }

    /// Queues a push, which is dropped if the queue is full and its congestion control lets it.
    pub fn send_push(&self, msg: Push, reliability: Reliability) -> (res: bool)
        ensures
            self.queues(QueuedMsg::Push(msg, reliability), msg.congestion_control is Block, res),
    {
        self.send(PrimitiveCall::SendPush(msg, reliability))
    }

    /// Queues a request. It is never dropped for want of room.
    pub fn send_request(&self, msg: Request) -> (res: bool)
        ensures
            self.queues(QueuedMsg::Request(msg), true, res),
    {
        self.send(PrimitiveCall::SendRequest(msg))
    }

    /// Queues a response. It is never dropped for want of room.
    pub fn send_response(&self, msg: Response) -> (res: bool)
        ensures
            self.queues(QueuedMsg::Response(msg), true, res),
    {
        self.send(PrimitiveCall::SendResponse(msg))
    }

    /// Queues the end of the responses to a request. It is never dropped for want of room.
    pub fn send_response_final(&self, msg: ResponseFinal) -> (res: bool)
        ensures
            self.queues(QueuedMsg::ResponseFinal(msg), true, res),
    {
        self.send(PrimitiveCall::SendResponseFinal(msg))
    }
}

/// The call that the worker has to make for what it received: that of the item, and none once no item
/// comes.
pub open spec fn received_call(received: Option<QueuedMsg>) -> Option<PrimitiveCall> {
    match received {
        Some(item) => Some(item.call()),
        None => None,
    }
}

/// The call that the worker has to make for what it received.
pub fn call_for_received(received: Option<QueuedMsg>) -> (call: Option<PrimitiveCall>)
    ensures
        call == received_call(received),
{
    match received {
        Some(item) => Some(item.into_call()),
        None => None,
    }
}

/// The channel gave this when it was asked for an item: the item, or none once no item comes.
pub closed spec fn gives(rx: Receiver<QueuedMsg>, received: Option<QueuedMsg>) -> bool {
    call_ensures(receive, (&rx,), received)
}

/// Waits for the next call that the worker has to make. There is none once all senders are gone and
/// the queue is empty. Which item comes, if any, depends on the sending side.
pub fn next_call(rx: &Receiver<QueuedMsg>) -> (call: Option<PrimitiveCall>)
    ensures
        exists|received: Option<QueuedMsg>| #[trigger]
            gives(*rx, received) && call == received_call(received),
{
    let received = receive(rx);
    assert(gives(*rx, received));
    call_for_received(received)
}

/// The calls that a worker makes for items, one after the other.
pub open spec fn calls_for(items: Seq<QueuedMsg>) -> Seq<PrimitiveCall> {
    Seq::new(items.len(), |i: int| items[i].call())
}

/// The items that stand for calls, one after the other.
pub open spec fn queued_calls(calls: Seq<PrimitiveCall>) -> Seq<QueuedMsg> {
    Seq::new(calls.len(), |i: int| calls[i].queued())
}

/// The worker makes the calls that were queued, with the same messages and in the same order.
pub proof fn worker_repeats_calls(calls: Seq<PrimitiveCall>)
    ensures
        calls_for(queued_calls(calls)) == calls,
{
    assert(calls_for(queued_calls(calls)) =~= calls);
}

/// A message of the control plane is never dropped for want of room: whatever becomes of its item,
/// it is in the queue unless nobody receives any more.
pub proof fn control_plane_is_never_dropped_when_full(call: PrimitiveCall, outcome: Outcome)
    requires
        call !is SendPush,
        can_become(call.queued(), call.blocks(), outcome),
    ensures
        outcome !is Dropped,
        !is_accepted(outcome) ==> outcome is Disconnected || outcome is Waited,
{
}

/// A push waits for room only if its congestion control says so, and is dropped for want of room
/// only if it does not.
pub proof fn congestion_control_decides_for_push(
    msg: Push,
    reliability: Reliability,
    outcome: Outcome,
)
    requires
        can_become(
            PrimitiveCall::SendPush(msg, reliability).queued(),
            PrimitiveCall::SendPush(msg, reliability).blocks(),
            outcome,
        ),
    ensures
        outcome is Waited ==> msg.congestion_control is Block,
        outcome is Dropped ==> msg.congestion_control is Drop,
{
}

/// A push that may be dropped never waits.
pub proof fn droppable_push_never_waits(msg: Push, reliability: Reliability, outcome: Outcome)
    requires
        msg.congestion_control is Drop,
        can_become(
            PrimitiveCall::SendPush(msg, reliability).queued(),
            PrimitiveCall::SendPush(msg, reliability).blocks(),
            outcome,
        ),
    ensures
        outcome !is Waited,
{
}

/// An item that is not accepted comes back as it was, so it is not in the queue.
pub proof fn refused_item_comes_back(msg: QueuedMsg, block_when_full: bool, outcome: Outcome)
    requires
        can_become(msg, block_when_full, outcome),
        !is_accepted(outcome),
    ensures
        match outcome {
            Outcome::Accepted => false,
            Outcome::Waited { unsent } => unsent == Some(msg),
            Outcome::Dropped { item } => item == msg,
            Outcome::Disconnected { item } => item == msg,
        },
{
}

/// The channel of this queue has taken the item, at once or after it waited for room.
pub open spec fn has_taken(queue: QueueingPrimitives, msg: QueuedMsg) -> bool {
    ||| queue.answered(msg, Offer::Taken)
    ||| queue.answered(msg, Offer::Full(msg)) && queue.waited(msg, None)
}

/// The channel of this queue has refused the item, which came back: there was no room and it was not
/// to wait, or nobody receives.
pub open spec fn has_refused(
    queue: QueueingPrimitives,
    msg: QueuedMsg,
    block_when_full: bool,
) -> bool {
    ||| !block_when_full && queue.answered(msg, Offer::Full(msg))
    ||| block_when_full && queue.answered(msg, Offer::Full(msg)) && queue.waited(msg, Some(msg))
    ||| queue.answered(msg, Offer::Disconnected(msg))
}

/// An item that is reported as queued was taken by the channel, and one that is not was refused by
/// it.
pub proof fn report_is_that_of_the_channel(
    queue: QueueingPrimitives,
    msg: QueuedMsg,
    block_when_full: bool,
    res: bool,
)
    requires
        queue.queues(msg, block_when_full, res),
    ensures
        res ==> has_taken(queue, msg),
        !res ==> has_refused(queue, msg, block_when_full),
{
    channel_gives_back_the_item(queue, msg);
}

/// A call of the control plane that is reported as not queued was refused because nobody receives,
/// and one that is reported as queued was taken.
pub proof fn control_plane_waits_for_room(
    queue: QueueingPrimitives,
    call: PrimitiveCall,
    res: bool,
)
    requires
        call !is SendPush,
        queue.queues(call.queued(), call.blocks(), res),
    ensures
        res ==> has_taken(queue, call.queued()),
        !res ==> queue.answered(call.queued(), Offer::Disconnected(call.queued()))
            || queue.waited(call.queued(), Some(call.queued())),
{
    report_is_that_of_the_channel(queue, call.queued(), call.blocks(), res);
}

/// An item that the channel does not take comes back as it was.
pub proof fn channel_gives_back_the_item(queue: QueueingPrimitives, msg: QueuedMsg)
    ensures
        forall|offer: Offer| #[trigger] queue.answered(msg, offer) ==> answers_offer(msg, offer),
        forall|unsent: Option<QueuedMsg>| #[trigger]
            queue.waited(msg, unsent) ==> (unsent matches Some(item) ==> item == msg),
{
}

/// An item that is reported as queued was handed to `Sender::try_send` and taken, or handed to
/// `Sender::send` and not given back.
proof fn queued_item_was_sent(
    queue: QueueingPrimitives,
    msg: QueuedMsg,
    block_when_full: bool,
    outcome: Outcome,
)
    requires
        queue.became(msg, block_when_full, outcome),
    ensures
        is_accepted(outcome) ==> call_ensures(try_send, (&queue.tx, msg), Offer::Taken)
            || call_ensures(send_blocking, (&queue.tx, msg), None::<QueuedMsg>),
        outcome is Waited ==> call_ensures(
            send_blocking,
            (&queue.tx, msg),
            outcome->unsent,
        ),
        outcome is Dropped ==> call_ensures(try_send, (&queue.tx, msg), Offer::Full(msg)),
        outcome is Disconnected ==> call_ensures(
            try_send,
            (&queue.tx, msg),
            Offer::Disconnected(msg),
        ),
{
}

/// What the worker takes for the answer of the channel was given by `Receiver::recv`.
proof fn received_item_was_given(rx: Receiver<QueuedMsg>, received: Option<QueuedMsg>)
    requires
        gives(rx, received),
    ensures
        call_ensures(receive, (&rx,), received),
{
}

/// The worker makes exactly the calls of the items that it was given, in their order: none is left
/// out, added, changed or put before another.
pub proof fn calls_follow_items(items: Seq<QueuedMsg>, more: Seq<QueuedMsg>, i: int)
    ensures
        calls_for(items).len() == items.len(),
        0 <= i < items.len() ==> calls_for(items)[i].queued() == items[i],
        calls_for(items + more) == calls_for(items) + calls_for(more),
{
    assert(calls_for(items + more) =~= calls_for(items) + calls_for(more));
}

/// A capacity that is no number, or out of range, gives way to the default.
pub proof fn bad_capacity_gives_default(text: Seq<char>)
    ensures
        capacity_for(None) == DEFAULT_CAPACITY,
        parsed_number(text) is None ==> capacity_for(Some(text)) == DEFAULT_CAPACITY,
        parsed_number(text) matches Some(n) ==> (n == 0 || n > MAX_CAPACITY) ==> capacity_for(
            Some(text),
        ) == DEFAULT_CAPACITY,
        parsed_number(text) matches Some(n) ==> (0 < n <= MAX_CAPACITY) ==> capacity_for(
            Some(text),
        ) == n,
{
}

/// Every answer of the channel leads to an outcome that the item can have, or to waiting with that
/// item where it may wait.
pub proof fn answers_lead_to_outcomes(msg: QueuedMsg, offer: Offer, block_when_full: bool)
    requires
        answers_offer(msg, offer),
    ensures
        match attempt_after(offer, block_when_full) {
            Attempt::Settled(outcome) => can_become(msg, block_when_full, outcome),
            Attempt::Wait(item) => block_when_full && item == msg,
        },
{
}

/// Whatever the setting, a queue has room for at least one item and at most the largest capacity.
pub proof fn capacity_is_in_range(setting: Option<Seq<char>>)
    ensures
        0 < capacity_for(setting) <= MAX_CAPACITY,
{
}

proof fn decimal_text_is_digits(n: nat)
    ensures
        all_digits(decimal_text(n)),
        decimal_value(decimal_text(n)) == n,
    decreases n,
{
    reveal_with_fuel(decimal_value, 2);
    if n >= 10 {
        decimal_text_is_digits(n / 10);
        assert(decimal_text(n).drop_last() =~= decimal_text(n / 10));
    } else {
        assert(decimal_text(n).drop_last() =~= Seq::<char>::empty());
    }
}

/// A capacity that is written in decimal is used as it is, if it is in range.
pub proof fn written_capacity_is_used(n: usize)
    requires
        0 < n <= MAX_CAPACITY,
    ensures
        capacity_for(Some(decimal_text(n as nat))) == n,
{
    decimal_text_is_digits(n as nat);
}

/// Exactly the words `1`, `true` and `yes` switch the queues on, written like this; no setting, and
/// every other text, leaves them off.
pub proof fn words_that_switch_on(text: Seq<char>)
    ensures
        !switches_on(None),
        switches_on(Some(text)) <==> {
            ||| text.len() == 1 && text[0] == '1'
            ||| text.len() == 4 && text[0] == 't' && text[1] == 'r' && text[2] == 'u' && text[3]
                == 'e'
            ||| text.len() == 3 && text[0] == 'y' && text[1] == 'e' && text[2] == 's'
        },
{
    reveal_strlit("1");
    reveal_strlit("true");
    reveal_strlit("yes");
    if text.len() == 1 && text[0] == '1' {
        assert(text =~= "1"@);
    }
    if text.len() == 4 && text[0] == 't' && text[1] == 'r' && text[2] == 'u' && text[3] == 'e' {
        assert(text =~= "true"@);
    }
    if text.len() == 3 && text[0] == 'y' && text[1] == 'e' && text[2] == 's' {
        assert(text =~= "yes"@);
    }
}

/// Every answer of the channel has its own consequence: an item that was taken is accepted, one for
/// which there is no room waits if it must not be dropped and is dropped if it may be, and one that
/// nobody receives is given up.
pub proof fn every_answer_has_its_consequence(offer: Offer, block_when_full: bool)
    ensures
        offer is Taken <==> attempt_after(offer, block_when_full) == Attempt::Settled(
            Outcome::Accepted,
        ),
        offer is Full && block_when_full <==> attempt_after(offer, block_when_full) is Wait,
        offer is Full && !block_when_full <==> (attempt_after(
            offer,
            block_when_full,
        ) matches Attempt::Settled(outcome) && outcome is Dropped),
        offer is Disconnected <==> (attempt_after(
            offer,
            block_when_full,
        ) matches Attempt::Settled(outcome) && outcome is Disconnected),
{
}

/// A call that was queued is the one that the worker makes when its item is received, and the worker
/// ends when no item comes.
pub proof fn received_item_is_called(call: PrimitiveCall, received: Option<QueuedMsg>)
    ensures
        received_call(Some(call.queued())) == Some(call),
        received_call(received) is None <==> received is None,
{
}

/// A plus sign before a number changes nothing, and there is at most one.
pub proof fn plus_sign_changes_nothing(text: Seq<char>)
    ensures
        text.len() > 0 && text[0] != '+' ==> parsed_number(seq!['+'] + text) == parsed_number(text),
        text.len() > 0 && text[0] == '+' ==> parsed_number(seq!['+'] + text) is None,
        parsed_number(text) is Some ==> text.len() > 0,
{
    let signed = seq!['+'] + text;
    assert(signed.drop_first() =~= text);
}

} // verus!
