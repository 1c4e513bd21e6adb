//! Closing of a face.
//!
//! Closing undeclares everything that the remote declared, then invalidates the routes that these
//! declarations took part in, and at last forgets the face. It runs in three parts. First the
//! interests of the remote are undeclared. Then the tables of the face are emptied, which gives the
//! actions that are left as a [`FaceClosing`]. This hands them out one by one: undeclaring a
//! subscription or a queryable is answered with the resources that match, which adds further
//! actions.

use std::collections::HashMap;

use vstd::prelude::*;
#[allow(unused_imports)]
use vstd::std_specs::iter::IteratorSpec;

#[allow(unused_imports)]
use crate::p2p_peer::gossip_link_is_added_for_all_but_clients;
#[allow(unused_imports)]
use crate::p2p_peer::unicast_introduction;
#[allow(unused_imports)]
use crate::p2p_peer::FaceAction;
use crate::p2p_peer::FaceState;
use crate::p2p_peer::HatCode;
use crate::p2p_peer::HatTables;
use crate::whatami::WhatAmI;

verus! {

broadcast use vstd::std_specs::hash::group_hash_axioms;

/// What the router does to close a face.
#[derive(Clone, Copy, PartialEq, Eq, Structural, Debug)]
pub enum CloseAction {
    /// The resource forgets the face.
    RemoveSessionCtx { res: u64 },
    /// The resource goes, if nothing needs it.
    Clean { res: u64 },
    /// Undeclare the subscription, and answer with the matches of the resource, if it has a context.
    UndeclareSubscription { res: u64 },
    /// Undeclare the queryable, and answer with the matches of the resource, if it has a context.
    UndeclareQueryable { res: u64 },
    UndeclareToken { res: u64 },
    DisableDataRoutes { res: u64 },
    DisableQueryRoutes { res: u64 },
    /// All resources forget the face.
    SweepSessionCtxs,
    /// The tables forget the face.
    RemoveFace,
    /// The remote no longer takes part in gossip.
    RemoveGossipLink { zid: u128 },
}

/// What became of an action.
#[derive(Debug)]
pub enum CloseEvent {
    /// It was performed.
    Done,
    /// It was performed, and the resource has a context with these matches.
    Matches { matches: Vec<u64> },
}

/// The keys of a map, each once, in any order.
pub open spec fn lists_keys<V>(list: Seq<u32>, map: Map<u32, V>) -> bool {
    &&& list.len() == map.len()
    &&& list.no_duplicates()
    &&& forall|i: int| 0 <= i < list.len() ==> map.contains_key(#[trigger] list[i])
}

fn keys_of<V>(map: &HashMap<u32, V>) -> (list: Vec<u32>)
    ensures
        lists_keys(list@, map@),
{
    let mut list: Vec<u32> = Vec::new();
    for key in it: map.keys()
        invariant
            it.seq().unref().to_set() == map@.dom(),
            it.seq().no_duplicates(),
            it.seq().len() == map@.dom().len(),
            list@.len() == it.index(),
            forall|i: int| 0 <= i < list@.len() ==> #[trigger] list@[i] == *it.seq()[i],
            list@.no_duplicates(),
            forall|i: int| 0 <= i < list@.len() ==> map@.contains_key(#[trigger] list@[i]),
    {
        assert(it.seq().unref().contains(*key)) by {
            assert(it.seq().unref()[it.index() as int] == *key);
        }
        list.push(*key);
    }
    list
}

/// The values that a map has at keys, one after the other.
pub open spec fn values_at(keys: Seq<u32>, map: Map<u32, u64>) -> Seq<u64> {
    Seq::new(keys.len(), |i: int| map[keys[i]])
}

/// The values of a map, each as often as it occurs, in any order.
pub open spec fn lists_values(values: Seq<u64>, map: Map<u32, u64>) -> bool {
    exists|keys: Seq<u32>| #[trigger] lists_keys(keys, map) && values == values_at(keys, map)
}

/// Empties a map and gives its values.
fn take_values(map: &mut HashMap<u32, u64>) -> (values: Vec<u64>)
    ensures
        lists_values(values@, old(map)@),
        final(map)@ == Map::<u32, u64>::empty(),
{
    let keys: Vec<u32> = keys_of(map);
    let mut values: Vec<u64> = Vec::new();
    let mut i: usize = 0;
    while i < keys.len()
        invariant
            i <= keys.len(),
            map@ == old(map)@,
            lists_keys(keys@, map@),
            values@ == values_at(keys@.take(i as int), map@),
        decreases keys.len() - i,
    {
        assert(map@.contains_key(keys@[i as int]));
        values.push(*map.get(&keys[i]).unwrap());
        i = i + 1;
        assert(values@ =~= values_at(keys@.take(i as int), map@));
    }
    assert(keys@.take(i as int) =~= keys@);
    map.clear();
    values
}

/// What is done to each resource of a list: two actions.
#[derive(Clone, Copy, PartialEq, Eq, Structural, Debug)]
pub enum Treatment {
    /// A resource that was mapped to an identifier.
    Mapping,
    /// A resource that the remote subscribed to.
    Subscription,
    /// A resource that the remote answers queries for.
    Queryable,
    /// A resource that the remote declared a token for.
    Token,
    /// A resource whose data routes may lead to the face.
    DataRoutes,
    /// A resource whose query routes may lead to the face.
    QueryRoutes,
}

impl Treatment {
    pub open spec fn first(self, res: u64) -> CloseAction {
        match self {
            Treatment::DataRoutes => CloseAction::DisableDataRoutes { res },
            Treatment::QueryRoutes => CloseAction::DisableQueryRoutes { res },
            _ => CloseAction::RemoveSessionCtx { res },
        }
    }

    pub open spec fn second(self, res: u64) -> CloseAction {
        match self {
            Treatment::Subscription => CloseAction::UndeclareSubscription { res },
            Treatment::Queryable => CloseAction::UndeclareQueryable { res },
            Treatment::Token => CloseAction::UndeclareToken { res },
            _ => CloseAction::Clean { res },
        }
    }

    fn actions(self, res: u64) -> (actions: (CloseAction, CloseAction))
        ensures
            actions == (self.first(res), self.second(res)),
    {
        let first = match self {
            Treatment::DataRoutes => CloseAction::DisableDataRoutes { res },
            Treatment::QueryRoutes => CloseAction::DisableQueryRoutes { res },
            _ => CloseAction::RemoveSessionCtx { res },
        };
        let second = match self {
            Treatment::Subscription => CloseAction::UndeclareSubscription { res },
            Treatment::Queryable => CloseAction::UndeclareQueryable { res },
            Treatment::Token => CloseAction::UndeclareToken { res },
            _ => CloseAction::Clean { res },
        };
        (first, second)
    }
}

/// The treatment of a list of resources, one after the other.
pub open spec fn treated(list: Seq<u64>, treatment: Treatment) -> Seq<CloseAction>
    decreases list.len(),
{
    if list.len() == 0 {
        Seq::empty()
    } else {
        treated(list.drop_last(), treatment) + seq![
            treatment.first(list.last()),
            treatment.second(list.last()),
        ]
    }
}

fn push_treated(actions: &mut Vec<CloseAction>, list: &Vec<u64>, treatment: Treatment)
    ensures
        final(actions)@ == old(actions)@ + treated(list@, treatment),
{
    let ghost before = actions@;
    let mut i: usize = 0;
    assert(before + treated(list@.take(0), treatment) =~= before);
    while i < list.len()
        invariant
            i <= list.len(),
            actions@ == before + treated(list@.take(i as int), treatment),
        decreases list.len() - i,
    {
        let (first, second) = treatment.actions(list[i]);
        actions.push(first);
        actions.push(second);
        assert(list@.take(i + 1).drop_last() =~= list@.take(i as int));
        i = i + 1;
        assert(actions@ =~= before + treated(list@.take(i as int), treatment));
    }
    assert(list@.take(i as int) =~= list@);
}

/// The first action of the treatment, for a list of resources.
pub open spec fn disabled(list: Seq<u64>, treatment: Treatment) -> Seq<CloseAction> {
    Seq::new(list.len(), |i: int| treatment.first(list[i]))
}

/// The matches that are not the resource itself.
pub open spec fn others(matches: Seq<u64>, res: u64) -> Seq<u64> {
    matches.filter(|other: u64| other != res)
}

/// A resource after the matches that are others.
pub open spec fn with_matches(matches: Seq<u64>, res: u64) -> Seq<u64> {
    others(matches, res).push(res)
}

fn collect_matches(matches: &Vec<u64>, res: u64) -> (list: Vec<u64>)
    ensures
        list@ == with_matches(matches@, res),
{
    let mut list: Vec<u64> = Vec::new();
    let mut i: usize = 0;
    reveal(Seq::filter);
    while i < matches.len()
        invariant
            i <= matches.len(),
            list@ == others(matches@.take(i as int), res),
        decreases matches.len() - i,
    {
        assert(matches@.take(i + 1).drop_last() =~= matches@.take(i as int));
        reveal(Seq::filter);
        let other: u64 = matches[i];
        if other != res {
            list.push(other);
        }
        i = i + 1;
    }
    assert(matches@.take(i as int) =~= matches@);
    list.push(res);
    list
}

fn push_first(actions: &mut Vec<CloseAction>, list: &Vec<u64>, treatment: Treatment)
    ensures
        final(actions)@ == old(actions)@ + disabled(list@, treatment),
{
    let ghost before = actions@;
    let mut i: usize = 0;
    while i < list.len()
        invariant
            i <= list.len(),
            actions@ == before + disabled(list@.take(i as int), treatment),
        decreases list.len() - i,
    {
        let (first, _) = treatment.actions(list[i]);
        actions.push(first);
        i = i + 1;
        assert(actions@ =~= before + disabled(list@.take(i as int), treatment));
    }
    assert(list@.take(i as int) =~= list@);
}

/// The closing of a face, as far as it has come.
pub struct ClosingModel {
    /// The actions that are to come, before the end.
    pub todo: Seq<CloseAction>,
    /// The action that is being performed.
    pub last: Option<CloseAction>,
    /// The resources whose data routes may lead to the face.
    pub subs_matches: Seq<u64>,
    /// The resources whose query routes may lead to the face.
    pub qabls_matches: Seq<u64>,
    /// The resources that the remote declared tokens for.
    pub tokens: Seq<u64>,
    /// The remote, if it takes part in gossip.
    pub gossip_zid: Option<u128>,
    /// The end has begun.
    pub ending: bool,
}

impl ClosingModel {
    /// The actions at the end: the routes that may lead to the face are disabled, now that nothing
    /// can bring them back, and the face is forgotten.
    pub open spec fn end(self) -> Seq<CloseAction> {
        treated(self.subs_matches, Treatment::DataRoutes) + treated(
            self.qabls_matches,
            Treatment::QueryRoutes,
        ) + Seq::new(self.tokens.len(), |i: int| CloseAction::Clean { res: self.tokens[i] })
            + seq![CloseAction::SweepSessionCtxs, CloseAction::RemoveFace] + (
        match self.gossip_zid {
            Some(zid) => seq![CloseAction::RemoveGossipLink { zid }],
            None => Seq::empty(),
        })
    }

    /// The actions that are to come, if no further matches are found.
    pub open spec fn plan(self) -> Seq<CloseAction> {
        if self.ending {
            self.todo
        } else {
            self.todo + self.end()
        }
    }

    /// The closing after the action that was being performed is answered.
    pub open spec fn answered(self, event: CloseEvent) -> ClosingModel {
        match (self.last, event) {
            (
                Some(CloseAction::UndeclareSubscription { res }),
                CloseEvent::Matches { matches },
            ) => ClosingModel {
                todo: disabled(with_matches(matches@, res), Treatment::DataRoutes) + self.todo,
                subs_matches: self.subs_matches + with_matches(matches@, res),
                ..self
            },
            (
                Some(CloseAction::UndeclareQueryable { res }),
                CloseEvent::Matches { matches },
            ) => ClosingModel {
                todo: disabled(with_matches(matches@, res), Treatment::QueryRoutes) + self.todo,
                qabls_matches: self.qabls_matches + with_matches(matches@, res),
                ..self
            },
            (Some(CloseAction::UndeclareToken { res }), _) => ClosingModel {
                tokens: self.tokens.push(res),
                ..self
            },
            _ => self,
        }
    }

    /// The closing after the next action was handed out.
    pub open spec fn advanced(self) -> ClosingModel {
        ClosingModel {
            todo: self.plan_here().drop_first(),
            last: Some(self.plan_here()[0]),
            ending: self.ending || self.todo.len() == 0,
            ..self
        }
    }

    /// The action that is handed out next, given what became of the one before.
    pub open spec fn handed(self, event: CloseEvent) -> Option<CloseAction> {
        let now = self.answered(event);
        if now.plan_here().len() == 0 {
            None
        } else {
            Some(now.plan_here()[0])
        }
    }

    /// The closing after a step, given what became of the action before.
    pub open spec fn stepped(self, event: CloseEvent) -> ClosingModel {
        let now = self.answered(event);
        if now.plan_here().len() == 0 {
            now
        } else {
            now.advanced()
        }
    }

    /// The closing after steps with these events, one after the other.
    pub open spec fn run(self, events: Seq<CloseEvent>) -> ClosingModel
        decreases events.len(),
    {
        if events.len() == 0 {
            self
        } else {
            self.run(events.drop_last()).stepped(events.last())
        }
    }

    /// The actions that were handed out in steps with these events: that of step `k` is answered by
    /// event `k + 1`.
    pub open spec fn performed(self, events: Seq<CloseEvent>) -> Seq<CloseAction>
        decreases events.len(),
    {
        if events.len() == 0 {
            Seq::empty()
        } else {
            match self.run(events.drop_last()).handed(events.last()) {
                Some(action) => self.performed(events.drop_last()).push(action),
                None => self.performed(events.drop_last()),
            }
        }
    }

    /// The actions to take the next one from: those of the end, once all others are done.
    pub open spec fn plan_here(self) -> Seq<CloseAction> {
        if self.todo.len() == 0 && !self.ending {
            self.end()
        } else {
            self.todo
        }
    }
}

/// The closing of a face, which hands out the actions to be performed one by one.
#[derive(Debug)]
pub struct FaceClosing {
    todo: Vec<CloseAction>,
    last: Option<CloseAction>,
    subs_matches: Vec<u64>,
    qabls_matches: Vec<u64>,
    tokens: Vec<u64>,
    gossip_zid: Option<u128>,
    ending: bool,
}

impl View for FaceClosing {
    type V = ClosingModel;

    closed spec fn view(&self) -> ClosingModel {
        ClosingModel {
            todo: self.todo@,
            last: self.last,
            subs_matches: self.subs_matches@,
            qabls_matches: self.qabls_matches@,
            tokens: self.tokens@,
            gossip_zid: self.gossip_zid,
            ending: self.ending,
        }
    }
}

impl FaceClosing {
    fn answer(&mut self, event: CloseEvent)
        ensures
            final(self)@ == old(self)@.answered(event),
    {
        let ghost before = self@;
        match (self.last, event) {
            (Some(CloseAction::UndeclareSubscription { res }), CloseEvent::Matches { matches }) => {
                let list: Vec<u64> = collect_matches(&matches, res);
                self.prepend(&list, Treatment::DataRoutes);
                self.subs_matches.extend_from_slice(list.as_slice());
                assert(self.subs_matches@ =~= before.subs_matches + list@);
            },
            (Some(CloseAction::UndeclareQueryable { res }), CloseEvent::Matches { matches }) => {
                let list: Vec<u64> = collect_matches(&matches, res);
                self.prepend(&list, Treatment::QueryRoutes);
                self.qabls_matches.extend_from_slice(list.as_slice());
                assert(self.qabls_matches@ =~= before.qabls_matches + list@);
            },
            (Some(CloseAction::UndeclareToken { res }), _) => {
                self.tokens.push(res);
            },
            _ => {},
        }
    }

    fn prepend(&mut self, list: &Vec<u64>, treatment: Treatment)
        ensures
            final(self)@ == (ClosingModel {
                todo: disabled(list@, treatment) + old(self)@.todo,
                ..old(self)@
            }),
    {
        let mut todo: Vec<CloseAction> = Vec::new();
        push_first(&mut todo, list, treatment);
        todo.extend_from_slice(self.todo.as_slice());
        assert(todo@ =~= disabled(list@, treatment) + self.todo@);
        self.todo = todo;
    }

    fn begin_end(&mut self)
        ensures
            final(self)@ == (ClosingModel {
                todo: old(self)@.end(),
                ending: true,
                ..old(self)@
            }),
    {
        let mut todo: Vec<CloseAction> = Vec::new();
        push_treated(&mut todo, &self.subs_matches, Treatment::DataRoutes);
        push_treated(&mut todo, &self.qabls_matches, Treatment::QueryRoutes);
        let ghost before = todo@;
        let mut i: usize = 0;
        while i < self.tokens.len()
            invariant
                i <= self.tokens.len(),
                todo@ == before + Seq::new(
                    i as nat,
                    |j: int| CloseAction::Clean { res: self.tokens@[j] },
                ),
            decreases self.tokens.len() - i,
        {
            todo.push(CloseAction::Clean { res: self.tokens[i] });
            i = i + 1;
            assert(todo@ =~= before + Seq::new(
                i as nat,
                |j: int| CloseAction::Clean { res: self.tokens@[j] },
            ));
        }
        todo.push(CloseAction::SweepSessionCtxs);
        todo.push(CloseAction::RemoveFace);
        if let Some(zid) = self.gossip_zid {
            todo.push(CloseAction::RemoveGossipLink { zid });
        }
        assert(todo@ =~= self@.end());
        self.todo = todo;
        self.ending = true;
    }

    /// The next action, given what became of the one before. There is none when the face is closed.
    pub fn step(&mut self, event: CloseEvent) -> (action: Option<CloseAction>)
        ensures
            action == old(self)@.handed(event),
            final(self)@ == old(self)@.stepped(event),
    {
        self.answer(event);
        let ghost now = self@;
        if self.todo.len() == 0 && !self.ending {
            self.begin_end();
        }
        if self.todo.len() == 0 {
            return None;
        }
        let action = self.todo.remove(0);
        assert(self.todo@ =~= now.plan_here().drop_first());
        self.last = Some(action);
        Some(action)
    }
}

/// The tables of a face, once it is being closed.
pub open spec fn emptied(before: FaceState, after: FaceState) -> bool {
    &&& after.id == before.id
    &&& after.zid == before.zid
    &&& after.whatami == before.whatami
    &&& after.mcast_group == before.mcast_group
    &&& after.local_interests == before.local_interests
    &&& after.local_mappings@.len() == 0
    &&& after.remote_mappings@.len() == 0
    &&& after.hat.next_id == before.hat.next_id
    &&& after.hat.remote_interests@.len() == 0
    &&& after.hat.local_subs@.len() == 0
    &&& after.hat.remote_subs@.len() == 0
    &&& after.hat.local_tokens@.len() == 0
    &&& after.hat.remote_tokens@.len() == 0
    &&& after.hat.local_qabls@.len() == 0
    &&& after.hat.remote_qabls@.len() == 0
}

/// The closing that begins for the resources of a face.
pub open spec fn begun(
    closing: ClosingModel,
    remote: Seq<u64>,
    local: Seq<u64>,
    subs: Seq<u64>,
    qabls: Seq<u64>,
    tokens: Seq<u64>,
) -> bool {
    &&& closing.todo == treated(remote, Treatment::Mapping) + treated(local, Treatment::Mapping)
        + treated(subs, Treatment::Subscription) + treated(qabls, Treatment::Queryable) + treated(
        tokens,
        Treatment::Token,
    )
    &&& closing.last is None
    &&& closing.subs_matches.len() == 0
    &&& closing.qabls_matches.len() == 0
    &&& closing.tokens.len() == 0
    &&& !closing.ending
}

/// The closing that begins for a face.
pub open spec fn begun_for(closing: ClosingModel, face: FaceState, gossip: bool) -> bool {
    &&& closing.gossip_zid == if face.whatami !is Client && gossip {
        Some(face.zid)
    } else {
        None
    }
    &&& exists|
        remote: Seq<u64>,
        local: Seq<u64>,
        subs: Seq<u64>,
        qabls: Seq<u64>,
        tokens: Seq<u64>,
    |
        {
            &&& #[trigger] begun(closing, remote, local, subs, qabls, tokens)
            &&& lists_values(remote, face.remote_mappings@)
            &&& lists_values(local, face.local_mappings@)
            &&& lists_values(subs, face.hat.remote_subs@)
            &&& lists_values(qabls, face.hat.remote_qabls@)
            &&& lists_values(tokens, face.hat.remote_tokens@)
        }
}

impl HatCode {
    /// The interests of the remote, which are to be undeclared before its tables are emptied.
    pub fn close_face_interests(&self, face: &FaceState) -> (ids: Vec<u32>)
        ensures
            lists_keys(ids@, face.hat.remote_interests@),
    {
        keys_of(&face.hat.remote_interests)
    }

    /// Empties the tables of a face, and begins its closing.
    pub fn close_face(&self, tables: &HatTables, face: &mut FaceState) -> (closing: FaceClosing)
        ensures
            emptied(*old(face), *final(face)),
            begun_for(closing@, *old(face), tables.gossip is Some),
    {
        face.hat.remote_interests.clear();
        face.hat.local_subs.clear();
        face.hat.local_qabls.clear();
        face.hat.local_tokens.clear();
        let remote: Vec<u64> = take_values(&mut face.remote_mappings);
        let local: Vec<u64> = take_values(&mut face.local_mappings);
        let subs: Vec<u64> = take_values(&mut face.hat.remote_subs);
        let qabls: Vec<u64> = take_values(&mut face.hat.remote_qabls);
        let tokens: Vec<u64> = take_values(&mut face.hat.remote_tokens);
        let mut todo: Vec<CloseAction> = Vec::new();
        push_treated(&mut todo, &remote, Treatment::Mapping);
        push_treated(&mut todo, &local, Treatment::Mapping);
        push_treated(&mut todo, &subs, Treatment::Subscription);
        push_treated(&mut todo, &qabls, Treatment::Queryable);
        push_treated(&mut todo, &tokens, Treatment::Token);
        let gossip_zid: Option<u128> = if face.whatami != WhatAmI::Client
            && tables.gossip.is_some() {
            Some(face.zid)
        } else {
            None
        };
        let closing = FaceClosing {
            todo,
            last: None,
            subs_matches: Vec::new(),
            qabls_matches: Vec::new(),
            tokens: Vec::new(),
            gossip_zid,
            ending: false,
        };
        assert(closing@.todo =~= treated(remote@, Treatment::Mapping) + treated(
            local@,
            Treatment::Mapping,
        ) + treated(subs@, Treatment::Subscription) + treated(qabls@, Treatment::Queryable)
            + treated(tokens@, Treatment::Token));
        assert(begun(closing@, remote@, local@, subs@, qabls@, tokens@));
        closing
    }
}

/// Each step hands out the first action of the plan and leaves the others.
pub proof fn steps_follow_the_plan(closing: ClosingModel)
    ensures
        closing.plan_here().len() == 0 <==> closing.plan().len() == 0,
        closing.plan().len() > 0 ==> {
            &&& closing.plan_here()[0] == closing.plan()[0]
            &&& closing.advanced().plan() == closing.plan().drop_first()
        },
{
    if closing.plan().len() > 0 {
        assert(closing.advanced().plan() =~= closing.plan().drop_first());
    }
}

proof fn treated_holds(list: Seq<u64>, treatment: Treatment, i: int)
    requires
        0 <= i < list.len(),
    ensures
        treated(list, treatment).len() == 2 * list.len(),
        treated(list, treatment)[2 * i] == treatment.first(list[i]),
        treated(list, treatment)[2 * i + 1] == treatment.second(list[i]),
    decreases list.len(),
{
    treated_len(list.drop_last(), treatment);
    if i < list.len() - 1 {
        treated_holds(list.drop_last(), treatment, i);
    }
}

proof fn treated_len(list: Seq<u64>, treatment: Treatment)
    ensures
        treated(list, treatment).len() == 2 * list.len(),
    decreases list.len(),
{
    if list.len() > 0 {
        treated_len(list.drop_last(), treatment);
    }
}

/// One action comes directly after another.
pub open spec fn follows(
    actions: Seq<CloseAction>,
    first: CloseAction,
    second: CloseAction,
) -> bool {
    exists|k: int|
        0 <= k < actions.len() - 1 && #[trigger] actions[k] == first && actions[k + 1] == second
}

/// Every resource whose routes may lead to the face has them disabled once more at the end, when
/// all declarations are gone, and is then cleaned.
pub proof fn matches_are_disabled_at_the_end(closing: ClosingModel, i: int)
    ensures
        0 <= i < closing.subs_matches.len() ==> follows(
            closing.end(),
            CloseAction::DisableDataRoutes { res: closing.subs_matches[i] },
            CloseAction::Clean { res: closing.subs_matches[i] },
        ),
        0 <= i < closing.qabls_matches.len() ==> follows(
            closing.end(),
            CloseAction::DisableQueryRoutes { res: closing.qabls_matches[i] },
            CloseAction::Clean { res: closing.qabls_matches[i] },
        ),
        0 <= i < closing.tokens.len() ==> closing.end().contains(
            CloseAction::Clean { res: closing.tokens[i] },
        ),
{
    let end = closing.end();
    let subs = closing.subs_matches;
    let qabls = closing.qabls_matches;
    treated_len(subs, Treatment::DataRoutes);
    treated_len(qabls, Treatment::QueryRoutes);
    if 0 <= i < subs.len() {
        treated_holds(subs, Treatment::DataRoutes, i);
        assert(end[2 * i] == Treatment::DataRoutes.first(subs[i]));
        assert(end[2 * i + 1] == Treatment::DataRoutes.second(subs[i]));
    }
    if 0 <= i < qabls.len() {
        treated_holds(qabls, Treatment::QueryRoutes, i);
        let k = 2 * subs.len() + 2 * i;
        assert(end[k] == Treatment::QueryRoutes.first(qabls[i]));
        assert(end[k + 1] == Treatment::QueryRoutes.second(qabls[i]));
    }
    if 0 <= i < closing.tokens.len() {
        let k = 2 * subs.len() + 2 * qabls.len() + i;
        assert(end[k] == CloseAction::Clean { res: closing.tokens[i] });
    }
}

/// The face is forgotten after all else: only the leave from gossip comes later.
pub proof fn face_is_removed_last(closing: ClosingModel)
    ensures
        closing.end().len() >= 2,
        match closing.gossip_zid {
            Some(zid) => {
                &&& closing.end()[closing.end().len() - 2] == CloseAction::RemoveFace
                &&& closing.end().last() == CloseAction::RemoveGossipLink { zid }
            },
            None => closing.end().last() == CloseAction::RemoveFace,
        },
{
}

/// Whatever the remote declared on a resource is undeclared, after the resource has forgotten the
/// face; a resource that was only mapped forgets the face and is cleaned.
pub proof fn declarations_are_undeclared(
    closing: ClosingModel,
    remote: Seq<u64>,
    local: Seq<u64>,
    subs: Seq<u64>,
    qabls: Seq<u64>,
    tokens: Seq<u64>,
    i: int,
)
    requires
        begun(closing, remote, local, subs, qabls, tokens),
    ensures
        0 <= i < remote.len() ==> follows(
            closing.todo,
            CloseAction::RemoveSessionCtx { res: remote[i] },
            CloseAction::Clean { res: remote[i] },
        ),
        0 <= i < local.len() ==> follows(
            closing.todo,
            CloseAction::RemoveSessionCtx { res: local[i] },
            CloseAction::Clean { res: local[i] },
        ),
        0 <= i < subs.len() ==> follows(
            closing.todo,
            CloseAction::RemoveSessionCtx { res: subs[i] },
            CloseAction::UndeclareSubscription { res: subs[i] },
        ),
        0 <= i < qabls.len() ==> follows(
            closing.todo,
            CloseAction::RemoveSessionCtx { res: qabls[i] },
            CloseAction::UndeclareQueryable { res: qabls[i] },
        ),
        0 <= i < tokens.len() ==> follows(
            closing.todo,
            CloseAction::RemoveSessionCtx { res: tokens[i] },
            CloseAction::UndeclareToken { res: tokens[i] },
        ),
{
    let todo = closing.todo;
    treated_len(remote, Treatment::Mapping);
    treated_len(local, Treatment::Mapping);
    treated_len(subs, Treatment::Subscription);
    treated_len(qabls, Treatment::Queryable);
    treated_len(tokens, Treatment::Token);
    if 0 <= i < remote.len() {
        treated_holds(remote, Treatment::Mapping, i);
        assert(todo[2 * i] == Treatment::Mapping.first(remote[i]));
        assert(todo[2 * i + 1] == Treatment::Mapping.second(remote[i]));
    }
    if 0 <= i < local.len() {
        treated_holds(local, Treatment::Mapping, i);
        let k = 2 * remote.len() + 2 * i;
        assert(todo[k] == Treatment::Mapping.first(local[i]));
        assert(todo[k + 1] == Treatment::Mapping.second(local[i]));
    }
    if 0 <= i < subs.len() {
        treated_holds(subs, Treatment::Subscription, i);
        let k = 2 * remote.len() + 2 * local.len() + 2 * i;
        assert(todo[k] == Treatment::Subscription.first(subs[i]));
        assert(todo[k + 1] == Treatment::Subscription.second(subs[i]));
    }
    if 0 <= i < qabls.len() {
        treated_holds(qabls, Treatment::Queryable, i);
        let k = 2 * remote.len() + 2 * local.len() + 2 * subs.len() + 2 * i;
        assert(todo[k] == Treatment::Queryable.first(qabls[i]));
        assert(todo[k + 1] == Treatment::Queryable.second(qabls[i]));
    }
    if 0 <= i < tokens.len() {
        treated_holds(tokens, Treatment::Token, i);
        let k = 2 * remote.len() + 2 * local.len() + 2 * subs.len() + 2 * qabls.len() + 2 * i;
        assert(todo[k] == Treatment::Token.first(tokens[i]));
        assert(todo[k + 1] == Treatment::Token.second(tokens[i]));
    }
}

/// No resource is overlooked: every value of a map is in the list of its values.
pub proof fn every_value_is_listed(values: Seq<u64>, map: Map<u32, u64>, key: u32)
    requires
        map.dom().finite(),
        lists_values(values, map),
        map.contains_key(key),
    ensures
        values.contains(map[key]),
{
    let keys = choose|keys: Seq<u32>| #[trigger]
        lists_keys(keys, map) && values == values_at(keys, map);
    keys.unique_seq_to_set();
    assert(keys.to_set().subset_of(map.dom())) by {
        assert forall|k: u32| keys.to_set().contains(k) implies map.dom().contains(k) by {
            let i = choose|i: int| 0 <= i < keys.len() && keys[i] == k;
            assert(map.contains_key(keys[i]));
        }
    }
    vstd::set_lib::lemma_subset_equality(keys.to_set(), map.dom());
    assert(keys.to_set().contains(key));
    let i = choose|i: int| 0 <= i < keys.len() && keys[i] == key;
    assert(values[i] == map[key]);
}

/// An answer takes nothing from the plan, and every match that it brings is disabled before
/// anything else happens.
pub proof fn answers_add_to_the_plan(closing: ClosingModel, event: CloseEvent, i: int)
    requires
        !closing.ending,
    ensures
        0 <= i < closing.todo.len() ==> closing.answered(event).todo.contains(closing.todo[i]),
        closing.last matches Some(CloseAction::UndeclareSubscription { res }) ==> event matches
            CloseEvent::Matches { matches } ==> (0 <= i < matches@.len() ==> closing.answered(
            event,
        ).subs_matches.contains(matches@[i])) && closing.answered(event).todo[with_matches(
            matches@,
            res,
        ).len() - 1] == (CloseAction::DisableDataRoutes { res }),
        closing.last matches Some(CloseAction::UndeclareQueryable { res }) ==> event matches
            CloseEvent::Matches { matches } ==> (0 <= i < matches@.len() ==> closing.answered(
            event,
        ).qabls_matches.contains(matches@[i])) && closing.answered(event).todo[with_matches(
            matches@,
            res,
        ).len() - 1] == (CloseAction::DisableQueryRoutes { res }),
{
    let after = closing.answered(event);
    if 0 <= i < closing.todo.len() {
        let added = after.todo.len() - closing.todo.len();
        assert(after.todo[added + i] == closing.todo[i]);
    }
    if let CloseEvent::Matches { matches } = event {
        if let Some(CloseAction::UndeclareSubscription { res }) = closing.last {
            if 0 <= i < matches@.len() {
                match_is_collected(matches@, res, i);
                let k = choose|k: int|
                    0 <= k < with_matches(matches@, res).len() && with_matches(matches@, res)[k]
                        == matches@[i];
                assert(after.subs_matches[closing.subs_matches.len() + k] == matches@[i]);
            }
        }
        if let Some(CloseAction::UndeclareQueryable { res }) = closing.last {
            if 0 <= i < matches@.len() {
                match_is_collected(matches@, res, i);
                let k = choose|k: int|
                    0 <= k < with_matches(matches@, res).len() && with_matches(matches@, res)[k]
                        == matches@[i];
                assert(after.qabls_matches[closing.qabls_matches.len() + k] == matches@[i]);
            }
        }
    }
}

proof fn match_is_collected(matches: Seq<u64>, res: u64, i: int)
    requires
        0 <= i < matches.len(),
    ensures
        with_matches(matches, res).contains(matches[i]),
{
    let list = with_matches(matches, res);
    if matches[i] == res {
        assert(list[list.len() - 1] == res);
    } else {
        other_is_kept(matches, res, i);
        let k = choose|k: int| 0 <= k < others(matches, res).len() && others(matches, res)[k]
            == matches[i];
        assert(list[k] == matches[i]);
    }
}

proof fn other_is_kept(matches: Seq<u64>, res: u64, i: int)
    requires
        0 <= i < matches.len(),
        matches[i] != res,
    ensures
        others(matches, res).contains(matches[i]),
    decreases matches.len(),
{
    reveal(Seq::filter);
    let rest = matches.drop_last();
    let kept = others(matches, res);
    if i < rest.len() {
        other_is_kept(rest, res, i);
        let k = choose|k: int| 0 <= k < others(rest, res).len() && others(rest, res)[k]
            == matches[i];
        assert(kept[k] == matches[i]);
    } else {
        assert(kept[kept.len() - 1] == matches[i]);
    }
}

/// A face that is closed stays closed.
pub proof fn closed_face_stays_closed(closing: ClosingModel, event: CloseEvent)
    requires
        closing.ending,
        closing.todo.len() == 0,
        closing.last matches Some(last) && (last is RemoveFace || last is RemoveGossipLink),
    ensures
        closing.answered(event) == closing,
        closing.plan_here().len() == 0,
{
}

/// An action that undeclares something.
pub open spec fn undeclares(action: CloseAction) -> bool {
    ||| action is UndeclareSubscription
    ||| action is UndeclareQueryable
    ||| action is UndeclareToken
}

/// An answer loses nothing of what was collected or planned: what was collected before is a prefix
/// of what is collected after, and what was planned before is a suffix of what is planned after.
pub proof fn answers_keep_what_was_collected(closing: ClosingModel, event: CloseEvent)
    ensures
        closing.subs_matches.is_prefix_of(closing.answered(event).subs_matches),
        closing.qabls_matches.is_prefix_of(closing.answered(event).qabls_matches),
        closing.tokens.is_prefix_of(closing.answered(event).tokens),
        closing.answered(event).todo.len() >= closing.todo.len(),
        closing.answered(event).todo.skip(
            closing.answered(event).todo.len() - closing.todo.len(),
        ) == closing.todo,
        closing.answered(event).gossip_zid == closing.gossip_zid,
        closing.answered(event).ending == closing.ending,
{
    let after = closing.answered(event);
    assert(closing.subs_matches.is_prefix_of(after.subs_matches));
    assert(closing.qabls_matches.is_prefix_of(after.qabls_matches));
    assert(closing.tokens.is_prefix_of(after.tokens));
    assert(after.todo.skip(after.todo.len() - closing.todo.len()) =~= closing.todo);
}

/// When a subscription was undeclared, the resource and each of its matches are collected, and their
/// data routes are disabled before anything else happens; and the same for a queryable and query
/// routes. An undeclared token is collected.
pub proof fn undeclared_resources_are_collected(
    closing: ClosingModel,
    matches: Vec<u64>,
    event: CloseEvent,
    r: u64,
)
    ensures
        closing.last matches Some(CloseAction::UndeclareSubscription { res }) ==> (r == res
            || matches@.contains(r)) ==> {
            let after = closing.answered(CloseEvent::Matches { matches });
            &&& after.subs_matches.contains(r)
            &&& after.todo.take(after.todo.len() - closing.todo.len()).contains(
                CloseAction::DisableDataRoutes { res: r },
            )
        },
        closing.last matches Some(CloseAction::UndeclareQueryable { res }) ==> (r == res
            || matches@.contains(r)) ==> {
            let after = closing.answered(CloseEvent::Matches { matches });
            &&& after.qabls_matches.contains(r)
            &&& after.todo.take(after.todo.len() - closing.todo.len()).contains(
                CloseAction::DisableQueryRoutes { res: r },
            )
        },
        closing.last matches Some(CloseAction::UndeclareToken { res }) ==> closing.answered(
            event,
        ).tokens.contains(res),
{
    let after = closing.answered(CloseEvent::Matches { matches });
    let added = after.todo.take(after.todo.len() - closing.todo.len());
    match closing.last {
        Some(CloseAction::UndeclareSubscription { res }) => {
            let list = with_matches(matches@, res);
            if r == res || matches@.contains(r) {
                collected_with_matches(matches@, res, r);
                let k = choose|k: int| 0 <= k < list.len() && list[k] == r;
                assert(after.subs_matches[closing.subs_matches.len() + k] == r);
                assert(added[k] == CloseAction::DisableDataRoutes { res: r });
            }
        },
        Some(CloseAction::UndeclareQueryable { res }) => {
            let list = with_matches(matches@, res);
            if r == res || matches@.contains(r) {
                collected_with_matches(matches@, res, r);
                let k = choose|k: int| 0 <= k < list.len() && list[k] == r;
                assert(after.qabls_matches[closing.qabls_matches.len() + k] == r);
                assert(added[k] == CloseAction::DisableQueryRoutes { res: r });
            }
        },
        Some(CloseAction::UndeclareToken { res }) => {
            let tokens = closing.answered(event).tokens;
            assert(tokens[tokens.len() - 1] == res);
        },
        _ => {},
    }
}

proof fn collected_with_matches(matches: Seq<u64>, res: u64, r: u64)
    requires
        r == res || matches.contains(r),
    ensures
        with_matches(matches, res).contains(r),
{
    let list = with_matches(matches, res);
    if r == res {
        assert(list[list.len() - 1] == res);
    } else {
        let i = choose|i: int| 0 <= i < matches.len() && matches[i] == r;
        match_is_collected(matches, res, i);
    }
}

proof fn treated_undeclares_nothing(list: Seq<u64>, treatment: Treatment)
    requires
        treatment is DataRoutes || treatment is QueryRoutes,
    ensures
        forall|i: int|
            0 <= i < treated(list, treatment).len() ==> !undeclares(
                #[trigger] treated(list, treatment)[i],
            ),
    decreases list.len(),
{
    if list.len() > 0 {
        let rest = treated(list.drop_last(), treatment);
        treated_undeclares_nothing(list.drop_last(), treatment);
        assert forall|i: int| 0 <= i < treated(list, treatment).len() implies !undeclares(
            #[trigger] treated(list, treatment)[i],
        ) by {
            if i < rest.len() {
                assert(!undeclares(rest[i]));
            }
        }
    }
}

/// At the end nothing is undeclared any more.
pub proof fn end_undeclares_nothing(closing: ClosingModel, i: int)
    requires
        0 <= i < closing.end().len(),
    ensures
        !undeclares(closing.end()[i]),
{
    treated_undeclares_nothing(closing.subs_matches, Treatment::DataRoutes);
    treated_undeclares_nothing(closing.qabls_matches, Treatment::QueryRoutes);
}

/// How far a closing has come after some steps: what was answered is collected, and once the end
/// has begun, what was handed out since then and what is left are the end.
spec fn on_course(closing: ClosingModel, events: Seq<CloseEvent>, begin: int) -> bool {
    let now = closing.run(events);
    let acts = closing.performed(events);
    &&& acts.len() == events.len()
    &&& events.len() > 0 ==> now.last == Some(acts.last())
    &&& now.gossip_zid == closing.gossip_zid
    &&& 0 <= begin <= acts.len()
    &&& now.ending ==> begin < acts.len() && acts.skip(begin) + now.todo == now.end()
}

proof fn run_stays_on_course(closing: ClosingModel, events: Seq<CloseEvent>) -> (begin: int)
    requires
        closing.last is None,
        !closing.ending,
        closing.performed(events).len() == events.len(),
    ensures
        on_course(closing, events, begin),
    decreases events.len(),
{
    if events.len() == 0 {
        0
    } else {
        let rest = events.drop_last();
        performed_len(closing, rest);
        let before = closing.run(rest);
        let begin = run_stays_on_course(closing, rest);
        let now = before.answered(events.last());
        let after = closing.run(events);
        let acts = closing.performed(events);
        let earlier = closing.performed(rest);
        assert(acts == earlier.push(now.plan_here()[0]));
        if before.ending {
            let k = earlier.len() - 1;
            assert((earlier.skip(begin) + before.todo)[k - begin] == earlier[k]);
            end_undeclares_nothing(before, k - begin);
            assert(now == before);
            assert(acts.skip(begin) + after.todo =~= earlier.skip(begin) + before.todo);
            begin
        } else {
            if now.todo.len() == 0 {
                assert(acts.skip(earlier.len() as int) + after.todo =~= now.end());
                assert(after.end() =~= now.end());
                earlier.len() as int
            } else {
                acts.len() as int
            }
        }
    }
}

proof fn performed_len(closing: ClosingModel, events: Seq<CloseEvent>)
    ensures
        closing.performed(events).len() <= events.len(),
    decreases events.len(),
{
    if events.len() > 0 {
        performed_len(closing, events.drop_last());
    }
}

proof fn answered_resources_stay_collected(
    closing: ClosingModel,
    events: Seq<CloseEvent>,
    k: int,
    r: u64,
)
    requires
        closing.last is None,
        !closing.ending,
        closing.performed(events).len() == events.len(),
        0 <= k < events.len() - 1,
    ensures
        closing.performed(events)[k] matches CloseAction::UndeclareSubscription { res }
            ==> events[k + 1] matches CloseEvent::Matches { matches } ==> (r == res
            || matches@.contains(r)) ==> closing.run(events).subs_matches.contains(r),
        closing.performed(events)[k] matches CloseAction::UndeclareQueryable { res }
            ==> events[k + 1] matches CloseEvent::Matches { matches } ==> (r == res
            || matches@.contains(r)) ==> closing.run(events).qabls_matches.contains(r),
        closing.performed(events)[k] matches CloseAction::UndeclareToken { res } ==> closing.run(
            events,
        ).tokens.contains(res),
    decreases events.len(),
{
    let rest = events.drop_last();
    performed_len(closing, rest);
    let before = closing.run(rest);
    let earlier = closing.performed(rest);
    let now = before.answered(events.last());
    let action = closing.performed(events)[k];
    assert(action == earlier[k]);
    answers_keep_what_was_collected(before, events.last());
    if k + 1 < rest.len() {
        answered_resources_stay_collected(closing, rest, k, r);
        assert(rest[k + 1] == events[k + 1]);
        prefix_keeps(before.subs_matches, now.subs_matches, r);
        prefix_keeps(before.qabls_matches, now.qabls_matches, r);
        if let CloseAction::UndeclareToken { res } = action {
            prefix_keeps(before.tokens, now.tokens, res);
        }
    } else {
        let begin = run_stays_on_course(closing, rest);
        assert(before.last == Some(action));
        if let CloseEvent::Matches { matches } = events.last() {
            undeclared_resources_are_collected(before, matches, events.last(), r);
        }
        if let CloseAction::UndeclareToken { res } = action {
            assert(now.tokens[now.tokens.len() - 1] == res);
        }
    }
}

proof fn prefix_keeps(list: Seq<u64>, longer: Seq<u64>, r: u64)
    requires
        list.is_prefix_of(longer),
    ensures
        list.contains(r) ==> longer.contains(r),
{
    if list.contains(r) {
        let i = choose|i: int| 0 <= i < list.len() && list[i] == r;
        assert(longer[i] == list[i]);
    }
}

/// Two actions are performed one directly after the other, and from then on nothing is undeclared.
pub open spec fn performed_last(
    actions: Seq<CloseAction>,
    first: CloseAction,
    second: CloseAction,
) -> bool {
    exists|p: int|
        {
            &&& 0 <= p < actions.len() - 1
            &&& #[trigger] actions[p] == first
            &&& actions[p + 1] == second
            &&& forall|q: int| p <= q < actions.len() ==> !undeclares(#[trigger] actions[q])
        }
}

/// An action is performed, and from then on nothing is undeclared.
pub open spec fn performed_after_all(actions: Seq<CloseAction>, action: CloseAction) -> bool {
    exists|p: int|
        {
            &&& 0 <= p < actions.len()
            &&& #[trigger] actions[p] == action
            &&& forall|q: int| p <= q < actions.len() ==> !undeclares(#[trigger] actions[q])
        }
}

/// Over a whole closing, however its actions are answered: every resource for which a subscription
/// or a queryable was undeclared and that had a context, and each of its matches, has its routes
/// disabled once more and is cleaned, and every resource for which a token was undeclared is
/// cleaned, all after the last undeclaration.
pub proof fn closing_cleans_all_that_was_undeclared(
    closing: ClosingModel,
    events: Seq<CloseEvent>,
    k: int,
    r: u64,
)
    requires
        closing.last is None,
        !closing.ending,
        closing.performed(events).len() == events.len(),
        closing.run(events).plan().len() == 0,
        0 <= k < events.len(),
    ensures
        undeclares(closing.performed(events)[k]) ==> k + 1 < events.len(),
        closing.performed(events)[k] matches CloseAction::UndeclareSubscription { res }
            ==> events[k + 1] matches CloseEvent::Matches { matches } ==> (r == res
            || matches@.contains(r)) ==> performed_last(
            closing.performed(events),
            CloseAction::DisableDataRoutes { res: r },
            CloseAction::Clean { res: r },
        ),
        closing.performed(events)[k] matches CloseAction::UndeclareQueryable { res }
            ==> events[k + 1] matches CloseEvent::Matches { matches } ==> (r == res
            || matches@.contains(r)) ==> performed_last(
            closing.performed(events),
            CloseAction::DisableQueryRoutes { res: r },
            CloseAction::Clean { res: r },
        ),
        closing.performed(events)[k] matches CloseAction::UndeclareToken { res }
            ==> performed_after_all(closing.performed(events), CloseAction::Clean { res }),
{
    let begin = run_stays_on_course(closing, events);
    let now = closing.run(events);
    let acts = closing.performed(events);
    face_is_removed_last(now);
    assert(now.ending);
    assert(acts.skip(begin) =~= now.end());
    assert forall|q: int| begin <= q < acts.len() implies !undeclares(#[trigger] acts[q]) by {
        end_undeclares_nothing(now, q - begin);
        assert(acts.skip(begin)[q - begin] == acts[q]);
    }
    if undeclares(acts[k]) {
        assert(k < begin);
        answered_resources_stay_collected(closing, events, k, r);
        if now.subs_matches.contains(r) {
            let i = choose|i: int| 0 <= i < now.subs_matches.len() && now.subs_matches[i] == r;
            matches_are_disabled_at_the_end(now, i);
            let first = CloseAction::DisableDataRoutes { res: r };
            let n = choose|n: int|
                0 <= n < now.end().len() - 1 && #[trigger] now.end()[n] == first && now.end()[n + 1]
                    == (CloseAction::Clean { res: r });
            assert(acts[begin + n] == acts.skip(begin)[n]);
            assert(acts[begin + n + 1] == acts.skip(begin)[n + 1]);
        }
        if now.qabls_matches.contains(r) {
            let i = choose|i: int| 0 <= i < now.qabls_matches.len() && now.qabls_matches[i] == r;
            matches_are_disabled_at_the_end(now, i);
            let first = CloseAction::DisableQueryRoutes { res: r };
            let n = choose|n: int|
                0 <= n < now.end().len() - 1 && #[trigger] now.end()[n] == first && now.end()[n + 1]
                    == (CloseAction::Clean { res: r });
            assert(acts[begin + n] == acts.skip(begin)[n]);
            assert(acts[begin + n + 1] == acts.skip(begin)[n + 1]);
        }
        if let CloseAction::UndeclareToken { res } = acts[k] {
            let i = choose|i: int| 0 <= i < now.tokens.len() && now.tokens[i] == res;
            matches_are_disabled_at_the_end(now, i);
            let n = choose|n: int|
                0 <= n < now.end().len() && now.end()[n] == (CloseAction::Clean { res });
            assert(acts[begin + n] == acts.skip(begin)[n]);
        }
    }
}

proof fn planned_actions_are_performed(closing: ClosingModel, events: Seq<CloseEvent>, i: int)
    requires
        closing.last is None,
        !closing.ending,
        closing.performed(events).len() == events.len(),
        0 <= i < closing.todo.len(),
    ensures
        closing.performed(events).contains(closing.todo[i]) || (!closing.run(events).ending
            && closing.run(events).todo.contains(closing.todo[i])),
    decreases events.len(),
{
    let action = closing.todo[i];
    if events.len() == 0 {
        assert(closing.run(events).todo[i] == action);
    } else {
        let rest = events.drop_last();
        performed_len(closing, rest);
        planned_actions_are_performed(closing, rest, i);
        let before = closing.run(rest);
        let earlier = closing.performed(rest);
        let acts = closing.performed(events);
        let now = before.answered(events.last());
        answers_keep_what_was_collected(before, events.last());
        if earlier.contains(action) {
            let n = choose|n: int| 0 <= n < earlier.len() && earlier[n] == action;
            assert(acts[n] == action);
        } else {
            let n = choose|n: int| 0 <= n < before.todo.len() && before.todo[n] == action;
            let added = now.todo.len() - before.todo.len();
            assert(now.todo.skip(added)[n] == action);
            assert(now.todo[added + n] == action);
            if added + n == 0 {
                assert(acts[acts.len() - 1] == action);
            } else {
                assert(closing.run(events).todo[added + n - 1] == action);
            }
        }
    }
}

/// Over a whole closing every resource that the face knew forgets it, every declaration of the
/// remote is undeclared, the face is removed, and the remote leaves gossip exactly if it took part
/// in it.
pub proof fn closing_undeclares_all_that_was_declared(
    closing: ClosingModel,
    face: FaceState,
    gossip: bool,
    events: Seq<CloseEvent>,
    key: u32,
)
    requires
        begun_for(closing, face, gossip),
        closing.performed(events).len() == events.len(),
        closing.run(events).plan().len() == 0,
    ensures
        ({
            let acts = closing.performed(events);
            &&& face.remote_mappings@.contains_key(key) ==> acts.contains(
                CloseAction::RemoveSessionCtx { res: face.remote_mappings@[key] },
            ) && acts.contains(CloseAction::Clean { res: face.remote_mappings@[key] })
            &&& face.local_mappings@.contains_key(key) ==> acts.contains(
                CloseAction::RemoveSessionCtx { res: face.local_mappings@[key] },
            ) && acts.contains(CloseAction::Clean { res: face.local_mappings@[key] })
            &&& face.hat.remote_subs@.contains_key(key) ==> acts.contains(
                CloseAction::RemoveSessionCtx { res: face.hat.remote_subs@[key] },
            ) && acts.contains(
                CloseAction::UndeclareSubscription { res: face.hat.remote_subs@[key] },
            )
            &&& face.hat.remote_qabls@.contains_key(key) ==> acts.contains(
                CloseAction::RemoveSessionCtx { res: face.hat.remote_qabls@[key] },
            ) && acts.contains(
                CloseAction::UndeclareQueryable { res: face.hat.remote_qabls@[key] },
            )
            &&& face.hat.remote_tokens@.contains_key(key) ==> acts.contains(
                CloseAction::RemoveSessionCtx { res: face.hat.remote_tokens@[key] },
            ) && acts.contains(CloseAction::UndeclareToken { res: face.hat.remote_tokens@[key] })
            &&& acts.contains(CloseAction::SweepSessionCtxs)
            &&& acts.contains(CloseAction::RemoveFace)
            &&& gossip && face.whatami !is Client ==> acts.last()
                == (CloseAction::RemoveGossipLink { zid: face.zid })
            &&& !gossip || face.whatami is Client ==> acts.last() == CloseAction::RemoveFace
        }),
{
    let (remote, local, subs, qabls, tokens) = choose|
        remote: Seq<u64>,
        local: Seq<u64>,
        subs: Seq<u64>,
        qabls: Seq<u64>,
        tokens: Seq<u64>,
    |
        {
            &&& #[trigger] begun(closing, remote, local, subs, qabls, tokens)
            &&& lists_values(remote, face.remote_mappings@)
            &&& lists_values(local, face.local_mappings@)
            &&& lists_values(subs, face.hat.remote_subs@)
            &&& lists_values(qabls, face.hat.remote_qabls@)
            &&& lists_values(tokens, face.hat.remote_tokens@)
        };
    let acts = closing.performed(events);
    let now = closing.run(events);
    let begin = run_stays_on_course(closing, events);
    face_is_removed_last(now);
    assert(acts.skip(begin) =~= now.end());
    let n = now.end().len();
    assert(acts.last() == now.end()[n - 1]);
    match now.gossip_zid {
        Some(_) => {
            assert(acts[begin + n - 2] == acts.skip(begin)[n - 2]);
            assert(acts[begin + n - 3] == acts.skip(begin)[n - 3]);
            assert(now.end()[n - 3] == CloseAction::SweepSessionCtxs);
        },
        None => {
            assert(acts[begin + n - 1] == acts.skip(begin)[n - 1]);
            assert(acts[begin + n - 2] == acts.skip(begin)[n - 2]);
            assert(now.end()[n - 2] == CloseAction::SweepSessionCtxs);
        },
    }
    if face.remote_mappings@.contains_key(key) {
        let r = face.remote_mappings@[key];
        every_value_is_listed(remote, face.remote_mappings@, key);
        let i = choose|i: int| 0 <= i < remote.len() && remote[i] == r;
        declarations_are_undeclared(closing, remote, local, subs, qabls, tokens, i);
        pair_is_performed(
            closing,
            events,
            CloseAction::RemoveSessionCtx { res: r },
            CloseAction::Clean { res: r },
        );
    }
    if face.local_mappings@.contains_key(key) {
        let r = face.local_mappings@[key];
        every_value_is_listed(local, face.local_mappings@, key);
        let i = choose|i: int| 0 <= i < local.len() && local[i] == r;
        declarations_are_undeclared(closing, remote, local, subs, qabls, tokens, i);
        pair_is_performed(
            closing,
            events,
            CloseAction::RemoveSessionCtx { res: r },
            CloseAction::Clean { res: r },
        );
    }
    if face.hat.remote_subs@.contains_key(key) {
        let r = face.hat.remote_subs@[key];
        every_value_is_listed(subs, face.hat.remote_subs@, key);
        let i = choose|i: int| 0 <= i < subs.len() && subs[i] == r;
        declarations_are_undeclared(closing, remote, local, subs, qabls, tokens, i);
        pair_is_performed(
            closing,
            events,
            CloseAction::RemoveSessionCtx { res: r },
            CloseAction::UndeclareSubscription { res: r },
        );
    }
    if face.hat.remote_qabls@.contains_key(key) {
        let r = face.hat.remote_qabls@[key];
        every_value_is_listed(qabls, face.hat.remote_qabls@, key);
        let i = choose|i: int| 0 <= i < qabls.len() && qabls[i] == r;
        declarations_are_undeclared(closing, remote, local, subs, qabls, tokens, i);
        pair_is_performed(
            closing,
            events,
            CloseAction::RemoveSessionCtx { res: r },
            CloseAction::UndeclareQueryable { res: r },
        );
    }
    if face.hat.remote_tokens@.contains_key(key) {
        let r = face.hat.remote_tokens@[key];
        every_value_is_listed(tokens, face.hat.remote_tokens@, key);
        let i = choose|i: int| 0 <= i < tokens.len() && tokens[i] == r;
        declarations_are_undeclared(closing, remote, local, subs, qabls, tokens, i);
        pair_is_performed(
            closing,
            events,
            CloseAction::RemoveSessionCtx { res: r },
            CloseAction::UndeclareToken { res: r },
        );
    }
}

proof fn pair_is_performed(
    closing: ClosingModel,
    events: Seq<CloseEvent>,
    first: CloseAction,
    second: CloseAction,
)
    requires
        closing.last is None,
        !closing.ending,
        closing.performed(events).len() == events.len(),
        closing.run(events).plan().len() == 0,
        follows(closing.todo, first, second),
    ensures
        closing.performed(events).contains(first),
        closing.performed(events).contains(second),
{
    let k = choose|k: int|
        0 <= k < closing.todo.len() - 1 && #[trigger] closing.todo[k] == first && closing.todo[k
            + 1] == second;
    planned_actions_are_performed(closing, events, k);
    planned_actions_are_performed(closing, events, k + 1);
    face_is_removed_last(closing.run(events));
}

/// A remote that leaves gossip when its face is closed is one that joined it when the face was new.
pub proof fn remote_leaves_gossip_if_it_joined(
    closing: ClosingModel,
    face: FaceState,
    gossip: bool,
)
    requires
        begun_for(closing, face, gossip),
    ensures
        closing.gossip_zid is Some <==> unicast_introduction(gossip, face.whatami).contains(
            FaceAction::AddGossipLink,
        ),
        closing.gossip_zid matches Some(zid) ==> zid == face.zid,
{
    gossip_link_is_added_for_all_but_clients(gossip, face.whatami);
}

/// Every interest of the remote is undeclared, and each once.
pub proof fn every_interest_is_listed<V>(ids: Seq<u32>, interests: Map<u32, V>, id: u32)
    requires
        interests.dom().finite(),
        lists_keys(ids, interests),
    ensures
        interests.contains_key(id) <==> ids.contains(id),
        ids.no_duplicates(),
{
    ids.unique_seq_to_set();
    assert(ids.to_set().subset_of(interests.dom())) by {
        assert forall|k: u32| ids.to_set().contains(k) implies interests.dom().contains(k) by {
            let i = choose|i: int| 0 <= i < ids.len() && ids[i] == k;
            assert(interests.contains_key(ids[i]));
        }
    }
    vstd::set_lib::lemma_subset_equality(ids.to_set(), interests.dom());
    assert(interests.contains_key(id) <==> ids.to_set().contains(id));
}

/// A closed face has nothing left: whatever was mapped or declared on either side is gone, so
/// closing it again undeclares nothing, and it is still the same face.
pub proof fn closed_face_has_nothing_left(
    before: FaceState,
    after: FaceState,
    again: ClosingModel,
    gossip: bool,
)
    requires
        emptied(before, after),
        begun_for(again, after, gossip),
    ensures
        again.todo.len() == 0,
        after.hat.local_subs@ == Map::<u64, u32>::empty(),
        after.hat.local_qabls@ == Map::<u64, u32>::empty(),
        after.hat.local_tokens@ == Map::<u64, u32>::empty(),
        after.hat.remote_interests@.len() == 0,
        after.id == before.id,
        after.zid == before.zid,
        after.whatami == before.whatami,
        after.hat.next_id == before.hat.next_id,
{
    let (remote, local, subs, qabls, tokens) = choose|
        remote: Seq<u64>,
        local: Seq<u64>,
        subs: Seq<u64>,
        qabls: Seq<u64>,
        tokens: Seq<u64>,
    |
        {
            &&& #[trigger] begun(again, remote, local, subs, qabls, tokens)
            &&& lists_values(remote, after.remote_mappings@)
            &&& lists_values(local, after.local_mappings@)
            &&& lists_values(subs, after.hat.remote_subs@)
            &&& lists_values(qabls, after.hat.remote_qabls@)
            &&& lists_values(tokens, after.hat.remote_tokens@)
        };
    assert(after.hat.local_subs@ =~= Map::<u64, u32>::empty());
    assert(after.hat.local_qabls@ =~= Map::<u64, u32>::empty());
    assert(after.hat.local_tokens@ =~= Map::<u64, u32>::empty());
}

proof fn others_come_from_matches(matches: Seq<u64>, res: u64)
    ensures
        others(matches, res).len() <= matches.len(),
        forall|k: int|
            0 <= k < others(matches, res).len() ==> #[trigger] others(matches, res)[k] != res
                && matches.contains(others(matches, res)[k]),
    decreases matches.len(),
{
    reveal(Seq::filter);
    if matches.len() > 0 {
        let rest = matches.drop_last();
        others_come_from_matches(rest, res);
        assert forall|k: int| 0 <= k < others(matches, res).len() implies #[trigger] others(
            matches,
            res,
        )[k] != res && matches.contains(others(matches, res)[k]) by {
            if k < others(rest, res).len() {
                let other = others(rest, res)[k];
                let j = choose|j: int| 0 <= j < rest.len() && rest[j] == other;
                assert(matches[j] == other);
            } else {
                assert(matches[matches.len() - 1] == matches.last());
            }
        }
    }
}

proof fn all_others_stay(matches: Seq<u64>, res: u64)
    requires
        !matches.contains(res),
    ensures
        others(matches, res) == matches,
    decreases matches.len(),
{
    reveal(Seq::filter);
    if matches.len() > 0 {
        assert(matches.contains(matches[matches.len() - 1]));
        assert forall|i: int| 0 <= i < matches.drop_last().len() implies #[trigger]
            matches.drop_last()[i] != res by {
            assert(matches.contains(matches[i]));
        }
        all_others_stay(matches.drop_last(), res);
        assert(matches =~= matches.drop_last().push(matches.last()));
    }
}

/// A resource is collected once with its matches, after all of them, though it may be among them.
pub proof fn resource_is_collected_once(matches: Seq<u64>, res: u64, i: int)
    requires
        0 <= i < with_matches(matches, res).len(),
    ensures
        with_matches(matches, res)[i] == res <==> i == with_matches(matches, res).len() - 1,
        with_matches(matches, res)[i] != res ==> matches.contains(with_matches(matches, res)[i]),
        with_matches(matches, res).len() <= matches.len() + 1,
        !matches.contains(res) ==> with_matches(matches, res) == matches.push(res),
{
    others_come_from_matches(matches, res);
    if !matches.contains(res) {
        all_others_stay(matches, res);
    }
}

} // verus!
