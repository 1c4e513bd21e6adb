//! Routing between peers that all know each other.
//!
//! At connection, while no interest is sent on the network, peers act as if they had received an
//! interest with id 0 and send back a final declaration for it. This interest is registered locally,
//! to track whether the final declaration was received.
//!
//! What the rest of the router does for a face is named by actions, which are to be performed in
//! the order in which they are given. Resources are known by their identifiers.

use std::collections::HashMap;

use vstd::prelude::*;
use vstd::string::*;

use crate::whatami::WhatAmI;
use crate::whatami::WhatAmIMatcher;

verus! {

broadcast use vstd::std_specs::hash::group_hash_axioms;

/// The interest that peers assume at connection.
pub const INITIAL_INTEREST_ID: u32 = 0;

/// The identifier of a message that carries link states.
pub const OAM_LINKSTATE: u16 = 1;

/// Failures of the routing between peers.
#[derive(Clone, Copy, PartialEq, Eq, Structural, Debug)]
pub enum HatError {
    /// Gossip may not be targeted at clients.
    ClientGossipTarget,
    /// A list of link states does not decode.
    LinkStateDecode,
}

/// The text of a failure.
pub open spec fn hat_error_text(error: HatError) -> Seq<char> {
    match error {
        HatError::ClientGossipTarget => "\"client\" is not allowed as gossip target"@,
        HatError::LinkStateDecode => "failed to decode link state"@,
    }
}

impl HatError {
    /// The text of this failure.
    pub fn message(&self) -> (text: String)
        ensures
            text@ == hat_error_text(*self),
    {
        match self {
            HatError::ClientGossipTarget =>
                "\"client\" is not allowed as gossip target".to_owned(),
            HatError::LinkStateDecode => "failed to decode link state".to_owned(),
        }
    }
}

/// To which nodes that are heard of by gossip a connection is opened.
#[derive(Clone, Copy, PartialEq, Eq, Structural, Debug)]
pub enum AutoConnect {
    Disabled,
    Gossip { targets: WhatAmIMatcher },
}

/// How gossip takes place.
#[derive(Clone, Copy, PartialEq, Eq, Structural, Debug)]
pub struct Gossip {
    pub zid: u128,
    pub router_peers_failover_brokering: bool,
    pub multihop: bool,
    pub target: WhatAmIMatcher,
    pub autoconnect: AutoConnect,
    pub wait_declares: bool,
}

/// The settings that gossip depends on.
#[derive(Clone, Copy, PartialEq, Eq, Structural, Debug)]
pub struct GossipSettings {
    pub enabled: bool,
    pub multihop: bool,
    pub target: WhatAmIMatcher,
    pub autoconnect: WhatAmIMatcher,
    pub wait_declares: bool,
    pub router_peers_failover_brokering: bool,
}

/// The tables of this routing.
#[derive(Clone, Copy, PartialEq, Eq, Structural, Debug)]
pub struct HatTables {
    pub gossip: Option<Gossip>,
}

impl HatTables {
    /// Tables without gossip.
    pub fn new() -> (tables: HatTables)
        ensures
            tables == (HatTables { gossip: None }),
    {
        HatTables { gossip: None }
    }
}

/// What this routing keeps of a resource: nothing.
#[derive(Clone, Copy, PartialEq, Eq, Structural, Debug)]
pub struct HatContext {}

impl HatContext {
    pub fn new() -> (context: HatContext)
        ensures
            context == (HatContext {  }),
    {
        HatContext {  }
    }
}

/// What a remote is interested in.
#[derive(Clone, Copy, PartialEq, Eq, Structural, Debug)]
pub struct RemoteInterest {
    pub resource: Option<u64>,
}

/// Which declarations an interest asks for.
#[derive(Clone, Copy, PartialEq, Eq, Structural, Debug)]
pub struct InterestOptions {
    pub keyexprs: bool,
    pub subscribers: bool,
    pub queryables: bool,
    pub tokens: bool,
}

impl InterestOptions {
    /// All declarations.
    pub open spec fn everything() -> InterestOptions {
        InterestOptions { keyexprs: true, subscribers: true, queryables: true, tokens: true }
    }

    /// All declarations.
    pub fn all() -> (options: InterestOptions)
        ensures
            options == InterestOptions::everything(),
    {
        InterestOptions { keyexprs: true, subscribers: true, queryables: true, tokens: true }
    }
}

/// An interest that was sent to a face.
#[derive(Clone, Copy, PartialEq, Eq, Structural, Debug)]
pub struct InterestState {
    pub face: usize,
    pub options: InterestOptions,
    pub resource: Option<u64>,
    pub finalized: bool,
}

impl InterestState {
    pub fn new(
        face: usize,
        options: InterestOptions,
        resource: Option<u64>,
        finalized: bool,
    ) -> (state: InterestState)
        ensures
            state == (InterestState { face, options, resource, finalized }),
    {
        InterestState { face, options, resource, finalized }
    }
}

/// What this routing keeps of a face.
pub struct HatFace {
    /// The next identifier of a declaration.
    pub next_id: u32,
    pub remote_interests: HashMap<u32, RemoteInterest>,
    pub local_subs: HashMap<u64, u32>,
    pub remote_subs: HashMap<u32, u64>,
    pub local_tokens: HashMap<u64, u32>,
    pub remote_tokens: HashMap<u32, u64>,
    pub local_qabls: HashMap<u64, u32>,
    pub remote_qabls: HashMap<u32, u64>,
}

impl HatFace {
    /// A face with nothing declared. Identifier 0 is kept for the initial interest.
    pub fn new() -> (face: HatFace)
        ensures
            face.next_id == 1,
            face.remote_interests@ == Map::<u32, RemoteInterest>::empty(),
            face.local_subs@ == Map::<u64, u32>::empty(),
            face.remote_subs@ == Map::<u32, u64>::empty(),
            face.local_tokens@ == Map::<u64, u32>::empty(),
            face.remote_tokens@ == Map::<u32, u64>::empty(),
            face.local_qabls@ == Map::<u64, u32>::empty(),
            face.remote_qabls@ == Map::<u32, u64>::empty(),
    {
        HatFace {
            next_id: 1,
            remote_interests: HashMap::new(),
            local_subs: HashMap::new(),
            remote_subs: HashMap::new(),
            local_tokens: HashMap::new(),
            remote_tokens: HashMap::new(),
            local_qabls: HashMap::new(),
            remote_qabls: HashMap::new(),
        }
    }
}

/// A face: the side of a node that is turned to a remote or to the local session.
pub struct FaceState {
    pub id: usize,
    pub zid: u128,
    pub whatami: WhatAmI,
    pub mcast_group: Option<u64>,
    pub local_interests: HashMap<u32, InterestState>,
    pub local_mappings: HashMap<u32, u64>,
    pub remote_mappings: HashMap<u32, u64>,
    pub hat: HatFace,
}

/// What the router does for a new face.
#[derive(Clone, Copy, PartialEq, Eq, Structural, Debug)]
pub enum FaceAction {
    /// The remote takes part in gossip.
    AddGossipLink,
    /// Propagate the interests to the face.
    NewInterests,
    /// Propagate the subscriptions to the face.
    NewSubscriptions,
    /// Propagate the queryables to the face.
    NewQueryables,
    /// Propagate the tokens to the face.
    NewTokens,
    /// Compute all routes anew.
    DisableAllRoutes,
    /// Send the end of the declarations that an interest asked for.
    DeclareFinal { interest_id: u32 },
}

/// A message for operation, administration and maintenance.
#[derive(Debug)]
pub struct Oam {
    pub id: u16,
    pub body: OamBody,
}

/// The body of such a message.
#[derive(Debug)]
pub enum OamBody {
    Unit,
    Z64(u64),
    ZBuf(Vec<u8>),
}

/// A list of link states that is to be decoded and handed to gossip.
#[derive(Debug)]
pub struct LinkStateMessage {
    pub buf: Vec<u8>,
    pub zid: u128,
    pub whatami: WhatAmI,
}

/// The actions for every new face.
pub open spec fn introduction() -> Seq<FaceAction> {
    seq![
        FaceAction::NewInterests,
        FaceAction::NewSubscriptions,
        FaceAction::NewQueryables,
        FaceAction::NewTokens,
        FaceAction::DisableAllRoutes,
    ]
}

/// The actions for a new face of a unicast transport: gossip with all but clients, and an end of
/// declarations for peers.
pub open spec fn unicast_introduction(gossip: bool, whatami: WhatAmI) -> Seq<FaceAction> {
    (if whatami !is Client && gossip {
        seq![FaceAction::AddGossipLink]
    } else {
        Seq::empty()
    }) + introduction() + (if whatami is Peer {
        seq![FaceAction::DeclareFinal { interest_id: INITIAL_INTEREST_ID }]
    } else {
        Seq::empty()
    })
}

/// What a message leads to: link states from a node that takes part in gossip are handed on. A
/// transport that knows the remote but not its mode has failed.
pub open spec fn oam_outcome<E>(
    tables: HatTables,
    oam: Oam,
    zid: Option<u128>,
    whatami: Result<WhatAmI, E>,
) -> Result<Option<LinkStateMessage>, E> {
    match (oam.id == OAM_LINKSTATE, oam.body, zid, whatami) {
        (true, OamBody::ZBuf(buf), Some(_), Err(error)) => Err(error),
        (true, OamBody::ZBuf(buf), Some(zid), Ok(whatami)) => if whatami !is Client
            && tables.gossip is Some {
            Ok(Some(LinkStateMessage { buf, zid, whatami }))
        } else {
            Ok(None)
        },
        _ => Ok(None),
    }
}

/// The tables after gossip was set up, where it is enabled and not targeted at clients.
pub open spec fn initialized(
    tables: HatTables,
    zid: u128,
    settings: GossipSettings,
) -> HatTables {
    if settings.enabled && !settings.target.has(WhatAmI::Client) {
        HatTables {
            gossip: Some(
                Gossip {
                    zid,
                    router_peers_failover_brokering: settings.router_peers_failover_brokering,
                    multihop: settings.multihop,
                    target: settings.target,
                    autoconnect: AutoConnect::Gossip { targets: settings.autoconnect },
                    wait_declares: settings.wait_declares,
                },
            ),
        }
    } else {
        tables
    }
}

/// The interests of a face after its introduction: a peer is assumed to have been sent the initial
/// interest.
pub open spec fn introduced_interests(face: FaceState) -> Map<u32, InterestState> {
    if face.whatami is Peer {
        face.local_interests@.insert(
            INITIAL_INTEREST_ID,
            InterestState {
                face: face.id,
                options: InterestOptions::everything(),
                resource: None,
                finalized: false,
            },
        )
    } else {
        face.local_interests@
    }
}

/// The routing between peers.
#[derive(Clone, Copy, PartialEq, Eq, Structural, Debug)]
pub struct HatCode {}

impl HatCode {
    /// Sets up gossip, if it is enabled.
    pub fn init(
        &self,
        tables: &mut HatTables,
        zid: u128,
        settings: &GossipSettings,
    ) -> (res: Result<(), HatError>)
        ensures
            res == if settings.target.has(WhatAmI::Client) {
                Err(HatError::ClientGossipTarget)
            } else {
                Ok(())
            },
            *final(tables) == initialized(*old(tables), zid, *settings),
    {
        if settings.target.matches(WhatAmI::Client) {
            return Err(HatError::ClientGossipTarget);
        }
        let autoconnect = if settings.enabled {
            AutoConnect::Gossip { targets: settings.autoconnect }
        } else {
            AutoConnect::Disabled
        };
        if settings.enabled {
            tables.gossip = Some(
                Gossip {
                    zid,
                    router_peers_failover_brokering: settings.router_peers_failover_brokering,
                    multihop: settings.multihop,
                    target: settings.target,
                    autoconnect,
                    wait_declares: settings.wait_declares,
                },
            );
        }
        Ok(())
    }

    /// Tables without gossip.
    pub fn new_tables(&self, _router_peers_failover_brokering: bool) -> (tables: HatTables)
        ensures
            tables == (HatTables { gossip: None }),
    {
        HatTables::new()
    }

    /// What is kept of a new face.
    pub fn new_face(&self) -> (face: HatFace)
        ensures
            face.next_id == 1,
            face.remote_interests@ == Map::<u32, RemoteInterest>::empty(),
            face.local_subs@ == Map::<u64, u32>::empty(),
            face.remote_subs@ == Map::<u32, u64>::empty(),
            face.local_tokens@ == Map::<u64, u32>::empty(),
            face.remote_tokens@ == Map::<u32, u64>::empty(),
            face.local_qabls@ == Map::<u64, u32>::empty(),
            face.remote_qabls@ == Map::<u32, u64>::empty(),
    {
        HatFace::new()
    }

    /// What is kept of a new resource.
    pub fn new_resource(&self) -> (context: HatContext)
        ensures
            context == (HatContext {  }),
    {
        HatContext::new()
    }

    /// The actions for a new face of the local session.
    pub fn new_local_face(&self) -> (actions: Vec<FaceAction>)
        ensures
            actions@ == introduction(),
    {
        let mut actions: Vec<FaceAction> = Vec::new();
        push_introduction(&mut actions);
        assert(actions@ =~= introduction());
        actions
    }

    /// Registers the initial interest of a peer, and gives the actions for a new face of a unicast
    /// transport.
    pub fn new_transport_unicast_face(
        &self,
        tables: &HatTables,
        face: &mut FaceState,
    ) -> (actions: Vec<FaceAction>)
        ensures
            actions@ == unicast_introduction(tables.gossip is Some, old(face).whatami),
            *final(face) == (FaceState {
                local_interests: final(face).local_interests,
                ..*old(face)
            }),
            final(face).local_interests@ == introduced_interests(*old(face)),
    {
        let mut actions: Vec<FaceAction> = Vec::new();
        if face.whatami != WhatAmI::Client && tables.gossip.is_some() {
            actions.push(FaceAction::AddGossipLink);
        }
        if face.whatami == WhatAmI::Peer {
            face.local_interests.insert(
                INITIAL_INTEREST_ID,
                InterestState::new(face.id, InterestOptions::all(), None, false),
            );
        }
        push_introduction(&mut actions);
        if face.whatami == WhatAmI::Peer {
            actions.push(FaceAction::DeclareFinal { interest_id: INITIAL_INTEREST_ID });
        }
        assert(actions@ =~= unicast_introduction(tables.gossip is Some, face.whatami));
        actions
    }

    /// Reads a message of operation, administration and maintenance. `zid` and `whatami` are those
    /// of its transport, where it still has them. The body of a message with link states is taken
    /// out of it.
    pub fn handle_oam<E>(
        &self,
        tables: &HatTables,
        oam: &mut Oam,
        zid: Option<u128>,
        whatami: Result<WhatAmI, E>,
    ) -> (res: Result<Option<LinkStateMessage>, E>)
        ensures
            res == oam_outcome(*tables, *old(oam), zid, whatami),
            *final(oam) == if old(oam).id == OAM_LINKSTATE {
                Oam { id: OAM_LINKSTATE, body: OamBody::Unit }
            } else {
                *old(oam)
            },
    {
        if oam.id != OAM_LINKSTATE {
            return Ok(None);
        }
        let mut body = OamBody::Unit;
        std::mem::swap(&mut oam.body, &mut body);
        let buf = match body {
            OamBody::ZBuf(buf) => buf,
            _ => {
                return Ok(None);
            },
        };
        let zid: u128 = match zid {
            Some(zid) => zid,
            None => {
                return Ok(None);
            },
        };
        let whatami = match whatami {
            Ok(whatami) => whatami,
            Err(error) => {
                return Err(error);
            },
        };
        if whatami != WhatAmI::Client && tables.gossip.is_some() {
            Ok(Some(LinkStateMessage { buf, zid, whatami }))
        } else {
            Ok(None)
        }
    }

    /// The decoded list of link states, or the failure to decode it.
    pub fn link_states<L>(&self, decoded: Option<L>) -> (list: Result<L, HatError>)
        ensures
            list == match decoded {
                Some(list) => Ok(list),
                None => Err(HatError::LinkStateDecode),
            },
    {
        match decoded {
            Some(list) => Ok(list),
            None => Err(HatError::LinkStateDecode),
        }
    }

    /// Between peers there is one routing context.
    pub fn map_routing_context(&self, _face: &FaceState, _routing_context: u16) -> (node: u16)
        ensures
            node == 0,
    {
        0
    }

    /// All messages are let in.
    pub fn ingress_filter(&self, _face: &FaceState) -> (pass: bool)
        ensures
            pass,
    {
        true
    }

    /// Whether a message may leave: not to the face that it came from, and to a multicast group only
    /// from a client that is not itself behind such a group.
    pub fn egress_filter(&self, src_face: &FaceState, out_face: &FaceState) -> (pass: bool)
        ensures
            pass == may_leave(*src_face, *out_face),
    {
        src_face.id != out_face.id && (out_face.mcast_group.is_none() || (src_face.whatami
            == WhatAmI::Client && src_face.mcast_group.is_none()))
    }

    /// The graph of the network, in the dot language, of which `dot` is what gossip knows.
    pub fn info(&self, tables: &HatTables, dot: &str) -> (graph: String)
        ensures
            graph@ == if tables.gossip is Some {
                dot@
            } else {
                "graph {}"@
            },
    {
        if tables.gossip.is_some() {
            dot.to_owned()
        } else {
            "graph {}".to_owned()
        }
    }
}

/// A message may leave: not to the face that it came from, and to a multicast group only from a
/// client that is not itself behind such a group.
pub open spec fn may_leave(src: FaceState, out: FaceState) -> bool {
    &&& src.id != out.id
    &&& out.mcast_group is Some ==> src.whatami is Client && src.mcast_group is None
}

fn push_introduction(actions: &mut Vec<FaceAction>)
    ensures
        final(actions)@ == old(actions)@ + introduction(),
{
    actions.push(FaceAction::NewInterests);
    actions.push(FaceAction::NewSubscriptions);
    actions.push(FaceAction::NewQueryables);
    actions.push(FaceAction::NewTokens);
    actions.push(FaceAction::DisableAllRoutes);
    assert(actions@ =~= old(actions)@ + introduction());
}

/// The interest that was assumed at connection.
pub fn initial_interest(face: &FaceState) -> (interest: Option<&InterestState>)
    ensures
        interest is Some == face.local_interests@.contains_key(INITIAL_INTEREST_ID),
        interest is Some ==> *interest->0 == face.local_interests@[INITIAL_INTEREST_ID],
{
    face.local_interests.get(&INITIAL_INTEREST_ID)
}

/// Whether declarations are pushed to a face without an interest in them.
pub fn push_declaration_profile(face: &FaceState) -> (push: bool)
    ensures
        push == (face.whatami !is Client),
{
    face.whatami != WhatAmI::Client
}

/// Nothing is sent back to the face that it came from.
pub proof fn no_message_returns(src: FaceState, out: FaceState)
    requires
        src.id == out.id,
    ensures
        !may_leave(src, out),
{
}

/// What came from one multicast group does not go to another.
pub proof fn multicast_is_not_bridged(src: FaceState, out: FaceState)
    requires
        src.mcast_group is Some,
        out.mcast_group is Some,
    ensures
        !may_leave(src, out),
{
}

/// A client takes part neither in gossip nor in the exchange of declarations at connection.
pub proof fn client_gets_plain_introduction(gossip: bool)
    ensures
        unicast_introduction(gossip, WhatAmI::Client) == introduction(),
{
    assert(unicast_introduction(gossip, WhatAmI::Client) =~= introduction());
}

/// The end of the declarations is sent after all declarations, and only to a peer.
pub proof fn final_declaration_comes_last(gossip: bool, whatami: WhatAmI, i: int)
    requires
        0 <= i < unicast_introduction(gossip, whatami).len(),
        unicast_introduction(gossip, whatami)[i] is DeclareFinal,
    ensures
        whatami is Peer,
        i == unicast_introduction(gossip, whatami).len() - 1,
{
}

/// With gossip set up, the link states of every remote that is known and is not a client are handed
/// on, with their buffer and the remote's identifier and mode.
pub proof fn link_states_are_handed_on<E>(
    tables: HatTables,
    oam: Oam,
    zid: u128,
    whatami: WhatAmI,
)
    requires
        tables.gossip is Some,
        oam.id == OAM_LINKSTATE,
        oam.body is ZBuf,
        whatami !is Client,
    ensures
        oam_outcome::<E>(tables, oam, Some(zid), Ok(whatami)) matches Ok(Some(message))
            && message.buf == oam.body->ZBuf_0 && message.zid == zid && message.whatami == whatami,
{
}

/// What is handed on was sent: it is the buffer of a message with link states, and it comes from the
/// remote of its transport, which is not a client, and only where gossip is set up.
pub proof fn only_link_states_are_handed_on<E>(
    tables: HatTables,
    oam: Oam,
    zid: Option<u128>,
    whatami: Result<WhatAmI, E>,
)
    ensures
        oam_outcome(tables, oam, zid, whatami) matches Ok(Some(message)) ==> {
            &&& tables.gossip is Some
            &&& oam.id == OAM_LINKSTATE
            &&& oam.body == OamBody::ZBuf(message.buf)
            &&& zid == Some(message.zid)
            &&& whatami == Ok::<WhatAmI, E>(message.whatami)
            &&& message.whatami !is Client
        },
        oam_outcome(tables, oam, zid, whatami) matches Err(error) ==> whatami == Err::<
            WhatAmI,
            E,
        >(error) && zid is Some && oam.id == OAM_LINKSTATE && oam.body is ZBuf,
        whatami is Err && zid is Some && oam.id == OAM_LINKSTATE && oam.body is ZBuf
            ==> oam_outcome(tables, oam, zid, whatami) is Err,
{
}

/// A remote whose link is added to gossip has its link states handed to gossip, and no other remote
/// has.
pub proof fn gossip_links_and_link_states_agree<E>(
    tables: HatTables,
    oam: Oam,
    zid: u128,
    whatami: WhatAmI,
)
    requires
        oam.id == OAM_LINKSTATE,
        oam.body is ZBuf,
    ensures
        unicast_introduction(tables.gossip is Some, whatami).contains(FaceAction::AddGossipLink)
            <==> oam_outcome::<E>(tables, oam, Some(zid), Ok(whatami)) matches Ok(Some(message)),
{
    gossip_link_is_added_for_all_but_clients(tables.gossip is Some, whatami);
}

/// The link of a remote is added to gossip exactly if there is gossip and the remote is not a
/// client.
pub proof fn gossip_link_is_added_for_all_but_clients(gossip: bool, whatami: WhatAmI)
    ensures
        unicast_introduction(gossip, whatami).contains(FaceAction::AddGossipLink) <==> gossip
            && whatami !is Client,
        gossip && whatami !is Client ==> unicast_introduction(gossip, whatami)[0]
            == FaceAction::AddGossipLink,
{
    let actions = unicast_introduction(gossip, whatami);
    if gossip && whatami !is Client {
        assert(actions[0] == FaceAction::AddGossipLink);
    }
}

/// Every new face is sent the interests, the subscriptions, the queryables and the tokens, in this
/// order, and then all routes are computed anew.
pub proof fn every_face_is_introduced(gossip: bool, whatami: WhatAmI)
    ensures
        exists|k: int|
            {
                &&& 0 <= k <= 1
                &&& k + 5 <= unicast_introduction(gossip, whatami).len() <= k + 6
                &&& #[trigger] unicast_introduction(gossip, whatami)[k] is NewInterests
                &&& unicast_introduction(gossip, whatami)[k + 1] is NewSubscriptions
                &&& unicast_introduction(gossip, whatami)[k + 2] is NewQueryables
                &&& unicast_introduction(gossip, whatami)[k + 3] is NewTokens
                &&& unicast_introduction(gossip, whatami)[k + 4] is DisableAllRoutes
            },
{
    let actions = unicast_introduction(gossip, whatami);
    if gossip && whatami !is Client {
        assert(actions[1] is NewInterests);
    } else {
        assert(actions[0] is NewInterests);
    }
}

/// The end of the declarations that is sent to a face is for the interest that is registered for it
/// and not yet finalized; a face without such an interest is sent none, and keeps its interests.
pub proof fn final_declaration_answers_the_initial_interest(
    gossip: bool,
    face: FaceState,
    id: u32,
)
    ensures
        unicast_introduction(gossip, face.whatami).contains(
            FaceAction::DeclareFinal { interest_id: id },
        ) <==> face.whatami is Peer && id == INITIAL_INTEREST_ID,
        unicast_introduction(gossip, face.whatami).contains(
            FaceAction::DeclareFinal { interest_id: id },
        ) ==> {
            &&& introduced_interests(face).contains_key(id)
            &&& !introduced_interests(face)[id].finalized
            &&& introduced_interests(face)[id].face == face.id
            &&& introduced_interests(face)[id].resource is None
            &&& introduced_interests(face)[id].options.keyexprs
            &&& introduced_interests(face)[id].options.subscribers
            &&& introduced_interests(face)[id].options.queryables
            &&& introduced_interests(face)[id].options.tokens
        },
        face.whatami !is Peer ==> introduced_interests(face) == face.local_interests@,
        id != INITIAL_INTEREST_ID ==> (introduced_interests(face).contains_key(id)
            <==> face.local_interests@.contains_key(id)),
        id != INITIAL_INTEREST_ID && face.local_interests@.contains_key(id)
            ==> introduced_interests(face)[id] == face.local_interests@[id],
{
    let actions = unicast_introduction(gossip, face.whatami);
    if face.whatami is Peer {
        assert(actions[actions.len() - 1] == FaceAction::DeclareFinal {
            interest_id: INITIAL_INTEREST_ID,
        });
    }
}

/// Gossip is set up exactly if it is enabled and not targeted at clients, with the settings as they
/// are; else the tables stay as they were.
pub proof fn gossip_is_set_up_as_set(tables: HatTables, zid: u128, settings: GossipSettings)
    ensures
        settings.target.client || !settings.enabled ==> initialized(tables, zid, settings)
            == tables,
        settings.enabled && !settings.target.client ==> (initialized(
            tables,
            zid,
            settings,
        ).gossip matches Some(gossip) && gossip.zid == zid && gossip.target == settings.target
            && gossip.multihop == settings.multihop && gossip.wait_declares
            == settings.wait_declares && gossip.router_peers_failover_brokering
            == settings.router_peers_failover_brokering && gossip.autoconnect
            == (AutoConnect::Gossip { targets: settings.autoconnect })),
{
}

/// Between different faces every message may leave to a remote that is not a multicast group, and
/// those of a client of its own also to a group.
pub proof fn other_messages_may_leave(src: FaceState, out: FaceState)
    requires
        src.id != out.id,
    ensures
        out.mcast_group is None ==> may_leave(src, out),
        src.whatami is Client && src.mcast_group is None ==> may_leave(src, out),
        src.whatami !is Client && out.mcast_group is Some ==> !may_leave(src, out),
{
}

} // verus!
