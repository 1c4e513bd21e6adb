//! Routing between peers.

use std::collections::HashMap;

use zenoh_net::face_close::CloseAction;
use zenoh_net::face_close::CloseEvent;
use zenoh_net::face_close::FaceClosing;
use zenoh_net::p2p_peer::initial_interest;
use zenoh_net::p2p_peer::push_declaration_profile;
use zenoh_net::p2p_peer::AutoConnect;
use zenoh_net::p2p_peer::FaceAction;
use zenoh_net::p2p_peer::FaceState;
use zenoh_net::p2p_peer::GossipSettings;
use zenoh_net::p2p_peer::HatCode;
use zenoh_net::p2p_peer::HatContext;
use zenoh_net::p2p_peer::HatError;
use zenoh_net::p2p_peer::HatFace;
use zenoh_net::p2p_peer::HatTables;
use zenoh_net::p2p_peer::InterestOptions;
use zenoh_net::p2p_peer::InterestState;
use zenoh_net::p2p_peer::Oam;
use zenoh_net::p2p_peer::OamBody;
use zenoh_net::p2p_peer::RemoteInterest;
use zenoh_net::p2p_peer::INITIAL_INTEREST_ID;
use zenoh_net::p2p_peer::OAM_LINKSTATE;
use zenoh_net::whatami::WhatAmI;
use zenoh_net::whatami::WhatAmIMatcher;

const HAT: HatCode = HatCode {};

fn face(id: usize, whatami: WhatAmI) -> FaceState {
    FaceState {
        id,
        zid: 99,
        whatami,
        mcast_group: None,
        local_interests: HashMap::new(),
        local_mappings: HashMap::new(),
        remote_mappings: HashMap::new(),
        hat: HatFace::new(),
    }
}

fn settings(enabled: bool) -> GossipSettings {
    GossipSettings {
        enabled,
        multihop: true,
        target: WhatAmIMatcher::empty().router().peer(),
        autoconnect: WhatAmIMatcher::empty().peer(),
        wait_declares: true,
        router_peers_failover_brokering: false,
    }
}

fn gossiping() -> HatTables {
    let mut tables = HatTables::new();
    HAT.init(&mut tables, 42, &settings(true)).unwrap();
    tables
}

#[test]
fn gossip_is_set_up_when_enabled() {
    let gossip = gossiping().gossip.unwrap();
    assert_eq!(gossip.zid, 42);
    assert!(gossip.multihop);
    assert!(gossip.wait_declares);
    assert!(!gossip.router_peers_failover_brokering);
    assert_eq!(gossip.target, WhatAmIMatcher::empty().router().peer());
    assert_eq!(
        gossip.autoconnect,
        AutoConnect::Gossip { targets: WhatAmIMatcher::empty().peer() }
    );
    let mut tables = HAT.new_tables(true);
    assert_eq!(HAT.init(&mut tables, 42, &settings(false)), Ok(()));
    assert!(tables.gossip.is_none());
}

#[test]
fn gossip_is_not_for_clients() {
    let mut tables = HatTables::new();
    let mut bad = settings(true);
    bad.target = WhatAmIMatcher::empty().client();
    let error = HAT.init(&mut tables, 42, &bad).unwrap_err();
    assert_eq!(error.message(), "\"client\" is not allowed as gossip target");
    assert!(tables.gossip.is_none());
    bad.enabled = false;
    assert_eq!(HAT.init(&mut tables, 42, &bad), Err(HatError::ClientGossipTarget));
}

#[test]
fn new_faces_get_everything() {
    let introduction = vec![
        FaceAction::NewInterests,
        FaceAction::NewSubscriptions,
        FaceAction::NewQueryables,
        FaceAction::NewTokens,
        FaceAction::DisableAllRoutes,
    ];
    assert_eq!(HAT.new_local_face(), introduction);

    let mut peer = face(3, WhatAmI::Peer);
    assert!(initial_interest(&peer).is_none());
    let mut expected = vec![FaceAction::AddGossipLink];
    expected.extend(introduction.clone());
    expected.push(FaceAction::DeclareFinal { interest_id: 0 });
    assert_eq!(HAT.new_transport_unicast_face(&gossiping(), &mut peer), expected);
    let interest = InterestState {
        face: 3,
        options: InterestOptions::all(),
        resource: None,
        finalized: false,
    };
    assert_eq!(initial_interest(&peer), Some(&interest));
    assert_eq!(peer.local_interests.get(&INITIAL_INTEREST_ID), Some(&interest));

    let mut router = face(4, WhatAmI::Router);
    assert_eq!(
        HAT.new_transport_unicast_face(&gossiping(), &mut router),
        expected[..6].to_vec()
    );
    assert!(initial_interest(&router).is_none());

    let mut client = face(5, WhatAmI::Client);
    assert_eq!(HAT.new_transport_unicast_face(&gossiping(), &mut client), introduction);
    let mut peer = face(6, WhatAmI::Peer);
    assert_eq!(
        HAT.new_transport_unicast_face(&HatTables::new(), &mut peer),
        expected[1..].to_vec()
    );
}

#[test]
fn new_face_has_nothing_declared() {
    let hat_face = HAT.new_face();
    assert_eq!(hat_face.next_id, 1);
    assert!(hat_face.remote_subs.is_empty());
    assert!(hat_face.remote_interests.is_empty());
    assert_eq!(HAT.new_resource(), HatContext::new());
}

#[test]
fn messages_do_not_return_nor_cross_groups() {
    let src = face(1, WhatAmI::Peer);
    let mut out = face(2, WhatAmI::Peer);
    assert!(HAT.egress_filter(&src, &out));
    assert!(!HAT.egress_filter(&src, &face(1, WhatAmI::Peer)));
    out.mcast_group = Some(1);
    assert!(!HAT.egress_filter(&src, &out));
    let mut client = face(3, WhatAmI::Client);
    assert!(HAT.egress_filter(&client, &out));
    client.mcast_group = Some(2);
    assert!(!HAT.egress_filter(&client, &out));
    assert!(HAT.ingress_filter(&src));
    assert_eq!(HAT.map_routing_context(&src, 7), 0);
    assert!(push_declaration_profile(&src));
    assert!(!push_declaration_profile(&client));
}

#[test]
fn link_states_go_to_gossip() {
    let buf = || Oam { id: OAM_LINKSTATE, body: OamBody::ZBuf(vec![1, 2]) };
    let mut oam = buf();
    let message = HAT
        .handle_oam::<&str>(&gossiping(), &mut oam, Some(5), Ok(WhatAmI::Peer))
        .unwrap()
        .expect("link states");
    assert_eq!((message.buf, message.zid, message.whatami), (vec![1, 2], 5, WhatAmI::Peer));
    assert!(matches!(oam.body, OamBody::Unit));

    let handle = |oam: &mut Oam, tables: &HatTables, zid, whatami: Result<WhatAmI, &'static str>| {
        HAT.handle_oam(tables, oam, zid, whatami).map(|m| m.is_some())
    };
    assert_eq!(handle(&mut buf(), &gossiping(), None, Err("closed")), Ok(false));
    assert_eq!(handle(&mut buf(), &gossiping(), Some(5), Err("closed")), Err("closed"));
    assert_eq!(handle(&mut buf(), &gossiping(), Some(5), Ok(WhatAmI::Client)), Ok(false));
    assert_eq!(handle(&mut buf(), &HatTables::new(), Some(5), Ok(WhatAmI::Peer)), Ok(false));
    let mut other = Oam { id: 2, body: OamBody::ZBuf(vec![1]) };
    assert_eq!(handle(&mut other, &gossiping(), Some(5), Ok(WhatAmI::Peer)), Ok(false));
    assert!(matches!(other.body, OamBody::ZBuf(_)));
    let mut number = Oam { id: OAM_LINKSTATE, body: OamBody::Z64(3) };
    assert_eq!(handle(&mut number, &gossiping(), Some(5), Ok(WhatAmI::Peer)), Ok(false));
    assert!(matches!(number.body, OamBody::Unit));

    assert_eq!(HAT.link_states(Some(7)), Ok(7));
    assert_eq!(
        HAT.link_states::<u8>(None).unwrap_err().message(),
        "failed to decode link state"
    );
}

#[test]
fn graph_is_that_of_gossip() {
    assert_eq!(HAT.info(&gossiping(), "graph { a -- b }"), "graph { a -- b }");
    assert_eq!(HAT.info(&HatTables::new(), "graph { a -- b }"), "graph {}");
}

/// Performs a closing in which the resources have the given matches.
fn perform(closing: &mut FaceClosing, matches: &HashMap<u64, Vec<u64>>) -> Vec<CloseAction> {
    let mut performed = Vec::new();
    let mut event = CloseEvent::Done;
    while let Some(action) = closing.step(event) {
        performed.push(action);
        event = match action {
            CloseAction::UndeclareSubscription { res } | CloseAction::UndeclareQueryable { res } => {
                match matches.get(&res) {
                    Some(matches) => CloseEvent::Matches { matches: matches.clone() },
                    None => CloseEvent::Done,
                }
            }
            _ => CloseEvent::Done,
        };
    }
    performed
}

#[test]
fn closing_undeclares_and_invalidates() {
    let mut peer = face(3, WhatAmI::Peer);
    peer.remote_mappings.insert(1, 10);
    peer.local_mappings.insert(1, 20);
    peer.hat.remote_subs.insert(1, 30);
    peer.hat.remote_qabls.insert(1, 40);
    peer.hat.remote_tokens.insert(1, 50);
    peer.hat.local_subs.insert(30, 1);
    peer.hat.remote_interests.insert(9, RemoteInterest { resource: None });
    assert_eq!(HAT.close_face_interests(&peer), vec![9]);
    let mut closing = HAT.close_face(&gossiping(), &mut peer);
    assert!(peer.remote_mappings.is_empty());
    assert!(peer.local_mappings.is_empty());
    assert!(peer.hat.remote_subs.is_empty());
    assert!(peer.hat.remote_qabls.is_empty());
    assert!(peer.hat.remote_tokens.is_empty());
    assert!(peer.hat.local_subs.is_empty());
    assert!(peer.hat.remote_interests.is_empty());

    let matches = HashMap::from([(30, vec![31, 30]), (40, vec![40])]);
    assert_eq!(
        perform(&mut closing, &matches),
        vec![
            CloseAction::RemoveSessionCtx { res: 10 },
            CloseAction::Clean { res: 10 },
            CloseAction::RemoveSessionCtx { res: 20 },
            CloseAction::Clean { res: 20 },
            CloseAction::RemoveSessionCtx { res: 30 },
            CloseAction::UndeclareSubscription { res: 30 },
            CloseAction::DisableDataRoutes { res: 31 },
            CloseAction::DisableDataRoutes { res: 30 },
            CloseAction::RemoveSessionCtx { res: 40 },
            CloseAction::UndeclareQueryable { res: 40 },
            CloseAction::DisableQueryRoutes { res: 40 },
            CloseAction::RemoveSessionCtx { res: 50 },
            CloseAction::UndeclareToken { res: 50 },
            CloseAction::DisableDataRoutes { res: 31 },
            CloseAction::Clean { res: 31 },
            CloseAction::DisableDataRoutes { res: 30 },
            CloseAction::Clean { res: 30 },
            CloseAction::DisableQueryRoutes { res: 40 },
            CloseAction::Clean { res: 40 },
            CloseAction::Clean { res: 50 },
            CloseAction::SweepSessionCtxs,
            CloseAction::RemoveFace,
            CloseAction::RemoveGossipLink { zid: 99 },
        ]
    );
    assert_eq!(closing.step(CloseEvent::Done), None);
}

/// A resource without a context is undeclared, but has no routes to disable.
#[test]
fn closing_without_contexts() {
    let mut client = face(3, WhatAmI::Client);
    client.hat.remote_subs.insert(1, 30);
    client.hat.remote_qabls.insert(1, 40);
    let mut closing = HAT.close_face(&gossiping(), &mut client);
    assert_eq!(
        perform(&mut closing, &HashMap::new()),
        vec![
            CloseAction::RemoveSessionCtx { res: 30 },
            CloseAction::UndeclareSubscription { res: 30 },
            CloseAction::RemoveSessionCtx { res: 40 },
            CloseAction::UndeclareQueryable { res: 40 },
            CloseAction::SweepSessionCtxs,
            CloseAction::RemoveFace,
        ]
    );
}

#[test]
fn every_declaration_is_undeclared() {
    let mut peer = face(3, WhatAmI::Peer);
    for id in 0..20u32 {
        peer.hat.remote_subs.insert(id, 100 + id as u64);
        peer.hat.remote_interests.insert(id, RemoteInterest { resource: Some(1) });
    }
    let mut ids = HAT.close_face_interests(&peer);
    ids.sort();
    assert_eq!(ids, (0..20).collect::<Vec<u32>>());
    let mut closing = HAT.close_face(&HatTables::new(), &mut peer);
    let performed = perform(&mut closing, &HashMap::new());
    for id in 0..20u64 {
        assert!(performed.contains(&CloseAction::UndeclareSubscription { res: 100 + id }));
    }
    assert_eq!(performed.len(), 42);
}
