//! Gateway configuration and the regions of remotes.

use nonempty_collections::NEVec;
use zenoh_net::gateway::BoundFilterConf;
use zenoh_net::gateway::FallbackBoundConf;
use zenoh_net::gateway::GatewayConf;
use zenoh_net::gateway::ModeDependentValue;
use zenoh_net::gateway::ModeValues;
use zenoh_net::gateway::NorthBoundConf;
use zenoh_net::gateway::SouthBoundConf;
use zenoh_net::region::compute_region_of;
use zenoh_net::region::compute_transient_region_of;
use zenoh_net::region::is_match;
use zenoh_net::region::Bound;
use zenoh_net::region::ExpandedConfig;
use zenoh_net::region::PeerLink;
use zenoh_net::region::Region;
use zenoh_net::region::RegionError;
use zenoh_net::region::TransportPeer;
use zenoh_net::whatami::WhatAmI;
use zenoh_net::whatami::WhatAmIMatcher;

fn remote(whatami: WhatAmI) -> TransportPeer {
    TransportPeer {
        zid: 7,
        whatami,
        region_name: Some("lab".to_string()),
        links: vec![
            PeerLink { interfaces: vec!["eth0".to_string()] },
            PeerLink { interfaces: vec!["wlan0".to_string(), "eth0".to_string()] },
        ],
    }
}

fn blank() -> BoundFilterConf {
    BoundFilterConf { modes: None, interfaces: None, zids: None, region_names: None }
}

fn default_config(mode: WhatAmI, fallback: bool) -> ExpandedConfig {
    ExpandedConfig {
        mode,
        gateway: GatewayConf {
            region_name: None,
            north: Some(ModeDependentValue::default()),
            south: Some(ModeDependentValue::default()),
            fallback: Some(FallbackBoundConf { enabled: fallback }),
        },
    }
}

#[test]
fn default_configuration_assigns_regions() {
    let region =
        |mode, peer| compute_transient_region_of(&default_config(mode, false), &remote(peer));
    assert_eq!(region(WhatAmI::Router, WhatAmI::Router), Ok(Region::North));
    assert_eq!(
        region(WhatAmI::Router, WhatAmI::Peer),
        Ok(Region::South { number: 0, mode: WhatAmI::Peer })
    );
    assert_eq!(
        region(WhatAmI::Router, WhatAmI::Client),
        Ok(Region::South { number: 0, mode: WhatAmI::Client })
    );
    assert_eq!(region(WhatAmI::Peer, WhatAmI::Router), Ok(Region::North));
    assert_eq!(region(WhatAmI::Peer, WhatAmI::Peer), Ok(Region::North));
    assert_eq!(
        region(WhatAmI::Peer, WhatAmI::Client),
        Ok(Region::South { number: 0, mode: WhatAmI::Client })
    );
    assert_eq!(region(WhatAmI::Client, WhatAmI::Router), Ok(Region::North));
    assert_eq!(region(WhatAmI::Client, WhatAmI::Client), Err(RegionError::FallbackDisabled));
    assert_eq!(
        compute_transient_region_of(
            &default_config(WhatAmI::Client, true),
            &remote(WhatAmI::Client)
        ),
        Ok(Region::Fallback { mode: WhatAmI::Client })
    );
}

#[test]
fn first_matching_south_bound_counts() {
    let mut config = default_config(WhatAmI::Router, true);
    config.gateway.south = Some(ModeDependentValue::Unique(vec![
        SouthBoundConf { filters: Some(vec![]) },
        SouthBoundConf {
            filters: Some(vec![BoundFilterConf { zids: Some(NEVec::new(7)), ..blank() }]),
        },
        SouthBoundConf { filters: None },
    ]));
    let mut peer = remote(WhatAmI::Peer);
    assert_eq!(
        compute_transient_region_of(&config, &peer),
        Ok(Region::South { number: 1, mode: WhatAmI::Peer })
    );
    peer.zid = 8;
    assert_eq!(
        compute_transient_region_of(&config, &peer),
        Ok(Region::South { number: 2, mode: WhatAmI::Peer })
    );
}

#[test]
fn router_below_a_peer_is_rejected() {
    let mut config = default_config(WhatAmI::Peer, true);
    config.gateway.south =
        Some(ModeDependentValue::Unique(vec![SouthBoundConf { filters: None }]));
    let error = compute_transient_region_of(&config, &remote(WhatAmI::Router)).unwrap_err();
    assert_eq!(
        error.message(),
        "Router regions cannot be subregions of non-router regions (unsupported)"
    );
    config.gateway.south = Some(ModeDependentValue::Unique(vec![]));
    config.gateway.north =
        Some(ModeDependentValue::Unique(NorthBoundConf { filters: Some(vec![]) }));
    assert_eq!(
        compute_transient_region_of(&config, &remote(WhatAmI::Router)),
        Err(RegionError::RouterRegionLimitation)
    );
    config.gateway.fallback = Some(FallbackBoundConf::default());
    let error = compute_transient_region_of(&config, &remote(WhatAmI::Router)).unwrap_err();
    assert_eq!(
        error.message(),
        "Fallback region is disabled and north/south filters don't match"
    );
}

#[test]
fn bounds_must_be_set_for_the_mode() {
    let mut config = default_config(WhatAmI::Peer, true);
    config.gateway.south = Some(ModeDependentValue::Dependent(ModeValues {
        router: Some(vec![]),
        peer: None,
        client: None,
    }));
    let error = compute_transient_region_of(&config, &remote(WhatAmI::Peer)).unwrap_err();
    assert_eq!(error.message(), "`mode` is set to `peer` but `gateway.south.peer` is not set");
    config.gateway.south = Some(ModeDependentValue::Unique(vec![]));
    config.gateway.north = Some(ModeDependentValue::Dependent(ModeValues {
        router: None,
        peer: None,
        client: Some(NorthBoundConf { filters: None }),
    }));
    let error = compute_transient_region_of(&config, &remote(WhatAmI::Peer)).unwrap_err();
    assert_eq!(error.message(), "`mode` is set to `peer` but `gateway.north.peer` is not set");
}

#[test]
fn remote_bound_settles_the_region() {
    let south = Region::South { number: 3, mode: WhatAmI::Peer };
    let fallback = Region::Fallback { mode: WhatAmI::Client };
    assert_eq!(compute_region_of(&south, &Bound::North), Ok(south));
    assert_eq!(compute_region_of(&fallback, &Bound::North), Ok(fallback));
    assert_eq!(compute_region_of(&Region::North, &Bound::North), Ok(Region::North));
    assert_eq!(compute_region_of(&Region::North, &Bound::South), Ok(Region::North));
    let error = compute_region_of(&south, &Bound::South).unwrap_err();
    assert_eq!(
        error.message(),
        "Invalid gateway configuration: both the local bound and the remote bound are south"
    );
    assert_eq!(compute_region_of(&fallback, &Bound::South), Err(RegionError::BothBoundsSouth));
    assert_eq!((south.bound(), fallback.bound()), (Bound::South, Bound::South));
}

#[test]
fn filter_list_matches_any_filter() {
    let peer = remote(WhatAmI::Peer);
    assert!(is_match(&None, &peer));
    assert!(!is_match(&Some(vec![]), &peer));
    assert!(is_match(&Some(vec![blank()]), &peer));
    let other = BoundFilterConf { zids: Some(NEVec::new(8)), ..blank() };
    assert!(!is_match(&Some(vec![other.clone()]), &peer));
    assert!(is_match(&Some(vec![other, blank()]), &peer));
}

#[test]
fn filter_matches_all_fields() {
    let mut peer = remote(WhatAmI::Peer);
    let mut ifaces = NEVec::new("eth0".to_string());
    let narrow = BoundFilterConf { interfaces: Some(ifaces.clone()), ..blank() };
    assert!(!is_match(&Some(vec![narrow.clone()]), &peer));
    ifaces.push("wlan0".to_string());
    let wide = BoundFilterConf { interfaces: Some(ifaces), ..blank() };
    assert!(is_match(&Some(vec![wide]), &peer));
    peer.links.clear();
    assert!(is_match(&Some(vec![narrow]), &peer));

    let routers =
        BoundFilterConf { modes: Some(WhatAmIMatcher::empty().router()), ..blank() };
    assert!(!is_match(&Some(vec![routers]), &peer));
    let peers =
        BoundFilterConf { modes: Some(WhatAmIMatcher::empty().peer().client()), ..blank() };
    assert!(is_match(&Some(vec![peers]), &peer));

    let lab =
        BoundFilterConf { region_names: Some(NEVec::new("lab".to_string())), ..blank() };
    assert!(is_match(&Some(vec![lab.clone()]), &peer));
    peer.region_name = Some("hall".to_string());
    assert!(!is_match(&Some(vec![lab.clone()]), &peer));
    peer.region_name = None;
    assert!(!is_match(&Some(vec![lab]), &peer));

    let mut zids = NEVec::new(1);
    zids.push(7);
    let ids = BoundFilterConf { zids: Some(zids), ..blank() };
    assert!(is_match(&Some(vec![ids.clone()]), &peer));
    peer.zid = 2;
    assert!(!is_match(&Some(vec![ids]), &peer));
}

#[test]
fn mode_dependent_values() {
    let unique = ModeDependentValue::Unique(5);
    assert_eq!(unique.get(WhatAmI::Client), Some(&5));
    let dependent = ModeDependentValue::Dependent(ModeValues {
        router: Some(1),
        peer: None,
        client: Some(3),
    });
    assert_eq!(dependent.get(WhatAmI::Router), Some(&1));
    assert_eq!(dependent.get(WhatAmI::Peer), None);
    assert_eq!(dependent.get(WhatAmI::Client), Some(&3));
}

#[test]
fn values_by_mode_are_preferred() {
    let values = ModeValues { router: Some(1), peer: None, client: None };
    let value =
        ModeDependentValue::unique_or_dependent(Some(values), Err::<i32, &str>("unread"));
    assert_eq!(value.unwrap().get(WhatAmI::Router), Some(&1));
    let value = ModeDependentValue::unique_or_dependent(None, Ok::<i32, &str>(4));
    assert_eq!(value.unwrap().get(WhatAmI::Peer), Some(&4));
    let value = ModeDependentValue::unique_or_dependent(None, Err::<i32, &str>("no"));
    assert_eq!(value.unwrap_err(), "no");
}

#[test]
fn default_gateway_is_blank() {
    let conf = GatewayConf::default();
    assert!(conf.region_name.is_none());
    assert!(conf.north.is_none());
    assert!(conf.south.is_none());
    assert!(conf.fallback.is_none());
    assert!(!FallbackBoundConf::default().enabled);
    assert_eq!(WhatAmI::Router.to_str(), "router");
}
