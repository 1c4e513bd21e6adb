//! The region of a remote, as the gateway configuration assigns it.

use vstd::prelude::*;
use vstd::string::*;

use crate::gateway::ids_contain;
#[allow(unused_imports)]
use crate::gateway::ids_in;
#[allow(unused_imports)]
use crate::gateway::is_default_north;
#[allow(unused_imports)]
use crate::gateway::is_default_south;
use crate::gateway::strings_contain;
#[allow(unused_imports)]
use crate::gateway::strings_in;
use crate::gateway::BoundFilterConf;
use crate::gateway::GatewayConf;
use crate::gateway::SouthBoundConf;
use crate::whatami::WhatAmI;

verus! {

/// The side of a gateway.
#[derive(Clone, Copy, PartialEq, Eq, Structural, Debug)]
pub enum Bound {
    North,
    South,
}

/// A region of the network, seen from a node.
#[derive(Clone, Copy, PartialEq, Eq, Structural, Debug)]
pub enum Region {
    North,
    South { number: usize, mode: WhatAmI },
    Fallback { mode: WhatAmI },
}

impl Region {
    /// The side on which the region lies: only the north is north.
    pub open spec fn side(self) -> Bound {
        match self {
            Region::North => Bound::North,
            Region::South { .. } => Bound::South,
            Region::Fallback { .. } => Bound::South,
        }
    }

    /// The side on which the region lies.
    pub fn bound(&self) -> (bound: Bound)
        ensures
            bound == self.side(),
    {
        match self {
            Region::North => Bound::North,
            Region::South { .. } => Bound::South,
            Region::Fallback { .. } => Bound::South,
        }
    }
}

/// What the assignment of a region reads of a link.
#[derive(Clone, Debug)]
pub struct PeerLink {
    pub interfaces: Vec<String>,
}

/// A remote with which a transport is established.
#[derive(Clone, Debug)]
pub struct TransportPeer {
    pub zid: u128,
    pub whatami: WhatAmI,
    pub region_name: Option<String>,
    pub links: Vec<PeerLink>,
}

/// A configuration in which the gateway was completed.
#[derive(Clone, Debug)]
pub struct ExpandedConfig {
    pub mode: WhatAmI,
    pub gateway: GatewayConf,
}

impl ExpandedConfig {
    /// The gateway is complete.
    pub open spec fn wf(self) -> bool {
        &&& self.gateway.north is Some
        &&& self.gateway.south is Some
        &&& self.gateway.fallback is Some
    }
}

/// Why no region can be assigned.
#[derive(Clone, Copy, PartialEq, Eq, Structural, Debug)]
pub enum RegionError {
    /// A router in a region below a node that is not a router.
    RouterRegionLimitation,
    /// No south bounds are configured for the mode of the node.
    SouthNotSet { mode: WhatAmI },
    /// No north bound is configured for the mode of the node.
    NorthNotSet { mode: WhatAmI },
    /// No bound matches and there is no fallback.
    FallbackDisabled,
    /// Each side takes the other for a subregion.
    BothBoundsSouth,
}

/// The text of a failure.
pub open spec fn region_error_text(error: RegionError) -> Seq<char> {
    match error {
        RegionError::RouterRegionLimitation =>
            "Router regions cannot be subregions of non-router regions (unsupported)"@,
        RegionError::SouthNotSet { mode } => "`mode` is set to `"@ + mode.text()
            + "` but `gateway.south."@ + mode.text() + "` is not set"@,
        RegionError::NorthNotSet { mode } => "`mode` is set to `"@ + mode.text()
            + "` but `gateway.north."@ + mode.text() + "` is not set"@,
        RegionError::FallbackDisabled =>
            "Fallback region is disabled and north/south filters don't match"@,
        RegionError::BothBoundsSouth =>
            "Invalid gateway configuration: both the local bound and the remote bound are south"@,
    }
}

impl RegionError {
    /// The text of this failure.
    pub fn message(&self) -> (text: String)
        ensures
            text@ == region_error_text(*self),
    {
        match self {
            RegionError::RouterRegionLimitation =>
                "Router regions cannot be subregions of non-router regions (unsupported)".to_owned(),
            RegionError::SouthNotSet { mode } => "`mode` is set to `".to_owned().concat(
                mode.to_str(),
            ).concat("` but `gateway.south.").concat(mode.to_str()).concat("` is not set"),
            RegionError::NorthNotSet { mode } => "`mode` is set to `".to_owned().concat(
                mode.to_str(),
            ).concat("` but `gateway.north.").concat(mode.to_str()).concat("` is not set"),
            RegionError::FallbackDisabled =>
                "Fallback region is disabled and north/south filters don't match".to_owned(),
            RegionError::BothBoundsSouth =>
                "Invalid gateway configuration: both the local bound and the remote bound are south".to_owned(),
        }
    }
}

/// The remote matches all fields of the filter. A filter on interfaces asks for all interfaces of
/// all links.
pub open spec fn filter_matches(filter: BoundFilterConf, peer: TransportPeer) -> bool {
    &&& filter.zids matches Some(zids) ==> ids_in(zids).contains(peer.zid)
    &&& filter.interfaces matches Some(ifaces) ==> forall|i: int, j: int|
        0 <= i < peer.links@.len() && 0 <= j < peer.links@[i].interfaces@.len() ==> strings_in(
            ifaces,
        ).contains(#[trigger] peer.links@[i].interfaces@[j]@)
    &&& filter.modes matches Some(modes) ==> modes.has(peer.whatami)
    &&& filter.region_names matches Some(names) ==> peer.region_name matches Some(name)
        && strings_in(names).contains(name@)
}

/// The remote matches any filter of the list.
pub open spec fn any_matches(list: Seq<BoundFilterConf>, peer: TransportPeer) -> bool {
    exists|i: int| 0 <= i < list.len() && #[trigger] filter_matches(list[i], peer)
}

/// The remote matches any filter of the list, or there is no list.
pub open spec fn filters_match(filters: Option<Vec<BoundFilterConf>>, peer: TransportPeer) -> bool {
    filters matches Some(list) ==> any_matches(list@, peer)
}

/// The first south bound at or after `from` that the remote matches.
pub open spec fn south_index(south: Seq<SouthBoundConf>, peer: TransportPeer, from: nat) -> Option<
    nat,
>
    decreases south.len() - from,
{
    if from >= south.len() {
        None
    } else if filters_match(south[from as int].filters, peer) {
        Some(from)
    } else {
        south_index(south, peer, from + 1)
    }
}

/// The region of a remote below the node, unless the remote is a router and the node is not.
pub open spec fn subregion(config: ExpandedConfig, peer: TransportPeer, region: Region) -> Result<
    Region,
    RegionError,
> {
    if peer.whatami is Router && config.mode !is Router {
        Err(RegionError::RouterRegionLimitation)
    } else {
        Ok(region)
    }
}

/// The transient region of a remote: the first south bound that it matches, else the north, else
/// the fallback.
pub open spec fn transient_region(config: ExpandedConfig, peer: TransportPeer) -> Result<
    Region,
    RegionError,
> {
    match config.gateway.south->0.value_for(config.mode) {
        None => Err(RegionError::SouthNotSet { mode: config.mode }),
        Some(south) => match south_index(south@, peer, 0) {
            Some(number) => subregion(
                config,
                peer,
                Region::South { number: number as usize, mode: peer.whatami },
            ),
            None => match config.gateway.north->0.value_for(config.mode) {
                None => Err(RegionError::NorthNotSet { mode: config.mode }),
                Some(north) => if filters_match(north.filters, peer) {
                    Ok(Region::North)
                } else if config.gateway.fallback->0.enabled {
                    subregion(config, peer, Region::Fallback { mode: peer.whatami })
                } else {
                    Err(RegionError::FallbackDisabled)
                },
            },
        },
    }
}

/// The region of a remote, given its transient region and on which side it takes the node to be.
pub open spec fn settled_region(transient: Region, remote: Bound) -> Result<Region, RegionError> {
    match (transient.side(), remote) {
        (Bound::South, Bound::North) => Ok(transient),
        (Bound::South, Bound::South) => Err(RegionError::BothBoundsSouth),
        (Bound::North, _) => Ok(Region::North),
    }
}

fn interfaces_match(ifaces: &nonempty_collections::NEVec<String>, links: &Vec<PeerLink>) -> (res:
    bool)
    ensures
        res == forall|i: int, j: int|
            0 <= i < links@.len() && 0 <= j < links@[i].interfaces@.len() ==> strings_in(
                *ifaces,
            ).contains(#[trigger] links@[i].interfaces@[j]@),
{
    let mut i: usize = 0;
    while i < links.len()
        invariant
            i <= links.len(),
            forall|k: int, j: int|
                0 <= k < i && 0 <= j < links@[k].interfaces@.len() ==> strings_in(
                    *ifaces,
                ).contains(#[trigger] links@[k].interfaces@[j]@),
        decreases links.len() - i,
    {
        let names = &links[i].interfaces;
        let mut j: usize = 0;
        while j < names.len()
            invariant
                i < links.len(),
                *names == links@[i as int].interfaces,
                j <= names.len(),
                forall|n: int|
                    0 <= n < j ==> strings_in(*ifaces).contains(
                        #[trigger] links@[i as int].interfaces@[n]@,
                    ),
            decreases names.len() - j,
        {
            if !strings_contain(ifaces, &names[j]) {
                assert(!strings_in(*ifaces).contains(links@[i as int].interfaces@[j as int]@));
                return false;
            }
            j = j + 1;
        }
        i = i + 1;
    }
    true
}

fn is_filter_match(filter: &BoundFilterConf, peer: &TransportPeer) -> (res: bool)
    ensures
        res == filter_matches(*filter, *peer),
{
    if let Some(zids) = &filter.zids {
        if !ids_contain(zids, peer.zid) {
            return false;
        }
    }
    if let Some(ifaces) = &filter.interfaces {
        if !interfaces_match(ifaces, &peer.links) {
            return false;
        }
    }
    if let Some(modes) = &filter.modes {
        if !modes.matches(peer.whatami) {
            return false;
        }
    }
    if let Some(names) = &filter.region_names {
        match &peer.region_name {
            Some(name) => strings_contain(names, name),
            None => false,
        }
    } else {
        true
    }
}

/// Whether the remote matches any filter of the list, or there is no list.
pub fn is_match(filters: &Option<Vec<BoundFilterConf>>, peer: &TransportPeer) -> (res: bool)
    ensures
        res == filters_match(*filters, *peer),
{
    match filters {
        None => true,
        Some(list) => {
            let mut i: usize = 0;
            while i < list.len()
                invariant
                    i <= list.len(),
                    *filters == Some(*list),
                    forall|j: int| 0 <= j < i ==> !#[trigger] filter_matches(list@[j], *peer),
                decreases list.len() - i,
            {
                if is_filter_match(&list[i], peer) {
                    assert(any_matches(list@, *peer));
                    return true;
                }
                i = i + 1;
            }
            false
        },
    }
}

fn position_of(south: &Vec<SouthBoundConf>, peer: &TransportPeer) -> (number: Option<usize>)
    ensures
        match south_index(south@, *peer, 0) {
            Some(n) => number == Some(n as usize) && n < south@.len(),
            None => number is None,
        },
{
    let mut i: usize = 0;
    while i < south.len()
        invariant
            i <= south.len(),
            south_index(south@, *peer, 0) == south_index(south@, *peer, i as nat),
        decreases south.len() - i,
    {
        if is_match(&south[i].filters, peer) {
            return Some(i);
        }
        i = i + 1;
    }
    None
}

/// Computes the _transient_ [`Region`] of a remote.
///
/// This is used while a transport is opened, to decide whether the remote is south-bound.
pub fn compute_transient_region_of(config: &ExpandedConfig, peer: &TransportPeer) -> (region:
    Result<Region, RegionError>)
    requires
        config.wf(),
    ensures
        region == transient_region(*config, *peer),
{
    let mode = config.mode;
    let limited: bool = peer.whatami.is_router() && !mode.is_router();
    let south = match config.gateway.south.as_ref().unwrap().get(mode) {
        Some(south) => south,
        None => {
            return Err(RegionError::SouthNotSet { mode });
        },
    };
    if let Some(number) = position_of(south, peer) {
        if limited {
            return Err(RegionError::RouterRegionLimitation);
        }
        return Ok(Region::South { number, mode: peer.whatami });
    }
    let north = match config.gateway.north.as_ref().unwrap().get(mode) {
        Some(north) => north,
        None => {
            return Err(RegionError::NorthNotSet { mode });
        },
    };
    if is_match(&north.filters, peer) {
        return Ok(Region::North);
    }
    if config.gateway.fallback.as_ref().unwrap().enabled {
        if limited {
            return Err(RegionError::RouterRegionLimitation);
        }
        Ok(Region::Fallback { mode: peer.whatami })
    } else {
        Err(RegionError::FallbackDisabled)
    }
}

/// Computes the [`Region`] of a remote.
pub fn compute_region_of(transient_region: &Region, remote_bound: &Bound) -> (region: Result<
    Region,
    RegionError,
>)
    ensures
        region == settled_region(*transient_region, *remote_bound),
{
    match (transient_region.bound(), remote_bound) {
        (Bound::South, Bound::North) => Ok(*transient_region),
        (Bound::South, Bound::South) => Err(RegionError::BothBoundsSouth),
        (Bound::North, _) => Ok(Region::North),
    }
}

/// Without a filter list every remote matches.
pub proof fn no_list_matches_always(peer: TransportPeer)
    ensures
        filters_match(None, peer),
{
}

/// With an empty filter list no remote matches.
pub proof fn empty_list_matches_never(filters: Vec<BoundFilterConf>, peer: TransportPeer)
    requires
        filters@.len() == 0,
    ensures
        !filters_match(Some(filters), peer),
{
}

/// A filter without any field matches every remote.
pub proof fn blank_filter_matches_always(filter: BoundFilterConf, peer: TransportPeer)
    requires
        filter.modes is None,
        filter.interfaces is None,
        filter.zids is None,
        filter.region_names is None,
    ensures
        filter_matches(filter, peer),
{
}

/// The south bound that is found is the first one that the remote matches.
pub proof fn south_index_is_first(south: Seq<SouthBoundConf>, peer: TransportPeer, from: nat)
    ensures
        match south_index(south, peer, from) {
            Some(n) => {
                &&& from <= n < south.len()
                &&& filters_match(south[n as int].filters, peer)
                &&& forall|i: int|
                    from <= i < n ==> !filters_match((#[trigger] south[i]).filters, peer)
            },
            None => forall|i: int|
                from <= i < south.len() ==> !filters_match((#[trigger] south[i]).filters, peer),
        },
    decreases south.len() - from,
{
    if from < south.len() && !filters_match(south[from as int].filters, peer) {
        south_index_is_first(south, peer, from + 1);
    }
}

/// A router is never in a region below a node that is not a router.
pub proof fn router_is_not_below_others(config: ExpandedConfig, peer: TransportPeer)
    requires
        config.wf(),
        peer.whatami is Router,
        config.mode !is Router,
    ensures
        transient_region(config, peer) matches Ok(region) ==> region is North,
{
}

/// A region below the node carries the mode of the remote.
pub proof fn subregion_has_mode_of_remote(config: ExpandedConfig, peer: TransportPeer)
    requires
        config.wf(),
    ensures
        transient_region(config, peer) matches Ok(Region::South { number: _, mode }) ==> mode
            == peer.whatami,
        transient_region(config, peer) matches Ok(Region::Fallback { mode }) ==> mode
            == peer.whatami,
{
}

/// Only a node that is not configured for its mode, that has a router below it or that has no
/// fallback fails to assign a region.
pub proof fn region_is_assigned(config: ExpandedConfig, peer: TransportPeer)
    requires
        config.wf(),
        config.gateway.south->0.value_for(config.mode) is Some,
        config.gateway.north->0.value_for(config.mode) is Some,
        config.gateway.fallback->0.enabled,
        config.mode is Router || peer.whatami !is Router,
    ensures
        transient_region(config, peer) is Ok,
{
}

/// The two sides of a transport settle on a north and a south, or both on north; they never both
/// settle on south.
pub proof fn sides_do_not_both_settle_on_south(local: Region, remote: Region)
    ensures
        settled_region(local, remote.side()) matches Ok(l) ==> settled_region(
            remote,
            local.side(),
        ) matches Ok(r) ==> l.side() is North || r.side() is North,
        settled_region(local, remote.side()) is Err <==> settled_region(
            remote,
            local.side(),
        ) is Err,
{
}

/// By default a router takes peers and clients for its first subregion and routers for its north;
/// a peer takes clients for its first subregion and all others for its north; a client takes
/// routers and peers for its north and leaves clients to the fallback.
pub proof fn default_regions(config: ExpandedConfig, peer: TransportPeer)
    requires
        config.wf(),
        is_default_north(config.gateway.north->0),
        is_default_south(config.gateway.south->0),
    ensures
        transient_region(config, peer) == match (config.mode, peer.whatami) {
            (_, WhatAmI::Router) => Ok(Region::North),
            (WhatAmI::Router, mode) => Ok(Region::South { number: 0, mode }),
            (WhatAmI::Peer, WhatAmI::Client) => Ok(
                Region::South { number: 0, mode: WhatAmI::Client },
            ),
            (_, WhatAmI::Peer) => Ok(Region::North),
            (WhatAmI::Client, WhatAmI::Client) => if config.gateway.fallback->0.enabled {
                Ok(Region::Fallback { mode: WhatAmI::Client })
            } else {
                Err(RegionError::FallbackDisabled)
            },
        },
{
    let south = config.gateway.south->0.value_for(config.mode)->0;
    let north = config.gateway.north->0.value_for(config.mode)->0;
    reveal_with_fuel(south_index, 2);
    let filter = north.filters->0@[0];
    assert(filters_match(north.filters, peer) == filter_matches(filter, peer)) by {
        if filter_matches(filter, peer) {
            assert(filter_matches(north.filters->0@[0], peer));
        }
    }
    if south@.len() == 1 {
        let filter = south@[0].filters->0@[0];
        assert(filters_match(south@[0].filters, peer) == filter_matches(filter, peer)) by {
            if filter_matches(filter, peer) {
                assert(filter_matches(south@[0].filters->0@[0], peer));
            }
        }
    }
}

/// Every field that is set is needed: a remote that misses one does not match the filter, whatever
/// its other fields are.
pub proof fn every_set_field_is_needed(filter: BoundFilterConf, peer: TransportPeer, i: int, j: int)
    ensures
        filter.zids matches Some(zids) ==> !ids_in(zids).contains(peer.zid) ==> !filter_matches(
            filter,
            peer,
        ),
        filter.modes matches Some(modes) ==> !modes.has(peer.whatami) ==> !filter_matches(
            filter,
            peer,
        ),
        filter.interfaces matches Some(ifaces) ==> 0 <= i < peer.links@.len() ==> 0 <= j
            < peer.links@[i].interfaces@.len() ==> !strings_in(ifaces).contains(
            peer.links@[i].interfaces@[j]@,
        ) ==> !filter_matches(filter, peer),
        filter.region_names is Some && peer.region_name is None ==> !filter_matches(filter, peer),
        filter.region_names matches Some(names) ==> peer.region_name matches Some(name)
            ==> !strings_in(names).contains(name@) ==> !filter_matches(filter, peer),
{
}

/// The fields that are set are enough: a remote that satisfies all of them matches the filter.
pub proof fn all_set_fields_are_enough(filter: BoundFilterConf, peer: TransportPeer)
    requires
        filter.zids is None || ids_in(filter.zids->0).contains(peer.zid),
        filter.modes is None || filter.modes->0.has(peer.whatami),
        filter.interfaces is None || forall|i: int, j: int|
            0 <= i < peer.links@.len() && 0 <= j < peer.links@[i].interfaces@.len() ==> strings_in(
                filter.interfaces->0,
            ).contains(#[trigger] peer.links@[i].interfaces@[j]@),
        filter.region_names is None || (peer.region_name is Some && strings_in(
            filter.region_names->0,
        ).contains(peer.region_name->0@)),
    ensures
        filter_matches(filter, peer),
{
}

/// Setting a field of a filter only narrows it: a remote that matches the filter still matches it
/// without the field.
pub proof fn unset_fields_widen_a_filter(
    filter: BoundFilterConf,
    wider: BoundFilterConf,
    peer: TransportPeer,
)
    requires
        wider.zids == filter.zids || wider.zids is None,
        wider.modes == filter.modes || wider.modes is None,
        wider.interfaces == filter.interfaces || wider.interfaces is None,
        wider.region_names == filter.region_names || wider.region_names is None,
        filter_matches(filter, peer),
    ensures
        filter_matches(wider, peer),
{
}

/// A list matches exactly the remotes that one of its filters matches.
pub proof fn list_matches_what_a_filter_matches(
    first: Vec<BoundFilterConf>,
    second: Vec<BoundFilterConf>,
    both: Vec<BoundFilterConf>,
    peer: TransportPeer,
    i: int,
)
    requires
        both@ == first@ + second@,
    ensures
        filters_match(Some(both), peer) <==> filters_match(Some(first), peer) || filters_match(
            Some(second),
            peer,
        ),
        0 <= i < first@.len() && filter_matches(first@[i], peer) ==> filters_match(
            Some(first),
            peer,
        ),
        first@.len() == 1 ==> (filters_match(Some(first), peer) <==> filter_matches(
            first@[0],
            peer,
        )),
        first@.len() == 0 ==> !filters_match(Some(first), peer),
{
    if any_matches(first@, peer) {
        let k = choose|k: int| 0 <= k < first@.len() && #[trigger] filter_matches(first@[k], peer);
        assert(filter_matches(both@[k], peer));
    }
    if any_matches(second@, peer) {
        let k = choose|k: int|
            0 <= k < second@.len() && #[trigger] filter_matches(second@[k], peer);
        assert(both@[first@.len() + k] == second@[k]);
        assert(filter_matches(both@[first@.len() + k], peer));
    }
    if any_matches(both@, peer) {
        let k = choose|k: int| 0 <= k < both@.len() && #[trigger] filter_matches(both@[k], peer);
        if k < first@.len() {
            assert(filter_matches(first@[k], peer));
        } else {
            assert(filter_matches(second@[k - first@.len()], peer));
        }
    }
}

/// A remote is in the south exactly when a south bound matches it, in that of the first one, and
/// then neither the north nor the fallback counts.
pub proof fn south_comes_first(config: ExpandedConfig, peer: TransportPeer, n: int)
    requires
        config.wf(),
        config.gateway.south->0.value_for(config.mode) is Some,
        config.gateway.south->0.value_for(config.mode)->0@.len() <= usize::MAX,
        0 <= n < config.gateway.south->0.value_for(config.mode)->0@.len(),
        filters_match(config.gateway.south->0.value_for(config.mode)->0@[n].filters, peer),
    ensures
        peer.whatami is Router && config.mode !is Router ==> transient_region(config, peer)
            == Err::<Region, RegionError>(RegionError::RouterRegionLimitation),
        !(peer.whatami is Router && config.mode !is Router) ==> (transient_region(
            config,
            peer,
        ) matches Ok(Region::South { number, mode }) && mode == peer.whatami && number <= n
            && filters_match(
            config.gateway.south->0.value_for(config.mode)->0@[number as int].filters,
            peer,
        )),
        !(peer.whatami is Router && config.mode !is Router) && (forall|k: int|
            0 <= k < n ==> !filters_match(
                (#[trigger] config.gateway.south->0.value_for(config.mode)->0@[k]).filters,
                peer,
            )) ==> transient_region(config, peer) == Ok::<Region, RegionError>(
            Region::South { number: n as usize, mode: peer.whatami },
        ),
{
    let south = config.gateway.south->0.value_for(config.mode)->0@;
    south_index_is_first(south, peer, 0);
    assert(filters_match(south[n].filters, peer));
}

/// A remote that no south bound matches is in the north if the north bound matches it, and else in
/// the fallback if there is one.
pub proof fn north_comes_before_fallback(config: ExpandedConfig, peer: TransportPeer)
    requires
        config.wf(),
        config.gateway.south->0.value_for(config.mode) is Some,
        forall|k: int|
            0 <= k < config.gateway.south->0.value_for(config.mode)->0@.len() ==> !filters_match(
                (#[trigger] config.gateway.south->0.value_for(config.mode)->0@[k]).filters,
                peer,
            ),
    ensures
        match config.gateway.north->0.value_for(config.mode) {
            None => transient_region(config, peer) == Err::<Region, RegionError>(
                RegionError::NorthNotSet { mode: config.mode },
            ),
            Some(north) => {
                &&& filters_match(north.filters, peer) ==> transient_region(config, peer) == Ok::<
                    Region,
                    RegionError,
                >(Region::North)
                &&& !filters_match(north.filters, peer) && !config.gateway.fallback->0.enabled
                    ==> transient_region(config, peer) == Err::<Region, RegionError>(
                    RegionError::FallbackDisabled,
                )
                &&& !filters_match(north.filters, peer) && config.gateway.fallback->0.enabled && !(
                peer.whatami is Router && config.mode !is Router) ==> transient_region(
                    config,
                    peer,
                ) == Ok::<Region, RegionError>(Region::Fallback { mode: peer.whatami })
                &&& !filters_match(north.filters, peer) && config.gateway.fallback->0.enabled
                    && peer.whatami is Router && config.mode !is Router ==> transient_region(
                    config,
                    peer,
                ) == Err::<Region, RegionError>(RegionError::RouterRegionLimitation)
            },
        },
{
    south_index_is_first(config.gateway.south->0.value_for(config.mode)->0@, peer, 0);
}

/// Without south bounds for the mode of the node nothing is assigned.
pub proof fn unset_south_is_an_error(config: ExpandedConfig, peer: TransportPeer)
    requires
        config.wf(),
        config.gateway.south->0.value_for(config.mode) is None,
    ensures
        transient_region(config, peer) == Err::<Region, RegionError>(
            RegionError::SouthNotSet { mode: config.mode },
        ),
{
}

/// A remote that takes the node for its north keeps the region that it was given; a north stays
/// north whatever the remote takes the node for; and two souths are refused.
pub proof fn settling_keeps_the_region(transient: Region)
    ensures
        settled_region(transient, Bound::North) == Ok::<Region, RegionError>(transient),
        transient is North ==> settled_region(transient, Bound::South) == Ok::<Region, RegionError>(
            Region::North,
        ),
        transient !is North ==> settled_region(transient, Bound::South) == Err::<
            Region,
            RegionError,
        >(RegionError::BothBoundsSouth),
        transient is North <==> transient.side() is North,
{
}

/// Different failures have different texts, and so have those for different modes of the node.
pub proof fn region_errors_are_told_apart(a: RegionError, b: RegionError)
    ensures
        region_error_text(a) == region_error_text(b) ==> a == b,
{
    reveal_strlit("Router regions cannot be subregions of non-router regions (unsupported)");
    reveal_strlit("`mode` is set to `");
    reveal_strlit("` but `gateway.south.");
    reveal_strlit("` but `gateway.north.");
    reveal_strlit("` is not set");
    reveal_strlit("Fallback region is disabled and north/south filters don't match");
    reveal_strlit(
        "Invalid gateway configuration: both the local bound and the remote bound are south",
    );
    reveal_strlit("router");
    reveal_strlit("peer");
    reveal_strlit("client");
    let text = region_error_text(a);
    let other = region_error_text(b);
    if text == other {
        assert(text[0] == other[0]);
        assert(text[18] == other[18]);
        assert(text[37] == other[37]);
        assert(text[39] == other[39]);
    }
}

} // verus!
