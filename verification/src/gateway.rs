//! Configuration of the bounds between regions.

use nonempty_collections::NEVec;
use vstd::prelude::*;

use crate::whatami::WhatAmI;
use crate::whatami::WhatAmIMatcher;

verus! {

/// `nonempty_collections::NEVec`, a list with at least one item.
#[verifier::external_type_specification]
#[verifier::external_body]
#[verifier::reject_recursive_types(T)]
pub struct ExNEVec<T>(NEVec<T>);

/// The items of a non-empty list of strings.
pub uninterp spec fn strings_in(list: NEVec<String>) -> Seq<Seq<char>>;

/// The items of a non-empty list of identifiers.
pub uninterp spec fn ids_in(list: NEVec<u128>) -> Seq<u128>;

/// Calls `NEVec::contains` on strings: whether an item of the list has the text of `item`.
#[verifier::external_body]
pub(crate) fn strings_contain(list: &NEVec<String>, item: &String) -> (found: bool)
    ensures
        found == strings_in(*list).contains(item@),
{
    list.contains(item)
}

/// Calls `NEVec::contains` on integers: whether `item` is in the list.
#[verifier::external_body]
pub(crate) fn ids_contain(list: &NEVec<u128>, item: u128) -> (found: bool)
    ensures
        found == ids_in(*list).contains(item),
{
    list.contains(&item)
}

/// A value for each mode, where it is set.
#[derive(Debug, Clone)]
pub struct ModeValues<T> {
    pub router: Option<T>,
    pub peer: Option<T>,
    pub client: Option<T>,
}

/// One value for all modes, or one for each.
#[derive(Debug, Clone)]
pub enum ModeDependentValue<T> {
    Unique(T),
    Dependent(ModeValues<T>),
}

impl<T> ModeDependentValue<T> {
    /// The value for a mode, if it is set.
    pub open spec fn value_for(self, mode: WhatAmI) -> Option<T> {
        match self {
            ModeDependentValue::Unique(value) => Some(value),
            ModeDependentValue::Dependent(values) => match mode {
                WhatAmI::Router => values.router,
                WhatAmI::Peer => values.peer,
                WhatAmI::Client => values.client,
            },
        }
    }

    /// The value for a mode, if it is set.
    pub fn get(&self, mode: WhatAmI) -> (value: Option<&T>)
        ensures
            value is Some == self.value_for(mode) is Some,
            value is Some ==> *value->0 == self.value_for(mode)->0,
    {
        match self {
            ModeDependentValue::Unique(value) => Some(value),
            ModeDependentValue::Dependent(values) => match mode {
                WhatAmI::Router => values.router.as_ref(),
                WhatAmI::Peer => values.peer.as_ref(),
                WhatAmI::Client => values.client.as_ref(),
            },
        }
    }

    /// Reads a value that may have been written either way: as values by mode, if it can be read
    /// so, and else as one value for all modes.
    pub fn unique_or_dependent<E>(
        dependent: Option<ModeValues<T>>,
        unique: Result<T, E>,
    ) -> (value: Result<ModeDependentValue<T>, E>)
        ensures
            value == match dependent {
                Some(values) => Ok(ModeDependentValue::Dependent(values)),
                None => match unique {
                    Ok(unique) => Ok(ModeDependentValue::Unique(unique)),
                    Err(error) => Err(error),
                },
            },
    {
        match dependent {
            Some(values) => Ok(ModeDependentValue::Dependent(values)),
            None => match unique {
                Ok(unique) => Ok(ModeDependentValue::Unique(unique)),
                Err(error) => Err(error),
            },
        }
    }
}

/// Configuration of a gateway.
#[derive(Debug, Clone)]
pub struct GatewayConf {
    pub region_name: Option<String>,
    pub north: Option<ModeDependentValue<NorthBoundConf>>,
    pub south: Option<ModeDependentValue<Vec<SouthBoundConf>>>,
    pub fallback: Option<FallbackBoundConf>,
}

impl Default for GatewayConf {
    fn default() -> (conf: Self)
        ensures
            conf.region_name is None,
            conf.north is None,
            conf.south is None,
            conf.fallback is None,
    {
        GatewayConf { region_name: None, north: None, south: None, fallback: None }
    }
}

/// Configuration of the north bound.
#[derive(Debug, Clone)]
pub struct NorthBoundConf {
    /// North bound filters.
    ///
    /// If [`Some`], a subject matches this filter list iff it matches _any_ of the individual
    /// filters. Thus if the list is empty no subject ever matches.
    ///
    /// If [`None`], a subject _always_ matches.
    pub filters: Option<Vec<BoundFilterConf>>,
}

/// Configuration of a south bound.
#[derive(Debug, Clone)]
pub struct SouthBoundConf {
    /// South bound filters.
    ///
    /// If [`Some`], a subject matches this filter list iff it matches _any_ of the individual
    /// filters. Thus if the list is empty no subject ever matches.
    ///
    /// If [`None`], a subject _always_ matches.
    pub filters: Option<Vec<BoundFilterConf>>,
}

/// Bound filter.
///
/// A subject matches this filter iff it matches _all_ of its individual filter fields.
#[derive(Debug, Clone)]
pub struct BoundFilterConf {
    pub modes: Option<WhatAmIMatcher>,
    pub interfaces: Option<NEVec<String>>,
    pub zids: Option<NEVec<u128>>,
    pub region_names: Option<NEVec<String>>,
}

/// Configuration of the fallback region.
#[derive(Debug, Clone, Copy, PartialEq, Eq, Structural)]
pub struct FallbackBoundConf {
    pub enabled: bool,
}

impl Default for FallbackBoundConf {
    fn default() -> (conf: Self)
        ensures
            conf == (FallbackBoundConf { enabled: false }),
    {
        FallbackBoundConf { enabled: false }
    }
}

/// The filter list has one filter, which selects by mode alone.
pub open spec fn selects_modes(
    filters: Option<Vec<BoundFilterConf>>,
    modes: WhatAmIMatcher,
) -> bool {
    &&& filters is Some
    &&& filters->0@.len() == 1
    &&& filters->0@[0].modes == Some(modes)
    &&& filters->0@[0].interfaces is None
    &&& filters->0@[0].zids is None
    &&& filters->0@[0].region_names is None
}

fn by_modes(modes: WhatAmIMatcher) -> (filters: Option<Vec<BoundFilterConf>>)
    ensures
        selects_modes(filters, modes),
{
    let mut filters: Vec<BoundFilterConf> = Vec::new();
    filters.push(
        BoundFilterConf { modes: Some(modes), interfaces: None, zids: None, region_names: None },
    );
    Some(filters)
}

/// The north bound that is configured by default: a router is north of a router, a router or a
/// peer is north of a peer or a client.
pub open spec fn is_default_north(conf: ModeDependentValue<NorthBoundConf>) -> bool {
    &&& conf.value_for(WhatAmI::Router) matches Some(north) && selects_modes(
        north.filters,
        WhatAmIMatcher { router: true, peer: false, client: false },
    )
    &&& conf.value_for(WhatAmI::Peer) matches Some(north) && selects_modes(
        north.filters,
        WhatAmIMatcher { router: true, peer: true, client: false },
    )
    &&& conf.value_for(WhatAmI::Client) matches Some(north) && selects_modes(
        north.filters,
        WhatAmIMatcher { router: true, peer: true, client: false },
    )
}

impl Default for ModeDependentValue<NorthBoundConf> {
    fn default() -> (conf: Self)
        ensures
            conf is Dependent,
            is_default_north(conf),
    {
        ModeDependentValue::Dependent(
            ModeValues {
                router: Some(
                    NorthBoundConf { filters: by_modes(WhatAmIMatcher::empty().router()) },
                ),
                peer: Some(
                    NorthBoundConf { filters: by_modes(WhatAmIMatcher::empty().router().peer()) },
                ),
                client: Some(
                    NorthBoundConf { filters: by_modes(WhatAmIMatcher::empty().router().peer()) },
                ),
            },
        )
    }
}

/// The south bounds that are configured by default: peers and clients are south of a router,
/// clients are south of a peer, nothing is south of a client.
pub open spec fn is_default_south(conf: ModeDependentValue<Vec<SouthBoundConf>>) -> bool {
    &&& conf.value_for(WhatAmI::Router) matches Some(south) && south@.len() == 1 && selects_modes(
        south@[0].filters,
        WhatAmIMatcher { router: false, peer: true, client: true },
    )
    &&& conf.value_for(WhatAmI::Peer) matches Some(south) && south@.len() == 1 && selects_modes(
        south@[0].filters,
        WhatAmIMatcher { router: false, peer: false, client: true },
    )
    &&& conf.value_for(WhatAmI::Client) matches Some(south) && south@.len() == 0
}

impl Default for ModeDependentValue<Vec<SouthBoundConf>> {
    fn default() -> (conf: Self)
        ensures
            conf is Dependent,
            is_default_south(conf),
    {
        let mut router: Vec<SouthBoundConf> = Vec::new();
        router.push(SouthBoundConf { filters: by_modes(WhatAmIMatcher::empty().peer().client()) });
        let mut peer: Vec<SouthBoundConf> = Vec::new();
        peer.push(SouthBoundConf { filters: by_modes(WhatAmIMatcher::empty().client()) });
        ModeDependentValue::Dependent(
            ModeValues { router: Some(router), peer: Some(peer), client: Some(Vec::new()) },
        )
    }
}

/// A value for all modes is the value of each; a value by mode is that of its mode alone.
pub proof fn value_is_that_of_its_mode<T>(unique: T, values: ModeValues<T>, mode: WhatAmI)
    ensures
        ModeDependentValue::Unique(unique).value_for(mode) == Some(unique),
        mode is Router ==> ModeDependentValue::Dependent(values).value_for(mode) == values.router,
        mode is Peer ==> ModeDependentValue::Dependent(values).value_for(mode) == values.peer,
        mode is Client ==> ModeDependentValue::Dependent(values).value_for(mode) == values.client,
{
}

} // verus!
