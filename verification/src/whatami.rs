//! The modes in which a node takes part in the network.

use vstd::prelude::*;

verus! {

/// The mode of a node.
#[derive(Clone, Copy, PartialEq, Eq, Structural, Debug)]
pub enum WhatAmI {
    Router,
    Peer,
    Client,
}

impl WhatAmI {
    /// The name of the mode.
    pub open spec fn text(self) -> Seq<char> {
        match self {
            WhatAmI::Router => "router"@,
            WhatAmI::Peer => "peer"@,
            WhatAmI::Client => "client"@,
        }
    }

    /// The name of the mode.
    pub fn to_str(&self) -> (text: &'static str)
        ensures
            text@ == self.text(),
    {
        match self {
            WhatAmI::Router => "router",
            WhatAmI::Peer => "peer",
            WhatAmI::Client => "client",
        }
    }

    pub fn is_router(&self) -> (res: bool)
        ensures
            res == (*self is Router),
    {
        match self {
            WhatAmI::Router => true,
            _ => false,
        }
    }
}

/// A set of modes.
#[derive(Clone, Copy, PartialEq, Eq, Structural, Debug)]
pub struct WhatAmIMatcher {
    pub router: bool,
    pub peer: bool,
    pub client: bool,
}

impl WhatAmIMatcher {
    /// The mode is in the set.
    pub open spec fn has(self, mode: WhatAmI) -> bool {
        match mode {
            WhatAmI::Router => self.router,
            WhatAmI::Peer => self.peer,
            WhatAmI::Client => self.client,
        }
    }

    /// No mode.
    pub fn empty() -> (matcher: WhatAmIMatcher)
        ensures
            matcher == (WhatAmIMatcher { router: false, peer: false, client: false }),
    {
        WhatAmIMatcher { router: false, peer: false, client: false }
    }

    /// The set with routers.
    pub fn router(self) -> (matcher: WhatAmIMatcher)
        ensures
            matcher == (WhatAmIMatcher { router: true, ..self }),
    {
        WhatAmIMatcher { router: true, ..self }
    }

    /// The set with peers.
    pub fn peer(self) -> (matcher: WhatAmIMatcher)
        ensures
            matcher == (WhatAmIMatcher { peer: true, ..self }),
    {
        WhatAmIMatcher { peer: true, ..self }
    }

    /// The set with clients.
    pub fn client(self) -> (matcher: WhatAmIMatcher)
        ensures
            matcher == (WhatAmIMatcher { client: true, ..self }),
    {
        WhatAmIMatcher { client: true, ..self }
    }

    /// Whether the mode is in the set.
    pub fn matches(&self, mode: WhatAmI) -> (res: bool)
        ensures
            res == self.has(mode),
    {
        match mode {
            WhatAmI::Router => self.router,
            WhatAmI::Peer => self.peer,
            WhatAmI::Client => self.client,
        }
    }
}

/// A set has exactly the modes that were put into it.
pub proof fn set_has_what_was_put_into_it(set: WhatAmIMatcher, mode: WhatAmI)
    ensures
        !(WhatAmIMatcher { router: false, peer: false, client: false }).has(mode),
        (WhatAmIMatcher { router: true, ..set }).has(mode) <==> mode is Router || set.has(mode),
        (WhatAmIMatcher { peer: true, ..set }).has(mode) <==> mode is Peer || set.has(mode),
        (WhatAmIMatcher { client: true, ..set }).has(mode) <==> mode is Client || set.has(mode),
{
}

/// Each mode has a name of its own.
pub proof fn mode_names_differ(a: WhatAmI, b: WhatAmI)
    requires
        a != b,
    ensures
        a.text() != b.text(),
{
    reveal_strlit("router");
    reveal_strlit("peer");
    reveal_strlit("client");
    assert("peer"@.len() == 4);
    assert("router"@[0] == 'r');
    assert("client"@[0] == 'c');
    assert("router"@.len() == 6);
    assert("client"@.len() == 6);
}

} // verus!
