//! The places that the routing counters tell apart.

use vstd::prelude::*;

verus! {

pub const WT_SITE_COUNT: usize = 5;

pub const CL_SITE_COUNT: usize = 6;

pub const RP_KIND_COUNT: usize = 5;

pub const RPS_STEP_COUNT: usize = 4;

/// Why all routes were invalidated.
#[derive(Clone, Copy, PartialEq, Eq, Structural, Debug)]
pub enum InvalidationSource {
    DeclareFinal,
    PeerInit,
    Other,
}

/// Where the write lock on the tables is taken.
#[derive(Clone, Copy, PartialEq, Eq, Structural, Debug)]
pub enum WTableSite {
    PeerInit,
    DeclareFinal,
    RegisterExpr,
    InterestFinal,
    SendClose,
}

/// Where the control lock is taken.
#[derive(Clone, Copy, PartialEq, Eq, Structural, Debug)]
pub enum CtrlLockSite {
    NewSession,
    NewTransportUnicast,
    SendInterest,
    SendDeclare,
    SendClose,
    Other,
}

/// What is propagated again.
#[derive(Clone, Copy, PartialEq, Eq, Structural, Debug)]
pub enum RepropagateKind {
    Interests,
    Subscribers,
    Queryables,
    Tokens,
    DisableAllRoutes,
}

/// Steps of propagating subscribers again.
#[derive(Clone, Copy, PartialEq, Eq, Structural, Debug)]
pub enum RepropagateSubsStep {
    ContainsCheck,
    ShouldNotifyCompute,
    InsertSimpleResource,
    DeclKeyAndSend,
}

impl WTableSite {
    /// The index of this place in the counters.
    pub open spec fn ordinal(self) -> int {
        match self {
            WTableSite::PeerInit => 0,
            WTableSite::DeclareFinal => 1,
            WTableSite::RegisterExpr => 2,
            WTableSite::InterestFinal => 3,
            WTableSite::SendClose => 4,
        }
    }

    /// The index of this place in the counters.
    pub fn index(self) -> (i: usize)
        ensures
            i == self.ordinal(),
            i < WT_SITE_COUNT,
    {
        match self {
            WTableSite::PeerInit => 0,
            WTableSite::DeclareFinal => 1,
            WTableSite::RegisterExpr => 2,
            WTableSite::InterestFinal => 3,
            WTableSite::SendClose => 4,
        }
    }

    /// The site of index `i`.
    pub open spec fn nth(i: int) -> Self {
        if i == 0 {
            WTableSite::PeerInit
        } else if i == 1 {
            WTableSite::DeclareFinal
        } else if i == 2 {
            WTableSite::RegisterExpr
        } else if i == 3 {
            WTableSite::InterestFinal
        } else {
            WTableSite::SendClose
        }
    }

    /// The site of this index.
    pub fn at(i: usize) -> (site: Self)
        requires
            i < WT_SITE_COUNT,
        ensures
            site == Self::nth(i as int),
            site.ordinal() == i,
    {
        match i {
            0 => WTableSite::PeerInit,
            1 => WTableSite::DeclareFinal,
            2 => WTableSite::RegisterExpr,
            3 => WTableSite::InterestFinal,
            _ => WTableSite::SendClose,
        }
    }

    /// The name in a metric line.
    pub open spec fn label(self) -> Seq<char> {
        match self {
            WTableSite::PeerInit => "peer_init"@,
            WTableSite::DeclareFinal => "declare_final"@,
            WTableSite::RegisterExpr => "register_expr"@,
            WTableSite::InterestFinal => "interest_final"@,
            WTableSite::SendClose => "send_close"@,
        }
    }

    /// The name of this site in a metric line.
    pub fn name(self) -> (name: &'static str)
        ensures
            name@ == self.label(),
    {
        match self {
            WTableSite::PeerInit => "peer_init",
            WTableSite::DeclareFinal => "declare_final",
            WTableSite::RegisterExpr => "register_expr",
            WTableSite::InterestFinal => "interest_final",
            WTableSite::SendClose => "send_close",
        }
    }
}

impl CtrlLockSite {
    /// The index of this place in the counters.
    pub open spec fn ordinal(self) -> int {
        match self {
            CtrlLockSite::NewSession => 0,
            CtrlLockSite::NewTransportUnicast => 1,
            CtrlLockSite::SendInterest => 2,
            CtrlLockSite::SendDeclare => 3,
            CtrlLockSite::SendClose => 4,
            CtrlLockSite::Other => 5,
        }
    }

    /// The index of this place in the counters.
    pub fn index(self) -> (i: usize)
        ensures
            i == self.ordinal(),
            i < CL_SITE_COUNT,
    {
        match self {
            CtrlLockSite::NewSession => 0,
            CtrlLockSite::NewTransportUnicast => 1,
            CtrlLockSite::SendInterest => 2,
            CtrlLockSite::SendDeclare => 3,
            CtrlLockSite::SendClose => 4,
            CtrlLockSite::Other => 5,
        }
    }

    /// The site of index `i`.
    pub open spec fn nth(i: int) -> Self {
        if i == 0 {
            CtrlLockSite::NewSession
        } else if i == 1 {
            CtrlLockSite::NewTransportUnicast
        } else if i == 2 {
            CtrlLockSite::SendInterest
        } else if i == 3 {
            CtrlLockSite::SendDeclare
        } else if i == 4 {
            CtrlLockSite::SendClose
        } else {
            CtrlLockSite::Other
        }
    }

    /// The site of this index.
    pub fn at(i: usize) -> (site: Self)
        requires
            i < CL_SITE_COUNT,
        ensures
            site == Self::nth(i as int),
            site.ordinal() == i,
    {
        match i {
            0 => CtrlLockSite::NewSession,
            1 => CtrlLockSite::NewTransportUnicast,
            2 => CtrlLockSite::SendInterest,
            3 => CtrlLockSite::SendDeclare,
            4 => CtrlLockSite::SendClose,
            _ => CtrlLockSite::Other,
        }
    }

    /// The name in a metric line.
    pub open spec fn label(self) -> Seq<char> {
        match self {
            CtrlLockSite::NewSession => "new_session"@,
            CtrlLockSite::NewTransportUnicast => "new_transport_unicast"@,
            CtrlLockSite::SendInterest => "send_interest"@,
            CtrlLockSite::SendDeclare => "send_declare"@,
            CtrlLockSite::SendClose => "send_close"@,
            CtrlLockSite::Other => "other"@,
        }
    }

    /// The name of this site in a metric line.
    pub fn name(self) -> (name: &'static str)
        ensures
            name@ == self.label(),
    {
        match self {
            CtrlLockSite::NewSession => "new_session",
            CtrlLockSite::NewTransportUnicast => "new_transport_unicast",
            CtrlLockSite::SendInterest => "send_interest",
            CtrlLockSite::SendDeclare => "send_declare",
            CtrlLockSite::SendClose => "send_close",
            CtrlLockSite::Other => "other",
        }
    }
}

impl RepropagateKind {
    /// The index of this place in the counters.
    pub open spec fn ordinal(self) -> int {
        match self {
            RepropagateKind::Interests => 0,
            RepropagateKind::Subscribers => 1,
            RepropagateKind::Queryables => 2,
            RepropagateKind::Tokens => 3,
            RepropagateKind::DisableAllRoutes => 4,
        }
    }

    /// The index of this place in the counters.
    pub fn index(self) -> (i: usize)
        ensures
            i == self.ordinal(),
            i < RP_KIND_COUNT,
    {
        match self {
            RepropagateKind::Interests => 0,
            RepropagateKind::Subscribers => 1,
            RepropagateKind::Queryables => 2,
            RepropagateKind::Tokens => 3,
            RepropagateKind::DisableAllRoutes => 4,
        }
    }

    /// The kind of index `i`.
    pub open spec fn nth(i: int) -> Self {
        if i == 0 {
            RepropagateKind::Interests
        } else if i == 1 {
            RepropagateKind::Subscribers
        } else if i == 2 {
            RepropagateKind::Queryables
        } else if i == 3 {
            RepropagateKind::Tokens
        } else {
            RepropagateKind::DisableAllRoutes
        }
    }

    /// The kind of this index.
    pub fn at(i: usize) -> (kind: Self)
        requires
            i < RP_KIND_COUNT,
        ensures
            kind == Self::nth(i as int),
            kind.ordinal() == i,
    {
        match i {
            0 => RepropagateKind::Interests,
            1 => RepropagateKind::Subscribers,
            2 => RepropagateKind::Queryables,
            3 => RepropagateKind::Tokens,
            _ => RepropagateKind::DisableAllRoutes,
        }
    }

    /// The name in a metric line.
    pub open spec fn label(self) -> Seq<char> {
        match self {
            RepropagateKind::Interests => "interests"@,
            RepropagateKind::Subscribers => "subscribers"@,
            RepropagateKind::Queryables => "queryables"@,
            RepropagateKind::Tokens => "tokens"@,
            RepropagateKind::DisableAllRoutes => "disable_all_routes"@,
        }
    }

    /// The name of this kind in a metric line.
    pub fn name(self) -> (name: &'static str)
        ensures
            name@ == self.label(),
    {
        match self {
            RepropagateKind::Interests => "interests",
            RepropagateKind::Subscribers => "subscribers",
            RepropagateKind::Queryables => "queryables",
            RepropagateKind::Tokens => "tokens",
            RepropagateKind::DisableAllRoutes => "disable_all_routes",
        }
    }
}

impl RepropagateSubsStep {
    /// The index of this place in the counters.
    pub open spec fn ordinal(self) -> int {
        match self {
            RepropagateSubsStep::ContainsCheck => 0,
            RepropagateSubsStep::ShouldNotifyCompute => 1,
            RepropagateSubsStep::InsertSimpleResource => 2,
            RepropagateSubsStep::DeclKeyAndSend => 3,
        }
    }

    /// The index of this place in the counters.
    pub fn index(self) -> (i: usize)
        ensures
            i == self.ordinal(),
            i < RPS_STEP_COUNT,
    {
        match self {
            RepropagateSubsStep::ContainsCheck => 0,
            RepropagateSubsStep::ShouldNotifyCompute => 1,
            RepropagateSubsStep::InsertSimpleResource => 2,
            RepropagateSubsStep::DeclKeyAndSend => 3,
        }
    }

    /// The step of index `i`.
    pub open spec fn nth(i: int) -> Self {
        if i == 0 {
            RepropagateSubsStep::ContainsCheck
        } else if i == 1 {
            RepropagateSubsStep::ShouldNotifyCompute
        } else if i == 2 {
            RepropagateSubsStep::InsertSimpleResource
        } else {
            RepropagateSubsStep::DeclKeyAndSend
        }
    }

    /// The step of this index.
    pub fn at(i: usize) -> (step: Self)
        requires
            i < RPS_STEP_COUNT,
        ensures
            step == Self::nth(i as int),
            step.ordinal() == i,
    {
        match i {
            0 => RepropagateSubsStep::ContainsCheck,
            1 => RepropagateSubsStep::ShouldNotifyCompute,
            2 => RepropagateSubsStep::InsertSimpleResource,
            _ => RepropagateSubsStep::DeclKeyAndSend,
        }
    }

    /// The name in a metric line.
    pub open spec fn label(self) -> Seq<char> {
        match self {
            RepropagateSubsStep::ContainsCheck => "contains_check"@,
            RepropagateSubsStep::ShouldNotifyCompute => "should_notify_compute"@,
            RepropagateSubsStep::InsertSimpleResource => "insert_simple_resource"@,
            RepropagateSubsStep::DeclKeyAndSend => "decl_key_and_send"@,
        }
    }

    /// The name of this step in a metric line.
    pub fn name(self) -> (name: &'static str)
        ensures
            name@ == self.label(),
    {
        match self {
            RepropagateSubsStep::ContainsCheck => "contains_check",
            RepropagateSubsStep::ShouldNotifyCompute => "should_notify_compute",
            RepropagateSubsStep::InsertSimpleResource => "insert_simple_resource",
            RepropagateSubsStep::DeclKeyAndSend => "decl_key_and_send",
        }
    }
}

/// A site of the write lock has an index of its own, is found again by it, and has a name of its own.
pub proof fn wtable_sites_are_told_apart(a: WTableSite, b: WTableSite, i: int)
    ensures
        0 <= a.ordinal() < 5,
        WTableSite::nth(a.ordinal()) == a,
        0 <= i < 5 ==> WTableSite::nth(i).ordinal() == i,
        a.ordinal() == b.ordinal() ==> a == b,
        a.label() == b.label() ==> a == b,
{
    reveal_strlit("peer_init");
    reveal_strlit("declare_final");
    reveal_strlit("register_expr");
    reveal_strlit("interest_final");
    reveal_strlit("send_close");
    if a.label() == b.label() {
        assert(a.label().len() == b.label().len());
        assert(a.label()[0] == b.label()[0]);
    }
}

/// A site of the control lock has an index of its own, is found again by it, and has a name of its own.
pub proof fn ctrl_lock_sites_are_told_apart(a: CtrlLockSite, b: CtrlLockSite, i: int)
    ensures
        0 <= a.ordinal() < 6,
        CtrlLockSite::nth(a.ordinal()) == a,
        0 <= i < 6 ==> CtrlLockSite::nth(i).ordinal() == i,
        a.ordinal() == b.ordinal() ==> a == b,
        a.label() == b.label() ==> a == b,
{
    reveal_strlit("new_session");
    reveal_strlit("new_transport_unicast");
    reveal_strlit("send_interest");
    reveal_strlit("send_declare");
    reveal_strlit("send_close");
    reveal_strlit("other");
    if a.label() == b.label() {
        assert(a.label().len() == b.label().len());
        assert(a.label()[0] == b.label()[0]);
    }
}

/// A kind of repropagation has an index of its own, is found again by it, and has a name of its own.
pub proof fn repropagate_kinds_are_told_apart(a: RepropagateKind, b: RepropagateKind, i: int)
    ensures
        0 <= a.ordinal() < 5,
        RepropagateKind::nth(a.ordinal()) == a,
        0 <= i < 5 ==> RepropagateKind::nth(i).ordinal() == i,
        a.ordinal() == b.ordinal() ==> a == b,
        a.label() == b.label() ==> a == b,
{
    reveal_strlit("interests");
    reveal_strlit("subscribers");
    reveal_strlit("queryables");
    reveal_strlit("tokens");
    reveal_strlit("disable_all_routes");
    if a.label() == b.label() {
        assert(a.label().len() == b.label().len());
        assert(a.label()[0] == b.label()[0]);
    }
}

/// A step of the repropagation of subscribers has an index of its own, is found again by it, and has a name of its own.
pub proof fn repropagate_steps_are_told_apart(a: RepropagateSubsStep, b: RepropagateSubsStep, i: int)
    ensures
        0 <= a.ordinal() < 4,
        RepropagateSubsStep::nth(a.ordinal()) == a,
        0 <= i < 4 ==> RepropagateSubsStep::nth(i).ordinal() == i,
        a.ordinal() == b.ordinal() ==> a == b,
        a.label() == b.label() ==> a == b,
{
    reveal_strlit("contains_check");
    reveal_strlit("should_notify_compute");
    reveal_strlit("insert_simple_resource");
    reveal_strlit("decl_key_and_send");
    if a.label() == b.label() {
        assert(a.label().len() == b.label().len());
        assert(a.label()[0] == b.label()[0]);
    }
}

} // verus!
