//! Server identity and lifecycle.

use vstd::prelude::*;
use vstd::std_specs::cmp::PartialEqSpecImpl;
use vstd::std_specs::convert::FromSpecImpl;
use crate::ident;
use crate::ident::IdentifierError;
use crate::spatial::RegionCoordinate;

verus! {

/// Identifier of one hosting server, kept as text so that it can travel in
/// any message unchanged.
#[derive(Debug, Hash)]
pub struct ServerId(pub String);

impl View for ServerId {
    type V = Seq<char>;

    open spec fn view(&self) -> Seq<char> {
        self.0@
    }
}

impl ServerId {
    /// Creates a fresh identifier: the hyphenated text of a randomly drawn
    /// 128-bit value.
    pub fn new() -> (id: Self)
        ensures
            exists|bits: u128| ident::is_random(bits) && id@ == ident::hyphenated(bits),
            id@.len() == 36,
    {
        let bits: u128 = ident::fresh();
        Self::from_uuid_bits(bits)
    }

    /// The identifier whose text is the hyphenated form of `bits`. Reading
    /// it with [`ServerId::uuid_bits`] gives `bits` back.
    pub fn from_uuid_bits(bits: u128) -> (id: Self)
        ensures
            id@ == ident::hyphenated(bits),
            ident::reading(ident::parsed(id@)) == Ok::<u128, IdentifierError>(bits),
    {
        ServerId(ident::to_text(bits))
    }

    /// The 128-bit identifier that the text spells, where it spells one.
    ///
    /// Text in any form that the `uuid` crate writes is accepted, so two
    /// texts may spell one identifier; only the hyphenated lower-case form
    /// comes back unchanged from [`ServerId::from_uuid_bits`].
    pub fn uuid_bits(&self) -> (r: Result<u128, IdentifierError>)
        ensures
            r == ident::reading(ident::parsed(self@)),
    {
        ident::settle(ident::parse(self.0.as_str()))
    }

    /// Creates an identifier from its text.
    pub fn from_string(s: &str) -> (id: Self)
        ensures
            id@ == s@,
    {
        ServerId(s.to_owned())
    }

    /// The text of the identifier.
    pub fn as_str(&self) -> (s: &str)
        ensures
            s@ == self@,
    {
        self.0.as_str()
    }

    /// The text of the identifier, as an owned string.
    pub fn to_string(&self) -> (s: String)
        ensures
            s@ == self@,
    {
        self.0.clone()
    }
}

impl Clone for ServerId {
    fn clone(&self) -> (r: Self)
        ensures
            r == *self,
    {
        ServerId(self.0.clone())
    }
}

impl PartialEq for ServerId {
    fn eq(&self, other: &Self) -> (r: bool) {
        self.0 == other.0
    }
}

impl Eq for ServerId {

}

impl PartialEqSpecImpl for ServerId {
    open spec fn obeys_eq_spec() -> bool {
        true
    }

    open spec fn eq_spec(&self, other: &Self) -> bool {
        self@ == other@
    }
}

impl Default for ServerId {
    /// The empty identifier.
    fn default() -> (id: Self)
        ensures
            id@ == Seq::<char>::empty(),
    {
        ServerId(String::new())
    }
}

impl From<String> for ServerId {
    fn from(s: String) -> (id: Self) {
        ServerId(s)
    }
}

impl FromSpecImpl<String> for ServerId {
    open spec fn obeys_from_spec() -> bool {
        true
    }

    open spec fn from_spec(s: String) -> Self {
        ServerId(s)
    }
}

impl<'a> From<&'a str> for ServerId {
    fn from(s: &'a str) -> (id: Self)
        ensures
            id@ == s@,
    {
        ServerId(s.to_owned())
    }
}

impl<'a> FromSpecImpl<&'a str> for ServerId {
    /// A string slice has no owned counterpart in specifications; the
    /// conversion is described by the postcondition of `from` instead.
    open spec fn obeys_from_spec() -> bool {
        false
    }

    open spec fn from_spec(s: &'a str) -> Self {
        arbitrary()
    }
}

/// Where a server stands in its life.
///
/// A server starts in `Starting`, becomes `Running` once its registration is
/// acknowledged, is put into `Draining` by an administrative shutdown
/// request and ends in `Stopped`. A fatal fault takes it from any other
/// state to `Error`. `Stopped` and `Error` are left only by registering
/// anew.
#[derive(Debug, Clone, Copy, PartialEq, Eq, Structural)]
pub enum ServerStatus {
    /// Starting up; not yet registered.
    Starting,
    /// Running and accepting connections.
    Running,
    /// Serving the players it has, accepting no new ones.
    Draining,
    /// Stopped.
    Stopped,
    /// Failed.
    Error,
}

impl Default for ServerStatus {
    fn default() -> (s: Self)
        ensures
            s == ServerStatus::Starting,
    {
        ServerStatus::Starting
    }
}

impl ServerStatus {
    /// The lifecycle's transition relation.
    pub open spec fn may_become(self, next: ServerStatus) -> bool {
        match (self, next) {
            (ServerStatus::Starting, ServerStatus::Running) => true,
            (ServerStatus::Running, ServerStatus::Draining) => true,
            (ServerStatus::Draining, ServerStatus::Stopped) => true,
            (ServerStatus::Error, _) => false,
            (_, ServerStatus::Error) => true,
            _ => false,
        }
    }

    /// A server admits new players only while it is running.
    pub open spec fn admits_players(self) -> bool {
        self == ServerStatus::Running
    }

    /// Whether the lifecycle allows a step from `self` to `next`.
    pub fn can_transition_to(&self, next: ServerStatus) -> (b: bool)
        ensures
            b == self.may_become(next),
    {
        match (*self, next) {
            (ServerStatus::Starting, ServerStatus::Running) => true,
            (ServerStatus::Running, ServerStatus::Draining) => true,
            (ServerStatus::Draining, ServerStatus::Stopped) => true,
            (ServerStatus::Error, _) => false,
            (_, ServerStatus::Error) => true,
            _ => false,
        }
    }

    /// Whether a server in this state may be given new players.
    pub fn accepts_new_players(&self) -> (b: bool)
        ensures
            b == self.admits_players(),
    {
        matches!(*self, ServerStatus::Running)
    }
}

/// Lifecycle law: no step leaves `Error`, the only step out of `Stopped`
/// leads to `Error`, no state steps to itself, and `Starting` is never
/// entered again.
pub proof fn lemma_lifecycle(from: ServerStatus, to: ServerStatus)
    ensures
        from == ServerStatus::Error ==> !from.may_become(to),
        from == ServerStatus::Stopped && from.may_become(to) ==> to == ServerStatus::Error,
        !from.may_become(from),
        !from.may_become(ServerStatus::Starting),
        from != ServerStatus::Error ==> from.may_become(ServerStatus::Error),
        from.may_become(to) && to.admits_players() ==> from == ServerStatus::Starting,
{
}

/// What the orchestrator answers after it was asked to spawn a server.
#[derive(Debug, Clone)]
pub struct SpawnServerResponse {
    /// Whether the instance was spawned.
    pub success: bool,
    /// Identifier of the container or instance.
    pub instance_id: String,
    /// Address of the server once it runs.
    pub address: Option<String>,
    /// What went wrong, if anything did.
    pub error: Option<String>,
}

/// A neighbouring server as the proxy lists it for a registering server.
#[derive(Debug, Clone)]
pub struct AdjacentServerInfo {
    pub server_id: String,
    pub address: String,
    pub region_coord: RegionCoordinate,
}

/// What the proxy answers to a registration, in the flat form.
#[derive(Debug, Clone)]
pub struct ApiRegistrationResponse {
    pub success: bool,
    pub server_id: String,
    pub message: String,
    pub heartbeat_interval_secs: u32,
    pub adjacent_servers: Vec<AdjacentServerInfo>,
}

} // verus!
