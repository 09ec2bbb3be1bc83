//! Players: identity, connection states and reasons for leaving.

use vstd::prelude::*;
use crate::ident;
use crate::ident::IdentifierError;
use crate::server::ServerId;
use crate::spatial::WorldCoordinate;
use crate::time::Timestamp;

verus! {

/// Identifier of a player: a 128-bit universally unique identifier.
///
/// Its text form is the hyphenated lower-case one. An identifier that
/// [`PlayerId::to_string`] prints and [`PlayerId::from_str`] reads again is
/// the same identifier.
#[derive(Debug, Clone, Copy, PartialEq, Eq, Hash, Structural)]
pub struct PlayerId(pub u128);

impl PlayerId {
    /// What reading a text gives, from what the parser made of it.
    pub open spec fn read(parsed: Option<u128>) -> Result<PlayerId, IdentifierError> {
        match ident::reading(parsed) {
            Ok(bits) => Ok(PlayerId(bits)),
            Err(e) => Err(e),
        }
    }

    /// Draws a fresh random identifier.
    pub fn new() -> (id: Self)
        ensures
            ident::is_random(id.0),
    {
        PlayerId(ident::fresh())
    }

    /// Reads an identifier from its text. Any form that the `uuid` crate
    /// writes is accepted; any other text is malformed.
    pub fn from_str(s: &str) -> (r: Result<Self, IdentifierError>)
        ensures
            r == Self::read(ident::parsed(s@)),
    {
        match ident::settle(ident::parse(s)) {
            Ok(bits) => Ok(PlayerId(bits)),
            Err(e) => Err(e),
        }
    }

    /// The hyphenated lower-case text of the identifier. Reading the text
    /// gives the identifier back.
    pub fn to_string(&self) -> (s: String)
        ensures
            s@ == ident::hyphenated(self.0),
            Self::read(ident::parsed(s@)) == Ok::<PlayerId, IdentifierError>(*self),
    {
        ident::to_text(self.0)
    }
}

impl Default for PlayerId {
    /// A fresh random identifier.
    fn default() -> (id: Self)
        ensures
            ident::is_random(id.0),
    {
        PlayerId::new()
    }
}

/// Whether a player has proved who they are.
#[derive(Debug, Clone, Copy, PartialEq, Eq, Structural)]
pub enum AuthenticationStatus {
    /// Not authenticated.
    Unauthenticated,
    /// Authentication is under way.
    Authenticating,
    /// Authenticated.
    Authenticated,
    /// Authentication failed.
    AuthenticationFailed,
}

impl Default for AuthenticationStatus {
    fn default() -> (s: Self)
        ensures
            s == AuthenticationStatus::Unauthenticated,
    {
        AuthenticationStatus::Unauthenticated
    }
}

/// Where a player's connection stands.
#[derive(Debug, Clone, Copy, PartialEq, Eq, Structural)]
pub enum ConnectionState {
    /// Connecting.
    Connecting,
    /// Connected and active.
    Connected,
    /// Being handed to another server.
    Transferring,
    /// Disconnecting.
    Disconnecting,
    /// Disconnected.
    Disconnected,
}

impl Default for ConnectionState {
    fn default() -> (s: Self)
        ensures
            s == ConnectionState::Connecting,
    {
        ConnectionState::Connecting
    }
}

/// What the proxy tracks of a player.
#[derive(Debug, Clone)]
pub struct PlayerInfo {
    /// The player.
    pub id: PlayerId,
    /// Display name.
    pub name: String,
    /// Whether the player has proved who they are.
    pub auth_status: AuthenticationStatus,
    /// Where the connection stands.
    pub connection_state: ConnectionState,
    /// The server the player is connected to, if any.
    pub current_server: Option<ServerId>,
    /// Last known position.
    pub last_position: WorldCoordinate,
    /// When the position was last reported.
    pub last_updated: Timestamp,
}

impl PlayerInfo {
    /// What [`PlayerInfo::new`] fills in, but for the time: a player who is
    /// unauthenticated, connecting, on no server and at the origin.
    pub open spec fn is_newcomer(self, id: PlayerId, name: String) -> bool {
        &&& self.id == id
        &&& self.name == name
        &&& self.auth_status == AuthenticationStatus::Unauthenticated
        &&& self.connection_state == ConnectionState::Connecting
        &&& self.current_server is None
        &&& self.last_position == (WorldCoordinate { x: 0, y: 0, z: 0 })
    }

    /// The record with a new position and the time of its report; nothing
    /// else changes.
    pub open spec fn moved(self, position: WorldCoordinate, now: Timestamp) -> PlayerInfo {
        PlayerInfo { last_position: position, last_updated: now, ..self }
    }

    /// The record of a player who appeared at `now`.
    pub fn new_at(id: PlayerId, name: String, now: Timestamp) -> (info: Self)
        ensures
            info.is_newcomer(id, name),
            info.last_updated == now,
    {
        PlayerInfo {
            id,
            name,
            auth_status: AuthenticationStatus::Unauthenticated,
            connection_state: ConnectionState::Connecting,
            current_server: None,
            last_position: WorldCoordinate::zero(),
            last_updated: now,
        }
    }

    /// The record of a player who has just appeared.
    pub fn new(id: PlayerId, name: String) -> (info: Self)
        ensures
            info.is_newcomer(id, name),
    {
        Self::new_at(id, name, Timestamp::now())
    }

    /// Records a position reported at `now`.
    pub fn update_position_at(&mut self, position: WorldCoordinate, now: Timestamp)
        ensures
            *final(self) == old(self).moved(position, now),
    {
        self.last_position = position;
        self.last_updated = now;
    }

    /// Records a position, as of now.
    pub fn update_position(&mut self, position: WorldCoordinate)
        ensures
            *final(self) == old(self).moved(position, final(self).last_updated),
    {
        self.update_position_at(position, Timestamp::now());
    }
}

/// Why a player was disconnected.
#[derive(Debug, Clone)]
pub enum DisconnectReason {
    /// The player left.
    ClientDisconnect,
    /// The connection timed out.
    Timeout,
    /// The server is shutting down.
    ServerShutdown,
    /// The player was removed.
    Kicked { reason: String },
    /// The player was handed to another server.
    Transfer { target_server: ServerId },
    /// Something failed.
    Error { message: String },
}

} // verus!
