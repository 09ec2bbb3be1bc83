//! Shared model of a region-partitioned game-server mesh.
//!
//! Three services cooperate: region-hosting servers, a routing proxy and a
//! container orchestrator. This crate holds what all three must agree on.
//! Every function carries a contract that the verifier checks.
//!
//! - [`spatial`]: the grid of regions, adjacency, and the boxes that
//!   regions occupy.
//! - [`server`]: server identity and the lifecycle of a server.
//! - [`player`]: player identity, connection states, reasons for leaving.
//! - [`transfer`]: the hand-off of a player between two servers, by a token
//!   that is redeemed once.
//! - [`health`]: health checks, the latest check of every server, and their
//!   fold into the health of the cluster.
//! - [`messages`]: the envelope of a message and its acknowledgment.
//! - [`load`], [`time`], [`ident`], [`decimal`]: loads as fractions, points
//!   in time, identifiers and numerals as the other modules use them.
//!
//! The library computes with integers only. Where the mesh measures in
//! decimal numbers, the library either decides by their order, through
//! ranks, or carries their bit patterns untouched.

pub mod decimal;
pub mod health;
pub mod ident;
pub mod load;
pub mod messages;
pub mod player;
pub mod server;
pub mod spatial;
pub mod time;
pub mod transfer;

pub use health::{
    ClusterHealth, ComponentHealth, HealthCheck, HealthCheckRequest, HealthSnapshots, HealthStatus,
};
pub use ident::IdentifierError;
pub use load::LoadFactor;
pub use messages::{Ack, Envelope};
pub use player::{
    AuthenticationStatus, ConnectionState, DisconnectReason, PlayerId, PlayerInfo,
};
pub use server::{
    AdjacentServerInfo, ApiRegistrationResponse, ServerId, ServerStatus, SpawnServerResponse,
};
pub use spatial::{RegionBounds, RegionCoordinate, WorldCoordinate};
pub use time::Timestamp;
pub use transfer::{
    find_owner, Transfer, TransferError, TransferNotification, TransferRequest, TransferState,
    TransferTarget, TransferToken,
};
