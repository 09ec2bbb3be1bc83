//! Handing a player from one server to the server of an adjacent region.
//!
//! The proxy authorizes a hand-off by issuing a [`TransferToken`] that names
//! the player and the destination. The destination redeems the token once;
//! the proxy's [`Transfer`] record says at every moment which of the two
//! servers holds the player.

use vstd::prelude::*;
use crate::ident;
use crate::player::{DisconnectReason, PlayerId};
use crate::server::{ServerId, ServerStatus};
use crate::spatial::RegionCoordinate;
use crate::time::Timestamp;

verus! {

/// Why a hand-off, or a step of it, was refused.
#[derive(Debug, Clone, Copy, PartialEq, Eq, Structural)]
pub enum TransferError {
    /// The token was redeemed before.
    TokenAlreadyUsed,
    /// The token names another server than the one that presented it.
    WrongServer,
    /// The token's time is over.
    TokenExpired,
    /// The destination is not running.
    TargetUnavailable,
    /// The destination has no room for another player.
    TargetFull,
    /// The hand-off was cancelled.
    Cancelled,
}

impl TransferError {
    /// The text of the error, as a person reads it.
    pub open spec fn text(self) -> Seq<char> {
        match self {
            TransferError::TokenAlreadyUsed => "token already used"@,
            TransferError::WrongServer => "token issued for another server"@,
            TransferError::TokenExpired => "token expired"@,
            TransferError::TargetUnavailable => "target server unavailable"@,
            TransferError::TargetFull => "target server full"@,
            TransferError::Cancelled => "transfer cancelled"@,
        }
    }

    /// The text of the error.
    pub fn message(&self) -> (s: &'static str)
        ensures
            s@ == self.text(),
    {
        match self {
            TransferError::TokenAlreadyUsed => "token already used",
            TransferError::WrongServer => "token issued for another server",
            TransferError::TokenExpired => "token expired",
            TransferError::TargetUnavailable => "target server unavailable",
            TransferError::TargetFull => "target server full",
            TransferError::Cancelled => "transfer cancelled",
        }
    }
}

/// A single-use permission for one server to admit one player.
#[derive(Debug, Clone)]
pub struct TransferToken {
    /// Identifier of the token.
    pub id: String,
    /// The player it admits.
    pub player_id: PlayerId,
    /// The only server that may redeem it.
    pub destination: ServerId,
    /// When it was issued.
    pub issued_at: Timestamp,
    /// The last instant at which it can be redeemed.
    pub expires_at: Timestamp,
    /// Whether it has been redeemed.
    pub redeemed: bool,
}

impl TransferToken {
    /// What an attempt of `server` to redeem the token at `now` comes to.
    ///
    /// A token that was redeemed is refused as used, whoever presents it
    /// and whenever. Otherwise it is refused to any server but the one it
    /// names, and refused as expired once `now` is later than its expiry.
    pub open spec fn verdict(self, server: ServerId, now: Timestamp) -> Result<(), TransferError> {
        if self.redeemed {
            Err(TransferError::TokenAlreadyUsed)
        } else if server@ != self.destination@ {
            Err(TransferError::WrongServer)
        } else if now.later_than(self.expires_at) {
            Err(TransferError::TokenExpired)
        } else {
            Ok(())
        }
    }

    /// The token after such an attempt: marked as redeemed where the
    /// attempt succeeds, untouched where it does not.
    pub open spec fn after_attempt(self, server: ServerId, now: Timestamp) -> TransferToken {
        if self.verdict(server, now) is Ok {
            TransferToken { redeemed: true, ..self }
        } else {
            self
        }
    }

    /// Whether `self` is the unredeemed token with these contents, expiring
    /// `ttl_secs` after its issue.
    pub open spec fn is_issue_of(
        self,
        player_id: PlayerId,
        destination: ServerId,
        issued_at: Timestamp,
        ttl_secs: u32,
    ) -> bool {
        &&& self.player_id == player_id
        &&& self.destination == destination
        &&& self.issued_at == issued_at
        &&& self.expires_at == issued_at.after(ttl_secs)
        &&& !self.redeemed
    }

    /// Issues a token with the given identifier at `issued_at`.
    pub fn issue(
        id: String,
        player_id: PlayerId,
        destination: ServerId,
        issued_at: Timestamp,
        ttl_secs: u32,
    ) -> (token: Self)
        ensures
            token.id == id,
            token.is_issue_of(player_id, destination, issued_at, ttl_secs),
    {
        TransferToken {
            id,
            player_id,
            destination,
            issued_at,
            expires_at: issued_at.plus_seconds(ttl_secs),
            redeemed: false,
        }
    }

    /// Issues a token now, under a fresh random identifier.
    pub fn new(player_id: PlayerId, destination: ServerId, ttl_secs: u32) -> (token: Self)
        ensures
            token.is_issue_of(player_id, destination, token.issued_at, ttl_secs),
            exists|bits: u128| ident::is_random(bits) && token.id@ == ident::hyphenated(bits),
    {
        let bits: u128 = ident::fresh();
        Self::issue(ident::to_text(bits), player_id, destination, Timestamp::now(), ttl_secs)
    }

    /// Whether the token's time is over at `now`.
    pub fn is_expired(&self, now: Timestamp) -> (b: bool)
        ensures
            b == now.later_than(self.expires_at),
    {
        now.is_after(&self.expires_at)
    }

    /// Redeems the token for `server` at `now`: checks it and, where it is
    /// good, marks it as redeemed. The exclusive borrow makes the check and
    /// the mark one step: no second attempt can come between them.
    pub fn redeem(&mut self, server: &ServerId, now: Timestamp) -> (r: Result<(), TransferError>)
        ensures
            r == old(self).verdict(*server, now),
            *final(self) == old(self).after_attempt(*server, now),
    {
        if self.redeemed {
            Err(TransferError::TokenAlreadyUsed)
        } else if *server != self.destination {
            Err(TransferError::WrongServer)
        } else if now.is_after(&self.expires_at) {
            Err(TransferError::TokenExpired)
        } else {
            self.redeemed = true;
            Ok(())
        }
    }
}

/// How many of a series of attempts to redeem a token succeed.
pub open spec fn redemptions(token: TransferToken, attempts: Seq<(ServerId, Timestamp)>) -> nat
    decreases attempts.len(),
{
    if attempts.len() == 0 {
        0
    } else {
        let (server, now) = attempts.first();
        let won: nat = if token.verdict(server, now) is Ok {
            1
        } else {
            0
        };
        won + redemptions(token.after_attempt(server, now), attempts.drop_first())
    }
}

/// Redemption is idempotent: after an attempt that succeeds, every further
/// attempt, by whatever server and at whatever time, is refused as "token
/// already used" and leaves the token as it is.
pub proof fn lemma_second_redemption_fails(
    token: TransferToken,
    first: ServerId,
    first_time: Timestamp,
    second: ServerId,
    second_time: Timestamp,
)
    requires
        token.verdict(first, first_time) is Ok,
    ensures
        token.after_attempt(first, first_time).verdict(second, second_time) == Err::<
            (),
            TransferError,
        >(TransferError::TokenAlreadyUsed),
        token.after_attempt(first, first_time).after_attempt(second, second_time)
            == token.after_attempt(first, first_time),
        TransferError::TokenAlreadyUsed.text() == "token already used"@,
{
}

/// A token is redeemed at most once: of any series of attempts at most one
/// succeeds, and none does on a token that was redeemed before.
pub proof fn lemma_redeemed_at_most_once(
    token: TransferToken,
    attempts: Seq<(ServerId, Timestamp)>,
)
    ensures
        redemptions(token, attempts) <= 1,
        token.redeemed ==> redemptions(token, attempts) == 0,
    decreases attempts.len(),
{
    if attempts.len() > 0 {
        let (server, now) = attempts.first();
        lemma_redeemed_at_most_once(token.after_attempt(server, now), attempts.drop_first());
    }
}

/// A server as the proxy knows it when it looks for a destination.
#[derive(Debug, Clone)]
pub struct TransferTarget {
    /// The server.
    pub server_id: ServerId,
    /// The region it owns.
    pub region_coord: RegionCoordinate,
    /// Its lifecycle state.
    pub status: ServerStatus,
    /// Players connected to it.
    pub current_connections: u32,
    /// Players it can take.
    pub capacity: u32,
}

impl TransferTarget {
    /// Whether the server can take one more player: it has to be running
    /// and to have room.
    pub open spec fn availability(self) -> Result<(), TransferError> {
        if !self.status.admits_players() {
            Err(TransferError::TargetUnavailable)
        } else if self.current_connections >= self.capacity {
            Err(TransferError::TargetFull)
        } else {
            Ok(())
        }
    }

    /// Checks that the server can take one more player.
    pub fn check_available(&self) -> (r: Result<(), TransferError>)
        ensures
            r == self.availability(),
    {
        if !self.status.accepts_new_players() {
            Err(TransferError::TargetUnavailable)
        } else if self.current_connections >= self.capacity {
            Err(TransferError::TargetFull)
        } else {
            Ok(())
        }
    }
}

/// Whether `index` is the place of the first server in the list that owns
/// `region`.
pub open spec fn is_first_owner(servers: Seq<TransferTarget>, region: RegionCoordinate, index: int)
    -> bool {
    &&& 0 <= index < servers.len()
    &&& servers[index].region_coord == region
    &&& forall|j: int| 0 <= j < index ==> (#[trigger] servers[j]).region_coord != region
}

/// Whether no server in the list owns `region`.
pub open spec fn is_unowned(servers: Seq<TransferTarget>, region: RegionCoordinate) -> bool {
    forall|j: int| 0 <= j < servers.len() ==> (#[trigger] servers[j]).region_coord != region
}

/// Looks up the server that owns a region: the place of the first such
/// server in the list, or nothing where no server owns the region.
pub fn find_owner(servers: &[TransferTarget], region: &RegionCoordinate) -> (r: Option<usize>)
    ensures
        match r {
            Some(index) => is_first_owner(servers@, *region, index as int),
            None => is_unowned(servers@, *region),
        },
{
    let n: usize = servers.len();
    let mut i: usize = 0;
    while i < n
        invariant
            n == servers@.len(),
            i <= n,
            forall|j: int| 0 <= j < i ==> (#[trigger] servers@[j]).region_coord != *region,
        decreases n - i,
    {
        if servers[i].region_coord == *region {
            return Some(i);
        }
        i = i + 1;
    }
    None
}

/// A server's request to hand a player to the server of a neighbouring
/// region.
#[derive(Debug, Clone)]
pub struct TransferRequest {
    /// The player who nears the boundary.
    pub player_id: PlayerId,
    /// The server that holds the player.
    pub source_server: ServerId,
    /// The region the player is about to enter.
    pub target_region: RegionCoordinate,
}

/// Where a hand-off stands.
#[derive(Debug, Clone, Copy, PartialEq, Eq, Structural)]
pub enum TransferState {
    /// The token is issued and not yet redeemed.
    Pending,
    /// The destination has admitted the player.
    Completed,
    /// The hand-off failed; the player stays with the source.
    Failed(TransferError),
}

/// What the proxy tells the source once a hand-off is settled.
#[derive(Debug, Clone)]
pub enum TransferNotification {
    /// The destination holds the player: let the player go.
    Release { player_id: PlayerId, target_server: ServerId },
    /// The hand-off failed: keep the player.
    Retain { player_id: PlayerId, error: TransferError },
}

impl TransferNotification {
    /// The reason with which the source disconnects the player, where it
    /// is told to let the player go.
    pub fn disconnect_reason(&self) -> (r: Option<DisconnectReason>)
        ensures
            match *self {
                TransferNotification::Release { target_server, .. } => r matches Some(
                    DisconnectReason::Transfer { target_server: t },
                ) && t == target_server,
                TransferNotification::Retain { .. } => r is None,
            },
    {
        match self {
            TransferNotification::Release { target_server, .. } => Some(
                DisconnectReason::Transfer { target_server: target_server.clone() },
            ),
            TransferNotification::Retain { .. } => None,
        }
    }
}

/// The proxy's record of one hand-off.
#[derive(Debug, Clone)]
pub struct Transfer {
    /// The player who is handed over.
    pub player_id: PlayerId,
    /// The server that held the player when the hand-off began.
    pub source: ServerId,
    /// The token issued for the hand-off.
    pub token: TransferToken,
    /// Where the hand-off stands.
    pub state: TransferState,
}

impl Transfer {
    /// The record is consistent: the token is for this player, and it is
    /// redeemed exactly where the hand-off is completed.
    pub open spec fn well_formed(self) -> bool {
        &&& self.token.player_id == self.player_id
        &&& self.token.redeemed <==> self.state == TransferState::Completed
    }

    /// The player is with the source.
    pub open spec fn held_by_source(self) -> bool {
        self.state != TransferState::Completed
    }

    /// The player is with the destination.
    pub open spec fn held_by_destination(self) -> bool {
        self.state == TransferState::Completed
    }

    /// The server that holds the player: the destination once the hand-off
    /// is completed, the source before that and after a failure.
    pub open spec fn holder(self) -> ServerId {
        if self.state == TransferState::Completed {
            self.token.destination
        } else {
            self.source
        }
    }

    /// The record after `server` tried to redeem the token at `now`.
    ///
    /// A settled hand-off stays as it is. A pending one is completed where
    /// the token is good, fails where the token has expired, and stays
    /// pending where a server that the token does not name presented it.
    pub open spec fn after_redeem(self, server: ServerId, now: Timestamp) -> Transfer {
        if self.state != TransferState::Pending {
            self
        } else {
            match self.token.verdict(server, now) {
                Ok(_) => Transfer {
                    token: self.token.after_attempt(server, now),
                    state: TransferState::Completed,
                    ..self
                },
                Err(TransferError::WrongServer) => self,
                Err(e) => Transfer { state: TransferState::Failed(e), ..self },
            }
        }
    }

    /// What such an attempt is answered with: the error of a hand-off that
    /// failed before, "token already used" for one that is completed, else
    /// the verdict on the token.
    pub open spec fn redeem_outcome(self, server: ServerId, now: Timestamp) -> Result<
        (),
        TransferError,
    > {
        match self.state {
            TransferState::Failed(e) => Err(e),
            TransferState::Completed => Err(TransferError::TokenAlreadyUsed),
            TransferState::Pending => self.token.verdict(server, now),
        }
    }

    /// The record after the hand-off was declared failed: a pending one
    /// fails with the given error, a settled one stays as it is.
    pub open spec fn after_failure(self, error: TransferError) -> Transfer {
        if self.state == TransferState::Pending {
            Transfer { state: TransferState::Failed(error), ..self }
        } else {
            self
        }
    }

    /// Whether the hand-off is pending at `now` although its token has
    /// expired.
    pub open spec fn overdue(self, now: Timestamp) -> bool {
        self.state == TransferState::Pending && now.later_than(self.token.expires_at)
    }

    /// Begins a hand-off: where the destination can take the player, issues
    /// a token for it and records the hand-off as pending.
    pub fn begin(
        request: TransferRequest,
        target: &TransferTarget,
        token_id: String,
        now: Timestamp,
        ttl_secs: u32,
    ) -> (r: Result<Self, TransferError>)
        ensures
            match r {
                Ok(transfer) => {
                    &&& target.availability() is Ok
                    &&& transfer.player_id == request.player_id
                    &&& transfer.source == request.source_server
                    &&& transfer.state == TransferState::Pending
                    &&& transfer.token.id == token_id
                    &&& transfer.token.is_issue_of(
                        request.player_id,
                        target.server_id,
                        now,
                        ttl_secs,
                    )
                    &&& transfer.well_formed()
                    &&& transfer.holder() == request.source_server
                },
                Err(e) => target.availability() == Err::<(), TransferError>(e),
            },
    {
        match target.check_available() {
            Err(e) => Err(e),
            Ok(_) => {
                let token = TransferToken::issue(
                    token_id,
                    request.player_id,
                    target.server_id.clone(),
                    now,
                    ttl_secs,
                );
                Ok(
                    Transfer {
                        player_id: request.player_id,
                        source: request.source_server,
                        token,
                        state: TransferState::Pending,
                    },
                )
            },
        }
    }

    /// Lets `server` redeem the token at `now` and records what came of it.
    ///
    /// The player changes hands in this step or not at all: on success the
    /// destination holds the player, in every other case the holder is who
    /// it was.
    pub fn redeem(&mut self, server: &ServerId, now: Timestamp) -> (r: Result<(), TransferError>)
        ensures
            r == old(self).redeem_outcome(*server, now),
            *final(self) == old(self).after_redeem(*server, now),
            old(self).well_formed() ==> final(self).well_formed(),
            r is Ok ==> old(self).held_by_source() && final(self).held_by_destination(),
            r is Err ==> final(self).holder() == old(self).holder(),
    {
        match self.state {
            TransferState::Failed(e) => Err(e),
            TransferState::Completed => Err(TransferError::TokenAlreadyUsed),
            TransferState::Pending => {
                let r = self.token.redeem(server, now);
                match r {
                    Ok(_) => {
                        self.state = TransferState::Completed;
                    },
                    Err(TransferError::WrongServer) => {},
                    Err(e) => {
                        self.state = TransferState::Failed(e);
                    },
                }
                r
            },
        }
    }

    /// Declares a pending hand-off failed, as when the destination turns
    /// the player away; a settled one stays as it is. Says whether the
    /// hand-off was pending. The player stays where they are.
    pub fn fail(&mut self, error: TransferError) -> (failed: bool)
        ensures
            failed == (old(self).state == TransferState::Pending),
            *final(self) == old(self).after_failure(error),
            old(self).well_formed() ==> final(self).well_formed(),
            final(self).holder() == old(self).holder(),
    {
        match self.state {
            TransferState::Pending => {
                self.state = TransferState::Failed(error);
                true
            },
            _ => false,
        }
    }

    /// Cancels a pending hand-off; a settled one stays as it is. Says
    /// whether the hand-off was pending.
    pub fn cancel(&mut self) -> (cancelled: bool)
        ensures
            cancelled == (old(self).state == TransferState::Pending),
            *final(self) == old(self).after_failure(TransferError::Cancelled),
            old(self).well_formed() ==> final(self).well_formed(),
            final(self).holder() == old(self).holder(),
    {
        self.fail(TransferError::Cancelled)
    }

    /// Fails a hand-off that is still pending at `now` although its token
    /// has expired; any other stays as it is. Says whether it failed the
    /// hand-off.
    pub fn expire(&mut self, now: Timestamp) -> (expired: bool)
        ensures
            expired == old(self).overdue(now),
            *final(self) == if old(self).overdue(now) {
                old(self).after_failure(TransferError::TokenExpired)
            } else {
                *old(self)
            },
            old(self).well_formed() ==> final(self).well_formed(),
            final(self).holder() == old(self).holder(),
    {
        if self.token.is_expired(now) {
            self.fail(TransferError::TokenExpired)
        } else {
            false
        }
    }

    /// The server that holds the player.
    pub fn custodian(&self) -> (server: &ServerId)
        ensures
            *server == self.holder(),
    {
        match self.state {
            TransferState::Completed => &self.token.destination,
            _ => &self.source,
        }
    }

    /// What the source is told: nothing while the hand-off is pending, to
    /// let the player go once it is completed, to keep the player once it
    /// has failed.
    pub fn notification(&self) -> (n: Option<TransferNotification>)
        ensures
            match self.state {
                TransferState::Pending => n is None,
                TransferState::Completed => n matches Some(
                    TransferNotification::Release { player_id, target_server },
                ) && player_id == self.player_id && target_server == self.token.destination,
                TransferState::Failed(e) => n matches Some(
                    TransferNotification::Retain { player_id, error },
                ) && player_id == self.player_id && error == e,
            },
    {
        match self.state {
            TransferState::Pending => None,
            TransferState::Completed => Some(
                TransferNotification::Release {
                    player_id: self.player_id,
                    target_server: self.token.destination.clone(),
                },
            ),
            TransferState::Failed(e) => Some(
                TransferNotification::Retain { player_id: self.player_id, error: e },
            ),
        }
    }
}

/// Custody law: in every state of a hand-off the player is held by exactly
/// one of the two servers, never by both and never by neither; whatever
/// attempt to redeem follows, a player who is with the destination stays
/// there, and a player whose hand-off failed stays with the source; the
/// player moves to the destination only by a redemption that succeeds, and
/// no failure moves the player at all.
pub proof fn lemma_custody(transfer: Transfer, server: ServerId, now: Timestamp)
    requires
        transfer.well_formed(),
    ensures
        transfer.held_by_source() != transfer.held_by_destination(),
        transfer.after_redeem(server, now).well_formed(),
        transfer.after_redeem(server, now).held_by_source() != transfer.after_redeem(
            server,
            now,
        ).held_by_destination(),
        transfer.held_by_destination() ==> transfer.after_redeem(server, now) == transfer,
        transfer.state is Failed ==> transfer.after_redeem(server, now) == transfer,
        transfer.after_redeem(server, now).held_by_destination() && transfer.held_by_source()
            ==> transfer.redeem_outcome(server, now) is Ok,
        forall|error: TransferError|
            (#[trigger] transfer.after_failure(error)).holder() == transfer.holder()
                && transfer.after_failure(error).well_formed(),
{
}

} // verus!
