//! Reaching a listener: the tests that a client makes before it connects, and the waits and
//! timeouts on the way.

use crate::delivery::{participants_fault, require_conversation_participants, DeliveryError};
use crate::identity::RoutePolicy;
use crate::ids::{AccountId, DeviceId};
use crate::text::{decimal, push_decimal};
use crate::ticket::{ConnectionTicket, TicketError};
use crate::time::TimeSpan;
use vstd::prelude::*;

verus! {

/// Why a client does not reach a listener.
#[derive(Clone, Copy, Debug, PartialEq, Eq, Structural)]
pub enum ClientError {
    Ticket { error: TicketError },
    Parties { fault: DeliveryError },
    RelayWaitMissing,
    RelayOffline,
}

/// What a client is doing until a listener has authorized it.
#[derive(Clone, Copy, Debug, PartialEq, Eq, Structural)]
pub enum ClientPhase {
    /// Observe the listener's prekey directory, which refuses an older one.
    ObservingDirectory,
    /// Pin the listener's authority snapshot, which refuses an older one.
    PinningAuthority,
    /// Verify both devices' authorization and the conversation's participants.
    CheckingParties,
    /// Wait for a relay, which the route policy requires.
    WaitingForRelay,
    /// Connect, wait for a path of the route policy, and ask for authorization.
    Connecting,
    /// The listener has authorized this device.
    Ready,
    /// Something failed.
    Failed { error: ClientError },
    /// Something outside failed.
    Broken,
}

/// What happened.
#[derive(Clone, Copy, Debug, PartialEq, Eq, Structural)]
pub enum ClientEvent {
    DirectoryObserved,
    AuthorityPinned,
    RelayWaited { online: bool },
    Authorized,
    OutsideFailure,
}

/// What was verified of the two devices.
#[derive(Clone, Copy, Debug, PartialEq, Eq, Structural)]
pub struct PartyChecks {
    pub listener_authorized: bool,
    pub requester_authorized: bool,
}

/// A client on its way to a listener.
#[derive(Clone, Copy, Debug, PartialEq, Eq, Structural)]
pub struct ClientSession {
    pub route_policy: RoutePolicy,
    pub listener_device_id: DeviceId,
    pub phase: ClientPhase,
}

/// The first reason for which the two devices may not talk in a conversation.
pub open spec fn parties_fault(
    ticket: ConnectionTicket,
    checks: PartyChecks,
    members: Seq<AccountId>,
    requester_account_id: AccountId,
    listener_account_id: AccountId,
) -> Option<ClientError> {
    match ticket.fault() {
        Some(error) => Some(ClientError::Ticket { error }),
        None => if !checks.listener_authorized {
            Some(ClientError::Ticket { error: TicketError::ListenerUnauthorized })
        } else if !checks.requester_authorized {
            Some(ClientError::Parties { fault: DeliveryError::RequesterUnauthorized })
        } else {
            match participants_fault(members, requester_account_id, listener_account_id) {
                Some(fault) => Some(ClientError::Parties { fault }),
                None => None,
            }
        },
    }
}

impl ClientSession {
    /// The same session in another phase.
    pub open spec fn at(self, phase: ClientPhase) -> ClientSession {
        ClientSession { phase, ..self }
    }

    /// What follows an event.
    pub open spec fn next(self, event: ClientEvent) -> ClientSession {
        match (self.phase, event) {
            (ClientPhase::Ready, _) => self,
            (ClientPhase::Failed { .. }, _) => self,
            (ClientPhase::Broken, _) => self,
            (ClientPhase::ObservingDirectory, ClientEvent::DirectoryObserved) => self.at(
                ClientPhase::PinningAuthority,
            ),
            (ClientPhase::PinningAuthority, ClientEvent::AuthorityPinned) => self.at(
                ClientPhase::CheckingParties,
            ),
            (ClientPhase::WaitingForRelay, ClientEvent::RelayWaited { online }) => if online {
                self.at(ClientPhase::Connecting)
            } else {
                self.at(ClientPhase::Failed { error: ClientError::RelayOffline })
            },
            (ClientPhase::Connecting, ClientEvent::Authorized) => self.at(ClientPhase::Ready),
            _ => self.at(ClientPhase::Broken),
        }
    }

    /// Starts with a ticket: `authority_verified` tells whether its authority snapshot was
    /// verified for the expected account.
    pub fn start(ticket: &ConnectionTicket, authority_verified: bool) -> (r: ClientSession)
        ensures
            r.route_policy == ticket.content.route_policy,
            r.listener_device_id == ticket.content.listener_certificate.device_id,
            r.phase == match ticket.fault() {
                Some(error) => ClientPhase::Failed { error: ClientError::Ticket { error } },
                None => if authority_verified {
                    ClientPhase::ObservingDirectory
                } else {
                    ClientPhase::Failed {
                        error: ClientError::Ticket {
                            error: TicketError::ListenerOfAnotherAccount,
                        },
                    }
                },
            },
    {
        let phase = match ticket.verify_listener_account(authority_verified) {
            Ok(()) => ClientPhase::ObservingDirectory,
            Err(error) => ClientPhase::Failed { error: ClientError::Ticket { error } },
        };
        ClientSession {
            route_policy: ticket.content.route_policy,
            listener_device_id: ticket.listener_device_id(),
            phase,
        }
    }

    /// Tests the two parties, once the listener's directory and authority were recorded.
    pub fn check_parties(
        &mut self,
        ticket: &ConnectionTicket,
        checks: PartyChecks,
        members: &[AccountId],
        requester_account_id: AccountId,
        listener_account_id: AccountId,
    )
        ensures
            *final(self) == if old(self).phase == ClientPhase::CheckingParties {
                match parties_fault(
                    *ticket,
                    checks,
                    members@,
                    requester_account_id,
                    listener_account_id,
                ) {
                    Some(error) => old(self).at(ClientPhase::Failed { error }),
                    None => if old(self).route_policy == RoutePolicy::RelayOnly {
                        old(self).at(ClientPhase::WaitingForRelay)
                    } else {
                        old(self).at(ClientPhase::Connecting)
                    },
                }
            } else {
                *old(self)
            },
    {
        if self.phase != ClientPhase::CheckingParties {
            return;
        }
        if let Err(error) = ticket.verify_listener_authorization(checks.listener_authorized) {
            self.phase = ClientPhase::Failed { error: ClientError::Ticket { error } };
            return;
        }
        if !checks.requester_authorized {
            self.phase =
            ClientPhase::Failed {
                error: ClientError::Parties { fault: DeliveryError::RequesterUnauthorized },
            };
            return;
        }
        if let Err(fault) = require_conversation_participants(
            members,
            requester_account_id,
            listener_account_id,
        ) {
            self.phase = ClientPhase::Failed { error: ClientError::Parties { fault } };
            return;
        }
        if self.route_policy == RoutePolicy::RelayOnly {
            self.phase = ClientPhase::WaitingForRelay;
        } else {
            self.phase = ClientPhase::Connecting;
        }
    }

    /// Takes an event.
    pub fn proceed(&mut self, event: ClientEvent)
        ensures
            *final(self) == old(self).next(event),
    {
        match (self.phase, event) {
            (ClientPhase::Ready, _) => {},
            (ClientPhase::Failed { .. }, _) => {},
            (ClientPhase::Broken, _) => {},
            (ClientPhase::ObservingDirectory, ClientEvent::DirectoryObserved) => {
                self.phase = ClientPhase::PinningAuthority;
            },
            (ClientPhase::PinningAuthority, ClientEvent::AuthorityPinned) => {
                self.phase = ClientPhase::CheckingParties;
            },
            (ClientPhase::WaitingForRelay, ClientEvent::RelayWaited { online }) => {
                if online {
                    self.phase = ClientPhase::Connecting;
                } else {
                    self.phase = ClientPhase::Failed { error: ClientError::RelayOffline };
                }
            },
            (ClientPhase::Connecting, ClientEvent::Authorized) => {
                self.phase = ClientPhase::Ready;
            },
            _ => {
                self.phase = ClientPhase::Broken;
            },
        }
    }
}

/// A client that waits for a relay, connects or is ready got there only through its tests: no
/// event leads there from an earlier phase, and only a relay that came online from the wait.
pub proof fn client_connects_only_after_tests(session: ClientSession, event: ClientEvent)
    requires
        session.next(event).phase != session.phase,
    ensures
        session.next(event).phase != ClientPhase::WaitingForRelay,
        session.next(event).phase == ClientPhase::Connecting ==> session.phase
            == ClientPhase::WaitingForRelay && event == (ClientEvent::RelayWaited {
            online: true,
        }),
        session.next(event).phase == ClientPhase::Ready ==> session.phase
            == ClientPhase::Connecting,
        session.next(event).phase == ClientPhase::CheckingParties ==> session.phase
            == ClientPhase::PinningAuthority,
{
}

/// What waiting for a relay comes to.
#[derive(Clone, Copy, Debug, PartialEq, Eq, Structural)]
pub enum RelayStatus {
    Skipped,
    Online,
    TimedOut,
}

/// Whether to wait for a relay at all: a wait of zero seconds is allowed unless the route
/// policy requires a relay.
pub fn relay_wait_needed(route_policy: RoutePolicy, relay_wait_seconds: u64) -> (r: Result<
    bool,
    ClientError,
>)
    ensures
        r == if relay_wait_seconds > 0 {
            Ok::<bool, ClientError>(true)
        } else if route_policy == RoutePolicy::RelayOnly {
            Err(ClientError::RelayWaitMissing)
        } else {
            Ok(false)
        },
{
    if relay_wait_seconds > 0 {
        Ok(true)
    } else if route_policy == RoutePolicy::RelayOnly {
        Err(ClientError::RelayWaitMissing)
    } else {
        Ok(false)
    }
}

/// What waiting for a relay comes to, given whether it came online in time.
pub fn wait_for_relay(route_policy: RoutePolicy, relay_wait_seconds: u64, online: bool) -> (r: Result<
    RelayStatus,
    ClientError,
>)
    ensures
        r == if relay_wait_seconds == 0 {
            if route_policy == RoutePolicy::RelayOnly {
                Err(ClientError::RelayWaitMissing)
            } else {
                Ok(RelayStatus::Skipped)
            }
        } else if online {
            Ok(RelayStatus::Online)
        } else if route_policy == RoutePolicy::RelayOnly {
            Err(ClientError::RelayOffline)
        } else {
            Ok(RelayStatus::TimedOut)
        },
{
    match relay_wait_needed(route_policy, relay_wait_seconds) {
        Err(error) => Err(error),
        Ok(false) => Ok(RelayStatus::Skipped),
        Ok(true) => if online {
            Ok(RelayStatus::Online)
        } else if route_policy == RoutePolicy::RelayOnly {
            Err(ClientError::RelayOffline)
        } else {
            Ok(RelayStatus::TimedOut)
        },
    }
}

/// The longest time that is told to the nearest tenth of a second: beyond it, a time in seconds as
/// a 64-bit binary fraction is no longer sharp enough.
pub const MAX_TOLD_SECONDS: u64 = 8_388_607;

/// What is said of an operation that did not finish in time, with the time to the nearest tenth
/// of a second. A time right between two tenths is left out: its binary fraction lies above it or
/// below, and is rounded accordingly.
pub fn timeout_message(operation: &str, duration: TimeSpan) -> (r: String)
    requires
        duration.nanos <= MAX_TOLD_SECONDS * 1_000_000_000,
        duration.nanos % 100_000_000 != 50_000_000,
    ensures
        ({
            let tenths = (duration.nanos + 50_000_000) / 100_000_000;
            r@ == operation@ + " timed out after "@ + decimal((tenths / 10) as nat) + "."@ + decimal(
                (tenths % 10) as nat,
            ) + "s"@
        }),
{
    let tenths: u64 = ((duration.nanos + 50_000_000) / 100_000_000) as u64;
    let mut message = String::from_str(operation);
    message.append(" timed out after ");
    push_decimal(&mut message, tenths / 10);
    message.append(".");
    push_decimal(&mut message, tenths % 10);
    message.append("s");
    message
}

/// Both parties are fit to go on exactly where the ticket is sound, both devices are authorized,
/// and both accounts are members. The first of these that fails names the error.
pub proof fn fit_parties_meet_every_condition(
    ticket: ConnectionTicket,
    checks: PartyChecks,
    members: Seq<AccountId>,
    requester_account_id: AccountId,
    listener_account_id: AccountId,
)
    ensures
        ({
            let fault = parties_fault(
                ticket,
                checks,
                members,
                requester_account_id,
                listener_account_id,
            );
            let sound = ticket.fault() is None;
            let listener = checks.listener_authorized;
            let requester = checks.requester_authorized;
            let own_member = members.contains(requester_account_id);
            let other_member = members.contains(listener_account_id);
            &&& !sound ==> fault == Some(ClientError::Ticket { error: ticket.fault()->0 })
            &&& sound && !listener ==> fault == Some(
                ClientError::Ticket { error: TicketError::ListenerUnauthorized },
            )
            &&& sound && listener && !requester ==> fault == Some(
                ClientError::Parties { fault: DeliveryError::RequesterUnauthorized },
            )
            &&& sound && listener && requester && !own_member ==> fault == Some(
                ClientError::Parties { fault: DeliveryError::LocalNotAMember },
            )
            &&& sound && listener && requester && own_member && !other_member ==> fault == Some(
                ClientError::Parties { fault: DeliveryError::PeerNotAMember },
            )
            &&& fault is None <==> sound && listener && requester && own_member && other_member
        }),
{
}

/// A client goes on exactly where the step before went well, and stops where no relay is online.
/// Anything out of place breaks it off, and an end is an end.
pub proof fn client_goes_step_by_step(session: ClientSession, event: ClientEvent)
    ensures
        ({
            let (before, after) = (session.phase, session.next(event).phase);
            let ended = before == ClientPhase::Ready || before is Failed || before
                == ClientPhase::Broken;
            &&& ended ==> session.next(event) == session
            &&& !ended ==> {
                &&& after == ClientPhase::PinningAuthority <==> before
                    == ClientPhase::ObservingDirectory && event == ClientEvent::DirectoryObserved
                &&& after == ClientPhase::CheckingParties <==> before
                    == ClientPhase::PinningAuthority && event == ClientEvent::AuthorityPinned
                &&& after == ClientPhase::Connecting <==> before == ClientPhase::WaitingForRelay
                    && event == (ClientEvent::RelayWaited { online: true })
                &&& after is Failed <==> before == ClientPhase::WaitingForRelay && event == (
                ClientEvent::RelayWaited { online: false })
                &&& after is Failed ==> after->error == ClientError::RelayOffline
                &&& after == ClientPhase::Ready <==> before == ClientPhase::Connecting && event
                    == ClientEvent::Authorized
                &&& after != ClientPhase::ObservingDirectory && after
                    != ClientPhase::WaitingForRelay
            }
            &&& session.next(event).route_policy == session.route_policy
            &&& session.next(event).listener_device_id == session.listener_device_id
        }),
{
}

} // verus!
