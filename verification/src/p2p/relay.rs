//! Relay reservation state: what this node knows of its circuit-relay
//! reservations, as a client of remote relays and as a relay server.
use vstd::prelude::*;
use libp2p::{Multiaddr, PeerId};
use std::time::Instant;

verus! {

/// A reservation that a remote relay accepted for this node.
#[derive(Debug, Clone)]
pub struct ReservationInfo {
    pub relay_peer_id: PeerId,
    pub expires_at: Option<Instant>,
    pub addresses: Vec<Multiaddr>,
}

/// A reservation as mathematical values.
pub struct ReservationView {
    pub relay_peer_id: PeerId,
    pub expires_at: Option<Instant>,
    pub addresses: Seq<Multiaddr>,
}

impl View for ReservationInfo {
    type V = ReservationView;

    open spec fn view(&self) -> ReservationView {
        ReservationView {
            relay_peer_id: self.relay_peer_id,
            expires_at: self.expires_at,
            addresses: self.addresses@,
        }
    }
}

/// Where the node stands with respect to relaying.
#[derive(Debug, Clone, Copy)]
pub enum RelayState {
    Unavailable,
    ClientReserved { relay_peer_id: PeerId, expires_at: Option<Instant> },
    ServerAvailable,
}

/// What the relay client behaviour reports.
#[derive(Debug, Clone, Copy)]
pub enum RelayClientEvent {
    /// A remote relay accepted our reservation request.
    ReservationReqAccepted { relay_peer_id: PeerId, renewal: bool },
    /// An outbound circuit through a relay was established.
    OutboundCircuitEstablished { relay_peer_id: PeerId },
    /// An inbound circuit from a peer was established through a relay.
    InboundCircuitEstablished { src_peer_id: PeerId },
}

/// What the relay server behaviour reports.
#[derive(Debug, Clone, Copy)]
pub enum RelayServerEvent {
    /// We accepted a peer's reservation request.
    ReservationReqAccepted { src_peer_id: PeerId, renewed: bool },
    /// We denied a peer's reservation request.
    ReservationReqDenied { src_peer_id: PeerId },
    /// A reservation we granted timed out.
    ReservationTimedOut { src_peer_id: PeerId },
    /// Any other server occurrence (circuits, closed reservations, failures).
    Other,
}

/// One call made on a relay manager.
pub enum RelayInput {
    Client(RelayClientEvent),
    Server(RelayServerEvent),
    Release,
    Reserve(PeerId),
}

/// Tracks the node's relay state and the reservations it holds on relays.
#[derive(Debug)]
pub struct RelayManager {
    state: RelayState,
    reservations: Vec<ReservationInfo>,
}

/// A relay manager as mathematical values.
pub struct RelayManagerView {
    pub state: RelayState,
    pub reservations: Seq<ReservationView>,
}

impl View for RelayManager {
    type V = RelayManagerView;

    closed spec fn view(&self) -> RelayManagerView {
        RelayManagerView {
            state: self.state,
            reservations: self.reservations@.map_values(|r: ReservationInfo| r@),
        }
    }
}

/// A fresh reservation record for `relay_peer_id`, with no expiry and no addresses.
pub open spec fn fresh_reservation(relay_peer_id: PeerId) -> ReservationView {
    ReservationView { relay_peer_id, expires_at: None, addresses: Seq::empty() }
}

/// The manager that `new` creates.
pub open spec fn initial_relay_view() -> RelayManagerView {
    RelayManagerView { state: RelayState::Unavailable, reservations: Seq::empty() }
}

/// The effect of one relay client event.
pub open spec fn after_client_event(m: RelayManagerView, event: RelayClientEvent) -> RelayManagerView {
    match event {
        RelayClientEvent::ReservationReqAccepted { relay_peer_id, .. } => RelayManagerView {
            state: RelayState::ClientReserved { relay_peer_id, expires_at: None },
            reservations: m.reservations.push(fresh_reservation(relay_peer_id)),
        },
        _ => m,
    }
}

/// The effect of one relay server event.
pub open spec fn after_server_event(m: RelayManagerView, event: RelayServerEvent) -> RelayManagerView {
    match event {
        RelayServerEvent::ReservationReqAccepted { .. } => RelayManagerView {
            state: RelayState::ServerAvailable,
            ..m
        },
        RelayServerEvent::ReservationReqDenied { .. } => RelayManagerView {
            state: RelayState::Unavailable,
            ..m
        },
        RelayServerEvent::ReservationTimedOut { .. } => RelayManagerView {
            state: RelayState::Unavailable,
            ..m
        },
        RelayServerEvent::Other => m,
    }
}

/// The effect of one call on a relay manager.
pub open spec fn relay_step(m: RelayManagerView, input: RelayInput) -> RelayManagerView {
    match input {
        RelayInput::Client(event) => after_client_event(m, event),
        RelayInput::Server(event) => after_server_event(m, event),
        RelayInput::Release => initial_relay_view(),
        RelayInput::Reserve(relay_peer_id) => RelayManagerView {
            state: RelayState::ClientReserved { relay_peer_id, expires_at: None },
            ..m
        },
    }
}

/// The manager reached from `m` by the calls `inputs`, in order.
pub open spec fn relay_run(m: RelayManagerView, inputs: Seq<RelayInput>) -> RelayManagerView
    decreases inputs.len(),
{
    if inputs.len() == 0 {
        m
    } else {
        relay_step(relay_run(m, inputs.drop_last()), inputs.last())
    }
}

/// The reservation records that `inputs` leave behind: one per reservation
/// accepted by a relay after the last release, in the order accepted.
pub open spec fn accepted_since_release(inputs: Seq<RelayInput>) -> Seq<ReservationView>
    decreases inputs.len(),
{
    if inputs.len() == 0 {
        Seq::empty()
    } else {
        let earlier = accepted_since_release(inputs.drop_last());
        match inputs.last() {
            RelayInput::Release => Seq::empty(),
            RelayInput::Client(RelayClientEvent::ReservationReqAccepted { relay_peer_id, .. }) => {
                earlier.push(fresh_reservation(relay_peer_id))
            },
            _ => earlier,
        }
    }
}

/// Whatever calls a fresh manager receives, it holds exactly one reservation
/// record per reservation that a relay accepted since the last release, in the
/// order they were accepted: server events and `reserve` never add or drop one.
pub proof fn lemma_reservations_are_accepted_since_release(inputs: Seq<RelayInput>)
    ensures
        relay_run(initial_relay_view(), inputs).reservations == accepted_since_release(inputs),
    decreases inputs.len(),
{
    if inputs.len() > 0 {
        lemma_reservations_are_accepted_since_release(inputs.drop_last());
    }
}

/// Whatever a manager held, a release followed by calls that are all server
/// events leaves it without any reservation record.
pub proof fn lemma_server_events_keep_released_empty(m: RelayManagerView, events: Seq<RelayServerEvent>)
    ensures
        relay_run(
            m,
            seq![RelayInput::Release] + events.map_values(|e: RelayServerEvent| RelayInput::Server(e)),
        ).reservations.len() == 0,
    decreases events.len(),
{
    let inputs = seq![RelayInput::Release] + events.map_values(|e: RelayServerEvent| RelayInput::Server(e));
    if events.len() == 0 {
        assert(inputs.drop_last().len() == 0);
    } else {
        lemma_server_events_keep_released_empty(m, events.drop_last());
        assert(inputs.drop_last() =~= seq![RelayInput::Release] + events.drop_last().map_values(
            |e: RelayServerEvent| RelayInput::Server(e),
        ));
    }
}

/// What each call does to a relay manager. A relay accepting our reservation
/// makes it the relay we are reserved on (no expiry known) and adds, after the
/// records already held, one record for it with no expiry and no addresses.
/// A circuit being established, outbound or inbound, changes nothing. A peer's
/// reservation that we accept as a server makes relaying available; one we deny
/// or that times out makes it unavailable; other server occurrences change
/// nothing; server events never touch the records. A release drops every
/// record and makes relaying unavailable. A reservation we make on a relay
/// makes it the relay we are reserved on and keeps the records.
pub proof fn lemma_relay_call_effects(m: RelayManagerView, input: RelayInput)
    ensures
        match input {
            RelayInput::Client(RelayClientEvent::ReservationReqAccepted { relay_peer_id, .. }) => {
                &&& relay_step(m, input).state == (RelayState::ClientReserved { relay_peer_id, expires_at: None })
                &&& relay_step(m, input).reservations.len() == m.reservations.len() + 1
                &&& relay_step(m, input).reservations.subrange(0, m.reservations.len() as int) == m.reservations
                &&& relay_step(m, input).reservations.last() == (ReservationView {
                    relay_peer_id,
                    expires_at: None,
                    addresses: Seq::empty(),
                })
            },
            RelayInput::Client(_) => relay_step(m, input) == m,
            RelayInput::Server(RelayServerEvent::ReservationReqAccepted { .. }) => {
                &&& relay_step(m, input).state == RelayState::ServerAvailable
                &&& relay_step(m, input).reservations == m.reservations
            },
            RelayInput::Server(RelayServerEvent::Other) => relay_step(m, input) == m,
            RelayInput::Server(_) => {
                &&& relay_step(m, input).state == RelayState::Unavailable
                &&& relay_step(m, input).reservations == m.reservations
            },
            RelayInput::Release => {
                &&& relay_step(m, input).state == RelayState::Unavailable
                &&& relay_step(m, input).reservations.len() == 0
            },
            RelayInput::Reserve(relay_peer_id) => {
                &&& relay_step(m, input).state == (RelayState::ClientReserved { relay_peer_id, expires_at: None })
                &&& relay_step(m, input).reservations == m.reservations
            },
        },
{
    match input {
        RelayInput::Client(RelayClientEvent::ReservationReqAccepted { relay_peer_id, .. }) => {
            assert(relay_step(m, input).reservations.subrange(0, m.reservations.len() as int) =~= m.reservations);
        },
        _ => {},
    }
}

/// Once a relay has accepted our reservation, any number of circuits being
/// established afterwards leave the node reserved on that relay, with the
/// records it held then.
pub proof fn lemma_circuits_keep_reservation(
    m: RelayManagerView,
    relay_peer_id: PeerId,
    renewal: bool,
    circuits: Seq<RelayClientEvent>,
)
    requires
        forall|i: int| 0 <= i < circuits.len() ==> !(#[trigger] circuits[i] is ReservationReqAccepted),
    ensures
        ({
            let inputs = seq![RelayInput::Client(RelayClientEvent::ReservationReqAccepted { relay_peer_id, renewal })]
                + circuits.map_values(|e: RelayClientEvent| RelayInput::Client(e));
            let after_accept = relay_step(m, inputs[0]);
            &&& relay_run(m, inputs).state == (RelayState::ClientReserved { relay_peer_id, expires_at: None })
            &&& relay_run(m, inputs).reservations == after_accept.reservations
        }),
    decreases circuits.len(),
{
    let inputs = seq![RelayInput::Client(RelayClientEvent::ReservationReqAccepted { relay_peer_id, renewal })]
        + circuits.map_values(|e: RelayClientEvent| RelayInput::Client(e));
    if circuits.len() == 0 {
        assert(inputs.drop_last().len() == 0);
    } else {
        let front = circuits.drop_last();
        assert forall|i: int| 0 <= i < front.len() implies !(#[trigger] front[i] is ReservationReqAccepted) by {
            assert(front[i] == circuits[i]);
        }
        lemma_circuits_keep_reservation(m, relay_peer_id, renewal, front);
        assert(inputs.drop_last() =~= seq![RelayInput::Client(RelayClientEvent::ReservationReqAccepted { relay_peer_id, renewal })]
            + front.map_values(|e: RelayClientEvent| RelayInput::Client(e)));
        let last = circuits[circuits.len() - 1];
        assert(!(last is ReservationReqAccepted));
        assert(inputs.last() == RelayInput::Client(last));
        lemma_relay_call_effects(relay_run(m, inputs.drop_last()), inputs.last());
    }
}

impl RelayManager {
    /// A manager with no reservation and relaying unavailable.
    pub fn new() -> (manager: Self)
        ensures
            manager@ == initial_relay_view(),
    {
        let manager = RelayManager { state: RelayState::Unavailable, reservations: Vec::new() };
        assert(manager@.reservations =~= Seq::<ReservationView>::empty());
        manager
    }

    /// The current relay state.
    pub fn status(&self) -> (state: &RelayState)
        ensures
            *state == self@.state,
    {
        &self.state
    }

    /// The reservations accepted by remote relays, oldest first.
    pub fn reservations(&self) -> (reservations: &[ReservationInfo])
        ensures
            reservations@.map_values(|r: ReservationInfo| r@) == self@.reservations,
    {
        self.reservations.as_slice()
    }

    /// Takes note of what the relay client behaviour reported.
    pub fn handle_client_event(&mut self, event: RelayClientEvent)
        ensures
            final(self)@ == after_client_event(old(self)@, event),
    {
        match event {
            RelayClientEvent::ReservationReqAccepted { relay_peer_id, .. } => {
                let reservation = ReservationInfo {
                    relay_peer_id,
                    expires_at: None,
                    addresses: Vec::new(),
                };
                self.reservations.push(reservation);
                self.state = RelayState::ClientReserved { relay_peer_id, expires_at: None };
                assert(self@.reservations =~= old(self)@.reservations.push(
                    fresh_reservation(relay_peer_id),
                ));
            },
            RelayClientEvent::OutboundCircuitEstablished { .. } => {},
            RelayClientEvent::InboundCircuitEstablished { .. } => {},
        }
    }

    /// Takes note of what the relay server behaviour reported.
    pub fn handle_server_event(&mut self, event: RelayServerEvent)
        ensures
            final(self)@ == after_server_event(old(self)@, event),
    {
        match event {
            RelayServerEvent::ReservationReqAccepted { .. } => {
                self.state = RelayState::ServerAvailable;
            },
            RelayServerEvent::ReservationReqDenied { .. } => {
                self.state = RelayState::Unavailable;
            },
            RelayServerEvent::ReservationTimedOut { .. } => {
                self.state = RelayState::Unavailable;
            },
            RelayServerEvent::Other => {},
        }
    }

    /// Drops every reservation and marks relaying unavailable.
    pub fn release(&mut self)
        ensures
            final(self)@ == initial_relay_view(),
    {
        self.state = RelayState::Unavailable;
        self.reservations.clear();
        assert(self@.reservations =~= Seq::<ReservationView>::empty());
    }

    /// Records a reservation on `relay_peer_id`; this always succeeds.
    pub fn reserve(&mut self, relay_peer_id: PeerId) -> (result: Result<(), String>)
        ensures
            result is Ok,
            final(self)@ == relay_step(old(self)@, RelayInput::Reserve(relay_peer_id)),
    {
        self.state = RelayState::ClientReserved { relay_peer_id, expires_at: None };
        Ok(())
    }
}

} // verus!
