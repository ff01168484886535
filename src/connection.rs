//! Connection parameters and the task that accepts inbound connections.
use vstd::prelude::*;
use crate::commands::HciCommandAcceptConnection;
use crate::events::{
    HciEventConnectionComplete, HciEventConnectionRequest, is_connection_complete,
    is_connection_request, header_of,
};
use crate::commands::le_value;
use crate::hci::{Hci, Session, queue_taken, registration_free, with_registration};
use crate::packet::{HciPacket, HciPacketType, command_packet_bytes};
use crate::send::{SendCommandThinkable, SendState};
use crate::task::Waiter;

verus! {

/// Kind of link a connection uses.
#[derive(Debug, Clone, Copy, PartialEq, Eq, Structural)]
pub enum HciConnectionLinkType {
    /// Synchronous connection oriented.
    Sco,
    /// Asynchronous connection less.
    Acl,
    Unknown,
}

/// The link type named by a wire value.
pub open spec fn link_type_of(v: u8) -> HciConnectionLinkType {
    if v == 0 {
        HciConnectionLinkType::Sco
    } else if v == 1 {
        HciConnectionLinkType::Acl
    } else {
        HciConnectionLinkType::Unknown
    }
}

impl HciConnectionLinkType {
    pub fn from(orig: u8) -> (r: Self)
        ensures
            r == link_type_of(orig),
    {
        match orig {
            0 => HciConnectionLinkType::Sco,
            1 => HciConnectionLinkType::Acl,
            _ => HciConnectionLinkType::Unknown,
        }
    }
}

/// The role the local device takes in a connection.
#[derive(Debug, Clone, Copy, PartialEq, Eq, Structural)]
pub enum HciConnectionRole {
    Master,
    Slave,
    Unknown,
}

/// The wire value of a role.
pub open spec fn role_value(r: HciConnectionRole) -> u8 {
    match r {
        HciConnectionRole::Master => 0,
        HciConnectionRole::Slave => 1,
        HciConnectionRole::Unknown => 2,
    }
}

impl HciConnectionRole {
    /// The wire value of this role.
    pub fn value(&self) -> (r: u8)
        ensures
            r == role_value(*self),
    {
        match self {
            HciConnectionRole::Master => 0,
            HciConnectionRole::Slave => 1,
            HciConnectionRole::Unknown => 2,
        }
    }
}

/// Encryption used on a connection.
#[derive(Debug, Clone, Copy, PartialEq, Eq, Structural)]
pub enum HciEncryptionType {
    Disabled,
    Point2Point,
    P2PBroadcast,
    Unknown,
}

/// The encryption mode named by a wire value.
pub open spec fn encryption_of(v: u8) -> HciEncryptionType {
    if v == 0 {
        HciEncryptionType::Disabled
    } else if v == 1 {
        HciEncryptionType::Point2Point
    } else if v == 2 {
        HciEncryptionType::P2PBroadcast
    } else {
        HciEncryptionType::Unknown
    }
}

impl HciEncryptionType {
    pub fn from(orig: u8) -> (r: Self)
        ensures
            r == encryption_of(orig),
    {
        match orig {
            0 => HciEncryptionType::Disabled,
            1 => HciEncryptionType::Point2Point,
            2 => HciEncryptionType::P2PBroadcast,
            _ => HciEncryptionType::Unknown,
        }
    }
}


/// Event code of ConnectionComplete.
pub const CONNECTION_COMPLETE: u8 = 0x03;

/// Event code of ConnectionRequest.
pub const CONNECTION_REQUEST: u8 = 0x04;

/// The send task that accepts the connection request `d`, taking the slave role.
pub open spec fn accept_task(d: Seq<u8>) -> SendState {
    SendState {
        op_code: 0x0409,
        packet: Some(command_packet_bytes(1, 0x0409, d.subrange(2, 8) + seq![role_value(HciConnectionRole::Slave)])),
        done: false,
    }
}

/// The accept tasks for the connection requests among `events`, in arrival order; events that
/// do not decode get none.
pub open spec fn accept_tasks(events: Seq<Seq<u8>>) -> Seq<SendState>
    decreases events.len(),
{
    if events.len() == 0 {
        Seq::empty()
    } else {
        accept_tasks(events.drop_last()) + if is_connection_request(events.last()) {
            seq![accept_task(events.last())]
        } else {
            Seq::empty()
        }
    }
}

/// The ConnectionComplete events among `events` that decode, in arrival order.
pub open spec fn completed_connections(events: Seq<Seq<u8>>) -> Seq<Seq<u8>>
    decreases events.len(),
{
    if events.len() == 0 {
        Seq::empty()
    } else {
        completed_connections(events.drop_last()) + if is_connection_complete(events.last()) {
            seq![events.last()]
        } else {
            Seq::empty()
        }
    }
}

/// Whether `c` is the ConnectionComplete event held in `d`.
pub open spec fn completion_of(c: HciEventConnectionComplete, d: Seq<u8>) -> bool {
    &&& is_connection_complete(d)
    &&& c.header == header_of(d)
    &&& c.status == d[2]
    &&& c.handle == le_value(d[3], d[4])
    &&& c.address@ == d.subrange(5, 11)
    &&& c.link_type == link_type_of(d[11])
    &&& c.encryption_mode == encryption_of(d[12])
}

/// The events with code `code` waiting in session `s`.
pub open spec fn pending_events(s: Session, code: u8) -> Seq<Seq<u8>> {
    if s.events.contains_key(code) {
        s.events[code].events
    } else {
        Seq::empty()
    }
}

/// What one wake of the connection acceptor produced.
pub struct ConnectionActivity {
    /// Send tasks accepting the connection requests that arrived, to be run on their own.
    pub accepts: Vec<SendCommandThinkable>,
    /// Connections that were set up.
    pub completions: Vec<HciEventConnectionComplete>,
}

/// The task that accepts every inbound connection. It never concludes.
pub struct HandleInboundConnectionsThinkable {
    /// Whether the task still has to register for connection events.
    pub first: bool,
}

impl HandleInboundConnectionsThinkable {
    pub fn new() -> (r: Self)
        ensures
            r.first,
    {
        HandleInboundConnectionsThinkable { first: true }
    }

    /// Handles the connection events that arrived since the last wake of `waiter`: both queues
    /// are emptied, each ConnectionRequest gets a task that accepts it, each ConnectionComplete is
    /// handed out. Until it has registered, the task registers for both events once nobody else
    /// holds either; the registration then stays.
    pub fn think<T>(&mut self, hci: &mut Hci<T>, waiter: Waiter) -> (r: ConnectionActivity)
        ensures
            r.accepts@.map_values(|t: SendCommandThinkable| t@) == accept_tasks(
                pending_events(old(hci)@, CONNECTION_REQUEST),
            ),
            r.completions@.len() == completed_connections(
                pending_events(old(hci)@, CONNECTION_COMPLETE),
            ).len(),
            forall|i: int|
                0 <= i < r.completions@.len() ==> completion_of(
                    #[trigger] r.completions@[i],
                    completed_connections(pending_events(old(hci)@, CONNECTION_COMPLETE))[i],
                ),
            ({
                let s = old(hci)@;
                let taken = queue_taken(queue_taken(s.events, CONNECTION_REQUEST), CONNECTION_COMPLETE);
                let free = registration_free(s.events, CONNECTION_REQUEST, waiter) && registration_free(
                    s.events,
                    CONNECTION_COMPLETE,
                    waiter,
                );
                &&& final(self).first == (old(self).first && !free)
                &&& final(hci)@ == (Session {
                    events: if old(self).first && free {
                        with_registration(
                            with_registration(taken, CONNECTION_REQUEST, waiter),
                            CONNECTION_COMPLETE,
                            waiter,
                        )
                    } else {
                        taken
                    },
                    ..s
                })
            }),
            final(hci).transport == old(hci).transport,
    {
        let requests = hci.take_events(CONNECTION_REQUEST);
        let ghost evs = requests@.map_values(|v: Vec<u8>| v@);
        let mut accepts: Vec<SendCommandThinkable> = Vec::new();
        let mut i: usize = 0;
        while i < requests.len()
            invariant
                i <= requests@.len(),
                evs == requests@.map_values(|v: Vec<u8>| v@),
                evs == pending_events(old(hci)@, CONNECTION_REQUEST),
                accepts@.map_values(|t: SendCommandThinkable| t@) == accept_tasks(evs.take(i as int)),
            decreases requests@.len() - i,
        {
            let d = vstd::slice::slice_to_vec(requests[i].as_slice());
            let ghost dv = d@;
            proof {
                assert(evs.take(i + 1).drop_last() =~= evs.take(i as int));
                assert(evs.take(i + 1).last() == dv);
            }
            let ghost before = accepts@;
            match HciEventConnectionRequest::try_from(HciPacket { p_type: HciPacketType::Event, p_data: d }) {
                Ok(request) => {
                    let cmd = HciCommandAcceptConnection::new(request.address(), HciConnectionRole::Slave);
                    let task = SendCommandThinkable::new(&cmd);
                    assert(task@ == accept_task(dv));
                    accepts.push(task);
                    assert(accepts@.map_values(|t: SendCommandThinkable| t@) =~= before.map_values(
                        |t: SendCommandThinkable| t@,
                    ) + seq![accept_task(dv)]);
                },
                Err(_) => {
                    assert(accepts@.map_values(|t: SendCommandThinkable| t@) =~= before.map_values(
                        |t: SendCommandThinkable| t@,
                    ) + Seq::<SendState>::empty());
                },
            }
            i += 1;
        }
        assert(evs.take(requests@.len() as int) =~= evs);
        let done = hci.take_events(CONNECTION_COMPLETE);
        let ghost cevs = done@.map_values(|v: Vec<u8>| v@);
        assert(cevs == pending_events(old(hci)@, CONNECTION_COMPLETE));
        let mut completions: Vec<HciEventConnectionComplete> = Vec::new();
        let mut j: usize = 0;
        while j < done.len()
            invariant
                j <= done@.len(),
                cevs == done@.map_values(|v: Vec<u8>| v@),
                completions@.len() == completed_connections(cevs.take(j as int)).len(),
                forall|i: int|
                    0 <= i < completions@.len() ==> completion_of(
                        #[trigger] completions@[i],
                        completed_connections(cevs.take(j as int))[i],
                    ),
            decreases done@.len() - j,
        {
            let d = vstd::slice::slice_to_vec(done[j].as_slice());
            let ghost dv = d@;
            proof {
                assert(cevs.take(j + 1).drop_last() =~= cevs.take(j as int));
                assert(cevs.take(j + 1).last() == dv);
            }
            if let Ok(c) = HciEventConnectionComplete::try_from(HciPacket { p_type: HciPacketType::Event, p_data: d }) {
                completions.push(c);
            }
            j += 1;
        }
        assert(cevs.take(done@.len() as int) =~= cevs);
        let ghost s = old(hci)@;
        let ghost taken = queue_taken(queue_taken(s.events, CONNECTION_REQUEST), CONNECTION_COMPLETE);
        assert(hci@ =~= Session { events: taken, ..s });
        if self.first && hci.can_register(CONNECTION_REQUEST, waiter) && hci.can_register(
            CONNECTION_COMPLETE,
            waiter,
        ) {
            let _ = hci.register_event(CONNECTION_REQUEST, waiter);
            let _ = hci.register_event(CONNECTION_COMPLETE, waiter);
            self.first = false;
            assert(hci@.events =~= with_registration(
                with_registration(taken, CONNECTION_REQUEST, waiter),
                CONNECTION_COMPLETE,
                waiter,
            ));
        }
        ConnectionActivity { accepts, completions }
    }
}

} // verus!
