//! The session state shared by every task that talks to the controller: the transport, the
//! flow-control credit and the tables that route responses and events to their waiters.
use vstd::prelude::*;
use std::collections::BTreeMap;
use crate::events::{HciEventType, event_code};
use crate::commands::le_value;
use crate::task::Waiter;

verus! {

broadcast use {vstd::laws_cmp::group_laws_cmp, vstd::std_specs::btree::group_btree_axioms};

/// The table entry of a command in flight: who waits, and the response once it arrived.
#[derive(Debug)]
pub struct CommandSlot {
    pub waiter: Waiter,
    /// The response event's bytes, from the event code on.
    pub response: Option<Vec<u8>>,
}

/// The table entry of an event kind: who waits, and the events that arrived and are not yet taken.
#[derive(Debug)]
pub struct EventSlot {
    pub waiter: Waiter,
    /// The events' bytes, from the event code on, in arrival order.
    pub events: Vec<Vec<u8>>,
}

/// What a command table entry holds.
pub struct CommandEntry {
    pub waiter: Waiter,
    pub response: Option<Seq<u8>>,
}

/// What an event table entry holds.
pub struct EventEntry {
    pub waiter: Waiter,
    pub events: Seq<Seq<u8>>,
}

pub open spec fn command_entry(s: CommandSlot) -> CommandEntry {
    CommandEntry {
        waiter: s.waiter,
        response: match s.response {
            Some(v) => Some(v@),
            None => None,
        },
    }
}

pub open spec fn event_entry(s: EventSlot) -> EventEntry {
    EventEntry { waiter: s.waiter, events: s.events@.map_values(|v: Vec<u8>| v@) }
}

/// The session state, as the contracts speak of it.
pub struct Session {
    /// Commands the controller accepts before it grants more.
    pub credit: u8,
    /// Commands in flight, by opcode.
    pub commands: Map<u16, CommandEntry>,
    /// Event kinds somebody waits for, by event code.
    pub events: Map<u8, EventEntry>,
    /// Waiters to wake, oldest first.
    pub wakes: Seq<Waiter>,
    /// Waiters that could not send yet and want another try once a command resolves.
    pub send_queue: Seq<Waiter>,
    /// Every packet handed to the transport, in order.
    pub sent: Seq<Seq<u8>>,
}

/// Event table `m` with the queue of `k` emptied; the registration stays.
pub open spec fn queue_taken(m: Map<u8, EventEntry>, k: u8) -> Map<u8, EventEntry> {
    if m.contains_key(k) {
        m.insert(k, EventEntry { waiter: m[k].waiter, events: Seq::empty() })
    } else {
        m
    }
}

/// Whether `waiter` may register for `k` in event table `m`: nobody else holds it.
pub open spec fn registration_free(m: Map<u8, EventEntry>, k: u8, waiter: Waiter) -> bool {
    !m.contains_key(k) || m[k].waiter == waiter
}

/// Event table `m` with `waiter` registered for `k`, an empty queue if the entry is new.
pub open spec fn with_registration(m: Map<u8, EventEntry>, k: u8, waiter: Waiter) -> Map<u8, EventEntry> {
    if m.contains_key(k) {
        m
    } else {
        m.insert(k, EventEntry { waiter, events: Seq::empty() })
    }
}

/// The session state: owned by the engine, shared by all tasks through one lock.
pub struct Hci<T> {
    pub transport: T,
    /// Flow-control credit: commands the controller accepts before it grants more.
    pub accept_commands: u8,
    /// Commands in flight, by opcode.
    pub command_response: BTreeMap<u16, CommandSlot>,
    /// Event kinds somebody waits for, by event code.
    pub event_notify: BTreeMap<u8, EventSlot>,
    /// Waiters to wake, oldest first.
    pub wakes: Vec<Waiter>,
    /// Waiters that could not send yet and want another try once a command resolves.
    pub send_queue: Vec<Waiter>,
    /// Every packet handed to the transport, in order.
    pub sent: Ghost<Seq<Seq<u8>>>,
}

impl<T> View for Hci<T> {
    type V = Session;

    open spec fn view(&self) -> Session {
        Session {
            credit: self.accept_commands,
            commands: self.command_response@.map_values(|s: CommandSlot| command_entry(s)),
            events: self.event_notify@.map_values(|s: EventSlot| event_entry(s)),
            wakes: self.wakes@,
            send_queue: self.send_queue@,
            sent: self.sent@,
        }
    }
}

/// Where an inbound event goes.
pub enum Route {
    /// To the command in flight with this opcode.
    Command(u16),
    /// To whoever waits for events with this code.
    Event(u8),
}

/// Where the event whose bytes (from the event code on) are `d` goes: CommandComplete and
/// CommandStatus to the command they name, any other event to its kind.
pub open spec fn route_of(d: Seq<u8>) -> Option<Route> {
    if d.len() < 2 {
        None
    } else if d[0] == 0x0E {
        if d.len() >= 5 { Some(Route::Command(le_value(d[3], d[4]))) } else { None }
    } else if d[0] == 0x0F {
        if d.len() >= 6 { Some(Route::Command(le_value(d[4], d[5]))) } else { None }
    } else {
        Some(Route::Event(event_code(crate::events::event_type_of(d[0]))))
    }
}

/// The session after the event `d` was delivered: attached to the entry its route names and
/// that entry's waiter woken; dropped when nobody waits for it.
pub open spec fn dispatched(s: Session, d: Seq<u8>) -> Session {
    match route_of(d) {
        Some(Route::Command(op)) => if s.commands.contains_key(op) {
            Session {
                commands: s.commands.insert(
                    op,
                    CommandEntry { waiter: s.commands[op].waiter, response: Some(d) },
                ),
                wakes: s.wakes.push(s.commands[op].waiter),
                ..s
            }
        } else {
            s
        },
        Some(Route::Event(k)) => if s.events.contains_key(k) {
            Session {
                events: s.events.insert(
                    k,
                    EventEntry { waiter: s.events[k].waiter, events: s.events[k].events.push(d) },
                ),
                wakes: s.wakes.push(s.events[k].waiter),
                ..s
            }
        } else {
            s
        },
        None => s,
    }
}

/// What became of a delivered event.
#[derive(Debug, Clone, Copy, PartialEq, Eq, Structural)]
pub enum DispatchOutcome {
    /// Attached to an entry, whose waiter is woken.
    Delivered(Waiter),
    /// Nobody waits for it; it was dropped.
    Unclaimed,
    /// Too short to be routed; it was dropped.
    Malformed,
}

impl<T> Hci<T> {
    /// A session over `transport`; the controller accepts one command to begin with.
    pub fn new(transport: T) -> (r: Self)
        ensures
            r.transport == transport,
            r@.credit == 1,
            r@.commands == Map::<u16, CommandEntry>::empty(),
            r@.events == Map::<u8, EventEntry>::empty(),
            r@.wakes == Seq::<Waiter>::empty(),
            r@.send_queue == Seq::<Waiter>::empty(),
            r@.sent == Seq::<Seq<u8>>::empty(),
    {
        let r = Hci {
            transport,
            accept_commands: 1,
            command_response: BTreeMap::new(),
            event_notify: BTreeMap::new(),
            wakes: Vec::new(),
            send_queue: Vec::new(),
            sent: Ghost(Seq::empty()),
        };
        assert(r@.commands =~= Map::<u16, CommandEntry>::empty());
        assert(r@.events =~= Map::<u8, EventEntry>::empty());
        r
    }

    /// The current flow-control credit.
    pub fn accept_commands(&self) -> (r: u8)
        ensures
            r == self@.credit,
    {
        self.accept_commands
    }

    /// Hands out the waiters to wake, oldest first, and forgets them.
    pub fn take_wakes(&mut self) -> (r: Vec<Waiter>)
        ensures
            r@ == old(self)@.wakes,
            final(self)@ == (Session { wakes: Seq::empty(), ..old(self)@ }),
            final(self).transport == old(self).transport,
    {
        let mut r: Vec<Waiter> = Vec::new();
        core::mem::swap(&mut r, &mut self.wakes);
        assert(self@ =~= (Session { wakes: Seq::empty(), ..old(self)@ }));
        r
    }

    /// Registers `waiter` for events with code `code`. Fails, changing nothing, when another
    /// waiter holds that registration.
    pub fn register_event(&mut self, code: u8, waiter: Waiter) -> (r: bool)
        ensures
            r == (!old(self)@.events.contains_key(code) || old(self)@.events[code].waiter == waiter),
            final(self)@ == (if old(self)@.events.contains_key(code) {
                old(self)@
            } else {
                Session {
                    events: old(self)@.events.insert(code, EventEntry { waiter, events: Seq::empty() }),
                    ..old(self)@
                }
            }),
            final(self).transport == old(self).transport,
    {
        match self.event_notify.get(&code) {
            Some(slot) => slot.waiter == waiter,
            None => {
                let events: Vec<Vec<u8>> = Vec::new();
                assert(events@.map_values(|v: Vec<u8>| v@) =~= Seq::<Seq<u8>>::empty());
                self.event_notify.insert(code, EventSlot { waiter, events });
                assert(self@.events =~= old(self)@.events.insert(code, EventEntry { waiter, events: Seq::empty() }));
                assert(self@ =~= Session {
                    events: old(self)@.events.insert(code, EventEntry { waiter, events: Seq::empty() }),
                    ..old(self)@
                });
                true
            },
        }
    }

    /// Whether `waiter` may register for events with code `code`: nobody else holds it.
    pub fn can_register(&self, code: u8, waiter: Waiter) -> (r: bool)
        ensures
            r == registration_free(self@.events, code, waiter),
    {
        match self.event_notify.get(&code) {
            Some(slot) => slot.waiter == waiter,
            None => true,
        }
    }

    /// Whether events with code `code` arrived and wait to be taken.
    pub fn has_events(&self, code: u8) -> (r: bool)
        ensures
            r == (self@.events.contains_key(code) && self@.events[code].events.len() > 0),
    {
        match self.event_notify.get(&code) {
            Some(slot) => slot.events.len() > 0,
            None => false,
        }
    }

    /// Hands out the events with code `code` that arrived, oldest first; the registration stays.
    pub fn take_events(&mut self, code: u8) -> (r: Vec<Vec<u8>>)
        ensures
            r@.map_values(|v: Vec<u8>| v@) == (if old(self)@.events.contains_key(code) {
                old(self)@.events[code].events
            } else {
                Seq::empty()
            }),
            final(self)@ == (if old(self)@.events.contains_key(code) {
                Session {
                    events: old(self)@.events.insert(
                        code,
                        EventEntry { waiter: old(self)@.events[code].waiter, events: Seq::empty() },
                    ),
                    ..old(self)@
                }
            } else {
                old(self)@
            }),
            final(self).transport == old(self).transport,
    {
        match self.event_notify.remove(&code) {
            Some(slot) => {
                let w = slot.waiter;
                let r = slot.events;
                let events: Vec<Vec<u8>> = Vec::new();
                assert(events@.map_values(|v: Vec<u8>| v@) =~= Seq::<Seq<u8>>::empty());
                self.event_notify.insert(code, EventSlot { waiter: w, events });
                assert(self@.events =~= old(self)@.events.insert(
                    code,
                    EventEntry { waiter: w, events: Seq::empty() },
                ));
                assert(self@ =~= Session {
                    events: old(self)@.events.insert(
                        code,
                        EventEntry { waiter: w, events: Seq::empty() },
                    ),
                    ..old(self)@
                });
                r
            },
            None => {
                assert(self.event_notify@ =~= old(self).event_notify@);
                let r: Vec<Vec<u8>> = Vec::new();
                assert(r@.map_values(|v: Vec<u8>| v@) =~= Seq::<Seq<u8>>::empty());
                r
            },
        }
    }

    /// Drops the registration for events with code `code`, with the events it still holds.
    pub fn deregister_event(&mut self, code: u8)
        ensures
            final(self)@ == (Session { events: old(self)@.events.remove(code), ..old(self)@ }),
            final(self).transport == old(self).transport,
    {
        let _ = self.event_notify.remove(&code);
        assert(self@.events =~= old(self)@.events.remove(code));
        assert(self@ =~= Session { events: old(self)@.events.remove(code), ..old(self)@ });
    }

    /// Delivers the inbound event whose bytes, from the event code on, are `d`.
    pub fn dispatch_event(&mut self, d: Vec<u8>) -> (r: DispatchOutcome)
        ensures
            final(self)@ == dispatched(old(self)@, d@),
            final(self).transport == old(self).transport,
            r == (match route_of(d@) {
                None => DispatchOutcome::Malformed,
                Some(Route::Command(op)) => if old(self)@.commands.contains_key(op) {
                    DispatchOutcome::Delivered(old(self)@.commands[op].waiter)
                } else {
                    DispatchOutcome::Unclaimed
                },
                Some(Route::Event(k)) => if old(self)@.events.contains_key(k) {
                    DispatchOutcome::Delivered(old(self)@.events[k].waiter)
                } else {
                    DispatchOutcome::Unclaimed
                },
            }),
    {
        if d.len() < 2 {
            return DispatchOutcome::Malformed;
        }
        let code = d[0];
        if code == 0x0E || code == 0x0F {
            if (code == 0x0E && d.len() < 5) || (code == 0x0F && d.len() < 6) {
                return DispatchOutcome::Malformed;
            }
            let op = if code == 0x0E {
                crate::commands::read_le16(d[3], d[4])
            } else {
                crate::commands::read_le16(d[4], d[5])
            };
            match self.command_response.remove(&op) {
                Some(slot) => {
                    let w = slot.waiter;
                    let ghost dv = d@;
                    self.command_response.insert(op, CommandSlot { waiter: w, response: Some(d) });
                    self.wakes.push(w);
                    assert(self@.commands =~= dispatched(old(self)@, dv).commands);
                    assert(self@ =~= dispatched(old(self)@, dv));
                    DispatchOutcome::Delivered(w)
                },
                None => {
                    assert(self.command_response@ =~= old(self).command_response@);
                    DispatchOutcome::Unclaimed
                },
            }
        } else {
            let k = HciEventType::from(code).value();
            match self.event_notify.remove(&k) {
                Some(slot) => {
                    let w = slot.waiter;
                    let ghost dv = d@;
                    let mut events = slot.events;
                    events.push(d);
                    assert(events@.map_values(|v: Vec<u8>| v@) =~= old(self)@.events[k].events.push(dv));
                    self.event_notify.insert(k, EventSlot { waiter: w, events });
                    self.wakes.push(w);
                    assert(self@.events =~= dispatched(old(self)@, dv).events);
                    assert(self@ =~= dispatched(old(self)@, dv));
                    DispatchOutcome::Delivered(w)
                },
                None => {
                    assert(self.event_notify@ =~= old(self).event_notify@);
                    DispatchOutcome::Unclaimed
                },
            }
        }
    }
}

} // verus!
