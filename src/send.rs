//! The send-command engine: transmits one command under flow control and resolves when the
//! controller's CommandComplete or CommandStatus for it arrives.
use vstd::prelude::*;
use crate::commands::IsHciCommand;
use crate::errors::{HciError, HciErrorKind};
use crate::events::{is_command_complete, is_command_status};
use crate::commands::le_value;
use crate::hci::{CommandEntry, CommandSlot, Hci, Session, dispatched};
use crate::hctl::HcTransportLayer;
use crate::packet::{command_bytes, command_packet_bytes, encode_command};
use crate::task::{Conclusion, Waiter};

verus! {

broadcast use {vstd::laws_cmp::group_laws_cmp, vstd::std_specs::btree::group_btree_axioms};

/// A command on its way to the controller.
pub struct SendCommandThinkable {
    /// The opcode the response is correlated by.
    pub op_code: u16,
    /// The packet, until it has been handed to the transport.
    pub packet: Option<Vec<u8>>,
    /// Whether the task has concluded.
    pub done: bool,
}

/// What a send task holds, as the contracts speak of it.
pub struct SendState {
    pub op_code: u16,
    pub packet: Option<Seq<u8>>,
    pub done: bool,
}

impl View for SendCommandThinkable {
    type V = SendState;

    open spec fn view(&self) -> SendState {
        SendState {
            op_code: self.op_code,
            packet: match self.packet {
                Some(p) => Some(p@),
                None => None,
            },
            done: self.done,
        }
    }
}

/// The send task of a command with opcode `op` and parameters `params`, not started yet.
pub open spec fn fresh_send(op: u16, params: Seq<u8>) -> SendState {
    SendState { op_code: op, packet: Some(command_packet_bytes(1, op, params)), done: false }
}

/// The session once the command `op` resolved: the credit the controller granted replaces the
/// old one, the command's entry is gone, and the senders that waited get another try.
pub open spec fn resolved(s: Session, op: u16, credit: u8) -> Session {
    Session {
        credit,
        commands: s.commands.remove(op),
        wakes: s.wakes + s.send_queue,
        send_queue: Seq::empty(),
        ..s
    }
}

pub type SendResult = Conclusion<Result<(), HciError>>;

/// One advance of a send task `t` for `waiter` over the session `s`; `transport_ok` tells
/// whether the transport took the packet, where one is handed to it.
///
/// Before the packet went out: with no credit, or with another command of the same opcode in
/// flight, the task waits its turn; else it takes one credit, registers for the response and
/// hands the packet over. After: a CommandComplete resolves with success, a CommandStatus with
/// its status; either one's credit replaces the session's.
pub open spec fn send_step(t: SendState, s: Session, waiter: Waiter, transport_ok: bool) -> (
    SendState,
    Session,
    SendResult,
) {
    let op = t.op_code;
    match t.packet {
        Some(bytes) => if s.credit == 0 || s.commands.contains_key(op) {
            (t, Session { send_queue: s.send_queue.push(waiter), ..s }, Conclusion::Pending)
        } else if transport_ok {
            (
                SendState { packet: None, ..t },
                Session {
                    credit: (s.credit - 1) as u8,
                    commands: s.commands.insert(op, CommandEntry { waiter, response: None }),
                    sent: s.sent.push(bytes),
                    ..s
                },
                Conclusion::Pending,
            )
        } else {
            (
                SendState { done: true, ..t },
                s,
                Conclusion::Ready(Err(HciError { kind: HciErrorKind::Transport })),
            )
        },
        None => if !s.commands.contains_key(op) {
            (
                SendState { done: true, ..t },
                s,
                Conclusion::Ready(Err(HciError { kind: HciErrorKind::ResponseLost })),
            )
        } else {
            match s.commands[op].response {
                None => (t, s, Conclusion::Pending),
                Some(d) => if is_command_complete(d) {
                    (SendState { done: true, ..t }, resolved(s, op, d[2]), Conclusion::Ready(Ok(())))
                } else if is_command_status(d) {
                    (
                        SendState { done: true, ..t },
                        resolved(s, op, d[3]),
                        Conclusion::Ready(
                            if d[2] == 0 {
                                Ok(())
                            } else {
                                Err(
                                    HciError {
                                        kind: HciErrorKind::CommandFailed { op_code: op, status: d[2] },
                                    },
                                )
                            },
                        ),
                    )
                } else {
                    (
                        t,
                        Session {
                            commands: s.commands.insert(
                                op,
                                CommandEntry { waiter: s.commands[op].waiter, response: None },
                            ),
                            ..s
                        },
                        Conclusion::Pending,
                    )
                },
            }
        },
    }
}

/// Starts sending `command`.
pub fn send_command<C: IsHciCommand>(command: C) -> (r: SendCommandThinkable)
    requires
        command.wf(),
    ensures
        r@ == (SendState {
            op_code: command.spec_opcode(),
            packet: Some(command_bytes(command)),
            done: false,
        }),
{
    SendCommandThinkable::new(&command)
}

impl SendCommandThinkable {
    /// A task that will send `command`.
    pub fn new<C: IsHciCommand>(command: &C) -> (r: Self)
        requires
            command.wf(),
        ensures
            r@ == (SendState {
                op_code: command.spec_opcode(),
                packet: Some(command_bytes(*command)),
                done: false,
            }),
    {
        SendCommandThinkable { op_code: command.opcode(), packet: Some(encode_command(command)), done: false }
    }

    /// Advances the task for `waiter`, who is woken when the response arrives.
    pub fn think<T: HcTransportLayer>(&mut self, hci: &mut Hci<T>, waiter: Waiter) -> (r: SendResult)
        requires
            !old(self).done,
        ensures
            (final(self)@, final(hci)@, r) == send_step(
                old(self)@,
                old(hci)@,
                waiter,
                final(hci)@.sent.len() > old(hci)@.sent.len(),
            ),
    {
        let op = self.op_code;
        if self.packet.is_some() {
            if hci.accept_commands == 0 || hci.command_response.contains_key(&op) {
                hci.send_queue.push(waiter);
                assert(hci@ =~= (Session { send_queue: old(hci)@.send_queue.push(waiter), ..old(hci)@ }));
                return Conclusion::Pending;
            }
            let bytes = self.packet.take().unwrap();
            match hci.transport.send_packet(bytes.as_slice()) {
                Ok(_) => {
                    let ghost sent = hci.sent@;
                    hci.accept_commands = hci.accept_commands - 1;
                    hci.command_response.insert(op, CommandSlot { waiter, response: None });
                    hci.sent = Ghost(sent.push(bytes@));
                    assert(hci@.commands =~= old(hci)@.commands.insert(op, CommandEntry { waiter, response: None }));
                    Conclusion::Pending
                },
                Err(_) => {
                    self.done = true;
                    self.packet = Some(bytes);
                    Conclusion::Ready(Err(HciError::new(HciErrorKind::Transport)))
                },
            }
        } else {
            match hci.command_response.remove(&op) {
                None => {
                    assert(hci.command_response@ =~= old(hci).command_response@);
                    self.done = true;
                    Conclusion::Ready(Err(HciError::new(HciErrorKind::ResponseLost)))
                },
                Some(slot) => {
                    match slot.response {
                        None => {
                            hci.command_response.insert(op, CommandSlot { waiter: slot.waiter, response: None });
                            assert(hci.command_response@ =~= old(hci).command_response@);
                            Conclusion::Pending
                        },
                        Some(d) => {
                            assert(hci@.commands =~= old(hci)@.commands.remove(op));
                            if d.len() >= 5 && d[0] == 0x0E {
                                hci.accept_commands = d[2];
                                self.finish(hci);
                                Conclusion::Ready(Ok(()))
                            } else if d.len() >= 6 && d[0] == 0x0F {
                                hci.accept_commands = d[3];
                                self.finish(hci);
                                if d[2] == 0 {
                                    Conclusion::Ready(Ok(()))
                                } else {
                                    Conclusion::Ready(Err(HciError::new(HciErrorKind::CommandFailed { op_code: op, status: d[2] })))
                                }
                            } else {
                                hci.command_response.insert(op, CommandSlot { waiter: slot.waiter, response: None });
                                assert(hci@.commands =~= old(hci)@.commands.insert(
                                    op,
                                    CommandEntry { waiter: old(hci)@.commands[op].waiter, response: None },
                                ));
                                Conclusion::Pending
                            }
                        },
                    }
                },
            }
        }
    }

    /// Concludes the task and lets the senders that waited try again.
    fn finish<T>(&mut self, hci: &mut Hci<T>)
        ensures
            final(self)@ == (SendState { done: true, ..old(self)@ }),
            final(hci)@ == (Session {
                wakes: old(hci)@.wakes + old(hci)@.send_queue,
                send_queue: Seq::empty(),
                ..old(hci)@
            }),
            final(hci).transport == old(hci).transport,
    {
        self.done = true;
        let mut q: Vec<Waiter> = Vec::new();
        core::mem::swap(&mut q, &mut hci.send_queue);
        hci.wakes.append(&mut q);
        assert(hci@ =~= (Session {
            wakes: old(hci)@.wakes + old(hci)@.send_queue,
            send_queue: Seq::empty(),
            ..old(hci)@
        }));
    }
}


/// Something that changes the session: a send task advanced, or an event delivered.
pub enum SessionOp {
    Advance { task: SendState, waiter: Waiter, transport_ok: bool },
    Deliver(Seq<u8>),
}

/// The session after `op`.
pub open spec fn apply(s: Session, op: SessionOp) -> Session {
    match op {
        SessionOp::Advance { task, waiter, transport_ok } => send_step(task, s, waiter, transport_ok).1,
        SessionOp::Deliver(d) => dispatched(s, d),
    }
}

/// The session after each of `ops` in turn.
pub open spec fn run(s: Session, ops: Seq<SessionOp>) -> Session
    decreases ops.len(),
{
    if ops.len() == 0 {
        s
    } else {
        apply(run(s, ops.drop_last()), ops.last())
    }
}

/// Whether going from `s` to `s2` by `op` keeps flow control: a packet goes out only while
/// the credit is at least one, and uses up exactly one credit; otherwise the credit changes only
/// to the value a CommandComplete or CommandStatus carries.
pub open spec fn keeps_flow_control(s: Session, op: SessionOp, s2: Session) -> bool {
    &&& s2.sent.len() >= s.sent.len()
    &&& s2.sent.len() > s.sent.len() ==> {
        &&& s.credit >= 1
        &&& s2.credit == s.credit - 1
        &&& s2.sent.len() == s.sent.len() + 1
    }
    &&& (s2.sent.len() == s.sent.len() && s2.credit != s.credit) ==> {
        &&& op matches SessionOp::Advance { task, .. }
        &&& task.packet is None
        &&& s.commands.contains_key(task.op_code)
        &&& s.commands[task.op_code].response matches Some(d)
        &&& (is_command_complete(d) && s2.credit == d[2]) || (is_command_status(d) && s2.credit
            == d[3])
    }
}

/// Flow control holds through any sequence of command sends and event arrivals: at every step a
/// command is transmitted only with a credit of at least one, which it uses up, and the credit is
/// otherwise replaced only by a CommandComplete or CommandStatus value.
pub proof fn lemma_flow_control(s: Session, ops: Seq<SessionOp>)
    ensures
        forall|i: int|
            0 <= i < ops.len() ==> keeps_flow_control(
                #[trigger] run(s, ops.take(i)),
                ops[i],
                run(s, ops.take(i + 1)),
            ),
{
    assert forall|i: int| 0 <= i < ops.len() implies keeps_flow_control(
        #[trigger] run(s, ops.take(i)),
        ops[i],
        run(s, ops.take(i + 1)),
    ) by {
        assert(ops.take(i + 1).drop_last() =~= ops.take(i));
        assert(ops.take(i + 1).last() == ops[i]);
    }
}

/// A command sent for `waiter` and then answered by a CommandComplete for its opcode wakes
/// exactly that waiter; the task then resolves successfully and removes its entry, so a second
/// CommandComplete for the same opcode finds nobody and is dropped.
pub proof fn lemma_exactly_one_correlation(
    t: SendState,
    s: Session,
    waiter: Waiter,
    d: Seq<u8>,
    d2: Seq<u8>,
)
    requires
        t.packet is Some,
        s.credit >= 1,
        !s.commands.contains_key(t.op_code),
        is_command_complete(d),
        le_value(d[3], d[4]) == t.op_code,
        is_command_complete(d2),
        le_value(d2[3], d2[4]) == t.op_code,
    ensures
        ({
            let (t1, s1, r1) = send_step(t, s, waiter, true);
            let s2 = dispatched(s1, d);
            let (t3, s3, r3) = send_step(t1, s2, waiter, true);
            &&& r1 == SendResult::Pending
            &&& s2.wakes == s1.wakes.push(waiter)
            &&& s2.commands[t.op_code].response == Some(d)
            &&& r3 == SendResult::Ready(Ok(()))
            &&& !s3.commands.contains_key(t.op_code)
            &&& s3.credit == d[2]
            &&& dispatched(s3, d2) == s3
        }),
{
}

} // verus!
