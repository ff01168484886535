//! Device discovery: sends an Inquiry command, then gathers the devices of every InquiryResult
//! event until InquiryComplete arrives.
use vstd::prelude::*;
use crate::commands::{IsHciCommand, HciCommandInquiry, InquiryLength, INQUIRY_LAP_GIAC, inquiry_length_code};
use crate::errors::{HciError, HciErrorKind};
use crate::events::{
    HciEventInquiryResponse, HciEventInquiryResponseData, is_inquiry_result, record_bytes,
    result_records, lemma_records_bytes,
};
use crate::hci::{EventEntry, Hci, Session};
use crate::hctl::HcTransportLayer;
use crate::packet::{HciPacket, HciPacketType, command_packet_bytes};
use crate::send::{SendCommandThinkable, SendState, send_step};
use crate::task::{Conclusion, Waiter};

verus! {

/// Event code of InquiryComplete.
pub const INQUIRY_COMPLETE: u8 = 0x01;

/// Event code of InquiryResult.
pub const INQUIRY_RESULT: u8 = 0x02;

/// Most devices one inquiry reports.
pub const INQUIRY_MAX_RESPONSES: u8 = 5;

/// Where an inquiry stands.
#[derive(Debug, Clone, Copy, PartialEq, Eq, Structural)]
pub enum InquiryState {
    /// The Inquiry command is on its way.
    Initial,
    /// The controller searches; results are gathered.
    Running,
    /// The inquiry has concluded.
    Done,
}

/// The bytes of each device record in `v`.
pub open spec fn device_bytes(v: Seq<HciEventInquiryResponseData>) -> Seq<Seq<u8>> {
    v.map_values(|r: HciEventInquiryResponseData| record_bytes(r))
}

/// The device records of the InquiryResult events among `events`, in arrival order; events that
/// do not decode contribute nothing.
pub open spec fn accumulated(events: Seq<Seq<u8>>) -> Seq<Seq<u8>>
    decreases events.len(),
{
    if events.len() == 0 {
        Seq::empty()
    } else {
        accumulated(events.drop_last()) + if is_inquiry_result(events.last()) {
            result_records(events.last())
        } else {
            Seq::empty()
        }
    }
}

/// Gathering over two batches of events gives what gathering over all of them at once gives:
/// however the arrivals are split across wakes, the devices come out in arrival order.
pub proof fn lemma_accumulated_concat(a: Seq<Seq<u8>>, b: Seq<Seq<u8>>)
    ensures
        accumulated(a + b) == accumulated(a) + accumulated(b),
    decreases b.len(),
{
    if b.len() == 0 {
        assert(a + b =~= a);
        assert(accumulated(a) + accumulated(b) =~= accumulated(a));
    } else {
        assert((a + b).drop_last() =~= a + b.drop_last());
        assert((a + b).last() == b.last());
        lemma_accumulated_concat(a, b.drop_last());
        let tail = if is_inquiry_result(b.last()) {
            result_records(b.last())
        } else {
            Seq::empty()
        };
        assert(accumulated(a) + accumulated(b.drop_last()) + tail =~= accumulated(a) + (accumulated(
            b.drop_last(),
        ) + tail));
    }
}

/// The InquiryResult events waiting in session `s`.
pub open spec fn pending_results(s: Session) -> Seq<Seq<u8>> {
    if s.events.contains_key(INQUIRY_RESULT) {
        s.events[INQUIRY_RESULT].events
    } else {
        Seq::empty()
    }
}

/// Session `s` with its waiting InquiryResult events taken; the registration stays.
pub open spec fn results_taken(s: Session) -> Session {
    if s.events.contains_key(INQUIRY_RESULT) {
        Session {
            events: s.events.insert(
                INQUIRY_RESULT,
                EventEntry { waiter: s.events[INQUIRY_RESULT].waiter, events: Seq::empty() },
            ),
            ..s
        }
    } else {
        s
    }
}

/// Whether an InquiryComplete event waits in session `s`.
pub open spec fn inquiry_completed(s: Session) -> bool {
    s.events.contains_key(INQUIRY_COMPLETE) && s.events[INQUIRY_COMPLETE].events.len() > 0
}

/// The task that discovers nearby devices.
pub struct InquireDevicesThinkable {
    pub state: InquiryState,
    pub command: SendCommandThinkable,
    /// Devices found so far, in arrival order.
    pub devices: Vec<HciEventInquiryResponseData>,
}

impl InquireDevicesThinkable {
    /// An inquiry of the given length, for the general inquiry access code.
    pub fn new(length: InquiryLength) -> (r: Self)
        ensures
            r.state == InquiryState::Initial,
            r.command@ == (SendState {
                op_code: 0x0401,
                packet: Some(command_packet_bytes(
                    1,
                    0x0401,
                    seq![0x33u8, 0x8B, 0x9E, inquiry_length_code(length), INQUIRY_MAX_RESPONSES],
                )),
                done: false,
            }),
            r.devices@.len() == 0,
    {
        let cmd = HciCommandInquiry::new(INQUIRY_LAP_GIAC, length, INQUIRY_MAX_RESPONSES);
        assert(cmd.spec_parameters() =~= seq![0x33u8, 0x8B, 0x9E, inquiry_length_code(length), INQUIRY_MAX_RESPONSES]);
        InquireDevicesThinkable {
            state: InquiryState::Initial,
            command: SendCommandThinkable::new(&cmd),
            devices: Vec::new(),
        }
    }

    /// Appends the devices of every InquiryResult event that arrived.
    fn gather<T>(&mut self, hci: &mut Hci<T>)
        ensures
            device_bytes(final(self).devices@) == device_bytes(old(self).devices@) + accumulated(
                pending_results(old(hci)@),
            ),
            final(self).state == old(self).state,
            final(self).command == old(self).command,
            final(hci)@ == results_taken(old(hci)@),
            pending_results(old(hci)@).len() == 0 ==> final(self).devices@ == old(self).devices@,
            pending_results(old(hci)@).len() == 0 ==> final(hci)@ == old(hci)@,
            final(hci).transport == old(hci).transport,
    {
        let events = hci.take_events(INQUIRY_RESULT);
        let ghost evs = events@.map_values(|v: Vec<u8>| v@);
        let mut i: usize = 0;
        while i < events.len()
            invariant
                i <= events@.len(),
                evs == events@.map_values(|v: Vec<u8>| v@),
                evs == pending_results(old(hci)@),
                device_bytes(self.devices@) == device_bytes(old(self).devices@) + accumulated(
                    evs.take(i as int),
                ),
                self.state == old(self).state,
                self.command == old(self).command,
                i == 0 ==> self.devices@ == old(self).devices@,
            decreases events@.len() - i,
        {
            let d = vstd::slice::slice_to_vec(events[i].as_slice());
            let ghost dv = d@;
            let ghost before = self.devices@;
            proof {
                assert(evs.take(i + 1).drop_last() =~= evs.take(i as int));
                assert(evs.take(i + 1).last() == dv);
            }
            match HciEventInquiryResponse::try_from(HciPacket { p_type: HciPacketType::Event, p_data: d }) {
                Ok(mut resp) => {
                    proof {
                        lemma_records_bytes(resp.data@, dv);
                    }
                    let ghost got = resp.data@;
                    self.devices.append(&mut resp.data);
                    assert(self.devices@ == before + got);
                    assert(device_bytes(self.devices@) =~= device_bytes(before) + device_bytes(got));
                },
                Err(_) => {
                },
            }
            i += 1;
        }
        assert(evs.take(events@.len() as int) =~= evs);
        proof {
            if evs.len() == 0 && old(hci)@.events.contains_key(INQUIRY_RESULT) {
                assert(old(hci)@.events[INQUIRY_RESULT].events =~= Seq::<Seq<u8>>::empty());
                assert(old(hci)@.events.insert(
                    INQUIRY_RESULT,
                    EventEntry { waiter: old(hci)@.events[INQUIRY_RESULT].waiter, events: Seq::empty() },
                ) =~= old(hci)@.events);
            }
        }
    }

    /// Advances the inquiry for `waiter`. Once the command succeeded the task registers, with
    /// empty queues, for InquiryResult and InquiryComplete events. On each later wake it concludes
    /// with the devices gathered so far when InquiryComplete has arrived; otherwise it takes the
    /// InquiryResult events that arrived and appends their devices, in arrival order.
    pub fn think<T: HcTransportLayer>(&mut self, hci: &mut Hci<T>, waiter: Waiter) -> (r: Conclusion<
        Result<Vec<HciEventInquiryResponseData>, HciError>,
    >)
        requires
            old(self).state != InquiryState::Done,
            old(self).state == InquiryState::Initial ==> !old(self).command@.done,
        ensures
            (r is Ready) == (final(self).state == InquiryState::Done),
            final(self).state == InquiryState::Initial ==> !final(self).command@.done,
            old(self).state == InquiryState::Running ==> if inquiry_completed(old(hci)@) {
                &&& final(self).state == InquiryState::Done
                &&& r matches Conclusion::Ready(Ok(list)) && list@ == old(self).devices@
                &&& final(hci)@ == (Session {
                    events: old(hci)@.events.remove(INQUIRY_COMPLETE).remove(INQUIRY_RESULT),
                    ..old(hci)@
                })
            } else {
                &&& r is Pending
                &&& final(self).state == InquiryState::Running
                &&& device_bytes(final(self).devices@) == device_bytes(old(self).devices@)
                    + accumulated(pending_results(old(hci)@))
                &&& pending_results(old(hci)@).len() == 0 ==> final(self).devices@
                    == old(self).devices@
                &&& final(hci)@ == results_taken(old(hci)@)
                &&& pending_results(old(hci)@).len() == 0 ==> final(hci)@ == old(hci)@
            },
            old(self).state == InquiryState::Initial ==> {
                let ok = final(hci)@.sent.len() > old(hci)@.sent.len();
                let (c1, s1, res) = send_step(old(self).command@, old(hci)@, waiter, ok);
                &&& final(self).command@ == c1
                &&& final(self).devices@ == old(self).devices@
                &&& match res {
                    Conclusion::Pending => r is Pending && final(self).state == InquiryState::Initial
                        && final(hci)@ == s1,
                    Conclusion::Ready(Err(e)) => r == Conclusion::<
                        Result<Vec<HciEventInquiryResponseData>, HciError>,
                    >::Ready(Err(e)) && final(hci)@ == s1,
                    Conclusion::Ready(Ok(())) => {
                        let free = (!s1.events.contains_key(INQUIRY_RESULT)
                            || s1.events[INQUIRY_RESULT].waiter == waiter) && (
                        !s1.events.contains_key(INQUIRY_COMPLETE)
                            || s1.events[INQUIRY_COMPLETE].waiter == waiter);
                        &&& free ==> {
                            &&& r is Pending
                            &&& final(self).state == InquiryState::Running
                            &&& final(hci)@ == (Session {
                                events: s1.events.insert(
                                    INQUIRY_RESULT,
                                    EventEntry { waiter, events: Seq::empty() },
                                ).insert(INQUIRY_COMPLETE, EventEntry { waiter, events: Seq::empty() }),
                                ..s1
                            })
                        }
                        &&& !free ==> r == Conclusion::<
                            Result<Vec<HciEventInquiryResponseData>, HciError>,
                        >::Ready(Err(HciError { kind: HciErrorKind::Busy }))
                    },
                }
            },
    {
        match self.state {
            InquiryState::Initial => {
                match self.command.think(hci, waiter) {
                    Conclusion::Pending => Conclusion::Pending,
                    Conclusion::Ready(Err(e)) => {
                        self.state = InquiryState::Done;
                        Conclusion::Ready(Err(e))
                    },
                    Conclusion::Ready(Ok(())) => {
                        let ghost s1 = hci@;
                        if !hci.register_event(INQUIRY_RESULT, waiter) {
                            self.state = InquiryState::Done;
                            return Conclusion::Ready(Err(HciError::new(HciErrorKind::Busy)));
                        }
                        if !hci.register_event(INQUIRY_COMPLETE, waiter) {
                            hci.deregister_event(INQUIRY_RESULT);
                            self.state = InquiryState::Done;
                            return Conclusion::Ready(Err(HciError::new(HciErrorKind::Busy)));
                        }
                        let _ = hci.take_events(INQUIRY_RESULT);
                        let _ = hci.take_events(INQUIRY_COMPLETE);
                        assert(hci@.events =~= s1.events.insert(
                            INQUIRY_RESULT,
                            EventEntry { waiter, events: Seq::empty() },
                        ).insert(INQUIRY_COMPLETE, EventEntry { waiter, events: Seq::empty() }));
                        assert(hci@ =~= Session {
                            events: s1.events.insert(
                                INQUIRY_RESULT,
                                EventEntry { waiter, events: Seq::empty() },
                            ).insert(INQUIRY_COMPLETE, EventEntry { waiter, events: Seq::empty() }),
                            ..s1
                        });
                        self.state = InquiryState::Running;
                        Conclusion::Pending
                    },
                }
            },
            InquiryState::Running => {
                if hci.has_events(INQUIRY_COMPLETE) {
                    hci.deregister_event(INQUIRY_COMPLETE);
                    hci.deregister_event(INQUIRY_RESULT);
                    self.state = InquiryState::Done;
                    let mut list: Vec<HciEventInquiryResponseData> = Vec::new();
                    core::mem::swap(&mut list, &mut self.devices);
                    Conclusion::Ready(Ok(list))
                } else {
                    self.gather(hci);
                    Conclusion::Pending
                }
            },
            InquiryState::Done => Conclusion::Pending,
        }
    }
}

} // verus!
