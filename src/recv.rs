//! The receive dispatcher: frames the inbound byte stream into packets and routes each event to
//! its waiter.
use vstd::prelude::*;
use crate::errors::{HciError, HciErrorKind};
use crate::hci::{Hci, Session, dispatched};
use crate::task::Conclusion;

verus! {

/// Whether `t` is the type byte of a packet the wire carries: command, ACL data, synchronous
/// data or event.
pub open spec fn known_type(t: u8) -> bool {
    1 <= t <= 4
}

/// Bytes of the header that follows the type byte: event code and length for an event; opcode
/// or handle and a one-byte length for command and synchronous data; handle and a two-byte
/// length for ACL data.
pub open spec fn header_len(t: u8) -> int {
    if t == 4 {
        2
    } else if t == 2 {
        4
    } else {
        3
    }
}

/// The payload length a frame's header announces.
pub open spec fn payload_len(f: Seq<u8>) -> int
    recommends
        f.len() >= 1 + header_len(f[0]),
{
    if f[0] == 4 {
        f[2] as int
    } else if f[0] == 2 {
        f[3] as int + 256 * f[4] as int
    } else {
        f[3] as int
    }
}

/// Whether `f` is one whole frame: a known type byte, its header, and the payload it announces.
pub open spec fn frame_complete(f: Seq<u8>) -> bool {
    &&& f.len() >= 1
    &&& known_type(f[0])
    &&& f.len() >= 1 + header_len(f[0])
    &&& f.len() == 1 + header_len(f[0]) + payload_len(f)
}

/// The framing state and the session after the received bytes were taken in.
pub struct Received {
    /// Bytes of the frame begun but not yet whole.
    pub buf: Seq<u8>,
    /// The type byte that broke the framing, once one came.
    pub halted: Option<u8>,
    pub session: Session,
}

/// Takes in one byte: a zero between frames is ignored; an unknown type byte between frames
/// halts all further interpretation; any other byte extends the frame, and a whole event frame
/// is delivered while other whole frames are dropped.
pub open spec fn receive_byte(st: Received, b: u8) -> Received {
    if st.halted is Some {
        st
    } else if st.buf.len() == 0 && b == 0 {
        st
    } else if st.buf.len() == 0 && !known_type(b) {
        Received { halted: Some(b), ..st }
    } else {
        let f = st.buf.push(b);
        if frame_complete(f) {
            Received {
                buf: Seq::empty(),
                session: if f[0] == 4 { dispatched(st.session, f.drop_first()) } else { st.session },
                ..st
            }
        } else {
            Received { buf: f, ..st }
        }
    }
}

/// Takes in `data`, byte by byte.
pub open spec fn receive_all(st: Received, data: Seq<u8>) -> Received
    decreases data.len(),
{
    if data.len() == 0 {
        st
    } else {
        receive_byte(receive_all(st, data.drop_last()), data.last())
    }
}

/// Once the framing broke, nothing more is interpreted: the state stays as it is whatever bytes
/// follow.
pub proof fn lemma_halt_is_final(st: Received, data: Seq<u8>)
    requires
        st.halted is Some,
    ensures
        receive_all(st, data) == st,
    decreases data.len(),
{
    if data.len() > 0 {
        lemma_halt_is_final(st, data.drop_last());
    }
}

/// The long-lived task that frames inbound bytes and routes the events among them.
pub struct RecvPacketThinkable {
    /// Bytes of the frame begun but not yet whole.
    pub buf: Vec<u8>,
    /// The type byte that broke the framing, once one came.
    pub halted: Option<u8>,
}

fn is_frame_complete(f: &Vec<u8>) -> (r: bool)
    ensures
        r == frame_complete(f@),
{
    if f.len() == 0 {
        return false;
    }
    let t = f[0];
    if t < 1 || t > 4 {
        return false;
    }
    let hl: usize = if t == 4 {
        2
    } else if t == 2 {
        4
    } else {
        3
    };
    if f.len() < 1 + hl {
        return false;
    }
    let pl: usize = if t == 4 {
        f[2] as usize
    } else if t == 2 {
        f[3] as usize + 256 * (f[4] as usize)
    } else {
        f[3] as usize
    };
    f.len() == 1 + hl + pl
}

impl RecvPacketThinkable {
    pub fn new() -> (r: Self)
        ensures
            r.buf@ == Seq::<u8>::empty(),
            r.halted is None,
    {
        RecvPacketThinkable { buf: Vec::new(), halted: None }
    }

    /// The state the contracts speak of, over `session`.
    pub open spec fn state(&self, session: Session) -> Received {
        Received { buf: self.buf@, halted: self.halted, session }
    }

    fn receive_byte<T>(&mut self, hci: &mut Hci<T>, b: u8)
        ensures
            final(self).state(final(hci)@) == receive_byte(old(self).state(old(hci)@), b),
            final(hci).transport == old(hci).transport,
    {
        if self.halted.is_some() {
            return;
        }
        if self.buf.len() == 0 {
            if b == 0 {
                return;
            }
            if b < 1 || b > 4 {
                self.halted = Some(b);
                return;
            }
        }
        self.buf.push(b);
        if is_frame_complete(&self.buf) {
            let mut f: Vec<u8> = Vec::new();
            core::mem::swap(&mut f, &mut self.buf);
            if f[0] == 4 {
                let d = vstd::slice::slice_to_vec(
                    vstd::slice::slice_subrange(f.as_slice(), 1, f.len()),
                );
                assert(d@ =~= f@.drop_first());
                let _ = hci.dispatch_event(d);
            }
        }
        assert(self.buf@ =~= receive_byte(old(self).state(old(hci)@), b).buf);
    }

    /// Takes in the bytes the transport delivered since the last call, routing every event that
    /// became whole. Reports the broken framing, and stops interpreting, when a type byte that
    /// names no packet arrives between frames.
    pub fn think<T>(&mut self, hci: &mut Hci<T>, data: &[u8]) -> (r: Conclusion<HciError>)
        requires
            old(self).halted is None,
        ensures
            final(self).state(final(hci)@) == receive_all(old(self).state(old(hci)@), data@),
            final(hci).transport == old(hci).transport,
            r == (match final(self).halted {
                Some(t) => Conclusion::Ready(
                    HciError { kind: HciErrorKind::Desynchronized { packet_type: t } },
                ),
                None => Conclusion::Pending,
            }),
    {
        let ghost st0 = self.state(hci@);
        let mut i: usize = 0;
        while i < data.len()
            invariant
                i <= data@.len(),
                self.state(hci@) == receive_all(st0, data@.take(i as int)),
                hci.transport == old(hci).transport,
                st0 == old(self).state(old(hci)@),
            decreases data@.len() - i,
        {
            proof {
                assert(data@.take(i + 1).drop_last() =~= data@.take(i as int));
                assert(data@.take(i + 1).last() == data@[i as int]);
            }
            self.receive_byte(hci, data[i]);
            i += 1;
        }
        assert(data@.take(data@.len() as int) =~= data@);
        match self.halted {
            Some(t) => Conclusion::Ready(HciError::new(HciErrorKind::Desynchronized { packet_type: t })),
            None => Conclusion::Pending,
        }
    }
}

} // verus!
