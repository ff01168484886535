//! Firmware upload: walks a blob of chunks `[opcode: 2][len: 1][payload: len]` and sends each
//! chunk as a vendor command, one after the other.
use vstd::prelude::*;
use crate::commands::{HciCommandVendorBcm, le_value, read_le16};
use crate::errors::{HciError, HciErrorKind};
use crate::hci::{Hci, Session};
use crate::hctl::HcTransportLayer;
use crate::packet::command_packet_bytes;
use crate::send::{SendCommandThinkable, SendResult, SendState, send_step};
use crate::task::{Conclusion, Waiter};

verus! {

/// Offset just past the chunk that starts at `off`.
pub open spec fn next_offset(b: Seq<u8>, off: int) -> int {
    off + 3 + b[off + 2]
}

/// Whether a whole chunk starts at `off`.
pub open spec fn chunk_fits(b: Seq<u8>, off: int) -> bool {
    0 <= off && off + 3 <= b.len() && next_offset(b, off) <= b.len()
}

/// The packet the chunk at `off` is sent as: a vendor command with the chunk's opcode and payload.
pub open spec fn chunk_packet(b: Seq<u8>, off: int) -> Seq<u8> {
    command_packet_bytes(1, le_value(b[off], b[off + 1]), b.subrange(off + 3, next_offset(b, off)))
}

/// Offset of chunk number `k`, counting from zero.
pub open spec fn chunk_start(b: Seq<u8>, k: nat) -> int
    decreases k,
{
    if k == 0 {
        0
    } else {
        next_offset(b, chunk_start(b, (k - 1) as nat))
    }
}

/// Whether the first `k` chunks are whole.
pub open spec fn chunks_fit(b: Seq<u8>, k: nat) -> bool
    decreases k,
{
    k == 0 || (chunks_fit(b, (k - 1) as nat) && chunk_fits(b, chunk_start(b, (k - 1) as nat)))
}

/// Whether the blob is exactly `k` whole chunks.
pub open spec fn chunk_count_is(b: Seq<u8>, k: nat) -> bool {
    chunks_fit(b, k) && chunk_start(b, k) == b.len()
}

/// The packets of the first `k` chunks, in blob order.
pub open spec fn chunk_packets(b: Seq<u8>, k: nat) -> Seq<Seq<u8>>
    decreases k,
{
    if k == 0 {
        Seq::empty()
    } else {
        chunk_packets(b, (k - 1) as nat).push(chunk_packet(b, chunk_start(b, (k - 1) as nat)))
    }
}

proof fn lemma_chunk_start_grows(b: Seq<u8>, i: nat, j: nat)
    requires
        i < j,
        chunks_fit(b, j),
    ensures
        chunk_start(b, i) + 3 <= chunk_start(b, j),
    decreases j,
{
    if i + 1 < j {
        lemma_chunk_start_grows(b, i, (j - 1) as nat);
    }
}

/// A blob of `k` chunks is sent as exactly `k` vendor commands, the chunks' packets in blob
/// order; and a blob has one chunk count only.
pub proof fn lemma_upload_exhaustive(b: Seq<u8>, k: nat, k2: nat)
    requires
        chunk_count_is(b, k),
        chunk_count_is(b, k2),
    ensures
        k == k2,
        chunk_packets(b, k).len() == k,
        forall|i: int|
            0 <= i < k ==> #[trigger] chunk_packets(b, k)[i] == chunk_packet(b, chunk_start(b, i as nat)),
    decreases k,
{
    if k < k2 {
        lemma_chunk_start_grows(b, k, k2);
    } else if k2 < k {
        lemma_chunk_start_grows(b, k2, k);
    }
    lemma_chunk_packets_index(b, k);
}

proof fn lemma_chunk_packets_step(b: Seq<u8>, k: nat)
    ensures
        chunk_packets(b, k).subrange(k as int, k as int) =~= Seq::<Seq<u8>>::empty(),
        chunk_packets(b, k + 1).subrange(k as int, k + 1 as int) =~= seq![chunk_packet(b, chunk_start(b, k))],
        chunk_packets(b, k + 1).len() == k + 1,
{
    lemma_chunk_packets_index(b, k + 1);
    lemma_chunk_packets_index(b, k);
}

proof fn lemma_chunk_packets_index(b: Seq<u8>, k: nat)
    ensures
        chunk_packets(b, k).len() == k,
        forall|i: int|
            0 <= i < k ==> #[trigger] chunk_packets(b, k)[i] == chunk_packet(b, chunk_start(b, i as nat)),
    decreases k,
{
    if k > 0 {
        lemma_chunk_packets_index(b, (k - 1) as nat);
    }
}

/// The send task of the chunk at `off`, not started yet.
pub open spec fn chunk_task(b: Seq<u8>, off: int) -> SendState {
    SendState { op_code: le_value(b[off], b[off + 1]), packet: Some(chunk_packet(b, off)), done: false }
}

/// Whether advancing the chunk task `t` over session `s` gave `r` and the session `s2`: the
/// task's own outcome, except that a success concludes the upload only after the `last` chunk,
/// and otherwise wakes the upload again at once to send the next chunk.
pub open spec fn chunk_advanced(
    t: SendState,
    s: Session,
    waiter: Waiter,
    transport_ok: bool,
    last: bool,
    r: SendResult,
    s2: Session,
) -> bool {
    let (t1, s1, res) = send_step(t, s, waiter, transport_ok);
    match res {
        Conclusion::Ready(Ok(())) => if last {
            r == res && s2 == s1
        } else {
            r == SendResult::Pending && s2 == (Session { wakes: s1.wakes.push(waiter), ..s1 })
        },
        _ => r == res && s2 == s1,
    }
}

/// Whether one advance of the upload `u` over session `s` gave `r` and the session `s2`. With no
/// chunk running, an upload at the end of the blob succeeds, one at a truncated chunk fails, and
/// otherwise the next chunk's task is started; the running chunk task is then advanced.
pub open spec fn upload_outcome(
    u: UploadFirmwareThinkable,
    s: Session,
    waiter: Waiter,
    transport_ok: bool,
    r: SendResult,
    s2: Session,
) -> bool {
    let b = u.firmware@;
    let off = u.fw_offset as int;
    match u.command {
        None => if off == b.len() {
            r == SendResult::Ready(Ok(())) && s2 == s
        } else if !chunk_fits(b, off) {
            r == SendResult::Ready(
                Err(HciError { kind: HciErrorKind::MalformedFirmware { offset: u.fw_offset } }),
            ) && s2 == s
        } else {
            chunk_advanced(chunk_task(b, off), s, waiter, transport_ok, next_offset(b, off) == b.len(), r, s2)
        },
        Some(c) => chunk_advanced(c@, s, waiter, transport_ok, off == b.len(), r, s2),
    }
}

/// Whether a new chunk task starts when the upload `u` is advanced.
pub open spec fn starts_chunk(u: UploadFirmwareThinkable) -> bool {
    let b = u.firmware@;
    u.command is None && u.fw_offset != b.len() && chunk_fits(b, u.fw_offset as int)
}

/// Whether `u2` is the upload after one advance of `u` over session `s`: a started chunk moves
/// the offset past it; a chunk task still waiting for its response is kept, advanced; a chunk
/// task that succeeded is released so that the next advance starts the next chunk.
pub open spec fn upload_next(
    u: UploadFirmwareThinkable,
    s: Session,
    waiter: Waiter,
    transport_ok: bool,
    u2: UploadFirmwareThinkable,
) -> bool {
    let b = u.firmware@;
    let off = u.fw_offset as int;
    let t = match u.command {
        Some(c) => c@,
        None => chunk_task(b, off),
    };
    let (t1, s1, res) = send_step(t, s, waiter, transport_ok);
    &&& u2.firmware == u.firmware
    &&& u2.fw_offset as int == (if starts_chunk(u) { next_offset(b, off) } else { off })
    &&& u2.chunk@ == (if starts_chunk(u) { u.chunk@ + 1 } else { u.chunk@ })
    &&& (starts_chunk(u) || u.command is Some) ==> match res {
        Conclusion::Pending => u2.command matches Some(c2) && c2@ == t1,
        Conclusion::Ready(Ok(())) => u2.command is None,
        Conclusion::Ready(Err(_)) => u2.done,
    }
}

/// The task that uploads a firmware blob.
pub struct UploadFirmwareThinkable {
    pub firmware: Vec<u8>,
    /// Offset of the next chunk to send.
    pub fw_offset: usize,
    /// Number of chunks before `fw_offset`.
    pub chunk: Ghost<nat>,
    /// The send task of the chunk before `fw_offset`, while it runs.
    pub command: Option<SendCommandThinkable>,
    pub done: bool,
}

impl UploadFirmwareThinkable {
    /// The next chunk starts inside the blob or right at its end.
    proof fn lemma_offset_in_blob(&self)
        requires
            self.wf(),
        ensures
            self.fw_offset <= self.firmware@.len(),
    {
        if self.chunk@ > 0 {
            assert(chunks_fit(self.firmware@, self.chunk@));
        }
    }

    /// Whether the task's fields agree: `fw_offset` is the start of chunk `chunk`, and the running
    /// send task carries the chunk before it.
    pub open spec fn wf(&self) -> bool {
        let b = self.firmware@;
        &&& chunks_fit(b, self.chunk@)
        &&& self.fw_offset == chunk_start(b, self.chunk@)
        &&& self.command matches Some(c) ==> {
            let off = chunk_start(b, (self.chunk@ - 1) as nat);
            &&& self.chunk@ >= 1
            &&& !self.done ==> !c@.done
            &&& c@.op_code == le_value(b[off], b[off + 1])
            &&& c@.packet matches Some(p) ==> p == chunk_packet(b, off)
        }
    }

    /// Number of chunks handed to the transport so far.
    pub open spec fn issued(&self) -> nat {
        match self.command {
            Some(c) => if c@.packet is Some { (self.chunk@ - 1) as nat } else { self.chunk@ },
            None => self.chunk@,
        }
    }

    /// A task that will upload `firmware`.
    pub fn new(firmware: Vec<u8>) -> (r: Self)
        ensures
            r.firmware@ == firmware@,
            r.fw_offset == 0,
            r.chunk@ == 0,
            r.command is None,
            r.wf(),
            r.issued() == 0,
            !r.done,
    {
        UploadFirmwareThinkable { firmware, fw_offset: 0, chunk: Ghost(0), command: None, done: false }
    }

    /// The send task of the chunk at `fw_offset`, and the offset moved past it.
    fn next_command(&mut self) -> (r: SendCommandThinkable)
        requires
            old(self).wf(),
            old(self).command is None,
            chunk_fits(old(self).firmware@, old(self).fw_offset as int),
        ensures
            final(self).firmware == old(self).firmware,
            final(self).chunk@ == old(self).chunk@ + 1,
            final(self).fw_offset == next_offset(old(self).firmware@, old(self).fw_offset as int),
            final(self).command is None,
            final(self).done == old(self).done,
            r@.op_code == le_value(
                old(self).firmware@[old(self).fw_offset as int],
                old(self).firmware@[old(self).fw_offset + 1],
            ),
            r@.packet == Some(chunk_packet(old(self).firmware@, old(self).fw_offset as int)),
            !r@.done,
    {
        let n = self.firmware.len();
        let off = self.fw_offset;
        let op = read_le16(self.firmware[off], self.firmware[off + 1]);
        let len = self.firmware[off + 2] as usize;
        let end = off + 3 + len;
        let payload = vstd::slice::slice_subrange(self.firmware.as_slice(), off + 3, end);
        let cmd = HciCommandVendorBcm::new(op, payload);
        self.fw_offset = end;
        self.chunk = Ghost(self.chunk@ + 1);
        SendCommandThinkable::new(&cmd)
    }

    /// Advances the upload for `waiter`. Each chunk goes out once the one before it succeeded;
    /// the task concludes successfully after the last chunk succeeded, and with the first
    /// failure otherwise.
    pub fn think<T: HcTransportLayer>(&mut self, hci: &mut Hci<T>, waiter: Waiter) -> (r: Conclusion<
        Result<(), HciError>,
    >)
        requires
            old(self).wf(),
            !old(self).done,
        ensures
            final(self).firmware == old(self).firmware,
            final(self).wf(),
            final(self).issued() == old(self).issued() || final(self).issued() == old(self).issued() + 1,
            final(hci)@.sent == old(hci)@.sent + chunk_packets(final(self).firmware@, final(self).issued()).subrange(
                old(self).issued() as int,
                final(self).issued() as int,
            ),
            chunk_packets(final(self).firmware@, final(self).issued()).len() == final(self).issued(),
            final(self).done == (r is Ready),
            r == Conclusion::<Result<(), HciError>>::Ready(Ok(())) ==> chunk_count_is(final(self).firmware@, final(self).issued()),
            old(self).command is Some && final(self).command is None ==> r is Pending || r
                == Conclusion::<Result<(), HciError>>::Ready(Ok(())),
            r matches Conclusion::Ready(Err(e)) ==> e.kind is CommandFailed ==> final(self).issued()
                == final(self).chunk@ && final(self).chunk@ >= 1,
            upload_outcome(
                *old(self),
                old(hci)@,
                waiter,
                final(hci)@.sent.len() > old(hci)@.sent.len(),
                r,
                final(hci)@,
            ),
            upload_next(*old(self), old(hci)@, waiter, final(hci)@.sent.len() > old(hci)@.sent.len(), *final(self)),
            r matches Conclusion::Ready(Err(e)) ==> (e.kind is MalformedFirmware || e.kind is CommandFailed || e.kind is Transport || e.kind is ResponseLost),
    {
        let ghost b = self.firmware@;
        let ghost k0 = self.issued();
        proof {
            lemma_chunk_packets_index(b, k0);
            lemma_chunk_packets_step(b, k0);
            if self.chunk@ > 0 {
                lemma_chunk_packets_step(b, (self.chunk@ - 1) as nat);
            }
        }
        let n = self.firmware.len();
        proof {
            self.lemma_offset_in_blob();
        }
        if self.command.is_none() {
            if self.fw_offset == n {
                self.done = true;
                return Conclusion::Ready(Ok(()));
            }
            if n - self.fw_offset < 3 || (self.firmware[self.fw_offset + 2] as usize) > n - self.fw_offset - 3 {
                self.done = true;
                return Conclusion::Ready(Err(HciError::new(HciErrorKind::MalformedFirmware { offset: self.fw_offset })));
            }
            let c = self.next_command();
            self.command = Some(c);
        }
        let mut c = self.command.take().unwrap();
        let r = c.think(hci, waiter);
        match r {
            Conclusion::Pending => {
                self.command = Some(c);
                proof {
                    if self.issued() == k0 {
                        assert(hci@.sent =~= old(hci)@.sent + chunk_packets(b, k0).subrange(k0 as int, k0 as int));
                    } else {
                        assert(self.issued() == k0 + 1);
                        assert(hci@.sent =~= old(hci)@.sent + chunk_packets(b, k0 + 1).subrange(k0 as int, k0 + 1 as int));
                    }
                }
                Conclusion::Pending
            },
            Conclusion::Ready(Err(e)) => {
                self.done = true;
                self.command = Some(c);
                Conclusion::Ready(Err(e))
            },
            Conclusion::Ready(Ok(())) => {
                if self.fw_offset == self.firmware.len() {
                    self.done = true;
                    Conclusion::Ready(Ok(()))
                } else {
                    let ghost s1 = hci@;
                    hci.wakes.push(waiter);
                    assert(hci@ =~= Session { wakes: s1.wakes.push(waiter), ..s1 });
                    Conclusion::Pending
                }
            },
        }
    }
}

} // verus!
