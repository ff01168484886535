//! Controller initialization: reset, mini driver download, firmware upload, then a settle delay
//! while the controller reboots.
use vstd::prelude::*;
use crate::commands::{HciCommandDownloadMiniDriver, HciCommandReset};
use crate::errors::HciError;
use crate::firmware::{UploadFirmwareThinkable, upload_next, upload_outcome};
use crate::hci::{Hci, Session};
use crate::hctl::HcTransportLayer;
use crate::packet::command_bytes;
use crate::send::{SendCommandThinkable, SendResult, SendState, fresh_send, send_step};
use crate::task::{Conclusion, Waiter};

verus! {

/// How long the controller needs to reboot after the firmware was activated, in milliseconds.
pub const SETTLE_DELAY_MS: u64 = 500;

/// The stages of initialization, in the order they run.
pub enum HciInitThinkable {
    /// Nothing started yet.
    Start { firmware: Vec<u8> },
    /// The reset command runs.
    Reset { firmware: Vec<u8>, wait_for: SendCommandThinkable },
    /// The mini driver download command runs.
    MiniDriver { firmware: Vec<u8>, wait_for: SendCommandThinkable },
    /// The firmware is uploaded.
    Upload { upload: UploadFirmwareThinkable },
    /// The settle delay runs.
    Settle,
    /// The settle delay is over.
    Settled,
    /// Initialization has concluded.
    Done,
}

/// What an advance of initialization asks for.
#[derive(Debug)]
pub enum InitProgress {
    /// Wake the task again when what it waits for arrived.
    Pending,
    /// Run a timer of this many milliseconds, then call `settle_elapsed` and wake the task.
    Sleep(u64),
    /// Initialization concluded.
    Ready(Result<(), HciError>),
}

/// What the upload concluded with, as the progress `r` of the firmware stage reports it: the
/// settle delay follows a successful upload; a failure ends initialization.
pub open spec fn upload_result(r: InitProgress) -> SendResult {
    match r {
        InitProgress::Pending => Conclusion::Pending,
        InitProgress::Sleep(_) => Conclusion::Ready(Ok(())),
        InitProgress::Ready(res) => Conclusion::Ready(res),
    }
}

/// Whether advancing the stage command `t` over session `s` gave `r`, the session `s2` and the
/// next state `next`: while the command runs its stage stays, with the advanced command; its
/// failure concludes initialization; its success moves on to the stage after it and wakes the
/// task again at once.
pub open spec fn stage_advanced(
    t: SendState,
    s: Session,
    waiter: Waiter,
    transport_ok: bool,
    mini_driver: bool,
    firmware: Seq<u8>,
    r: InitProgress,
    s2: Session,
    next: HciInitThinkable,
) -> bool {
    let (t1, s1, res) = send_step(t, s, waiter, transport_ok);
    match res {
        Conclusion::Pending => {
            &&& r is Pending
            &&& s2 == s1
            &&& if mini_driver {
                next matches HciInitThinkable::MiniDriver { firmware: f, wait_for } && f@ == firmware
                    && wait_for@ == t1
            } else {
                next matches HciInitThinkable::Reset { firmware: f, wait_for } && f@ == firmware
                    && wait_for@ == t1
            }
        },
        Conclusion::Ready(Err(e)) => r == InitProgress::Ready(Err(e)) && s2 == s1 && next is Done,
        Conclusion::Ready(Ok(())) => {
            &&& r is Pending
            &&& s2 == (Session { wakes: s1.wakes.push(waiter), ..s1 })
            &&& if mini_driver {
                next matches HciInitThinkable::Upload { upload } && upload.firmware@ == firmware
                    && upload.fw_offset == 0 && upload.command is None && !upload.done
                    && upload.chunk@ == 0
            } else {
                next matches HciInitThinkable::MiniDriver { firmware: f, wait_for } && f@ == firmware
                    && wait_for@ == fresh_send(0xFC2E, Seq::empty())
            }
        },
    }
}

/// Advances the stage command `t`; see `stage_advanced`.
fn advance_stage<T: HcTransportLayer>(
    hci: &mut Hci<T>,
    waiter: Waiter,
    firmware: Vec<u8>,
    mut t: SendCommandThinkable,
    mini_driver: bool,
) -> (r: (HciInitThinkable, InitProgress))
    requires
        !t@.done,
        mini_driver ==> t@.op_code == 0xFC2E,
        !mini_driver ==> t@.op_code == 0x0C03,
    ensures
        stage_advanced(
            t@,
            old(hci)@,
            waiter,
            final(hci)@.sent.len() > old(hci)@.sent.len(),
            mini_driver,
            firmware@,
            r.1,
            final(hci)@,
            r.0,
        ),
        r.0.wf(),
{
    let ghost fw = firmware@;
    match t.think(hci, waiter) {
        Conclusion::Pending => {
            if mini_driver {
                (HciInitThinkable::MiniDriver { firmware, wait_for: t }, InitProgress::Pending)
            } else {
                (HciInitThinkable::Reset { firmware, wait_for: t }, InitProgress::Pending)
            }
        },
        Conclusion::Ready(Err(e)) => (HciInitThinkable::Done, InitProgress::Ready(Err(e))),
        Conclusion::Ready(Ok(())) => {
            let ghost s1 = hci@;
            hci.wakes.push(waiter);
            assert(hci@ =~= Session { wakes: s1.wakes.push(waiter), ..s1 });
            if mini_driver {
                (HciInitThinkable::Upload { upload: UploadFirmwareThinkable::new(firmware) }, InitProgress::Pending)
            } else {
                let cmd = HciCommandDownloadMiniDriver::new();
                let next = SendCommandThinkable::new(&cmd);
                assert(command_bytes(cmd) =~= crate::packet::command_packet_bytes(1, 0xFC2E, Seq::empty()));
                (HciInitThinkable::MiniDriver { firmware, wait_for: next }, InitProgress::Pending)
            }
        },
    }
}

impl HciInitThinkable {
    /// Position of the current stage in the sequence.
    pub open spec fn stage(&self) -> nat {
        match self {
            HciInitThinkable::Start { .. } => 0,
            HciInitThinkable::Reset { .. } => 1,
            HciInitThinkable::MiniDriver { .. } => 2,
            HciInitThinkable::Upload { .. } => 3,
            HciInitThinkable::Settle => 4,
            HciInitThinkable::Settled => 5,
            HciInitThinkable::Done => 6,
        }
    }

    /// Whether the running sub-task can be advanced.
    pub open spec fn wf(&self) -> bool {
        match self {
            HciInitThinkable::Reset { wait_for, .. } => !wait_for@.done && wait_for@.op_code == 0x0C03,
            HciInitThinkable::MiniDriver { wait_for, .. } => !wait_for@.done && wait_for@.op_code
                == 0xFC2E,
            HciInitThinkable::Upload { upload } => upload.wf() && !upload.done,
            _ => true,
        }
    }

    /// Initialization that will upload `firmware`.
    pub fn new(firmware: Vec<u8>) -> (r: Self)
        ensures
            r matches HciInitThinkable::Start { firmware: f } && f@ == firmware@,
            r.stage() == 0,
            r.wf(),
    {
        HciInitThinkable::Start { firmware }
    }

    /// Ends the settle delay.
    pub fn settle_elapsed(&mut self)
        ensures
            old(self).stage() == 4 ==> final(self).stage() == 5,
            old(self).stage() != 4 ==> *final(self) == *old(self),
    {
        if let HciInitThinkable::Settle = self {
            *self = HciInitThinkable::Settled;
        }
    }

    /// Advances initialization for `waiter`. Each stage starts once the one before it succeeded,
    /// and no stage runs twice; the first failure concludes initialization with that failure.
    pub fn think<T: HcTransportLayer>(&mut self, hci: &mut Hci<T>, waiter: Waiter) -> (r: InitProgress)
        requires
            old(self).wf(),
            old(self).stage() < 6,
        ensures
            final(self).wf(),
            final(self).stage() >= old(self).stage(),
            (r is Ready) == (final(self).stage() == 6),
            ({
                let ok = final(hci)@.sent.len() > old(hci)@.sent.len();
                match *old(self) {
                    HciInitThinkable::Start { firmware } => stage_advanced(
                        fresh_send(0x0C03, Seq::empty()),
                        old(hci)@,
                        waiter,
                        ok,
                        false,
                        firmware@,
                        r,
                        final(hci)@,
                        *final(self),
                    ),
                    HciInitThinkable::Reset { firmware, wait_for } => stage_advanced(
                        wait_for@,
                        old(hci)@,
                        waiter,
                        ok,
                        false,
                        firmware@,
                        r,
                        final(hci)@,
                        *final(self),
                    ),
                    HciInitThinkable::MiniDriver { firmware, wait_for } => stage_advanced(
                        wait_for@,
                        old(hci)@,
                        waiter,
                        ok,
                        true,
                        firmware@,
                        r,
                        final(hci)@,
                        *final(self),
                    ),
                    HciInitThinkable::Upload { upload } => {
                        &&& upload_outcome(upload, old(hci)@, waiter, ok, upload_result(r), final(hci)@)
                        &&& r is Pending ==> (*final(self) matches HciInitThinkable::Upload { upload: u2 }
                            && upload_next(upload, old(hci)@, waiter, ok, u2))
                        &&& r is Sleep ==> r == InitProgress::Sleep(SETTLE_DELAY_MS) && *final(self) is Settle
                        &&& r matches InitProgress::Ready(res) ==> res is Err && *final(self) is Done
                    },
                    HciInitThinkable::Settle => r is Pending && final(self).stage() == 4 && final(hci)@
                        == old(hci)@,
                    HciInitThinkable::Settled => r == InitProgress::Ready(Ok(())) && final(hci)@
                        == old(hci)@,
                    HciInitThinkable::Done => false,
                }
            }),
    {
        let mut state = HciInitThinkable::Done;
        core::mem::swap(&mut state, self);
        match state {
            HciInitThinkable::Start { firmware } => {
                let cmd = HciCommandReset::new();
                let t = SendCommandThinkable::new(&cmd);
                assert(command_bytes(cmd) =~= crate::packet::command_packet_bytes(1, 0x0C03, Seq::empty()));
                let (next, r) = advance_stage(hci, waiter, firmware, t, false);
                *self = next;
                r
            },
            HciInitThinkable::Reset { firmware, wait_for } => {
                let (next, r) = advance_stage(hci, waiter, firmware, wait_for, false);
                *self = next;
                r
            },
            HciInitThinkable::MiniDriver { firmware, wait_for } => {
                let (next, r) = advance_stage(hci, waiter, firmware, wait_for, true);
                *self = next;
                r
            },
            HciInitThinkable::Upload { mut upload } => {
                match upload.think(hci, waiter) {
                    Conclusion::Pending => {
                        *self = HciInitThinkable::Upload { upload };
                        InitProgress::Pending
                    },
                    Conclusion::Ready(Err(e)) => InitProgress::Ready(Err(e)),
                    Conclusion::Ready(Ok(())) => {
                        *self = HciInitThinkable::Settle;
                        InitProgress::Sleep(SETTLE_DELAY_MS)
                    },
                }
            },
            HciInitThinkable::Settle => {
                *self = HciInitThinkable::Settle;
                InitProgress::Pending
            },
            HciInitThinkable::Settled => InitProgress::Ready(Ok(())),
            HciInitThinkable::Done => InitProgress::Pending,
        }
    }
}

} // verus!
