//! The transport the controller is attached through.
use vstd::prelude::*;
use crate::errors::HciError;

verus! {

/// Events a transport can report.
#[derive(Debug, Clone, Copy, PartialEq, Eq, Structural)]
pub enum HctlEvent {
    /// Bytes are ready to be received.
    Receive,
}

/// A byte stream to the controller, with a notification when bytes arrive.
pub trait HcTransportLayer {
    /// Sends `data`, returning how many bytes went out.
    fn send_packet(&mut self, data: &[u8]) -> Result<usize, HciError>;

    /// Fills `buffer` with received bytes, returning how many were written.
    fn recv_packet(&mut self, buffer: &mut [u8]) -> Result<usize, HciError>;

    /// Registers `function` to be called whenever `event` happens.
    fn register_evt_handler<F: FnMut() + 'static + Send>(&mut self, event: HctlEvent, function: F);
}

} // verus!
