//! The tasks a user of the session starts: serving inbound data, initialization, configuration
//! commands, discovery and connection acceptance.
use vstd::prelude::*;
use crate::commands::{
    HciCommandDownloadMiniDriver, HciCommandReset, HciCommandWriteClassOfDevice,
    HciCommandWriteLocalName, HciCommandWriteScanEnable, InquiryLength, IsHciCommand,
    ScanEnableType, NAME_SIZE, scan_enable_value,
};
use crate::connection::HandleInboundConnectionsThinkable;
use crate::hci::Hci;
use crate::init::HciInitThinkable;
use crate::inquiry::{InquireDevicesThinkable, InquiryState};
use crate::packet::{command_bytes, command_packet_bytes};
use crate::recv::RecvPacketThinkable;
use crate::send::{SendCommandThinkable, fresh_send};

verus! {

/// How long a device scan lasts, in seconds.
pub const SCAN_SECONDS: u8 = 5;

impl<T> Hci<T> {
    /// The task that frames and routes everything the controller sends; it runs for as long as
    /// the session does.
    pub fn serve(&self) -> (r: RecvPacketThinkable)
        ensures
            r.buf@.len() == 0,
            r.halted is None,
    {
        RecvPacketThinkable::new()
    }

    /// The task that accepts inbound connections.
    pub fn serve_connections(&self) -> (r: HandleInboundConnectionsThinkable)
        ensures
            r.first,
    {
        HandleInboundConnectionsThinkable::new()
    }

    /// Initialization: reset, mini driver download, upload of `firmware`, settle delay.
    pub fn initialize(&self, firmware: Vec<u8>) -> (r: HciInitThinkable)
        ensures
            r.stage() == 0,
            r.wf(),
    {
        HciInitThinkable::new(firmware)
    }

    /// Mini driver download, upload of `firmware`, settle delay.
    pub fn upload_firmware(&self, firmware: Vec<u8>) -> (r: HciInitThinkable)
        ensures
            r.stage() == 2,
            r.wf(),
            r matches HciInitThinkable::MiniDriver { wait_for, .. } && wait_for@ == fresh_send(
                0xFC2E,
                Seq::empty(),
            ),
    {
        let cmd = HciCommandDownloadMiniDriver::new();
        assert(command_bytes(cmd) =~= command_packet_bytes(1, 0xFC2E, Seq::empty()));
        HciInitThinkable::MiniDriver { firmware, wait_for: SendCommandThinkable::new(&cmd) }
    }

    /// Sends `command`.
    pub fn send_command<C: IsHciCommand>(&self, command: C) -> (r: SendCommandThinkable)
        requires
            command.wf(),
        ensures
            r@ == fresh_send(command.spec_opcode(), command.spec_parameters()),
    {
        SendCommandThinkable::new(&command)
    }

    /// Resets the controller.
    pub fn reset(&self) -> (r: SendCommandThinkable)
        ensures
            r@ == fresh_send(0x0C03, Seq::empty()),
    {
        self.send_command(HciCommandReset::new())
    }

    /// Sets the class of device the controller announces.
    pub fn set_class_of_device(&self, cod: [u8; 3]) -> (r: SendCommandThinkable)
        ensures
            r@ == fresh_send(0x0C24, cod@),
    {
        self.send_command(HciCommandWriteClassOfDevice::new(cod))
    }

    /// Sets the name the controller announces.
    pub fn set_local_name(&self, name: &[u8]) -> (r: SendCommandThinkable)
        requires
            name@.len() <= NAME_SIZE,
        ensures
            r@ == fresh_send(0x0C13, name@),
    {
        self.send_command(HciCommandWriteLocalName::new(name))
    }

    /// Sets which scans the controller answers.
    pub fn set_scan_enable(&self, scan_enable: ScanEnableType) -> (r: SendCommandThinkable)
        ensures
            r@ == fresh_send(0x0C1A, seq![scan_enable_value(scan_enable)]),
    {
        self.send_command(HciCommandWriteScanEnable::new(scan_enable))
    }

    /// Discovers nearby devices for about five seconds.
    pub fn scan_devices(&self) -> (r: InquireDevicesThinkable)
        ensures
            r.state == InquiryState::Initial,
            r.command@ == fresh_send(0x0401, seq![0x33u8, 0x8B, 0x9E, 4, 5]),
            r.devices@.len() == 0,
    {
        InquireDevicesThinkable::new(InquiryLength::Sec(SCAN_SECONDS))
    }
}

} // verus!
