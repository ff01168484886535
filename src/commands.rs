//! HCI commands: opcodes, headers and the parameter layout of each command.
use vstd::prelude::*;
use crate::connection::{HciConnectionRole, role_value};

verus! {

/// An HCI command opcode: `(group << 10) | command`.
#[derive(Debug, Clone, Copy, PartialEq, Eq, Structural)]
pub enum HciCommand {
    Unknown,
    Inquiry,
    CreateConnection,
    AcceptConnection,
    Reset,
    WriteLocalName,
    WriteScanEnable,
    WriteClassOfDevice,
    ReadVersionInfo,
    ReadBDAddr,
    DownloadMiniDriver,
    WriteRam,
    LaunchRam,
}


/// The 16-bit wire value of an opcode.
pub open spec fn opcode_value(c: HciCommand) -> u16 {
    match c {
        HciCommand::Unknown => 0,
        HciCommand::Inquiry => 0x0401,
        HciCommand::CreateConnection => 0x0405,
        HciCommand::AcceptConnection => 0x0409,
        HciCommand::Reset => 0x0C03,
        HciCommand::WriteLocalName => 0x0C13,
        HciCommand::WriteScanEnable => 0x0C1A,
        HciCommand::WriteClassOfDevice => 0x0C24,
        HciCommand::ReadVersionInfo => 0x1001,
        HciCommand::ReadBDAddr => 0x1009,
        HciCommand::DownloadMiniDriver => 0xFC2E,
        HciCommand::WriteRam => 0xFC4C,
        HciCommand::LaunchRam => 0xFC4E,
    }
}

/// The opcode named by a 16-bit wire value; values that name no known command are `Unknown`.
pub open spec fn opcode_of(v: u16) -> HciCommand {
    if v == 0x0401 {
        HciCommand::Inquiry
    } else if v == 0x0405 {
        HciCommand::CreateConnection
    } else if v == 0x0409 {
        HciCommand::AcceptConnection
    } else if v == 0x0C03 {
        HciCommand::Reset
    } else if v == 0x0C13 {
        HciCommand::WriteLocalName
    } else if v == 0x0C1A {
        HciCommand::WriteScanEnable
    } else if v == 0x0C24 {
        HciCommand::WriteClassOfDevice
    } else if v == 0x1001 {
        HciCommand::ReadVersionInfo
    } else if v == 0x1009 {
        HciCommand::ReadBDAddr
    } else if v == 0xFC2E {
        HciCommand::DownloadMiniDriver
    } else if v == 0xFC4C {
        HciCommand::WriteRam
    } else if v == 0xFC4E {
        HciCommand::LaunchRam
    } else {
        HciCommand::Unknown
    }
}

impl HciCommand {
    /// The opcode named by a 16-bit wire value.
    pub fn from(orig: u16) -> (r: HciCommand)
        ensures
            r == opcode_of(orig),
    {
        if orig == 0x0401 {
            HciCommand::Inquiry
        } else if orig == 0x0405 {
            HciCommand::CreateConnection
        } else if orig == 0x0409 {
            HciCommand::AcceptConnection
        } else if orig == 0x0C03 {
            HciCommand::Reset
        } else if orig == 0x0C13 {
            HciCommand::WriteLocalName
        } else if orig == 0x0C1A {
            HciCommand::WriteScanEnable
        } else if orig == 0x0C24 {
            HciCommand::WriteClassOfDevice
        } else if orig == 0x1001 {
            HciCommand::ReadVersionInfo
        } else if orig == 0x1009 {
            HciCommand::ReadBDAddr
        } else if orig == 0xFC2E {
            HciCommand::DownloadMiniDriver
        } else if orig == 0xFC4C {
            HciCommand::WriteRam
        } else if orig == 0xFC4E {
            HciCommand::LaunchRam
        } else {
            HciCommand::Unknown
        }
    }

    /// The 16-bit wire value of this opcode.
    pub fn value(&self) -> (r: u16)
        ensures
            r == opcode_value(*self),
    {
        match self {
            HciCommand::Unknown => 0,
            HciCommand::Inquiry => 0x0401,
            HciCommand::CreateConnection => 0x0405,
            HciCommand::AcceptConnection => 0x0409,
            HciCommand::Reset => 0x0C03,
            HciCommand::WriteLocalName => 0x0C13,
            HciCommand::WriteScanEnable => 0x0C1A,
            HciCommand::WriteClassOfDevice => 0x0C24,
            HciCommand::ReadVersionInfo => 0x1001,
            HciCommand::ReadBDAddr => 0x1009,
            HciCommand::DownloadMiniDriver => 0xFC2E,
            HciCommand::WriteRam => 0xFC4C,
            HciCommand::LaunchRam => 0xFC4E,
        }
    }
}


/// Encodes a 16-bit value as its low byte followed by its high byte.
pub open spec fn le_bytes(v: u16) -> Seq<u8> {
    seq![(v % 256) as u8, (v / 256) as u8]
}

/// The 16-bit value of a little-endian byte pair.
pub open spec fn le_value(lo: u8, hi: u8) -> u16 {
    (lo as int + 256 * hi as int) as u16
}

/// Reads a little-endian 16-bit value.
pub fn read_le16(lo: u8, hi: u8) -> (r: u16)
    ensures
        r == le_value(lo, hi),
        r as int == lo as int + 256 * hi as int,
{
    lo as u16 + (hi as u16) * 256
}

/// The header that precedes the parameters of every command on the wire.
#[derive(Debug, Clone, Copy, PartialEq, Eq, Structural)]
pub struct HciCommandHeader {
    pub op_code: HciCommand,
    pub param_length: u8,
}

/// A command that can be sent to the controller: an opcode and its serialized parameters.
pub trait IsHciCommand: Sized {
    /// The 16-bit opcode this command is sent with.
    spec fn spec_opcode(&self) -> u16;

    /// The serialized parameters, in wire order.
    spec fn spec_parameters(&self) -> Seq<u8>;

    /// Whether the parameters fit the one-byte length field.
    spec fn wf(&self) -> bool;

    /// A well-formed command's parameters fit the one-byte length field.
    proof fn lemma_parameters_fit(&self)
        requires
            self.wf(),
        ensures
            self.spec_parameters().len() <= 255,
    ;

    /// The 16-bit opcode this command is sent with.
    fn opcode(&self) -> (r: u16)
        ensures
            r == self.spec_opcode(),
    ;

    /// The serialized parameters, in wire order.
    fn parameters(&self) -> (r: Vec<u8>)
        requires
            self.wf(),
        ensures
            r@ == self.spec_parameters(),
            r@.len() <= 255,
    ;

    /// The opcode this command is sent with, as a named command.
    fn op_code(&self) -> (r: HciCommand)
        ensures
            r == opcode_of(self.spec_opcode()),
    {
        HciCommand::from(self.opcode())
    }

    /// The number of bytes the command occupies on the wire after the packet type byte.
    fn size(&self) -> (r: usize)
        requires
            self.wf(),
        ensures
            r == 3 + self.spec_parameters().len(),
    {
        let p = self.parameters();
        3 + p.len()
    }

    /// The header of this command.
    fn header(&self) -> (r: HciCommandHeader)
        requires
            self.wf(),
        ensures
            r.op_code == opcode_of(self.spec_opcode()),
            r.param_length as int == self.spec_parameters().len(),
    {
        let p = self.parameters();
        HciCommandHeader { op_code: self.op_code(), param_length: p.len() as u8 }
    }
}

/// The parameter length a command's header announces.
pub fn get_command_size<C: IsHciCommand>(command: &C) -> (r: u8)
    requires
        command.wf(),
    ensures
        r as int == command.spec_parameters().len(),
{
    let p = command.parameters();
    p.len() as u8
}

/// Byte size of a Bluetooth device address.
pub const BD_ADDRESS_SIZE: usize = 6;

/// Byte size of a class-of-device value.
pub const BD_COD_SIZE: usize = 3;

/// Largest local name the controller takes.
pub const NAME_SIZE: usize = 248;

/// Class of device of a limited discoverable desktop computer, in wire (little-endian) order.
pub const COD_COMPUTER: [u8; 3] = [0x0C, 0x01, 0x02];

/// Resets the controller.
#[derive(Debug, Clone, Copy)]
pub struct HciCommandReset {}

impl HciCommandReset {
    pub fn new() -> (r: Self) {
        HciCommandReset {  }
    }
}

impl IsHciCommand for HciCommandReset {
    open spec fn spec_opcode(&self) -> u16 {
        0x0C03
    }

    open spec fn spec_parameters(&self) -> Seq<u8> {
        seq![]
    }

    open spec fn wf(&self) -> bool {
        true
    }

    proof fn lemma_parameters_fit(&self) {
    }

    fn opcode(&self) -> (r: u16) {
        0x0C03
    }

    fn parameters(&self) -> (r: Vec<u8>) {
        Vec::new()
    }
}

/// Asks the controller to accept a firmware mini driver.
#[derive(Debug, Clone, Copy)]
pub struct HciCommandDownloadMiniDriver {}

impl HciCommandDownloadMiniDriver {
    pub fn new() -> (r: Self) {
        HciCommandDownloadMiniDriver {  }
    }
}

impl IsHciCommand for HciCommandDownloadMiniDriver {
    open spec fn spec_opcode(&self) -> u16 {
        0xFC2E
    }

    open spec fn spec_parameters(&self) -> Seq<u8> {
        seq![]
    }

    open spec fn wf(&self) -> bool {
        true
    }

    proof fn lemma_parameters_fit(&self) {
    }

    fn opcode(&self) -> (r: u16) {
        0xFC2E
    }

    fn parameters(&self) -> (r: Vec<u8>) {
        Vec::new()
    }
}

/// Reads the controller's device address.
#[derive(Debug, Clone, Copy)]
pub struct HciCommandReadBDAddr {}

impl HciCommandReadBDAddr {
    pub fn new() -> (r: Self) {
        HciCommandReadBDAddr {  }
    }
}

impl IsHciCommand for HciCommandReadBDAddr {
    open spec fn spec_opcode(&self) -> u16 {
        0x1009
    }

    open spec fn spec_parameters(&self) -> Seq<u8> {
        seq![]
    }

    open spec fn wf(&self) -> bool {
        true
    }

    proof fn lemma_parameters_fit(&self) {
    }

    fn opcode(&self) -> (r: u16) {
        0x1009
    }

    fn parameters(&self) -> (r: Vec<u8>) {
        Vec::new()
    }
}

/// Sets the class of device the controller announces.
#[derive(Debug, Clone, Copy)]
pub struct HciCommandWriteClassOfDevice {
    pub device_class: [u8; 3],
}

impl HciCommandWriteClassOfDevice {
    pub fn new(device_class: [u8; 3]) -> (r: Self)
        ensures
            r.device_class == device_class,
    {
        HciCommandWriteClassOfDevice { device_class }
    }
}

impl IsHciCommand for HciCommandWriteClassOfDevice {
    open spec fn spec_opcode(&self) -> u16 {
        0x0C24
    }

    open spec fn spec_parameters(&self) -> Seq<u8> {
        self.device_class@
    }

    open spec fn wf(&self) -> bool {
        true
    }

    proof fn lemma_parameters_fit(&self) {
    }

    fn opcode(&self) -> (r: u16) {
        0x0C24
    }

    fn parameters(&self) -> (r: Vec<u8>) {
        let r = vec![self.device_class[0], self.device_class[1], self.device_class[2]];
        assert(r@ =~= self.device_class@);
        r
    }
}

/// Sets the name the controller announces.
#[derive(Debug)]
pub struct HciCommandWriteLocalName {
    pub local_name: Vec<u8>,
}

impl HciCommandWriteLocalName {
    pub fn new(local_name: &[u8]) -> (r: Self)
        requires
            local_name@.len() <= NAME_SIZE,
        ensures
            r.local_name@ == local_name@,
            r.wf(),
    {
        HciCommandWriteLocalName { local_name: vstd::slice::slice_to_vec(local_name) }
    }
}

impl IsHciCommand for HciCommandWriteLocalName {
    open spec fn spec_opcode(&self) -> u16 {
        0x0C13
    }

    open spec fn spec_parameters(&self) -> Seq<u8> {
        self.local_name@
    }

    open spec fn wf(&self) -> bool {
        self.local_name@.len() <= NAME_SIZE
    }

    proof fn lemma_parameters_fit(&self) {
    }

    fn opcode(&self) -> (r: u16) {
        0x0C13
    }

    fn parameters(&self) -> (r: Vec<u8>) {
        vstd::slice::slice_to_vec(self.local_name.as_slice())
    }
}

/// Which scans the controller answers.
#[derive(Debug, Clone, Copy, PartialEq, Eq, Structural)]
pub enum ScanEnableType {
    NoScans,
    Inquiry,
    Page,
    Both,
}

/// The wire value of a scan setting.
pub open spec fn scan_enable_value(s: ScanEnableType) -> u8 {
    match s {
        ScanEnableType::NoScans => 0,
        ScanEnableType::Inquiry => 1,
        ScanEnableType::Page => 2,
        ScanEnableType::Both => 3,
    }
}

/// Sets which scans the controller answers.
#[derive(Debug, Clone, Copy)]
pub struct HciCommandWriteScanEnable {
    pub scan_type: ScanEnableType,
}

impl HciCommandWriteScanEnable {
    pub fn new(scan_type: ScanEnableType) -> (r: Self)
        ensures
            r.scan_type == scan_type,
    {
        HciCommandWriteScanEnable { scan_type }
    }
}

impl IsHciCommand for HciCommandWriteScanEnable {
    open spec fn spec_opcode(&self) -> u16 {
        0x0C1A
    }

    open spec fn spec_parameters(&self) -> Seq<u8> {
        seq![scan_enable_value(self.scan_type)]
    }

    open spec fn wf(&self) -> bool {
        true
    }

    proof fn lemma_parameters_fit(&self) {
    }

    fn opcode(&self) -> (r: u16) {
        0x0C1A
    }

    fn parameters(&self) -> (r: Vec<u8>) {
        let v: u8 = match self.scan_type {
            ScanEnableType::NoScans => 0,
            ScanEnableType::Inquiry => 1,
            ScanEnableType::Page => 2,
            ScanEnableType::Both => 3,
        };
        let r = vec![v];
        assert(r@ =~= seq![scan_enable_value(self.scan_type)]);
        r
    }
}

/// A vendor specific command, as carried by the chunks of a firmware blob.
#[derive(Debug)]
pub struct HciCommandVendorBcm {
    pub op_code: u16,
    pub data: Vec<u8>,
}

impl HciCommandVendorBcm {
    pub fn new(op_code: u16, data: &[u8]) -> (r: Self)
        requires
            data@.len() <= 255,
        ensures
            r.op_code == op_code,
            r.data@ == data@,
            r.wf(),
    {
        HciCommandVendorBcm { op_code, data: vstd::slice::slice_to_vec(data) }
    }
}

impl IsHciCommand for HciCommandVendorBcm {
    open spec fn spec_opcode(&self) -> u16 {
        self.op_code
    }

    open spec fn spec_parameters(&self) -> Seq<u8> {
        self.data@
    }

    open spec fn wf(&self) -> bool {
        self.data@.len() <= 255
    }

    proof fn lemma_parameters_fit(&self) {
    }

    fn opcode(&self) -> (r: u16) {
        self.op_code
    }

    fn parameters(&self) -> (r: Vec<u8>) {
        vstd::slice::slice_to_vec(self.data.as_slice())
    }
}


/// How long an inquiry lasts, in units of 1.28 s on the wire.
#[derive(Debug, Clone, Copy, PartialEq, Eq, Structural)]
pub enum InquiryLength {
    /// The shortest inquiry, 1.28 s.
    Min,
    /// The longest inquiry, 61.44 s.
    Max,
    /// About the given number of seconds.
    Sec(u8),
}

/// Wire code of the shortest inquiry.
pub const INQUIRY_LENGTH_MIN: u8 = 0x01;

/// Wire code of the longest inquiry.
pub const INQUIRY_LENGTH_MAX: u8 = 0x30;

/// The wire code of an inquiry length: `(seconds * 100 + 64) / 128`, kept within the bounds.
pub open spec fn inquiry_length_code(l: InquiryLength) -> u8 {
    match l {
        InquiryLength::Min => INQUIRY_LENGTH_MIN,
        InquiryLength::Max => INQUIRY_LENGTH_MAX,
        InquiryLength::Sec(s) => {
            let c = (s as int * 100 + 64) / 128;
            if c < INQUIRY_LENGTH_MIN as int {
                INQUIRY_LENGTH_MIN
            } else if c > INQUIRY_LENGTH_MAX as int {
                INQUIRY_LENGTH_MAX
            } else {
                c as u8
            }
        },
    }
}

impl From<InquiryLength> for u8 {
    fn from(orig: InquiryLength) -> (r: u8) {
        match orig {
            InquiryLength::Min => INQUIRY_LENGTH_MIN,
            InquiryLength::Max => INQUIRY_LENGTH_MAX,
            InquiryLength::Sec(s) => {
                let c: u16 = ((s as u16) * 100 + 64) / 128;
                if c < INQUIRY_LENGTH_MIN as u16 {
                    INQUIRY_LENGTH_MIN
                } else if c > INQUIRY_LENGTH_MAX as u16 {
                    INQUIRY_LENGTH_MAX
                } else {
                    c as u8
                }
            },
        }
    }
}

impl vstd::std_specs::convert::FromSpecImpl<InquiryLength> for u8 {
    open spec fn obeys_from_spec() -> bool {
        true
    }

    open spec fn from_spec(v: InquiryLength) -> u8 {
        inquiry_length_code(v)
    }
}

/// Limited dedicated inquiry access code.
pub const INQUIRY_LAP_LIAC: [u8; 3] = [0x00, 0x8B, 0x9E];

/// General inquiry access code.
pub const INQUIRY_LAP_GIAC: [u8; 3] = [0x33, 0x8B, 0x9E];

/// Searches for nearby devices.
#[derive(Debug, Clone, Copy)]
pub struct HciCommandInquiry {
    pub lap: [u8; 3],
    pub length: u8,
    pub max_responses: u8,
}

impl HciCommandInquiry {
    pub fn new(lap: [u8; 3], length: InquiryLength, max_responses: u8) -> (r: Self)
        ensures
            r.lap == lap,
            r.length == inquiry_length_code(length),
            r.max_responses == max_responses,
    {
        HciCommandInquiry { lap, length: u8::from(length), max_responses }
    }
}

impl IsHciCommand for HciCommandInquiry {
    open spec fn spec_opcode(&self) -> u16 {
        0x0401
    }

    open spec fn spec_parameters(&self) -> Seq<u8> {
        self.lap@ + seq![self.length, self.max_responses]
    }

    open spec fn wf(&self) -> bool {
        true
    }

    proof fn lemma_parameters_fit(&self) {
    }

    fn opcode(&self) -> (r: u16) {
        0x0401
    }

    fn parameters(&self) -> (r: Vec<u8>) {
        let r = vec![self.lap[0], self.lap[1], self.lap[2], self.length, self.max_responses];
        assert(r@ =~= self.lap@ + seq![self.length, self.max_responses]);
        r
    }
}

/// Accepts an inbound connection request.
#[derive(Debug, Clone, Copy)]
pub struct HciCommandAcceptConnection {
    pub address: [u8; 6],
    pub role: HciConnectionRole,
}

impl HciCommandAcceptConnection {
    pub fn new(address: [u8; 6], role: HciConnectionRole) -> (r: Self)
        ensures
            r.address == address,
            r.role == role,
    {
        HciCommandAcceptConnection { address, role }
    }
}

impl IsHciCommand for HciCommandAcceptConnection {
    open spec fn spec_opcode(&self) -> u16 {
        0x0409
    }

    open spec fn spec_parameters(&self) -> Seq<u8> {
        self.address@ + seq![role_value(self.role)]
    }

    open spec fn wf(&self) -> bool {
        true
    }

    proof fn lemma_parameters_fit(&self) {
    }

    fn opcode(&self) -> (r: u16) {
        0x0409
    }

    fn parameters(&self) -> (r: Vec<u8>) {
        let a = &self.address;
        let r = vec![a[0], a[1], a[2], a[3], a[4], a[5], self.role.value()];
        assert(r@ =~= self.address@ + seq![role_value(self.role)]);
        r
    }
}

} // verus!
