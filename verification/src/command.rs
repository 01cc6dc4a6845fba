//! The command table: every operation the panel understands and its bytes
//! on the wire.

use vstd::prelude::*;

verus! {

/// First byte of a write that carries a command.
pub const COMMAND_MARKER: u8 = 0x00;

/// First byte of a write that carries display data.
pub const DATA_MARKER: u8 = 0x40;

/// Commands to be sent to the SSD1327
#[derive(Clone, Copy, Debug, PartialEq, Eq)]
pub enum Commands {
    /// Setup Column start and end address (0x15)
    ColumnAddress {
        /// Start address 00-7f (RESET = 00)
        start: u8,
        /// End address 00-3f (RESET = 3F)
        end: u8,
    },
    /// Setup Row start and end address (0x75)
    RowAddress {
        /// Start address 00-7f (RESET = 00)
        start: u8,
        /// End address 00-7f (RESET = 7F)
        end: u8,
    },
    /// Double byte command to select 1 out of 256 contrast steps.
    /// Contrast increases as the value increases (RESET = 7F ) (0x81)
    ContrastControl(u8),
    /// **Re-map setting in Graphic Display Data RAM (GDDRAM)** (0xA0)\
    /// A[0] = 0, Disable Column Address Re-map (RESET)\
    /// A[0] = 1, Enable Column Address Re-map\
    /// A[1] = 0, Disable Nibble Re-map (RESET)\
    /// A[1] = 1, Enable Nibble Re-map\
    /// A[2] = 0, Enable Horizontal Address Increment (RESET)\
    /// A[2] = 1, Enable Vertical Address Increment\
    /// A[3] = 0, Reserved (RESET)\
    /// A[4] = 0, Disable COM Re-map (RESET)\
    /// A[4] = 1, Enable COM Re-map\
    /// A[5] = 0, Reserved (RESET)\
    /// A[6] = 0, Disable COM Split Odd Even (RESET)\
    /// A[6] = 1, Enable COM Split Odd Even\
    /// A[7] = 0, Reserved (RESET)
    Remap(u8),
    /// Vertical shift by setting the starting address of display RAM from 0 ~ 127 (RESET = 00) (0xA1)
    DisplayStartLine(u8),
    /// Set vertical offset by COM from 0 ~ 127 (RESET = 00) (0xA2)
    DisplayOffset(u8),
    /// Normal Display Mode (0xA4)
    DisplayModeNormal,
    /// All ON Display Mode (0xA5)
    DisplayModeAllON,
    /// All OFF Display Mode (0xA6)
    DisplayModeAllOFF,
    /// Inverse Display Display Mode (0xA7)
    DisplayModeInverseDisplay,
    /// Set MUX ratio from 16MUX ~ 128MUX (0xA8)
    MUXRatio(u8),
    /// Function Selection A (0 = external VDD; 1 = internal VDD (RESET)) (0xAB)
    FunctionSelectionA(u8),
    /// External VDD (0xAB 0x00)
    SelectExternalVDD,
    /// Internal VDD (RESET) (0xAB 0x01)
    SelectInternalVDD,
    /// Turn display ON (0xAF)
    DisplayON,
    /// Turn display OFF (0xAE)
    DisplayOFF,
    /// Phase Length (0xB1)
    PhaseLength(u8),
    /// Front Clock Divider / Oscillator Frequency (0xB3)
    FrontClockDividerOscillatorFrequency(u8),
    /// GPIO : 00 represents GPIO pin HiZ, input disable (always read as low) ;
    /// 01 represents GPIO pin HiZ, input enable ; 10 represents GPIO pin output Low (RESET) ;
    /// 11 represents GPIO pin output High ; (0xB5)
    GPIO(u8),
    /// Second Pre-charge period of 1~15 DCLK's (RESET = 0100) (0xB6)
    SecondPreChargePeriod(u8),
    /// The default Linear Gray Scale table (0xB9)
    LinearLUT,
    /// Set pre-charge voltage level (0xBC)
    PreChargeVoltage(u8),
    /// Set COM deselect voltage level (0xBE)
    VCOMH(u8),
    /// Function Selection B : 0.: Disable second precharge (RESET) ; 1.: Enable second precharge ;
    /// .0: Internal VSL (RESET) ; .1: Enable external VSL ; (0xD5)
    FunctionSelectionB(u8),
    /// MCU protection status 0x16 = Lock ; 0x12 Unlock (RESET) ; (0xFD)
    SetCommandLock(u8),
    /// Unlock OLED driver IC MCU interface from entering commands (RESET) (0xFD 0x12)
    CommandUnlock,
    /// Lock OLED driver IC MCU interface from entering commands (0xFD 0x16)
    CommandLock,
}

impl Commands {
    /// The operation code: the byte that follows the command marker.
    pub open spec fn opcode(self) -> u8 {
        match self {
            Commands::ColumnAddress { .. } => 0x15,
            Commands::RowAddress { .. } => 0x75,
            Commands::ContrastControl(_) => 0x81,
            Commands::Remap(_) => 0xA0,
            Commands::DisplayStartLine(_) => 0xA1,
            Commands::DisplayOffset(_) => 0xA2,
            Commands::DisplayModeNormal => 0xA4,
            Commands::DisplayModeAllON => 0xA5,
            Commands::DisplayModeAllOFF => 0xA6,
            Commands::DisplayModeInverseDisplay => 0xA7,
            Commands::MUXRatio(_) => 0xA8,
            Commands::FunctionSelectionA(_) => 0xAB,
            Commands::SelectExternalVDD => 0xAB,
            Commands::SelectInternalVDD => 0xAB,
            Commands::DisplayON => 0xAF,
            Commands::DisplayOFF => 0xAE,
            Commands::PhaseLength(_) => 0xB1,
            Commands::FrontClockDividerOscillatorFrequency(_) => 0xB3,
            Commands::GPIO(_) => 0xB5,
            Commands::SecondPreChargePeriod(_) => 0xB6,
            Commands::LinearLUT => 0xB9,
            Commands::PreChargeVoltage(_) => 0xBC,
            Commands::VCOMH(_) => 0xBE,
            Commands::FunctionSelectionB(_) => 0xD5,
            Commands::SetCommandLock(_) => 0xFD,
            Commands::CommandUnlock => 0xFD,
            Commands::CommandLock => 0xFD,
        }
    }

    /// The parameter bytes that follow the operation code, in wire order.
    /// A parameter that the caller supplies is passed through as given.
    pub open spec fn operands(self) -> Seq<u8> {
        match self {
            Commands::ColumnAddress { start, end } => seq![start, end],
            Commands::RowAddress { start, end } => seq![start, end],
            Commands::ContrastControl(value) => seq![value],
            Commands::Remap(value) => seq![value],
            Commands::DisplayStartLine(value) => seq![value],
            Commands::DisplayOffset(value) => seq![value],
            Commands::DisplayModeNormal => seq![],
            Commands::DisplayModeAllON => seq![],
            Commands::DisplayModeAllOFF => seq![],
            Commands::DisplayModeInverseDisplay => seq![],
            Commands::MUXRatio(value) => seq![value],
            Commands::FunctionSelectionA(value) => seq![value],
            Commands::SelectExternalVDD => seq![0x00u8],
            Commands::SelectInternalVDD => seq![0x01u8],
            Commands::DisplayON => seq![],
            Commands::DisplayOFF => seq![],
            Commands::PhaseLength(value) => seq![value],
            Commands::FrontClockDividerOscillatorFrequency(value) => seq![value],
            Commands::GPIO(value) => seq![value],
            Commands::SecondPreChargePeriod(value) => seq![value],
            Commands::LinearLUT => seq![],
            Commands::PreChargeVoltage(value) => seq![value],
            Commands::VCOMH(value) => seq![value],
            Commands::FunctionSelectionB(value) => seq![value],
            Commands::SetCommandLock(value) => seq![value],
            Commands::CommandUnlock => seq![0x00u8, 0x12u8],
            Commands::CommandLock => seq![0x00u8, 0x16u8],
        }
    }

    /// The bytes of the command on the wire: the command marker, the
    /// operation code, then the operands.
    pub open spec fn wire_bytes(self) -> Seq<u8> {
        seq![COMMAND_MARKER, self.opcode()] + self.operands()
    }

    /// Number of bytes of the command on the wire.
    pub open spec fn wire_len(self) -> nat {
        self.wire_bytes().len()
    }

    /// Encodes the command into a buffer of four bytes and the number of
    /// bytes in use. The bytes in use are the wire bytes of the command; the
    /// rest of the buffer is zero.
    pub fn encode(&self) -> (r: ([u8; 4], usize))
        ensures
            r.1 == self.wire_len(),
            2 <= r.1 <= 4,
            r.0@.take(r.1 as int) == self.wire_bytes(),
            forall|i: int| r.1 <= i < 4 ==> r.0[i] == 0,
    {
        let r: ([u8; 4], usize) = match *self {
            Commands::ColumnAddress { start, end } => ([0x00, 0x15, start, end], 4),
            Commands::RowAddress { start, end } => ([0x00, 0x75, start, end], 4),
            Commands::ContrastControl(value) => ([0x00, 0x81, value, 0], 3),
            Commands::Remap(value) => ([0x00, 0xA0, value, 0], 3),
            Commands::DisplayStartLine(value) => ([0x00, 0xA1, value, 0], 3),
            Commands::DisplayOffset(value) => ([0x00, 0xA2, value, 0], 3),
            Commands::DisplayModeNormal => ([0x00, 0xA4, 0, 0], 2),
            Commands::DisplayModeAllON => ([0x00, 0xA5, 0, 0], 2),
            Commands::DisplayModeAllOFF => ([0x00, 0xA6, 0, 0], 2),
            Commands::DisplayModeInverseDisplay => ([0x00, 0xA7, 0, 0], 2),
            Commands::MUXRatio(value) => ([0x00, 0xA8, value, 0], 3),
            Commands::FunctionSelectionA(value) => ([0x00, 0xAB, value, 0], 3),
            Commands::SelectExternalVDD => ([0x00, 0xAB, 0x00, 0], 3),
            Commands::SelectInternalVDD => ([0x00, 0xAB, 0x01, 0], 3),
            Commands::DisplayON => ([0x00, 0xAF, 0, 0], 2),
            Commands::DisplayOFF => ([0x00, 0xAE, 0, 0], 2),
            Commands::PhaseLength(value) => ([0x00, 0xB1, value, 0], 3),
            Commands::FrontClockDividerOscillatorFrequency(value) => ([0x00, 0xB3, value, 0], 3),
            Commands::GPIO(value) => ([0x00, 0xB5, value, 0], 3),
            Commands::SecondPreChargePeriod(value) => ([0x00, 0xB6, value, 0], 3),
            Commands::LinearLUT => ([0x00, 0xB9, 0, 0], 2),
            Commands::PreChargeVoltage(value) => ([0x00, 0xBC, value, 0], 3),
            Commands::VCOMH(value) => ([0x00, 0xBE, value, 0], 3),
            Commands::FunctionSelectionB(value) => ([0x00, 0xD5, value, 0], 3),
            Commands::SetCommandLock(value) => ([0x00, 0xFD, value, 0], 3),
            Commands::CommandUnlock => ([0x00, 0xFD, 0x00, 0x12], 4),
            Commands::CommandLock => ([0x00, 0xFD, 0x00, 0x16], 4),
        };
        r
    }
}

/// Every command opens with the command marker, carries its operation code
/// next and its operands last. It is two bytes long without an operand,
/// three with one and four with two.
pub proof fn lemma_wire_format(cmd: Commands)
    ensures
        cmd.wire_bytes()[0] == 0x00,
        cmd.wire_bytes()[1] == cmd.opcode(),
        cmd.wire_bytes().skip(2) == cmd.operands(),
        cmd.wire_len() == 2 + cmd.operands().len(),
        cmd.wire_len() == match cmd {
            Commands::ColumnAddress { .. }
            | Commands::RowAddress { .. }
            | Commands::CommandUnlock
            | Commands::CommandLock => 4nat,
            Commands::DisplayModeNormal
            | Commands::DisplayModeAllON
            | Commands::DisplayModeAllOFF
            | Commands::DisplayModeInverseDisplay
            | Commands::DisplayON
            | Commands::DisplayOFF
            | Commands::LinearLUT => 2nat,
            _ => 3nat,
        },
{
}

} // verus!
