//! The device controller: bus address, panel geometry and framebuffer, and
//! the transactions of each of its operations.

use crate::command::{Commands, DATA_MARKER};
use crate::framebuffer::{
    blank_frame, draw_all, put_pixel, Framebuffer, Pixel, CHUNK_BYTES, FRAME_BYTES, PANEL_HEIGHT,
    PANEL_WIDTH, ROW_BYTES,
};
use crate::transaction::{command_write, data_write, writes_of, BusWrite, Transaction};
use vstd::prelude::*;

verus! {

/// Bus address of the panel unless the caller names another.
pub const DEFAULT_ADDRESS: u8 = 0x3C;

/// Width of the panel in pixels unless the caller names another.
pub const DEFAULT_WIDTH: u8 = 0x7F;

/// Height of the panel in pixels unless the caller names another.
pub const DEFAULT_HEIGHT: u8 = 0x7F;

/// Number of transactions of one power-up sequence.
pub const INIT_WRITES: usize = 19;

/// Number of data writes of one full-frame transfer.
pub const FLUSH_CHUNKS: usize = 1024;

/// Number of transactions of one full-frame transfer: the two window
/// commands, then the data writes.
pub const FLUSH_WRITES: usize = 1026;

/// Why the driver turned a request down.
#[derive(Clone, Copy, Debug, PartialEq, Eq, Structural)]
pub enum DriverError {
    /// The data handed to `send_data` was not exactly eight bytes long.
    InvalidArgument,
}

/// What a controller is, as the contracts speak of it.
pub struct DriverState {
    /// Bus address of the panel.
    pub address: u8,
    /// Last column address of the panel: its width in pixels, halved,
    /// since one column address covers two pixels.
    pub half_width: u8,
    /// Last row address of the panel.
    pub height: u8,
    /// The bytes of the framebuffer, row after row.
    pub frame: Seq<u8>,
}

/// The commands of the power-up sequence, in the order in which the panel
/// has to receive them.
pub open spec fn init_commands(half_width: u8, height: u8) -> Seq<Commands> {
    seq![
        Commands::CommandUnlock,
        Commands::DisplayOFF,
        Commands::ColumnAddress { start: 0x00, end: half_width },
        Commands::RowAddress { start: 0x00, end: height },
        Commands::ContrastControl(0x7f),
        Commands::Remap(0x51),
        Commands::DisplayStartLine(0x00),
        Commands::DisplayOffset(0x00),
        Commands::DisplayModeNormal,
        Commands::MUXRatio(0x7e),
        Commands::PhaseLength(0x51),
        Commands::LinearLUT,
        Commands::FrontClockDividerOscillatorFrequency(0x00),
        Commands::SelectInternalVDD,
        Commands::SecondPreChargePeriod(0x04),
        Commands::VCOMH(0x05),
        Commands::PreChargeVoltage(0x05),
        Commands::FunctionSelectionB(0x60),
        Commands::DisplayON,
    ]
}

/// The transactions of the power-up sequence of controller `s`.
pub open spec fn init_writes(s: DriverState) -> Seq<BusWrite> {
    Seq::new(
        INIT_WRITES as nat,
        |i: int| command_write(s.address, init_commands(s.half_width, s.height)[i]),
    )
}

/// The data write that carries the eight bytes of `frame` from position
/// `index` on.
pub open spec fn chunk_write(address: u8, frame: Seq<u8>, index: int) -> BusWrite {
    data_write(address, frame.subrange(index, index + CHUNK_BYTES))
}

/// The transactions of a full-frame transfer of controller `s`: the column
/// window and the row window over the configured geometry, then the whole
/// framebuffer from its first byte to its last, eight bytes to a write.
pub open spec fn flush_writes(s: DriverState) -> Seq<BusWrite> {
    Seq::new(
        FLUSH_WRITES as nat,
        |i: int|
            if i == 0 {
                command_write(s.address, Commands::ColumnAddress { start: 0x00, end: s.half_width })
            } else if i == 1 {
                command_write(s.address, Commands::RowAddress { start: 0x00, end: s.height })
            } else {
                chunk_write(s.address, s.frame, (i - 2) * CHUNK_BYTES)
            },
    )
}

/// A full-frame transfer carries the framebuffer whole and in order: the
/// byte at position `p` of the frame travels in data write `p / 8`, which
/// is transaction `2 + p / 8` of the transfer, at place `p % 8` behind the
/// data marker.
pub proof fn lemma_flush_carries_frame(s: DriverState, p: int)
    requires
        s.frame.len() == FRAME_BYTES,
        0 <= p < FRAME_BYTES,
    ensures
        flush_writes(s).len() == FLUSH_WRITES,
        flush_writes(s)[2 + p / 8].address == s.address,
        flush_writes(s)[2 + p / 8].bytes.len() == 1 + CHUNK_BYTES,
        flush_writes(s)[2 + p / 8].bytes[0] == 0x40,
        flush_writes(s)[2 + p / 8].bytes[1 + p % 8] == s.frame[p],
{
}

/// The full-frame transfer of a blank frame consists of the two window
/// commands and 1024 data writes that carry eight zero bytes each.
pub proof fn lemma_flush_blank(s: DriverState, i: int)
    requires
        s.frame == blank_frame(),
        2 <= i < FLUSH_WRITES,
    ensures
        flush_writes(s).len() == 2 + FLUSH_CHUNKS,
        flush_writes(s)[i] == data_write(s.address, Seq::new(CHUNK_BYTES as nat, |k: int| 0u8)),
{
    assert(s.frame.subrange((i - 2) * CHUNK_BYTES, (i - 2) * CHUNK_BYTES + CHUNK_BYTES) =~= Seq::new(
        CHUNK_BYTES as nat,
        |k: int| 0u8,
    ));
}

/// SSD1327 I2C driver container
pub struct SSD1327I2C {
    slave_address: u8,
    width: u8,
    height: u8,
    framebuffer: Framebuffer,
}

impl View for SSD1327I2C {
    type V = DriverState;

    closed spec fn view(&self) -> DriverState {
        DriverState {
            address: self.slave_address,
            half_width: self.width,
            height: self.height,
            frame: self.framebuffer@,
        }
    }
}

impl SSD1327I2C {
    /// Create a new SSD1327I2C object with custom slave address, width and height
    pub fn with_addr_wh(slave_address: u8, width: u8, height: u8) -> (driver: Self)
        ensures
            driver@ == (DriverState {
                address: slave_address,
                half_width: width / 2,
                height,
                frame: blank_frame(),
            }),
    {
        let framebuffer = Framebuffer::new();
        let halfwidth: u8 = width / 2;  // Two pixels per byte
        SSD1327I2C { slave_address, width: halfwidth, height, framebuffer }
    }

    /// Create a new SSD1327I2C object with custom slave address, width 127 and height 127
    pub fn with_addr(slave_address: u8) -> (driver: Self)
        ensures
            driver@ == (DriverState {
                address: slave_address,
                half_width: 0x3F,
                height: 0x7F,
                frame: blank_frame(),
            }),
    {
        SSD1327I2C::with_addr_wh(slave_address, DEFAULT_WIDTH, DEFAULT_HEIGHT)
    }

    /// Create a new SSD1327I2C object with slave address 0x3C, and custom width and height
    pub fn with_wh(width: u8, height: u8) -> (driver: Self)
        ensures
            driver@ == (DriverState {
                address: 0x3C,
                half_width: width / 2,
                height,
                frame: blank_frame(),
            }),
    {
        SSD1327I2C::with_addr_wh(DEFAULT_ADDRESS, width, height)
    }

    /// Create a new SSD1327I2C object with slave address 0x3C, width 127 and height 127
    pub fn new() -> (driver: Self)
        ensures
            driver@ == (DriverState {
                address: 0x3C,
                half_width: 0x3F,
                height: 0x7F,
                frame: blank_frame(),
            }),
    {
        SSD1327I2C::with_addr_wh(DEFAULT_ADDRESS, DEFAULT_WIDTH, DEFAULT_HEIGHT)
    }

    /// The framebuffer of a controller always holds `FRAME_BYTES` bytes.
    pub proof fn lemma_frame_len(&self)
        ensures
            self@.frame.len() == FRAME_BYTES,
    {
        self.framebuffer.lemma_len();
    }

    /// The transaction that sends command `cmd` to the panel.
    pub fn send_cmd(&self, cmd: Commands) -> (t: Transaction)
        ensures
            t@ == command_write(self@.address, cmd),
    {
        let encoded: ([u8; 4], usize) = cmd.encode();
        let mut bytes: Vec<u8> = Vec::new();
        let mut i: usize = 0;
        while i < encoded.1
            invariant
                i <= encoded.1 <= 4,
                bytes@ == encoded.0@.take(i as int),
            decreases encoded.1 - i,
        {
            bytes.push(encoded.0[i]);
            i += 1;
        }
        Transaction { address: self.slave_address, bytes }
    }

    /// The transaction that sends eight bytes of display data to the
    /// panel: the data marker followed by `data`. Data of any other length
    /// is turned down.
    pub fn send_data(&self, data: &[u8]) -> (r: Result<Transaction, DriverError>)
        ensures
            data@.len() == CHUNK_BYTES ==> r is Ok && r->Ok_0@ == data_write(
                self@.address,
                data@,
            ),
            data@.len() != CHUNK_BYTES ==> r == Err::<Transaction, DriverError>(
                DriverError::InvalidArgument,
            ),
    {
        if data.len() != CHUNK_BYTES {
            return Err(DriverError::InvalidArgument);
        }
        // 0x40 = Data
        let mut bytes: Vec<u8> = Vec::new();
        bytes.push(DATA_MARKER);
        bytes.push(data[0]);
        bytes.push(data[1]);
        bytes.push(data[2]);
        bytes.push(data[3]);
        bytes.push(data[4]);
        bytes.push(data[5]);
        bytes.push(data[6]);
        bytes.push(data[7]);
        assert(bytes@ =~= seq![DATA_MARKER] + data@);
        Ok(Transaction { address: self.slave_address, bytes })
    }

    /// The transaction that sends the eight bytes of the framebuffer from
    /// position `index` on.
    pub fn send_buffer_data(&self, index: usize) -> (t: Transaction)
        requires
            index + CHUNK_BYTES <= FRAME_BYTES,
        ensures
            t@ == chunk_write(self@.address, self@.frame, index as int),
    {
        let chunk: [u8; 8] = self.framebuffer.chunk(index);
        // 0x40 = Data
        let mut bytes: Vec<u8> = Vec::new();
        bytes.push(DATA_MARKER);
        bytes.push(chunk[0]);
        bytes.push(chunk[1]);
        bytes.push(chunk[2]);
        bytes.push(chunk[3]);
        bytes.push(chunk[4]);
        bytes.push(chunk[5]);
        bytes.push(chunk[6]);
        bytes.push(chunk[7]);
        assert(bytes@ =~= seq![DATA_MARKER] + chunk@);
        Transaction { address: self.slave_address, bytes }
    }

    /// Initialize the SSD1327: the transactions of the power-up sequence,
    /// in the order in which they have to go out. The panel confirms none
    /// of them, so the caller issues every one of them whatever the
    /// outcome of those before it.
    pub fn init(&self) -> (plan: Vec<Transaction>)
        ensures
            writes_of(plan@) == init_writes(self@),
    {
        let mut plan: Vec<Transaction> = Vec::new();
        plan.push(self.send_cmd(Commands::CommandUnlock));
        plan.push(self.send_cmd(Commands::DisplayOFF));
        plan.push(self.send_cmd(Commands::ColumnAddress { start: 0x00, end: self.width }));
        plan.push(self.send_cmd(Commands::RowAddress { start: 0x00, end: self.height }));
        plan.push(self.send_cmd(Commands::ContrastControl(0x7f)));  //50% (128/255) RESET 0x7f
        plan.push(self.send_cmd(Commands::Remap(0x51)));
        plan.push(self.send_cmd(Commands::DisplayStartLine(0x00)));
        plan.push(self.send_cmd(Commands::DisplayOffset(0x00)));
        plan.push(self.send_cmd(Commands::DisplayModeNormal));
        plan.push(self.send_cmd(Commands::MUXRatio(0x7e)));  // RESET 0x7f
        plan.push(self.send_cmd(Commands::PhaseLength(0x51)));  // RESET 0x71
        plan.push(self.send_cmd(Commands::LinearLUT));
        plan.push(self.send_cmd(Commands::FrontClockDividerOscillatorFrequency(0x00)));
        plan.push(self.send_cmd(Commands::SelectInternalVDD));
        plan.push(self.send_cmd(Commands::SecondPreChargePeriod(0x04)));
        plan.push(self.send_cmd(Commands::VCOMH(0x05)));
        plan.push(self.send_cmd(Commands::PreChargeVoltage(0x05)));
        plan.push(self.send_cmd(Commands::FunctionSelectionB(0x60)));
        plan.push(self.send_cmd(Commands::DisplayON));
        plan
    }

    /// Update the display with the current framebuffer: the transactions
    /// of a full-frame transfer, in the order in which they have to go
    /// out. The caller issues every one of them, also after one has
    /// failed, and hands the outcomes to [`flush_result`].
    pub fn flush(&self) -> (plan: Vec<Transaction>)
        ensures
            writes_of(plan@) == flush_writes(self@),
    {
        let mut plan: Vec<Transaction> = Vec::new();
        plan.push(self.send_cmd(Commands::ColumnAddress { start: 0x00, end: self.width }));  //0-63
        plan.push(self.send_cmd(Commands::RowAddress { start: 0x00, end: self.height }));  //0-127
        let mut y: usize = 0;
        while y < 128
            invariant
                y <= 128,
                plan@.len() == 2 + y * 8,
                forall|i: int| 0 <= i < plan@.len() ==> plan@[i]@ == flush_writes(self@)[i],
            decreases 128 - y,
        {
            let mut x: usize = 0;
            while x < ROW_BYTES
                invariant
                    y < 128,
                    x <= ROW_BYTES,
                    x % CHUNK_BYTES == 0,
                    plan@.len() == 2 + y * 8 + x / CHUNK_BYTES,
                    forall|i: int| 0 <= i < plan@.len() ==> plan@[i]@ == flush_writes(self@)[i],
                decreases ROW_BYTES - x,
            {
                plan.push(self.send_buffer_data(x + y * ROW_BYTES));
                x += CHUNK_BYTES;
            }
            y += 1;
        }
        plan
    }

    /// Writes gray value `gray` at `(x, y)` of the framebuffer. Positions
    /// outside the panel are clipped. Nothing goes to the panel before the
    /// next full-frame transfer.
    pub fn write_pixel(&mut self, x: i32, y: i32, gray: u8)
        requires
            gray <= 15,
        ensures
            final(self)@ == (DriverState {
                frame: put_pixel(old(self)@.frame, x as int, y as int, gray),
                ..old(self)@
            }),
    {
        self.framebuffer.write_pixel(x, y, gray);
    }

    /// Writes the given pixels to the framebuffer, the first of them
    /// first. Pixels outside the panel are clipped.
    pub fn draw_iter(&mut self, pixels: &[Pixel])
        requires
            forall|i: int| 0 <= i < pixels@.len() ==> pixels@[i].luma <= 15,
        ensures
            final(self)@ == (DriverState {
                frame: draw_all(old(self)@.frame, pixels@),
                ..old(self)@
            }),
    {
        let mut i: usize = 0;
        while i < pixels.len()
            invariant
                i <= pixels@.len(),
                forall|k: int| 0 <= k < pixels@.len() ==> pixels@[k].luma <= 15,
                self@ == (DriverState {
                    frame: draw_all(old(self)@.frame, pixels@.take(i as int)),
                    ..old(self)@
                }),
            decreases pixels@.len() - i,
        {
            let pixel: Pixel = pixels[i];
            assert(pixels@.take(i + 1).drop_last() =~= pixels@.take(i as int));
            self.write_pixel(pixel.x, pixel.y, pixel.luma);
            i += 1;
        }
        assert(pixels@.take(i as int) =~= pixels@);
    }

    /// The size of the drawing area in pixels, width first: that of the
    /// largest panel the controller drives, whatever geometry was
    /// configured.
    pub fn size(&self) -> (s: (u32, u32))
        ensures
            s == (PANEL_WIDTH, PANEL_HEIGHT),
    {
        (PANEL_WIDTH, PANEL_HEIGHT)
    }

    /// The bus address of the panel.
    pub fn slave_address(&self) -> (a: u8)
        ensures
            a == self@.address,
    {
        self.slave_address
    }

    /// The last column address: the configured width in pixels, halved.
    pub fn half_width(&self) -> (w: u8)
        ensures
            w == self@.half_width,
    {
        self.width
    }

    /// The last row address: the configured height.
    pub fn height(&self) -> (h: u8)
        ensures
            h == self@.height,
    {
        self.height
    }

    /// The framebuffer, to read.
    pub fn framebuffer(&self) -> (fb: &Framebuffer)
        ensures
            fb@ == self@.frame,
    {
        &self.framebuffer
    }
}

/// Whether the transaction at position `i` is the last data write of a
/// full-frame transfer that failed. The first two transactions of a
/// transfer are the window commands, which are no data writes.
pub open spec fn is_last_failure<E>(outcomes: Seq<Result<(), E>>, i: int) -> bool {
    &&& 2 <= i < outcomes.len()
    &&& outcomes[i] is Err
    &&& forall|j: int| i < j < outcomes.len() ==> outcomes[j] is Ok
}

/// The outcome of a full-frame transfer, given the outcome of each of its
/// transactions in the order of [`SSD1327I2C::flush`]. The outcomes of the
/// two window commands do not count. Of the data writes the last failure
/// is reported, and success if none failed.
pub fn flush_result<E>(outcomes: Vec<Result<(), E>>) -> (r: Result<(), E>)
    ensures
        r is Ok <==> forall|i: int| 2 <= i < outcomes@.len() ==> outcomes@[i] is Ok,
        r is Err ==> exists|i: int| is_last_failure(outcomes@, i) && outcomes@[i] == r,
{
    let ghost all = outcomes@;
    let mut rest = outcomes;
    while rest.len() > 2
        invariant
            all == outcomes@,
            rest@.len() <= all.len(),
            rest@ == all.take(rest@.len() as int),
            forall|j: int| rest@.len() <= j < all.len() ==> all[j] is Ok,
        decreases rest@.len(),
    {
        let last = rest.pop();
        match last {
            Some(Err(e)) => {
                return Err(e);
            },
            _ => {},
        }
    }
    Ok(())
}

} // verus!
