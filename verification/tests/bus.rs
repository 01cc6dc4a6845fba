use embedded_hal::i2c::{Error, ErrorKind, ErrorType, I2c, Operation};
use ssd1327_i2c::{flush_result, Commands, Transaction, SSD1327I2C};

#[derive(Clone, Copy, Debug, PartialEq, Eq)]
struct Fault(usize);

impl Error for Fault {
    fn kind(&self) -> ErrorKind {
        ErrorKind::Other
    }
}

/// A bus that records every write and fails the writes whose position in
/// the record is listed in `failing`.
struct RecordingBus {
    written: Vec<(u8, Vec<u8>)>,
    failing: Vec<usize>,
}

impl RecordingBus {
    fn new(failing: &[usize]) -> RecordingBus {
        RecordingBus { written: Vec::new(), failing: failing.to_vec() }
    }
}

impl ErrorType for RecordingBus {
    type Error = Fault;
}

impl I2c for RecordingBus {
    fn transaction(
        &mut self,
        address: u8,
        operations: &mut [Operation<'_>],
    ) -> Result<(), Fault> {
        let mut bytes: Vec<u8> = Vec::new();
        for operation in operations.iter() {
            if let Operation::Write(data) = operation {
                bytes.extend_from_slice(data);
            }
        }
        let position: usize = self.written.len();
        self.written.push((address, bytes));
        if self.failing.contains(&position) {
            Err(Fault(position))
        } else {
            Ok(())
        }
    }
}

fn issue(bus: &mut RecordingBus, plan: &[Transaction]) -> Vec<Result<(), Fault>> {
    let mut outcomes: Vec<Result<(), Fault>> = Vec::new();
    for transaction in plan {
        outcomes.push(bus.write(transaction.address, &transaction.bytes));
    }
    outcomes
}

#[test]
fn contrast_control_on_the_bus() {
    let mut bus = RecordingBus::new(&[]);
    let driver = SSD1327I2C::new();
    let t = driver.send_cmd(Commands::ContrastControl(0x7F));
    assert_eq!(bus.write(t.address, &t.bytes), Ok(()));
    assert_eq!(bus.written, vec![(0x3C, vec![0x00, 0x81, 0x7F])]);
}

#[test]
fn command_unlock_on_the_bus() {
    let mut bus = RecordingBus::new(&[]);
    let driver = SSD1327I2C::new();
    let t = driver.send_cmd(Commands::CommandUnlock);
    assert_eq!(bus.write(t.address, &t.bytes), Ok(()));
    assert_eq!(bus.written, vec![(0x3C, vec![0x00, 0xFD, 0x00, 0x12])]);
}

#[test]
fn send_cmd_failure_reaches_the_caller() {
    let mut bus = RecordingBus::new(&[0]);
    let driver = SSD1327I2C::new();
    let t = driver.send_cmd(Commands::DisplayON);
    assert_eq!(bus.write(t.address, &t.bytes), Err(Fault(0)));
    assert_eq!(bus.written, vec![(0x3C, vec![0x00, 0xAF])]);
}

#[test]
fn send_data_on_the_bus() {
    let mut bus = RecordingBus::new(&[]);
    let driver = SSD1327I2C::new();
    let t = driver.send_data(&[1, 2, 3, 4, 5, 6, 7, 8]).unwrap();
    assert_eq!(bus.write(t.address, &t.bytes), Ok(()));
    assert_eq!(bus.written, vec![(0x3C, vec![0x40, 1, 2, 3, 4, 5, 6, 7, 8])]);
}

#[test]
fn init_on_a_failing_bus_issues_every_command() {
    let mut bus = RecordingBus::new(&[0, 1, 5, 18]);
    let driver = SSD1327I2C::new();
    let outcomes = issue(&mut bus, &driver.init());
    assert_eq!(outcomes.len(), 19);
    assert_eq!(bus.written.len(), 19);
    assert_eq!(bus.written[0], (0x3C, vec![0x00, 0xFD, 0x00, 0x12]));
    assert_eq!(bus.written[1], (0x3C, vec![0x00, 0xAE]));
    assert_eq!(bus.written[18], (0x3C, vec![0x00, 0xAF]));
}

#[test]
fn flush_of_a_blank_frame_on_the_bus() {
    let mut bus = RecordingBus::new(&[]);
    let driver = SSD1327I2C::new();
    let outcomes = issue(&mut bus, &driver.flush());
    assert_eq!(flush_result(outcomes), Ok(()));
    assert_eq!(bus.written.len(), 2 + 1024);
    assert_eq!(bus.written[0], (0x3C, vec![0x00, 0x15, 0x00, 0x3F]));
    assert_eq!(bus.written[1], (0x3C, vec![0x00, 0x75, 0x00, 0x7F]));
    let data_writes = &bus.written[2..];
    assert_eq!(data_writes.len(), 1024);
    assert!(data_writes.iter().all(|w| *w == (0x3C, vec![0x40, 0, 0, 0, 0, 0, 0, 0, 0])));
}

#[test]
fn flush_on_a_failing_bus_goes_on_and_reports_the_last_failure() {
    let mut bus = RecordingBus::new(&[0, 7, 300, 999]);
    let mut driver = SSD1327I2C::new();
    driver.write_pixel(127, 127, 0x0F);
    let outcomes = issue(&mut bus, &driver.flush());
    assert_eq!(flush_result(outcomes), Err(Fault(999)));
    assert_eq!(bus.written.len(), 1026);
    assert_eq!(bus.written[1025], (0x3C, vec![0x40, 0, 0, 0, 0, 0, 0, 0, 0x0F]));
}

#[test]
fn flush_with_failing_window_commands_only_succeeds() {
    let mut bus = RecordingBus::new(&[0, 1]);
    let driver = SSD1327I2C::new();
    let outcomes = issue(&mut bus, &driver.flush());
    assert_eq!(outcomes[0], Err(Fault(0)));
    assert_eq!(outcomes[1], Err(Fault(1)));
    assert_eq!(flush_result(outcomes), Ok(()));
    assert_eq!(bus.written.len(), 1026);
}
