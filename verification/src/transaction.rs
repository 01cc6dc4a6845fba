//! Bus transactions: what the caller has to write to the panel.

use crate::command::{Commands, DATA_MARKER};
use vstd::prelude::*;

verus! {

/// One write on the bus as the contracts speak of it: the address of the
/// device and the bytes that follow it.
pub struct BusWrite {
    pub address: u8,
    pub bytes: Seq<u8>,
}

/// One write to hand to the I2C peripheral: all `bytes` go to the device at
/// `address` in a single bus transaction.
#[derive(Debug, PartialEq, Eq)]
pub struct Transaction {
    pub address: u8,
    pub bytes: Vec<u8>,
}

impl View for Transaction {
    type V = BusWrite;

    open spec fn view(&self) -> BusWrite {
        BusWrite { address: self.address, bytes: self.bytes@ }
    }
}

/// The writes that a sequence of transactions stands for, in its order.
pub open spec fn writes_of(plan: Seq<Transaction>) -> Seq<BusWrite> {
    plan.map_values(|t: Transaction| t@)
}

/// The write that carries command `cmd` to the device at `address`.
pub open spec fn command_write(address: u8, cmd: Commands) -> BusWrite {
    BusWrite { address, bytes: cmd.wire_bytes() }
}

/// The write that carries the display data `chunk` to the device at
/// `address`: the data marker, then the data.
pub open spec fn data_write(address: u8, chunk: Seq<u8>) -> BusWrite {
    BusWrite { address, bytes: seq![DATA_MARKER] + chunk }
}

} // verus!
