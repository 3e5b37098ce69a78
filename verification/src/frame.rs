//! Transmit and receive frames: the data of one transfer and its progress.

use vstd::prelude::*;

verus! {

/// The data of a write (or the length of a read) and how far the transfer
/// has got.
#[derive(Debug)]
pub struct I2cTxFrame {
    /// The bytes to transmit.
    pub data_buff: Vec<u8>,
    /// Commands already handed to the controller in this transfer.
    pub tx_cnt: u32,
    /// Frame control: bit 8 command, bit 9 STOP after the transfer, bit 10
    /// RESTART before it.
    pub flags: u32,
}

impl I2cTxFrame {
    /// An empty frame.
    pub fn new() -> (f: Self)
        ensures
            f.data_buff@ == Seq::<u8>::empty(),
            f.tx_cnt == 0,
            f.flags == 0,
    {
        Self { data_buff: Vec::new(), tx_cnt: 0, flags: 0 }
    }

    /// Appends `byte` to the data to transmit.
    pub fn push_byte(&mut self, byte: u8)
        ensures
            final(self).data_buff@ == old(self).data_buff@.push(byte),
            final(self).tx_cnt == old(self).tx_cnt,
            final(self).flags == old(self).flags,
    {
        self.data_buff.push(byte);
    }
}

/// The bytes received and how many of them have been handed out.
#[derive(Debug)]
pub struct I2cRxFrame {
    /// The bytes received.
    pub data_buff: Vec<u8>,
    /// Index of the next byte [`I2cRxFrame::next_byte`] hands out.
    pub current_pos: u32,
    /// Bytes received in the current transfer.
    pub rx_cnt: u32,
}

impl I2cRxFrame {
    /// An empty frame.
    pub fn new() -> (f: Self)
        ensures
            f.data_buff@ == Seq::<u8>::empty(),
            f.current_pos == 0,
            f.rx_cnt == 0,
    {
        Self { data_buff: Vec::new(), current_pos: 0, rx_cnt: 0 }
    }

    /// The next received byte not yet handed out, or `None` when all have
    /// been.
    pub fn next_byte(&mut self) -> (r: Option<u8>)
        requires
            old(self).current_pos < old(self).data_buff.len() ==> old(self).current_pos < u32::MAX,
        ensures
            final(self).data_buff@ == old(self).data_buff@,
            final(self).rx_cnt == old(self).rx_cnt,
            old(self).current_pos < old(self).data_buff.len() ==> {
                &&& r == Some(old(self).data_buff@[old(self).current_pos as int])
                &&& final(self).current_pos == old(self).current_pos + 1
            },
            old(self).current_pos >= old(self).data_buff.len() ==> r is None
                && final(self).current_pos == old(self).current_pos,
    {
        if (self.current_pos as usize) < self.data_buff.len() {
            let byte = self.data_buff[self.current_pos as usize];
            self.current_pos = self.current_pos + 1;
            Some(byte)
        } else {
            None
        }
    }
}

} // verus!
