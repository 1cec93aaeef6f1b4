//! Plain-value model of the I2C peripheral's register block.
//!
//! Each register the drivers touch is a struct of its fields, holding the value
//! last written to them. The data FIFOs are sequences of bytes: reading the
//! data register takes the oldest received byte, writing it appends a byte to
//! the transmit FIFO, and a FIFO reset bit empties its FIFO.

use vstd::prelude::*;

verus! {

/// Depth of the hardware RX and TX FIFOs, in bytes.
pub const I2C_FIFO_SIZE: usize = 32;

/// Fields of the control register (CTR).
#[derive(Debug, Clone, Copy, PartialEq, Eq, Structural)]
pub struct Ctr {
    /// Drive SDA as open drain.
    pub sda_force_out: bool,
    /// Drive SCL as open drain.
    pub scl_force_out: bool,
    /// Master mode when set, slave mode when clear.
    pub ms_mode: bool,
    /// Start the state machine.
    pub trans_start: bool,
    /// Send the least significant bit first.
    pub tx_lsb_first: bool,
    /// Receive the least significant bit first.
    pub rx_lsb_first: bool,
    /// Clock gating enable.
    pub clk_en: bool,
    /// Check the R/W bit of 10-bit addresses.
    pub addr_10bit_rw_check_en: bool,
    /// Answer the general-call (broadcast) address.
    pub addr_broadcasting_en: bool,
    /// Synchronise the configuration into the I2C clock domain.
    pub conf_upgate: bool,
    /// Start transmitting automatically when a master reads.
    pub slv_tx_auto_start_en: bool,
}

impl Ctr {
    /// The value a write starts from: the register's reset value.
    pub open spec fn reset_spec() -> Ctr {
        Ctr {
            sda_force_out: true,
            scl_force_out: true,
            ms_mode: false,
            trans_start: false,
            tx_lsb_first: false,
            rx_lsb_first: false,
            clk_en: false,
            addr_10bit_rw_check_en: false,
            addr_broadcasting_en: false,
            conf_upgate: false,
            slv_tx_auto_start_en: false,
        }
    }

    /// The register's reset value.
    pub fn reset() -> (r: Ctr)
        ensures
            r == Ctr::reset_spec(),
    {
        Ctr {
            sda_force_out: true,
            scl_force_out: true,
            ms_mode: false,
            trans_start: false,
            tx_lsb_first: false,
            rx_lsb_first: false,
            clk_en: false,
            addr_10bit_rw_check_en: false,
            addr_broadcasting_en: false,
            conf_upgate: false,
            slv_tx_auto_start_en: false,
        }
    }

    /// The register with every bit clear.
    pub open spec fn zero_spec() -> Ctr {
        Ctr {
            sda_force_out: false,
            scl_force_out: false,
            ms_mode: false,
            trans_start: false,
            tx_lsb_first: false,
            rx_lsb_first: false,
            clk_en: false,
            addr_10bit_rw_check_en: false,
            addr_broadcasting_en: false,
            conf_upgate: false,
            slv_tx_auto_start_en: false,
        }
    }

    /// The register with every bit clear.
    pub fn zero() -> (r: Ctr)
        ensures
            r == Ctr::zero_spec(),
    {
        Ctr {
            sda_force_out: false,
            scl_force_out: false,
            ms_mode: false,
            trans_start: false,
            tx_lsb_first: false,
            rx_lsb_first: false,
            clk_en: false,
            addr_10bit_rw_check_en: false,
            addr_broadcasting_en: false,
            conf_upgate: false,
            slv_tx_auto_start_en: false,
        }
    }
}

/// Fields of the FIFO configuration register.
#[derive(Debug, Clone, Copy, PartialEq, Eq, Structural)]
pub struct FifoConf {
    /// RX FIFO watermark threshold.
    pub rxfifo_wm_thrhd: u8,
    /// TX FIFO watermark threshold.
    pub txfifo_wm_thrhd: u8,
    /// Register-based mode: the first byte after the address is kept apart.
    pub fifo_addr_cfg_en: bool,
    /// Hold the RX FIFO in reset.
    pub rx_fifo_rst: bool,
    /// Hold the TX FIFO in reset.
    pub tx_fifo_rst: bool,
}

/// Fields of the slave address register.
#[derive(Debug, Clone, Copy, PartialEq, Eq, Structural)]
pub struct SlaveAddr {
    /// The slave address.
    pub slave_addr: u16,
    /// Match 10-bit addresses.
    pub addr_10bit_en: bool,
}

/// Fields of the clock-stretch configuration register.
#[derive(Debug, Clone, Copy, PartialEq, Eq, Structural)]
pub struct SclStretchConf {
    /// Longest stretch, in I2C clock cycles.
    pub stretch_protect_num: u16,
    /// Let the slave stretch SCL.
    pub slave_scl_stretch_en: bool,
    /// Release a stretch in progress.
    pub slave_scl_stretch_clr: bool,
    /// Software control of the ACK level of each byte.
    pub slave_byte_ack_ctl_en: bool,
    /// ACK level used under software control.
    pub slave_byte_ack_lvl: bool,
}

/// Fields of the bus timeout register.
#[derive(Debug, Clone, Copy, PartialEq, Eq, Structural)]
pub struct TimeoutConf {
    /// Timeout threshold.
    pub time_out_value: u8,
    /// Enable the timeout.
    pub time_out_en: bool,
}

/// Fields of the glitch filter register.
#[derive(Debug, Clone, Copy, PartialEq, Eq, Structural)]
pub struct FilterCfg {
    /// SDA filter threshold.
    pub sda_filter_thres: u8,
    /// SCL filter threshold.
    pub scl_filter_thres: u8,
    /// Enable the SDA filter.
    pub sda_filter_en: bool,
    /// Enable the SCL filter.
    pub scl_filter_en: bool,
}

/// The thirteen interrupt bits that share one layout in the raw, enable and
/// clear registers (bits 0 to 12, the mask 0x1FFF).
#[derive(Debug, Clone, Copy, PartialEq, Eq, Structural)]
pub struct IntBits {
    /// RX FIFO reached its watermark.
    pub rxfifo_wm: bool,
    /// TX FIFO fell to its watermark.
    pub txfifo_wm: bool,
    /// RX FIFO overflow.
    pub rxfifo_ovf: bool,
    /// End of an operation.
    pub end_detect: bool,
    /// A byte was transferred.
    pub byte_trans_done: bool,
    /// Arbitration lost.
    pub arbitration_lost: bool,
    /// Master TX FIFO underflow.
    pub mst_txfifo_udf: bool,
    /// STOP seen: transaction complete.
    pub trans_complete: bool,
    /// Bus timeout.
    pub time_out: bool,
    /// START seen.
    pub trans_start: bool,
    /// NACK received.
    pub nack: bool,
    /// TX FIFO overflow.
    pub txfifo_ovf: bool,
    /// RX FIFO underflow.
    pub rxfifo_udf: bool,
}

impl IntBits {
    /// No bit set.
    pub open spec fn none_spec() -> IntBits {
        IntBits {
            rxfifo_wm: false,
            txfifo_wm: false,
            rxfifo_ovf: false,
            end_detect: false,
            byte_trans_done: false,
            arbitration_lost: false,
            mst_txfifo_udf: false,
            trans_complete: false,
            time_out: false,
            trans_start: false,
            nack: false,
            txfifo_ovf: false,
            rxfifo_udf: false,
        }
    }

    /// No bit set: the value 0.
    pub fn none() -> (r: IntBits)
        ensures
            r == IntBits::none_spec(),
    {
        IntBits {
            rxfifo_wm: false,
            txfifo_wm: false,
            rxfifo_ovf: false,
            end_detect: false,
            byte_trans_done: false,
            arbitration_lost: false,
            mst_txfifo_udf: false,
            trans_complete: false,
            time_out: false,
            trans_start: false,
            nack: false,
            txfifo_ovf: false,
            rxfifo_udf: false,
        }
    }
}

/// The abstract value of an [`I2cRegisters`]: every field, the FIFOs as
/// sequences of bytes.
#[verifier::ext_equal]
pub struct RegisterState {
    /// Control register.
    pub ctr: Ctr,
    /// FIFO configuration.
    pub fifo_conf: FifoConf,
    /// Slave address.
    pub slave_addr: SlaveAddr,
    /// Clock stretching.
    pub scl_stretch_conf: SclStretchConf,
    /// Bus timeout.
    pub to: TimeoutConf,
    /// Glitch filters.
    pub filter_cfg: FilterCfg,
    /// Raw interrupt status.
    pub int_raw: IntBits,
    /// Interrupt enable.
    pub int_ena: IntBits,
    /// Received bytes, oldest first.
    pub rx_fifo: Seq<u8>,
    /// Bytes queued for the master, oldest first.
    pub tx_fifo: Seq<u8>,
    /// Register address byte of register-based mode.
    pub rxfifo_raddr: u8,
}

impl RegisterState {
    /// The FIFOs hold no more than their depth.
    pub open spec fn wf(self) -> bool {
        &&& self.rx_fifo.len() <= I2C_FIFO_SIZE
        &&& self.tx_fifo.len() <= I2C_FIFO_SIZE
    }
}

/// The register block of one I2C peripheral, with the contents of its FIFOs.
#[derive(Debug)]
pub struct I2cRegisters {
    /// Control register.
    pub ctr: Ctr,
    /// FIFO configuration.
    pub fifo_conf: FifoConf,
    /// Slave address.
    pub slave_addr: SlaveAddr,
    /// Clock stretching.
    pub scl_stretch_conf: SclStretchConf,
    /// Bus timeout.
    pub to: TimeoutConf,
    /// Glitch filters.
    pub filter_cfg: FilterCfg,
    /// Raw interrupt status.
    pub int_raw: IntBits,
    /// Interrupt enable.
    pub int_ena: IntBits,
    /// Received bytes, oldest first.
    pub rx_fifo: Vec<u8>,
    /// Bytes queued for the master, oldest first.
    pub tx_fifo: Vec<u8>,
    /// Register address byte of register-based mode.
    pub rxfifo_raddr: u8,
}

impl View for I2cRegisters {
    type V = RegisterState;

    open spec fn view(&self) -> RegisterState {
        RegisterState {
            ctr: self.ctr,
            fifo_conf: self.fifo_conf,
            slave_addr: self.slave_addr,
            scl_stretch_conf: self.scl_stretch_conf,
            to: self.to,
            filter_cfg: self.filter_cfg,
            int_raw: self.int_raw,
            int_ena: self.int_ena,
            rx_fifo: self.rx_fifo@,
            tx_fifo: self.tx_fifo@,
            rxfifo_raddr: self.rxfifo_raddr,
        }
    }
}

impl I2cRegisters {
    /// The FIFOs hold no more than their depth.
    pub open spec fn wf(&self) -> bool {
        self@.wf()
    }

    /// The register block after reset, with empty FIFOs.
    pub fn new() -> (r: I2cRegisters)
        ensures
            r.wf(),
            r@.ctr == Ctr::reset_spec(),
            r@.int_raw == IntBits::none_spec(),
            r@.int_ena == IntBits::none_spec(),
            r@.rx_fifo == Seq::<u8>::empty(),
            r@.tx_fifo == Seq::<u8>::empty(),
    {
        I2cRegisters {
            ctr: Ctr::reset(),
            fifo_conf: FifoConf {
                rxfifo_wm_thrhd: 0xB,
                txfifo_wm_thrhd: 0x4,
                fifo_addr_cfg_en: false,
                rx_fifo_rst: false,
                tx_fifo_rst: false,
            },
            slave_addr: SlaveAddr { slave_addr: 0, addr_10bit_en: false },
            scl_stretch_conf: SclStretchConf {
                stretch_protect_num: 0,
                slave_scl_stretch_en: false,
                slave_scl_stretch_clr: false,
                slave_byte_ack_ctl_en: false,
                slave_byte_ack_lvl: false,
            },
            to: TimeoutConf { time_out_value: 0x10, time_out_en: false },
            filter_cfg: FilterCfg {
                sda_filter_thres: 0,
                scl_filter_thres: 0,
                sda_filter_en: true,
                scl_filter_en: true,
            },
            int_raw: IntBits::none(),
            int_ena: IntBits::none(),
            rx_fifo: Vec::new(),
            tx_fifo: Vec::new(),
            rxfifo_raddr: 0,
        }
    }

    /// Number of bytes in the RX FIFO (the `rxfifo_cnt` status field).
    pub fn rxfifo_cnt(&self) -> (n: usize)
        ensures
            n == self@.rx_fifo.len(),
    {
        self.rx_fifo.len()
    }

    /// Number of bytes in the TX FIFO (the `txfifo_cnt` status field).
    pub fn txfifo_cnt(&self) -> (n: usize)
        ensures
            n == self@.tx_fifo.len(),
    {
        self.tx_fifo.len()
    }

    /// Reads the data register: takes the oldest byte of the RX FIFO. An empty
    /// FIFO reads as 0 and raises the RX underflow interrupt.
    pub fn read_data(&mut self) -> (byte: u8)
        requires
            old(self).wf(),
        ensures
            final(self).wf(),
            old(self)@.rx_fifo.len() > 0 ==> byte == old(self)@.rx_fifo[0] && final(self)@
                == (RegisterState { rx_fifo: old(self)@.rx_fifo.drop_first(), ..old(self)@ }),
            old(self)@.rx_fifo.len() == 0 ==> byte == 0 && final(self)@ == (RegisterState {
                int_raw: IntBits { rxfifo_udf: true, ..old(self)@.int_raw },
                ..old(self)@
            }),
    {
        if self.rx_fifo.len() > 0 {
            self.rx_fifo.remove(0)
        } else {
            self.int_raw.rxfifo_udf = true;
            0
        }
    }

    /// Writes the data register: appends a byte to the TX FIFO. A full FIFO
    /// drops the byte and raises the TX overflow interrupt.
    pub fn write_data(&mut self, byte: u8)
        requires
            old(self).wf(),
        ensures
            final(self).wf(),
            old(self)@.tx_fifo.len() < I2C_FIFO_SIZE ==> final(self)@ == (RegisterState {
                tx_fifo: old(self)@.tx_fifo.push(byte),
                ..old(self)@
            }),
            old(self)@.tx_fifo.len() >= I2C_FIFO_SIZE ==> final(self)@ == (RegisterState {
                int_raw: IntBits { txfifo_ovf: true, ..old(self)@.int_raw },
                ..old(self)@
            }),
    {
        if self.tx_fifo.len() < I2C_FIFO_SIZE {
            self.tx_fifo.push(byte);
        } else {
            self.int_raw.txfifo_ovf = true;
        }
    }

    /// Sets the TX and RX FIFO reset bits to `tx` and `rx`; a set reset bit
    /// empties its FIFO.
    pub fn set_fifo_reset(&mut self, tx: bool, rx: bool)
        requires
            old(self).wf(),
        ensures
            final(self).wf(),
            final(self)@ == (RegisterState {
                fifo_conf: FifoConf { tx_fifo_rst: tx, rx_fifo_rst: rx, ..old(self)@.fifo_conf },
                tx_fifo: if tx { Seq::<u8>::empty() } else { old(self)@.tx_fifo },
                rx_fifo: if rx { Seq::<u8>::empty() } else { old(self)@.rx_fifo },
                ..old(self)@
            }),
    {
        self.fifo_conf.tx_fifo_rst = tx;
        self.fifo_conf.rx_fifo_rst = rx;
        if tx {
            self.tx_fifo.clear();
        }
        if rx {
            self.rx_fifo.clear();
        }
    }

    /// Sets, then clears, the TX FIFO reset bit: the TX FIFO ends empty.
    pub fn pulse_tx_fifo_reset(&mut self)
        requires
            old(self).wf(),
        ensures
            final(self).wf(),
            final(self)@ == (RegisterState {
                fifo_conf: FifoConf { tx_fifo_rst: false, ..old(self)@.fifo_conf },
                tx_fifo: Seq::<u8>::empty(),
                ..old(self)@
            }),
    {
        self.fifo_conf.tx_fifo_rst = true;
        self.tx_fifo.clear();
        self.fifo_conf.tx_fifo_rst = false;
    }

    /// Writes 0x1FFF to the interrupt clear register: every raw bit clears.
    pub fn clear_all_interrupts(&mut self)
        requires
            old(self).wf(),
        ensures
            final(self).wf(),
            final(self)@ == (RegisterState { int_raw: IntBits::none_spec(), ..old(self)@ }),
    {
        self.int_raw = IntBits::none();
    }
}

} // verus!
