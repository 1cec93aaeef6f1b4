//! Register-level operations of the polling slave driver.

use vstd::prelude::*;

use crate::regs::{
    Ctr, FifoConf, FilterCfg, I2C_FIFO_SIZE, I2cRegisters, IntBits, RegisterState, SclStretchConf,
    SlaveAddr, TimeoutConf,
};

use super::address::I2cAddress;
use super::config::Config;
use super::error::{ConfigError, Error};

verus! {

/// Stretch limit written when clock stretching is on (the 10-bit maximum).
pub const STRETCH_PROTECT_MAX: u16 = 1023;

/// RX FIFO watermark: the interrupt fires before the FIFO fills.
pub const RX_FIFO_WATERMARK: u8 = 30;

/// Bus timeout threshold written at setup.
pub const BUS_TIMEOUT_VALUE: u8 = 0x10;

/// Time the wait for a STOP gives a transfer already under way, in
/// microseconds; without a STOP by then the transfer is a write-read.
pub const STOP_WAIT_US: u64 = 1000;

/// The control register after `init_slave`.
pub open spec fn ctr_after_init() -> Ctr {
    Ctr { clk_en: true, ..Ctr::reset_spec() }
}

/// The control register once setup has finished for an address of the given
/// mode.
pub open spec fn ctr_after_setup(ten_bit: bool) -> Ctr {
    Ctr {
        sda_force_out: true,
        scl_force_out: true,
        ms_mode: false,
        trans_start: true,
        tx_lsb_first: false,
        rx_lsb_first: false,
        clk_en: true,
        addr_10bit_rw_check_en: ten_bit,
        addr_broadcasting_en: false,
        conf_upgate: true,
        slv_tx_auto_start_en: true,
    }
}

/// The filter register after it was set for the given optional thresholds.
pub open spec fn filter_after(old: FilterCfg, sda: Option<u8>, scl: Option<u8>) -> FilterCfg {
    FilterCfg {
        sda_filter_thres: match sda {
            Some(t) => t,
            None => old.sda_filter_thres,
        },
        scl_filter_thres: match scl {
            Some(t) => t,
            None => old.scl_filter_thres,
        },
        sda_filter_en: sda is Some,
        scl_filter_en: scl is Some,
    }
}

/// The threshold a filter gets: the configured one when the filter is on.
pub open spec fn filter_threshold(enabled: bool, threshold: u8) -> Option<u8> {
    if enabled {
        Some(threshold)
    } else {
        None
    }
}

/// The register block once `setup` has applied `config` to `old`.
pub open spec fn state_after_setup(old: RegisterState, config: Config) -> RegisterState {
    RegisterState {
        ctr: ctr_after_setup(config.address.ten_bit()),
        fifo_conf: FifoConf {
            rxfifo_wm_thrhd: RX_FIFO_WATERMARK,
            txfifo_wm_thrhd: 1,
            fifo_addr_cfg_en: config.register_based_mode,
            rx_fifo_rst: false,
            tx_fifo_rst: false,
        },
        slave_addr: SlaveAddr {
            slave_addr: config.address.value() as u16,
            addr_10bit_en: config.address.ten_bit(),
        },
        scl_stretch_conf: SclStretchConf {
            stretch_protect_num: STRETCH_PROTECT_MAX,
            slave_scl_stretch_en: config.clock_stretch_enable,
            slave_byte_ack_ctl_en: false,
            slave_byte_ack_lvl: false,
            ..old.scl_stretch_conf
        },
        to: TimeoutConf { time_out_value: BUS_TIMEOUT_VALUE, time_out_en: true },
        filter_cfg: filter_after(
            old.filter_cfg,
            filter_threshold(config.sda_filter_enable, config.sda_filter_threshold),
            filter_threshold(config.scl_filter_enable, config.scl_filter_threshold),
        ),
        int_raw: IntBits::none_spec(),
        rx_fifo: Seq::empty(),
        tx_fifo: Seq::empty(),
        ..old
    }
}

/// After configuration the controller answers the configured address: the
/// slave address register holds the address's value, and its 10-bit mode is
/// on exactly for a 10-bit address.
pub proof fn lemma_setup_sets_address(r: RegisterState, config: Config)
    ensures
        state_after_setup(r, config).slave_addr.addr_10bit_en <==> config.address is TenBit,
        config.address matches I2cAddress::SevenBit(a) ==> state_after_setup(
            r,
            config,
        ).slave_addr.slave_addr == a as u16,
        config.address matches I2cAddress::TenBit(a) ==> state_after_setup(
            r,
            config,
        ).slave_addr.slave_addr == a,
{
}

/// Puts the controller in slave mode and sets the FIFO watermarks.
pub fn init_slave(regs: &mut I2cRegisters, config: &Config)
    requires
        old(regs).wf(),
    ensures
        final(regs).wf(),
        final(regs)@ == (RegisterState {
            ctr: ctr_after_init(),
            fifo_conf: FifoConf {
                rxfifo_wm_thrhd: RX_FIFO_WATERMARK,
                txfifo_wm_thrhd: 1,
                fifo_addr_cfg_en: config.register_based_mode,
                ..old(regs)@.fifo_conf
            },
            ..old(regs)@
        }),
{
    // Reset the controller to a clean state.
    regs.ctr = Ctr::zero();
    // Slave mode, open-drain SDA and SCL, MSB first, clock on.
    let mut ctr = Ctr::reset();
    ctr.ms_mode = false;
    ctr.sda_force_out = true;
    ctr.scl_force_out = true;
    ctr.tx_lsb_first = false;
    ctr.rx_lsb_first = false;
    ctr.clk_en = true;
    regs.ctr = ctr;
    regs.ctr.ms_mode = false;
    // Answer only our address; automatic transmit starts off.
    regs.ctr.addr_broadcasting_en = false;
    regs.ctr.rx_lsb_first = false;
    regs.ctr.tx_lsb_first = false;
    regs.ctr.slv_tx_auto_start_en = false;
    // The RX interrupt fires at 30 bytes, before the FIFO overflows.
    regs.fifo_conf.rxfifo_wm_thrhd = RX_FIFO_WATERMARK;
    regs.fifo_conf.txfifo_wm_thrhd = 1;
    regs.fifo_conf.fifo_addr_cfg_en = config.register_based_mode;
}

/// Sets the glitch filters: a threshold turns its filter on, `None` turns it
/// off.
pub fn set_filter(regs: &mut I2cRegisters, sda_threshold: Option<u8>, scl_threshold: Option<u8>)
    requires
        old(regs).wf(),
    ensures
        final(regs).wf(),
        final(regs)@ == (RegisterState {
            filter_cfg: filter_after(old(regs)@.filter_cfg, sda_threshold, scl_threshold),
            ..old(regs)@
        }),
{
    if let Some(threshold) = sda_threshold {
        regs.filter_cfg.sda_filter_thres = threshold;
    }
    if let Some(threshold) = scl_threshold {
        regs.filter_cfg.scl_filter_thres = threshold;
    }
    regs.filter_cfg.sda_filter_en = sda_threshold.is_some();
    regs.filter_cfg.scl_filter_en = scl_threshold.is_some();
}

/// Synchronises the configuration and starts the slave state machine.
pub fn update_registers(regs: &mut I2cRegisters)
    requires
        old(regs).wf(),
    ensures
        final(regs).wf(),
        final(regs)@ == (RegisterState {
            ctr: Ctr {
                conf_upgate: true,
                trans_start: true,
                ms_mode: false,
                slv_tx_auto_start_en: true,
                ..old(regs)@.ctr
            },
            ..old(regs)@
        }),
{
    regs.ctr.conf_upgate = true;
    regs.ctr.trans_start = true;
    regs.ctr.ms_mode = false;
    regs.ctr.slv_tx_auto_start_en = true;
}

/// The register block after `reset_fifo`.
pub open spec fn state_after_reset_fifo(old: RegisterState) -> RegisterState {
    RegisterState {
        ctr: Ctr {
            conf_upgate: true,
            trans_start: true,
            ms_mode: false,
            slv_tx_auto_start_en: true,
            ..old.ctr
        },
        fifo_conf: FifoConf { tx_fifo_rst: false, rx_fifo_rst: false, ..old.fifo_conf },
        int_raw: IntBits::none_spec(),
        rx_fifo: Seq::empty(),
        tx_fifo: Seq::empty(),
        ..old
    }
}

/// Empties both FIFOs, clears every pending interrupt and resynchronises.
pub fn reset_fifo(regs: &mut I2cRegisters)
    requires
        old(regs).wf(),
    ensures
        final(regs).wf(),
        final(regs)@ == state_after_reset_fifo(old(regs)@),
        final(regs)@ == (RegisterState {
            ctr: Ctr {
                conf_upgate: true,
                trans_start: true,
                ms_mode: false,
                slv_tx_auto_start_en: true,
                ..old(regs)@.ctr
            },
            fifo_conf: FifoConf {
                tx_fifo_rst: false,
                rx_fifo_rst: false,
                ..old(regs)@.fifo_conf
            },
            int_raw: IntBits::none_spec(),
            rx_fifo: Seq::empty(),
            tx_fifo: Seq::empty(),
            ..old(regs)@
        }),
{
    regs.set_fifo_reset(true, true);
    regs.set_fifo_reset(false, false);
    regs.clear_all_interrupts();
    update_registers(regs);
}

/// Configures the peripheral as a slave for `config`: address, clock
/// stretching, bus timeout, filters; then empties the FIFOs. Always succeeds.
pub fn setup(regs: &mut I2cRegisters, config: &Config) -> (res: Result<(), ConfigError>)
    requires
        old(regs).wf(),
    ensures
        final(regs).wf(),
        res is Ok,
        final(regs)@ == state_after_setup(old(regs)@, *config),
{
    init_slave(regs, config);

    let is_10bit = config.address.is_ten_bit();
    let addr_value = config.address.as_u16();
    regs.slave_addr = SlaveAddr { slave_addr: addr_value, addr_10bit_en: is_10bit };

    // The address acknowledgement needs slave mode, the address again, and the
    // 10-bit check and automatic transmit in the control register.
    regs.ctr.ms_mode = false;
    regs.slave_addr = SlaveAddr { slave_addr: addr_value, addr_10bit_en: is_10bit };
    regs.ctr.addr_10bit_rw_check_en = is_10bit;
    regs.ctr.slv_tx_auto_start_en = true;

    // Clock stretching, with the longest stretch limit and no software ACK.
    regs.scl_stretch_conf.slave_scl_stretch_en = config.clock_stretch_enable;
    regs.scl_stretch_conf.stretch_protect_num = STRETCH_PROTECT_MAX;
    regs.scl_stretch_conf.slave_byte_ack_ctl_en = false;
    regs.scl_stretch_conf.slave_byte_ack_lvl = false;

    // Bus timeout.
    regs.to.time_out_en = true;
    regs.to.time_out_value = BUS_TIMEOUT_VALUE;

    let sda_filter = if config.sda_filter_enable {
        Some(config.sda_filter_threshold)
    } else {
        None
    };
    let scl_filter = if config.scl_filter_enable {
        Some(config.scl_filter_threshold)
    } else {
        None
    };
    set_filter(regs, sda_filter, scl_filter);

    reset_fifo(regs);

    // Final activation: nothing pending, slave mode, open drain, clock on.
    regs.clear_all_interrupts();
    regs.ctr.ms_mode = false;
    regs.ctr.sda_force_out = true;
    regs.ctr.scl_force_out = true;
    regs.ctr.clk_en = true;

    update_registers(regs);
    Ok(())
}

/// Reports the error that the raw interrupt bits show: arbitration loss
/// first, then a bus timeout.
pub fn check_errors(regs: &I2cRegisters) -> (res: Result<(), Error>)
    ensures
        res == error_of(regs@.int_raw),
{
    if regs.int_raw.arbitration_lost {
        return Err(Error::ArbitrationLost);
    }
    if regs.int_raw.time_out {
        return Err(Error::Timeout);
    }
    Ok(())
}

/// The error that raw interrupt bits show, if any.
pub open spec fn error_of(raw: IntBits) -> Result<(), Error> {
    if raw.arbitration_lost {
        Err(Error::ArbitrationLost)
    } else if raw.time_out {
        Err(Error::Timeout)
    } else {
        Ok(())
    }
}

/// Reads received bytes into `buffer`: as many as the RX FIFO holds, at most
/// the buffer's length. Unless the FIFO was empty, the transaction state is
/// then reset (interrupts cleared, slave mode with automatic transmit).
pub fn read_fifo(regs: &mut I2cRegisters, buffer: &mut [u8]) -> (count: usize)
    requires
        old(regs).wf(),
    ensures
        final(regs).wf(),
        count == min(old(buffer)@.len() as int, old(regs)@.rx_fifo.len() as int),
        final(buffer)@.len() == old(buffer)@.len(),
        final(buffer)@.subrange(0, count as int) == old(regs)@.rx_fifo.subrange(0, count as int),
        final(buffer)@.subrange(count as int, old(buffer)@.len() as int) == old(buffer)@.subrange(count as int, old(buffer)@.len() as int),
        old(regs)@.rx_fifo.len() == 0 ==> final(regs)@ == old(regs)@,
        old(regs)@.rx_fifo.len() > 0 ==> final(regs)@ == (RegisterState {
            rx_fifo: old(regs)@.rx_fifo.skip(count as int),
            int_raw: IntBits::none_spec(),
            ctr: Ctr {
                ms_mode: false,
                slv_tx_auto_start_en: true,
                sda_force_out: true,
                scl_force_out: true,
                conf_upgate: true,
                ..old(regs)@.ctr
            },
            ..old(regs)@
        }),
{
    if regs.rxfifo_cnt() == 0 {
        return 0;
    }
    let ghost fifo0 = regs@.rx_fifo;
    let ghost regs0 = regs@;
    let ghost buf0 = buffer@;
    let mut count: usize = 0;
    let len = buffer.len();
    while count < len
        invariant
            regs.wf(),
            count <= len,
            len == buffer@.len(),
            buffer@.len() == buf0.len(),
            count <= fifo0.len(),
            regs@ == (RegisterState { rx_fifo: fifo0.skip(count as int), ..regs0 }),
            buffer@.subrange(0, count as int) == fifo0.subrange(0, count as int),
            buffer@.subrange(count as int, len as int) == buf0.subrange(count as int, len as int),
        ensures
            count == min(len as int, fifo0.len() as int),
        decreases len - count,
    {
        if regs.rxfifo_cnt() == 0 {
            break;
        }
        let byte = regs.read_data();
        let ghost before = buffer@;
        buffer[count] = byte;
        proof {
            assert(fifo0.skip(count as int).drop_first() =~= fifo0.skip(count + 1));
            assert(buffer@.subrange(0, count + 1) =~= fifo0.subrange(0, count + 1)) by {
                assert forall|i: int| 0 <= i < count implies buffer@[i] == fifo0[i] by {
                    assert(before.subrange(0, count as int)[i] == fifo0.subrange(0, count as int)[i]);
                }
            }
            assert(buffer@.subrange(count + 1, len as int) =~= buf0.subrange(count + 1, len as int))
                by {
                assert forall|i: int| count + 1 <= i < len implies buffer@[i] == buf0[i] by {
                    assert(before.subrange(count as int, len as int)[i - count] == buf0.subrange(
                        count as int,
                        len as int,
                    )[i - count]);
                }
            }
        }
        count = count + 1;
    }
    regs.clear_all_interrupts();
    regs.ctr.ms_mode = false;
    regs.ctr.slv_tx_auto_start_en = true;
    regs.ctr.sda_force_out = true;
    regs.ctr.scl_force_out = true;
    regs.ctr.conf_upgate = true;
    count
}

/// The register block after `prepare_slave_tx`: TX FIFO emptied, interrupts
/// cleared, stretching set up per `config`, slave transmit enabled.
pub open spec fn state_after_prepare_tx(old: RegisterState, config: Config) -> RegisterState {
    RegisterState {
        ctr: Ctr {
            conf_upgate: true,
            ms_mode: false,
            slv_tx_auto_start_en: true,
            sda_force_out: true,
            scl_force_out: true,
            ..old.ctr
        },
        fifo_conf: FifoConf {
            tx_fifo_rst: false,
            txfifo_wm_thrhd: 0,
            fifo_addr_cfg_en: config.register_based_mode,
            ..old.fifo_conf
        },
        scl_stretch_conf: SclStretchConf {
            slave_scl_stretch_en: config.clock_stretch_enable,
            stretch_protect_num: if config.clock_stretch_enable {
                STRETCH_PROTECT_MAX
            } else {
                0
            },
            slave_byte_ack_ctl_en: false,
            slave_byte_ack_lvl: false,
            ..old.scl_stretch_conf
        },
        int_raw: IntBits::none_spec(),
        tx_fifo: Seq::empty(),
        ..old
    }
}

/// Readies the slave to transmit: empties only the TX FIFO (received bytes
/// stay), clears interrupts, and sets stretching and automatic transmit.
pub fn prepare_slave_tx(regs: &mut I2cRegisters, config: &Config)
    requires
        old(regs).wf(),
    ensures
        final(regs).wf(),
        final(regs)@ == state_after_prepare_tx(old(regs)@, *config),
{
    regs.ctr.conf_upgate = true;
    regs.pulse_tx_fifo_reset();
    let ghost after_reset = regs@;
    // Check that the TX FIFO is empty; reset it again, at most twice, if not.
    let mut attempt: u32 = 0;
    while attempt < 3
        invariant
            regs.wf(),
            regs@ == after_reset,
            after_reset.tx_fifo.len() == 0,
            after_reset.fifo_conf.tx_fifo_rst == false,
        decreases 3 - attempt,
    {
        if regs.txfifo_cnt() == 0 {
            break;
        }
        if attempt < 2 {
            regs.pulse_tx_fifo_reset();
        }
        attempt = attempt + 1;
    }
    regs.clear_all_interrupts();
    regs.scl_stretch_conf.slave_scl_stretch_en = config.clock_stretch_enable;
    regs.scl_stretch_conf.stretch_protect_num = if config.clock_stretch_enable {
        STRETCH_PROTECT_MAX
    } else {
        0
    };
    regs.scl_stretch_conf.slave_byte_ack_ctl_en = false;
    regs.scl_stretch_conf.slave_byte_ack_lvl = false;
    regs.ctr.ms_mode = false;
    regs.ctr.slv_tx_auto_start_en = true;
    regs.ctr.sda_force_out = true;
    regs.ctr.scl_force_out = true;
    regs.fifo_conf.txfifo_wm_thrhd = 0;
    regs.fifo_conf.fifo_addr_cfg_en = config.register_based_mode;
    regs.ctr.conf_upgate = true;
}

/// The register block after a stretch release with stretching `enabled`:
/// nothing changes when it is off.
pub open spec fn state_after_release(old: RegisterState, enabled: bool) -> RegisterState {
    if enabled {
        RegisterState {
            scl_stretch_conf: SclStretchConf { slave_scl_stretch_clr: true, ..old.scl_stretch_conf },
            ctr: Ctr { conf_upgate: true, ..old.ctr },
            ..old
        }
    } else {
        old
    }
}

/// Releases a clock stretch in progress, when stretching is enabled, so that
/// the master can go on.
pub fn release_scl_stretch(regs: &mut I2cRegisters, clock_stretch_enable: bool)
    requires
        old(regs).wf(),
    ensures
        final(regs).wf(),
        final(regs)@ == state_after_release(old(regs)@, clock_stretch_enable),
{
    if !clock_stretch_enable {
        return;
    }
    regs.scl_stretch_conf.slave_scl_stretch_clr = true;
    regs.ctr.conf_upgate = true;
}

/// The register block after an emergency stretch release with stretching
/// `enabled`: nothing changes when it is off.
pub open spec fn state_after_force_release(old: RegisterState, enabled: bool) -> RegisterState {
    if enabled {
        RegisterState {
            scl_stretch_conf: SclStretchConf {
                slave_scl_stretch_clr: true,
                slave_scl_stretch_en: true,
                ..old.scl_stretch_conf
            },
            ctr: Ctr { conf_upgate: true, ..old.ctr },
            ..old
        }
    } else {
        old
    }
}

/// Emergency release of a stuck stretch, when stretching is enabled: the
/// release bit is written three times and stretching is switched off and on.
pub fn force_release_scl_stretch(regs: &mut I2cRegisters, clock_stretch_enable: bool)
    requires
        old(regs).wf(),
    ensures
        final(regs).wf(),
        final(regs)@ == state_after_force_release(old(regs)@, clock_stretch_enable),
{
    if !clock_stretch_enable {
        return;
    }
    let mut i: u32 = 0;
    while i < 3
        invariant
            regs.wf(),
            i <= 3,
            i == 0 ==> regs@ == old(regs)@,
            i > 0 ==> regs@ == (RegisterState {
                scl_stretch_conf: SclStretchConf {
                    slave_scl_stretch_clr: true,
                    ..old(regs)@.scl_stretch_conf
                },
                ..old(regs)@
            }),
        decreases 3 - i,
    {
        regs.scl_stretch_conf.slave_scl_stretch_clr = true;
        i = i + 1;
    }
    regs.scl_stretch_conf.slave_scl_stretch_en = false;
    regs.scl_stretch_conf.slave_scl_stretch_en = true;
    regs.ctr.conf_upgate = true;
}

/// The register block after `write_fifo` for `buffer`, when the FIFO check
/// passes or fails part way: `base` with as much of `buffer` appended as fits.
pub open spec fn state_after_load(base: RegisterState, buffer: Seq<u8>) -> RegisterState {
    let room = I2C_FIFO_SIZE - base.tx_fifo.len();
    RegisterState {
        tx_fifo: base.tx_fifo + buffer.take(min(room, buffer.len() as int)),
        ..base
    }
}

/// The register block from which `write_fifo` loads bytes: the current one
/// when reads already empty the TX FIFO, else one prepared for transmit.
pub open spec fn load_base(old: RegisterState, config: Config) -> RegisterState {
    if config.clear_tx_on_write {
        old
    } else {
        state_after_prepare_tx(old, config)
    }
}

/// Whether `write_fifo` succeeds on `old` for `buffer`.
pub open spec fn load_result(old: RegisterState, config: Config, buffer: Seq<u8>) -> Result<
    (),
    Error,
> {
    let base = load_base(old, config);
    if buffer.len() > I2C_FIFO_SIZE {
        Err(Error::FifoExceeded)
    } else if base.tx_fifo.len() >= I2C_FIFO_SIZE || base.tx_fifo.len() + buffer.len()
        > I2C_FIFO_SIZE {
        Err(Error::TxFifoOverflow)
    } else {
        Ok(())
    }
}

/// The register block after `write_fifo` on `old` for `buffer`.
pub open spec fn load_state(old: RegisterState, config: Config, buffer: Seq<u8>) -> RegisterState {
    let base = load_base(old, config);
    if buffer.len() > I2C_FIFO_SIZE {
        old
    } else if base.tx_fifo.len() >= I2C_FIFO_SIZE || base.tx_fifo.len() + buffer.len()
        > I2C_FIFO_SIZE {
        state_after_load(base, buffer)
    } else {
        state_after_release(
            RegisterState { ctr: Ctr { conf_upgate: true, ..base.ctr }, ..state_after_load(base, buffer) },
            config.clock_stretch_enable,
        )
    }
}

/// Queues `buffer` for the master. More than a FIFO's worth is refused with
/// [`Error::FifoExceeded`]; bytes that find the TX FIFO full end the load
/// with [`Error::TxFifoOverflow`]. A complete load releases the clock stretch.
#[verifier::rlimit(30)]
pub fn write_fifo(regs: &mut I2cRegisters, config: &Config, buffer: &[u8]) -> (res: Result<
    (),
    Error,
>)
    requires
        old(regs).wf(),
    ensures
        final(regs).wf(),
        res == load_result(old(regs)@, *config, buffer@),
        final(regs)@ == load_state(old(regs)@, *config, buffer@),
{
    if buffer.len() > I2C_FIFO_SIZE {
        return Err(Error::FifoExceeded);
    }
    // Reads that empty the TX FIFO have prepared it already; preparing again
    // here would race a write-read in progress.
    if !config.clear_tx_on_write {
        prepare_slave_tx(regs, config);
    }
    let ghost base = regs@;
    assert(base == load_base(old(regs)@, *config));
    if regs.txfifo_cnt() >= I2C_FIFO_SIZE {
        assert(base.tx_fifo + buffer@.take(0) =~= base.tx_fifo);
        assert(regs@ =~= state_after_load(base, buffer@));
        return Err(Error::TxFifoOverflow);
    }
    let mut i: usize = 0;
    while i < buffer.len()
        invariant
            regs.wf(),
            i <= buffer@.len(),
            buffer@.len() <= I2C_FIFO_SIZE,
            base.tx_fifo.len() + i <= I2C_FIFO_SIZE,
            base.tx_fifo.len() < I2C_FIFO_SIZE,
            base == load_base(old(regs)@, *config),
            regs@ == (RegisterState { tx_fifo: base.tx_fifo + buffer@.take(i as int), ..base }),
        decreases buffer@.len() - i,
    {
        if regs.txfifo_cnt() >= I2C_FIFO_SIZE {
            assert(i == I2C_FIFO_SIZE - base.tx_fifo.len());
            assert(regs@ =~= state_after_load(base, buffer@));
            return Err(Error::TxFifoOverflow);
        }
        regs.write_data(buffer[i]);
        assert(base.tx_fifo + buffer@.take(i + 1) =~= (base.tx_fifo + buffer@.take(i as int)).push(
            buffer@[i as int],
        ));
        i = i + 1;
    }
    assert(buffer@.take(i as int) =~= buffer@.take(buffer@.len() as int));
    regs.ctr.conf_upgate = true;
    release_scl_stretch(regs, config.clock_stretch_enable);
    Ok(())
}

/// Where the wait for received data stands.
#[derive(Debug, Clone, Copy, PartialEq, Eq, Structural)]
pub enum RxWaitPhase {
    /// Watching for a STOP or for bytes in the RX FIFO.
    Polling,
    /// Bytes arrived; waiting for the STOP that ends a plain write.
    AwaitingStop {
        /// When the bytes were seen, in microseconds.
        wait_start_us: u64,
    },
}

/// State of a wait for data from the master.
#[derive(Debug, Clone, Copy, PartialEq, Eq, Structural)]
pub struct RxWait {
    /// When the wait began, in microseconds.
    pub start_us: u64,
    /// How long the wait may last, in microseconds.
    pub timeout_us: u64,
    /// Where the wait stands.
    pub phase: RxWaitPhase,
}

/// Outcome of one step of the wait for data.
#[derive(Debug, Clone, Copy, PartialEq, Eq)]
pub enum RxWaitStep {
    /// Keep waiting, from this state.
    Pending(RxWait),
    /// The wait is over: `Ok(true)` for a write-read (no STOP came),
    /// `Ok(false)` for a write ended by STOP, or the error.
    Done(Result<bool, Error>),
}

/// Begins a wait for data from the master at time `now_us`: pending
/// interrupts of earlier transactions are cleared.
pub fn start_rx_wait(regs: &mut I2cRegisters, timeout_ms: u32, now_us: u64) -> (wait: RxWait)
    requires
        old(regs).wf(),
    ensures
        final(regs).wf(),
        final(regs)@ == (RegisterState { int_raw: IntBits::none_spec(), ..old(regs)@ }),
        wait == (RxWait {
            start_us: now_us,
            timeout_us: (timeout_ms * 1000) as u64,
            phase: RxWaitPhase::Polling,
        }),
{
    regs.clear_all_interrupts();
    RxWait { start_us: now_us, timeout_us: timeout_ms as u64 * 1000, phase: RxWaitPhase::Polling }
}

/// The outcome of one step of the wait for data, on registers `r`.
pub open spec fn rx_wait_next(r: RegisterState, wait: RxWait, now: u64) -> RxWaitStep {
    let timed_out = past(now, wait.start_us, wait.timeout_us);
    match wait.phase {
        RxWaitPhase::Polling => if r.int_raw.trans_complete {
            RxWaitStep::Done(Ok(false))
        } else if r.rx_fifo.len() > 0 {
            RxWaitStep::Pending(
                RxWait { phase: RxWaitPhase::AwaitingStop { wait_start_us: now }, ..wait },
            )
        } else if r.int_raw.arbitration_lost {
            RxWaitStep::Done(Err(Error::ArbitrationLost))
        } else if r.int_raw.time_out || timed_out {
            RxWaitStep::Done(Err(Error::Timeout))
        } else {
            RxWaitStep::Pending(wait)
        },
        RxWaitPhase::AwaitingStop { wait_start_us } => if r.int_raw.trans_complete {
            RxWaitStep::Done(Ok(false))
        } else if past(now, wait_start_us, STOP_WAIT_US) {
            RxWaitStep::Done(Ok(true))
        } else if timed_out {
            RxWaitStep::Done(Err(Error::Timeout))
        } else {
            RxWaitStep::Pending(wait)
        },
    }
}

/// The registers after one step of the wait for data: the interrupt that
/// ended the wait, if any, is cleared.
pub open spec fn rx_wait_regs(r: RegisterState, wait: RxWait, now: u64) -> RegisterState {
    let raw = r.int_raw;
    if raw.trans_complete {
        RegisterState { int_raw: IntBits { trans_complete: false, ..raw }, ..r }
    } else {
        match wait.phase {
            RxWaitPhase::Polling => if r.rx_fifo.len() > 0 {
                r
            } else if raw.arbitration_lost {
                RegisterState { int_raw: IntBits { arbitration_lost: false, ..raw }, ..r }
            } else if raw.time_out {
                RegisterState { int_raw: IntBits { time_out: false, ..raw }, ..r }
            } else {
                r
            },
            RxWaitPhase::AwaitingStop { .. } => r,
        }
    }
}

/// The wait for data cannot outlast its timeout: once the timeout has
/// passed, a step ends the wait, except the step that first sees bytes in the
/// RX FIFO; the step after that one, at the same time or later, ends it.
pub proof fn lemma_wait_bounded_by_timeout(
    r: RegisterState,
    next_regs: RegisterState,
    wait: RxWait,
    now: u64,
    later: u64,
)
    requires
        past(now, wait.start_us, wait.timeout_us),
        now <= later,
    ensures
        !(wait.phase is Polling && r.rx_fifo.len() > 0) ==> rx_wait_next(r, wait, now) is Done,
        rx_wait_next(r, wait, now) matches RxWaitStep::Pending(w) ==> rx_wait_next(
            next_regs,
            w,
            later,
        ) is Done,
{
}

/// `now` lies more than `span` after `start`.
pub open spec fn past(now: u64, start: u64, span: u64) -> bool {
    now > start + span
}

fn is_past(now: u64, start: u64, span: u64) -> (b: bool)
    ensures
        b == past(now, start, span),
{
    now > start && now - start > span
}

/// One step of the wait for data at time `now_us`, on the interrupt and FIFO
/// state the registers show.
///
/// A STOP ends the wait as a plain write (its interrupt is cleared). Bytes in
/// the RX FIFO start a wait of [`STOP_WAIT_US`] for the STOP, after which the
/// transfer counts as a write-read. Arbitration loss or a bus timeout ends the
/// wait with that error (its interrupt is cleared), and so does the overall
/// timeout.
pub fn rx_wait_step(regs: &mut I2cRegisters, wait: RxWait, now_us: u64) -> (step: RxWaitStep)
    requires
        old(regs).wf(),
    ensures
        final(regs).wf(),
        step == rx_wait_next(old(regs)@, wait, now_us),
        final(regs)@ == rx_wait_regs(old(regs)@, wait, now_us),
{
    let raw = regs.int_raw;
    match wait.phase {
        RxWaitPhase::Polling => {
            if raw.trans_complete {
                // A plain write, ended by STOP.
                regs.int_raw = IntBits { trans_complete: false, ..raw };
                return RxWaitStep::Done(Ok(false));
            }
            if regs.rxfifo_cnt() > 0 {
                // Data present: a STOP should follow unless this is a write-read.
                return RxWaitStep::Pending(
                    RxWait { phase: RxWaitPhase::AwaitingStop { wait_start_us: now_us }, ..wait },
                );
            }
            if raw.arbitration_lost {
                regs.int_raw = IntBits { arbitration_lost: false, ..raw };
                return RxWaitStep::Done(Err(Error::ArbitrationLost));
            }
            if raw.time_out {
                regs.int_raw = IntBits { time_out: false, ..raw };
                return RxWaitStep::Done(Err(Error::Timeout));
            }
            if is_past(now_us, wait.start_us, wait.timeout_us) {
                return RxWaitStep::Done(Err(Error::Timeout));
            }
            RxWaitStep::Pending(wait)
        },
        RxWaitPhase::AwaitingStop { wait_start_us } => {
            if raw.trans_complete {
                regs.int_raw = IntBits { trans_complete: false, ..raw };
                return RxWaitStep::Done(Ok(false));
            }
            if is_past(now_us, wait_start_us, STOP_WAIT_US) {
                // No STOP after the data: the master went on to read.
                return RxWaitStep::Done(Ok(true));
            }
            if is_past(now_us, wait.start_us, wait.timeout_us) {
                return RxWaitStep::Done(Err(Error::Timeout));
            }
            RxWaitStep::Pending(wait)
        },
    }
}

/// The register block after the TX FIFO was emptied following a read.
pub open spec fn state_after_tx_clear(old: RegisterState) -> RegisterState {
    RegisterState {
        fifo_conf: FifoConf { tx_fifo_rst: false, ..old.fifo_conf },
        tx_fifo: Seq::empty(),
        ctr: Ctr { conf_upgate: true, ..old.ctr },
        ..old
    }
}

/// Empties the TX FIFO around a read and resynchronises the configuration;
/// the reset is repeated, at most twice, until the FIFO shows empty.
pub fn clear_tx_after_read(regs: &mut I2cRegisters)
    requires
        old(regs).wf(),
    ensures
        final(regs).wf(),
        final(regs)@ == state_after_tx_clear(old(regs)@),
{
    regs.pulse_tx_fifo_reset();
    regs.ctr.conf_upgate = true;
    let ghost cleared = regs@;
    let mut retry: u32 = 0;
    while retry < 3
        invariant
            regs.wf(),
            regs@ == cleared,
            cleared.tx_fifo.len() == 0,
            cleared.fifo_conf.tx_fifo_rst == false,
        decreases 3 - retry,
    {
        if regs.txfifo_cnt() == 0 {
            break;
        }
        if retry < 2 {
            regs.pulse_tx_fifo_reset();
        }
        retry = retry + 1;
    }
}

/// The smaller of two integers.
pub open spec fn min(a: int, b: int) -> int {
    if a <= b {
        a
    } else {
        b
    }
}

} // verus!
