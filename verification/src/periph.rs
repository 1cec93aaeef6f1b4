//! Plain-value model of what surrounds the I2C register block: the peripheral
//! instances, their GPIO-matrix signals, pin connections and the interrupt
//! controller entry of each instance.

use vstd::prelude::*;

verus! {

/// The I2C peripheral instances that can act as slave.
#[derive(Debug, Clone, Copy, PartialEq, Eq, Hash, Structural)]
pub enum Peripheral {
    /// The first I2C controller.
    I2cExt0,
    /// The second I2C controller.
    I2cExt1,
}

/// GPIO-matrix signals of the I2C controllers (each one has an input and an
/// output side).
#[derive(Debug, Clone, Copy, PartialEq, Eq, Hash, Structural)]
pub enum Signal {
    /// SCL of the first controller.
    I2cExt0Scl,
    /// SDA of the first controller.
    I2cExt0Sda,
    /// SCL of the second controller.
    I2cExt1Scl,
    /// SDA of the second controller.
    I2cExt1Sda,
}

/// Interrupt priority levels.
#[derive(Debug, Clone, Copy, PartialEq, Eq, Hash, Structural)]
pub enum Priority {
    /// No priority: the interrupt is disabled.
    Disabled,
    /// Priority level 1 (the lowest).
    Priority1,
    /// Priority level 2.
    Priority2,
    /// Priority level 3.
    Priority3,
    /// Priority level 4.
    Priority4,
    /// Priority level 5.
    Priority5,
    /// Priority level 6.
    Priority6,
    /// Priority level 7.
    Priority7,
    /// Priority level 8.
    Priority8,
    /// Priority level 9.
    Priority9,
    /// Priority level 10.
    Priority10,
    /// Priority level 11.
    Priority11,
    /// Priority level 12.
    Priority12,
    /// Priority level 13.
    Priority13,
    /// Priority level 14.
    Priority14,
    /// Priority level 15 (the highest).
    Priority15,
}

/// An interrupt handler: which routine runs, at which priority.
#[derive(Debug, Clone, Copy, PartialEq, Eq, Hash, Structural)]
pub struct InterruptHandler {
    /// Identifies the handler routine.
    pub id: u32,
    /// Priority the interrupt is enabled at.
    pub priority: Priority,
}

/// The interrupt-controller entry of a peripheral.
#[derive(Debug, Clone, Copy, PartialEq, Eq, Structural)]
pub struct InterruptLine {
    /// The routine bound to the interrupt, if any.
    pub bound: Option<u32>,
    /// The priority the interrupt is enabled at, if it is enabled.
    pub enabled: Option<Priority>,
}

impl InterruptLine {
    /// An interrupt with no handler bound, disabled.
    pub fn new() -> (r: InterruptLine)
        ensures
            r.bound is None,
            r.enabled is None,
    {
        InterruptLine { bound: None, enabled: None }
    }
}

/// Output driver of a pin.
#[derive(Debug, Clone, Copy, PartialEq, Eq, Hash, Structural)]
pub enum DriveMode {
    /// Drives both levels.
    PushPull,
    /// Drives low only; high comes from a pull-up.
    OpenDrain,
}

/// Internal pull resistor of a pin.
#[derive(Debug, Clone, Copy, PartialEq, Eq, Hash, Structural)]
pub enum Pull {
    /// No internal pull.
    NoPull,
    /// Pull-up.
    Up,
    /// Pull-down.
    Down,
}

/// A GPIO pin routed to an I2C signal, with its electrical setup.
#[derive(Debug, Clone, Copy, PartialEq, Eq, Hash, Structural)]
pub struct PinConnection {
    /// GPIO number.
    pub gpio: u8,
    /// Output level set before the output is enabled.
    pub output_high: bool,
    /// Output driver.
    pub drive_mode: DriveMode,
    /// Internal pull.
    pub pull: Pull,
    /// Output enabled.
    pub output_enable: bool,
    /// Input enabled.
    pub input_enable: bool,
    /// Peripheral input signal the pin feeds.
    pub input_signal: Signal,
    /// Peripheral output signal the pin carries.
    pub output_signal: Signal,
}

/// Keeps a peripheral output signal routed to a pin, or unconnected.
#[derive(Debug, Clone, Copy, PartialEq, Eq, Hash, Structural)]
pub struct PinGuard {
    /// The output signal guarded.
    pub signal: Signal,
    /// The pin it is routed to, if any.
    pub pin: Option<PinConnection>,
}

impl PinGuard {
    /// A guard for `signal`, routed to no pin.
    pub fn new_unconnected(signal: Signal) -> (g: PinGuard)
        ensures
            g == (PinGuard { signal, pin: None }),
    {
        PinGuard { signal, pin: None }
    }
}

/// The connection an I2C line gets on `gpio`: open drain without internal
/// pull (the bus needs external pull-ups), output high, input and output on.
pub open spec fn i2c_pin(gpio: u8, input: Signal, output: Signal) -> PinConnection {
    PinConnection {
        gpio,
        output_high: true,
        drive_mode: DriveMode::OpenDrain,
        pull: Pull::NoPull,
        output_enable: true,
        input_enable: true,
        input_signal: input,
        output_signal: output,
    }
}

/// I2C lines are open drain: every pin routed to SDA or SCL is an
/// open-drain output with no internal pull, set high (released), with input
/// and output enabled, on the GPIO asked for and carrying the signals asked
/// for.
pub proof fn lemma_i2c_pins_open_drain(gpio: u8, input: Signal, output: Signal)
    ensures
        i2c_pin(gpio, input, output).drive_mode == DriveMode::OpenDrain,
        i2c_pin(gpio, input, output).pull == Pull::NoPull,
        i2c_pin(gpio, input, output).output_high,
        i2c_pin(gpio, input, output).output_enable,
        i2c_pin(gpio, input, output).input_enable,
        i2c_pin(gpio, input, output).gpio == gpio,
        i2c_pin(gpio, input, output).input_signal == input,
        i2c_pin(gpio, input, output).output_signal == output,
{
}

/// Routes `gpio` to an I2C line: `input` is fed from the pin and `output`
/// drives it, and `guard` now holds the connection.
pub fn connect_pin(gpio: u8, input: Signal, output: Signal, guard: &mut PinGuard)
    ensures
        *final(guard) == (PinGuard { signal: output, pin: Some(i2c_pin(gpio, input, output)) }),
{
    *guard = PinGuard {
        signal: output,
        pin: Some(
            PinConnection {
                gpio,
                output_high: true,
                drive_mode: DriveMode::OpenDrain,
                pull: Pull::NoPull,
                output_enable: true,
                input_enable: true,
                input_signal: input,
                output_signal: output,
            },
        ),
    };
}

} // verus!
