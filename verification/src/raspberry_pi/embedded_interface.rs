//! GPIO, I2C, SPI and UART set-up of the board, its watchdog and its status
//! LEDs.

use crate::clock::system_now;
use crate::raspberry_pi::{PiModel, RaspberryPiConfig};
use crate::text::{decimal, fmt_u64, join2, join3, push_line, strings_view};
use std::collections::HashMap;
use vstd::hash_map::StringHashMap;
use vstd::prelude::*;

verus! {

broadcast use {vstd::string::group_string_axioms, vstd::std_specs::hash::group_hash_axioms};

/// The level read on a pin.
#[derive(Debug, Clone, Copy, PartialEq, Eq, Structural)]
pub enum PinState {
    High,
    Low,
    Unknown,
}

/// What a pin is used for.
#[derive(Debug, Clone, Copy, PartialEq, Eq, Structural)]
pub enum PinMode {
    Input,
    Output,
    InputPullUp,
    InputPullDown,
    PWM,
    I2C,
    SPI,
    UART,
}

/// The edge or level that raises an interrupt.
#[derive(Debug, Clone, Copy, PartialEq, Eq, Structural)]
pub enum InterruptTrigger {
    RisingEdge,
    FallingEdge,
    BothEdges,
    LevelHigh,
    LevelLow,
}

/// An interrupt on a pin and the handler it runs.
#[derive(Debug, Clone)]
pub struct GPIOInterrupt {
    pub pin: u8,
    pub trigger: InterruptTrigger,
    pub handler: String,
    pub enabled: bool,
}

/// The board's GPIO pins.
#[derive(Debug, Clone)]
pub struct GPIOController {
    pub available_pins: Vec<u8>,
    pub pin_states: HashMap<u8, PinState>,
    pub pin_modes: HashMap<u8, PinMode>,
    pub interrupt_handlers: Vec<GPIOInterrupt>,
}

/// A device on an I2C bus and its register file.
#[derive(Debug, Clone)]
pub struct I2CDevice {
    pub address: u8,
    pub device_type: String,
    pub registers: HashMap<u8, u8>,
    pub last_communication: Option<std::time::SystemTime>,
}

/// An I2C bus and its devices by address.
#[derive(Debug, Clone)]
pub struct I2CInterface {
    pub bus_number: u8,
    pub speed_hz: u32,
    pub devices: HashMap<u8, I2CDevice>,
    pub enabled: bool,
}

/// SPI clock polarity and phase.
#[derive(Debug, Clone, Copy, PartialEq, Eq, Structural)]
pub enum SPIMode {
    Mode0,
    Mode1,
    Mode2,
    Mode3,
}

/// An SPI bus.
#[derive(Debug, Clone, Copy, PartialEq, Eq, Structural)]
pub struct SPIInterface {
    pub bus_number: u8,
    pub chip_select: u8,
    pub speed_hz: u32,
    pub mode: SPIMode,
    pub enabled: bool,
}

/// UART parity.
#[derive(Debug, Clone, Copy, PartialEq, Eq, Structural)]
pub enum UARTParity {
    NoParity,
    Even,
    Odd,
}

/// A serial port.
#[derive(Debug, Clone, Copy, PartialEq, Eq, Structural)]
pub struct UARTInterface {
    pub port: u8,
    pub baud_rate: u32,
    pub data_bits: u8,
    pub stop_bits: u8,
    pub parity: UARTParity,
    pub enabled: bool,
}

/// The hardware watchdog.
#[derive(Debug, Clone)]
pub struct HardwareWatchdog {
    pub enabled: bool,
    pub timeout_seconds: u32,
    pub last_feed: Option<std::time::SystemTime>,
    pub feed_interval_seconds: u32,
}

/// Power-saving switches of the board.
#[derive(Debug, Clone, Copy, PartialEq, Eq, Structural)]
pub struct PowerStates {
    pub cpu_idle_enabled: bool,
    pub usb_suspend_enabled: bool,
    pub hdmi_power_save: bool,
    pub wifi_power_save: bool,
}

/// An LED colour.
#[derive(Debug, Clone, Copy, PartialEq, Eq, Structural)]
pub enum LEDColor {
    Red,
    Green,
    Blue,
    Yellow,
    Purple,
    Cyan,
    White,
    Off,
    RGB(u8, u8, u8),
}

/// A blink rhythm; no repeat count means forever.
#[derive(Debug, Clone, Copy, PartialEq, Eq, Structural)]
pub struct BlinkPattern {
    pub on_duration_ms: u32,
    pub off_duration_ms: u32,
    pub repeat_count: Option<u32>,
}

/// The state of a status LED.
#[derive(Debug, Clone, Copy, PartialEq, Eq, Structural)]
pub struct LEDStatus {
    pub color: LEDColor,
    pub brightness: u8,
    pub blink_pattern: Option<BlinkPattern>,
    pub enabled: bool,
}

/// An LED driven from a pin.
#[derive(Debug, Clone)]
pub struct ProgrammableLED {
    pub id: String,
    pub pin: u8,
    pub current_color: LEDColor,
    pub pwm_enabled: bool,
}

/// The status LEDs by name, and the programmable LEDs.
pub struct LEDController {
    pub status_leds: StringHashMap<LEDStatus>,
    pub programmable_leds: Vec<ProgrammableLED>,
    pub brightness: u8,
    pub enabled: bool,
}

/// The board's hardware interfaces. Voltages and currents, which the board
/// reports as real numbers, are read by the application.
pub struct EmbeddedInterface {
    pub gpio_controller: GPIOController,
    pub i2c_interfaces: HashMap<u8, I2CInterface>,
    pub spi_interfaces: HashMap<u8, SPIInterface>,
    pub uart_interfaces: HashMap<u8, UARTInterface>,
    pub hardware_watchdog: HardwareWatchdog,
    pub power_states: PowerStates,
    pub led_controller: LEDController,
}

impl GPIOController {
    /// A controller with no pins, modes or interrupts.
    pub fn new() -> (g: Self)
        ensures
            g.available_pins@.len() == 0,
            g.pin_states@ == Map::<u8, PinState>::empty(),
            g.pin_modes@ == Map::<u8, PinMode>::empty(),
            g.interrupt_handlers@.len() == 0,
    {
        GPIOController {
            available_pins: Vec::new(),
            pin_states: HashMap::new(),
            pin_modes: HashMap::new(),
            interrupt_handlers: Vec::new(),
        }
    }
}

impl LEDController {
    /// A controller with no LEDs, at half brightness, switched off.
    pub fn new() -> (l: Self)
        ensures
            l.status_leds@ == Map::<Seq<char>, LEDStatus>::empty(),
            l.programmable_leds@.len() == 0,
            l.brightness == 128,
            !l.enabled,
    {
        LEDController { status_leds: StringHashMap::new(), programmable_leds: Vec::new(), brightness: 128, enabled: false }
    }
}

impl Default for HardwareWatchdog {
    fn default() -> (w: Self)
        ensures
            !w.enabled,
            w.timeout_seconds == 60,
            w.last_feed is None,
            w.feed_interval_seconds == 20,
    {
        HardwareWatchdog { enabled: false, timeout_seconds: 60, last_feed: None, feed_interval_seconds: 20 }
    }
}

/// The stock power switches: CPU idle and HDMI power saving on.
pub open spec fn default_power_states() -> PowerStates {
    PowerStates { cpu_idle_enabled: true, usb_suspend_enabled: false, hdmi_power_save: true, wifi_power_save: false }
}

/// The pins `lo..=hi` in order.
pub open spec fn pin_range(lo: u8, hi: u8) -> Seq<u8>
    recommends
        lo <= hi,
{
    Seq::new((hi - lo + 1) as nat, |i: int| (lo + i) as u8)
}

/// The pins a model offers.
pub open spec fn model_pins(model: PiModel) -> Seq<u8> {
    match model {
        PiModel::PiZero2W => pin_range(2, 22),
        _ => pin_range(2, 27),
    }
}

/// The pin modes TARS reserves on a model, over those set before.
pub open spec fn tars_pin_modes(model: PiModel, before: Map<u8, PinMode>) -> Map<u8, PinMode> {
    match model {
        PiModel::Pi4B8GB | PiModel::Pi4B4GB | PiModel::Pi4B2GB => before.insert(2, PinMode::I2C).insert(
            3,
            PinMode::I2C,
        ).insert(18, PinMode::PWM).insert(19, PinMode::PWM).insert(12, PinMode::Output).insert(
            16,
            PinMode::Output,
        ).insert(20, PinMode::Input).insert(21, PinMode::Input),
        PiModel::PiZero2W => before.insert(2, PinMode::I2C).insert(3, PinMode::I2C).insert(18, PinMode::PWM).insert(
            12,
            PinMode::Output,
        ),
        _ => before,
    }
}

/// The emergency-stop interrupt on pin 20.
pub open spec fn is_emergency_stop_interrupt(i: GPIOInterrupt) -> bool {
    &&& i.pin == 20
    &&& i.trigger == InterruptTrigger::FallingEdge
    &&& i.handler@ == "emergency_stop"@
    &&& i.enabled
}

/// The I2C bus of the servo controller: bus 1 at 400 kHz with a PCA9685 at
/// address 0x40.
pub open spec fn is_servo_bus(b: I2CInterface) -> bool {
    &&& b.bus_number == 1
    &&& b.speed_hz == 400000
    &&& b.enabled
    &&& b.devices@.dom() == set![0x40u8]
    &&& b.devices@[0x40].address == 0x40
    &&& b.devices@[0x40].device_type@ == "PCA9685"@
    &&& b.devices@[0x40].registers@ == Map::<u8, u8>::empty()
    &&& b.devices@[0x40].last_communication is None
}

/// The sensor SPI bus.
pub open spec fn sensor_spi() -> SPIInterface {
    SPIInterface { bus_number: 0, chip_select: 0, speed_hz: 1000000, mode: SPIMode::Mode0, enabled: true }
}

/// The communication UART.
pub open spec fn comm_uart() -> UARTInterface {
    UARTInterface { port: 0, baud_rate: 115200, data_bits: 8, stop_bits: 1, parity: UARTParity::NoParity, enabled: true }
}

/// The power LED: steady green at half brightness.
pub open spec fn power_led() -> LEDStatus {
    LEDStatus { color: LEDColor::Green, brightness: 128, blink_pattern: None, enabled: true }
}

/// The status LED: blue, blinking every half second.
pub open spec fn status_led() -> LEDStatus {
    LEDStatus {
        color: LEDColor::Blue,
        brightness: 64,
        blink_pattern: Some(BlinkPattern { on_duration_ms: 500, off_duration_ms: 500, repeat_count: None }),
        enabled: true,
    }
}

/// The error LED: red at full brightness, off until an error.
pub open spec fn error_led() -> LEDStatus {
    LEDStatus { color: LEDColor::Red, brightness: 255, blink_pattern: None, enabled: false }
}

/// The devices on the buses `0..upto` of an I2C table.
pub open spec fn device_total(m: Map<u8, I2CInterface>, upto: nat) -> nat
    decreases upto,
{
    if upto == 0 {
        0
    } else {
        let k = (upto - 1) as u8;
        device_total(m, (upto - 1) as nat) + if m.contains_key(k) {
            m[k].devices@.len()
        } else {
            0
        }
    }
}

/// The enabled SPI buses among `0..upto`.
pub open spec fn active_spi(m: Map<u8, SPIInterface>, upto: nat) -> nat
    decreases upto,
{
    if upto == 0 {
        0
    } else {
        let k = (upto - 1) as u8;
        active_spi(m, (upto - 1) as nat) + if m.contains_key(k) && m[k].enabled {
            1nat
        } else {
            0nat
        }
    }
}

/// The enabled UART ports among `0..upto`.
pub open spec fn active_uart(m: Map<u8, UARTInterface>, upto: nat) -> nat
    decreases upto,
{
    if upto == 0 {
        0
    } else {
        let k = (upto - 1) as u8;
        active_uart(m, (upto - 1) as nat) + if m.contains_key(k) && m[k].enabled {
            1nat
        } else {
            0nat
        }
    }
}

/// The watchdog's status line, given the seconds since it was last fed.
pub open spec fn watchdog_text(enabled: bool, seconds_since_feed: Option<u64>) -> Seq<char> {
    if !enabled {
        "Watchdog: Disabled"@
    } else {
        match seconds_since_feed {
            Some(s) => "Watchdog: Active (last feed: "@ + decimal(s as nat) + "s ago)"@,
            None => "Watchdog: Active (never fed)"@,
        }
    }
}

/// TARS's verdict on the power readings.
pub open spec fn health_text(power_good: bool, under_voltage: bool) -> Seq<char> {
    if power_good && !under_voltage {
        "TARS: Embedded systems nominal, Cooper. All hardware interfaces operational. GPIO, I2C, SPI, and UART systems functioning within parameters. Hardware watchdog active. Mission-ready status confirmed. Mission focus: 100%"@
    } else if under_voltage {
        "TARS: WARNING - Under-voltage condition detected. Power supply may be insufficient for optimal operation. Check power adapter specifications. Honesty setting: 90%"@
    } else {
        "TARS: Hardware subsystems operational with minor issues detected. Recommend system diagnostics for optimal performance. Humor setting: 75%"@
    }
}

/// The start-up messages of the six set-up steps.
pub open spec fn initialization_messages(pins: nat) -> Seq<Seq<char>> {
    seq![
        "GPIO initialized: "@ + decimal(pins) + " pins configured for TARS"@,
        "I2C bus 1 initialized for servo control (PCA9685)"@,
        "SPI bus 0 initialized for sensors"@,
        "UART0 initialized for communication (115200 baud)"@,
        "Hardware watchdog configured (30s timeout)"@,
        "TARS status LEDs initialized (power, status, error)"@,
    ]
}

proof fn lemma_byte_keys_at_most_256(s: Set<u8>)
    ensures
        s.finite() ==> s.len() <= 256,
{
    broadcast use vstd::set::group_set_axioms;

    let all = Set::<u8>::range(0, 255).insert(255);
    <u8 as vstd::set_lib::FiniteRange>::range_properties(0, 255);
    assert(s.subset_of(all));
    if s.finite() {
        vstd::set_lib::lemma_len_subset(s, all);
    }
}

fn pins_between(lo: u8, hi: u8) -> (v: Vec<u8>)
    requires
        lo <= hi < 255,
    ensures
        v@ == pin_range(lo, hi),
{
    let mut v: Vec<u8> = Vec::new();
    let mut p: u8 = lo;
    while p <= hi
        invariant
            lo <= p,
            p <= hi + 1,
            hi < 255,
            v@ == pin_range(lo, hi).take((p - lo) as int),
        decreases hi + 1 - p,
    {
        v.push(p);
        p = p + 1;
        assert(v@ =~= pin_range(lo, hi).take((p - lo) as int));
    }
    assert(v@ =~= pin_range(lo, hi));
    v
}

/// `b` differs from `a` at most in the parts flagged.
pub open spec fn changes_only(
    a: EmbeddedInterface,
    b: EmbeddedInterface,
    gpio: bool,
    i2c: bool,
    spi: bool,
    uart: bool,
    watchdog: bool,
    leds: bool,
) -> bool {
    &&& (!gpio ==> b.gpio_controller == a.gpio_controller)
    &&& (!i2c ==> b.i2c_interfaces == a.i2c_interfaces)
    &&& (!spi ==> b.spi_interfaces == a.spi_interfaces)
    &&& (!uart ==> b.uart_interfaces == a.uart_interfaces)
    &&& (!watchdog ==> b.hardware_watchdog == a.hardware_watchdog)
    &&& (!leds ==> b.led_controller == a.led_controller)
    &&& b.power_states == a.power_states
}

impl EmbeddedInterface {
    /// Interfaces with nothing set up yet.
    pub fn new() -> (e: Self)
        ensures
            e.gpio_controller.available_pins@.len() == 0,
            e.gpio_controller.pin_modes@ == Map::<u8, PinMode>::empty(),
            e.gpio_controller.interrupt_handlers@.len() == 0,
            e.i2c_interfaces@ == Map::<u8, I2CInterface>::empty(),
            e.spi_interfaces@ == Map::<u8, SPIInterface>::empty(),
            e.uart_interfaces@ == Map::<u8, UARTInterface>::empty(),
            !e.hardware_watchdog.enabled,
            e.hardware_watchdog.last_feed is None,
            e.power_states == default_power_states(),
            e.led_controller.status_leds@ == Map::<Seq<char>, LEDStatus>::empty(),
            !e.led_controller.enabled,
    {
        EmbeddedInterface {
            gpio_controller: GPIOController::new(),
            i2c_interfaces: HashMap::new(),
            spi_interfaces: HashMap::new(),
            uart_interfaces: HashMap::new(),
            hardware_watchdog: HardwareWatchdog::default(),
            power_states: PowerStates {
                cpu_idle_enabled: true,
                usb_suspend_enabled: false,
                hdmi_power_save: true,
                wifi_power_save: false,
            },
            led_controller: LEDController::new(),
        }
    }

    /// Offers the model's pins, reserves the TARS pins on the 4B and Zero 2W
    /// boards, and adds the emergency-stop interrupt on pin 20.
    pub fn initialize_gpio(&mut self, config: &RaspberryPiConfig) -> (r: Result<String, String>)
        ensures
            changes_only(*old(self), *final(self), true, false, false, false, false, false),
            final(self).gpio_controller.available_pins@ == model_pins(config.model),
            final(self).gpio_controller.pin_modes@ == tars_pin_modes(config.model, old(self).gpio_controller.pin_modes@),
            final(self).gpio_controller.pin_states@ == old(self).gpio_controller.pin_states@,
            final(self).gpio_controller.interrupt_handlers@.len() == old(self).gpio_controller.interrupt_handlers@.len() + 1,
            forall|i: int|
                0 <= i < old(self).gpio_controller.interrupt_handlers@.len() ==> (#[trigger] final(self).gpio_controller.interrupt_handlers@[i])
                    == old(self).gpio_controller.interrupt_handlers@[i],
            is_emergency_stop_interrupt(final(self).gpio_controller.interrupt_handlers@.last()),
            r matches Ok(m) && m@ == "GPIO initialized: "@ + decimal(model_pins(config.model).len())
                + " pins configured for TARS"@,
    {
        match config.model {
            PiModel::Pi4B8GB | PiModel::Pi4B4GB | PiModel::Pi4B2GB => {
                self.gpio_controller.available_pins = pins_between(2, 27);
                self.gpio_controller.pin_modes.insert(2, PinMode::I2C);
                self.gpio_controller.pin_modes.insert(3, PinMode::I2C);
                self.gpio_controller.pin_modes.insert(18, PinMode::PWM);
                self.gpio_controller.pin_modes.insert(19, PinMode::PWM);
                self.gpio_controller.pin_modes.insert(12, PinMode::Output);
                self.gpio_controller.pin_modes.insert(16, PinMode::Output);
                self.gpio_controller.pin_modes.insert(20, PinMode::Input);
                self.gpio_controller.pin_modes.insert(21, PinMode::Input);
            },
            PiModel::PiZero2W => {
                self.gpio_controller.available_pins = pins_between(2, 22);
                self.gpio_controller.pin_modes.insert(2, PinMode::I2C);
                self.gpio_controller.pin_modes.insert(3, PinMode::I2C);
                self.gpio_controller.pin_modes.insert(18, PinMode::PWM);
                self.gpio_controller.pin_modes.insert(12, PinMode::Output);
            },
            _ => {
                self.gpio_controller.available_pins = pins_between(2, 27);
            },
        }
        self.gpio_controller.interrupt_handlers.push(
            GPIOInterrupt {
                pin: 20,
                trigger: InterruptTrigger::FallingEdge,
                handler: String::from_str("emergency_stop"),
                enabled: true,
            },
        );
        let n = fmt_u64(self.gpio_controller.available_pins.len() as u64);
        Ok(join3("GPIO initialized: ", n.as_str(), " pins configured for TARS"))
    }

    /// Sets up I2C bus 1 for the servo controller.
    pub fn initialize_i2c(&mut self, config: &RaspberryPiConfig) -> (r: Result<String, String>)
        ensures
            changes_only(*old(self), *final(self), false, true, false, false, false, false),
            final(self).i2c_interfaces@.dom() == old(self).i2c_interfaces@.dom().insert(1),
            forall|k: u8| k != 1 && #[trigger] old(self).i2c_interfaces@.contains_key(k) ==> final(self).i2c_interfaces@[k]
                == old(self).i2c_interfaces@[k],
            is_servo_bus(final(self).i2c_interfaces@[1]),
            r matches Ok(m) && m@ == "I2C bus 1 initialized for servo control (PCA9685)"@,
    {
        let mut devices: HashMap<u8, I2CDevice> = HashMap::new();
        devices.insert(
            0x40,
            I2CDevice {
                address: 0x40,
                device_type: String::from_str("PCA9685"),
                registers: HashMap::new(),
                last_communication: None,
            },
        );
        assert(devices@.dom() =~= set![0x40u8]);
        let bus = I2CInterface { bus_number: 1, speed_hz: 400000, devices, enabled: true };
        self.i2c_interfaces.insert(1, bus);
        assert(self.i2c_interfaces@.dom() =~= old(self).i2c_interfaces@.dom().insert(1));
        Ok(String::from_str("I2C bus 1 initialized for servo control (PCA9685)"))
    }

    /// Sets up SPI bus 0 for the sensors.
    pub fn initialize_spi(&mut self, config: &RaspberryPiConfig) -> (r: Result<String, String>)
        ensures
            changes_only(*old(self), *final(self), false, false, true, false, false, false),
            final(self).spi_interfaces@ == old(self).spi_interfaces@.insert(0, sensor_spi()),
            r matches Ok(m) && m@ == "SPI bus 0 initialized for sensors"@,
    {
        self.spi_interfaces.insert(
            0,
            SPIInterface { bus_number: 0, chip_select: 0, speed_hz: 1000000, mode: SPIMode::Mode0, enabled: true },
        );
        Ok(String::from_str("SPI bus 0 initialized for sensors"))
    }

    /// Sets up UART0 at 115200 baud, 8N1.
    pub fn initialize_uart(&mut self, config: &RaspberryPiConfig) -> (r: Result<String, String>)
        ensures
            changes_only(*old(self), *final(self), false, false, false, true, false, false),
            final(self).uart_interfaces@ == old(self).uart_interfaces@.insert(0, comm_uart()),
            r matches Ok(m) && m@ == "UART0 initialized for communication (115200 baud)"@,
    {
        self.uart_interfaces.insert(
            0,
            UARTInterface { port: 0, baud_rate: 115200, data_bits: 8, stop_bits: 1, parity: UARTParity::NoParity, enabled: true },
        );
        Ok(String::from_str("UART0 initialized for communication (115200 baud)"))
    }

    /// Arms the watchdog with a 30 s timeout, fed every 10 s, and feeds it
    /// now.
    pub fn setup_watchdog(&mut self, config: &RaspberryPiConfig) -> (r: Result<String, String>)
        ensures
            changes_only(*old(self), *final(self), false, false, false, false, true, false),
            final(self).hardware_watchdog.enabled,
            final(self).hardware_watchdog.timeout_seconds == 30,
            final(self).hardware_watchdog.feed_interval_seconds == 10,
            final(self).hardware_watchdog.last_feed is Some,
            r matches Ok(m) && m@ == "Hardware watchdog configured (30s timeout)"@,
    {
        let now = system_now();
        self.hardware_watchdog = HardwareWatchdog {
            enabled: true,
            timeout_seconds: 30,
            last_feed: Some(now),
            feed_interval_seconds: 10,
        };
        Ok(String::from_str("Hardware watchdog configured (30s timeout)"))
    }

    /// Sets up the power, status and error LEDs and switches the LED
    /// controller on.
    pub fn initialize_status_leds(&mut self, config: &RaspberryPiConfig) -> (r: Result<String, String>)
        ensures
            changes_only(*old(self), *final(self), false, false, false, false, false, true),
            final(self).led_controller.status_leds@ == map![
                "power"@ => power_led(),
                "status"@ => status_led(),
                "error"@ => error_led(),
            ],
            final(self).led_controller.enabled,
            final(self).led_controller.brightness == old(self).led_controller.brightness,
            r matches Ok(m) && m@ == "TARS status LEDs initialized (power, status, error)"@,
    {
        let mut leds: StringHashMap<LEDStatus> = StringHashMap::new();
        leds.insert(String::from_str("power"), LEDStatus { color: LEDColor::Green, brightness: 128, blink_pattern: None, enabled: true });
        leds.insert(
            String::from_str("status"),
            LEDStatus {
                color: LEDColor::Blue,
                brightness: 64,
                blink_pattern: Some(BlinkPattern { on_duration_ms: 500, off_duration_ms: 500, repeat_count: None }),
                enabled: true,
            },
        );
        leds.insert(String::from_str("error"), LEDStatus { color: LEDColor::Red, brightness: 255, blink_pattern: None, enabled: false });
        proof {
            reveal_strlit("power");
            reveal_strlit("status");
            reveal_strlit("error");
        }
        assert(leds@ =~= map!["power"@ => power_led(), "status"@ => status_led(), "error"@ => error_led()]);
        self.led_controller.status_leds = leds;
        self.led_controller.enabled = true;
        Ok(String::from_str("TARS status LEDs initialized (power, status, error)"))
    }

    /// Runs the six set-up steps for the board and collects their messages.
    pub fn initialize_for_pi(&mut self, config: &RaspberryPiConfig) -> (r: Result<Vec<String>, String>)
        ensures
            r matches Ok(v) && strings_view(v@) == initialization_messages(model_pins(config.model).len()),
            final(self).gpio_controller.available_pins@ == model_pins(config.model),
            is_servo_bus(final(self).i2c_interfaces@[1]),
            final(self).spi_interfaces@[0] == sensor_spi(),
            final(self).uart_interfaces@[0] == comm_uart(),
            final(self).hardware_watchdog.enabled,
            final(self).led_controller.enabled,
    {
        let mut v: Vec<String> = Vec::new();
        if let Ok(m) = self.initialize_gpio(config) {
            push_line(&mut v, m);
        }
        if let Ok(m) = self.initialize_i2c(config) {
            push_line(&mut v, m);
        }
        if let Ok(m) = self.initialize_spi(config) {
            push_line(&mut v, m);
        }
        if let Ok(m) = self.initialize_uart(config) {
            push_line(&mut v, m);
        }
        if let Ok(m) = self.setup_watchdog(config) {
            push_line(&mut v, m);
        }
        if let Ok(m) = self.initialize_status_leds(config) {
            push_line(&mut v, m);
        }
        assert(strings_view(v@) =~= initialization_messages(model_pins(config.model).len()));
        Ok(v)
    }

    /// The GPIO health line: pins with a mode out of pins offered.
    pub fn gpio_health(&self) -> (s: String)
        ensures
            s@ == "GPIO: "@ + decimal(self.gpio_controller.pin_modes@.len()) + "/"@ + decimal(
                self.gpio_controller.available_pins@.len(),
            ) + " pins configured"@,
    {
        let configured = fmt_u64(self.gpio_controller.pin_modes.len() as u64);
        let total = fmt_u64(self.gpio_controller.available_pins.len() as u64);
        let mut s = join3("GPIO: ", configured.as_str(), "/");
        s.append(total.as_str());
        s.append(" pins configured");
        s
    }

    /// The I2C health line: buses, and devices over all buses.
    pub fn i2c_health(&self) -> (s: String)
        ensures
            s@ == "I2C: "@ + decimal(self.i2c_interfaces@.len()) + " buses, "@ + decimal(
                device_total(self.i2c_interfaces@, 256),
            ) + " devices"@,
    {
        let mut total: u64 = 0;
        let mut k: u64 = 0;
        while k < 256
            invariant
                k <= 256,
                total == device_total(self.i2c_interfaces@, k as nat),
                total <= k * 256,
            decreases 256 - k,
        {
            let key: u8 = k as u8;
            match self.i2c_interfaces.get(&key) {
                Some(bus) => {
                    let n = bus.devices.len();
                    proof {
                        lemma_byte_keys_at_most_256(bus.devices@.dom());
                    }
                    total = total + n as u64;
                },
                None => {},
            }
            k = k + 1;
        }
        let buses = fmt_u64(self.i2c_interfaces.len() as u64);
        let devices = fmt_u64(total);
        let mut s = join3("I2C: ", buses.as_str(), " buses, ");
        s.append(devices.as_str());
        s.append(" devices");
        s
    }

    /// The SPI health line: enabled buses.
    pub fn spi_health(&self) -> (s: String)
        ensures
            s@ == "SPI: "@ + decimal(active_spi(self.spi_interfaces@, 256)) + " active interfaces"@,
    {
        let mut count: u64 = 0;
        let mut k: u64 = 0;
        while k < 256
            invariant
                k <= 256,
                count == active_spi(self.spi_interfaces@, k as nat),
                count <= k,
            decreases 256 - k,
        {
            let key: u8 = k as u8;
            match self.spi_interfaces.get(&key) {
                Some(spi) => {
                    if spi.enabled {
                        count = count + 1;
                    }
                },
                None => {},
            }
            k = k + 1;
        }
        let n = fmt_u64(count);
        join3("SPI: ", n.as_str(), " active interfaces")
    }

    /// The UART health line: enabled ports.
    pub fn uart_health(&self) -> (s: String)
        ensures
            s@ == "UART: "@ + decimal(active_uart(self.uart_interfaces@, 256)) + " active ports"@,
    {
        let mut count: u64 = 0;
        let mut k: u64 = 0;
        while k < 256
            invariant
                k <= 256,
                count == active_uart(self.uart_interfaces@, k as nat),
                count <= k,
            decreases 256 - k,
        {
            let key: u8 = k as u8;
            match self.uart_interfaces.get(&key) {
                Some(uart) => {
                    if uart.enabled {
                        count = count + 1;
                    }
                },
                None => {},
            }
            k = k + 1;
        }
        let n = fmt_u64(count);
        join3("UART: ", n.as_str(), " active ports")
    }

    /// The watchdog line, given the whole seconds since the last feed
    /// (`None` where it was never fed).
    pub fn watchdog_status(&self, seconds_since_feed: Option<u64>) -> (s: String)
        ensures
            s@ == watchdog_text(self.hardware_watchdog.enabled, seconds_since_feed),
    {
        if self.hardware_watchdog.enabled {
            match seconds_since_feed {
                Some(secs) => {
                    let n = fmt_u64(secs);
                    join3("Watchdog: Active (last feed: ", n.as_str(), "s ago)")
                },
                None => String::from_str("Watchdog: Active (never fed)"),
            }
        } else {
            String::from_str("Watchdog: Disabled")
        }
    }

    /// Feeds the watchdog now; refused where it is disabled.
    pub fn feed_watchdog(&mut self) -> (r: Result<(), String>)
        ensures
            r is Ok <==> old(self).hardware_watchdog.enabled,
            r is Ok ==> final(self).hardware_watchdog.last_feed is Some,
            r is Ok ==> final(self).hardware_watchdog.enabled == old(self).hardware_watchdog.enabled
                && final(self).hardware_watchdog.timeout_seconds == old(self).hardware_watchdog.timeout_seconds
                && final(self).hardware_watchdog.feed_interval_seconds == old(self).hardware_watchdog.feed_interval_seconds,
            r matches Err(m) ==> m@ == "Watchdog is disabled"@ && final(self).hardware_watchdog == old(self).hardware_watchdog,
            changes_only(*old(self), *final(self), false, false, false, false, true, false),
    {
        if self.hardware_watchdog.enabled {
            let now = system_now();
            self.hardware_watchdog.last_feed = Some(now);
            Ok(())
        } else {
            Err(String::from_str("Watchdog is disabled"))
        }
    }

    /// Sets a status LED's colour and brightness and switches it on; an
    /// unknown LED is refused.
    pub fn set_led_status(&mut self, led_name: &str, color: LEDColor, brightness: u8) -> (r: Result<(), String>)
        ensures
            r is Ok <==> old(self).led_controller.status_leds@.contains_key(led_name@),
            r is Ok ==> final(self).led_controller.status_leds@ == old(self).led_controller.status_leds@.insert(
                led_name@,
                LEDStatus {
                    color,
                    brightness,
                    enabled: true,
                    ..old(self).led_controller.status_leds@[led_name@]
                },
            ),
            r matches Err(m) ==> m@ == "LED '"@ + led_name@ + "' not found"@
                && final(self).led_controller.status_leds@ == old(self).led_controller.status_leds@,
            final(self).led_controller.brightness == old(self).led_controller.brightness,
            final(self).led_controller.enabled == old(self).led_controller.enabled,
            final(self).led_controller.programmable_leds@ == old(self).led_controller.programmable_leds@,
            final(self).gpio_controller == old(self).gpio_controller,
            final(self).hardware_watchdog == old(self).hardware_watchdog,
    {
        let found: Option<LEDStatus> = match self.led_controller.status_leds.get(led_name) {
            Some(led) => Some(*led),
            None => None,
        };
        match found {
            Some(led) => {
                let updated = LEDStatus { color, brightness, enabled: true, ..led };
                self.led_controller.status_leds.insert(String::from_str(led_name), updated);
                Ok(())
            },
            None => Err(join3("LED '", led_name, "' not found")),
        }
    }

    /// Counts of the interfaces, key by key.
    pub fn get_interface_summary(&self) -> (m: StringHashMap<String>)
        ensures
            m@.dom() == set![
                "gpio_pins"@,
                "i2c_buses"@,
                "spi_interfaces"@,
                "uart_ports"@,
                "watchdog_enabled"@,
                "status_leds"@,
            ],
            m@["gpio_pins"@]@ == decimal(self.gpio_controller.available_pins@.len()),
            m@["i2c_buses"@]@ == decimal(self.i2c_interfaces@.len()),
            m@["spi_interfaces"@]@ == decimal(self.spi_interfaces@.len()),
            m@["uart_ports"@]@ == decimal(self.uart_interfaces@.len()),
            m@["watchdog_enabled"@]@ == (if self.hardware_watchdog.enabled {
                "true"@
            } else {
                "false"@
            }),
            m@["status_leds"@]@ == decimal(self.led_controller.status_leds@.len()),
    {
        proof {
            reveal_strlit("gpio_pins");
            reveal_strlit("i2c_buses");
            reveal_strlit("spi_interfaces");
            reveal_strlit("uart_ports");
            reveal_strlit("watchdog_enabled");
            reveal_strlit("status_leds");
            assert("gpio_pins"@.len() == 9);
            assert("i2c_buses"@.len() == 9);
            assert("gpio_pins"@[0] != "i2c_buses"@[0]);
            assert("spi_interfaces"@.len() == 14);
            assert("uart_ports"@.len() == 10);
            assert("watchdog_enabled"@.len() == 16);
            assert("status_leds"@.len() == 11);
        }
        let mut m: StringHashMap<String> = StringHashMap::new();
        m.insert(String::from_str("gpio_pins"), fmt_u64(self.gpio_controller.available_pins.len() as u64));
        m.insert(String::from_str("i2c_buses"), fmt_u64(self.i2c_interfaces.len() as u64));
        m.insert(String::from_str("spi_interfaces"), fmt_u64(self.spi_interfaces.len() as u64));
        m.insert(String::from_str("uart_ports"), fmt_u64(self.uart_interfaces.len() as u64));
        let w = if self.hardware_watchdog.enabled {
            String::from_str("true")
        } else {
            String::from_str("false")
        };
        m.insert(String::from_str("watchdog_enabled"), w);
        m.insert(String::from_str("status_leds"), fmt_u64(self.led_controller.status_leds.len() as u64));
        assert(m@.dom() =~= set![
            "gpio_pins"@,
            "i2c_buses"@,
            "spi_interfaces"@,
            "uart_ports"@,
            "watchdog_enabled"@,
            "status_leds"@,
        ]);
        m
    }
}

/// TARS's verdict on the power readings.
pub fn health_assessment(power_good: bool, under_voltage: bool) -> (s: String)
    ensures
        s@ == health_text(power_good, under_voltage),
{
    if power_good && !under_voltage {
        String::from_str(
            "TARS: Embedded systems nominal, Cooper. All hardware interfaces operational. GPIO, I2C, SPI, and UART systems functioning within parameters. Hardware watchdog active. Mission-ready status confirmed. Mission focus: 100%",
        )
    } else if under_voltage {
        String::from_str(
            "TARS: WARNING - Under-voltage condition detected. Power supply may be insufficient for optimal operation. Check power adapter specifications. Honesty setting: 90%",
        )
    } else {
        String::from_str(
            "TARS: Hardware subsystems operational with minor issues detected. Recommend system diagnostics for optimal performance. Humor setting: 75%",
        )
    }
}

/// Setting an LED and reading it back gives what was set: the LED holds the
/// new colour and brightness and is switched on, and every other LED is as
/// it was.
pub proof fn law_led_read_after_write(
    before: Map<Seq<char>, LEDStatus>,
    after: Map<Seq<char>, LEDStatus>,
    name: Seq<char>,
    other: Seq<char>,
    color: LEDColor,
    brightness: u8,
)
    requires
        before.contains_key(name),
        after == before.insert(name, LEDStatus { color, brightness, enabled: true, ..before[name] }),
    ensures
        after[name].color == color,
        after[name].brightness == brightness,
        after[name].enabled,
        after[name].blink_pattern == before[name].blink_pattern,
        other != name ==> after.contains_key(other) == before.contains_key(other) && (before.contains_key(other)
            ==> after[other] == before[other]),
{
}

} // verus!
