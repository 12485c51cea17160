//! The PCA9685 PWM board that drives the servos: its registers, how a
//! channel is programmed, and an in-memory board for tests.

use crate::robotics::servo_config::{ServoConfig, ServoId, TARSServoConfig, invalid_servo_message, servo_on_channel, is_factory_config};
use crate::text::{decimal, fmt_u64, join2};
use std::collections::HashMap;
use vstd::prelude::*;

verus! {

broadcast use {vstd::string::group_string_axioms, vstd::std_specs::hash::group_hash_axioms};

/// The MODE1 register.
pub const PCA9685_MODE1: u8 = 0x00;

/// The MODE2 register.
pub const PCA9685_MODE2: u8 = 0x01;

/// The prescaler register.
pub const PCA9685_PRESCALE: u8 = 0xFE;

/// The first register of channel 0.
pub const PCA9685_LED0_ON_L: u8 = 0x06;

/// The board's usual bus address.
pub const PCA9685_DEFAULT_ADDRESS: u8 = 0x40;

/// What can go wrong with the board.
#[derive(Debug)]
pub enum PCA9685Error {
    I2CError(String),
    InvalidServo(u8),
    InvalidPWM(u16),
    HardwareUnavailable(String),
}

/// The message of an error, as its `Display` writes it.
pub open spec fn error_text(e: PCA9685Error) -> Seq<char> {
    match e {
        PCA9685Error::I2CError(m) => "I2C communication error: "@ + m@,
        PCA9685Error::InvalidServo(c) => "Invalid servo ID: "@ + decimal(c as nat),
        PCA9685Error::InvalidPWM(v) => "PWM value out of range: "@ + decimal(v as nat),
        PCA9685Error::HardwareUnavailable(m) => "Hardware not available: "@ + m@,
    }
}

impl PCA9685Error {
    /// The message of the error.
    pub fn message(&self) -> (r: String)
        ensures
            r@ == error_text(*self),
    {
        match self {
            PCA9685Error::I2CError(m) => join2("I2C communication error: ", m.as_str()),
            PCA9685Error::InvalidServo(c) => {
                let t = fmt_u64(*c as u64);
                join2("Invalid servo ID: ", t.as_str())
            },
            PCA9685Error::InvalidPWM(v) => {
                let t = fmt_u64(*v as u64);
                join2("PWM value out of range: ", t.as_str())
            },
            PCA9685Error::HardwareUnavailable(m) => join2("Hardware not available: ", m.as_str()),
        }
    }
}

/// One exchange on the I2C bus: a byte written to a register, a byte read
/// from one, or a refusal, with the bus's error, of an access to one.
pub enum BusOp {
    Write(u8, u8),
    Read(u8, u8),
    Refused(u8, String),
}

/// The register an exchange was about.
pub open spec fn op_register(op: BusOp) -> u8 {
    match op {
        BusOp::Write(r, _) => r,
        BusOp::Read(r, _) => r,
        BusOp::Refused(r, _) => r,
    }
}

/// The exchanges a block write of `data` from `register` on amounts to: one
/// byte written per register, at consecutive registers.
pub open spec fn block_ops(register: u8, data: Seq<u8>) -> Seq<BusOp> {
    Seq::new(data.len(), |k: int| BusOp::Write((register + k) as u8, data[k]))
}

/// Byte-wise access to a device on an I2C bus. `transcript` is every
/// exchange the device has had, in order: an access the bus takes adds
/// what was written or read, one it refuses adds the refusal with the
/// bus's error. `write_bytes` writes consecutive registers from the one
/// given. (The default `transcript` lets a device kept outside verified
/// code compile; verified code never relies on it.)
pub trait I2CInterface {
    open spec fn transcript(&self) -> Seq<BusOp> {
        Seq::empty()
    }

    fn write_byte(&mut self, register: u8, value: u8) -> (r: Result<(), String>)
        ensures
            r is Ok ==> final(self).transcript() == old(self).transcript().push(BusOp::Write(register, value)),
            r matches Err(e) ==> final(self).transcript() == old(self).transcript().push(BusOp::Refused(register, e)),
    ;

    fn read_byte(&mut self, register: u8) -> (r: Result<u8, String>)
        ensures
            r matches Ok(v) ==> final(self).transcript() == old(self).transcript().push(BusOp::Read(register, v)),
            r matches Err(e) ==> final(self).transcript() == old(self).transcript().push(BusOp::Refused(register, e)),
    ;

    fn write_bytes(&mut self, register: u8, data: &[u8]) -> (r: Result<(), String>)
        requires
            register + data@.len() <= 256,
        ensures
            r is Ok ==> final(self).transcript() == old(self).transcript() + block_ops(register, data@),
            r matches Err(e) ==> final(self).transcript() == old(self).transcript().push(BusOp::Refused(register, e)),
    ;
}

/// An in-memory board: every register reads back what was last written to
/// it, and 0 before.
pub struct MockI2C {
    pub registers: HashMap<u8, u8>,
    pub log: Ghost<Seq<BusOp>>,
}

/// The value a register reads.
pub open spec fn register_value(m: Map<u8, u8>, r: u8) -> u8 {
    if m.contains_key(r) {
        m[r]
    } else {
        0
    }
}

/// The registers after writing `data` from `register` on.
pub open spec fn after_block_write(m: Map<u8, u8>, register: u8, data: Seq<u8>) -> Map<u8, u8>
    decreases data.len(),
{
    if data.len() == 0 {
        m
    } else {
        after_block_write(m, register, data.drop_last()).insert((register + data.len() - 1) as u8, data.last())
    }
}

impl MockI2C {
    /// A board with every register clear.
    pub fn new() -> (m: Self)
        ensures
            m.registers@ == Map::<u8, u8>::empty(),
            m.transcript() == Seq::<BusOp>::empty(),
    {
        MockI2C { registers: HashMap::new(), log: Ghost(Seq::empty()) }
    }
}

impl I2CInterface for MockI2C {
    open spec fn transcript(&self) -> Seq<BusOp> {
        self.log@
    }

    fn write_byte(&mut self, register: u8, value: u8) -> (r: Result<(), String>)
        ensures
            final(self).registers@ == old(self).registers@.insert(register, value),
            r is Ok,
    {
        self.registers.insert(register, value);
        self.log = Ghost(self.log@.push(BusOp::Write(register, value)));
        Ok(())
    }

    fn read_byte(&mut self, register: u8) -> (r: Result<u8, String>)
        ensures
            final(self).registers@ == old(self).registers@,
            r == Ok::<u8, String>(register_value(old(self).registers@, register)),
    {
        let v: u8 = match self.registers.get(&register) {
            Some(v) => *v,
            None => 0,
        };
        self.log = Ghost(self.log@.push(BusOp::Read(register, v)));
        Ok(v)
    }

    fn write_bytes(&mut self, register: u8, data: &[u8]) -> (r: Result<(), String>)
        ensures
            final(self).registers@ == after_block_write(old(self).registers@, register, data@),
            r is Ok,
    {
        let mut i: usize = 0;
        while i < data.len()
            invariant
                i <= data@.len(),
                register + data@.len() <= 256,
                self.registers@ == after_block_write(old(self).registers@, register, data@.take(i as int)),
                self.log == old(self).log,
            decreases data@.len() - i,
        {
            assert(data@.take(i as int + 1).drop_last() =~= data@.take(i as int));
            let r = register + (i as u8);
            self.registers.insert(r, data[i]);
            i = i + 1;
        }
        assert(data@.take(data@.len() as int) =~= data@);
        self.log = Ghost(self.log@ + block_ops(register, data@));
        Ok(())
    }
}

/// The exchanges of the reset step: MODE1 = 0x80.
pub open spec fn reset_ops() -> Seq<BusOp> {
    seq![BusOp::Write(PCA9685_MODE1, 0x80u8)]
}

/// The exchanges of programming the prescaler `p`, where MODE1 reads `m`:
/// read MODE1, write it back with restart cleared and sleep set, write the
/// prescaler, restore MODE1.
pub open spec fn prescaler_ops(m: u8, p: u8) -> Seq<BusOp> {
    seq![
        BusOp::Read(PCA9685_MODE1, m),
        BusOp::Write(PCA9685_MODE1, (m & 0x7Fu8) | 0x10u8),
        BusOp::Write(PCA9685_PRESCALE, p),
        BusOp::Write(PCA9685_MODE1, m),
    ]
}

/// The exchanges of the last initialization step, after MODE1 read `m`:
/// MODE1 with auto-increment, MODE1 = 0xA0, MODE2 = 0x04 (totem pole).
pub open spec fn finish_ops(m: u8) -> Seq<BusOp> {
    seq![
        BusOp::Write(PCA9685_MODE1, m | 0xA0u8),
        BusOp::Write(PCA9685_MODE1, 0xA0u8),
        BusOp::Write(PCA9685_MODE2, 0x04u8),
    ]
}

/// A run of `ops` that went through the first `k` and was refused at the
/// next one with the bus's error `e`.
pub open spec fn stopped_at(ops: Seq<BusOp>, k: int, e: String) -> Seq<BusOp> {
    ops.take(k).push(BusOp::Refused(op_register(ops[k]), e))
}

/// The registers after the writes among `ops`, starting from `m`.
pub open spec fn replay(m: Map<u8, u8>, ops: Seq<BusOp>) -> Map<u8, u8>
    decreases ops.len(),
{
    if ops.len() == 0 {
        m
    } else {
        let before = replay(m, ops.drop_last());
        match ops.last() {
            BusOp::Write(r, v) => before.insert(r, v),
            _ => before,
        }
    }
}

/// The register of channel `channel` and the four bytes that set its pulse:
/// the on and off counts, low byte first.
pub open spec fn pwm_frame(channel: u8, on: u16, off: u16) -> (u8, Seq<u8>) {
    (
        (6 + 4 * channel) as u8,
        seq![(on % 256) as u8, (on / 256) as u8, (off % 256) as u8, (off / 256) as u8],
    )
}

/// The PWM board and the servo table it drives. The prescaler is the one
/// for the wanted PWM frequency.
pub struct PCA9685Controller<I: I2CInterface> {
    pub i2c: I,
    pub servo_config: TARSServoConfig,
    pub prescale: u8,
    pub initialized: bool,
}

impl<I: I2CInterface> PCA9685Controller<I> {
    /// A controller over a bus device, not yet initialized, with the
    /// factory servo table.
    pub fn new(i2c: I, prescale: u8) -> (c: Self)
        ensures
            c.i2c == i2c,
            !c.initialized,
            c.prescale == prescale,
            c.servo_config.configs@.len() == 9,
            forall|i: int|
                0 <= i < 9 ==> servo_on_channel(i as u8) == Some(#[trigger] c.servo_config.configs@[i].0)
                    && is_factory_config(c.servo_config.configs@[i].0, c.servo_config.configs@[i].1),
    {
        PCA9685Controller { i2c, servo_config: TARSServoConfig::new(), prescale, initialized: false }
    }

    /// Sets a channel's pulse. Refused for a channel above 15 or a count
    /// above 4095, or before initialization, with nothing sent to the bus;
    /// otherwise the four bytes of `pwm_frame` are written from the
    /// channel's register, and a refusal by the bus is an I2C error with
    /// the bus's message.
    pub fn set_pwm(&mut self, channel: u8, on: u16, off: u16) -> (r: Result<(), PCA9685Error>)
        ensures
            channel > 15 ==> (r matches Err(PCA9685Error::InvalidServo(c)) && c == channel),
            channel <= 15 && (on > 4095 || off > 4095) ==> (r matches Err(PCA9685Error::InvalidPWM(v)) && v == (if on > 4095 { on } else { off })),
            channel <= 15 && on <= 4095 && off <= 4095 && !old(self).initialized ==> (r matches Err(PCA9685Error::HardwareUnavailable(m)) && m@ == "Controller not initialized"@),
            (channel > 15 || on > 4095 || off > 4095 || !old(self).initialized) ==> final(self).i2c == old(self).i2c,
            channel <= 15 && on <= 4095 && off <= 4095 && old(self).initialized ==> {
                let (register, data) = pwm_frame(channel, on, off);
                &&& r is Ok ==> final(self).i2c.transcript() == old(self).i2c.transcript() + block_ops(register, data)
                &&& r is Err ==> (r matches Err(PCA9685Error::I2CError(e))
                    && final(self).i2c.transcript() == old(self).i2c.transcript().push(BusOp::Refused(register, e)))
            },
            final(self).initialized == old(self).initialized,
            final(self).prescale == old(self).prescale,
            final(self).servo_config == old(self).servo_config,
    {
        if channel > 15 {
            return Err(PCA9685Error::InvalidServo(channel));
        }
        if on > 4095 || off > 4095 {
            return Err(PCA9685Error::InvalidPWM(if on > 4095 { on } else { off }));
        }
        if !self.initialized {
            return Err(PCA9685Error::HardwareUnavailable(String::from_str("Controller not initialized")));
        }
        let (register, data) = pwm_bytes(channel, on, off);
        match self.i2c.write_bytes(register, data.as_slice()) {
            Ok(()) => Ok(()),
            Err(e) => Err(PCA9685Error::I2CError(e)),
        }
    }

    /// The first step of initialization: reset the board (MODE1 = 0x80).
    /// Nothing is sent where the board is initialized already.
    pub fn reset_device(&mut self) -> (r: Result<(), PCA9685Error>)
        ensures
            final(self).initialized == old(self).initialized,
            final(self).prescale == old(self).prescale,
            final(self).servo_config == old(self).servo_config,
            old(self).initialized ==> r is Ok && final(self).i2c == old(self).i2c,
            !old(self).initialized && r is Ok ==> final(self).i2c.transcript() == old(self).i2c.transcript() + reset_ops(),
            !old(self).initialized && r is Err ==> (r matches Err(PCA9685Error::I2CError(e))
                && final(self).i2c.transcript() == old(self).i2c.transcript() + stopped_at(reset_ops(), 0, e)),
    {
        if self.initialized {
            return Ok(());
        }
        let ghost t0 = self.i2c.transcript();
        match self.i2c.write_byte(PCA9685_MODE1, 0x80) {
            Ok(()) => {
                assert(self.i2c.transcript() =~= t0 + reset_ops());
                Ok(())
            },
            Err(e) => {
                assert(self.i2c.transcript() =~= t0 + stopped_at(reset_ops(), 0, e));
                Err(PCA9685Error::I2CError(e))
            },
        }
    }

    /// The second step: read MODE1, put the board to sleep, program the
    /// prescaler and restore MODE1; gives the mode read. A refusal by the
    /// bus stops the step there and is an I2C error with the bus's message.
    pub fn program_prescaler(&mut self) -> (r: Result<u8, PCA9685Error>)
        ensures
            final(self).initialized == old(self).initialized,
            final(self).prescale == old(self).prescale,
            final(self).servo_config == old(self).servo_config,
            r matches Ok(m) ==> final(self).i2c.transcript() == old(self).i2c.transcript() + prescaler_ops(m, old(self).prescale),
            r is Err ==> (r matches Err(PCA9685Error::I2CError(e)) && {
                let t = final(self).i2c.transcript();
                let t0 = old(self).i2c.transcript();
                let p = old(self).prescale;
                ||| t == t0.push(BusOp::Refused(PCA9685_MODE1, e))
                ||| exists|m: u8| t == t0 + #[trigger] stopped_at(prescaler_ops(m, p), 1, e)
                ||| exists|m: u8| t == t0 + #[trigger] stopped_at(prescaler_ops(m, p), 2, e)
                ||| exists|m: u8| t == t0 + #[trigger] stopped_at(prescaler_ops(m, p), 3, e)
            }),
    {
        let ghost t0 = self.i2c.transcript();
        let p = self.prescale;
        let old_mode = match self.i2c.read_byte(PCA9685_MODE1) {
            Ok(v) => v,
            Err(e) => {
                assert(self.i2c.transcript() =~= t0.push(BusOp::Refused(PCA9685_MODE1, e)));
                return Err(PCA9685Error::I2CError(e));
            },
        };
        let sleep_mode = (old_mode & 0x7F) | 0x10;
        if let Err(e) = self.i2c.write_byte(PCA9685_MODE1, sleep_mode) {
            assert(self.i2c.transcript() =~= t0 + stopped_at(prescaler_ops(old_mode, p), 1, e));
            return Err(PCA9685Error::I2CError(e));
        }
        if let Err(e) = self.i2c.write_byte(PCA9685_PRESCALE, p) {
            assert(self.i2c.transcript() =~= t0 + stopped_at(prescaler_ops(old_mode, p), 2, e));
            return Err(PCA9685Error::I2CError(e));
        }
        if let Err(e) = self.i2c.write_byte(PCA9685_MODE1, old_mode) {
            assert(self.i2c.transcript() =~= t0 + stopped_at(prescaler_ops(old_mode, p), 3, e));
            return Err(PCA9685Error::I2CError(e));
        }
        assert(self.i2c.transcript() =~= t0 + prescaler_ops(old_mode, p));
        Ok(old_mode)
    }

    /// The last step: turn on auto-increment, set MODE1 and MODE2, and mark
    /// the board initialized. A refusal by the bus stops the step there and
    /// is an I2C error with the bus's message.
    pub fn finish_initialization(&mut self, old_mode: u8) -> (r: Result<(), PCA9685Error>)
        ensures
            final(self).prescale == old(self).prescale,
            final(self).servo_config == old(self).servo_config,
            r is Ok ==> final(self).initialized,
            r is Ok ==> final(self).i2c.transcript() == old(self).i2c.transcript() + finish_ops(old_mode),
            r is Err ==> final(self).initialized == old(self).initialized,
            r is Err ==> (r matches Err(PCA9685Error::I2CError(e)) && {
                let ops = finish_ops(old_mode);
                let t = final(self).i2c.transcript();
                let t0 = old(self).i2c.transcript();
                ||| t == t0 + stopped_at(ops, 0, e)
                ||| t == t0 + stopped_at(ops, 1, e)
                ||| t == t0 + stopped_at(ops, 2, e)
            }),
    {
        let ghost t0 = self.i2c.transcript();
        if let Err(e) = self.i2c.write_byte(PCA9685_MODE1, old_mode | 0xA0) {
            assert(self.i2c.transcript() =~= t0 + stopped_at(finish_ops(old_mode), 0, e));
            return Err(PCA9685Error::I2CError(e));
        }
        if let Err(e) = self.i2c.write_byte(PCA9685_MODE1, 0xA0) {
            assert(self.i2c.transcript() =~= t0 + stopped_at(finish_ops(old_mode), 1, e));
            return Err(PCA9685Error::I2CError(e));
        }
        if let Err(e) = self.i2c.write_byte(PCA9685_MODE2, 0x04) {
            assert(self.i2c.transcript() =~= t0 + stopped_at(finish_ops(old_mode), 2, e));
            return Err(PCA9685Error::I2CError(e));
        }
        self.initialized = true;
        assert(self.i2c.transcript() =~= t0 + finish_ops(old_mode));
        Ok(())
    }

    /// The servo behind an id and its configuration; an id that names no
    /// servo is refused with "Invalid servo ID: Invalid servo ID: <id>".
    pub fn resolve_servo(&self, id: u8) -> (r: Result<(ServoId, &ServoConfig), String>)
        requires
            self.servo_config.configs@.len() == 9,
            forall|i: int|
                0 <= i < 9 ==> servo_on_channel(i as u8) == Some(#[trigger] self.servo_config.configs@[i].0)
                    && is_factory_config(self.servo_config.configs@[i].0, self.servo_config.configs@[i].1),
        ensures
            id > 8 ==> (r matches Err(m) && m@ == "Invalid servo ID: "@ + invalid_servo_message(id)),
            id <= 8 ==> (r matches Ok((s, c)) && servo_on_channel(id) == Some(s) && is_factory_config(s, *c)),
    {
        match ServoId::from_channel(id) {
            Err(e) => Err(join2("Invalid servo ID: ", e.as_str())),
            Ok(s) => {
                proof {
                    crate::robotics::servo_config::law_factory_table_covers_every_servo(self.servo_config, s);
                }
                match self.servo_config.get_config(s) {
                    Some(c) => Ok((s, c)),
                    None => Err(String::from_str("No configuration found for servo")),
                }
            },
        }
    }
}

/// The register and bytes that set a channel's pulse.
pub fn pwm_bytes(channel: u8, on: u16, off: u16) -> (r: (u8, Vec<u8>))
    requires
        channel <= 15,
    ensures
        (r.0, r.1@) == pwm_frame(channel, on, off),
        r.0 + r.1@.len() <= 256,
{
    let register = PCA9685_LED0_ON_L + 4 * channel;
    let mut data: Vec<u8> = Vec::new();
    data.push((on % 256) as u8);
    data.push((on / 256) as u8);
    data.push((off % 256) as u8);
    data.push((off / 256) as u8);
    assert(data@ =~= pwm_frame(channel, on, off).1);
    (register, data)
}

/// On the in-memory board, a register reads back the last value written to
/// it, and the others are untouched.
pub proof fn law_register_read_after_write(m: Map<u8, u8>, register: u8, value: u8, other: u8)
    ensures
        register_value(m.insert(register, value), register) == value,
        other != register ==> register_value(m.insert(register, value), other) == register_value(m, other),
{
}

/// Programming a channel writes exactly its four registers: the on and off
/// counts can be read back from them.
pub proof fn law_pwm_frame_round_trip(channel: u8, on: u16, off: u16)
    requires
        channel <= 15,
    ensures
        ({
            let (reg, bytes) = pwm_frame(channel, on, off);
            &&& reg == 6 + 4 * channel
            &&& bytes[0] + 256 * bytes[1] == on
            &&& bytes[2] + 256 * bytes[3] == off
        }),
{
}

/// After a full initialization (reset, prescaler, last step), whatever the
/// registers held and whatever MODE1 read, the board's registers hold
/// MODE1 = 0xA0 (auto-increment), MODE2 = 0x04 (totem pole) and the
/// prescaler.
pub proof fn law_initialization_sets_registers(m0: Map<u8, u8>, mode: u8, prescale: u8)
    ensures
        ({
            let regs = replay(m0, reset_ops() + prescaler_ops(mode, prescale) + finish_ops(mode));
            &&& regs[PCA9685_MODE1] == 0xA0u8
            &&& regs[PCA9685_MODE2] == 0x04u8
            &&& regs[PCA9685_PRESCALE] == prescale
        }),
{
    let ops = reset_ops() + prescaler_ops(mode, prescale) + finish_ops(mode);
    assert(ops =~= seq![
        BusOp::Write(PCA9685_MODE1, 0x80u8),
        BusOp::Read(PCA9685_MODE1, mode),
        BusOp::Write(PCA9685_MODE1, (mode & 0x7Fu8) | 0x10u8),
        BusOp::Write(PCA9685_PRESCALE, prescale),
        BusOp::Write(PCA9685_MODE1, mode),
        BusOp::Write(PCA9685_MODE1, mode | 0xA0u8),
        BusOp::Write(PCA9685_MODE1, 0xA0u8),
        BusOp::Write(PCA9685_MODE2, 0x04u8),
    ]);
    reveal_with_fuel(replay, 9);
    assert(ops.drop_last() =~= ops.take(7));
    assert(ops.take(7).drop_last() =~= ops.take(6));
    assert(ops.take(6).drop_last() =~= ops.take(5));
    assert(ops.take(5).drop_last() =~= ops.take(4));
    assert(ops.take(4).drop_last() =~= ops.take(3));
}

/// Setting a channel's pulse leaves the on and off counts in its four
/// registers, low byte first, and no other register changes.
pub proof fn law_set_pwm_sets_channel_registers(m0: Map<u8, u8>, channel: u8, on: u16, off: u16, other: u8)
    requires
        channel <= 15,
    ensures
        ({
            let (reg, bytes) = pwm_frame(channel, on, off);
            let regs = replay(m0, block_ops(reg, bytes));
            &&& regs[reg] + 256 * regs[(reg + 1) as u8] == on
            &&& regs[(reg + 2) as u8] + 256 * regs[(reg + 3) as u8] == off
            &&& (other < reg || other > reg + 3) ==> register_value(regs, other) == register_value(m0, other)
        }),
{
    let (reg, bytes) = pwm_frame(channel, on, off);
    let ops = block_ops(reg, bytes);
    assert(ops =~= seq![
        BusOp::Write(reg, bytes[0]),
        BusOp::Write((reg + 1) as u8, bytes[1]),
        BusOp::Write((reg + 2) as u8, bytes[2]),
        BusOp::Write((reg + 3) as u8, bytes[3]),
    ]);
    reveal_with_fuel(replay, 5);
    assert(ops.drop_last() =~= ops.take(3));
    assert(ops.take(3).drop_last() =~= ops.take(2));
    assert(ops.take(2).drop_last() =~= ops.take(1));
    assert(ops.take(1).drop_last() =~= ops.take(0));
}

} // verus!
