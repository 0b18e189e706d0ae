//! Driver core for a die-temperature sensor: the command/subscribe dispatch,
//! the cached reading, the single pending upcall, and the periodic sequencer
//! that polls the device over the bus and publishes each completed reading.

use vstd::prelude::*;

use crate::callback::{Callback, CallbackModel, RequestModel, SchedulerGateway, request_of};
use crate::hil::{Bus, BusWrite, Timer};

verus! {

/// Status returned on success.
pub const SUCCESS: isize = 0;

/// Status returned for an unrecognized command or event identifier.
pub const ERR_UNSUPPORTED: isize = -1;

/// Status returned when a registration arrives before the sensor is enabled.
pub const ERR_NOT_ENABLED: isize = -2;

/// Bus address of the sensor.
pub const I2C_ADDRESS: u8 = 0x40;

/// Register holding the raw sensor voltage.
pub const REG_SENSOR_VOLTAGE: u8 = 0x00;

/// Register holding the die temperature.
pub const REG_LOCAL_TEMPERATURE: u8 = 0x01;

/// Configuration register.
pub const REG_CONFIGURATION: u8 = 0x02;

/// Register holding the manufacturer identifier (unused by the sequence,
/// kept for protocol completeness).
pub const REG_MANUFACTURER_ID: u8 = 0xFE;

/// Register holding the device identifier (unused by the sequence, kept for
/// protocol completeness).
pub const REG_DEVICE_ID: u8 = 0xFF;

/// Timer interval, in timer units, between two polls of the device.
pub const SAMPLE_INTERVAL: u32 = 32768;

/// The driver state that the contracts speak of: whether the sequencer is
/// enabled, the most recent completed reading, and the at-most-one upcall
/// awaiting delivery.
pub ghost struct DriverState {
    pub enabled: bool,
    pub cache: Option<i16>,
    pub slot: Option<CallbackModel>,
}

/// The state of a freshly constructed driver: disabled, no reading yet, no
/// registration.
pub open spec fn initial_state() -> DriverState {
    DriverState { enabled: false, cache: None, slot: None }
}

/// Whether a status response signals that a measurement is available: the
/// high-order bit of the status low byte is set.
pub open spec fn ready(status_lo: u8) -> bool {
    status_lo & 0x80 == 0x80
}

/// The unsigned sixteen-bit word formed from a big-endian register pair.
pub open spec fn word_of(hi: u8, lo: u8) -> u16 {
    ((hi as u16) << 8) | (lo as u16)
}

/// The signed fixed-point reading (1/32 engineering unit) derived from a raw
/// register word: reinterpreted as signed, then arithmetically shifted right
/// by two to discard the two low-order bits.
pub open spec fn reading_of(word: u16) -> i16 {
    (word as i16) >> 2
}

/// The configuration write that enabling issues: the configuration register,
/// then the two big-endian bytes of the enable word.
pub open spec fn config_write() -> BusWrite {
    BusWrite { addr: I2C_ADDRESS, data: seq![REG_CONFIGURATION, 0x70u8, 0x00u8] }
}

/// The one-byte write that points the device at register `reg` before a read.
pub open spec fn register_select(reg: u8) -> BusWrite {
    BusWrite { addr: I2C_ADDRESS, data: seq![reg] }
}

/// Outcome of a `command` call on the driver state.
pub ghost struct CommandOutcome {
    pub state: DriverState,
    pub result: isize,
}

/// Outcome of a `subscribe` call on the driver state: the new state, the
/// returned status, and the requests submitted during the call.
pub ghost struct SubscribeOutcome {
    pub state: DriverState,
    pub result: isize,
    pub submitted: Seq<RequestModel>,
}

/// Outcome of one timer tick on the driver state: the new state and the
/// requests submitted during the tick.
pub ghost struct TickOutcome {
    pub state: DriverState,
    pub submitted: Seq<RequestModel>,
}

/// What `command` does: identifier 0 enables the sequencer and reports
/// success; any other identifier is unsupported and changes nothing.
pub open spec fn spec_command(s: DriverState, cmd_num: usize) -> CommandOutcome {
    if cmd_num == 0 {
        CommandOutcome { state: DriverState { enabled: true, ..s }, result: SUCCESS }
    } else {
        CommandOutcome { state: s, result: ERR_UNSUPPORTED }
    }
}

/// What `subscribe` does: only event 0 is supported; registration is refused
/// while the sequencer is disabled; a cached reading is delivered at once
/// with the pending slot left untouched; otherwise the upcall is stored,
/// silently replacing any earlier occupant.
pub open spec fn spec_subscribe(s: DriverState, subscribe_num: usize, cb: CallbackModel) -> SubscribeOutcome {
    if subscribe_num != 0 {
        SubscribeOutcome { state: s, result: ERR_UNSUPPORTED, submitted: Seq::empty() }
    } else if !s.enabled {
        SubscribeOutcome { state: s, result: ERR_NOT_ENABLED, submitted: Seq::empty() }
    } else {
        match s.cache {
            Some(temp) => SubscribeOutcome {
                state: s,
                result: SUCCESS,
                submitted: seq![request_of(cb, temp as usize, 0, 0)],
            },
            None => SubscribeOutcome {
                state: DriverState { slot: Some(cb), ..s },
                result: SUCCESS,
                submitted: Seq::empty(),
            },
        }
    }
}

/// What one tick does, given the status low byte and the big-endian
/// temperature register pair the bus returns: an unset ready bit leaves
/// everything unchanged; otherwise the derived reading overwrites the cache
/// and the pending upcall, if any, is consumed and submitted carrying the
/// reading, with the remaining argument slots zero.
pub open spec fn spec_tick(s: DriverState, status_lo: u8, temp_hi: u8, temp_lo: u8) -> TickOutcome {
    if !ready(status_lo) {
        TickOutcome { state: s, submitted: Seq::empty() }
    } else {
        let reading = reading_of(word_of(temp_hi, temp_lo));
        TickOutcome {
            state: DriverState { cache: Some(reading), slot: None, ..s },
            submitted: match s.slot {
                Some(cb) => seq![request_of(cb, reading as usize, 0, 0)],
                None => Seq::empty(),
            },
        }
    }
}

/// The temperature-sensor driver: owns the bus and the timer it was handed
/// at construction, the cached reading, and the single pending upcall.
pub struct TMP006<I: Bus, T: Timer> {
    i2c: I,
    timer: T,
    last_temp: Option<i16>,
    callback: Option<Callback>,
    enabled: bool,
}

impl<I: Bus, T: Timer> TMP006<I, T> {
    /// The driver state the contracts speak of.
    pub closed spec fn state(&self) -> DriverState {
        DriverState {
            enabled: self.enabled,
            cache: self.last_temp,
            slot: match self.callback {
                Some(cb) => Some(cb.view()),
                None => None,
            },
        }
    }

    /// The responses the owned bus will return next.
    pub closed spec fn bus_upcoming(&self) -> Seq<(u8, u8)> {
        self.i2c.upcoming()
    }

    /// Whether the owned bus is powered.
    pub closed spec fn bus_powered(&self) -> bool {
        self.i2c.powered()
    }

    /// The writes issued on the owned bus so far.
    pub closed spec fn bus_writes(&self) -> Seq<BusWrite> {
        self.i2c.writes()
    }

    /// The interval the owned timer is armed with.
    pub closed spec fn timer_period(&self) -> Option<u32> {
        self.timer.period()
    }

    pub fn new(i2c: I, timer: T) -> (r: TMP006<I, T>)
        ensures
            r.state() == initial_state(),
            r.bus_upcoming() == i2c.upcoming(),
            r.bus_powered() == i2c.powered(),
            r.bus_writes() == i2c.writes(),
            r.timer_period() == timer.period(),
    {
        TMP006 { i2c: i2c, timer: timer, last_temp: None, callback: None, enabled: false }
    }

    /// Whether the sequencer has been enabled.
    pub fn is_enabled(&self) -> (r: bool)
        ensures
            r == self.state().enabled,
    {
        self.enabled
    }

    /// The most recent completed reading, if any.
    pub fn last_reading(&self) -> (r: Option<i16>)
        ensures
            r == self.state().cache,
    {
        self.last_temp
    }

    /// Whether an upcall is registered and awaiting delivery.
    pub fn has_pending(&self) -> (r: bool)
        ensures
            r == (self.state().slot is Some),
    {
        self.callback.is_some()
    }

    /// The owned bus, for inspection.
    pub fn bus_ref(&self) -> (r: &I)
        ensures
            r.upcoming() == self.bus_upcoming(),
            r.powered() == self.bus_powered(),
            r.writes() == self.bus_writes(),
    {
        &self.i2c
    }

    /// The owned timer, for inspection.
    pub fn timer_ref(&self) -> (r: &T)
        ensures
            r.period() == self.timer_period(),
    {
        &self.timer
    }

    /// Command dispatch. Identifier 0 powers the bus on, programs the
    /// configuration register, arms the timer at the fixed interval and
    /// enables the sequencer; any other identifier is refused with no side
    /// effect.
    pub fn command(&mut self, cmd_num: usize, _arg: usize) -> (r: isize)
        ensures
            ({
                let o = spec_command(old(self).state(), cmd_num);
                &&& final(self).state() == o.state
                &&& r == o.result
            }),
            final(self).bus_upcoming() == old(self).bus_upcoming(),
            cmd_num == 0 ==> final(self).bus_powered()
                && final(self).bus_writes() == old(self).bus_writes().push(config_write())
                && final(self).timer_period() == Some(SAMPLE_INTERVAL),
            cmd_num != 0 ==> *final(self) == *old(self),
    {
        match cmd_num {
            0 => {
                self.i2c.enable();

                // Enable the sensor: 0x7 in the mode field of the
                // configuration word, written big-endian after the register
                // number.
                let config: u16 = 0x7 << 12;
                let hi: u8 = ((config & 0xFF00) >> 8) as u8;
                let lo: u8 = (config & 0x00FF) as u8;
                proof {
                    assert((((0x7u16 << 12) & 0xFF00) >> 8) as u8 == 0x70u8) by (bit_vector);
                    assert(((0x7u16 << 12) & 0x00FF) as u8 == 0x00u8) by (bit_vector);
                }
                let mut buf: Vec<u8> = Vec::new();
                buf.push(REG_CONFIGURATION);
                buf.push(hi);
                buf.push(lo);
                proof {
                    assert(buf@ =~= config_write().data);
                }
                self.i2c.write(I2C_ADDRESS, buf.as_slice());

                self.timer.repeat(SAMPLE_INTERVAL);

                self.enabled = true;

                SUCCESS
            },
            _ => ERR_UNSUPPORTED,
        }
    }

    /// Subscribe dispatch for the reading-ready event (event 0). Refused
    /// while disabled; a cached reading is delivered at once, leaving the
    /// pending slot untouched; otherwise the upcall is stored, silently
    /// discarding any earlier registration.
    pub fn subscribe<S: SchedulerGateway>(
        &mut self,
        subscribe_num: usize,
        callback: Callback,
        sched: &mut S,
    ) -> (r: isize)
        ensures
            ({
                let o = spec_subscribe(old(self).state(), subscribe_num, callback.view());
                &&& final(self).state() == o.state
                &&& r == o.result
                &&& final(sched).log() == old(sched).log() + o.submitted
            }),
            final(self).bus_upcoming() == old(self).bus_upcoming(),
            final(self).bus_powered() == old(self).bus_powered(),
            final(self).bus_writes() == old(self).bus_writes(),
            final(self).timer_period() == old(self).timer_period(),
    {
        match subscribe_num {
            0 => {
                if !self.enabled {
                    proof {
                        assert(old(sched).log() + Seq::<RequestModel>::empty() =~= old(sched).log());
                    }
                    return ERR_NOT_ENABLED;
                }
                match self.last_temp {
                    Some(temp) => {
                        let mut cb = callback;
                        cb.schedule(temp as usize, 0, 0, sched);
                        proof {
                            assert(sched.log() =~= old(sched).log() + seq![
                                request_of(cb.view(), temp as usize, 0, 0),
                            ]);
                        }
                        SUCCESS
                    },
                    None => {
                        self.callback = Some(callback);
                        proof {
                            assert(old(sched).log() + Seq::<RequestModel>::empty() =~= old(sched).log());
                        }
                        SUCCESS
                    },
                }
            },
            _ => {
                proof {
                    assert(old(sched).log() + Seq::<RequestModel>::empty() =~= old(sched).log());
                }
                ERR_UNSUPPORTED
            },
        }
    }

    /// One timer tick. Reads the device status; an unset ready bit ends the
    /// tick with no further bus activity. Otherwise the sensor-voltage
    /// register is read (its value reserved, not surfaced), then the
    /// temperature register; the derived reading overwrites the cache, and a
    /// pending upcall, if any, is consumed and submitted carrying it. The
    /// precondition states that the device answers every read of the tick.
    pub fn fired<S: SchedulerGateway>(&mut self, _now: u32, sched: &mut S)
        requires
            old(self).bus_upcoming().len() >= 3,
        ensures
            ({
                let up = old(self).bus_upcoming();
                let o = spec_tick(old(self).state(), up[0].1, up[2].0, up[2].1);
                &&& final(self).state() == o.state
                &&& final(sched).log() == old(sched).log() + o.submitted
            }),
            final(self).bus_powered() == old(self).bus_powered(),
            final(self).timer_period() == old(self).timer_period(),
            ready(old(self).bus_upcoming()[0].1) ==> final(self).bus_upcoming()
                == old(self).bus_upcoming().skip(3)
                && final(self).bus_writes() == old(self).bus_writes()
                    + seq![register_select(REG_SENSOR_VOLTAGE), register_select(REG_LOCAL_TEMPERATURE)],
            !ready(old(self).bus_upcoming()[0].1) ==> final(self).bus_upcoming()
                == old(self).bus_upcoming().skip(1)
                && final(self).bus_writes() == old(self).bus_writes(),
    {
        // Read the device status; if no measurement is ready yet, wait for
        // the next tick.
        let status = self.i2c.read2(I2C_ADDRESS);
        if status.1 & 0x80 != 0x80 {
            proof {
                assert(old(sched).log() + Seq::<RequestModel>::empty() =~= old(sched).log());
            }
            return;
        }

        // Point the device at the sensor-voltage register and read it; the
        // value is reserved and not surfaced.
        let mut sel: Vec<u8> = Vec::new();
        sel.push(REG_SENSOR_VOLTAGE);
        proof {
            assert(sel@ =~= register_select(REG_SENSOR_VOLTAGE).data);
        }
        self.i2c.write(I2C_ADDRESS, sel.as_slice());
        let _voltage = self.i2c.read2(I2C_ADDRESS);

        // Point the device at the temperature register and read the raw
        // fourteen-bit die temperature.
        let mut sel2: Vec<u8> = Vec::new();
        sel2.push(REG_LOCAL_TEMPERATURE);
        proof {
            assert(sel2@ =~= register_select(REG_LOCAL_TEMPERATURE).data);
        }
        self.i2c.write(I2C_ADDRESS, sel2.as_slice());
        let temp = self.i2c.read2(I2C_ADDRESS);

        // Combine big-endian, reinterpret as signed, and discard the two
        // low-order bits with a sign-preserving shift: the reading is in
        // 1/32 engineering units.
        let word: u16 = ((temp.0 as u16) << 8) | (temp.1 as u16);
        let die_temp: i16 = word as i16;
        let reading: i16 = die_temp >> 2;

        self.last_temp = Some(reading);
        let prev = self.callback.take();
        match prev {
            Some(mut cb) => {
                cb.schedule(reading as usize, 0, 0, sched);
                proof {
                    let up = old(self).bus_upcoming();
                    assert(sched.log() =~= old(sched).log()
                        + spec_tick(old(self).state(), up[0].1, up[2].0, up[2].1).submitted);
                }
            },
            None => {
                proof {
                    assert(old(sched).log() + Seq::<RequestModel>::empty() =~= old(sched).log());
                }
            },
        }
        proof {
            let up = old(self).bus_upcoming();
            assert(self.bus_upcoming() =~= up.skip(3));
            assert(self.bus_writes() =~= old(self).bus_writes()
                + seq![register_select(REG_SENSOR_VOLTAGE), register_select(REG_LOCAL_TEMPERATURE)]);
        }
    }
}

} // verus!
