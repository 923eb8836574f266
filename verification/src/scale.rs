//! The load-cell state machine: bus acquisition, calibration of the analog
//! front end, and steady reading and taring.
//!
//! The machine never talks to the bus itself. A step is a short exchange
//! with the driver that owns the bus: the machine hands out the handle the
//! next transaction needs, the driver performs it and reports what came
//! back, until the step is done.

use vstd::prelude::*;

verus! {

/// Raw converter codes per kilogram on the reference unit.
pub const CODES_PER_KG: i32 = 674_500;

/// The load cell between two steps. `B` is the handle of the bare bus, `D`
/// the handle of the device brought up on it.
#[derive(Debug, PartialEq, Eq)]
pub enum Scale<B, D> {
    /// Nothing to talk to; seen only while a step is in flight.
    Empty,
    /// The bus is there, the device has not answered yet.
    Unconnected(B),
    /// The device is up and calibrating its analog front end.
    Calibrating(D),
    /// The device delivers raw codes: `zero` is the tare, `val` the latest.
    Running { adc: D, zero: i32, val: i32 },
}

/// A step in flight: either it is done, or it names the one bus
/// transaction it waits for and hands out the handle for it.
#[derive(Debug, PartialEq, Eq)]
pub enum Turn<B, D> {
    /// The step is over: the next state, and the net reading if there is
    /// one.
    Done(Scale<B, D>, Option<i64>),
    /// Bring the device up on this bus and report with `brought_up`.
    BringUp(B),
    /// Poll the calibration status and report with `polled`.
    PollCalibration(D),
    /// Calibration is done: read a first sample and report with
    /// `first_read`.
    FirstRead(D),
    /// Read a sample and report with `read`.
    Read { adc: D, zero: i32, val: i32 },
}

/// The net reading of a running scale: the latest code less the tare.
pub open spec fn net_of(zero: i32, val: i32) -> int {
    val - zero
}

impl<B, D> Scale<B, D> {
    /// The turn a step begins with.
    pub open spec fn begun(self) -> Turn<B, D> {
        match self {
            Scale::Empty => Turn::Done(Scale::Empty, None),
            Scale::Unconnected(bus) => Turn::BringUp(bus),
            Scale::Calibrating(adc) => Turn::PollCalibration(adc),
            Scale::Running { adc, zero, val } => Turn::Read { adc, zero, val },
        }
    }

    /// The state after a tare.
    pub open spec fn rezeroed(self) -> Scale<B, D> {
        match self {
            Scale::Running { adc, zero, val } => Scale::Running { adc, zero: val, val },
            _ => self,
        }
    }

    /// Begins a step: says which bus transaction is due, or that none is.
    pub fn step_inner(self) -> (turn: Turn<B, D>)
        ensures
            turn == self.begun(),
    {
        match self {
            Scale::Empty => Turn::Done(Scale::Empty, None),
            Scale::Unconnected(bus) => Turn::BringUp(bus),
            Scale::Calibrating(adc) => Turn::PollCalibration(adc),
            Scale::Running { adc, zero, val } => Turn::Read { adc, zero, val },
        }
    }

    /// Makes the latest code the new tare. Does nothing unless the scale is
    /// running.
    pub fn rezero(&mut self)
        ensures
            *final(self) == old(self).rezeroed(),
    {
        match self {
            Scale::Running { zero, val, .. } => {
                *zero = *val;
            },
            _ => {},
        }
    }
}

impl<B, D> Turn<B, D> {
    /// The turn after a bring-up: the device on success, the bus handed
    /// back on failure.
    pub open spec fn after_bring_up(result: Result<D, B>) -> Turn<B, D> {
        match result {
            Ok(adc) => Turn::Done(Scale::Calibrating(adc), None),
            Err(bus) => Turn::Done(Scale::Unconnected(bus), None),
        }
    }

    /// The turn after a poll of the calibration status.
    pub open spec fn after_poll(adc: D, calibrated: bool) -> Turn<B, D> {
        if calibrated {
            Turn::FirstRead(adc)
        } else {
            Turn::Done(Scale::Calibrating(adc), None)
        }
    }

    /// The turn after the read that follows a finished calibration.
    pub open spec fn after_first_read(adc: D, sample: Option<i32>) -> Turn<B, D> {
        match sample {
            Some(code) => Turn::Done(Scale::Running { adc, zero: code, val: code }, Some(0i64)),
            None => Turn::Done(Scale::Calibrating(adc), None),
        }
    }

    /// The turn after a read of a running scale: a failed read keeps the
    /// last code.
    pub open spec fn after_read(adc: D, zero: i32, val: i32, sample: Option<i32>) -> Turn<B, D> {
        let latest = match sample {
            Some(code) => code,
            None => val,
        };
        Turn::Done(Scale::Running { adc, zero, val: latest }, Some(net_of(zero, latest) as i64))
    }

    /// Reports a bring-up: `Ok` with the device, or `Err` with the bus
    /// recovered from the failed attempt.
    pub fn brought_up(result: Result<D, B>) -> (turn: Turn<B, D>)
        ensures
            turn == Self::after_bring_up(result),
    {
        match result {
            Ok(adc) => Turn::Done(Scale::Calibrating(adc), None),
            Err(bus) => Turn::Done(Scale::Unconnected(bus), None),
        }
    }

    /// Reports a poll of the calibration status: `calibrated` says that the
    /// device reported success.
    pub fn polled(adc: D, calibrated: bool) -> (turn: Turn<B, D>)
        ensures
            turn == Self::after_poll(adc, calibrated),
    {
        if calibrated {
            Turn::FirstRead(adc)
        } else {
            Turn::Done(Scale::Calibrating(adc), None)
        }
    }

    /// Reports the read that follows a finished calibration: the first code
    /// becomes tare and latest code at once.
    pub fn first_read(adc: D, sample: Option<i32>) -> (turn: Turn<B, D>)
        ensures
            turn == Self::after_first_read(adc, sample),
    {
        match sample {
            Some(code) => Turn::Done(Scale::Running { adc, zero: code, val: code }, Some(0)),
            None => Turn::Done(Scale::Calibrating(adc), None),
        }
    }

    /// Reports a read of a running scale.
    pub fn read(adc: D, zero: i32, val: i32, sample: Option<i32>) -> (turn: Turn<B, D>)
        ensures
            turn == Self::after_read(adc, zero, val, sample),
    {
        let latest: i32 = match sample {
            Some(code) => code,
            None => val,
        };
        let net: i64 = latest as i64 - zero as i64;
        Turn::Done(Scale::Running { adc, zero, val: latest }, Some(net))
    }
}

impl<B, D> Default for Scale<B, D> {
    fn default() -> (scale: Scale<B, D>)
        ensures
            scale == Scale::<B, D>::Empty,
    {
        Scale::Empty
    }
}

/// What the display layer is told of the scale.
#[derive(Clone, Copy, Debug, PartialEq, Eq, Structural)]
pub struct ScaleReading {
    /// Whether the scale has reached its running state.
    pub valid: bool,
    /// Net raw codes; zero while not valid.
    pub net: i64,
}

impl ScaleReading {
    /// The report for what a step returned.
    pub open spec fn of(reading: Option<i64>) -> ScaleReading {
        match reading {
            Some(net) => ScaleReading { valid: true, net },
            None => ScaleReading { valid: false, net: 0 },
        }
    }

    /// Makes the report for what a step returned.
    pub fn from_step(reading: Option<i64>) -> (report: ScaleReading)
        ensures
            report == Self::of(reading),
    {
        match reading {
            Some(net) => ScaleReading { valid: true, net },
            None => ScaleReading { valid: false, net: 0 },
        }
    }
}

} // verus!
