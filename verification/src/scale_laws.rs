//! What holds of the load-cell state machine over whole steps.

use crate::scale::{net_of, Scale, Turn};
use vstd::prelude::*;

verus! {

/// The phase of a scale, without the handles it owns.
pub enum Phase {
    Empty,
    Unconnected,
    Calibrating,
    Running { zero: i32, val: i32 },
}

/// What the bus answers during one step.
pub struct BusAnswers {
    /// Whether a bring-up succeeds.
    pub up: bool,
    /// Whether the device reports a finished calibration.
    pub calibrated: bool,
    /// The code a read delivers, if it delivers one.
    pub sample: Option<i32>,
}

impl<B, D> Scale<B, D> {
    /// The phase this state is in.
    pub open spec fn phase(self) -> Phase {
        match self {
            Scale::Empty => Phase::Empty,
            Scale::Unconnected(_) => Phase::Unconnected,
            Scale::Calibrating(_) => Phase::Calibrating,
            Scale::Running { adc, zero, val } => Phase::Running { zero, val },
        }
    }

    /// The turn that ends a step begun in this state, when the driver
    /// answers each request of the machine as `bus` says and a successful
    /// bring-up yields `device`.
    pub open spec fn driven(self, bus: BusAnswers, device: D) -> Turn<B, D> {
        match self.begun() {
            Turn::BringUp(handle) => Turn::after_bring_up(
                if bus.up {
                    Ok(device)
                } else {
                    Err(handle)
                },
            ),
            Turn::PollCalibration(adc) => match Turn::<B, D>::after_poll(adc, bus.calibrated) {
                Turn::FirstRead(adc) => Turn::after_first_read(adc, bus.sample),
                turn => turn,
            },
            Turn::Read { adc, zero, val } => Turn::after_read(adc, zero, val, bus.sample),
            turn => turn,
        }
    }

    /// The state after `attempts` steps on a bus on which every bring-up
    /// fails.
    pub open spec fn after_failed_attempts(self, attempts: nat, device: D) -> Scale<B, D>
        decreases attempts,
    {
        if attempts == 0 {
            self
        } else {
            let bus = BusAnswers { up: false, calibrated: false, sample: None };
            self.after_failed_attempts((attempts - 1) as nat, device).driven(bus, device)->Done_0
        }
    }
}

/// The phase after one step and the net reading it reports.
pub open spec fn step_of(phase: Phase, bus: BusAnswers) -> (Phase, Option<int>) {
    match phase {
        Phase::Empty => (Phase::Empty, None),
        Phase::Unconnected => if bus.up {
            (Phase::Calibrating, None)
        } else {
            (Phase::Unconnected, None)
        },
        Phase::Calibrating => match bus.sample {
            Some(code) if bus.calibrated => (Phase::Running { zero: code, val: code }, Some(0int)),
            _ => (Phase::Calibrating, None),
        },
        Phase::Running { zero, val } => {
            let latest = match bus.sample {
                Some(code) => code,
                None => val,
            };
            (Phase::Running { zero, val: latest }, Some(net_of(zero, latest)))
        },
    }
}

/// The reading of a turn that is done, as an integer.
pub open spec fn reading_of<B, D>(turn: Turn<B, D>) -> Option<int> {
    match turn {
        Turn::Done(_, Some(net)) => Some(net as int),
        _ => None,
    }
}

/// Every step ends, and ends as the phase table says: the exchange between
/// machine and driver arrives at `Done` with the next phase and the reading
/// of `step_of`.
pub proof fn law_step_follows_table<B, D>(state: Scale<B, D>, bus: BusAnswers, device: D)
    ensures
        state.driven(bus, device) is Done,
        state.driven(bus, device)->Done_0.phase() == step_of(state.phase(), bus).0,
        reading_of(state.driven(bus, device)) == step_of(state.phase(), bus).1,
{
}

/// Failed bring-ups never leave `Unconnected`: after any number of them the
/// machine still holds the same bus, and none of them reports a reading.
pub proof fn law_failed_bring_up_stays<B, D>(handle: B, attempts: nat, device: D)
    ensures
        Scale::<B, D>::Unconnected(handle).after_failed_attempts(attempts, device)
            == Scale::<B, D>::Unconnected(handle),
        reading_of(
            Scale::<B, D>::Unconnected(handle).driven(
                BusAnswers { up: false, calibrated: false, sample: None },
                device,
            ),
        ) is None,
    decreases attempts,
{
    if attempts > 0 {
        law_failed_bring_up_stays::<B, D>(handle, (attempts - 1) as nat, device);
    }
}

/// One successful bring-up takes `Unconnected` to `Calibrating` on the
/// device that answered, without a reading.
pub proof fn law_bring_up_calibrates<B, D>(handle: B, bus: BusAnswers, device: D)
    requires
        bus.up,
    ensures
        Scale::<B, D>::Unconnected(handle).driven(bus, device) == Turn::<B, D>::Done(
            Scale::Calibrating(device),
            None,
        ),
{
}

/// From `Calibrating`, a finished calibration and a successful read start
/// the scale with tare and latest code both at that read, reporting zero;
/// anything less leaves it calibrating without a reading.
pub proof fn law_calibration_zeroes<B, D>(adc: D, bus: BusAnswers, device: D)
    ensures
        bus.calibrated && bus.sample is Some ==> Scale::<B, D>::Calibrating(adc).driven(bus, device)
            == Turn::<B, D>::Done(
            Scale::Running { adc, zero: bus.sample->0, val: bus.sample->0 },
            Some(0i64),
        ),
        !(bus.calibrated && bus.sample is Some) ==> Scale::<B, D>::Calibrating(adc).driven(
            bus,
            device,
        ) == Turn::<B, D>::Done(Scale::Calibrating(adc), None),
{
}

/// A running scale reports the latest code less the tare, and exactly zero
/// when the two are equal. A failed read reports the last code again.
pub proof fn law_reading_is_net<B, D>(adc: D, zero: i32, val: i32, bus: BusAnswers, device: D)
    ensures
        ({
            let latest = if bus.sample is Some {
                bus.sample->0
            } else {
                val
            };
            let turn = Scale::<B, D>::Running { adc, zero, val }.driven(bus, device);
            &&& turn == Turn::<B, D>::Done(
                Scale::Running { adc, zero, val: latest },
                Some((latest - zero) as i64),
            )
            &&& reading_of(turn) == Some(latest - zero)
            &&& latest == zero ==> reading_of(turn) == Some(0int)
        }),
{
}

/// A tare followed by a step with an unchanged raw code reports zero.
pub proof fn law_rezero_reports_zero<B, D>(state: Scale<B, D>, bus: BusAnswers, device: D)
    requires
        state is Running,
        bus.sample is None || bus.sample == Some(state->val),
    ensures
        reading_of(state.rezeroed().driven(bus, device)) == Some(0int),
{
}

/// A tare changes nothing unless the scale is running.
pub proof fn law_rezero_elsewhere<B, D>(state: Scale<B, D>)
    requires
        !(state is Running),
    ensures
        state.rezeroed() == state,
{
}

} // verus!
