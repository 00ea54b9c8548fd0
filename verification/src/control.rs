//! The decisions of the control loop: from the power available at the meter
//! and the charger's status to the commands for the charger.

use vstd::prelude::*;
use crate::average::{div_toward_zero, AverageState, RunningAverage};
use crate::status::{ChargingStatus, GoEStatus};

verus! {

/// Charging is allowed once the smoothed surplus exceeds this many watts per
/// phase.
pub const TURN_ON_THRESHOLD: i64 = 1500;

/// Charging is disallowed once the smoothed power for the car falls under
/// this many watts per phase.
pub const TURN_OFF_THRESHOLD: i64 = 1200;

/// The voltage of one phase.
pub const PHASE_VOLTAGE: i64 = 230;

/// The number of polls after which charging may be disallowed again.
pub const TURN_OFF_POLLS: u64 = 4;

/// The seconds between two polls.
pub const POLL_PERIOD_SECONDS: u64 = 60;

/// The seconds to let a new current settle before charging is allowed.
pub const SETTLE_SECONDS: u64 = 5;

/// One step that the caller performs on the charger.
#[derive(Debug, Clone, Copy, PartialEq, Eq, Structural)]
pub enum Command {
    /// Allow or disallow charging.
    SetChargingAllowed(bool),
    /// Set the current to this many ampere; the charger is told the clamped
    /// value.
    SetAmpere(u8),
    /// Wait for the new current to settle.
    Settle,
}

/// The low eight bits of an integer, read as unsigned.
pub open spec fn low_byte(n: int) -> u8 {
    (n % 0x100) as u8
}

/// The current, in ampere, that `power` watts allow on `phases` phases.
pub open spec fn ampere_for(power: int, phases: u8) -> int {
    div_toward_zero(power, PHASE_VOLTAGE * phases)
}

/// The mathematical state of the control loop.
pub struct ControlState {
    /// The polls since charging could last be disallowed.
    pub turn_off_counter: nat,
    /// The smoothed power available for the car.
    pub car: AverageState,
    /// The smoothed power available at the meter.
    pub house: AverageState,
}

impl ControlState {
    /// The state of a new control loop.
    pub open spec fn fresh() -> ControlState {
        ControlState {
            turn_off_counter: 0,
            car: AverageState::fresh(5),
            house: AverageState::fresh(5),
        }
    }

    /// The state after a poll while the car is charging, and the commands of
    /// that poll. The power for the car is the available power and what the
    /// car draws; it is smoothed. After four polls charging is disallowed if
    /// the smoothed power is under the turn-off threshold, and the counter
    /// starts again. The current is set anew where the smoothed power asks
    /// for another than the commanded one.
    pub open spec fn while_charging(self, available_power: i64, status: GoEStatus) -> (
        ControlState,
        Seq<Command>,
    ) {
        let car = self.car.add((available_power + status.total_power) as i64);
        let average = car.average();
        let desired = ampere_for(average, status.phases);
        let due = self.turn_off_counter >= TURN_OFF_POLLS;
        let off = due && average < TURN_OFF_THRESHOLD * status.phases;
        let disable = if off {
            seq![Command::SetChargingAllowed(false)]
        } else {
            Seq::empty()
        };
        let adjust = if desired != status.ampere {
            seq![Command::SetAmpere(low_byte(desired))]
        } else {
            Seq::empty()
        };
        (
            ControlState {
                turn_off_counter: if due {
                    0
                } else {
                    self.turn_off_counter
                },
                car: if off {
                    car.deinit()
                } else {
                    car
                },
                house: self.house,
            },
            disable + adjust,
        )
    }

    /// The state after a poll while charging is not allowed, and the
    /// commands of that poll. The available power is smoothed. Where the car
    /// waits or has finished and the smoothed power exceeds the turn-on
    /// threshold, the current is set, left to settle, and charging allowed.
    pub open spec fn while_idle(self, available_power: i64, status: GoEStatus) -> (
        ControlState,
        Seq<Command>,
    ) {
        let house = self.house.add(available_power);
        let average = house.average();
        let waiting = status.charging_status == ChargingStatus::Finished || status.charging_status
            == ChargingStatus::Waiting;
        let commands = if waiting && average > TURN_ON_THRESHOLD * status.phases {
            seq![
                Command::SetAmpere(low_byte(ampere_for(average, status.phases))),
                Command::Settle,
                Command::SetChargingAllowed(true),
            ]
        } else {
            Seq::empty()
        };
        (ControlState { house, ..self }, commands)
    }

    /// The state after one poll, and the commands of that poll, in order.
    /// The counter goes up by one whatever the poll decided.
    pub open spec fn decide(self, available_power: i64, status: GoEStatus) -> (
        ControlState,
        Seq<Command>,
    ) {
        let (next, commands) = if status.is_charging_allowed {
            if status.charging_status == ChargingStatus::Charging {
                self.while_charging(available_power, status)
            } else {
                (self, Seq::empty())
            }
        } else {
            self.while_idle(available_power, status)
        };
        (ControlState { turn_off_counter: next.turn_off_counter + 1, ..next }, commands)
    }
}

fn quotient(a: i64, b: i64) -> (r: i64)
    requires
        b > 0,
    ensures
        r == div_toward_zero(a as int, b as int),
{
    let wide: i128 = a as i128;
    let by: i128 = b as i128;
    if wide >= 0 {
        assert(wide / by <= wide) by (nonlinear_arith)
            requires
                wide >= 0,
                by > 0,
        ;
        (wide / by) as i64
    } else {
        let neg: i128 = -wide;
        assert(neg / by <= neg) by (nonlinear_arith)
            requires
                neg >= 0,
                by > 0,
        ;
        assert(neg / by >= 0) by (nonlinear_arith)
            requires
                neg >= 0,
                by > 0,
        ;
        (-(neg / by)) as i64
    }
}

fn low_byte_of(n: i64) -> (r: u8)
    ensures
        r == low_byte(n as int),
{
    let wide: i128 = n as i128;
    if wide >= 0 {
        (wide % 0x100) as u8
    } else {
        let rem: i128 = (-wide) % 0x100;
        if rem == 0 {
            0
        } else {
            (0x100 - rem) as u8
        }
    }
}

/// The control loop's memory between polls.
pub struct Controller {
    turn_off_counter: u64,
    car: RunningAverage<5>,
    house: RunningAverage<5>,
}

impl View for Controller {
    type V = ControlState;

    closed spec fn view(&self) -> ControlState {
        ControlState {
            turn_off_counter: self.turn_off_counter as nat,
            car: self.car@,
            house: self.house@,
        }
    }
}

impl Controller {
    /// A control loop that has seen no poll.
    pub fn new() -> (r: Self)
        ensures
            r@ == ControlState::fresh(),
    {
        Controller { turn_off_counter: 0, car: RunningAverage::new(), house: RunningAverage::new() }
    }

    /// The smoothed power available for the car, in watts.
    pub fn car_average(&self) -> (r: i64)
        ensures
            r == self@.car.average(),
    {
        self.car.get_average()
    }

    /// The smoothed power available at the meter, in watts.
    pub fn house_average(&self) -> (r: i64)
        ensures
            r == self@.house.average(),
    {
        self.house.get_average()
    }

    /// The polls since charging could last be disallowed.
    pub fn turn_off_counter(&self) -> (r: u64)
        ensures
            r == self@.turn_off_counter,
    {
        self.turn_off_counter
    }

    fn while_charging(&mut self, available_power: i64, status: &GoEStatus) -> (r: Vec<Command>)
        requires
            status.phases > 0,
            available_power + status.total_power <= i64::MAX,
        ensures
            (final(self)@, r@) == old(self)@.while_charging(available_power, *status),
    {
        let phases: i64 = status.phases as i64;
        let mut commands: Vec<Command> = Vec::new();
        self.car.add(available_power + status.total_power as i64);
        let average = self.car.get_average();
        let desired = quotient(average, PHASE_VOLTAGE * phases);
        if self.turn_off_counter >= TURN_OFF_POLLS {
            if average < TURN_OFF_THRESHOLD * phases {
                commands.push(Command::SetChargingAllowed(false));
                self.car.deinit();
            }
            self.turn_off_counter = 0;
        }
        if desired != status.ampere as i64 {
            commands.push(Command::SetAmpere(low_byte_of(desired)));
        }
        assert(commands@ =~= old(self)@.while_charging(available_power, *status).1);
        commands
    }

    fn while_idle(&mut self, available_power: i64, status: &GoEStatus) -> (r: Vec<Command>)
        requires
            status.phases > 0,
        ensures
            (final(self)@, r@) == old(self)@.while_idle(available_power, *status),
    {
        let phases: i64 = status.phases as i64;
        let mut commands: Vec<Command> = Vec::new();
        self.house.add(available_power);
        let average = self.house.get_average();
        let waiting = match status.charging_status {
            ChargingStatus::Finished => true,
            ChargingStatus::Waiting => true,
            _ => false,
        };
        if waiting && average > TURN_ON_THRESHOLD * phases {
            let ampere = quotient(average, PHASE_VOLTAGE * phases);
            commands.push(Command::SetAmpere(low_byte_of(ampere)));
            commands.push(Command::Settle);
            commands.push(Command::SetChargingAllowed(true));
        }
        assert(commands@ =~= old(self)@.while_idle(available_power, *status).1);
        commands
    }

    /// Takes in one poll and decides the commands for the charger, in the
    /// order in which they are to be sent.
    pub fn decide(&mut self, available_power: i64, status: &GoEStatus) -> (r: Vec<Command>)
        requires
            status.phases > 0,
            available_power + status.total_power <= i64::MAX,
            old(self)@.turn_off_counter < u64::MAX,
        ensures
            (final(self)@, r@) == old(self)@.decide(available_power, *status),
    {
        let commands = if status.is_charging_allowed {
            match status.charging_status {
                ChargingStatus::Charging => self.while_charging(available_power, status),
                _ => Vec::new(),
            }
        } else {
            self.while_idle(available_power, status)
        };
        self.turn_off_counter = self.turn_off_counter + 1;
        commands
    }
}

} // verus!
