//! The heating record and the rule that derives "heat now" from it.

use crate::clock::Timestamp;
use crate::temperature::Temperature;
use vstd::arithmetic::power2::*;
use vstd::prelude::*;

verus! {

/// How long a sensor reading stays usable: fifteen minutes, in nanoseconds.
/// A reading of exactly this age still counts.
pub const STALENESS_WINDOW_NANOS: u128 = 900_000_000_000;

/// The encoding of the target temperature of a fresh record: 21 degrees.
pub const DEFAULT_TARGET_TEMP_BITS: u64 = 0x4035_0000_0000_0000;

/// The encoding of the current temperature of a fresh record, before any
/// report: 0 degrees.
pub const DEFAULT_CURRENT_TEMP_BITS: u64 = 0;

/// The single record that both front ends read and change.
#[derive(Clone, Copy, Debug, PartialEq, Eq, Structural)]
pub struct HeatingState {
    /// The temperature the operator wants.
    pub target_temp: Temperature,
    /// The last reading the sensor reported.
    pub current_temp: Temperature,
    /// When the sensor reported it.
    pub current_temp_reported_at: Timestamp,
    /// The operator's manual switch.
    pub heating_switch_is_on: bool,
}

/// What a status reply shows: the record, the age of its reading in whole
/// seconds, and the derived decision.
#[derive(Clone, Copy, Debug, PartialEq, Eq, Structural)]
pub struct StatusReport {
    pub heating_switch_is_on: bool,
    pub target_temp: Temperature,
    pub current_temp: Temperature,
    pub seconds_since_report: u128,
    pub heating_is_on: bool,
}

impl HeatingState {
    /// The record of a process that starts at `now`: target 21 degrees, no
    /// reading yet (0 degrees, stamped `now`), switch off.
    pub open spec fn spec_initial(now: Timestamp) -> HeatingState {
        HeatingState {
            target_temp: Temperature { bits: DEFAULT_TARGET_TEMP_BITS },
            current_temp: Temperature { bits: DEFAULT_CURRENT_TEMP_BITS },
            current_temp_reported_at: now,
            heating_switch_is_on: false,
        }
    }

    /// Whether the last reading is older at `now` than the staleness window
    /// allows.
    pub open spec fn is_stale(self, now: Timestamp) -> bool {
        now.nanos_since(&self.current_temp_reported_at) > STALENESS_WINDOW_NANOS
    }

    /// The derived decision: heat at `now` exactly when the switch is on, the
    /// reading is below the target, and the reading is not stale.
    pub open spec fn spec_heating_is_on(&self, now: Timestamp) -> bool {
        &&& self.heating_switch_is_on
        &&& self.current_temp.lt(&self.target_temp)
        &&& !self.is_stale(now)
    }

    /// What a status reply shows of this record at `now`.
    pub open spec fn spec_status(&self, now: Timestamp) -> StatusReport {
        StatusReport {
            heating_switch_is_on: self.heating_switch_is_on,
            target_temp: self.target_temp,
            current_temp: self.current_temp,
            seconds_since_report: now.seconds_since(&self.current_temp_reported_at),
            heating_is_on: self.spec_heating_is_on(now),
        }
    }

    /// The record with another target temperature.
    pub open spec fn with_target_temp(self, value: Temperature) -> HeatingState {
        HeatingState { target_temp: value, ..self }
    }

    /// The record after the sensor reported `value` at `now`.
    pub open spec fn with_report(self, value: Temperature, now: Timestamp) -> HeatingState {
        HeatingState { current_temp: value, current_temp_reported_at: now, ..self }
    }

    /// The record with the switch set.
    pub open spec fn with_switch(self, on: bool) -> HeatingState {
        HeatingState { heating_switch_is_on: on, ..self }
    }

    /// The record of a process that starts at `now`.
    #[verifier::when_used_as_spec(spec_initial)]
    pub fn initial(now: Timestamp) -> (state: HeatingState)
        ensures
            state == HeatingState::spec_initial(now),
    {
        HeatingState {
            target_temp: Temperature { bits: DEFAULT_TARGET_TEMP_BITS },
            current_temp: Temperature { bits: DEFAULT_CURRENT_TEMP_BITS },
            current_temp_reported_at: now,
            heating_switch_is_on: false,
        }
    }

    /// Whether to heat at `now`.
    ///
    /// True exactly when the switch is on, the current temperature is below
    /// the target, and at most fifteen minutes have passed since the sensor
    /// last reported. A silent sensor thus switches the heating off whatever
    /// the switch says.
    #[verifier::when_used_as_spec(spec_heating_is_on)]
    pub fn heating_is_on(&self, now: Timestamp) -> (active: bool)
        ensures
            active == self.spec_heating_is_on(now),
            active <==> self.heating_switch_is_on && self.current_temp.lt(&self.target_temp)
                && now.nanos_since(&self.current_temp_reported_at) <= STALENESS_WINDOW_NANOS,
    {
        if now.nanos_since(&self.current_temp_reported_at) > STALENESS_WINDOW_NANOS {
            return false;
        }
        self.heating_switch_is_on && self.current_temp.lt(&self.target_temp)
    }

    /// What a status reply shows of this record at `now`.
    #[verifier::when_used_as_spec(spec_status)]
    pub fn status(&self, now: Timestamp) -> (report: StatusReport)
        ensures
            report == self.spec_status(now),
    {
        StatusReport {
            heating_switch_is_on: self.heating_switch_is_on,
            target_temp: self.target_temp,
            current_temp: self.current_temp,
            seconds_since_report: now.seconds_since(&self.current_temp_reported_at),
            heating_is_on: self.heating_is_on(now),
        }
    }
}

/// The default target is the number 21, and the default reading the number 0.
pub proof fn lemma_default_temperatures()
    ensures
        (Temperature { bits: DEFAULT_TARGET_TEMP_BITS }).is_finite(),
        (Temperature { bits: DEFAULT_CURRENT_TEMP_BITS }).is_finite(),
        (Temperature { bits: DEFAULT_TARGET_TEMP_BITS }).scaled_value() == 21 * pow2(1074),
        (Temperature { bits: DEFAULT_CURRENT_TEMP_BITS }).scaled_value() == 0,
{
    let t = Temperature { bits: DEFAULT_TARGET_TEMP_BITS };
    assert(t.magnitude() == 0x4035_0000_0000_0000);
    assert(t.exponent_field() == 1027);
    assert(t.fraction_field() == 0x5_0000_0000_0000);
    lemma2_to64();
    lemma2_to64_rest();
    lemma_pow2_adds(48, 1026);
    assert(0x10_0000_0000_0000 + 0x5_0000_0000_0000 == 21 * pow2(48));
    assert((21 * pow2(48)) * pow2(1026) == 21 * (pow2(48) * pow2(1026))) by (nonlinear_arith);
}

} // verus!
