//! The gateway: sole owner of the heating record.
//!
//! Every read and every change of the record goes through a method of
//! [`StateGateway`]. A change takes the gateway by `&mut`, so no two changes
//! overlap and no read sees one half done; a caller that shares the gateway
//! between tasks keeps it behind a lock and calls one method per acquisition.

use crate::clock::Timestamp;
use crate::heating::HeatingState;
use crate::temperature::Temperature;
use vstd::prelude::*;

verus! {

/// Why the gateway turned a value down.
#[derive(Clone, Copy, Debug, PartialEq, Eq, Structural)]
pub enum GatewayError {
    /// The temperature is an infinity or a NaN.
    NonFiniteTemperature,
}

/// The changes the gateway offers.
#[derive(Clone, Copy, Debug, PartialEq, Eq)]
pub enum Operation {
    SetTargetTemperature(Temperature),
    ReportCurrentTemperature(Temperature),
    SetSwitch(bool),
}

/// One call of the gateway: the change asked for and the time of the call.
#[derive(Clone, Copy, Debug, PartialEq, Eq)]
pub struct Call {
    pub operation: Operation,
    pub at: Timestamp,
}

/// The record after one call. A change that carries a temperature which is
/// not finite is turned down and leaves the record as it was.
pub open spec fn after_call(record: HeatingState, call: Call) -> HeatingState {
    match call.operation {
        Operation::SetTargetTemperature(value) => if value.is_finite() {
            record.with_target_temp(value)
        } else {
            record
        },
        Operation::ReportCurrentTemperature(value) => if value.is_finite() {
            record.with_report(value, call.at)
        } else {
            record
        },
        Operation::SetSwitch(on) => record.with_switch(on),
    }
}

/// Whether the gateway takes a call: it does unless the call carries a
/// temperature that is not finite.
pub open spec fn accepts(call: Call) -> bool {
    match call.operation {
        Operation::SetTargetTemperature(value) => value.is_finite(),
        Operation::ReportCurrentTemperature(value) => value.is_finite(),
        Operation::SetSwitch(_) => true,
    }
}

/// The heating record and the only ways to reach it.
///
/// Both temperatures in the record are finite at all times.
pub struct StateGateway {
    state: HeatingState,
}

impl StateGateway {
    #[verifier::type_invariant]
    spec fn temperatures_are_finite(self) -> bool {
        self.state.target_temp.is_finite() && self.state.current_temp.is_finite()
    }

    /// The record the gateway holds.
    pub closed spec fn view(&self) -> HeatingState {
        self.state
    }

    /// A gateway for a process that starts at `now`, holding the initial
    /// record.
    pub fn new(now: Timestamp) -> (gateway: StateGateway)
        ensures
            gateway@ == HeatingState::initial(now),
    {
        proof {
            crate::heating::lemma_default_temperatures();
        }
        StateGateway { state: HeatingState::initial(now) }
    }

    /// A copy of the whole record as it stands: all four fields from the same
    /// moment.
    pub fn snapshot(&self) -> (copy: HeatingState)
        ensures
            copy == self@,
            copy.target_temp.is_finite(),
            copy.current_temp.is_finite(),
    {
        proof {
            use_type_invariant(self);
        }
        self.state
    }

    /// Sets the target temperature.
    ///
    /// Any finite value is taken, negative ones and zero too, and nothing but
    /// the target changes. An infinity or a NaN is turned down and the record
    /// stays as it was.
    pub fn set_target_temperature(&mut self, value: Temperature) -> (result: Result<
        (),
        GatewayError,
    >)
        ensures
            value.is_finite() ==> ({
                &&& result == Ok::<(), GatewayError>(())
                &&& final(self)@ == old(self)@.with_target_temp(value)
            }),
            !value.is_finite() ==> ({
                &&& result == Err::<(), GatewayError>(GatewayError::NonFiniteTemperature)
                &&& final(self)@ == old(self)@
            }),
            final(self)@.current_temp_reported_at == old(self)@.current_temp_reported_at,
    {
        proof {
            use_type_invariant(&*self);
        }
        if !value.is_finite() {
            return Err(GatewayError::NonFiniteTemperature);
        }
        self.state.target_temp = value;
        Ok(())
    }

    /// Records a sensor reading taken at `now`.
    ///
    /// Any finite value is taken: it becomes the current temperature and
    /// `now` the time of the report. No other method writes that time. An
    /// infinity or a NaN is turned down and the record stays as it was.
    pub fn report_current_temperature(
        &mut self,
        value: Temperature,
        now: Timestamp,
    ) -> (result: Result<(), GatewayError>)
        ensures
            value.is_finite() ==> ({
                &&& result == Ok::<(), GatewayError>(())
                &&& final(self)@ == old(self)@.with_report(value, now)
            }),
            !value.is_finite() ==> ({
                &&& result == Err::<(), GatewayError>(GatewayError::NonFiniteTemperature)
                &&& final(self)@ == old(self)@
            }),
    {
        proof {
            use_type_invariant(&*self);
        }
        if !value.is_finite() {
            return Err(GatewayError::NonFiniteTemperature);
        }
        self.state.current_temp = value;
        self.state.current_temp_reported_at = now;
        Ok(())
    }

    /// Sets the manual switch; nothing else changes.
    pub fn set_switch(&mut self, on: bool)
        ensures
            final(self)@ == old(self)@.with_switch(on),
            final(self)@.current_temp_reported_at == old(self)@.current_temp_reported_at,
    {
        proof {
            use_type_invariant(&*self);
        }
        self.state.heating_switch_is_on = on;
    }

    /// Makes one call, given as a value.
    pub fn apply(&mut self, call: Call) -> (result: Result<(), GatewayError>)
        ensures
            final(self)@ == after_call(old(self)@, call),
            accepts(call) ==> result == Ok::<(), GatewayError>(()),
            !accepts(call) ==> ({
                &&& result == Err::<(), GatewayError>(GatewayError::NonFiniteTemperature)
                &&& final(self)@ == old(self)@
            }),
    {
        match call.operation {
            Operation::SetTargetTemperature(value) => self.set_target_temperature(value),
            Operation::ReportCurrentTemperature(value) => self.report_current_temperature(
                value,
                call.at,
            ),
            Operation::SetSwitch(on) => {
                self.set_switch(on);
                Ok(())
            },
        }
    }
}

/// The call that reports `value` at the time `at`.
pub open spec fn report(value: Temperature, at: Timestamp) -> Call {
    Call { operation: Operation::ReportCurrentTemperature(value), at }
}

/// Reporting the same reading twice leaves the current temperature where
/// one report leaves it. Where the reading is finite, that is the reading,
/// and each report is stamped with the time of its call: of two reports the
/// later one is stamped strictly later.
pub proof fn lemma_report_twice(
    record: HeatingState,
    value: Temperature,
    first: Timestamp,
    second: Timestamp,
)
    ensures
        ({
            let once = after_call(record, report(value, first));
            let twice = after_call(once, report(value, second));
            &&& twice.current_temp == once.current_temp
            &&& twice.target_temp == record.target_temp
            &&& twice.heating_switch_is_on == record.heating_switch_is_on
            &&& value.is_finite() ==> {
                &&& once.current_temp == value
                &&& once.current_temp_reported_at == first
                &&& twice.current_temp_reported_at == second
                &&& first.nanos < second.nanos ==> once.current_temp_reported_at.nanos
                    < twice.current_temp_reported_at.nanos
            }
        }),
{
}

/// Neither setting the target temperature nor setting the switch touches
/// the reading or the time of its report, whether the value is taken or
/// turned down.
pub proof fn lemma_operator_keeps_report(record: HeatingState, call: Call)
    requires
        !(call.operation is ReportCurrentTemperature),
    ensures
        after_call(record, call).current_temp_reported_at == record.current_temp_reported_at,
        after_call(record, call).current_temp == record.current_temp,
{
}

} // verus!
