use heating_control::clock::{Timestamp, NANOS_PER_SECOND};
use heating_control::dialogue::{
    cancel, check_valid_user, dispatch, handle_message, help, invalid_state, receive_temp, schema,
    set_heating_off, set_heating_on, set_temp, status, Command, Content, Endpoint, Outcome, Reply,
    State,
};
use heating_control::gateway::StateGateway;
use heating_control::heating::HeatingState;
use heating_control::temperature::Temperature;

fn temp(degrees: f64) -> Temperature {
    Temperature::from_bits(degrees.to_bits())
}

fn text(message: &str) -> Content {
    Content::Text(message.parse::<f64>().ok().map(temp))
}

fn start() -> Timestamp {
    Timestamp::from_nanos(1_700_000_000 * NANOS_PER_SECOND)
}

fn commands() -> Vec<Command> {
    vec![Command::Help, Command::Status, Command::SetTemp, Command::On, Command::Off, Command::Cancel]
}

#[test]
fn a_conversation_starts_in_initial() {
    assert_eq!(State::default(), State::Initial);
}

#[test]
fn allow_list_is_checked_by_membership() {
    let users: Vec<i64> = vec![42, -7, 1_000_000_007];
    assert!(check_valid_user(&users, 42));
    assert!(check_valid_user(&users, -7));
    assert!(check_valid_user(&users, 1_000_000_007));
    assert!(!check_valid_user(&users, 7));
    assert!(!check_valid_user(&users, 0));
    assert!(!check_valid_user(&Vec::new(), 42));
}

#[test]
fn schema_in_initial() {
    let state = State::Initial;
    assert_eq!(schema(state, Content::Command(Command::Help)), Endpoint::Help);
    assert_eq!(schema(state, Content::Command(Command::Status)), Endpoint::Status);
    assert_eq!(schema(state, Content::Command(Command::SetTemp)), Endpoint::SetTemp);
    assert_eq!(schema(state, Content::Command(Command::On)), Endpoint::SetHeatingOn);
    assert_eq!(schema(state, Content::Command(Command::Off)), Endpoint::SetHeatingOff);
    assert_eq!(schema(state, Content::Command(Command::Cancel)), Endpoint::Cancel);
    assert_eq!(schema(state, text("19.5")), Endpoint::InvalidState);
    assert_eq!(schema(state, text("hello")), Endpoint::InvalidState);
    assert_eq!(schema(state, Content::Other), Endpoint::InvalidState);
}

#[test]
fn schema_while_a_temperature_is_awaited() {
    let state = State::ReceiveTemp;
    assert_eq!(schema(state, Content::Command(Command::Cancel)), Endpoint::Cancel);
    for command in [Command::Help, Command::Status, Command::SetTemp, Command::On, Command::Off] {
        assert_eq!(schema(state, Content::Command(command)), Endpoint::InvalidState);
    }
    assert_eq!(schema(state, text("19.5")), Endpoint::ReceiveTemp);
    assert_eq!(schema(state, text("abc")), Endpoint::ReceiveTemp);
    assert_eq!(schema(state, Content::Other), Endpoint::ReceiveTemp);
}

#[test]
fn endpoints_without_the_record() {
    assert_eq!(help(), Reply::Help);
    assert_eq!(invalid_state(), Reply::UnableToHandle);
    assert_eq!(cancel(), Outcome { next: State::Initial, reply: Reply::Cancelled });
    assert_eq!(
        set_temp(),
        Outcome { next: State::ReceiveTemp, reply: Reply::EnterTargetTemperature }
    );
}

#[test]
fn switch_endpoints_set_the_switch() {
    let mut gateway = StateGateway::new(start());
    assert_eq!(set_heating_on(&mut gateway), Reply::HeatingSetOn);
    assert!(gateway.snapshot().heating_switch_is_on);
    assert_eq!(set_heating_on(&mut gateway), Reply::HeatingSetOn);
    assert!(gateway.snapshot().heating_switch_is_on);
    assert_eq!(set_heating_off(&mut gateway), Reply::HeatingSetOff);
    assert!(!gateway.snapshot().heating_switch_is_on);
    assert_eq!(gateway.snapshot(), HeatingState::initial(start()));
}

#[test]
fn status_endpoint_reports_the_snapshot() {
    let mut gateway = StateGateway::new(start());
    gateway.set_switch(true);
    let later = Timestamp::from_nanos(start().nanos + 75 * NANOS_PER_SECOND);
    let reply = status(&gateway, later);
    assert_eq!(reply, Reply::Status(gateway.snapshot().status(later)));
    match reply {
        Reply::Status(report) => {
            assert!(report.heating_switch_is_on);
            assert_eq!(report.target_temp, temp(21.0));
            assert_eq!(report.current_temp, temp(0.0));
            assert_eq!(report.seconds_since_report, 75);
            assert!(report.heating_is_on);
        }
        _ => panic!("status must answer with a status"),
    }
}

#[test]
fn receive_temp_takes_finite_numbers_only() {
    let mut gateway = StateGateway::new(start());
    let untouched = gateway.snapshot();
    let again = Outcome { next: State::ReceiveTemp, reply: Reply::InvalidTargetTemperature };
    for message in ["abc", "", "19,5", "21 degrees", "NaN", "inf", "-inf", "infinity", "1e999"] {
        assert_eq!(receive_temp(&mut gateway, text(message)), again, "{}", message);
        assert_eq!(gateway.snapshot(), untouched);
    }
    assert_eq!(receive_temp(&mut gateway, Content::Command(Command::Help)), again);
    assert_eq!(
        receive_temp(&mut gateway, Content::Other),
        Outcome { next: State::ReceiveTemp, reply: Reply::SendTargetTemperature }
    );
    assert_eq!(gateway.snapshot(), untouched);
    for message in ["19.5", "-4", "0", "1e3", "+7.25"] {
        let value = temp(message.parse::<f64>().unwrap());
        assert_eq!(
            receive_temp(&mut gateway, text(message)),
            Outcome { next: State::Initial, reply: Reply::TargetTemperatureSet(value) }
        );
        assert_eq!(gateway.snapshot(), HeatingState { target_temp: value, ..untouched });
    }
}

#[test]
fn scenario_target_temperature_entry() {
    let users: Vec<i64> = vec![42];
    let mut gateway = StateGateway::new(start());
    let opened = handle_message(
        &users,
        42,
        State::Initial,
        Content::Command(Command::SetTemp),
        &mut gateway,
        start(),
    );
    assert_eq!(opened, Outcome { next: State::ReceiveTemp, reply: Reply::EnterTargetTemperature });

    let refused = handle_message(&users, 42, opened.next, text("abc"), &mut gateway, start());
    assert_eq!(
        refused,
        Outcome { next: State::ReceiveTemp, reply: Reply::InvalidTargetTemperature }
    );
    assert_eq!(gateway.snapshot().target_temp, temp(21.0));
    assert_eq!(gateway.snapshot(), HeatingState::initial(start()));

    let taken = handle_message(&users, 42, refused.next, text("19.5"), &mut gateway, start());
    assert_eq!(
        taken,
        Outcome { next: State::Initial, reply: Reply::TargetTemperatureSet(temp(19.5)) }
    );
    assert_eq!(gateway.snapshot().target_temp, temp(19.5));
    assert_eq!(
        gateway.snapshot(),
        HeatingState { target_temp: temp(19.5), ..HeatingState::initial(start()) }
    );
}

#[test]
fn scenario_unauthorized_sender() {
    let users: Vec<i64> = vec![42, 43];
    let mut gateway = StateGateway::new(start());
    gateway.set_switch(true);
    let before = gateway.snapshot();
    let later = Timestamp::from_nanos(start().nanos + 5 * NANOS_PER_SECOND);
    for state in [State::Initial, State::ReceiveTemp] {
        for command in commands() {
            assert_eq!(
                handle_message(&users, 44, state, Content::Command(command), &mut gateway, later),
                Outcome { next: state, reply: Reply::Unauthorized }
            );
            assert_eq!(gateway.snapshot(), before);
        }
        for content in [text("19.5"), text("abc"), Content::Other] {
            assert_eq!(
                handle_message(&users, 44, state, content, &mut gateway, later),
                Outcome { next: state, reply: Reply::Unauthorized }
            );
            assert_eq!(gateway.snapshot(), before);
        }
    }
}

#[test]
fn dispatch_in_initial() {
    let mut gateway = StateGateway::new(start());
    let now = Timestamp::from_nanos(start().nanos + 3 * NANOS_PER_SECOND);
    let initial = HeatingState::initial(start());

    assert_eq!(
        dispatch(State::Initial, Content::Command(Command::Help), &mut gateway, now),
        Outcome { next: State::Initial, reply: Reply::Help }
    );
    assert_eq!(
        dispatch(State::Initial, Content::Command(Command::Status), &mut gateway, now),
        Outcome { next: State::Initial, reply: Reply::Status(initial.status(now)) }
    );
    assert_eq!(gateway.snapshot(), initial);
    assert_eq!(
        dispatch(State::Initial, Content::Command(Command::On), &mut gateway, now),
        Outcome { next: State::Initial, reply: Reply::HeatingSetOn }
    );
    assert_eq!(gateway.snapshot(), HeatingState { heating_switch_is_on: true, ..initial });
    assert_eq!(
        dispatch(State::Initial, Content::Command(Command::Off), &mut gateway, now),
        Outcome { next: State::Initial, reply: Reply::HeatingSetOff }
    );
    assert_eq!(gateway.snapshot(), initial);
    assert_eq!(
        dispatch(State::Initial, Content::Command(Command::SetTemp), &mut gateway, now),
        Outcome { next: State::ReceiveTemp, reply: Reply::EnterTargetTemperature }
    );
    assert_eq!(
        dispatch(State::Initial, Content::Command(Command::Cancel), &mut gateway, now),
        Outcome { next: State::Initial, reply: Reply::Cancelled }
    );
    for content in [text("19.5"), text("hello"), Content::Other] {
        assert_eq!(
            dispatch(State::Initial, content, &mut gateway, now),
            Outcome { next: State::Initial, reply: Reply::UnableToHandle }
        );
    }
    assert_eq!(gateway.snapshot(), initial);
}

#[test]
fn dispatch_while_a_temperature_is_awaited() {
    let mut gateway = StateGateway::new(start());
    let now = start();
    let initial = HeatingState::initial(start());
    for command in [Command::Help, Command::Status, Command::SetTemp, Command::On, Command::Off] {
        assert_eq!(
            dispatch(State::ReceiveTemp, Content::Command(command), &mut gateway, now),
            Outcome { next: State::ReceiveTemp, reply: Reply::UnableToHandle }
        );
        assert_eq!(gateway.snapshot(), initial);
    }
    assert_eq!(
        dispatch(State::ReceiveTemp, Content::Other, &mut gateway, now),
        Outcome { next: State::ReceiveTemp, reply: Reply::SendTargetTemperature }
    );
    assert_eq!(
        dispatch(State::ReceiveTemp, text("warm"), &mut gateway, now),
        Outcome { next: State::ReceiveTemp, reply: Reply::InvalidTargetTemperature }
    );
    assert_eq!(
        dispatch(State::ReceiveTemp, Content::Command(Command::Cancel), &mut gateway, now),
        Outcome { next: State::Initial, reply: Reply::Cancelled }
    );
    assert_eq!(gateway.snapshot(), initial);
    assert_eq!(
        dispatch(State::ReceiveTemp, text("-2.5"), &mut gateway, now),
        Outcome { next: State::Initial, reply: Reply::TargetTemperatureSet(temp(-2.5)) }
    );
    assert_eq!(gateway.snapshot(), HeatingState { target_temp: temp(-2.5), ..initial });
}

#[test]
fn the_dialogue_never_touches_the_report() {
    let mut gateway = StateGateway::new(start());
    let reported = Timestamp::from_nanos(start().nanos + NANOS_PER_SECOND);
    assert_eq!(gateway.report_current_temperature(temp(17.0), reported), Ok(()));
    let now = Timestamp::from_nanos(start().nanos + 10 * NANOS_PER_SECOND);
    let users: Vec<i64> = vec![1];
    for state in [State::Initial, State::ReceiveTemp] {
        for command in commands() {
            handle_message(&users, 1, state, Content::Command(command), &mut gateway, now);
            assert_eq!(gateway.snapshot().current_temp, temp(17.0));
            assert_eq!(gateway.snapshot().current_temp_reported_at, reported);
        }
        for content in [text("19.5"), text("abc"), Content::Other] {
            handle_message(&users, 1, state, content, &mut gateway, now);
            assert_eq!(gateway.snapshot().current_temp, temp(17.0));
            assert_eq!(gateway.snapshot().current_temp_reported_at, reported);
        }
    }
}
