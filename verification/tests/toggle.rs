use unifi_dnd::error::{Error, Kind};
use unifi_dnd::models::{
    Bandwidth, ClientGroupResponseData, ClientGroupsResponse, DndState, Rate,
};
use unifi_dnd::toggle::{dnd_from_read, get_state_response, rates_for, set_state_response};
use unifi_dnd::u_client::{Action, Event, ReadStep, UnifiClient, WriteStep};

fn client() -> UnifiClient {
    UnifiClient {
        url: "https://unifi:8443".to_owned(),
        user: "admin".to_owned(),
        password: "admin123".to_owned(),
        site: "default".to_owned(),
        group: "De-prio".to_owned(),
    }
}

fn on_preset() -> Bandwidth {
    Bandwidth { down: 20000, up: -1 }
}

fn off_preset() -> Bandwidth {
    Bandwidth { down: -1, up: -1 }
}

fn listing_with_rate(down: i32, up: i32) -> ClientGroupsResponse {
    ClientGroupsResponse {
        data: vec![ClientGroupResponseData {
            id: "g2".to_owned(),
            name: "De-prio".to_owned(),
            max_down: down,
            max_up: up,
            site_id: "site-1".to_owned(),
            extra: Vec::new(),
        }],
    }
}

/// Drives a read operation against a fixed controller listing.
fn run_read(c: &UnifiClient, listing: ClientGroupsResponse) -> Result<Option<Rate>, Error> {
    let s = c.read_begin();
    assert!(matches!(s, ReadStep::Pending(Action::Login(_))));
    let s = c.read_step(s, Event::LoginOk);
    assert!(matches!(s, ReadStep::Pending(Action::FetchGroups)));
    let s = c.read_step(s, Event::FetchOk(listing));
    match s {
        ReadStep::Complete(res) => res,
        ReadStep::Pending(_) => panic!("read did not complete after the fetch"),
    }
}

#[test]
fn scenario_on_rate_reads_as_on() {
    let outcome = run_read(&client(), listing_with_rate(20000, -1));
    let (code, body) = get_state_response(&outcome, &on_preset());
    assert_eq!(code, 200);
    assert_eq!(body, "{\"state\":true}");
    let state = dnd_from_read(outcome, &on_preset()).expect("read should succeed");
    assert_eq!(state, DndState { state: true });
}

#[test]
fn scenario_off_rate_reads_as_off() {
    let outcome = run_read(&client(), listing_with_rate(-1, -1));
    let (code, body) = get_state_response(&outcome, &on_preset());
    assert_eq!(code, 200);
    assert_eq!(body, "{\"state\":false}");
    let state = dnd_from_read(outcome, &on_preset()).expect("read should succeed");
    assert_eq!(state, DndState { state: false });
}

#[test]
fn third_rate_value_also_reads_as_off() {
    let outcome = run_read(&client(), listing_with_rate(512, 512));
    let state = dnd_from_read(outcome, &on_preset()).expect("read should succeed");
    assert_eq!(state, DndState { state: false });
}

#[test]
fn scenario_unreachable_controller_fails_the_write_before_any_update() {
    let c = client();
    let on = on_preset();
    let target = rates_for(true, &on, &off_preset());
    let w = c.write_begin(target.down, target.up);
    assert!(matches!(w.step, WriteStep::Pending(Action::Login(_))));
    // The very first call fails in transport: the operation completes at
    // once and the driver is never handed a fetch or an update.
    let w = c.write_step(w, Event::Failed("connection refused".to_owned()));
    let err = match w.step {
        WriteStep::Complete(Err(e)) => e,
        _ => panic!("write should have completed with an error"),
    };
    assert_eq!(err.kind, Kind::Remote);
    assert_eq!(err.message, "connection refused");
    let (code, body) = set_state_response(&Err(err));
    assert_eq!(code, 500);
    assert_eq!(body, "");
}

fn unrelated_listing() -> ClientGroupsResponse {
    ClientGroupsResponse {
        data: vec![ClientGroupResponseData {
            id: "g1".to_owned(),
            name: "Default".to_owned(),
            max_down: -1,
            max_up: -1,
            site_id: "site-1".to_owned(),
            extra: Vec::new(),
        }],
    }
}

#[test]
fn scenario_missing_group_fails_read_and_write() {
    let c = client();
    // GET /state: the read completes with no rate; the adapter answers
    // 500 with exactly the no-rate body, and the toggle service reports
    // the business error rather than guessing a state.
    let outcome = run_read(&c, unrelated_listing());
    let (code, body) = get_state_response(&outcome, &on_preset());
    assert_eq!(code, 500);
    assert_eq!(body, "No rate found");
    let err = dnd_from_read(outcome, &on_preset()).expect_err("no rate should be found");
    assert_eq!(err.kind, Kind::Business);
    assert_eq!(err.message, "No rate found");
    // POST /state: the write completes with the business error instead of
    // ever issuing the update call.
    let unrelated = unrelated_listing();
    let w = c.write_begin(20000, -1);
    let w = c.write_step(w, Event::LoginOk);
    let w = c.write_step(w, Event::FetchOk(unrelated));
    let err = match w.step {
        WriteStep::Complete(Err(e)) => e,
        _ => panic!("write should have completed with an error"),
    };
    assert_eq!(err.kind, Kind::Business);
    assert_eq!(err.message, "no group found!");
    let (code, body) = set_state_response(&Err(err));
    assert_eq!(code, 500);
    assert_eq!(body, "");
}

/// The round trip on concrete values: write the preset for the desired
/// state, let the controller apply the update, read back.
fn round_trip(desired: bool) -> DndState {
    let c = client();
    let on = on_preset();
    let off = off_preset();
    let target = rates_for(desired, &on, &off);
    let w = c.write_begin(target.down, target.up);
    let w = c.write_step(w, Event::LoginOk);
    let w = c.write_step(w, Event::FetchOk(listing_with_rate(512, 512)));
    let sent = match &w.step {
        WriteStep::Pending(Action::UpdateGroup(u)) => u.clone(),
        _ => panic!("write should have issued the update"),
    };
    let w = c.write_step(w, Event::UpdateOk);
    assert!(matches!(w.step, WriteStep::Complete(Ok(()))));
    // The controller stored the sent resource; a later read lists it.
    let outcome = run_read(&c, ClientGroupsResponse { data: vec![sent] });
    dnd_from_read(outcome, &on).expect("read should succeed")
}

#[test]
fn write_then_read_round_trips() {
    assert_eq!(round_trip(true), DndState { state: true });
    assert_eq!(round_trip(false), DndState { state: false });
}

#[test]
fn set_state_response_is_empty_on_success() {
    let (code, body) = set_state_response(&Ok(()));
    assert_eq!(code, 200);
    assert_eq!(body, "");
}

#[test]
fn transport_failure_on_read_renders_the_error_in_the_body() {
    let c = client();
    let s = c.read_begin();
    let s = c.read_step(s, Event::Failed("connection refused".to_owned()));
    let outcome = match s {
        ReadStep::Complete(res) => res,
        ReadStep::Pending(_) => panic!("read should have completed"),
    };
    let (code, body) = get_state_response(&outcome, &on_preset());
    assert_eq!(code, 500);
    assert_eq!(body, "Remote \"connection refused\"");
}
