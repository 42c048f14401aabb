use unifi_dnd::error::{Error, Kind};
use unifi_dnd::models::DndState;

#[test]
fn from_str_builds_a_business_error() {
    let e = Error::from_str("no group found!");
    assert_eq!(e.kind, Kind::Business);
    assert_eq!(e.message, "no group found!");
}

#[test]
fn remote_builds_a_transport_error() {
    let e = Error::remote("connection reset".to_owned());
    assert_eq!(e.kind, Kind::Remote);
    assert_eq!(e.message, "connection reset");
}

#[test]
fn from_string_builds_a_business_error() {
    let e = Error::from("misconfigured".to_owned());
    assert_eq!(e.kind, Kind::Business);
    assert_eq!(e.message, "misconfigured");
}

#[test]
fn describe_names_the_kind_before_the_quoted_message() {
    assert_eq!(Error::from_str("boom").describe(), "Business \"boom\"");
    assert_eq!(Error::remote("boom".to_owned()).describe(), "Remote \"boom\"");
}

#[test]
fn describe_escapes_the_message_in_debug_style() {
    let message = "a\"b\\c\nd\re\tf";
    let e = Error::from_str(message);
    assert_eq!(e.describe(), "Business \"a\\\"b\\\\c\\nd\\re\\tf\"");
    // The rendering agrees with the debug formatting of the message.
    assert_eq!(e.describe(), format!("Business {:?}", message));
}

#[test]
fn dnd_state_new_stores_the_flag() {
    assert!(DndState::new(true).state);
    assert!(!DndState::new(false).state);
}
