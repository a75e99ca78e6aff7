use lowui::event::{decode_message, DecodeError, Event, Message, WireField};
use lowui::number::is_float;

fn message(event: &str, type_: &str) -> Message {
    Message {
        event: event.to_string(),
        id: "e1".to_string(),
        type_: type_.to_string(),
        name: None,
        value: None,
        checked: None,
    }
}

#[test]
fn radio_change_decodes_to_radio_checked() {
    let decoded =
        decode_message("{\"event\":\"check-changed\",\"type\":\"radio\",\"id\":\"r1\",\"name\":\"g\"}");
    assert_eq!(
        decoded,
        Ok(Event::RadioChecked { id: "r1".to_string(), group_name: "g".to_string() })
    );
}

#[test]
fn radio_change_wins_over_checked_payload() {
    let decoded = decode_message(
        "{\"event\":\"check-changed\",\"type\":\"radio\",\"id\":\"r1\",\"name\":\"g\",\"checked\":true}",
    );
    assert_eq!(
        decoded,
        Ok(Event::RadioChecked { id: "r1".to_string(), group_name: "g".to_string() })
    );
}

#[test]
fn number_that_is_no_number_is_rejected() {
    let decoded =
        decode_message("{\"event\":\"value-changed\",\"type\":\"number\",\"id\":\"n1\",\"value\":\"abc\"}");
    assert_eq!(decoded, Err(DecodeError::NotANumber));
}

#[test]
fn number_change_keeps_the_text_of_the_number() {
    let decoded = decode_message(
        "{\"event\":\"value-changed\",\"type\":\"number\",\"id\":\"n1\",\"value\":\"-12.5e3\"}",
    );
    assert_eq!(
        decoded,
        Ok(Event::NumberChanged { id: "n1".to_string(), value: "-12.5e3".to_string() })
    );
    match decoded {
        Ok(Event::NumberChanged { value, .. }) => assert_eq!(value.parse::<f64>(), Ok(-12500.0)),
        _ => panic!("not a number event"),
    }
}

#[test]
fn button_click_decodes_first() {
    let mut m = message("button-click", "radio");
    m.name = Some("g".to_string());
    m.value = Some("v".to_string());
    m.checked = Some(true);
    assert_eq!(m.decode(), Ok(Event::Click { id: "e1".to_string() }));
}

#[test]
fn radio_without_name_is_rejected() {
    let mut m = message("check-changed", "radio");
    m.checked = Some(true);
    assert_eq!(m.decode(), Err(DecodeError::Missing(WireField::Name)));
}

#[test]
fn checkbox_change_needs_checked() {
    let mut m = message("check-changed", "checkbox");
    assert_eq!(m.decode(), Err(DecodeError::Missing(WireField::Checked)));
    m.checked = Some(false);
    assert_eq!(m.decode(), Ok(Event::CheckChanged { id: "e1".to_string(), checked: false }));
    m.checked = Some(true);
    m.name = Some("g".to_string());
    assert_eq!(m.decode(), Ok(Event::CheckChanged { id: "e1".to_string(), checked: true }));
}

#[test]
fn other_changes_are_text_changes() {
    let mut m = message("value-changed", "text");
    assert_eq!(m.decode(), Err(DecodeError::Missing(WireField::Value)));
    m.value = Some("abc".to_string());
    assert_eq!(
        m.decode(),
        Ok(Event::TextChanged { id: "e1".to_string(), value: "abc".to_string() })
    );
    let mut select = message("value-changed", "select-one");
    select.value = Some("two".to_string());
    assert_eq!(
        select.decode(),
        Ok(Event::TextChanged { id: "e1".to_string(), value: "two".to_string() })
    );
    let mut unknown = message("something-else", "number");
    unknown.value = Some("7".to_string());
    assert_eq!(
        unknown.decode(),
        Ok(Event::NumberChanged { id: "e1".to_string(), value: "7".to_string() })
    );
}

#[test]
fn number_change_without_value_is_rejected() {
    let m = message("value-changed", "number");
    assert_eq!(m.decode(), Err(DecodeError::Missing(WireField::Value)));
}

#[test]
fn message_is_read_from_json() {
    let m = Message::from_json(
        "{\"event\":\"check-changed\",\"id\":\"c1\",\"type\":\"checkbox\",\"name\":\"n\",\"value\":\"on\",\"checked\":true,\"extra\":[1,2]}",
    );
    assert_eq!(
        m,
        Ok(Message {
            event: "check-changed".to_string(),
            id: "c1".to_string(),
            type_: "checkbox".to_string(),
            name: Some("n".to_string()),
            value: Some("on".to_string()),
            checked: Some(true),
        })
    );
}

#[test]
fn message_members_may_be_null_or_absent() {
    let m = Message::from_json(
        "{\"event\":\"button-click\",\"id\":\"b\",\"type\":\"submit\",\"name\":null,\"checked\":null}",
    );
    assert_eq!(
        m,
        Ok(Message {
            event: "button-click".to_string(),
            id: "b".to_string(),
            type_: "submit".to_string(),
            name: None,
            value: None,
            checked: None,
        })
    );
}

#[test]
fn message_text_is_unescaped_by_the_parser() {
    let m = Message::from_json(
        "{\"event\":\"value-changed\",\"id\":\"t\",\"type\":\"text\",\"value\":\"a\\\"b\\u0041\\n\"}",
    );
    assert_eq!(m.unwrap().value, Some("a\"bA\n".to_string()));
}

#[test]
fn malformed_json_is_rejected() {
    assert_eq!(Message::from_json(""), Err(DecodeError::Malformed));
    assert_eq!(Message::from_json("{\"event\":"), Err(DecodeError::Malformed));
    assert_eq!(Message::from_json("{\"event\":\"x\"} trailing"), Err(DecodeError::Malformed));
    assert_eq!(decode_message("not json"), Err(DecodeError::Malformed));
}

#[test]
fn missing_members_are_reported_in_order() {
    assert_eq!(Message::from_json("{}"), Err(DecodeError::Missing(WireField::Event)));
    assert_eq!(Message::from_json("[]"), Err(DecodeError::Missing(WireField::Event)));
    assert_eq!(Message::from_json("\"text\""), Err(DecodeError::Missing(WireField::Event)));
    assert_eq!(
        Message::from_json("{\"event\":\"button-click\"}"),
        Err(DecodeError::Missing(WireField::Id))
    );
    assert_eq!(
        Message::from_json("{\"event\":\"button-click\",\"id\":null}"),
        Err(DecodeError::Missing(WireField::Id))
    );
    assert_eq!(
        Message::from_json("{\"event\":\"button-click\",\"id\":\"b\"}"),
        Err(DecodeError::Missing(WireField::Type))
    );
}

#[test]
fn members_of_the_wrong_type_are_rejected() {
    assert_eq!(
        Message::from_json("{\"event\":1,\"id\":\"b\",\"type\":\"t\"}"),
        Err(DecodeError::Invalid(WireField::Event))
    );
    assert_eq!(
        Message::from_json("{\"event\":\"e\",\"id\":[],\"type\":\"t\"}"),
        Err(DecodeError::Invalid(WireField::Id))
    );
    assert_eq!(
        Message::from_json("{\"event\":\"e\",\"id\":\"b\",\"type\":true}"),
        Err(DecodeError::Invalid(WireField::Type))
    );
    assert_eq!(
        Message::from_json("{\"event\":\"e\",\"id\":\"b\",\"type\":\"t\",\"name\":5}"),
        Err(DecodeError::Invalid(WireField::Name))
    );
    assert_eq!(
        Message::from_json("{\"event\":\"e\",\"id\":\"b\",\"type\":\"t\",\"value\":5}"),
        Err(DecodeError::Invalid(WireField::Value))
    );
    assert_eq!(
        Message::from_json("{\"event\":\"e\",\"id\":\"b\",\"type\":\"t\",\"checked\":\"yes\"}"),
        Err(DecodeError::Invalid(WireField::Checked))
    );
}

#[test]
fn float_texts_are_those_that_parse() {
    let cases = [
        "0", "5", "-1", "+1", "1.5", "1.", ".5", "-.5", "+.5e-3", "1e5", "1E5", "1e+5", "1.e5",
        "12.34e-56", "inf", "-inf", "+INF", "Infinity", "-infinity", "iNfInItY", "nan", "NaN",
        "+nan", "00012", "1e0005", "", "+", "-", ".", "+.", "e5", "1e", "1e+", "1e-", "abc",
        "1.2.3", "1..2", " 1", "1 ", "1_000", "0x10", "1f", "infinit", "infinityy", "na", "nann",
        "--1", "+-1", "1e5.5", "1e5e5", "١٢٣", "1é", "i", "in", "é", ".e5", "-.e5", "1.5.",
        "123456789012345678901234567890.5", "1e999999",
    ];
    for case in cases {
        assert_eq!(is_float(case), case.parse::<f64>().is_ok(), "{:?}", case);
    }
    assert!(is_float("3.14"));
    assert!(!is_float("abc"));
}
