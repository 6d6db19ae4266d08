use rusty_driver::command::{Command, Locator, WebElement};
use rusty_driver::error::Error;
use rusty_driver::json::{decode_json, encode_json, Json, JsonNumber};
use rusty_driver::page::{
    any_submit_button, click_payload, element_from, element_json, elements_from, escape_css,
    fixup_elements, html_property, input_named, null_payload, optional_string, resolve,
    script_command, string_payload,
};

fn parse(s: &str) -> Json {
    decode_json(s.as_bytes()).expect("json")
}

#[test]
fn element_handles_follow_the_dialect_key() {
    let w3c = parse(r#"{"element-6066-11e4-a52e-4f735466cecf":"e1"}"#);
    assert_eq!(element_from(false, w3c).expect("element"), WebElement { id: "e1".to_string() });
    let legacy = parse(r#"{"ELEMENT":"e2"}"#);
    assert_eq!(element_from(true, legacy).expect("element").id, "e2");
    let wrong = parse(r#"{"ELEMENT":"e2"}"#);
    assert!(matches!(element_from(false, wrong), Err(Error::MalformedResponse(Some(Json::Object(_))))));
    let not_string = parse(r#"{"ELEMENT":3}"#);
    assert!(matches!(element_from(true, not_string), Err(Error::MalformedResponse(Some(_)))));
}

#[test]
fn element_lists() {
    let list = parse(r#"[{"ELEMENT":"a"},{"ELEMENT":"b"}]"#);
    let v = elements_from(true, list).expect("elements");
    assert_eq!(v.iter().map(|e| e.id.as_str()).collect::<Vec<_>>(), vec!["a", "b"]);
    let bad = parse(r#"[{"ELEMENT":"a"},{"x":1},{"y":2}]"#);
    match elements_from(true, bad) {
        Err(Error::MalformedResponse(Some(Json::Object(f)))) => assert_eq!(f[0].0, "x"),
        other => panic!("{:?}", other),
    }
    assert!(matches!(elements_from(true, Json::Null), Err(Error::MalformedResponse(Some(Json::Null)))));
    assert!(elements_from(false, Json::Array(vec![])).expect("empty").is_empty());
}

#[test]
fn legacy_arguments_rename_element_keys() {
    let e = element_json(WebElement { id: "e9".to_string() });
    assert_eq!(encode_json(&e), r#"{"element-6066-11e4-a52e-4f735466cecf":"e9"}"#);
    let mut args = vec![e, Json::Str("v".to_string()), parse(r#"{"a":1}"#)];
    fixup_elements(true, &mut args);
    assert_eq!(encode_json(&args[0]), r#"{"ELEMENT":"e9"}"#);
    assert_eq!(encode_json(&args[1]), r#""v""#);
    assert_eq!(encode_json(&args[2]), r#"{"a":1}"#);
    let mut w3c = vec![element_json(WebElement { id: "e9".to_string() })];
    fixup_elements(false, &mut w3c);
    assert_eq!(encode_json(&w3c[0]), r#"{"element-6066-11e4-a52e-4f735466cecf":"e9"}"#);
}

#[test]
fn script_commands_carry_fixed_arguments() {
    let args = vec![element_json(WebElement { id: "q".to_string() })];
    match script_command(true, "go()".to_string(), args) {
        Command::ExecuteScript(s, a) => {
            assert_eq!(s, "go()");
            assert_eq!(encode_json(&a[0]), r#"{"ELEMENT":"q"}"#);
        }
        other => panic!("{:?}", other),
    }
}

#[test]
fn payload_shapes() {
    assert_eq!(optional_string(Json::Str("x".to_string())).expect("ok"), Some("x".to_string()));
    assert_eq!(optional_string(Json::Null).expect("ok"), None);
    assert!(optional_string(Json::Bool(true)).is_err());
    assert_eq!(string_payload(Json::Str("t".to_string())).expect("ok"), "t");
    assert!(string_payload(Json::Null).is_err());
    assert!(click_payload(Json::Null).is_ok());
    assert!(click_payload(Json::Object(vec![])).is_ok());
    assert!(click_payload(parse(r#"{"a":1}"#)).is_err());
    assert!(click_payload(Json::Number(JsonNumber::Unsigned(0))).is_err());
    assert!(null_payload(Json::Null).is_ok());
    assert!(null_payload(Json::Object(vec![])).is_err());
}

#[test]
fn locators_for_forms() {
    assert_eq!(input_named("q"), Locator::Css("input[name='q']".to_string()));
    assert_eq!(any_submit_button(), Locator::Css("input[type=submit],button[type=submit]".to_string()));
    assert_eq!(escape_css(r#"a"b\c"#), r#"a\"b\\c"#);
    assert_eq!(
        rusty_driver::page::submit_button_labelled(r#"Go "now""#),
        Locator::Css(
            r#"input[type=submit][value="Go \"now\"" i],button[type=submit][value="Go \"now\"" i]"#
                .to_string()
        )
    );
    assert_eq!(html_property(true), "innerHTML");
    assert_eq!(html_property(false), "outerHTML");
}

#[test]
fn references_resolve_against_the_page() {
    assert_eq!(resolve("https://en.wikipedia.org/wiki/Foobar", "Foo_Lake").expect("url"), "https://en.wikipedia.org/wiki/Foo_Lake");
    assert_eq!(resolve("https://a.org/x/y", "/z").expect("url"), "https://a.org/z");
    assert!(matches!(resolve("nowhere", "/z"), Err(Error::BadUrl)));
}

#[test]
fn json_round_trip_through_serde() {
    let j = parse(r#"{"b":[1,-2,2.5,"s",null,false],"a":{}}"#);
    assert_eq!(encode_json(&j), r#"{"a":{},"b":[1,-2,2.5,"s",null,false]}"#);
    match &j {
        Json::Object(f) => match &f[1].1 {
            Json::Array(v) => {
                assert!(matches!(v[0], Json::Number(JsonNumber::Unsigned(1))));
                assert!(matches!(v[1], Json::Number(JsonNumber::Negative(-2))));
                assert!(matches!(&v[2], Json::Number(JsonNumber::Decimal(t)) if t == "2.5"));
            }
            other => panic!("{:?}", other),
        },
        other => panic!("{:?}", other),
    }
    assert!(decode_json(b"{").is_none());
}

#[test]
fn first_member_with_a_key_wins() {
    let obj = Json::Object(vec![
        ("ELEMENT".to_string(), Json::Str("first".to_string())),
        ("ELEMENT".to_string(), Json::Str("second".to_string())),
    ]);
    assert_eq!(element_from(true, obj).expect("element").id, "first");
    let obj = Json::Object(vec![
        ("ELEMENT".to_string(), Json::Null),
        ("ELEMENT".to_string(), Json::Str("second".to_string())),
    ]);
    assert!(element_from(true, obj).is_err());
}
