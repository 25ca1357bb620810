use plaid::json::{
    array_string, bool_string, borrowed, decimal_string, join, member_string, number_string,
    object_string, Json, Member, Members,
};

fn strings(parts: &[&str]) -> Vec<String> {
    parts.iter().map(|part| part.to_string()).collect()
}

#[test]
fn decimal_string_writes_digits_without_leading_zeros() {
    assert_eq!(decimal_string(0), "0");
    assert_eq!(decimal_string(7), "7");
    assert_eq!(decimal_string(10), "10");
    assert_eq!(decimal_string(50), "50");
    assert_eq!(decimal_string(1234567890), "1234567890");
    assert_eq!(decimal_string(u64::MAX), "18446744073709551615");
}

#[test]
fn decimal_string_agrees_with_serde_json() {
    for n in [0u64, 1, 9, 10, 11, 99, 100, 101, 65535, 4294967295, u64::MAX - 1, u64::MAX] {
        assert_eq!(decimal_string(n), serde_json::to_string(&n).unwrap());
    }
}

#[test]
fn number_string_writes_the_sign_of_negative_numbers() {
    assert_eq!(number_string(0), "0");
    assert_eq!(number_string(-1), "-1");
    assert_eq!(number_string(-70), "-70");
    assert_eq!(number_string(i64::MAX), "9223372036854775807");
    assert_eq!(number_string(i64::MIN), "-9223372036854775808");
}

#[test]
fn number_string_agrees_with_serde_json() {
    for n in [0i64, 1, -1, 9, -9, 10, -10, 500, -500, i64::MAX, i64::MIN, i64::MIN + 1] {
        assert_eq!(number_string(n), serde_json::to_string(&n).unwrap());
    }
}

#[test]
fn bool_string_writes_true_and_false() {
    assert_eq!(bool_string(true), "true");
    assert_eq!(bool_string(false), "false");
    assert_eq!(bool_string(true), serde_json::to_string(&true).unwrap());
    assert_eq!(bool_string(false), serde_json::to_string(&false).unwrap());
}

#[test]
fn join_puts_commas_between_parts_only() {
    assert_eq!(join(&strings(&[])), "");
    assert_eq!(join(&strings(&["a"])), "a");
    assert_eq!(join(&strings(&["a", "b"])), "a,b");
    assert_eq!(join(&strings(&["a", "", "c"])), "a,,c");
}

#[test]
fn array_and_object_strings_frame_their_parts() {
    assert_eq!(array_string(&strings(&[])), "[]");
    assert_eq!(array_string(&strings(&["1", "2"])), "[1,2]");
    assert_eq!(object_string(&strings(&[])), "{}");
    assert_eq!(object_string(&strings(&["\"a\":1", "\"b\":2"])), "{\"a\":1,\"b\":2}");
}

#[test]
fn member_string_puts_a_colon_between_name_and_value() {
    assert_eq!(member_string("\"count\"".to_string(), "50"), "\"count\":50");
}

#[test]
fn borrowed_keeps_every_string_in_its_place() {
    let owned = strings(&["one", "", "three"]);
    assert_eq!(borrowed(&owned), vec!["one", "", "three"]);
    assert_eq!(borrowed(&Vec::new()), Vec::<&str>::new());
}

#[test]
fn render_writes_scalars() {
    assert_eq!(Json::Bool(true).render().unwrap(), "true");
    assert_eq!(Json::Number(-12).render().unwrap(), "-12");
    assert_eq!(Json::Text("plain").render().unwrap(), "\"plain\"");
    assert_eq!(Json::Text("").render().unwrap(), "\"\"");
}

#[test]
fn render_escapes_strings_as_serde_json_does() {
    for text in ["", "plain", "quote\"inside", "back\\slash", "line\nbreak", "tab\there", "\u{1}", "caf\u{e9} \u{1F600}"] {
        assert_eq!(Json::Text(text).render().unwrap(), serde_json::to_string(text).unwrap());
    }
    assert_eq!(Json::Text("quote\"inside").render().unwrap(), "\"quote\\\"inside\"");
    assert_eq!(Json::Text("line\nbreak").render().unwrap(), "\"line\\nbreak\"");
    assert_eq!(Json::Text("\u{1}").render().unwrap(), "\"\\u0001\"");
}

#[test]
fn render_writes_arrays_of_strings() {
    assert_eq!(Json::Texts(vec![]).render().unwrap(), "[]");
    assert_eq!(Json::Texts(vec!["a"]).render().unwrap(), "[\"a\"]");
    assert_eq!(Json::Texts(vec!["a", "b\"c"]).render().unwrap(), "[\"a\",\"b\\\"c\"]");
    let items = vec!["auth", "identity"];
    assert_eq!(Json::Texts(items.clone()).render().unwrap(), serde_json::to_string(&items).unwrap());
}

#[test]
fn render_writes_objects_in_the_order_of_their_members() {
    let inner = Json::object(vec![Member::flag("deep", false)]);
    let object = Json::object(vec![
        Member::text("zeta", "last letter first"),
        Member::number("alpha", 1),
        Member::texts("list", vec!["x", "y"]),
        Member::new("inner", inner),
    ]);
    assert_eq!(
        object.render().unwrap(),
        "{\"zeta\":\"last letter first\",\"alpha\":1,\"list\":[\"x\",\"y\"],\"inner\":{\"deep\":false}}"
    );
    assert_eq!(Json::object(vec![]).render().unwrap(), "{}");
}

#[test]
fn render_escapes_member_names() {
    let object = Json::object(vec![Member::number("a\"b", 1)]);
    assert_eq!(object.render().unwrap(), "{\"a\\\"b\":1}");
}

#[test]
fn rendered_objects_parse_back_to_the_same_values() {
    let object = Json::object(vec![
        Member::text("name", "va\"lue"),
        Member::number("count", -3),
        Member::flag("flag", true),
        Member::texts("items", vec!["a", "b"]),
        Member::new("nested", Json::object(vec![Member::text("k", "v")])),
    ]);
    let parsed: serde_json::Value = serde_json::from_str(&object.render().unwrap()).unwrap();
    assert_eq!(parsed["name"].as_str(), Some("va\"lue"));
    assert_eq!(parsed["count"].as_i64(), Some(-3));
    assert_eq!(parsed["flag"].as_bool(), Some(true));
    assert_eq!(parsed["items"].as_array().unwrap().len(), 2);
    assert_eq!(parsed["items"][1].as_str(), Some("b"));
    assert_eq!(parsed["nested"]["k"].as_str(), Some("v"));
    assert_eq!(parsed.as_object().unwrap().len(), 5);
}

#[test]
fn members_leave_out_what_is_unset() {
    let mut members = Members::new();
    members.optional_texts("account_ids", None);
    members.optional_number("count", Some(5));
    members.optional_flag("verbose", None);
    members.optional("options", None);
    members.optional_number("offset", None);
    let text = members.into_json().render().unwrap();
    assert_eq!(text, "{\"count\":5}");
    assert!(!text.contains("null"));
}

#[test]
fn members_keep_what_is_set_in_the_order_of_the_calls() {
    let mut members = Members::new();
    members.text("first", "1");
    members.optional_flag("second", Some(true));
    members.optional_texts("third", Some(vec!["x"]));
    members.optional("fourth", Some(Json::Number(4)));
    members.number("fifth", 5);
    members.texts("sixth", vec![]);
    members.push(Member::flag("seventh", false));
    assert_eq!(
        members.into_json().render().unwrap(),
        "{\"first\":\"1\",\"second\":true,\"third\":[\"x\"],\"fourth\":4,\"fifth\":5,\"sixth\":[],\"seventh\":false}"
    );
}

#[test]
fn render_succeeds_on_strings_of_every_kind() {
    let long = "x".repeat(100_000);
    for text in ["", "\u{0}", "\u{7f}", "\"\\/", "\u{2028}\u{ffff}", long.as_str()] {
        let rendered = Json::object(vec![Member::text(text, text)]).render();
        assert!(rendered.is_ok());
        let parsed: serde_json::Value = serde_json::from_str(&rendered.unwrap()).unwrap();
        assert_eq!(parsed[text].as_str(), Some(text));
    }
}

#[test]
fn render_frames_objects_and_arrays_as_serde_json_does() {
    let mut inner = serde_json::Map::new();
    inner.insert("flag".to_string(), serde_json::Value::Bool(true));
    inner.insert("nothing".to_string(), serde_json::Value::Array(vec![]));
    let mut outer = serde_json::Map::new();
    outer.insert("a_text".to_string(), serde_json::Value::String("x\"y\n".to_string()));
    outer.insert("b_number".to_string(), serde_json::Value::from(-5i64));
    outer.insert(
        "c_list".to_string(),
        serde_json::Value::Array(vec![
            serde_json::Value::String("p".to_string()),
            serde_json::Value::String("q".to_string()),
        ]),
    );
    outer.insert("d_object".to_string(), serde_json::Value::Object(inner));
    outer.insert("e_empty".to_string(), serde_json::Value::Object(serde_json::Map::new()));
    let theirs = serde_json::to_string(&serde_json::Value::Object(outer)).unwrap();

    let ours = Json::object(vec![
        Member::text("a_text", "x\"y\n"),
        Member::number("b_number", -5),
        Member::texts("c_list", vec!["p", "q"]),
        Member::new(
            "d_object",
            Json::object(vec![Member::flag("flag", true), Member::texts("nothing", vec![])]),
        ),
        Member::new("e_empty", Json::object(vec![])),
    ])
    .render()
    .unwrap();
    assert_eq!(ours, theirs);
}
