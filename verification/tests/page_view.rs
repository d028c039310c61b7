use ui_state::json::{data_representation, text_or_fallback};
use ui_state::store::{Config, Item};
use ui_state::view::{render_input, render_page, render_rows};

fn item(key: &str, value: &str) -> Item {
    Item::new(key.to_string(), value.to_string())
}

#[test]
fn replaced_collection_shows_one_input_with_the_new_value() {
    let mut config = Config::new(vec![item("my-key", "initial")]);
    assert!(config.replace(vec![item("my-key", "new_value")]));
    let rows = render_rows(&config);
    assert_eq!(rows.len(), 1);
    assert_eq!(rows[0].label, "my-key");
    assert_eq!(rows[0].input.text, "new_value");
    assert!(!rows[0].input.empty);
}

#[test]
fn removed_only_row_shows_no_rows() {
    let mut config = Config::new(vec![item("my-key", "initial")]);
    config.remove(0);
    assert!(render_rows(&config).is_empty());
}

#[test]
fn rows_follow_the_collection_in_order() {
    let config = Config::new(vec![item("a", "1"), item("b", ""), item("c", "3")]);
    let rows = render_rows(&config);
    let shown: Vec<(&str, &str, bool)> =
        rows.iter().map(|r| (r.label.as_str(), r.input.text.as_str(), r.input.empty)).collect();
    assert_eq!(shown, vec![("a", "1", false), ("b", "", true), ("c", "3", false)]);
}

#[test]
fn input_indicator_follows_each_keystroke() {
    assert!(render_input("").empty);
    assert!(!render_input("a").empty);
    assert!(!render_input(" ").empty);
    assert_eq!(render_input("abc").text, "abc");

    let mut config = Config::new(vec![item("my-key", "initial"), item("other", "x")]);
    config.set_value("my-key", String::new());
    let rows = render_rows(&config);
    assert!(rows[0].input.empty);
    assert_eq!(rows[0].label, "my-key");
    assert_eq!((rows[1].label.as_str(), rows[1].input.text.as_str()), ("other", "x"));
    assert!(!rows[1].input.empty);
    config.set_value("my-key", "n".to_string());
    let rows = render_rows(&config);
    assert!(!rows[0].input.empty);
    assert_eq!(rows[0].input.text, "n");
}

#[test]
fn data_pane_holds_pretty_json() {
    let config = Config::new(vec![item("my-key", "initial")]);
    assert_eq!(
        data_representation(&config),
        "{\n  \"schema\": [\n    {\n      \"key\": \"my-key\",\n      \"value\": \"initial\"\n    }\n  ]\n}"
    );
}

#[test]
fn data_pane_of_an_empty_collection() {
    let config = Config::new(Vec::new());
    assert_eq!(data_representation(&config), "{\n  \"schema\": []\n}");
}

#[test]
fn data_pane_escapes_and_keeps_order() {
    let config = Config::new(vec![item("b", "say \"hi\"\n"), item("a", "")]);
    assert_eq!(
        data_representation(&config),
        "{\n  \"schema\": [\n    {\n      \"key\": \"b\",\n      \"value\": \"say \\\"hi\\\"\\n\"\n    },\n    {\n      \"key\": \"a\",\n      \"value\": \"\"\n    }\n  ]\n}"
    );
}

#[test]
fn data_pane_agrees_with_the_serialiser_on_the_same_value() {
    let config = Config::new(vec![item("my-key", "new_value")]);
    let mut row = serde_json::Map::new();
    row.insert("key".to_string(), serde_json::Value::String("my-key".to_string()));
    row.insert("value".to_string(), serde_json::Value::String("new_value".to_string()));
    let mut root = serde_json::Map::new();
    root.insert(
        "schema".to_string(),
        serde_json::Value::Array(vec![serde_json::Value::Object(row)]),
    );
    let expected = serde_json::to_string_pretty(&serde_json::Value::Object(root)).unwrap();
    assert_eq!(data_representation(&config), expected);
    let parsed: serde_json::Value = serde_json::from_str(&data_representation(&config)).unwrap();
    assert_eq!(parsed["schema"][0]["value"], "new_value");
}

#[test]
fn fallback_text_where_nothing_was_serialised() {
    assert_eq!(text_or_fallback(None), "Error generating a json");
    assert_eq!(text_or_fallback(Some("{}".to_string())), "{}");
    assert_eq!(text_or_fallback(Some(String::new())), "");
}

#[test]
fn page_holds_rows_and_data() {
    let mut config = Config::new(vec![item("my-key", "initial")]);
    let page = render_page(&config);
    assert_eq!(page.rows.len(), 1);
    assert_eq!(page.rows[0].input.text, "initial");
    assert_eq!(page.data, data_representation(&config));
    config.clear();
    let page = render_page(&config);
    assert!(page.rows.is_empty());
    assert_eq!(page.data, "{\n  \"schema\": []\n}");
}
