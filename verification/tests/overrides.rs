use invoicy::overrides::{apply, parse_array_access, parse_value_auto, parse_value_with_hint, ValueType};
use invoicy::value::ConfigValue;

fn s(x: &str) -> String {
    x.to_string()
}

fn table(entries: Vec<(&str, ConfigValue)>) -> ConfigValue {
    ConfigValue::Table(entries.into_iter().map(|(k, v)| (s(k), v)).collect())
}

/// A sample configuration, written value by value:
///
/// name = "test", count = 42, price = 9.99, enabled = true,
/// [nested] value = "inner",
/// [[items]] desc = "first", qty = 1, [[items]] desc = "second", qty = 2
fn sample_config() -> ConfigValue {
    table(vec![
        ("name", ConfigValue::String(s("test"))),
        ("count", ConfigValue::Integer(42)),
        ("price", ConfigValue::Float(s("9.99"))),
        ("enabled", ConfigValue::Boolean(true)),
        ("nested", table(vec![("value", ConfigValue::String(s("inner")))])),
        (
            "items",
            ConfigValue::Array(vec![
                table(vec![("desc", ConfigValue::String(s("first"))), ("qty", ConfigValue::Integer(1))]),
                table(vec![("desc", ConfigValue::String(s("second"))), ("qty", ConfigValue::Integer(2))]),
            ]),
        ),
    ])
}

fn float_of(v: &ConfigValue) -> f64 {
    match v {
        ConfigValue::Float(t) => t.parse::<f64>().unwrap(),
        other => panic!("not a float: {:?}", other),
    }
}

#[test]
fn parse_value_auto_boolean() {
    assert_eq!(parse_value_auto("true"), ConfigValue::Boolean(true));
    assert_eq!(parse_value_auto("false"), ConfigValue::Boolean(false));
}

#[test]
fn parse_value_auto_integer() {
    assert_eq!(parse_value_auto("42"), ConfigValue::Integer(42));
    assert_eq!(parse_value_auto("-10"), ConfigValue::Integer(-10));
    assert_eq!(parse_value_auto("0"), ConfigValue::Integer(0));
}

#[test]
fn parse_value_auto_float() {
    assert_eq!(float_of(&parse_value_auto("3.14")), 3.14);
    assert_eq!(float_of(&parse_value_auto("-2.5")), -2.5);
}

#[test]
fn parse_value_auto_string() {
    assert_eq!(parse_value_auto("hello"), ConfigValue::String("hello".into()));
    assert_eq!(parse_value_auto(""), ConfigValue::String("".into()));
}

#[test]
fn parse_value_auto_leading_zeros_stay_string() {
    assert_eq!(parse_value_auto("00123"), ConfigValue::String("00123".into()));
    assert_eq!(parse_value_auto("007"), ConfigValue::String("007".into()));
}

#[test]
fn parse_array_access_valid() {
    assert_eq!(parse_array_access("items[0]"), Some(("items", "0")));
    assert_eq!(parse_array_access("arr[123]"), Some(("arr", "123")));
}

#[test]
fn parse_array_access_invalid() {
    assert_eq!(parse_array_access("items"), None);
    assert_eq!(parse_array_access("items[]"), None);
    assert_eq!(parse_array_access("items["), None);
}

#[test]
fn apply_simple_string() {
    let mut config = sample_config();
    apply(&mut config, "name=updated").unwrap();
    assert_eq!(config.get("name").unwrap().as_str().unwrap(), "updated");
}

#[test]
fn apply_string_field_with_number_value() {
    let mut config = sample_config();
    // name is a string field, so 123 should stay as string
    apply(&mut config, "name=123").unwrap();
    assert_eq!(config.get("name").unwrap().as_str().unwrap(), "123");
}

#[test]
fn apply_integer_field() {
    let mut config = sample_config();
    apply(&mut config, "count=100").unwrap();
    assert_eq!(config.get("count").unwrap().as_integer().unwrap(), 100);
}

#[test]
fn apply_float_field() {
    let mut config = sample_config();
    apply(&mut config, "price=19.99").unwrap();
    let text = config.get("price").unwrap().as_float().unwrap();
    assert_eq!(text.parse::<f64>().unwrap(), 19.99);
}

#[test]
fn apply_boolean_field() {
    let mut config = sample_config();
    apply(&mut config, "enabled=false").unwrap();
    assert_eq!(config.get("enabled").unwrap().as_bool().unwrap(), false);
}

#[test]
fn apply_nested_value() {
    let mut config = sample_config();
    apply(&mut config, "nested.value=changed").unwrap();
    assert_eq!(
        config.get("nested").unwrap().get("value").unwrap().as_str().unwrap(),
        "changed"
    );
}

#[test]
fn apply_array_element() {
    let mut config = sample_config();
    apply(&mut config, "items[0].desc=modified").unwrap();
    assert_eq!(
        config.get("items").unwrap().as_array().unwrap()[0]
            .get("desc")
            .unwrap()
            .as_str()
            .unwrap(),
        "modified"
    );
}

#[test]
fn apply_array_element_integer() {
    let mut config = sample_config();
    apply(&mut config, "items[1].qty=99").unwrap();
    assert_eq!(
        config.get("items").unwrap().as_array().unwrap()[1]
            .get("qty")
            .unwrap()
            .as_integer()
            .unwrap(),
        99
    );
}

#[test]
fn apply_invalid_format() {
    let mut config = sample_config();
    let result = apply(&mut config, "invalid");
    assert!(result.is_err());
    assert!(result.unwrap_err().contains("Invalid override format"));
}

#[test]
fn apply_missing_key() {
    let mut config = sample_config();
    let result = apply(&mut config, "nonexistent.field=value");
    assert!(result.is_err());
}

// ---------------------------------------------------------------------------
// Further cases
// ---------------------------------------------------------------------------

#[test]
fn apply_then_read_back_new_key() {
    // A value written at a path is what the path reads afterwards, also for
    // a key that did not exist in an existing table.
    let mut config = sample_config();
    apply(&mut config, "nested.extra=42").unwrap();
    assert_eq!(config.get("nested").unwrap().get("extra").unwrap().as_integer().unwrap(), 42);
    assert_eq!(config.get("nested").unwrap().get("value").unwrap().as_str().unwrap(), "inner");
}

#[test]
fn apply_value_may_hold_equals_sign() {
    let mut config = sample_config();
    apply(&mut config, "name=a=b").unwrap();
    assert_eq!(config.get("name").unwrap().as_str().unwrap(), "a=b");
}

#[test]
fn apply_float_field_with_integer_text_stays_float() {
    let mut config = sample_config();
    apply(&mut config, "price=20").unwrap();
    assert_eq!(float_of(config.get("price").unwrap()), 20.0);
}

#[test]
fn apply_integer_field_with_bad_text_becomes_string() {
    let mut config = sample_config();
    apply(&mut config, "count=many").unwrap();
    assert_eq!(config.get("count").unwrap().as_str().unwrap(), "many");
}

#[test]
fn apply_index_past_the_end_grows_the_array() {
    let mut config = sample_config();
    apply(&mut config, "items[3].qty=1").unwrap();
    let items = config.get("items").unwrap().as_array().unwrap();
    assert_eq!(items.len(), 4);
    assert_eq!(items[2], ConfigValue::Table(vec![]));
    assert_eq!(items[3].get("qty").unwrap().as_integer().unwrap(), 1);
}

#[test]
fn apply_bad_index_is_refused() {
    let mut config = sample_config();
    let result = apply(&mut config, "items[x].qty=1");
    assert_eq!(result, Err("Invalid array index: x".to_string()));
}

#[test]
fn apply_new_top_level_key() {
    let mut config = sample_config();
    apply(&mut config, "fresh=true").unwrap();
    assert_eq!(config.get("fresh").unwrap().as_bool().unwrap(), true);
}

#[test]
fn parse_value_with_hint_follows_the_hint() {
    assert_eq!(parse_value_with_hint("7", ValueType::String), ConfigValue::String(s("7")));
    assert_eq!(parse_value_with_hint("7", ValueType::Integer), ConfigValue::Integer(7));
    assert_eq!(float_of(&parse_value_with_hint("7", ValueType::Float)), 7.0);
    assert_eq!(parse_value_with_hint("yes", ValueType::Boolean), ConfigValue::String(s("yes")));
    assert_eq!(parse_value_with_hint("true", ValueType::Boolean), ConfigValue::Boolean(true));
}

#[test]
fn parse_value_auto_signed_and_exponent() {
    assert_eq!(parse_value_auto("+5"), ConfigValue::Integer(5));
    assert_eq!(float_of(&parse_value_auto("1e3")), 1000.0);
    assert_eq!(parse_value_auto("-0"), ConfigValue::Integer(0));
}
