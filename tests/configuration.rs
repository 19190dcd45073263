use valkey_module::configuration::{
    enum_config_number, find_config_value, get_bool_default_config_value,
    get_enum_default_config_value, get_i64_default_config_value,
    get_string_default_config_value, module_config_get_args, module_config_set_args, parse_i64,
    EnumConfigurationValue,
};
use valkey_module::error::ValkeyError;
use valkey_module::valkey_string::ValkeyString;

fn args(items: &[&str]) -> Vec<ValkeyString> {
    items.iter().map(|s| ValkeyString::create(s)).collect()
}

#[test]
fn find_value_after_name() {
    let a = args(&["x", "1", "name", "value", "name", "other"]);
    assert_eq!(find_config_value(&a, "name").unwrap().as_slice(), b"value");
    assert!(find_config_value(&a, "missing").is_none());
    let b = args(&["x", "name"]);
    assert!(find_config_value(&b, "name").is_none());
}

#[test]
fn i64_values() {
    let a = args(&["n", "123", "m", "-45", "p", "+7", "bad", "12a", "big", "9223372036854775808", "min", "-9223372036854775808", "sign", "-"]);
    assert_eq!(get_i64_default_config_value(&a, "n", 5), Ok(123));
    assert_eq!(get_i64_default_config_value(&a, "m", 5), Ok(-45));
    assert_eq!(get_i64_default_config_value(&a, "p", 5), Ok(7));
    assert_eq!(get_i64_default_config_value(&a, "missing", 5), Ok(5));
    assert!(get_i64_default_config_value(&a, "bad", 5).is_err());
    assert!(get_i64_default_config_value(&a, "big", 5).is_err());
    assert_eq!(get_i64_default_config_value(&a, "min", 5), Ok(i64::MIN));
    assert!(get_i64_default_config_value(&a, "sign", 5).is_err());
}

#[test]
fn parse_i64_matches_std() {
    for s in ["0", "-0", "+0", "42", "-42", "9223372036854775807", "9223372036854775808",
              "-9223372036854775809", "", "+", "-", " 1", "1 ", "1_0", "00012", "99999999999999999999999"] {
        assert_eq!(parse_i64(s.as_bytes()), s.parse::<i64>().ok(), "input {:?}", s);
    }
}

#[test]
fn invalid_utf8_integer_is_an_error() {
    let a = vec![ValkeyString::create("n"), ValkeyString::from_bytes(vec![0xff, 0x31])];
    assert!(get_i64_default_config_value(&a, "n", 1).is_err());
}

#[test]
fn string_values() {
    let a = vec![
        ValkeyString::create("s"),
        ValkeyString::create("hello"),
        ValkeyString::create("raw"),
        ValkeyString::from_bytes(vec![0xc3, 0x28]),
    ];
    assert_eq!(get_string_default_config_value(&a, "s", "d"), Ok("hello"));
    assert_eq!(get_string_default_config_value(&a, "t", "d"), Ok("d"));
    assert!(get_string_default_config_value(&a, "raw", "d").is_err());
}

#[test]
fn bool_values() {
    let a = args(&["on", "yes", "off", "no", "odd", "YES"]);
    assert_eq!(get_bool_default_config_value(&a, "on", false), Ok(true));
    assert_eq!(get_bool_default_config_value(&a, "off", true), Ok(false));
    assert_eq!(get_bool_default_config_value(&a, "odd", true), Ok(false));
    assert_eq!(get_bool_default_config_value(&a, "none", true), Ok(true));
}

#[derive(Debug, PartialEq, Clone)]
enum Level {
    Low,
    High,
}

impl EnumConfigurationValue for Level {
    fn get_options(&self) -> (Vec<String>, Vec<i32>) {
        (vec!["Low".to_string(), "High".to_string()], vec![1, 2])
    }

    fn try_from_value(v: i32) -> Result<Self, ValkeyError> {
        match v {
            1 => Ok(Level::Low),
            2 => Ok(Level::High),
            _ => Err(ValkeyError::Str("Value is not supported")),
        }
    }
}

#[test]
fn enum_values() {
    let a = args(&["level", "High", "other", "Medium"]);
    assert_eq!(get_enum_default_config_value(&a, "level", Level::Low), Ok(Level::High));
    assert_eq!(get_enum_default_config_value(&a, "absent", Level::Low), Ok(Level::Low));
    assert_eq!(
        get_enum_default_config_value(&a, "other", Level::Low),
        Err(ValkeyError::String("Enum 'Medium' not exists".to_string()))
    );
}

#[test]
fn enum_numbers() {
    let names = vec!["a".to_string(), "b".to_string()];
    assert_eq!(enum_config_number(&names, &vec![10, 20], &ValkeyString::create("b")), Ok(20));
    assert!(enum_config_number(&names, &vec![10], &ValkeyString::create("b")).is_err());
    assert!(enum_config_number(&names, &vec![10, 20], &ValkeyString::create("c")).is_err());
}

#[test]
fn module_config_arguments() {
    let a = args(&["mod.config", "i64", "string"]);
    assert_eq!(module_config_get_args(&a, "mod"), vec!["get", "mod.i64", "mod.string"]);
    let b = vec![
        ValkeyString::create("mod.set"),
        ValkeyString::create("bool"),
        ValkeyString::create("yes"),
        ValkeyString::from_bytes(vec![b'x', 0xff]),
        ValkeyString::from_bytes(vec![0xfe]),
    ];
    assert_eq!(
        module_config_set_args(&b, "mod"),
        vec!["set", "mod.bool", "yes", "mod.x\u{fffd}", "\u{fffd}"]
    );
    assert_eq!(module_config_get_args(&vec![], "mod"), vec!["get"]);
}
