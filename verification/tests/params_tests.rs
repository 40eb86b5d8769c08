use render_host::error::Error;
use render_host::params::{vsync_request, vsync_setting, Parameters, VSYNC};

fn with(entries: &[(&str, &str)]) -> Parameters {
    let mut parameters = Parameters::new();
    for (key, value) in entries {
        parameters.insert(key, value);
    }
    parameters
}

#[test]
fn empty_parameters_have_no_values() {
    let parameters = Parameters::new();
    assert_eq!(parameters.get("vsync"), None);
    assert_eq!(parameters.get(""), None);
}

#[test]
fn insert_then_get() {
    let parameters = with(&[("vsync", "false"), ("title", "demo")]);
    assert_eq!(parameters.get("vsync"), Some("false".to_string()));
    assert_eq!(parameters.get("title"), Some("demo".to_string()));
    assert_eq!(parameters.get("Vsync"), None);
    assert_eq!(parameters.get("vsyn"), None);
}

#[test]
fn insert_replaces_the_value() {
    let parameters = with(&[("vsync", "false"), ("other", "1"), ("vsync", "true")]);
    assert_eq!(parameters.get("vsync"), Some("true".to_string()));
    assert_eq!(parameters.get("other"), Some("1".to_string()));
}

#[test]
fn merge_prefers_the_overrides_and_keeps_the_rest() {
    let mut parameters = with(&[("vsync", "true"), ("title", "demo")]);
    parameters.merge(&with(&[("vsync", "false"), ("depth", "24")]));
    assert_eq!(parameters.get("vsync"), Some("false".to_string()));
    assert_eq!(parameters.get("title"), Some("demo".to_string()));
    assert_eq!(parameters.get("depth"), Some("24".to_string()));
    assert_eq!(parameters.get("none"), None);
}

#[test]
fn merge_with_nothing_changes_nothing() {
    let mut parameters = with(&[("vsync", "true")]);
    parameters.merge(&Parameters::new());
    assert_eq!(parameters.get("vsync"), Some("true".to_string()));
    let mut empty = Parameters::new();
    empty.merge(&Parameters::new());
    assert_eq!(empty.get("vsync"), None);
}

#[test]
fn vsync_is_on_by_default() {
    assert_eq!(vsync_setting(&Parameters::new()), Ok(true));
    assert_eq!(vsync_setting(&with(&[("other", "false")])), Ok(true));
}

#[test]
fn vsync_false_switches_it_off() {
    assert_eq!(VSYNC, "vsync");
    assert_eq!(vsync_setting(&with(&[("vsync", "false")])), Ok(false));
    assert_eq!(vsync_setting(&with(&[("vsync", "true")])), Ok(true));
}

#[test]
fn malformed_vsync_is_an_error() {
    for value in ["", "yes", "0", "1", "True", "FALSE", " true", "false ", "truefalse"] {
        assert_eq!(
            vsync_setting(&with(&[("vsync", value)])),
            Err(Error::new("provided string was not `true` or `false`"))
        );
    }
}

#[test]
fn vsync_setting_agrees_with_the_standard_parser() {
    for value in ["true", "false", "", "t", "tru", "truee", "fals", "falsee", "no"] {
        let expected = value.parse::<bool>().ok();
        assert_eq!(vsync_setting(&with(&[("vsync", value)])).ok(), expected);
    }
}

#[test]
fn unrecognized_parameters_are_ignored() {
    let parameters = with(&[("colour", "maybe"), ("vsync", "false"), ("width", "wide")]);
    assert_eq!(vsync_setting(&parameters), Ok(false));
}

#[test]
fn vsync_request_holds_only_the_setting() {
    let off = vsync_request(false);
    assert_eq!(off.get("vsync"), Some("false".to_string()));
    assert_eq!(vsync_setting(&off), Ok(false));
    let on = vsync_request(true);
    assert_eq!(on.get("vsync"), Some("true".to_string()));
    assert_eq!(vsync_setting(&on), Ok(true));
    assert_eq!(on.get("other"), None);
}
