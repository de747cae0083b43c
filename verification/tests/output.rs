use ipscan::json::json_to_value;
use ipscan::{backend_output_value, format_status, parse_json_output, NuValue, PluginError};

fn field<'a>(fields: &'a [(String, NuValue)], key: &str) -> Option<&'a NuValue> {
    fields.iter().find(|(name, _)| name == key).map(|(_, value)| value)
}

fn args(items: &[&str]) -> Vec<String> {
    items.iter().map(|s| s.to_string()).collect()
}

#[test]
fn json_output_becomes_native_values() {
    let value = parse_json_output(
        br#"[{"ifname":"lo","index":1,"up":true,"nested":{"mtu":65536},"missing":null}]"#,
    )
    .expect("JSON should parse");

    let NuValue::List(vals) = value else {
        panic!("expected a list")
    };
    assert_eq!(vals.len(), 1);
    let NuValue::Record(val) = &vals[0] else {
        panic!("expected a record")
    };
    assert!(matches!(field(val, "ifname"), Some(NuValue::String(s)) if s == "lo"));
    assert!(matches!(field(val, "index"), Some(NuValue::Int(1))));
    assert!(matches!(field(val, "up"), Some(NuValue::Bool(true))));
    assert!(matches!(field(val, "missing"), Some(NuValue::Nothing)));
}

#[test]
fn empty_backend_output_is_nothing() {
    assert!(matches!(parse_json_output(b"\n").unwrap(), NuValue::Nothing));
}

#[test]
fn large_json_integers_are_not_rounded() {
    let value = parse_json_output(b"18446744073709551615").expect("JSON should parse");
    assert!(matches!(value, NuValue::String(s) if s == "18446744073709551615"));
}

#[test]
fn nested_records_keep_their_members_in_object_order() {
    let value = parse_json_output(br#"{"b":{"mtu":65536},"a":[1,"x",null]}"#).unwrap();
    let NuValue::Record(fields) = value else {
        panic!("expected a record")
    };
    let names: Vec<&str> = fields.iter().map(|(name, _)| name.as_str()).collect();
    assert_eq!(names, vec!["a", "b"]);
    let Some(NuValue::List(items)) = field(&fields, "a") else {
        panic!("expected a list")
    };
    assert_eq!(items.len(), 3);
    assert!(matches!(items[0], NuValue::Int(1)));
    assert!(matches!(&items[1], NuValue::String(s) if s == "x"));
    assert!(matches!(items[2], NuValue::Nothing));
    let Some(NuValue::Record(inner)) = field(&fields, "b") else {
        panic!("expected a record")
    };
    assert!(matches!(field(inner, "mtu"), Some(NuValue::Int(65536))));
}

#[test]
fn integer_limits() {
    assert!(matches!(
        parse_json_output(b"9223372036854775807").unwrap(),
        NuValue::Int(i64::MAX)
    ));
    assert!(matches!(
        parse_json_output(b"-9223372036854775808").unwrap(),
        NuValue::Int(i64::MIN)
    ));
    assert!(matches!(
        parse_json_output(b"9223372036854775808").unwrap(),
        NuValue::String(s) if s == "9223372036854775808"
    ));
}

#[test]
fn fractional_numbers_become_floats() {
    let value = parse_json_output(b" 1.5 ").unwrap();
    let NuValue::Float(text) = value else {
        panic!("expected a float")
    };
    assert_eq!(text.parse::<f64>().unwrap(), 1.5f64);
    let value = parse_json_output(b"-2.5e3").unwrap();
    let NuValue::Float(text) = value else {
        panic!("expected a float")
    };
    assert_eq!(text.parse::<f64>().unwrap(), -2500.0f64);
}

#[test]
fn strings_are_unescaped() {
    let value = parse_json_output(br#""a\"b\u00e9""#).unwrap();
    assert!(matches!(value, NuValue::String(s) if s == "a\"b\u{e9}"));
}

#[test]
fn blank_output_of_any_whitespace_is_nothing() {
    assert!(matches!(parse_json_output(b"").unwrap(), NuValue::Nothing));
    assert!(matches!(
        parse_json_output(" \t\r\n\u{a0}\u{3000}".as_bytes()).unwrap(),
        NuValue::Nothing
    ));
}

#[test]
fn invalid_utf8_is_reported() {
    let error = parse_json_output(&[0x5b, 0xff, 0x5d]).unwrap_err();
    assert!(matches!(error, PluginError::InvalidUtf8 { .. }));
    assert!(error.message().starts_with("ipscan emitted invalid UTF-8: "));
    assert_eq!(error.label(), "backend JSON output");
    assert_eq!(error.code(), "nu_plugin_ipscan::invalid_output");
    assert!(error.help().is_none());
}

#[test]
fn invalid_json_shows_the_start_of_the_output() {
    let error = parse_json_output(b"  interface eth0 is down\n").unwrap_err();
    let PluginError::InvalidJson { preview, .. } = &error else {
        panic!("expected invalid JSON")
    };
    assert_eq!(preview, "interface eth0 is down");
    let message = error.message();
    assert!(message.starts_with("ipscan returned output that is not valid JSON: "));
    assert!(message.ends_with("; output begins with \"interface eth0 is down\""));
    assert_eq!(
        error.help(),
        Some("use `--raw` to inspect backend stdout while diagnosing a compatibility issue")
    );
    assert_eq!(error.code(), "nu_plugin_ipscan::invalid_output");
}

#[test]
fn invalid_json_preview_is_at_most_512_characters() {
    let text = "\u{e9}".repeat(600);
    let error = parse_json_output(text.as_bytes()).unwrap_err();
    let PluginError::InvalidJson { preview, .. } = error else {
        panic!("expected invalid JSON")
    };
    assert_eq!(preview.chars().count(), 512);
}

#[test]
fn json_values_convert_directly() {
    let json: serde_json::Value = serde_json::from_str(r#"{"k":[true,false]}"#).unwrap();
    let NuValue::Record(fields) = json_to_value(&json) else {
        panic!("expected a record")
    };
    assert_eq!(fields.len(), 1);
    assert!(matches!(
        field(&fields, "k"),
        Some(NuValue::List(items))
            if matches!(items[..], [NuValue::Bool(true), NuValue::Bool(false)])
    ));
}

#[test]
fn failed_backend_reports_exit_and_trimmed_stderr() {
    let error = backend_output_value(
        &args(&["--list"]),
        false,
        false,
        Some(2),
        b"ignored".to_vec(),
        b"  permission denied\n",
    )
    .unwrap_err();
    assert!(matches!(&error, PluginError::BackendFailed { detail } if detail == "exit status 2: permission denied"));
    assert_eq!(
        error.message(),
        "ipscan backend failed: exit status 2: permission denied"
    );
    assert_eq!(error.label(), "backend invocation");
    assert_eq!(error.code(), "nu_plugin_ipscan::backend_failed");
}

#[test]
fn failed_backend_without_stderr_reports_only_the_exit() {
    let error = backend_output_value(&args(&[]), false, false, None, Vec::new(), b" \n")
        .unwrap_err();
    assert!(matches!(&error, PluginError::BackendFailed { detail } if detail == "exit status terminated by signal"));
    let error = backend_output_value(&args(&[]), true, false, Some(-1), Vec::new(), b"")
        .unwrap_err();
    assert!(matches!(&error, PluginError::BackendFailed { detail } if detail == "exit status -1"));
}

#[test]
fn invalid_stderr_is_decoded_lossily() {
    let error = backend_output_value(&args(&[]), false, false, Some(1), Vec::new(), &[0x62, 0xff])
        .unwrap_err();
    assert!(matches!(&error, PluginError::BackendFailed { detail } if detail == "exit status 1: b\u{fffd}"));
}

#[test]
fn raw_output_is_binary() {
    let bytes = vec![0u8, 0xff, b'{'];
    let value = backend_output_value(&args(&["--output", "json"]), true, true, Some(0), bytes.clone(), b"")
        .unwrap();
    assert!(matches!(value, NuValue::Binary(b) if b == bytes));
}

#[test]
fn explicit_text_formats_are_strings() {
    let value = backend_output_value(
        &args(&["--output", "plain", "--list"]),
        false,
        true,
        Some(0),
        b"lo 1 up\n".to_vec(),
        b"",
    )
    .unwrap();
    assert!(matches!(value, NuValue::String(s) if s == "lo 1 up\n"));
    let error = backend_output_value(&args(&["-o", "csv"]), false, true, Some(0), vec![0xc3], b"")
        .unwrap_err();
    assert!(matches!(error, PluginError::InvalidText { .. }));
    assert!(error.message().starts_with("ipscan emitted invalid text output: "));
    assert_eq!(error.label(), "backend output");
}

#[test]
fn json_output_is_parsed_whether_requested_or_explicit() {
    let value = backend_output_value(&args(&[]), false, true, Some(0), b"[1]".to_vec(), b"")
        .unwrap();
    assert!(matches!(value, NuValue::List(items) if matches!(items[..], [NuValue::Int(1)])));
    let value = backend_output_value(&args(&["--output=json"]), false, true, Some(0), b"true".to_vec(), b"")
        .unwrap();
    assert!(matches!(value, NuValue::Bool(true)));
}

#[test]
fn exit_status_text() {
    assert_eq!(format_status(Some(0)), "0");
    assert_eq!(format_status(Some(127)), "127");
    assert_eq!(format_status(Some(-2147483648)), "-2147483648");
    assert_eq!(format_status(None), "terminated by signal");
}

#[test]
fn unavailable_backend_error() {
    let error = PluginError::BackendUnavailable {
        backend: "/missing/ipscan".to_owned(),
        detail: "No such file or directory (os error 2)".to_owned(),
    };
    assert_eq!(
        error.message(),
        "could not execute ipscan backend `/missing/ipscan`: No such file or directory (os error 2)"
    );
    assert_eq!(error.label(), "backend executable");
    assert_eq!(
        error.help(),
        Some("install ipscan or set NU_PLUGIN_IPSCAN_BACKEND to an executable path")
    );
    assert_eq!(error.code(), "nu_plugin_ipscan::backend_unavailable");
}

#[test]
fn preview_quoting_escapes_control_characters() {
    let error = PluginError::InvalidJson {
        detail: "expected value at line 1 column 1".to_owned(),
        preview: "a\"b\n".to_owned(),
    };
    assert_eq!(
        error.message(),
        "ipscan returned output that is not valid JSON: expected value at line 1 column 1; output begins with \"a\\\"b\\n\""
    );
}

#[test]
fn error_details_carry_the_decoders_explanation() {
    let bytes = [0x5bu8, 0xff, 0x5d];
    let expected = std::str::from_utf8(&bytes).unwrap_err().to_string();
    assert!(matches!(parse_json_output(&bytes), Err(PluginError::InvalidUtf8 { detail }) if detail == expected));
    let error = backend_output_value(&args(&["-o", "csv"]), false, true, Some(0), bytes.to_vec(), b"")
        .unwrap_err();
    assert!(matches!(&error, PluginError::InvalidText { detail } if *detail == expected));
    assert_eq!(error.message(), format!("ipscan emitted invalid text output: {expected}"));

    let text = "{\"a\": }";
    let parse_error = serde_json::from_str::<serde_json::Value>(text).unwrap_err().to_string();
    let error = parse_json_output(text.as_bytes()).unwrap_err();
    assert!(matches!(&error, PluginError::InvalidJson { detail, .. } if *detail == parse_error));
    assert_eq!(
        error.message(),
        format!("ipscan returned output that is not valid JSON: {parse_error}; output begins with {text:?}")
    );
}

#[test]
fn json_path_equals_parse_json_output() {
    for output in [&b"{\"a\": }"[..], &b"[1,2]"[..], &[0xff][..], &b" \n"[..]] {
        let direct = parse_json_output(output);
        let through = backend_output_value(&args(&["--output=json"]), false, true, Some(0), output.to_vec(), b"");
        match (direct, through) {
            (Err(a), Err(b)) => assert_eq!(a.message(), b.message()),
            (Ok(a), Ok(b)) => assert_eq!(format!("{a:?}"), format!("{b:?}")),
            _ => panic!("results differ"),
        }
    }
}
