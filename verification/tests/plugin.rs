use ipscan::plugin::{backend_file_name, ParameterShape, PipelineType};
use ipscan::{
    backend_arguments, explicit_output_format, resolve_backend, IpScanCommand, BACKEND_ENV,
    DEFAULT_BACKEND,
};

fn strings(items: &[&str]) -> Vec<String> {
    items.iter().map(|s| s.to_string()).collect()
}

#[test]
fn structured_backend_arguments_prepend_json() {
    let args = vec!["--network".to_owned(), "192.0.2.0/24".to_owned()];
    assert_eq!(
        backend_arguments(&args, false),
        vec!["--output", "json", "--network", "192.0.2.0/24"]
    );
    assert_eq!(backend_arguments(&args, true), args);
}

#[test]
fn an_explicit_json_switch_is_not_duplicated() {
    let args = vec!["--output".to_owned(), "json".to_owned()];
    assert_eq!(backend_arguments(&args, false), args);
}

#[test]
fn an_explicit_text_format_is_not_replaced() {
    let args = vec![
        "--output".to_owned(),
        "plain".to_owned(),
        "--list".to_owned(),
    ];
    assert_eq!(backend_arguments(&args, false), args);
    assert_eq!(explicit_output_format(&args), Some("plain"));
}

#[test]
fn short_output_switch_selects_the_next_argument() {
    let args = strings(&["--list", "-o", "yaml"]);
    assert_eq!(explicit_output_format(&args), Some("yaml"));
    assert_eq!(backend_arguments(&args, false), args);
}

#[test]
fn trailing_output_switch_selects_an_empty_format() {
    let args = strings(&["--list", "--output"]);
    assert_eq!(explicit_output_format(&args), Some(""));
    assert_eq!(backend_arguments(&args, false), args);
}

#[test]
fn attached_output_format_is_recognised() {
    let args = strings(&["--output=csv", "--numeric"]);
    assert_eq!(explicit_output_format(&args), Some("csv"));
    assert_eq!(backend_arguments(&args, false), args);
}

#[test]
fn the_first_format_selection_wins() {
    let args = strings(&["--output=yaml", "-o", "json"]);
    assert_eq!(explicit_output_format(&args), Some("yaml"));
    let args = strings(&["-o", "csv", "--output=yaml"]);
    assert_eq!(explicit_output_format(&args), Some("csv"));
}

#[test]
fn lookalike_arguments_select_no_format() {
    let args = strings(&["--outputs", "-O", "--output-format", "output"]);
    assert_eq!(explicit_output_format(&args), None);
    assert_eq!(
        backend_arguments(&args, false),
        strings(&["--output", "json", "--outputs", "-O", "--output-format", "output"])
    );
}

#[test]
fn no_arguments_request_json() {
    let args: Vec<String> = Vec::new();
    assert_eq!(explicit_output_format(&args), None);
    assert_eq!(backend_arguments(&args, false), strings(&["--output", "json"]));
    assert!(backend_arguments(&args, true).is_empty());
}

#[test]
fn preparing_arguments_twice_adds_json_once() {
    let args = strings(&["--interface", "eth0"]);
    let once = backend_arguments(&args, false);
    let twice = backend_arguments(&once, false);
    assert_eq!(once, twice);
    assert_eq!(explicit_output_format(&once), Some("json"));
}

#[test]
fn non_ascii_arguments_are_forwarded() {
    let args = strings(&["--interface", "\u{e9}th0", "--output=\u{fc}"]);
    assert_eq!(explicit_output_format(&args), Some("\u{fc}"));
    assert_eq!(backend_arguments(&args, false), args);
}

#[test]
fn explicit_backend_wins() {
    let chosen = resolve_backend(
        Some("/opt/ipscan".to_owned()),
        Some("/env/ipscan".to_owned()),
        Some("/plugin/ipscan".to_owned()),
        DEFAULT_BACKEND.to_owned(),
    );
    assert_eq!(chosen, "/opt/ipscan");
}

#[test]
fn configured_backend_comes_second() {
    let chosen = resolve_backend(
        None,
        Some("/env/ipscan".to_owned()),
        Some("/plugin/ipscan".to_owned()),
        DEFAULT_BACKEND.to_owned(),
    );
    assert_eq!(chosen, "/env/ipscan");
}

#[test]
fn sibling_backend_comes_third() {
    let chosen = resolve_backend(
        None,
        None,
        Some("/plugin/ipscan".to_owned()),
        DEFAULT_BACKEND.to_owned(),
    );
    assert_eq!(chosen, "/plugin/ipscan");
}

#[test]
fn path_backend_is_the_fallback() {
    let chosen = resolve_backend(None, None, None, DEFAULT_BACKEND.to_owned());
    assert_eq!(chosen, "ipscan");
}

#[test]
fn backend_names_and_environment_variable() {
    assert_eq!(BACKEND_ENV, "NU_PLUGIN_IPSCAN_BACKEND");
    assert_eq!(backend_file_name(false), "ipscan");
    assert_eq!(backend_file_name(true), "ipscan.exe");
}

#[test]
fn command_metadata() {
    let command = IpScanCommand;
    assert_eq!(command.name(), "ipscan");
    assert_eq!(
        command.description(),
        "Scan the local network and return structured host records"
    );
    assert!(command.extra_description().contains("NU_PLUGIN_IPSCAN_BACKEND"));
    assert_eq!(command.search_terms(), vec!["arp", "scan", "network", "pnet"]);
}

#[test]
fn command_signature() {
    let signature = IpScanCommand.signature();
    assert_eq!(signature.name, "ipscan");
    assert_eq!(signature.rest.name, "arguments");
    assert!(matches!(signature.rest.shape, ParameterShape::String));
    assert_eq!(signature.flags.len(), 2);
    assert_eq!(signature.flags[0].long, "raw");
    assert!(signature.flags[0].shape.is_none());
    assert!(signature.flags[0].short.is_none());
    assert_eq!(signature.flags[1].long, "backend");
    assert!(matches!(signature.flags[1].shape, Some(ParameterShape::String)));
    assert!(matches!(signature.input, PipelineType::Nothing));
    assert!(matches!(signature.output, PipelineType::Any));
}
