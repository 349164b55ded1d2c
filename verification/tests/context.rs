use duxcore::context::Context;
use duxcore::json::Json;
use duxcore::step::ApiCallResult;
use duxcore::step::ApiCallStatus;
use duxcore::step::StepResult;
use duxcore::strutil::parse_u32_trimmed;
use duxcore::strutil::scrub_controls;
use duxcore::strutil::u64_to_dec;

#[test]
fn variables_render_into_templates() {
    let mut ctx = Context::new();
    ctx.set("package_name", Json::Str("apache2".to_string()));
    assert_eq!(ctx.render("install {{ package_name }} now").unwrap(), "install apache2 now");
    assert!(ctx.render("{{ missing_variable }}").is_err());
}

#[test]
fn later_bindings_win() {
    let mut ctx = Context::new();
    ctx.set("k", Json::Str("one".to_string()));
    ctx.set("k", Json::Str("two".to_string()));
    assert_eq!(ctx.render("{{ k }}").unwrap(), "two");
}

#[test]
fn registered_results_expose_rc_output_and_status() {
    let mut ctx = Context::new();
    let calls = vec![ApiCallResult::from(
        Some(0),
        Some("42\n".to_string()),
        ApiCallStatus::ChangeSuccessful("Command successful".to_string()),
    )];
    let result = StepResult::from(calls);
    ctx.register("probe", &result);
    assert_eq!(ctx.render("{{ probe.rc }}").unwrap(), "0");
    assert!(ctx.render("{{ probe.output }}").unwrap().contains("42"));
    assert!(ctx.render("{{ probe.status }}").unwrap().contains("change-successful"));
    // registration leaves other variables untouched
    ctx.set("other", Json::Str("x".to_string()));
    ctx.register("probe2", &result);
    assert_eq!(ctx.render("{{ other }}").unwrap(), "x");
}

#[test]
fn decimal_helpers_agree_with_their_specifications() {
    assert_eq!(u64_to_dec(0), "0");
    assert_eq!(u64_to_dec(1234), "1234");
    assert_eq!(parse_u32_trimmed(" 42\n"), Some(42));
    assert_eq!(parse_u32_trimmed(""), None);
    assert_eq!(parse_u32_trimmed("12a"), None);
    assert_eq!(parse_u32_trimmed("4294967295"), Some(4294967295));
    assert_eq!(parse_u32_trimmed("4294967296"), None);
}

#[test]
fn control_characters_are_scrubbed() {
    assert_eq!(scrub_controls("a\nb\tc"), "a b c");
    assert_eq!(scrub_controls("plain"), "plain");
}
