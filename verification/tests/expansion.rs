use env_macro::expand_parsed;
use env_macro::invocation::{Invocation, MacroArg};

fn inv(args: Vec<MacroArg>) -> Invocation {
    Invocation { args }
}

fn name_arg(s: &str) -> MacroArg {
    MacroArg::UnnamedStr(s.to_string())
}

fn num_arg(s: &str) -> MacroArg {
    MacroArg::UnnamedNum(s.to_string())
}

#[test]
fn unset_variable_without_default_is_an_error() {
    let i = inv(vec![name_arg("MISSING_VAR_xyz")]);
    let out = expand_parsed(&i, None);
    assert_eq!(out.tokens, "");
    assert_eq!(
        out.diagnostic,
        Some("Environment variable MISSING_VAR_xyz not set".to_string())
    );
}

#[test]
fn unset_variable_with_default_uses_the_default() {
    let i = inv(vec![name_arg("MISSING_VAR_xyz"), num_arg("42")]);
    let out = expand_parsed(&i, None);
    assert_eq!(out.tokens, "42");
    assert_eq!(out.diagnostic, None);
}

#[test]
fn set_variable_is_used() {
    let i = inv(vec![name_arg("SOME_VAR")]);
    let value = "100".to_string();
    let out = expand_parsed(&i, Some(&value));
    assert_eq!(out.tokens, "100");
    assert_eq!(out.diagnostic, None);
}

#[test]
fn set_variable_takes_precedence_over_default() {
    let i = inv(vec![name_arg("SOME_VAR"), num_arg("42")]);
    let value = "100".to_string();
    let out = expand_parsed(&i, Some(&value));
    assert_eq!(out.tokens, "100");
    assert_eq!(out.diagnostic, None);
}

#[test]
fn non_numeric_environment_value_is_an_error() {
    let i = inv(vec![name_arg("SOME_VAR")]);
    let value = "abc".to_string();
    let out = expand_parsed(&i, Some(&value));
    assert_eq!(out.tokens, "");
    let message = out.diagnostic.expect("a diagnostic is owed");
    assert!(message.contains("abc"));
    assert!(message.contains("numeric"));
    assert_eq!(message, "Failed to parse numeric environment variable: abc");
}

#[test]
fn zero_arguments_is_an_arity_error() {
    let i = inv(vec![]);
    let out = expand_parsed(&i, None);
    assert_eq!(out.tokens, "");
    assert_eq!(
        out.diagnostic,
        Some("Please specify the environment variable name".to_string())
    );
}

#[test]
fn non_string_name_is_a_type_mismatch() {
    let i = inv(vec![MacroArg::UnnamedOther]);
    let out = expand_parsed(&i, None);
    assert_eq!(out.tokens, "");
    assert_eq!(
        out.diagnostic,
        Some("Expected environment variable name".to_string())
    );
}

#[test]
fn numeric_name_is_a_type_mismatch() {
    let i = inv(vec![num_arg("7")]);
    let out = expand_parsed(&i, None);
    assert_eq!(
        out.diagnostic,
        Some("Expected environment variable name".to_string())
    );
}

#[test]
fn named_first_argument_is_a_shape_error() {
    let i = inv(vec![MacroArg::Named]);
    let out = expand_parsed(&i, None);
    assert_eq!(out.tokens, "");
    assert_eq!(out.diagnostic, Some("Expected unnamed argument".to_string()));
}

#[test]
fn non_numeric_default_is_a_type_mismatch() {
    let i = inv(vec![name_arg("V"), MacroArg::UnnamedOther]);
    let out = expand_parsed(&i, None);
    assert_eq!(out.tokens, "");
    assert_eq!(out.diagnostic, Some("Expected numeric default".to_string()));
}

#[test]
fn named_default_is_a_shape_error() {
    let i = inv(vec![name_arg("V"), MacroArg::Named]);
    let out = expand_parsed(&i, None);
    assert_eq!(
        out.diagnostic,
        Some("Expected unnamed default argument".to_string())
    );
}

#[test]
fn unparsable_default_text_is_an_error_naming_the_text() {
    let i = inv(vec![name_arg("V"), num_arg("1a")]);
    let out = expand_parsed(&i, None);
    assert_eq!(out.tokens, "");
    assert_eq!(
        out.diagnostic,
        Some("Failed to parse numeric default: 1a".to_string())
    );
}

#[test]
fn three_arguments_with_unset_variable_report_not_set() {
    let i = inv(vec![name_arg("V"), num_arg("1"), num_arg("2")]);
    let out = expand_parsed(&i, None);
    assert_eq!(out.diagnostic, Some("Environment variable V not set".to_string()));
}

#[test]
fn default_is_normalized_too() {
    let i = inv(vec![name_arg("V"), num_arg("007")]);
    let out = expand_parsed(&i, None);
    assert_eq!(out.tokens, "7");
    assert_eq!(out.diagnostic, None);
}

#[test]
fn repeated_expansion_is_identical() {
    let first = expand_parsed(&inv(vec![name_arg("SOME_VAR"), num_arg("42")]), None);
    let second = expand_parsed(&inv(vec![name_arg("SOME_VAR"), num_arg("42")]), None);
    assert_eq!(first.tokens, second.tokens);
    assert_eq!(first.diagnostic, second.diagnostic);
    let value = "5".to_string();
    let third = expand_parsed(&inv(vec![name_arg("SOME_VAR")]), Some(&value));
    let fourth = expand_parsed(&inv(vec![name_arg("SOME_VAR")]), Some(&value));
    assert_eq!(third.tokens, fourth.tokens);
    assert_eq!(third.diagnostic, fourth.diagnostic);
}

#[test]
fn default_clause_is_resolved_on_its_own() {
    let ok = env_macro::resolve::get_default_value(&num_arg("0099")).expect("numeric default");
    assert_eq!(ok, "99");
    let err = env_macro::resolve::get_default_value(&name_arg("boo"))
        .expect_err("a string default is refused");
    assert_eq!(err.message(), "Expected numeric default");
}
