use clap::{Arg, Command};
use mono_errors::errors::{MonoError, RichError};

#[test]
fn test_mono_error_new() {
    let error = RichError::new("测试错误".to_string());
    let mono_error = MonoError::new(error, 42);

    assert!(mono_error.error.is_some());
    assert_eq!(mono_error.code, 42);
    assert!(mono_error.render().contains("测试错误"));
}

#[test]
fn test_unknown_subcommand() {
    let mono_error = MonoError::_unknown_subcommand("invalid_cmd");

    assert!(mono_error.error.is_some());
    assert_eq!(mono_error.code, 1);
    assert!(mono_error.render().contains("Unknown subcommand: invalid_cmd"));
}

#[test]
fn test_with_message() {
    let mono_error = MonoError::_with_message("自定义错误消息");

    assert!(mono_error.error.is_some());
    assert_eq!(mono_error.code, 0);
    assert!(mono_error.render().contains("Error Message: 自定义错误消息"));
}

#[test]
fn test_display() {
    let error = RichError::new("显示测试".to_string());
    let mono_error = MonoError::new(error, 1);
    let display_string = mono_error.render();

    assert!(display_string.contains("显示测试"));
}

#[test]
fn test_from_anyhow_error() {
    let anyhow_error = anyhow::Error::msg("anyhow 错误");
    let mono_error = MonoError::from_contextual(anyhow_error);

    assert!(mono_error.error.is_some());
    assert_eq!(mono_error.code, 101);
    assert!(mono_error.render().contains("anyhow 错误"));
}

#[test]
fn test_from_clap_error() {
    let cmd = Command::new("test").arg(Arg::new("required").required(true).help("必需参数"));

    let clap_error = cmd.try_get_matches_from(["test"]).unwrap_err();
    let mono_error =
        MonoError::from_parse_parts(clap_error.to_string(), clap_error.use_stderr());

    assert!(mono_error.error.is_some());
    assert!(mono_error.code == 0 || mono_error.code == 1);
}

#[test]
fn test_error_chain() {
    let root_cause = RichError::new("根本原因".to_string());
    let wrapped_error = root_cause.context("包装错误".to_string());
    let mono_error = MonoError::new(wrapped_error, 500);

    assert!(mono_error.error.is_some());
    assert_eq!(mono_error.code, 500);
    let error_string = mono_error.render();
    assert!(error_string.contains("包装错误"));
}

#[test]
fn test_different_error_codes() {
    let error1 = MonoError::_with_message("错误1");
    let error2 = MonoError::_unknown_subcommand("cmd");
    let error3 = MonoError::from_contextual(anyhow::Error::msg("错误3"));

    assert_eq!(error1.code, 0);
    assert_eq!(error2.code, 1);
    assert_eq!(error3.code, 101);
}

#[test]
fn test_print_does_not_panic() {
    let error = MonoError::_with_message("打印测试");
    error.print();
    assert!(error.render_line().is_some());
}

#[test]
fn test_parse_usage_error_code() {
    let cmd = Command::new("test").arg(Arg::new("input").required(true));
    let clap_error = cmd.try_get_matches_from(["test"]).unwrap_err();
    assert!(clap_error.use_stderr());

    let mono_error =
        MonoError::from_parse_parts(clap_error.to_string(), clap_error.use_stderr());
    assert_eq!(mono_error.code, 1);
    assert!(mono_error.render().contains("required"));
}

#[test]
fn test_parse_informational_outcome_code() {
    let cmd = Command::new("test").arg(Arg::new("input"));
    let clap_error = cmd.try_get_matches_from(["test", "--help"]).unwrap_err();
    assert!(!clap_error.use_stderr());

    let mono_error =
        MonoError::from_parse_parts(clap_error.to_string(), clap_error.use_stderr());
    assert_eq!(mono_error.code, 0);
}

#[test]
fn test_with_message_end_to_end() {
    let error = MonoError::_with_message("disk full");
    assert_eq!(error.code, 0);
    error.print();
    assert_eq!(error.render_line().unwrap(), "0:Error Message: disk full");
}

#[test]
fn test_unknown_subcommand_end_to_end() {
    let error = MonoError::_unknown_subcommand("frobnicate");
    assert_eq!(error.code, 1);
    assert_eq!(error.render(), "Unknown subcommand: frobnicate");
}

#[test]
fn test_render_line_negative_code() {
    let error = MonoError::new(RichError::new("x".to_string()), -7);
    assert_eq!(error.render_line().unwrap(), "-7:x");
}

#[test]
fn test_render_line_extreme_codes() {
    let top = MonoError::new(RichError::new("x".to_string()), i32::MAX);
    assert_eq!(top.render_line().unwrap(), "2147483647:x");

    let bottom = MonoError::new(RichError::new("x".to_string()), i32::MIN);
    assert_eq!(bottom.render_line().unwrap(), "-2147483648:x");
}

#[test]
fn test_print_empty_and_multibyte_messages() {
    let empty = MonoError::_with_message("");
    empty.print();
    assert_eq!(empty.render_line().unwrap(), "0:Error Message: ");

    let multibyte = MonoError::_with_message("多字节 🚨 текст");
    multibyte.print();
    assert_eq!(
        multibyte.render_line().unwrap(),
        "0:Error Message: 多字节 🚨 текст"
    );
}

#[test]
fn test_absent_cause_is_silent() {
    let degenerate = MonoError { error: None, code: 3 };
    degenerate.print();
    assert!(degenerate.render_line().is_none());
}

#[test]
fn test_context_chain_kept() {
    let root = RichError::new("root".to_string());
    let wrapped = root.context("ctx".to_string());
    assert_eq!(wrapped.message, "ctx");
    assert_eq!(wrapped.causes.len(), 1);
    assert_eq!(wrapped.causes[0], "root");

    let chained = wrapped.context("outer".to_string());
    assert_eq!(chained.causes, vec!["ctx".to_string(), "root".to_string()]);
}

#[test]
fn test_contextual_text_matches_upstream() {
    let plain = MonoError::from_contextual(anyhow::Error::msg("m"));
    assert_eq!(plain.render(), "m");

    let wrapped = anyhow::Error::msg("root").context("outer");
    let converted = MonoError::from_contextual(wrapped);
    assert_eq!(converted.render(), "outer");
}
