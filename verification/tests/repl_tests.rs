use minitt::ast::{nil_rc, up_var_rc, Expression, Pattern, Value};
use minitt::check::tcm::TCS;
use minitt::list::List;
use minitt::repl::{gamma_report, history_file, parse_command, telescope_report, trim_str, update_tcs, CommandKind, ReplEnvType};

#[test]
fn repl_env_type_names() {
    assert_eq!(ReplEnvType::Plain.to_string(), "PLAIN");
    assert_eq!(ReplEnvType::Rich.to_string(), "RICH");
}

#[test]
fn repl_history_file_paths() {
    assert_eq!(history_file("/home/u/.dtlc", "minitt"), "/home/u/.dtlc/.minitt_repl_history");
    assert_eq!(history_file("/home/u/.dtlc/", "minitt"), "/home/u/.dtlc/.minitt_repl_history");
    assert_eq!(history_file("", "x"), ".x_repl_history");
}

#[test]
fn repl_trim() {
    assert_eq!(trim_str("  a b \t\n"), "a b");
    assert_eq!(trim_str(" \u{3000} "), "");
    assert_eq!(trim_str("x"), "x");
}

#[test]
fn repl_commands_without_argument() {
    assert_eq!(parse_command(":quit").kind, CommandKind::Quit);
    assert_eq!(parse_command("   ").kind, CommandKind::Nothing);
    assert_eq!(parse_command(" :gamma ").kind, CommandKind::Gamma);
    assert_eq!(parse_command(":context").kind, CommandKind::Context);
    assert_eq!(parse_command(":debug").kind, CommandKind::Debug);
    assert_eq!(parse_command(":help").kind, CommandKind::Help);
    assert_eq!(parse_command(":help").argument, "");
}

#[test]
fn repl_commands_with_argument() {
    let c = parse_command(":load   samples/bool.minitt ");
    assert_eq!(c.kind, CommandKind::Load);
    assert_eq!(c.argument, "samples/bool.minitt");
    let c = parse_command(":infer and (False 1)");
    assert_eq!(c.kind, CommandKind::Infer);
    assert_eq!(c.argument, "and (False 1)");
    assert_eq!(parse_command(":infer-debug x").kind, CommandKind::InferDebug);
    assert_eq!(parse_command(":type x").kind, CommandKind::Type);
    assert_eq!(parse_command(":normalize x").kind, CommandKind::Normalize);
    assert_eq!(parse_command(":eval 1").kind, CommandKind::Eval);
    assert_eq!(parse_command(":eval-debug 1").argument, "1");
    assert_eq!(parse_command(":level Type").kind, CommandKind::Level);
    assert_eq!(parse_command(":lexical x").kind, CommandKind::Lexical);
}

#[test]
fn repl_other_lines() {
    let c = parse_command(":what");
    assert_eq!(c.kind, CommandKind::Unrecognized);
    assert_eq!(c.argument, ":what");
    let c = parse_command(":load");
    assert_eq!(c.kind, CommandKind::Unrecognized);
    let c = parse_command(" let c : Type = 1; ");
    assert_eq!(c.kind, CommandKind::Code);
    assert_eq!(c.argument, "let c : Type = 1;");
}

#[test]
fn repl_reports() {
    assert_eq!(gamma_report(&List::Nil), "Current Gamma is empty.\n");
    let tcs = TCS::default().update(Pattern::Var("x".to_string()), Value::One, Value::Unit).unwrap();
    assert_eq!(gamma_report(&tcs.gamma), "Current Gamma:\nx: 1\n");
    assert_eq!(telescope_report(&nil_rc::<Value>()), "Current Telescope is empty.\n");
    let ctx = up_var_rc(nil_rc(), Pattern::Var("x".to_string()), Value::One);
    assert_eq!(telescope_report(&ctx), "Current Telescope:\nvar x: 1;\n\n");
}

#[test]
fn repl_update_tcs_resets_on_error() {
    let (tcs, err) = update_tcs(TCS::default(), Expression::One);
    assert!(err.is_some());
    assert!(tcs.gamma.is_empty());
    let (tcs, err) = update_tcs(TCS::default(), Expression::Unit);
    assert!(err.is_none());
    assert!(tcs.gamma.is_empty());
}
