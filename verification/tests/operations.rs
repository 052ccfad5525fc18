use cargo_workspace::failure::Failure;
use cargo_workspace::operation::{Invocation, Operation};

#[test]
fn install_subcommand_selects_install() {
    assert_eq!(
        Operation::from_subcommand(Some("install"), false),
        Ok(Operation::Install { force: false })
    );
    assert_eq!(
        Operation::from_subcommand(Some("install"), true),
        Ok(Operation::Install { force: true })
    );
}

#[test]
fn uninstall_subcommand_selects_uninstall_whatever_the_flag() {
    assert_eq!(Operation::from_subcommand(Some("uninstall"), false), Ok(Operation::Uninstall));
    assert_eq!(Operation::from_subcommand(Some("uninstall"), true), Ok(Operation::Uninstall));
}

#[test]
fn no_subcommand_is_a_usage_failure_with_status_one() {
    let selected = Operation::from_subcommand(None, false);
    assert_eq!(selected, Err(Failure::Usage));
    assert_eq!(Failure::Usage.exit_code(), 1);
}

#[test]
fn unknown_subcommand_is_a_usage_failure() {
    assert_eq!(Operation::from_subcommand(Some("update"), false), Err(Failure::Usage));
    assert_eq!(Operation::from_subcommand(Some(""), true), Err(Failure::Usage));
    assert_eq!(Operation::from_subcommand(Some("Install"), false), Err(Failure::Usage));
    assert_eq!(Operation::from_subcommand(Some("install "), false), Err(Failure::Usage));
}

#[test]
fn install_invocation_has_path_then_member() {
    let made = Operation::Install { force: false }.invocation("crates/foo");
    assert_eq!(made.program, "cargo");
    assert_eq!(made.args, vec!["install", "--path", "crates/foo"]);
}

#[test]
fn forced_install_invocation_ends_with_force() {
    let made = Operation::Install { force: true }.invocation("crates/foo");
    assert_eq!(
        made,
        Invocation {
            program: "cargo".to_string(),
            args: vec![
                "install".to_string(),
                "--path".to_string(),
                "crates/foo".to_string(),
                "--force".to_string(),
            ],
        }
    );
}

#[test]
fn uninstall_invocation_names_the_member_with_p() {
    let made = Operation::Uninstall.invocation("crates/bar");
    assert_eq!(made.program, "cargo");
    assert_eq!(made.args, vec!["uninstall", "-p", "crates/bar"]);
}

#[test]
fn member_text_is_passed_on_unchanged() {
    let made = Operation::Uninstall.invocation("  odd name/with spaces --force ");
    assert_eq!(made.args.len(), 3);
    assert_eq!(made.args[2], "  odd name/with spaces --force ");
    let empty = Operation::Install { force: true }.invocation("");
    assert_eq!(empty.args, vec!["install", "--path", "", "--force"]);
}

#[test]
fn the_program_is_cargo() {
    assert_eq!(cargo_workspace::operation::PROGRAM, "cargo");
    assert_eq!(Operation::Uninstall.invocation("x").program, cargo_workspace::operation::PROGRAM);
}
