use index_admin::client::IndexError;
use index_admin::commands::{parse_command, parse_i32, Command};
use index_admin::model::{PlatformTargets, Version};
use index_admin::review::{
    admin_dashboard, begin_iteration, choose_version, dispatch_command, plan_validation,
    AdminAction, Directive, LoopStep, ValidatePlan, Warning,
};

fn plain_version(version: &str) -> Version {
    Version {
        name: format!("{} name", version),
        version: version.to_string(),
        description: None,
        geode: "2.0.0".to_string(),
        early_load: false,
        api: false,
        gd: PlatformTargets {
            win: None,
            mac: None,
            android32: None,
            android64: None,
            ios: None,
        },
        dependencies: None,
        incompatibilities: None,
    }
}

#[test]
fn parse_i32_accepts_plain_and_signed_decimals() {
    assert_eq!(parse_i32("0"), Some(0));
    assert_eq!(parse_i32("42"), Some(42));
    assert_eq!(parse_i32("-17"), Some(-17));
    assert_eq!(parse_i32("+5"), Some(5));
    assert_eq!(parse_i32("00042"), Some(42));
    assert_eq!(parse_i32("-0"), Some(0));
}

#[test]
fn parse_i32_honors_the_i32_range_exactly() {
    assert_eq!(parse_i32("2147483647"), Some(i32::MAX));
    assert_eq!(parse_i32("-2147483648"), Some(i32::MIN));
    assert_eq!(parse_i32("2147483648"), None);
    assert_eq!(parse_i32("-2147483649"), None);
    assert_eq!(parse_i32("99999999999999999999"), None);
}

#[test]
fn parse_i32_rejects_everything_else() {
    assert_eq!(parse_i32(""), None);
    assert_eq!(parse_i32("-"), None);
    assert_eq!(parse_i32("+"), None);
    assert_eq!(parse_i32("--1"), None);
    assert_eq!(parse_i32("1a"), None);
    assert_eq!(parse_i32("a1"), None);
    assert_eq!(parse_i32("1 "), None);
    assert_eq!(parse_i32("1.5"), None);
}

#[test]
fn parse_command_recognizes_the_menu_letters() {
    assert_eq!(parse_command("n"), Command::Next);
    assert_eq!(parse_command("p"), Command::Prev);
    assert_eq!(parse_command("v"), Command::Validate);
    assert_eq!(parse_command("r"), Command::Reject);
    assert_eq!(parse_command("q"), Command::Quit);
    assert_eq!(parse_command("7"), Command::Goto(7));
    assert_eq!(parse_command("-3"), Command::Goto(-3));
    assert_eq!(parse_command("next"), Command::Unknown);
    assert_eq!(parse_command(""), Command::Unknown);
    assert_eq!(parse_command("?"), Command::Unknown);
}

#[test]
fn zero_count_ends_the_session_before_rendering() {
    assert_eq!(begin_iteration(0), LoopStep::NoPending);
    assert_eq!(begin_iteration(1), LoopStep::Display);
    assert_eq!(begin_iteration(3), LoopStep::Display);
}

#[test]
fn interior_navigation_moves_one_step_each_way() {
    assert_eq!(dispatch_command(2, 3, &Command::Next), Directive::Move(3));
    assert_eq!(dispatch_command(2, 3, &Command::Prev), Directive::Move(1));
}

#[test]
fn boundary_navigation_is_a_no_op() {
    assert_eq!(dispatch_command(3, 3, &Command::Next), Directive::Move(3));
    assert_eq!(dispatch_command(1, 3, &Command::Prev), Directive::Move(1));
    assert_eq!(dispatch_command(1, 1, &Command::Next), Directive::Move(1));
    assert_eq!(dispatch_command(1, 1, &Command::Prev), Directive::Move(1));
}

#[test]
fn goto_moves_exactly_when_in_range() {
    assert_eq!(dispatch_command(1, 3, &Command::Goto(2)), Directive::Move(2));
    assert_eq!(dispatch_command(1, 3, &Command::Goto(1)), Directive::Move(1));
    assert_eq!(dispatch_command(1, 3, &Command::Goto(3)), Directive::Move(3));
    assert_eq!(
        dispatch_command(1, 3, &Command::Goto(0)),
        Directive::Warned(Warning::InvalidPage)
    );
    assert_eq!(
        dispatch_command(1, 3, &Command::Goto(4)),
        Directive::Warned(Warning::InvalidPage)
    );
    assert_eq!(
        dispatch_command(1, 3, &Command::Goto(-2)),
        Directive::Warned(Warning::InvalidPage)
    );
}

#[test]
fn unrecognized_input_only_warns() {
    assert_eq!(
        dispatch_command(2, 3, &parse_command("hello")),
        Directive::Warned(Warning::InvalidInput)
    );
}

#[test]
fn reject_is_a_deliberate_no_op_and_quit_stops() {
    assert_eq!(dispatch_command(2, 3, &Command::Reject), Directive::Ignore);
    assert_eq!(dispatch_command(2, 3, &Command::Quit), Directive::Stop);
    assert_eq!(
        dispatch_command(2, 3, &Command::Validate),
        Directive::BeginValidate
    );
}

#[test]
fn three_commands_walk_the_cursor_one_two_three_two() {
    let count = 3;
    let mut page = 1;
    let mut seen = vec![page];
    for input in ["n", "n", "p"] {
        match dispatch_command(page, count, &parse_command(input)) {
            Directive::Move(q) => {
                page = q;
                seen.push(page);
            }
            other => panic!("navigation produced {:?}", other),
        }
    }
    assert_eq!(seen, vec![1, 2, 3, 2]);
}

#[test]
fn single_version_validates_without_a_prompt() {
    let one = vec![plain_version("1.0.0")];
    assert_eq!(plan_validation(&one), ValidatePlan::Immediate);
    let two = vec![plain_version("1.0.0"), plain_version("1.1.0")];
    assert_eq!(plan_validation(&two), ValidatePlan::NeedPrompt);
    let none: Vec<Version> = vec![];
    assert_eq!(plan_validation(&none), ValidatePlan::NeedPrompt);
}

#[test]
fn prompted_choice_needs_an_exact_version_match() {
    let versions = vec![plain_version("1.0.0"), plain_version("1.1.0")];
    assert_eq!(choose_version(&versions, "1.1.0"), Some(1));
    assert_eq!(choose_version(&versions, "1.0.0"), Some(0));
    assert_eq!(choose_version(&versions, "9.9.9"), None);
    assert_eq!(choose_version(&versions, "1.1"), None);
    assert_eq!(choose_version(&versions, ""), None);
}

#[test]
fn dashboard_refuses_a_missing_token_before_any_call() {
    let refused = admin_dashboard(AdminAction::ListPending, &None);
    match refused {
        Err(e) => {
            assert_eq!(e, IndexError::NotLoggedIn);
            assert_eq!(e.message(), "You are not logged in!");
        }
        Ok(_) => panic!("a session started without a token"),
    }
}

#[test]
fn dashboard_starts_a_session_at_the_first_page() {
    let session = admin_dashboard(AdminAction::ListPending, &Some("tok-123".to_string()));
    match session {
        Ok(s) => {
            assert_eq!(s.page, 1);
            assert_eq!(s.token, "tok-123");
        }
        Err(_) => panic!("a present token was refused"),
    }
}
