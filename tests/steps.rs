use brew_steps::steps::{
    all_steps, outdated_query_args, BrewContext, BrewStep, CapturedOutput, RunProgress,
    StepAction, StepError, StepOutcome, ALREADY_UP_TO_DATE, NO_CHANGES, TOOL, UPDATE_BANNER,
};
use brew_steps::steps::{classify_streams, classify_update, starts_with};

fn captured(stdout: &str, stderr: &str, success: bool, code: Option<i32>) -> CapturedOutput {
    CapturedOutput {
        stdout: stdout.to_string(),
        stderr: stderr.to_string(),
        success,
        code,
    }
}

fn changes(stdout: &str, stderr: &str) -> StepOutcome {
    StepOutcome::Changes {
        stdout: stdout.to_string(),
        stderr: stderr.to_string(),
    }
}

#[test]
fn update_banner_then_up_to_date_is_no_changes() {
    let out = classify_update("==> Updating Homebrew...\nAlready up-to-date.\n", "");
    assert_eq!(out, StepOutcome::NoChanges);
}

#[test]
fn update_news_is_passed_through_as_one_block() {
    let out = classify_update("Updated 2 taps.\n==> New Formulae\nfoo\n", "");
    assert_eq!(out, changes("Updated 2 taps.\n==> New Formulae\nfoo", ""));
}

#[test]
fn update_drops_banner_and_blank_lines_and_trailing_space() {
    let out = classify_update(
        "==> Updating Homebrew...\n\n   \nUpdated 1 tap.  \t\r\n",
        "Warning: slow mirror\n",
    );
    assert_eq!(out, changes("Updated 1 tap.\nWarning: slow mirror", ""));
}

#[test]
fn update_with_no_output_is_no_changes() {
    assert_eq!(classify_update("", ""), StepOutcome::NoChanges);
    assert_eq!(classify_update("\n \n", "\t\n"), StepOutcome::NoChanges);
}

#[test]
fn update_up_to_date_on_both_streams_is_no_changes() {
    let out = classify_update("  Already up-to-date.  \n", "Already up-to-date.");
    assert_eq!(out, StepOutcome::NoChanges);
}

#[test]
fn update_up_to_date_beside_news_is_kept() {
    let out = classify_update("Already up-to-date.\nfoo 1.0 -> 1.1", "");
    assert_eq!(out, changes("Already up-to-date.\nfoo 1.0 -> 1.1", ""));
}

#[test]
fn update_keeps_banner_text_that_does_not_start_the_line() {
    let out = classify_update(" ==> Updating Homebrew...", "");
    assert_eq!(out, changes(" ==> Updating Homebrew...", ""));
}

#[test]
fn upgrade_is_settled_without_tool_when_nothing_is_outdated() {
    let ctx = BrewContext { is_outdated: false };
    let first = BrewStep::Upgrade.run(&ctx);
    let second = BrewStep::Upgrade.run(&ctx);
    assert_eq!(first, StepAction::Finish(StepOutcome::NoChanges));
    assert_eq!(second, StepAction::Finish(StepOutcome::NoChanges));
}

#[test]
fn steps_that_need_the_tool_ask_for_it() {
    let outdated = BrewContext { is_outdated: true };
    let current = BrewContext { is_outdated: false };
    assert_eq!(BrewStep::Upgrade.run(&outdated), StepAction::Invoke);
    assert_eq!(BrewStep::Update.run(&current), StepAction::Invoke);
    assert_eq!(BrewStep::Cleanup.run(&current), StepAction::Invoke);
}

#[test]
fn failed_upgrade_is_an_error_and_stops_the_run() {
    let c = captured("partial output", "Error: boom", false, Some(1));
    let result = BrewStep::Upgrade.classify(&c);
    assert_eq!(result, Err(StepError::StepExecution { code: Some(1) }));

    let mut progress = RunProgress::new();
    progress.record(&Ok(StepOutcome::NoChanges));
    assert_eq!(progress.next_step(), Some(BrewStep::Upgrade));
    progress.record(&result);
    assert_eq!(progress.next_step(), None);
    progress.record(&Ok(StepOutcome::NoChanges));
    assert_eq!(progress.next_step(), None);
}

#[test]
fn failed_upgrade_without_code_keeps_none() {
    let c = captured("", "", false, None);
    assert_eq!(
        BrewStep::Upgrade.classify(&c),
        Err(StepError::StepExecution { code: None })
    );
}

#[test]
fn upgrade_output_is_trimmed_per_stream() {
    let c = captured("\n  ==> Upgrading foo\n", "  Warning: bar  \n", true, Some(0));
    assert_eq!(
        BrewStep::Upgrade.classify(&c),
        Ok(changes("==> Upgrading foo", "Warning: bar"))
    );
}

#[test]
fn cleanup_with_empty_streams_is_no_changes() {
    let c = captured("", "", true, Some(0));
    assert_eq!(BrewStep::Cleanup.classify(&c), Ok(StepOutcome::NoChanges));
}

#[test]
fn cleanup_ignores_exit_status() {
    let c = captured("Removing: /tmp/foo\n", "", false, Some(1));
    assert_eq!(
        BrewStep::Cleanup.classify(&c),
        Ok(changes("Removing: /tmp/foo", ""))
    );
}

#[test]
fn update_ignores_exit_status() {
    let c = captured("Already up-to-date.\n", "", false, Some(1));
    assert_eq!(BrewStep::Update.classify(&c), Ok(StepOutcome::NoChanges));
}

#[test]
fn streams_with_only_stderr_show_stderr() {
    assert_eq!(
        classify_streams(" \n", "\u{3000}Error: x\u{a0}"),
        changes("", "Error: x")
    );
}

#[test]
fn two_quiet_runs_report_the_same_no_changes() {
    let run = || {
        let ctx = BrewContext::detect("\n");
        let mut progress = RunProgress::new();
        let mut outcomes = Vec::new();
        while let Some(step) = progress.next_step() {
            let result = match step.run(&ctx) {
                StepAction::Finish(o) => Ok(o),
                StepAction::Invoke => {
                    let c = match step {
                        BrewStep::Update => {
                            captured("==> Updating Homebrew...\nAlready up-to-date.\n", "", true, Some(0))
                        }
                        _ => captured("", "", true, Some(0)),
                    };
                    step.classify(&c)
                }
            };
            progress.record(&result);
            outcomes.push(result);
        }
        outcomes
    };
    let first = run();
    let second = run();
    assert_eq!(first.len(), 3);
    assert!(first.iter().all(|r| *r == Ok(StepOutcome::NoChanges)));
    assert_eq!(first, second);
}

#[test]
fn detect_reads_outdated_query_output() {
    assert!(!BrewContext::detect("").is_outdated);
    assert!(!BrewContext::detect(" \n\t\n").is_outdated);
    assert!(BrewContext::detect("wget\n").is_outdated);
}

#[test]
fn labels_and_arguments_are_fixed() {
    assert_eq!(BrewStep::Update.label(), "Updating Homebrew...");
    assert_eq!(BrewStep::Upgrade.label(), "Upgrading Homebrew...");
    assert_eq!(BrewStep::Cleanup.label(), "Cleaning up...");
    assert_eq!(BrewStep::Update.args(), vec!["update"]);
    assert_eq!(BrewStep::Upgrade.args(), vec!["upgrade"]);
    assert_eq!(BrewStep::Cleanup.args(), vec!["cleanup", "-s"]);
    assert_eq!(outdated_query_args(), vec!["outdated", "--quiet"]);
    assert_eq!(TOOL, "brew");
    assert_eq!(NO_CHANGES, "No changes.");
    assert_eq!(ALREADY_UP_TO_DATE, "Already up-to-date.");
}

#[test]
fn steps_run_in_fixed_order_with_counter() {
    assert_eq!(
        all_steps(),
        vec![BrewStep::Update, BrewStep::Upgrade, BrewStep::Cleanup]
    );
    let mut progress = RunProgress::new();
    let mut seen = Vec::new();
    while let Some(step) = progress.next_step() {
        seen.push((progress.counter(), step));
        progress.record(&Ok(StepOutcome::NoChanges));
    }
    assert_eq!(
        seen,
        vec![
            ((1, 3), BrewStep::Update),
            ((2, 3), BrewStep::Upgrade),
            ((3, 3), BrewStep::Cleanup)
        ]
    );
}

#[test]
fn prefix_test_matches_banner() {
    assert!(starts_with("==> Updating Homebrew...", UPDATE_BANNER));
    assert!(!starts_with("==> Updating", UPDATE_BANNER));
    assert!(starts_with("abc", ""));
}
