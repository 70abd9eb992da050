use docli::action::ActionDescriptor;
use docli::action::Operation;
use docli::action::Param;
use docli::action::ResourceKind;
use docli::context::resolve_credential;
use docli::context::Credential;
use docli::context::ExecutionContext;
use docli::outcome::BackendView;
use docli::outcome::Outcome;
use docli::outcome::Payload;
use docli::pipeline::Need;
use docli::pipeline::Phase;
use docli::pipeline::Pipeline;
use docli::pipeline::Terminal;

fn cred() -> Credential {
    resolve_credential(Some("a".repeat(64)), None).unwrap()
}

fn ctx(verbose: bool, dry_run: bool, skip_confirm: bool) -> ExecutionContext {
    ExecutionContext::merge(false, false, verbose, dry_run, skip_confirm, cred())
}

fn param(name: &str, value: &str) -> Param {
    Param { name: name.to_string(), value: value.to_string() }
}

#[test]
fn read_and_list_are_not_mutating() {
    assert!(!ActionDescriptor::new(ResourceKind::Account, Operation::Read, Vec::new()).mutating);
    assert!(!ActionDescriptor::new(ResourceKind::Droplet, Operation::List, Vec::new()).mutating);
}

#[test]
fn create_update_delete_custom_are_mutating() {
    assert!(ActionDescriptor::new(ResourceKind::Domain, Operation::Create, Vec::new()).mutating);
    assert!(ActionDescriptor::new(ResourceKind::Image, Operation::Update, Vec::new()).mutating);
    assert!(ActionDescriptor::new(ResourceKind::Domain, Operation::Delete, Vec::new()).mutating);
    let reboot = Operation::CustomAction { name: "reboot".to_string() };
    assert!(ActionDescriptor::new(ResourceKind::Droplet, reboot, Vec::new()).mutating);
}

#[test]
fn list_droplets_plain_run_calls_backend_once_and_reports() {
    // quiet context: no preview, no prompt, straight to the one call
    let d = ActionDescriptor::new(ResourceKind::Droplet, Operation::List, Vec::new());
    let (mut p, lines, need) = Pipeline::start(d, ctx(false, false, false));
    assert!(lines.is_empty());
    assert_eq!(need, Need::Call);
    // the pipeline asks for exactly one call: after on_response it is done
    let view = BackendView {
        outcome: Outcome::Success {
            payload: Payload::Items(vec!["droplet one".to_string()]),
        },
        raw: None,
    };
    let (out, done) = p.on_response(view);
    assert_eq!(done, Need::Done(Terminal::Reported));
    assert_eq!(p.phase, Phase::Finished(Terminal::Reported));
    assert_eq!(out.len(), 3);
    assert!(out[1].contains("Success"));
    assert_eq!(out[2], "\tdroplet one");
}

#[test]
fn empty_list_prints_an_explicit_no_items_line() {
    let d = ActionDescriptor::new(ResourceKind::Droplet, Operation::List, Vec::new());
    let (mut p, _, need) = Pipeline::start(d, ctx(false, false, false));
    assert_eq!(need, Need::Call);
    let view = BackendView {
        outcome: Outcome::Success { payload: Payload::Items(Vec::new()) },
        raw: None,
    };
    let (out, _) = p.on_response(view);
    assert_eq!(out[2], "\tNo items to display");
}

#[test]
fn declined_delete_never_reaches_the_backend() {
    // mutating descriptor, confirmation not skipped, answer "n"
    let d = ActionDescriptor::new(
        ResourceKind::Domain,
        Operation::Delete,
        vec![param("name", "example.com")],
    );
    let (mut p, lines, need) = Pipeline::start(d, ctx(false, false, false));
    assert!(lines.is_empty());
    assert_eq!(need, Need::Answer);
    let done = p.on_answer("n");
    assert_eq!(done, Need::Done(Terminal::ConfirmAbort));
    assert_eq!(p.phase, Phase::Finished(Terminal::ConfirmAbort));
    // the run is over with no success or failure report
}

#[test]
fn read_only_descriptor_is_never_confirmed() {
    // skip_confirm off, but the descriptor does not mutate
    let d = ActionDescriptor::new(ResourceKind::Droplet, Operation::List, Vec::new());
    let (_, _, need) = Pipeline::start(d, ctx(false, false, false));
    assert_ne!(need, Need::Answer);
}

#[test]
fn skip_confirm_bypasses_the_gate_for_mutating_descriptors() {
    let d = ActionDescriptor::new(ResourceKind::Image, Operation::Delete, Vec::new());
    let (_, _, need) = Pipeline::start(d, ctx(false, false, true));
    assert_eq!(need, Need::Call);
}

#[test]
fn verbose_dry_run_previews_but_never_prompts_or_calls() {
    // mutating descriptor: the dry-run gate precedes confirmation
    let d = ActionDescriptor::new(
        ResourceKind::Image,
        Operation::Update,
        vec![param("id", "123"), param("name", "new-name")],
    );
    let (p, lines, need) = Pipeline::start(d, ctx(true, true, false));
    assert_eq!(need, Need::Done(Terminal::DryRunStop));
    assert_eq!(p.phase, Phase::Finished(Terminal::DryRunStop));
    assert_eq!(lines.len(), 2);
    assert!(lines[0].contains("Displaying sent request..."));
    assert_eq!(
        lines[1],
        "\tresource: image\n\toperation: update\n\tparam id = 123\n\tparam name = new-name"
    );
}

#[test]
fn quiet_dry_run_stops_with_no_output() {
    let d = ActionDescriptor::new(ResourceKind::Domain, Operation::Delete, Vec::new());
    let (_, lines, need) = Pipeline::start(d, ctx(false, true, false));
    assert!(lines.is_empty());
    assert_eq!(need, Need::Done(Terminal::DryRunStop));
}

#[test]
fn verbose_mutating_run_previews_prompts_then_executes_in_order() {
    let d = ActionDescriptor::new(
        ResourceKind::Droplet,
        Operation::CustomAction { name: "reboot".to_string() },
        vec![param("id", "42")],
    );
    let (mut p, lines, need) = Pipeline::start(d, ctx(true, false, false));
    // preview first
    assert_eq!(lines.len(), 2);
    assert!(lines[0].contains("Displaying sent request..."));
    // then the prompt
    assert_eq!(need, Need::Answer);
    let next = p.on_answer("y");
    // only then the backend call
    assert_eq!(next, Need::Call);
    let view = BackendView {
        outcome: Outcome::Success { payload: Payload::Record("accepted".to_string()) },
        raw: Some("{\"action\": 7}".to_string()),
    };
    let (out, done) = p.on_response(view);
    assert_eq!(done, Need::Done(Terminal::Reported));
    // raw view first, then the report
    assert!(out[0].contains("Displaying JSON response from DigitalOcean..."));
    assert_eq!(out[1], "\t{\"action\": 7}");
    assert!(out[2].contains("Requesting reboot for droplet"));
    assert!(out[3].contains("Success"));
    assert_eq!(out[4], "\taccepted");
}

#[test]
fn quiet_run_ignores_a_raw_view() {
    let d = ActionDescriptor::new(ResourceKind::Account, Operation::Read, Vec::new());
    let (mut p, _, need) = Pipeline::start(d, ctx(false, false, false));
    assert_eq!(need, Need::Call);
    let view = BackendView {
        outcome: Outcome::Success { payload: Payload::Record("info".to_string()) },
        raw: Some("{}".to_string()),
    };
    let (out, _) = p.on_response(view);
    assert_eq!(out.len(), 3);
    assert!(!out[0].contains("JSON response"));
}

#[test]
fn backend_failure_is_reported_and_terminal() {
    let d = ActionDescriptor::new(ResourceKind::Domain, Operation::List, Vec::new());
    let (mut p, _, need) = Pipeline::start(d, ctx(false, false, false));
    assert_eq!(need, Need::Call);
    let view = BackendView {
        outcome: Outcome::Failure { error: "503 service unavailable".to_string() },
        raw: None,
    };
    let (out, done) = p.on_response(view);
    assert_eq!(done, Need::Done(Terminal::Reported));
    assert!(out[1].contains("Failed"));
    assert_eq!(out[2], "\t503 service unavailable");
}

fn run_reboot_once() -> Vec<String> {
    let d = ActionDescriptor::new(
        ResourceKind::Droplet,
        Operation::CustomAction { name: "power-cycle".to_string() },
        vec![param("id", "11")],
    );
    let (mut p, mut all, need) = Pipeline::start(d, ctx(true, false, false));
    assert_eq!(need, Need::Answer);
    let next = p.on_answer("");
    assert_eq!(next, Need::Call);
    let view = BackendView {
        outcome: Outcome::Success { payload: Payload::Record("in-progress".to_string()) },
        raw: Some("{\"status\": \"in-progress\"}".to_string()),
    };
    let (mut out, _) = p.on_response(view);
    all.append(&mut out);
    all
}

#[test]
fn identical_runs_produce_byte_identical_output() {
    // reporting is pure: a stubbed deterministic backend gives the same
    // bytes on every run
    assert_eq!(run_reboot_once(), run_reboot_once());
}
