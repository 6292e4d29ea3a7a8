use rustybus::config::Action;
use rustybus::config::Config;
use rustybus::config::parse_action;
use rustybus::dispatch::Plan;
use rustybus::dispatch::plan_invocation;

fn strings(parts: &[&str]) -> Vec<String> {
    let mut v = Vec::new();
    for p in parts {
        v.push(p.to_string());
    }
    v
}

#[test]
fn too_few_arguments_fail_with_usage() {
    let args = strings(&["rustybus", "send"]);
    match Config::new(&args) {
        Err(err) => assert_eq!(
            err,
            "Missing arguments. Usage: rustybus <send/receive/peek> <queue name>"
        ),
        Ok(_) => panic!("two arguments must not parse"),
    }
}

#[test]
fn no_arguments_fail_with_usage() {
    let args: Vec<String> = Vec::new();
    assert!(Config::new(&args).is_err());
}

#[test]
fn three_arguments_parse_verbatim() {
    let args = strings(&["rustybus", "send", "myqueue"]);
    let config = Config::new(&args).unwrap();
    assert_eq!(config.action, "send");
    assert_eq!(config.queue, "myqueue");
}

#[test]
fn action_words_map_to_operations() {
    assert_eq!(parse_action("send"), Action::Send);
    assert_eq!(parse_action("receive"), Action::Receive);
    assert_eq!(parse_action("peek"), Action::Peek);
}

#[test]
fn other_action_words_are_unknown() {
    assert_eq!(parse_action("delete"), Action::Unknown);
    assert_eq!(parse_action("SEND"), Action::Unknown);
    assert_eq!(parse_action(""), Action::Unknown);
    assert_eq!(parse_action("send "), Action::Unknown);
}

#[test]
fn short_invocation_plans_usage_line() {
    let args = strings(&["rustybus", "send"]);
    match plan_invocation(&args, String::new()) {
        Plan::Usage(line) => assert_eq!(
            line,
            "Problem parsing arguments: Missing arguments. Usage: rustybus <send/receive/peek> <queue name>"
        ),
        _ => panic!("expected a usage plan"),
    }
}

#[test]
fn unknown_action_plans_invalid_command() {
    let args = strings(&["rustybus", "drop", "myqueue"]);
    match plan_invocation(&args, String::new()) {
        Plan::Invalid(line) => assert_eq!(line, "Invalid command"),
        _ => panic!("an unrecognised action must reach no operation"),
    }
}

#[test]
fn send_plan_flattens_piped_input() {
    let args = strings(&["rustybus", "send", "myqueue"]);
    match plan_invocation(&args, "hello\nworld\n".to_string()) {
        Plan::DoSend { queue, message } => {
            assert_eq!(queue, "myqueue");
            assert_eq!(message, "helloworld");
        },
        _ => panic!("expected a send plan"),
    }
}

#[test]
fn send_plan_without_piped_input_uses_sentinel() {
    let args = strings(&["rustybus", "send", "myqueue"]);
    match plan_invocation(&args, String::new()) {
        Plan::DoSend { queue, message } => {
            assert_eq!(queue, "myqueue");
            assert_eq!(message, "Empty");
        },
        _ => panic!("expected a send plan"),
    }
}

#[test]
fn receive_and_peek_plans_carry_the_queue() {
    let args = strings(&["rustybus", "receive", "q1"]);
    match plan_invocation(&args, String::new()) {
        Plan::DoReceive { queue } => assert_eq!(queue, "q1"),
        _ => panic!("expected a receive plan"),
    }
    let args = strings(&["rustybus", "peek", "q2"]);
    match plan_invocation(&args, String::new()) {
        Plan::DoPeek { queue } => assert_eq!(queue, "q2"),
        _ => panic!("expected a peek plan"),
    }
}
