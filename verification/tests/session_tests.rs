use shell_suggest::client::build_request_url_str;
use shell_suggest::session::{
    act_on_decision, interpret_selection, Action, Session, UserDecision,
};

#[test]
fn start_joins_arguments_with_spaces() {
    let session = Session::start(&vec!["list".to_string(), "files".to_string()]).unwrap();
    assert_eq!(session.query, "list files");
    assert_eq!(session.context, None);
}

#[test]
fn start_trims_surrounding_whitespace() {
    let session = Session::start(&vec!["  list".to_string(), "files \t".to_string()]).unwrap();
    assert_eq!(session.query, "list files");
}

#[test]
fn start_rejects_no_arguments() {
    assert!(Session::start(&vec![]).is_none());
}

#[test]
fn start_rejects_whitespace_only_arguments() {
    assert!(Session::start(&vec!["  ".to_string(), "\t".to_string()]).is_none());
    assert!(Session::start(&vec!["".to_string(), "".to_string()]).is_none());
}

#[test]
fn start_rejects_unicode_whitespace_only_arguments() {
    // The same characters str::trim removes: no-break space, em space,
    // ideographic space.
    assert!(Session::start(&vec!["\u{00A0}".to_string()]).is_none());
    assert!(Session::start(&vec!["\u{2003}\u{3000}".to_string(), "\u{0085}".to_string()])
        .is_none());
}

#[test]
fn start_trims_unicode_whitespace() {
    let session = Session::start(&vec!["\u{00A0}list".to_string(), "files\u{3000}".to_string()])
        .unwrap();
    assert_eq!(session.query, "\u{00A0}list files\u{3000}".trim());
    assert_eq!(session.query, "list files");
}

#[test]
fn selection_indices_map_to_decisions() {
    assert_eq!(interpret_selection(Some(0)), UserDecision::RunCommand);
    assert_eq!(interpret_selection(Some(1)), UserDecision::ReviseQuery);
    assert_eq!(interpret_selection(Some(2)), UserDecision::Cancel);
    assert_eq!(interpret_selection(Some(9)), UserDecision::Cancel);
    assert_eq!(interpret_selection(None), UserDecision::Cancel);
}

#[test]
fn accept_response_records_command_as_context() {
    let mut session = Session::start(&vec!["list".to_string(), "files".to_string()]).unwrap();
    let raw = "{\"command\":\"ls -la\",\"explanation\":\"Lists all files.\"}";
    let suggestion = session.accept_response(raw).unwrap();
    assert_eq!(suggestion.command, "ls -la");
    assert_eq!(session.context, Some("ls -la".to_string()));
    assert_eq!(session.query, "list files");
}

#[test]
fn accept_response_keeps_session_on_malformed_payload() {
    let mut session = Session::start(&vec!["foo".to_string()]).unwrap();
    assert!(session.accept_response("not json").is_err());
    assert_eq!(session.query, "foo");
    assert_eq!(session.context, None);
}

#[test]
fn revise_rejects_empty_input() {
    let mut session = Session::start(&vec!["foo".to_string()]).unwrap();
    assert!(!session.revise(""));
    assert_eq!(session.query, "foo");
}

#[test]
fn revise_replaces_query_untrimmed() {
    let mut session = Session::start(&vec!["foo".to_string()]).unwrap();
    session.context = Some("ls".to_string());
    assert!(session.revise(" new query "));
    assert_eq!(session.query, " new query ");
    assert_eq!(session.context, Some("ls".to_string()));
}

#[test]
fn run_decision_executes_trimmed_command() {
    match act_on_decision(UserDecision::RunCommand, "  ls -la \n") {
        Action::Execute(command) => assert_eq!(command, "ls -la"),
        _ => panic!("a run decision must execute"),
    }
}

#[test]
fn run_decision_trims_unicode_whitespace() {
    match act_on_decision(UserDecision::RunCommand, "\u{00A0}ls -la\u{2028}\u{3000}") {
        Action::Execute(command) => {
            assert_eq!(command, "\u{00A0}ls -la\u{2028}\u{3000}".trim());
            assert_eq!(command, "ls -la");
        }
        _ => panic!("a run decision must execute"),
    }
}

#[test]
fn cancel_decision_never_executes() {
    assert!(matches!(act_on_decision(UserDecision::Cancel, "ls -la"), Action::Canceled));
    let interrupted = interpret_selection(None);
    assert!(matches!(act_on_decision(interrupted, "ls -la"), Action::Canceled));
}

#[test]
fn revise_decision_asks_for_input() {
    assert!(matches!(act_on_decision(UserDecision::ReviseQuery, "ls"), Action::Revise));
}

#[test]
fn scenario_run_first_suggestion() {
    // args = ["list", "files"]; the endpoint proposes `ls -la`; the user runs it.
    let base = "http://example.net";
    let mut session = Session::start(&vec!["list".to_string(), "files".to_string()]).unwrap();
    assert_eq!(session.query, "list files");
    let mut fetches = 0;

    let url = build_request_url_str(base, &session.query, &session.context).unwrap();
    fetches += 1;
    assert_eq!(url, "http://example.net/?query=list+files&context=");
    let raw = "{\"command\":\"ls -la\",\"explanation\":\"Lists all files including hidden ones.\"}";
    let suggestion = session.accept_response(raw).unwrap();
    assert_eq!(suggestion.command, "ls -la");

    match act_on_decision(interpret_selection(Some(0)), &suggestion.command) {
        Action::Execute(command) => assert_eq!(command, "ls -la"),
        _ => panic!("a run decision must execute"),
    }
    assert_eq!(fetches, 1);
}

#[test]
fn scenario_empty_command_still_runs() {
    // args = ["foo"]; the endpoint cannot suggest anything; running executes
    // the empty trimmed string and the loop still ends.
    let mut session = Session::start(&vec!["foo".to_string()]).unwrap();
    let raw = "{\"command\":\"\",\"explanation\":\"Unable to determine a command.\"}";
    let suggestion = session.accept_response(raw).unwrap();
    assert_eq!(suggestion.command, "");
    assert_eq!(suggestion.explanation, "Unable to determine a command.");
    match act_on_decision(interpret_selection(Some(0)), &suggestion.command) {
        Action::Execute(command) => assert_eq!(command, ""),
        _ => panic!("a run decision must execute"),
    }
}

#[test]
fn scenario_revision_carries_context_forward() {
    // One revise choice, then a run choice: two fetches, and the second
    // fetch's context parameter is the command parsed from the first reply.
    let base = "http://example.net";
    let mut session = Session::start(&vec!["list".to_string(), "files".to_string()]).unwrap();
    let mut fetches = 0;

    let first_url = build_request_url_str(base, &session.query, &session.context).unwrap();
    fetches += 1;
    assert_eq!(first_url, "http://example.net/?query=list+files&context=");
    let first_raw = "{\"command\":\"ls\",\"explanation\":\"Lists files.\"}";
    let first = session.accept_response(first_raw).unwrap();
    assert_eq!(first.command, "ls");

    match act_on_decision(interpret_selection(Some(1)), &first.command) {
        Action::Revise => {},
        _ => panic!("a revise decision must revise"),
    }
    assert!(session.revise("also show hidden files"));
    assert_eq!(session.query, "also show hidden files");

    let second_url = build_request_url_str(base, &session.query, &session.context).unwrap();
    fetches += 1;
    assert_eq!(
        second_url,
        "http://example.net/?query=also+show+hidden+files&context=ls"
    );
    let second_raw = "{\"command\":\"ls -la\",\"explanation\":\"Lists all files.\"}";
    let second = session.accept_response(second_raw).unwrap();

    match act_on_decision(interpret_selection(Some(0)), &second.command) {
        Action::Execute(command) => assert_eq!(command, "ls -la"),
        _ => panic!("a run decision must execute"),
    }
    assert_eq!(fetches, 2);
}

#[test]
fn scenario_cancel_after_revisions_executes_nothing() {
    // However many revisions came before, cancel (here: an interrupted
    // prompt) executes nothing.
    let mut session = Session::start(&vec!["foo".to_string()]).unwrap();
    let raw = "{\"command\":\"rm -rf /\",\"explanation\":\"Dangerous.\"}";
    let first = session.accept_response(raw).unwrap();
    assert!(session.revise("something safer"));
    let second = session.accept_response(raw).unwrap();
    assert_eq!(first.command, second.command);
    match act_on_decision(interpret_selection(None), &second.command) {
        Action::Canceled => {},
        _ => panic!("cancel must cancel"),
    }
}
