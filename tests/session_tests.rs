use pocket_sentinel::session::{
    CommandResponse, ConfirmError, Role, SessionError, SessionManager, Turn,
};
use pocket_sentinel::callback::{parse_callback, CallbackAction};
use pocket_sentinel::token::{command_token, EncodingError};

const REMINDER: &str = "\n(Use RUN: <command> to run a command.)";

fn ordinals_follow_order(h: &[Turn]) {
    for (i, t) in h.iter().enumerate() {
        assert_eq!(t.ordinal, i);
    }
}

fn history(m: &SessionManager, id: i64) -> Vec<(Role, String)> {
    m.transcript(id)
        .unwrap()
        .into_iter()
        .map(|t| (t.role, t.content))
        .collect()
}

#[test]
fn disk_check_scenario_ends_with_five_turns() {
    let mut m = SessionManager::new();
    m.start_session(1, "db1".to_string(), "You manage db1.".to_string());
    let sent = m.process_user_input(1, "check disk", REMINDER).unwrap();
    assert_eq!(sent.len(), 2);
    assert_eq!(sent[1].content, format!("check disk{}", REMINDER));
    let shown = m.finish_reply(1, Ok("I will check.\nRUN: df -h".to_string()));
    let token = command_token("df -h");
    match shown {
        CommandResponse::InteractiveList { title, options, callback_prefix } => {
            assert_eq!(title, "I will check.\n\nRunning command: <code>df -h</code>");
            assert_eq!(options, vec!["Run".to_string(), "Skip".to_string()]);
            assert_eq!(callback_prefix, format!("tool_run:{}:", token));
        }
        other => panic!("unexpected response {:?}", other),
    }
    let req = m.confirm(1, &token).unwrap();
    assert_eq!(req.alias, "db1");
    assert_eq!(req.command, "df -h");
    let sent = m.add_tool_output(1, Ok("45% used".to_string())).unwrap();
    assert_eq!(sent.last().unwrap().content, "Command executed. Analyze results.");
    let shown = m.finish_reply(1, Ok("Disk usage is healthy.".to_string()));
    match shown {
        CommandResponse::Html(h) => assert_eq!(h, "Disk usage is healthy."),
        other => panic!("unexpected response {:?}", other),
    }
    let h = history(&m, 1);
    let roles: Vec<Role> = h.iter().map(|t| t.0).collect();
    assert_eq!(
        roles,
        vec![Role::System, Role::User, Role::Assistant, Role::User, Role::Assistant]
    );
    assert_eq!(h[1].1, "check disk");
    assert_eq!(h[3].1, "Command Output:\n45% used");
    let s = m.end_session(1).unwrap();
    ordinals_follow_order(&s.history);
}

#[test]
fn two_conversations_interleaved_keep_separate_transcripts() {
    let mut m = SessionManager::new();
    m.start_session(1, "web".to_string(), "sys web".to_string());
    m.start_session(2, "db".to_string(), "sys db".to_string());
    let a = m.process_user_input(1, "hello from one", "").unwrap();
    let b = m.process_user_input(2, "hello from two", "").unwrap();
    assert_eq!(a.len(), 2);
    assert_eq!(b.len(), 2);
    // the slower provider of the first conversation answers last
    let _ = m.finish_reply(2, Ok("answer two".to_string()));
    let _ = m.finish_reply(1, Ok("answer one".to_string()));
    let one = history(&m, 1);
    let two = history(&m, 2);
    assert_eq!(
        one.iter().map(|t| t.1.as_str()).collect::<Vec<_>>(),
        vec!["sys web", "hello from one", "answer one"]
    );
    assert_eq!(
        two.iter().map(|t| t.1.as_str()).collect::<Vec<_>>(),
        vec!["sys db", "hello from two", "answer two"]
    );
}

#[test]
fn confirm_without_pending_call_is_a_session_error() {
    let mut m = SessionManager::new();
    m.start_session(1, "db1".to_string(), "sys".to_string());
    let r = m.confirm(1, &command_token("ls"));
    assert_eq!(r.unwrap_err(), ConfirmError::Session(SessionError::NothingPending));
    assert_eq!(history(&m, 1).len(), 1);
    let r = m.confirm(9, &command_token("ls"));
    assert_eq!(r.unwrap_err(), ConfirmError::Session(SessionError::NoActiveSession));
}

#[test]
fn reject_appends_one_turn_and_returns_to_active() {
    let mut m = SessionManager::new();
    m.start_session(1, "db1".to_string(), "sys".to_string());
    m.process_user_input(1, "restart nginx", "").unwrap();
    let _ = m.finish_reply(1, Ok("RUN: systemctl restart nginx".to_string()));
    let before = history(&m, 1).len();
    assert_eq!(m.reject(1), Ok(()));
    let h = history(&m, 1);
    assert_eq!(h.len(), before + 1);
    assert_eq!(h.last().unwrap().1, "I skipped the command execution.");
    assert!(m.process_user_input(1, "ok", "").is_ok());
    assert_eq!(m.reject(1), Err(SessionError::NothingPending));
}

#[test]
fn resolve_treats_unknown_label_as_reject() {
    let mut m = SessionManager::new();
    m.start_session(1, "db1".to_string(), "sys".to_string());
    m.process_user_input(1, "q", "").unwrap();
    let _ = m.finish_reply(1, Ok("RUN: uptime".to_string()));
    let token = command_token("uptime");
    assert!(m.resolve(1, "maybe", &token).unwrap().is_none());
    assert_eq!(history(&m, 1).last().unwrap().1, "I skipped the command execution.");
}

#[test]
fn resolve_with_run_label_returns_command() {
    let mut m = SessionManager::new();
    m.start_session(1, "db1".to_string(), "sys".to_string());
    m.process_user_input(1, "q", "").unwrap();
    let _ = m.finish_reply(1, Ok("RUN: uptime".to_string()));
    let req = m.resolve(1, "Run", &command_token("uptime")).unwrap().unwrap();
    assert_eq!(req.command, "uptime");
    let e = m.resolve(1, "Run", "%%%").unwrap_err();
    assert!(matches!(e, ConfirmError::Encoding(_)));
    let e = m.resolve(1, "Run", &command_token("reboot")).unwrap_err();
    assert_eq!(e, ConfirmError::Session(SessionError::TokenMismatch));
}

#[test]
fn provider_failure_leaves_session_unchanged() {
    let mut m = SessionManager::new();
    m.start_session(1, "db1".to_string(), "sys".to_string());
    m.process_user_input(1, "q", "").unwrap();
    match m.finish_reply(1, Err("timeout".to_string())) {
        CommandResponse::Text(t) => assert_eq!(t, "AI Error: timeout"),
        other => panic!("unexpected response {:?}", other),
    }
    assert_eq!(history(&m, 1).len(), 2);
}

#[test]
fn late_reply_after_end_is_discarded() {
    let mut m = SessionManager::new();
    m.start_session(1, "db1".to_string(), "sys".to_string());
    m.process_user_input(1, "q", "").unwrap();
    assert!(m.end_session(1).is_some());
    match m.finish_reply(1, Ok("late".to_string())) {
        CommandResponse::Text(t) => assert_eq!(t, "No active session."),
        other => panic!("unexpected response {:?}", other),
    }
    assert!(!m.has_session(1));
    assert!(m.end_session(1).is_none());
    assert_eq!(m.add_tool_output(1, Ok("x".to_string())).unwrap_err(), SessionError::NoActiveSession);
}

#[test]
fn input_while_awaiting_confirmation_is_refused() {
    let mut m = SessionManager::new();
    m.start_session(1, "db1".to_string(), "sys".to_string());
    m.process_user_input(1, "q", "").unwrap();
    let _ = m.finish_reply(1, Ok("RUN: ls".to_string()));
    assert_eq!(
        m.process_user_input(1, "another", "").unwrap_err(),
        SessionError::AwaitingConfirmation
    );
    assert_eq!(m.get_alias(1).as_deref(), Some("db1"));
}

#[test]
fn failed_command_output_is_recorded_as_error_text() {
    let mut m = SessionManager::new();
    m.start_session(1, "db1".to_string(), "sys".to_string());
    m.process_user_input(1, "q", "").unwrap();
    let _ = m.finish_reply(1, Ok("RUN: ls".to_string()));
    m.add_tool_output(1, Err("connection refused".to_string())).unwrap();
    assert_eq!(history(&m, 1).last().unwrap().1, "Command Output:\nError: connection refused");
}

#[test]
fn confirm_with_non_base64_token_is_an_encoding_error() {
    let mut m = SessionManager::new();
    m.start_session(1, "db1".to_string(), "sys".to_string());
    m.process_user_input(1, "q", "").unwrap();
    let _ = m.finish_reply(1, Ok("RUN: ls".to_string()));
    assert_eq!(
        m.confirm(1, "not:base64").unwrap_err(),
        ConfirmError::Encoding(EncodingError::NotBase64)
    );
    assert_eq!(
        m.resolve(1, "Execute", "%%").unwrap_err(),
        ConfirmError::Encoding(EncodingError::NotBase64)
    );
    // still waiting: the operator may retry
    assert_eq!(m.confirm(1, &command_token("ls")).unwrap().command, "ls");
}

#[test]
fn confirmation_button_payload_carries_the_token_back() {
    let mut m = SessionManager::new();
    m.start_session(1, "db1".to_string(), "sys".to_string());
    m.process_user_input(1, "q", "").unwrap();
    let prefix = match m.finish_reply(1, Ok("RUN: echo a:b".to_string())) {
        CommandResponse::InteractiveList { callback_prefix, .. } => callback_prefix,
        other => panic!("unexpected {:?}", other),
    };
    match parse_callback(&format!("{}Confirm", prefix)) {
        CallbackAction::ToolRun { token, label } => {
            assert_eq!(label, "Confirm");
            let req = m.resolve(1, &label, &token).unwrap().unwrap();
            assert_eq!(req.command, "echo a:b");
        }
        other => panic!("unexpected {:?}", other),
    }
}

#[test]
fn resolve_without_session_reports_no_active_session() {
    let mut m = SessionManager::new();
    assert_eq!(
        m.resolve(5, "Run", &command_token("ls")).unwrap_err(),
        ConfirmError::Session(SessionError::NoActiveSession)
    );
}

#[test]
fn add_message_appends_with_next_ordinal() {
    let mut m = SessionManager::new();
    assert!(!m.add_message(1, Role::User, "nobody"));
    m.start_session(1, "db1".to_string(), "sys".to_string());
    assert!(m.add_message(1, Role::Assistant, "note"));
    let t = m.transcript(1).unwrap();
    assert_eq!(t.len(), 2);
    assert_eq!(t[1].ordinal, 1);
    assert_eq!(t[1].role, Role::Assistant);
    assert_eq!(t[1].content, "note");
}
