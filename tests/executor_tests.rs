use pocket_sentinel::dispatch::{
    end_session_reply, exec_reply, models_menu, provider_menu, remove_reply, servers_menu,
};
use pocket_sentinel::executor::{decimal_text, signed_text, SshExecutor};
use pocket_sentinel::session::CommandResponse;

#[test]
fn numbers_are_written_in_decimal() {
    assert_eq!(decimal_text(0), "0");
    assert_eq!(decimal_text(22), "22");
    assert_eq!(decimal_text(u64::MAX), "18446744073709551615");
    assert_eq!(signed_text(-1), "-1");
    assert_eq!(signed_text(i64::MIN), "-9223372036854775808");
    assert_eq!(signed_text(130), "130");
}

#[test]
fn connection_address() {
    assert_eq!(SshExecutor::address("10.0.0.1", 22), "10.0.0.1:22");
    assert_eq!(SshExecutor::address("::1", 65535), "::1:65535");
}

#[test]
fn command_outcomes() {
    assert_eq!(SshExecutor::outcome(0, "ok\n".into(), "".into()), Ok("ok\n".to_string()));
    assert_eq!(
        SshExecutor::outcome(0, "".into(), "warning".into()),
        Ok("(stderr): warning".to_string())
    );
    assert_eq!(SshExecutor::outcome(0, "".into(), "".into()), Ok(String::new()));
    assert_eq!(
        SshExecutor::outcome(2, "out".into(), "err".into()),
        Err("Command exited with status 2.\nStdout: out\nStderr: err".to_string())
    );
    assert_eq!(
        SshExecutor::outcome(-1, "".into(), "".into()),
        Err("Command exited with status -1.\nStdout: \nStderr: ".to_string())
    );
}

#[test]
fn dispatcher_replies() {
    assert_eq!(end_session_reply(true), "Session ended. Returning to normal mode.");
    assert_eq!(end_session_reply(false), "No active session to end.");
    assert_eq!(remove_reply("web", true), "Server 'web' removed.");
    assert_eq!(remove_reply("web", false), "Server 'web' not found.");
    assert_eq!(exec_reply("web", Ok("up".into())), "Output from web:\nup");
    assert_eq!(exec_reply("web", Err("down".into())), "Error executing on web: down");
}

#[test]
fn menus() {
    match servers_menu(Vec::new()) {
        CommandResponse::Text(t) => assert_eq!(t, "No servers configured."),
        other => panic!("unexpected {:?}", other),
    }
    match servers_menu(vec!["web".into()]) {
        CommandResponse::InteractiveList { title, options, callback_prefix } => {
            assert_eq!(title, "Select a server to manage:");
            assert_eq!(options, vec!["web".to_string()]);
            assert_eq!(callback_prefix, "menu_server:");
        }
        other => panic!("unexpected {:?}", other),
    }
    match models_menu(Vec::new()) {
        CommandResponse::Text(t) => {
            assert_eq!(t, "No models found. Provider might not support listing models.")
        }
        other => panic!("unexpected {:?}", other),
    }
    match provider_menu() {
        CommandResponse::InteractiveList { options, callback_prefix, .. } => {
            assert_eq!(options, vec!["ollama", "openai", "gemini"]);
            assert_eq!(callback_prefix, "set_provider:");
        }
        other => panic!("unexpected {:?}", other),
    }
}
