use pocket_sentinel::command::SystemCommand;

#[test]
fn simple_commands_parse() {
    assert!(matches!(SystemCommand::from_str("/status"), SystemCommand::GetStatus));
    assert!(matches!(SystemCommand::from_str("  /help  "), SystemCommand::Help));
    assert!(matches!(SystemCommand::from_str("/servers"), SystemCommand::ListServers));
    assert!(matches!(SystemCommand::from_str("/ai_models"), SystemCommand::ListAiModels));
    assert!(matches!(SystemCommand::from_str("/current_model"), SystemCommand::AiInfo));
    assert!(matches!(SystemCommand::from_str("/about"), SystemCommand::Explain));
    assert!(matches!(SystemCommand::from_str("/quit"), SystemCommand::EndSession));
    assert!(matches!(SystemCommand::from_str(""), SystemCommand::Unknown));
    assert!(matches!(SystemCommand::from_str("/status now"), SystemCommand::Unknown));
    assert!(matches!(SystemCommand::from_str("hello"), SystemCommand::Unknown));
}

#[test]
fn add_and_remove_parse_arguments() {
    match SystemCommand::from_str("/add prod 10.0.0.5 root") {
        SystemCommand::AddServer { alias, host, user } => {
            assert_eq!((alias.as_str(), host.as_str(), user.as_str()), ("prod", "10.0.0.5", "root"));
        }
        other => panic!("unexpected {:?}", other),
    }
    assert!(matches!(SystemCommand::from_str("/add prod 10.0.0.5"), SystemCommand::Unknown));
    match SystemCommand::from_str("/remove prod") {
        SystemCommand::RemoveServer { alias } => assert_eq!(alias, "prod"),
        other => panic!("unexpected {:?}", other),
    }
}

#[test]
fn free_text_arguments_are_rejoined() {
    match SystemCommand::from_str("/ask  why   is\tthe disk full") {
        SystemCommand::Ask { question } => assert_eq!(question, "why is the disk full"),
        other => panic!("unexpected {:?}", other),
    }
    match SystemCommand::from_str("/ask") {
        SystemCommand::Ask { question } => assert_eq!(question, ""),
        other => panic!("unexpected {:?}", other),
    }
    match SystemCommand::from_str("/exec web ls -la /tmp") {
        SystemCommand::Exec { alias, cmd } => {
            assert_eq!(alias, "web");
            assert_eq!(cmd, "ls -la /tmp");
        }
        other => panic!("unexpected {:?}", other),
    }
    match SystemCommand::from_str("/count_tokens a b") {
        SystemCommand::CountTokens { text } => assert_eq!(text, "a b"),
        other => panic!("unexpected {:?}", other),
    }
}

#[test]
fn provider_and_config_commands() {
    match SystemCommand::from_str("/provider") {
        SystemCommand::SetProvider { provider } => assert!(provider.is_none()),
        other => panic!("unexpected {:?}", other),
    }
    match SystemCommand::from_str("/set_provider gemini") {
        SystemCommand::SetProvider { provider } => assert_eq!(provider.as_deref(), Some("gemini")),
        other => panic!("unexpected {:?}", other),
    }
    match SystemCommand::from_str("/config_ollama llama3 http://h:1/api") {
        SystemCommand::ConfigOllama { model, base_url } => {
            assert_eq!(model, "llama3");
            assert_eq!(base_url.as_deref(), Some("http://h:1/api"));
        }
        other => panic!("unexpected {:?}", other),
    }
    match SystemCommand::from_str("/investigate db") {
        SystemCommand::Investigate { alias } => assert_eq!(alias, "db"),
        other => panic!("unexpected {:?}", other),
    }
    match SystemCommand::from_str("/discover db") {
        SystemCommand::Discover { alias } => assert_eq!(alias, "db"),
        other => panic!("unexpected {:?}", other),
    }
}

#[test]
fn help_lists_every_command() {
    let info = SystemCommand::all_commands_info();
    assert_eq!(info.len(), 13);
    assert_eq!(info[0], ("/status", "Check bot status"));
    let help = SystemCommand::help_message();
    assert!(help.starts_with("Available commands:\n  /status - Check bot status\n"));
    assert!(help.ends_with("  /explain - Explain how this software works\n"));
    assert_eq!(help.lines().count(), 14);
}
