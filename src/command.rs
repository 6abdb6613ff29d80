//! The operator's slash commands and their parsing.
use crate::text::{join_from, join_words, same_text, split_whitespace, split_words, strings_view};
use vstd::prelude::*;
use vstd::string::*;

verus! {

/// An action that the operator can ask for.
#[derive(Debug)]
pub enum SystemCommand {
    /// Checks the bot's operational status.
    GetStatus,
    /// Displays the help message with available commands.
    Help,
    /// Adds a new server to the configuration.
    AddServer { alias: String, host: String, user: String },
    /// Removes a server from the configuration.
    RemoveServer { alias: String },
    /// Lists all configured servers.
    ListServers,
    /// Executes a shell command on a specific server.
    Exec { alias: String, cmd: String },
    /// Asks the assistant a question.
    Ask { question: String },
    /// Shows or sets the active assistant backend.
    SetProvider { provider: Option<String> },
    /// Configures the Ollama backend.
    ConfigOllama { model: String, base_url: Option<String> },
    /// Lists the models of the current backend.
    ListAiModels,
    /// Shows the current backend.
    AiInfo,
    /// Gathers system information from a server.
    Discover { alias: String },
    /// Estimates the number of tokens of a text.
    CountTokens { text: String },
    /// Explains the software and its architecture.
    Explain,
    /// Starts an interactive session about a server.
    Investigate { alias: String },
    /// Ends the current interactive session.
    EndSession,
    /// An unrecognized or malformed command.
    Unknown,
}

pub enum CommandView {
    GetStatus,
    Help,
    AddServer { alias: Seq<char>, host: Seq<char>, user: Seq<char> },
    RemoveServer { alias: Seq<char> },
    ListServers,
    Exec { alias: Seq<char>, cmd: Seq<char> },
    Ask { question: Seq<char> },
    SetProvider { provider: Option<Seq<char>> },
    ConfigOllama { model: Seq<char>, base_url: Option<Seq<char>> },
    ListAiModels,
    AiInfo,
    Discover { alias: Seq<char> },
    CountTokens { text: Seq<char> },
    Explain,
    Investigate { alias: Seq<char> },
    EndSession,
    Unknown,
}

pub open spec fn opt_view(o: Option<String>) -> Option<Seq<char>> {
    match o {
        Some(s) => Some(s@),
        None => None,
    }
}

impl View for SystemCommand {
    type V = CommandView;

    open spec fn view(&self) -> CommandView {
        match self {
            SystemCommand::GetStatus => CommandView::GetStatus,
            SystemCommand::Help => CommandView::Help,
            SystemCommand::AddServer { alias, host, user } => CommandView::AddServer {
                alias: alias@,
                host: host@,
                user: user@,
            },
            SystemCommand::RemoveServer { alias } => CommandView::RemoveServer { alias: alias@ },
            SystemCommand::ListServers => CommandView::ListServers,
            SystemCommand::Exec { alias, cmd } => CommandView::Exec { alias: alias@, cmd: cmd@ },
            SystemCommand::Ask { question } => CommandView::Ask { question: question@ },
            SystemCommand::SetProvider { provider } => CommandView::SetProvider {
                provider: opt_view(*provider),
            },
            SystemCommand::ConfigOllama { model, base_url } => CommandView::ConfigOllama {
                model: model@,
                base_url: opt_view(*base_url),
            },
            SystemCommand::ListAiModels => CommandView::ListAiModels,
            SystemCommand::AiInfo => CommandView::AiInfo,
            SystemCommand::Discover { alias } => CommandView::Discover { alias: alias@ },
            SystemCommand::CountTokens { text } => CommandView::CountTokens { text: text@ },
            SystemCommand::Explain => CommandView::Explain,
            SystemCommand::Investigate { alias } => CommandView::Investigate { alias: alias@ },
            SystemCommand::EndSession => CommandView::EndSession,
            SystemCommand::Unknown => CommandView::Unknown,
        }
    }
}

/// The command that a list of words spells.
pub open spec fn command_of(w: Seq<Seq<char>>) -> CommandView {
    let n = w.len();
    if n == 0 {
        CommandView::Unknown
    } else {
        let h = w[0];
        if h == "/status"@ && n == 1 {
            CommandView::GetStatus
        } else if h == "/help"@ && n == 1 {
            CommandView::Help
        } else if h == "/servers"@ && n == 1 {
            CommandView::ListServers
        } else if h == "/add"@ && n == 4 {
            CommandView::AddServer { alias: w[1], host: w[2], user: w[3] }
        } else if h == "/remove"@ && n == 2 {
            CommandView::RemoveServer { alias: w[1] }
        } else if h == "/ask"@ {
            CommandView::Ask { question: join_words(w.skip(1)) }
        } else if (h == "/provider"@ || h == "/set_provider"@) && n == 1 {
            CommandView::SetProvider { provider: None }
        } else if (h == "/provider"@ || h == "/set_provider"@) && n == 2 {
            CommandView::SetProvider { provider: Some(w[1]) }
        } else if h == "/config_ollama"@ && n == 2 {
            CommandView::ConfigOllama { model: w[1], base_url: None }
        } else if h == "/config_ollama"@ && n == 3 {
            CommandView::ConfigOllama { model: w[1], base_url: Some(w[2]) }
        } else if (h == "/models"@ || h == "/ai_models"@) && n == 1 {
            CommandView::ListAiModels
        } else if (h == "/current_model"@ || h == "/ai_info"@) && n == 1 {
            CommandView::AiInfo
        } else if h == "/discover"@ && n == 2 {
            CommandView::Discover { alias: w[1] }
        } else if h == "/exec"@ && n >= 2 {
            CommandView::Exec { alias: w[1], cmd: join_words(w.skip(2)) }
        } else if h == "/tokens"@ || h == "/count_tokens"@ {
            CommandView::CountTokens { text: join_words(w.skip(1)) }
        } else if (h == "/explain"@ || h == "/about"@) && n == 1 {
            CommandView::Explain
        } else if h == "/investigate"@ && n == 2 {
            CommandView::Investigate { alias: w[1] }
        } else if (h == "/exit"@ || h == "/stop"@ || h == "/end"@ || h == "/quit"@) && n == 1 {
            CommandView::EndSession
        } else {
            CommandView::Unknown
        }
    }
}

fn copy_word(w: &Vec<String>, i: usize) -> (r: String)
    requires
        i < w.len(),
    ensures
        r@ == w@[i as int]@,
{
    String::from_str(w[i].as_str())
}

impl SystemCommand {
    /// Parses a line of operator input by its whitespace-separated words.
    pub fn from_str(input: &str) -> (r: SystemCommand)
        ensures
            r@ == command_of(split_words(input@)),
    {
        let w = split_whitespace(input);
        let n = w.len();
        assert(n == split_words(input@).len());
        if n == 0 {
            return SystemCommand::Unknown;
        }
        let h = w[0].as_str();
        assert(h@ == split_words(input@)[0]);
        if same_text(h, "/status") && n == 1 {
            SystemCommand::GetStatus
        } else if same_text(h, "/help") && n == 1 {
            SystemCommand::Help
        } else if same_text(h, "/servers") && n == 1 {
            SystemCommand::ListServers
        } else if same_text(h, "/add") && n == 4 {
            SystemCommand::AddServer {
                alias: copy_word(&w, 1),
                host: copy_word(&w, 2),
                user: copy_word(&w, 3),
            }
        } else if same_text(h, "/remove") && n == 2 {
            SystemCommand::RemoveServer { alias: copy_word(&w, 1) }
        } else if same_text(h, "/ask") {
            SystemCommand::Ask { question: join_from(&w, 1) }
        } else if (same_text(h, "/provider") || same_text(h, "/set_provider")) && n == 1 {
            SystemCommand::SetProvider { provider: None }
        } else if (same_text(h, "/provider") || same_text(h, "/set_provider")) && n == 2 {
            SystemCommand::SetProvider { provider: Some(copy_word(&w, 1)) }
        } else if same_text(h, "/config_ollama") && n == 2 {
            SystemCommand::ConfigOllama { model: copy_word(&w, 1), base_url: None }
        } else if same_text(h, "/config_ollama") && n == 3 {
            SystemCommand::ConfigOllama { model: copy_word(&w, 1), base_url: Some(copy_word(&w, 2)) }
        } else if (same_text(h, "/models") || same_text(h, "/ai_models")) && n == 1 {
            SystemCommand::ListAiModels
        } else if (same_text(h, "/current_model") || same_text(h, "/ai_info")) && n == 1 {
            SystemCommand::AiInfo
        } else if same_text(h, "/discover") && n == 2 {
            SystemCommand::Discover { alias: copy_word(&w, 1) }
        } else if same_text(h, "/exec") && n >= 2 {
            SystemCommand::Exec { alias: copy_word(&w, 1), cmd: join_from(&w, 2) }
        } else if same_text(h, "/tokens") || same_text(h, "/count_tokens") {
            SystemCommand::CountTokens { text: join_from(&w, 1) }
        } else if (same_text(h, "/explain") || same_text(h, "/about")) && n == 1 {
            SystemCommand::Explain
        } else if same_text(h, "/investigate") && n == 2 {
            SystemCommand::Investigate { alias: copy_word(&w, 1) }
        } else if (same_text(h, "/exit") || same_text(h, "/stop") || same_text(h, "/end")
            || same_text(h, "/quit")) && n == 1 {
            SystemCommand::EndSession
        } else {
            SystemCommand::Unknown
        }
    }
}

/// The commands listed in the help message, each with its description.
pub open spec fn commands_info() -> Seq<(Seq<char>, Seq<char>)> {
    seq![
        ("/status"@, "Check bot status"@),
        ("/help"@, "Show this help message"@),
        ("/servers"@, "List configured servers"@),
        ("/add <alias> <host> <user>"@, "Add a new server"@),
        ("/remove <alias>"@, "Remove a server by alias"@),
        ("/exec <alias> <cmd>"@, "Execute a shell command on a server"@),
        ("/ask <question>"@, "Ask the AI a question"@),
        ("/provider [name]"@, "Show or set current AI provider (ollama, openai, gemini)"@),
        ("/models"@, "List available AI models"@),
        ("/current_model"@, "Show current AI provider and model"@),
        ("/discover <alias>"@, "Analyze a server's state"@),
        ("/tokens <text>"@, "Count estimated tokens in text"@),
        ("/explain"@, "Explain how this software works"@),
    ]
}

/// The views of a list of command descriptions.
pub open spec fn info_view(v: Seq<(&str, &str)>) -> Seq<(Seq<char>, Seq<char>)> {
    v.map_values(|p: (&str, &str)| (p.0@, p.1@))
}

/// The help message: a heading, then one line per command.
pub open spec fn help_text(info: Seq<(Seq<char>, Seq<char>)>) -> Seq<char>
    decreases info.len(),
{
    if info.len() == 0 {
        "Available commands:\n"@
    } else {
        help_text(info.drop_last()) + "  "@ + info.last().0 + " - "@ + info.last().1 + "\n"@
    }
}

impl SystemCommand {
    /// The commands and their descriptions, for the help message.
    pub fn all_commands_info() -> (r: Vec<(&'static str, &'static str)>)
        ensures
            info_view(r@) == commands_info(),
    {
        let r = vec![
            ("/status", "Check bot status"),
            ("/help", "Show this help message"),
            ("/servers", "List configured servers"),
            ("/add <alias> <host> <user>", "Add a new server"),
            ("/remove <alias>", "Remove a server by alias"),
            ("/exec <alias> <cmd>", "Execute a shell command on a server"),
            ("/ask <question>", "Ask the AI a question"),
            ("/provider [name]", "Show or set current AI provider (ollama, openai, gemini)"),
            ("/models", "List available AI models"),
            ("/current_model", "Show current AI provider and model"),
            ("/discover <alias>", "Analyze a server's state"),
            ("/tokens <text>", "Count estimated tokens in text"),
            ("/explain", "Explain how this software works"),
        ];
        assert(info_view(r@) =~= commands_info());
        r
    }

    /// The help message listing every command.
    pub fn help_message() -> (r: String)
        ensures
            r@ == help_text(commands_info()),
    {
        let info = SystemCommand::all_commands_info();
        let mut out = String::from_str("Available commands:\n");
        let mut i: usize = 0;
        assert(info_view(info@).take(0) =~= Seq::<(Seq<char>, Seq<char>)>::empty());
        while i < info.len()
            invariant
                i <= info@.len(),
                info_view(info@) == commands_info(),
                out@ == help_text(info_view(info@).take(i as int)),
            decreases info@.len() - i,
        {
            let ghost v = info_view(info@);
            assert(v.take(i + 1).drop_last() =~= v.take(i as int));
            let (c, d) = info[i];
            out.append("  ");
            out.append(c);
            out.append(" - ");
            out.append(d);
            out.append("\n");
            i = i + 1;
        }
        assert(info_view(info@).take(info@.len() as int) =~= info_view(info@));
        out
    }
}

} // verus!
