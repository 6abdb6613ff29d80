//! Decisions of the command dispatcher that do not depend on any outside service.
use crate::session::{CommandResponse, ResponseView};
use crate::text::{chars_of, concat2, find_first, first_occurrence, strings_view};
use vstd::prelude::*;
use vstd::string::*;
use vstd::utf8::encode_utf8;

verus! {

/// `q` mentions `a`.
pub open spec fn mentions(q: Seq<char>, a: Seq<char>) -> bool {
    first_occurrence(q, a) is Some
}

/// The length of `s` in UTF-8 bytes, as `str::len` gives it.
pub open spec fn byte_len(s: Seq<char>) -> usize {
    encode_utf8(s).len() as usize
}

/// Alias `i` of `al` is mentioned in `q`, and every other mentioned alias is
/// shorter in bytes or, being as long, comes later.
pub open spec fn is_best_mention(q: Seq<char>, al: Seq<Seq<char>>, i: int) -> bool {
    &&& 0 <= i < al.len()
    &&& mentions(q, al[i])
    &&& forall|j: int|
        0 <= j < al.len() && #[trigger] mentions(q, al[j]) ==> byte_len(al[j]) < byte_len(al[i]) || (
        byte_len(al[j]) == byte_len(al[i]) && i <= j)
}

/// Picks the server that a question is about: the only one when there is one,
/// and otherwise the longest alias that the question mentions, the earlier of
/// two equally long ones.
pub fn infer_target_alias(question: &str, aliases: &Vec<String>) -> (r: Option<String>)
    ensures
        aliases@.len() == 1 ==> (r matches Some(a) && a@ == aliases@[0]@),
        aliases@.len() != 1 ==> {
            &&& r is None <==> forall|j: int|
                0 <= j < aliases@.len() ==> !#[trigger] mentions(question@, strings_view(aliases@)[j])
            &&& r matches Some(a) ==> exists|i: int|
                is_best_mention(question@, strings_view(aliases@), i) && a@ == aliases@[i]@
        },
{
    let n = aliases.len();
    if n == 1 {
        return Some(String::from_str(aliases[0].as_str()));
    }
    let q = chars_of(question);
    let ghost al = strings_view(aliases@);
    let mut best: Option<usize> = None;
    let mut best_len: usize = 0;
    let mut i: usize = 0;
    while i < n
        invariant
            n == aliases@.len(),
            al == strings_view(aliases@),
            q@ == question@,
            i <= n,
            best is None <==> forall|j: int| 0 <= j < i ==> !#[trigger] mentions(question@, al[j]),
            best matches Some(b) ==> b < i && best_len == byte_len(al[b as int]) && mentions(
                question@,
                al[b as int],
            ) && forall|j: int|
                0 <= j < i && #[trigger] mentions(question@, al[j]) ==> byte_len(al[j]) < byte_len(
                    al[b as int],
                ) || (byte_len(al[j]) == byte_len(al[b as int]) && b <= j),
        decreases n - i,
    {
        let a = aliases[i].as_str();
        assert(a@ == al[i as int]);
        let ac = chars_of(a);
        let len = a.len();
        assert(len == byte_len(al[i as int]));
        let found = find_first(&q, &ac).is_some();
        assert(found == mentions(question@, al[i as int]));
        if found {
            match best {
                None => {
                    best = Some(i);
                    best_len = len;
                },
                Some(_) => {
                    if len > best_len {
                        best = Some(i);
                        best_len = len;
                    }
                },
            }
        }
        i = i + 1;
    }
    match best {
        None => None,
        Some(b) => {
            assert(is_best_mention(question@, al, b as int));
            Some(String::from_str(aliases[b].as_str()))
        },
    }
}

/// The reply to a request to end the session.
pub fn end_session_reply(existed: bool) -> (r: String)
    ensures
        r@ == if existed {
            "Session ended. Returning to normal mode."@
        } else {
            "No active session to end."@
        },
{
    if existed {
        String::from_str("Session ended. Returning to normal mode.")
    } else {
        String::from_str("No active session to end.")
    }
}

/// The reply to a removal of a server.
pub fn remove_reply(alias: &str, removed: bool) -> (r: String)
    ensures
        r@ == "Server '"@ + alias@ + if removed {
            "' removed."@
        } else {
            "' not found."@
        },
{
    let mut s = concat2("Server '", alias);
    if removed {
        s.append("' removed.");
    } else {
        s.append("' not found.");
    }
    s
}

/// The reply to a command run directly on a server.
pub fn exec_reply(alias: &str, outcome: Result<String, String>) -> (r: String)
    ensures
        r@ == match outcome {
            Ok(out) => "Output from "@ + alias@ + ":\n"@ + out@,
            Err(e) => "Error executing on "@ + alias@ + ": "@ + e@,
        },
{
    match outcome {
        Ok(out) => {
            let mut s = concat2("Output from ", alias);
            s.append(":\n");
            s.append(out.as_str());
            s
        },
        Err(e) => {
            let mut s = concat2("Error executing on ", alias);
            s.append(": ");
            s.append(e.as_str());
            s
        },
    }
}

/// A menu of `options`, or the text `empty` when there are none.
pub open spec fn menu_of(options: Seq<Seq<char>>, title: Seq<char>, prefix: Seq<char>, empty: Seq<
    char,
>) -> ResponseView {
    if options.len() == 0 {
        ResponseView::Text(empty)
    } else {
        ResponseView::InteractiveList { title, options, callback_prefix: prefix }
    }
}

fn menu(options: Vec<String>, title: &str, prefix: &str, empty: &str) -> (r: CommandResponse)
    ensures
        r@ == menu_of(strings_view(options@), title@, prefix@, empty@),
{
    if options.len() == 0 {
        CommandResponse::Text(String::from_str(empty))
    } else {
        CommandResponse::InteractiveList {
            title: String::from_str(title),
            options,
            callback_prefix: String::from_str(prefix),
        }
    }
}

/// The menu of configured servers.
pub fn servers_menu(aliases: Vec<String>) -> (r: CommandResponse)
    ensures
        r@ == menu_of(
            strings_view(aliases@),
            "Select a server to manage:"@,
            "menu_server:"@,
            "No servers configured."@,
        ),
{
    menu(aliases, "Select a server to manage:", "menu_server:", "No servers configured.")
}

/// The menu of a backend's models.
pub fn models_menu(models: Vec<String>) -> (r: CommandResponse)
    ensures
        r@ == menu_of(
            strings_view(models@),
            "Available AI Models. Click to select:"@,
            "set_model:"@,
            "No models found. Provider might not support listing models."@,
        ),
{
    menu(
        models,
        "Available AI Models. Click to select:",
        "set_model:",
        "No models found. Provider might not support listing models.",
    )
}

/// The menu of backends.
pub fn provider_menu() -> (r: CommandResponse)
    ensures
        r@ == (ResponseView::InteractiveList {
            title: "Select AI Provider:"@,
            options: seq!["ollama"@, "openai"@, "gemini"@],
            callback_prefix: "set_provider:"@,
        }),
{
    let mut options: Vec<String> = Vec::new();
    options.push(String::from_str("ollama"));
    options.push(String::from_str("openai"));
    options.push(String::from_str("gemini"));
    let r = CommandResponse::InteractiveList {
        title: String::from_str("Select AI Provider:"),
        options,
        callback_prefix: String::from_str("set_provider:"),
    };
    assert(strings_view(options@) =~= seq!["ollama"@, "openai"@, "gemini"@]);
    r
}

} // verus!
