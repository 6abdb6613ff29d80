//! Routing of the payloads that the chat transport returns when the operator
//! presses a button.
use crate::text::{chars_of, find_first, first_from, first_occurrence, occurs_at, starts_at};
use crate::token::{base64_text, is_base64_char};
use vstd::prelude::*;
use vstd::string::*;

verus! {

/// What a button press asks for.
#[derive(Debug)]
pub enum CallbackAction {
    /// Select a model of the Ollama backend.
    SetModel(String),
    /// Show the actions for a server.
    MenuServer(String),
    /// Run discovery on a server.
    Discover(String),
    /// Remove a server.
    Remove(String),
    /// Decide on a pending command: its token and the chosen label.
    ToolRun { token: String, label: String },
    /// A payload that names no action.
    Ignored,
}

pub enum CallbackView {
    SetModel(Seq<char>),
    MenuServer(Seq<char>),
    Discover(Seq<char>),
    Remove(Seq<char>),
    ToolRun { token: Seq<char>, label: Seq<char> },
    Ignored,
}

impl View for CallbackAction {
    type V = CallbackView;

    open spec fn view(&self) -> CallbackView {
        match self {
            CallbackAction::SetModel(m) => CallbackView::SetModel(m@),
            CallbackAction::MenuServer(a) => CallbackView::MenuServer(a@),
            CallbackAction::Discover(a) => CallbackView::Discover(a@),
            CallbackAction::Remove(a) => CallbackView::Remove(a@),
            CallbackAction::ToolRun { token, label } => CallbackView::ToolRun {
                token: token@,
                label: label@,
            },
            CallbackAction::Ignored => CallbackView::Ignored,
        }
    }
}

/// `d` begins with `p`.
pub open spec fn has_prefix(d: Seq<char>, p: Seq<char>) -> bool {
    occurs_at(d, p, 0)
}

/// The action that a payload names: a known prefix and what follows it; for a
/// pending command, the token up to the first `:` and the label after it.
pub open spec fn callback_of(d: Seq<char>) -> CallbackView {
    if has_prefix(d, "set_model:"@) {
        CallbackView::SetModel(d.skip(10))
    } else if has_prefix(d, "menu_server:"@) {
        CallbackView::MenuServer(d.skip(12))
    } else if has_prefix(d, "act_discover:"@) {
        CallbackView::Discover(d.skip(13))
    } else if has_prefix(d, "act_remove:"@) {
        CallbackView::Remove(d.skip(11))
    } else if has_prefix(d, "tool_run:"@) {
        let rest = d.skip(9);
        match first_occurrence(rest, ":"@) {
            Some(k) => CallbackView::ToolRun { token: rest.take(k), label: rest.skip(k + 1) },
            None => CallbackView::Ignored,
        }
    } else {
        CallbackView::Ignored
    }
}

fn after_prefix(d: &str, cs: &Vec<char>, p: &str) -> (r: Option<String>)
    requires
        cs@ == d@,
    ensures
        r is Some <==> has_prefix(d@, p@),
        r matches Some(s) ==> s@ == d@.skip(p@.len() as int),
{
    let pc = chars_of(p);
    if starts_at(cs, &pc, 0) {
        Some(String::from_str(d.substring_char(pc.len(), cs.len())))
    } else {
        None
    }
}

/// Reads a button payload.
pub fn parse_callback(data: &str) -> (r: CallbackAction)
    ensures
        r@ == callback_of(data@),
{
    proof {
        reveal_strlit("set_model:");
        reveal_strlit("menu_server:");
        reveal_strlit("act_discover:");
        reveal_strlit("act_remove:");
        reveal_strlit("tool_run:");
        reveal_strlit(":");
    }
    let cs = chars_of(data);
    if let Some(m) = after_prefix(data, &cs, "set_model:") {
        return CallbackAction::SetModel(m);
    }
    if let Some(a) = after_prefix(data, &cs, "menu_server:") {
        return CallbackAction::MenuServer(a);
    }
    if let Some(a) = after_prefix(data, &cs, "act_discover:") {
        return CallbackAction::Discover(a);
    }
    if let Some(a) = after_prefix(data, &cs, "act_remove:") {
        return CallbackAction::Remove(a);
    }
    match after_prefix(data, &cs, "tool_run:") {
        None => CallbackAction::Ignored,
        Some(rest) => {
            let rc = chars_of(rest.as_str());
            let colon = chars_of(":");
            match find_first(&rc, &colon) {
                None => CallbackAction::Ignored,
                Some(k) => {
                    let n = rc.len();
                    let token = String::from_str(rest.as_str().substring_char(0, k));
                    let label = String::from_str(rest.as_str().substring_char(k + 1, n));
                    assert(token@ =~= rest@.take(k as int));
                    assert(label@ =~= rest@.skip(k + 1));
                    CallbackAction::ToolRun { token, label }
                },
            }
        },
    }
}

proof fn lemma_colon_after(t: Seq<char>, rest: Seq<char>, k: int)
    requires
        base64_text(t),
        rest == t + ":"@ + rest.skip(t.len() as int + 1),
        ":"@ == seq![':'],
        0 <= k <= t.len(),
    ensures
        first_from(rest, ":"@, k) == Some(t.len() as int),
    decreases t.len() - k,
{
    assert(rest[t.len() as int] == ':');
    if k < t.len() {
        assert(is_base64_char(t[k]));
        assert(rest[k] == t[k]);
        assert(rest.subrange(k, k + 1)[0] == rest[k]);
        assert(!occurs_at(rest, ":"@, k));
        lemma_colon_after(t, rest, k + 1);
    } else {
        assert(rest.subrange(k, k + 1) =~= ":"@);
    }
}

/// The payload of a confirmation button gives back the token and the label it
/// was built from, for any token in the Base64 alphabet.
pub proof fn lemma_confirmation_payload(token: Seq<char>, label: Seq<char>)
    requires
        base64_text(token),
    ensures
        callback_of("tool_run:"@ + token + ":"@ + label) == (CallbackView::ToolRun { token, label }),
{
    reveal_strlit("set_model:");
    reveal_strlit("menu_server:");
    reveal_strlit("act_discover:");
    reveal_strlit("act_remove:");
    reveal_strlit("tool_run:");
    reveal_strlit(":");
    let d = "tool_run:"@ + token + ":"@ + label;
    assert(d[0] == 't');
    assert(!has_prefix(d, "set_model:"@)) by {
        if has_prefix(d, "set_model:"@) {
            assert(d.subrange(0, 10)[0] == d[0]);
        }
    }
    assert(!has_prefix(d, "menu_server:"@)) by {
        if has_prefix(d, "menu_server:"@) {
            assert(d.subrange(0, 12)[0] == d[0]);
        }
    }
    assert(!has_prefix(d, "act_discover:"@)) by {
        if has_prefix(d, "act_discover:"@) {
            assert(d.subrange(0, 13)[0] == d[0]);
        }
    }
    assert(!has_prefix(d, "act_remove:"@)) by {
        if has_prefix(d, "act_remove:"@) {
            assert(d.subrange(0, 11)[0] == d[0]);
        }
    }
    assert(d.subrange(0, 9) =~= "tool_run:"@);
    let rest = d.skip(9);
    assert(rest =~= token + ":"@ + label);
    assert(rest.skip(token.len() as int + 1) =~= label);
    assert(":"@ =~= seq![':']);
    lemma_colon_after(token, rest, 0);
    assert(rest.take(token.len() as int) =~= token);
}

} // verus!
