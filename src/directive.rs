//! Extraction of an embedded command directive from a free-form assistant reply.
use crate::text::{
    chars_of, lemma_trim_idempotent, same_text, find_first, first_occurrence, remove_all, remove_all_str, skip_leading,
    strip_leading, trim, trim_str,
};
use vstd::prelude::*;
use vstd::string::*;

verus! {

/// The literal that introduces a command inside a reply.
pub const MARKER: &'static str = "RUN:";

/// Markup that a model may wrap around a command, removed in this order.
pub open spec fn strip_markup(s: Seq<char>) -> Seq<char> {
    remove_all(
        remove_all(
            remove_all(
                remove_all(remove_all(remove_all(s, "<code>"@), "</code>"@), "<b>"@),
                "</b>"@,
            ),
            "<i>"@,
        ),
        "</i>"@,
    )
}

/// The command that follows the marker found at position `i` of `reply`.
pub open spec fn command_after(reply: Seq<char>, i: int) -> Seq<char> {
    trim(strip_markup(trim(strip_leading(reply.skip(i), MARKER@))))
}

/// The preamble and command that a reply carries: the whole reply and no command
/// when the marker is absent or nothing usable follows it.
pub open spec fn directive_of(reply: Seq<char>) -> (Seq<char>, Option<Seq<char>>) {
    match first_occurrence(reply, MARKER@) {
        None => (reply, None),
        Some(i) => {
            let cmd = command_after(reply, i);
            if cmd.len() == 0 {
                (reply, None)
            } else {
                (trim(reply.take(i)), Some(cmd))
            }
        },
    }
}

/// What a reply asks for: text to show, and possibly a command to run.
pub struct Directive {
    pub preamble: String,
    pub command: Option<String>,
}

impl Directive {
    pub open spec fn view_pair(&self) -> (Seq<char>, Option<Seq<char>>) {
        (
            self.preamble@,
            match self.command {
                Some(c) => Some(c@),
                None => None,
            },
        )
    }
}

/// Removes the known inline markup from a command.
pub fn strip_markup_str(s: &str) -> (r: String)
    ensures
        r@ == strip_markup(s@),
{
    let a = remove_all_str(s, "<code>");
    let b = remove_all_str(a.as_str(), "</code>");
    let c = remove_all_str(b.as_str(), "<b>");
    let d = remove_all_str(c.as_str(), "</b>");
    let e = remove_all_str(d.as_str(), "<i>");
    remove_all_str(e.as_str(), "</i>")
}

/// Splits a reply at the first marker into a trimmed preamble and a cleaned command.
pub fn parse_directive(reply: &str) -> (r: Directive)
    ensures
        r.view_pair() == directive_of(reply@),
{
    let cs = chars_of(reply);
    let marker = chars_of(MARKER);
    match find_first(&cs, &marker) {
        None => Directive { preamble: String::from_str(reply), command: None },
        Some(i) => {
            let j = skip_leading(&cs, &marker, i);
            let n = cs.len();
            let after = reply.substring_char(j, n);
            assert(after@ =~= cs@.skip(j as int));
            let raw = trim_str(after);
            let stripped = strip_markup_str(raw.as_str());
            let cmd = trim_str(stripped.as_str());
            if cmd.unicode_len() == 0 {
                Directive { preamble: String::from_str(reply), command: None }
            } else {
                let before = reply.substring_char(0, i);
                assert(before@ =~= reply@.take(i as int));
                Directive { preamble: trim_str(before), command: Some(cmd) }
            }
        },
    }
}

/// The labels that confirm a pending command; any other label declines it.
pub open spec fn is_affirmative(label: Seq<char>) -> bool {
    label == "Run"@ || label == "Confirm"@ || label == "Execute"@
}

/// Whether a confirmation label approves running the pending command.
pub fn affirmative(label: &str) -> (r: bool)
    ensures
        r == is_affirmative(label@),
{
    same_text(label, "Run") || same_text(label, "Confirm") || same_text(label, "Execute")
}

/// The text shown above the confirmation choices.
pub open spec fn confirmation_title(preamble: Seq<char>, cmd: Seq<char>) -> Seq<char> {
    if preamble.len() == 0 {
        "AI suggests running: <code>"@ + cmd + "</code>"@
    } else {
        preamble + "\n\nRunning command: <code>"@ + cmd + "</code>"@
    }
}

/// Builds the confirmation text for a preamble and a command.
pub fn confirmation_title_str(preamble: &str, cmd: &str) -> (r: String)
    ensures
        r@ == confirmation_title(preamble@, cmd@),
{
    let mut s = if preamble.unicode_len() == 0 {
        String::from_str("AI suggests running: <code>")
    } else {
        let mut t = String::from_str(preamble);
        t.append("\n\nRunning command: <code>");
        t
    };
    s.append(cmd);
    s.append("</code>");
    s
}

/// A reply without the marker is a plain answer: the whole reply, no command.
pub proof fn lemma_plain_reply(reply: Seq<char>)
    requires
        first_occurrence(reply, MARKER@) is None,
    ensures
        directive_of(reply) == (reply, Option::<Seq<char>>::None),
{
}

/// A command, when one is found, is never empty and carries no surrounding
/// whitespace.
pub proof fn lemma_command_is_trimmed(reply: Seq<char>)
    ensures
        directive_of(reply).1 matches Some(c) ==> c.len() > 0 && c == trim(c),
{
    if let Some(i) = first_occurrence(reply, MARKER@) {
        let c = command_after(reply, i);
        if c.len() > 0 {
            lemma_trim_idempotent(strip_markup(trim(strip_leading(reply.skip(i), MARKER@))));
        }
    }
}

} // verus!
