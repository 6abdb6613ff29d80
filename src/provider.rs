//! The provider abstraction: a closed set of assistant backends, their settings,
//! the process-wide selection of the active one, and the parts of each backend's
//! protocol that are computed rather than sent.
use crate::session::{turns_view, Role, SessionError, Turn, TurnView};
use crate::text::{concat2, remove_all, remove_all_str, same_text};
use vstd::prelude::*;
use vstd::string::*;

verus! {

/// The kinds of assistant backend.
#[derive(PartialEq, Eq, Structural, Debug, Clone, Copy)]
pub enum AiProvider {
    OpenAI,
    Ollama,
    Gemini,
}

/// The backend that a name selects, if it names one.
pub open spec fn provider_named(name: Seq<char>) -> Option<AiProvider> {
    if name == "openai"@ {
        Some(AiProvider::OpenAI)
    } else if name == "ollama"@ {
        Some(AiProvider::Ollama)
    } else if name == "gemini"@ {
        Some(AiProvider::Gemini)
    } else {
        None
    }
}

/// The name of a backend.
pub open spec fn provider_name(p: AiProvider) -> Seq<char> {
    match p {
        AiProvider::OpenAI => "openai"@,
        AiProvider::Ollama => "ollama"@,
        AiProvider::Gemini => "gemini"@,
    }
}

/// A backend's name selects that backend.
pub proof fn lemma_name_round_trip(p: AiProvider)
    ensures
        provider_named(provider_name(p)) == Some(p),
{
    reveal_strlit("openai");
    reveal_strlit("ollama");
    reveal_strlit("gemini");
    assert("ollama"@[1] != "openai"@[1]);
    assert("gemini"@[0] != "openai"@[0]);
    assert("gemini"@[0] != "ollama"@[0]);
}

/// The lower-case form of `s`, as `str::to_lowercase` gives it.
pub uninterp spec fn lower_of(s: Seq<char>) -> Seq<char>;

/// Relies on `str::to_lowercase`: the result depends on the characters alone.
#[verifier::external_body]
fn lowercase(s: &str) -> (r: String)
    ensures
        r@ == lower_of(s@),
{
    s.to_lowercase()
}

/// The backend that a name selects, ignoring case.
pub open spec fn provider_called(name: Seq<char>) -> Option<AiProvider> {
    provider_named(lower_of(name))
}

impl AiProvider {
    /// Resolves a backend name, ignoring case, over the fixed set of known kinds.
    pub fn from_name(name: &str) -> (r: Option<AiProvider>)
        ensures
            r == provider_called(name@),
    {
        let lowered = lowercase(name);
        AiProvider::from_lowered(lowered.as_str())
    }

    /// Resolves a backend name that is already in lower case.
    pub fn from_lowered(name: &str) -> (r: Option<AiProvider>)
        ensures
            r == provider_named(name@),
    {
        if same_text(name, "openai") {
            Some(AiProvider::OpenAI)
        } else if same_text(name, "ollama") {
            Some(AiProvider::Ollama)
        } else if same_text(name, "gemini") {
            Some(AiProvider::Gemini)
        } else {
            None
        }
    }

    /// The backend's name.
    pub fn name(&self) -> (r: String)
        ensures
            r@ == provider_name(*self),
    {
        match self {
            AiProvider::OpenAI => String::from_str("openai"),
            AiProvider::Ollama => String::from_str("ollama"),
            AiProvider::Gemini => String::from_str("gemini"),
        }
    }
}

/// Settings of the OpenAI backend.
#[derive(Debug)]
pub struct OpenAiConfig {
    pub api_key: String,
    pub model: String,
    pub base_url: String,
}

/// Settings of the Ollama backend.
#[derive(Debug)]
pub struct OllamaConfig {
    pub base_url: String,
    pub model: String,
}

/// Settings of the Gemini backend.
#[derive(Debug)]
pub struct GeminiConfig {
    pub api_key: String,
    pub model: String,
    pub base_url: String,
}

/// The persisted choice of the active backend.
#[derive(Debug)]
pub struct GlobalConfig {
    pub provider: String,
}

/// A stored value, or `default` where none was stored.
pub open spec fn or_default(v: Option<String>, default: Seq<char>) -> Seq<char> {
    match v {
        Some(s) => s@,
        None => default,
    }
}

fn stored_or(v: Option<String>, default: &str) -> (r: String)
    ensures
        r@ == or_default(v, default@),
{
    match v {
        Some(s) => s,
        None => String::from_str(default),
    }
}

/// A stored credential that is present and not empty.
pub open spec fn has_key(k: Option<String>) -> bool {
    k matches Some(s) && s@.len() > 0
}

impl OpenAiConfig {
    /// The built-in settings.
    pub fn load_default() -> (r: Self)
        ensures
            r.api_key@ == Seq::<char>::empty(),
            r.model@ == "gpt-4o"@,
            r.base_url@ == "https://api.openai.com/v1"@,
    {
        OpenAiConfig {
            api_key: String::new(),
            model: String::from_str("gpt-4o"),
            base_url: String::from_str("https://api.openai.com/v1"),
        }
    }

    /// Settings from stored values: none without a stored credential (the caller
    /// then falls back to its file or to the defaults), and otherwise the
    /// default for each value not stored.
    pub fn from_stored(api_key: Option<String>, model: Option<String>, base_url: Option<String>) -> (r:
        Option<Self>)
        ensures
            r is Some <==> has_key(api_key),
            r matches Some(c) ==> c.api_key@ == api_key->Some_0@ && c.model@ == or_default(
                model,
                "gpt-4o"@,
            ) && c.base_url@ == or_default(base_url, "https://api.openai.com/v1"@),
    {
        match api_key {
            Some(k) => {
                if k.unicode_len() == 0 {
                    None
                } else {
                    Some(
                        OpenAiConfig {
                            api_key: k,
                            model: stored_or(model, "gpt-4o"),
                            base_url: stored_or(base_url, "https://api.openai.com/v1"),
                        },
                    )
                }
            },
            None => None,
        }
    }
}

impl OllamaConfig {
    /// The built-in settings.
    pub fn load_default() -> (r: Self)
        ensures
            r.base_url@ == "http://localhost:11434/api"@,
            r.model@ == "llama3"@,
    {
        OllamaConfig {
            base_url: String::from_str("http://localhost:11434/api"),
            model: String::from_str("llama3"),
        }
    }

    /// Settings from stored values, with the default for each value not stored.
    pub fn from_stored(model: Option<String>, base_url: Option<String>) -> (r: Self)
        ensures
            r.model@ == or_default(model, "llama3"@),
            r.base_url@ == or_default(base_url, "http://localhost:11434/api"@),
    {
        OllamaConfig {
            base_url: stored_or(base_url, "http://localhost:11434/api"),
            model: stored_or(model, "llama3"),
        }
    }
}

impl GeminiConfig {
    /// The built-in settings.
    pub fn load_default() -> (r: Self)
        ensures
            r.api_key@ == Seq::<char>::empty(),
            r.model@ == "gemini-pro"@,
            r.base_url@ == "https://generativelanguage.googleapis.com/v1beta/models"@,
    {
        GeminiConfig {
            api_key: String::new(),
            model: String::from_str("gemini-pro"),
            base_url: String::from_str("https://generativelanguage.googleapis.com/v1beta/models"),
        }
    }

    /// Settings from stored values: none without a stored credential, and
    /// otherwise the default for each value not stored.
    pub fn from_stored(api_key: Option<String>, model: Option<String>, base_url: Option<String>) -> (r:
        Option<Self>)
        ensures
            r is Some <==> has_key(api_key),
            r matches Some(c) ==> c.api_key@ == api_key->Some_0@ && c.model@ == or_default(
                model,
                "gemini-pro"@,
            ) && c.base_url@ == or_default(
                base_url,
                "https://generativelanguage.googleapis.com/v1beta/models"@,
            ),
    {
        match api_key {
            Some(k) => {
                if k.unicode_len() == 0 {
                    None
                } else {
                    Some(
                        GeminiConfig {
                            api_key: k,
                            model: stored_or(model, "gemini-pro"),
                            base_url: stored_or(
                                base_url,
                                "https://generativelanguage.googleapis.com/v1beta/models",
                            ),
                        },
                    )
                }
            },
            None => None,
        }
    }
}

impl GlobalConfig {
    /// The built-in choice.
    pub fn load_default() -> (r: Self)
        ensures
            r.provider@ == "ollama"@,
    {
        GlobalConfig { provider: String::from_str("ollama") }
    }

    /// The backend that this choice selects; an unknown name falls back to Ollama.
    pub fn selected(&self) -> (r: AiProvider)
        ensures
            r == match provider_called(self.provider@) {
                Some(p) => p,
                None => AiProvider::Ollama,
            },
    {
        match AiProvider::from_name(self.provider.as_str()) {
            Some(p) => p,
            None => AiProvider::Ollama,
        }
    }
}

/// The settings of every backend.
#[derive(Debug)]
pub struct ProviderConfigs {
    pub openai: OpenAiConfig,
    pub ollama: OllamaConfig,
    pub gemini: GeminiConfig,
}

/// The backend in use and the settings it was bound with.
#[derive(Debug)]
pub struct AiClient {
    provider: AiProvider,
    api_key: String,
    base_url: String,
    model: String,
}

pub struct ClientView {
    pub provider: AiProvider,
    pub api_key: Seq<char>,
    pub base_url: Seq<char>,
    pub model: Seq<char>,
}

impl View for AiClient {
    type V = ClientView;

    closed spec fn view(&self) -> ClientView {
        ClientView {
            provider: self.provider,
            api_key: self.api_key@,
            base_url: self.base_url@,
            model: self.model@,
        }
    }
}

/// The binding of backend `p` with the settings in `c`.
pub open spec fn bound_to(p: AiProvider, c: &ProviderConfigs) -> ClientView {
    match p {
        AiProvider::OpenAI => ClientView {
            provider: p,
            api_key: c.openai.api_key@,
            base_url: c.openai.base_url@,
            model: c.openai.model@,
        },
        AiProvider::Ollama => ClientView {
            provider: p,
            api_key: Seq::empty(),
            base_url: c.ollama.base_url@,
            model: c.ollama.model@,
        },
        AiProvider::Gemini => ClientView {
            provider: p,
            api_key: c.gemini.api_key@,
            base_url: c.gemini.base_url@,
            model: c.gemini.model@,
        },
    }
}

/// The model names that a backend offers without asking it; Ollama is asked.
pub open spec fn known_models(p: AiProvider) -> Option<Seq<Seq<char>>> {
    match p {
        AiProvider::OpenAI => Some(
            seq!["gpt-4o"@, "gpt-4-turbo"@, "gpt-3.5-turbo"@, "gpt-4o-mini"@, "gpt-5-nano"@],
        ),
        AiProvider::Gemini => Some(seq!["gemini-pro"@, "gemini-1.5-pro"@, "gemini-1.5-flash"@]),
        AiProvider::Ollama => None,
    }
}

/// The description of a binding.
pub open spec fn info_of(c: ClientView) -> Seq<char> {
    match c.provider {
        AiProvider::OpenAI => "OpenAI (Model: "@ + c.model + ")"@,
        AiProvider::Ollama => "Ollama (Model: "@ + c.model + ", URL: "@ + c.base_url + ")"@,
        AiProvider::Gemini => "Gemini (Model: "@ + c.model + ")"@,
    }
}

/// The address that a binding sends a prompt to.
pub open spec fn endpoint_of(c: ClientView) -> Seq<char> {
    match c.provider {
        AiProvider::OpenAI => c.base_url + "/chat/completions"@,
        AiProvider::Ollama => c.base_url + "/generate"@,
        AiProvider::Gemini => c.base_url + "/"@ + c.model + ":generateContent?key="@ + c.api_key,
    }
}

/// `s` without its trailing `/` characters.
pub open spec fn trim_slashes(s: Seq<char>) -> Seq<char>
    decreases s.len(),
{
    if s.len() > 0 && s.last() == '/' {
        trim_slashes(s.drop_last())
    } else {
        s
    }
}

/// Where Ollama lists its models, derived from its API base address.
pub open spec fn tags_url_of(base_url: Seq<char>) -> Seq<char> {
    trim_slashes(remove_all(base_url, "/api"@)) + "/api/tags"@
}

/// The success message of a switch to backend `p`.
pub open spec fn switched_text(p: AiProvider) -> Seq<char> {
    "AI provider set to: "@ + provider_name(p)
}

/// The number of tokens of the cl100k_base tokenizer in `s`, special tokens
/// allowed, or `None` where the tokenizer fails on `s`.
pub uninterp spec fn cl100k_count_of(s: Seq<char>) -> Option<nat>;

/// Relies on tiktoken_rs's cached `cl100k_base_singleton` and `CoreBPE::encode`
/// with every special token allowed: the number of tokens, or the tokenizer's
/// error message.
#[verifier::external_body]
fn cl100k_count(text: &str) -> (r: Result<usize, String>)
    ensures
        r is Ok <==> cl100k_count_of(text@) is Some,
        r matches Ok(n) ==> cl100k_count_of(text@) == Some(n as nat),
{
    let bpe = tiktoken_rs::cl100k_base_singleton();
    bpe.encode(text, &bpe.special_tokens()).map(|(t, _)| t.len()).map_err(|e| e.message)
}

/// For model `model`: `None` where tiktoken has no tokenizer for it, and
/// otherwise the number of tokens of that tokenizer in `s`, special tokens
/// allowed, or `None` inside where it fails on `s`.
pub uninterp spec fn model_count_of(model: Seq<char>, s: Seq<char>) -> Option<Option<nat>>;

/// Relies on tiktoken_rs's `bpe_for_model` (the tokenizer of a model name) and
/// `CoreBPE::encode` with every special token allowed.
#[verifier::external_body]
fn model_count(model: &str, text: &str) -> (r: Option<Result<usize, String>>)
    ensures
        r is None <==> model_count_of(model@, text@) is None,
        r matches Some(Err(_)) ==> model_count_of(model@, text@) == Some(Option::<nat>::None),
        r matches Some(Ok(n)) ==> model_count_of(model@, text@) == Some(Some(n as nat)),
{
    match tiktoken_rs::bpe_for_model(model) {
        Err(_) => None,
        Ok(bpe) => Some(
            bpe.encode(text, &bpe.special_tokens()).map(|(t, _)| t.len()).map_err(|e| e.message),
        ),
    }
}

/// A local token estimate for binding `c`: the model's own tokenizer where
/// tiktoken knows the model of an OpenAI binding, and cl100k_base otherwise.
pub open spec fn token_count_of(c: ClientView, s: Seq<char>) -> Option<nat> {
    if c.provider == AiProvider::OpenAI && model_count_of(c.model, s) is Some {
        model_count_of(c.model, s)->Some_0
    } else {
        cl100k_count_of(s)
    }
}

fn strings_of(v: &[&str]) -> (r: Vec<String>)
    ensures
        r@.map_values(|s: String| s@) == v@.map_values(|s: &str| s@),
{
    let mut out: Vec<String> = Vec::new();
    let mut i: usize = 0;
    while i < v.len()
        invariant
            i <= v@.len(),
            out@.map_values(|s: String| s@) =~= v@.take(i as int).map_values(|s: &str| s@),
        decreases v@.len() - i,
    {
        let ghost before = out@;
        out.push(String::from_str(v[i]));
        assert(out@.map_values(|s: String| s@) =~= before.map_values(|s: String| s@).push(
            v@[i as int]@,
        ));
        assert(v@.take(i + 1) =~= v@.take(i as int).push(v@[i as int]));
        assert(v@.take(i + 1).map_values(|s: &str| s@) =~= v@.take(i as int).map_values(
            |s: &str| s@,
        ).push(v@[i as int]@));
        i = i + 1;
    }
    assert(v@.take(v@.len() as int) =~= v@);
    out
}

impl AiClient {
    /// Binds backend `p` with its settings.
    pub fn new(p: AiProvider, c: &ProviderConfigs) -> (r: Self)
        ensures
            r@ == bound_to(p, c),
    {
        match p {
            AiProvider::OpenAI => AiClient {
                provider: p,
                api_key: String::from_str(c.openai.api_key.as_str()),
                base_url: String::from_str(c.openai.base_url.as_str()),
                model: String::from_str(c.openai.model.as_str()),
            },
            AiProvider::Ollama => AiClient {
                provider: p,
                api_key: String::new(),
                base_url: String::from_str(c.ollama.base_url.as_str()),
                model: String::from_str(c.ollama.model.as_str()),
            },
            AiProvider::Gemini => AiClient {
                provider: p,
                api_key: String::from_str(c.gemini.api_key.as_str()),
                base_url: String::from_str(c.gemini.base_url.as_str()),
                model: String::from_str(c.gemini.model.as_str()),
            },
        }
    }

    /// The backend in use.
    pub fn provider(&self) -> (r: AiProvider)
        ensures
            r == self@.provider,
    {
        self.provider
    }

    /// The model in use.
    pub fn model(&self) -> (r: String)
        ensures
            r@ == self@.model,
    {
        String::from_str(self.model.as_str())
    }

    /// The API base address in use.
    pub fn base_url(&self) -> (r: String)
        ensures
            r@ == self@.base_url,
    {
        String::from_str(self.base_url.as_str())
    }

    /// The credential in use.
    pub fn api_key(&self) -> (r: String)
        ensures
            r@ == self@.api_key,
    {
        String::from_str(self.api_key.as_str())
    }

    /// Switches to the backend that `name` selects, replacing the binding whole.
    /// An unknown name is refused and the binding stays as it was.
    pub fn set_provider(&mut self, name: &str, c: &ProviderConfigs) -> (r: Result<String, SessionError>)
        ensures
            match provider_called(name@) {
                None => r == Err::<String, SessionError>(SessionError::UnknownProvider)
                    && final(self)@ == old(self)@,
                Some(p) => final(self)@ == bound_to(p, c) && (r matches Ok(m) && m@
                    == switched_text(p)),
            },
    {
        match AiProvider::from_name(name) {
            None => Err(SessionError::UnknownProvider),
            Some(p) => {
                *self = AiClient::new(p, c);
                let n = p.name();
                Ok(concat2("AI provider set to: ", n.as_str()))
            },
        }
    }

    /// A description of the backend and its settings.
    pub fn get_info(&self) -> (r: String)
        ensures
            r@ == info_of(self@),
    {
        match self.provider {
            AiProvider::OpenAI => {
                let mut s = concat2("OpenAI (Model: ", self.model.as_str());
                s.append(")");
                s
            },
            AiProvider::Ollama => {
                let mut s = concat2("Ollama (Model: ", self.model.as_str());
                s.append(", URL: ");
                s.append(self.base_url.as_str());
                s.append(")");
                s
            },
            AiProvider::Gemini => {
                let mut s = concat2("Gemini (Model: ", self.model.as_str());
                s.append(")");
                s
            },
        }
    }

    /// The address that prompts are sent to.
    pub fn endpoint(&self) -> (r: String)
        ensures
            r@ == endpoint_of(self@),
    {
        match self.provider {
            AiProvider::OpenAI => concat2(self.base_url.as_str(), "/chat/completions"),
            AiProvider::Ollama => concat2(self.base_url.as_str(), "/generate"),
            AiProvider::Gemini => {
                let mut s = concat2(self.base_url.as_str(), "/");
                s.append(self.model.as_str());
                s.append(":generateContent?key=");
                s.append(self.api_key.as_str());
                s
            },
        }
    }

    /// The models the backend offers, where that list is fixed; `None` where
    /// the backend has to be asked.
    pub fn known_models(&self) -> (r: Option<Vec<String>>)
        ensures
            match known_models(self@.provider) {
                Some(m) => r matches Some(v) && v@.map_values(|s: String| s@) == m,
                None => r is None,
            },
    {
        match self.provider {
            AiProvider::OpenAI => {
                let names = ["gpt-4o", "gpt-4-turbo", "gpt-3.5-turbo", "gpt-4o-mini", "gpt-5-nano"];
                let v = strings_of(&names);
                assert(names@.map_values(|s: &str| s@) =~= known_models(self@.provider)->Some_0);
                Some(v)
            },
            AiProvider::Gemini => {
                let names = ["gemini-pro", "gemini-1.5-pro", "gemini-1.5-flash"];
                let v = strings_of(&names);
                assert(names@.map_values(|s: &str| s@) =~= known_models(self@.provider)->Some_0);
                Some(v)
            },
            AiProvider::Ollama => None,
        }
    }

    /// A local estimate of the number of tokens in `text`, never asking the
    /// backend; it fails only where the tokenizer fails.
    pub fn count_tokens(&self, text: &str) -> (r: Result<usize, String>)
        ensures
            r is Ok <==> token_count_of(self@, text@) is Some,
            r matches Ok(n) ==> token_count_of(self@, text@) == Some(n as nat),
    {
        if let AiProvider::OpenAI = self.provider {
            if let Some(c) = model_count(self.model.as_str(), text) {
                return c;
            }
        }
        cl100k_count(text)
    }
}

/// Where Ollama lists its models, for an API base address.
pub fn ollama_tags_url(base_url: &str) -> (r: String)
    ensures
        r@ == tags_url_of(base_url@),
{
    let stripped = remove_all_str(base_url, "/api");
    let mut n = stripped.unicode_len();
    assert(stripped@.take(n as int) =~= stripped@);
    while n > 0 && stripped.get_char(n - 1) == '/'
        invariant
            n <= stripped@.len(),
            trim_slashes(stripped@) == trim_slashes(stripped@.take(n as int)),
        decreases n,
    {
        assert(stripped@.take(n as int).drop_last() =~= stripped@.take(n - 1));
        n = n - 1;
    }
    assert(stripped@.take(n as int) =~= stripped@.subrange(0, n as int));
    let mut r = String::from_str(stripped.as_str().substring_char(0, n));
    r.append("/api/tags");
    r
}

/// The wire name of a role.
pub open spec fn role_name(r: Role) -> Seq<char> {
    match r {
        Role::System => "system"@,
        Role::User => "user"@,
        Role::Assistant => "assistant"@,
    }
}

/// The wire name of a role.
pub fn role_str(r: Role) -> (s: &'static str)
    ensures
        s@ == role_name(r),
{
    match r {
        Role::System => "system",
        Role::User => "user",
        Role::Assistant => "assistant",
    }
}

/// One turn as a line of a single-prompt transcript.
pub open spec fn turn_line(t: TurnView) -> Seq<char> {
    role_name(t.role) + ": "@ + t.content
}

/// A transcript as one prompt, for backends that take no message list: each
/// turn as `role: text`, in order, separated by blank lines.
pub open spec fn single_prompt(ts: Seq<TurnView>) -> Seq<char>
    decreases ts.len(),
{
    if ts.len() == 0 {
        Seq::empty()
    } else if ts.len() == 1 {
        turn_line(ts[0])
    } else {
        single_prompt(ts.drop_last()) + "\n\n"@ + turn_line(ts.last())
    }
}

/// Writes a transcript as one prompt.
pub fn transcript_prompt(turns: &Vec<Turn>) -> (r: String)
    ensures
        r@ == single_prompt(turns_view(turns@)),
{
    let n = turns.len();
    let mut out = String::new();
    let mut i: usize = 0;
    assert(turns_view(turns@).take(0) =~= Seq::<TurnView>::empty());
    while i < n
        invariant
            n == turns@.len(),
            i <= n,
            out@ == single_prompt(turns_view(turns@).take(i as int)),
        decreases n - i,
    {
        let ghost v = turns_view(turns@);
        assert(v.take(i + 1).drop_last() =~= v.take(i as int));
        assert(v.take(i + 1).last() == turns@[i as int]@);
        if i > 0 {
            out.append("\n\n");
        } else {
            assert(v.take(1) =~= seq![turns@[0]@]);
        }
        let ghost before = out@;
        out.append(role_str(turns[i].role));
        out.append(": ");
        out.append(turns[i].content.as_str());
        assert(out@ =~= before + turn_line(turns@[i as int]@));
        i = i + 1;
    }
    assert(turns_view(turns@).take(n as int) =~= turns_view(turns@));
    out
}

/// The reply to a successful switch: its message, with a warning where the new
/// choice could not be persisted. The switch itself stands either way.
pub fn switch_reply(msg: &str, saved: Result<(), String>) -> (r: String)
    ensures
        r@ == match saved {
            Ok(()) => msg@,
            Err(e) => msg@ + " (warning: the choice was not saved and is lost on restart: "@ + e@
                + ")"@,
        },
{
    match saved {
        Ok(()) => String::from_str(msg),
        Err(e) => {
            let mut s = concat2(msg, " (warning: the choice was not saved and is lost on restart: ");
            s.append(e.as_str());
            s.append(")");
            s
        },
    }
}

} // verus!
