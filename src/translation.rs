//! The logic of the translation providers that surrounds their HTTP calls:
//! provider choice, request validation, endpoint addresses and the prompt.
use vstd::prelude::*;
use crate::common::{explicit_language, get_explicit_language_spec, get_embedded_system_prompt, SYSTEM_PROMPT};
use crate::orchestrator::{is_blank, is_blank_text};
use crate::cleanup::{clean_translation_result, cleaned, trim, trim_str};
use crate::text::{occurs_at, occurs_at_exec, owned, str_eq, chars_of};

verus! {

/// A language-model server that translates.
#[derive(Debug, PartialEq, Eq, Structural, Clone, Copy)]
pub enum Provider {
    Ollama,
    LmStudio,
}

/// The provider named `name`, if it is one of `ollama` and `lmstudio`.
pub fn parse_provider(name: &str) -> (r: Option<Provider>)
    ensures
        name@ == "ollama"@ ==> r == Some(Provider::Ollama),
        name@ == "lmstudio"@ ==> r == Some(Provider::LmStudio),
        name@ != "ollama"@ && name@ != "lmstudio"@ ==> r is None,
{
    proof {
        reveal_strlit("ollama");
        reveal_strlit("lmstudio");
        assert("ollama"@[0] != "lmstudio"@[0]);
    }
    if str_eq(name, "ollama") {
        Some(Provider::Ollama)
    } else if str_eq(name, "lmstudio") {
        Some(Provider::LmStudio)
    } else {
        None
    }
}

/// Why a translation request is refused before any call, checked in this order.
#[derive(Debug, PartialEq, Eq, Structural, Clone, Copy)]
pub enum RequestProblem {
    EmptyText,
    NoTargetLanguages,
    EmptyServerUrl,
    EmptyModelName,
}

/// The message shown for a problem.
pub open spec fn problem_message(p: RequestProblem) -> Seq<char> {
    match p {
        RequestProblem::EmptyText => "Input text is empty"@,
        RequestProblem::NoTargetLanguages => "No target languages specified"@,
        RequestProblem::EmptyServerUrl => "Server URL is empty"@,
        RequestProblem::EmptyModelName => "Model name is empty"@,
    }
}

impl RequestProblem {
    /// The message shown for the problem.
    pub fn message(&self) -> (r: &'static str)
        ensures
            r@ == problem_message(*self),
    {
        match self {
            RequestProblem::EmptyText => "Input text is empty",
            RequestProblem::NoTargetLanguages => "No target languages specified",
            RequestProblem::EmptyServerUrl => "Server URL is empty",
            RequestProblem::EmptyModelName => "Model name is empty",
        }
    }
}

/// Checks a translation request: the text, the server address and the
/// model name must not be blank and at least one language must be asked for.
pub fn validate_request(text: &str, target_languages: &[String], server_url: &str, model_name: &str) -> (r: Result<(), RequestProblem>)
    ensures
        is_blank(text@) ==> r == Err::<(), RequestProblem>(RequestProblem::EmptyText),
        !is_blank(text@) && target_languages@.len() == 0 ==> r == Err::<(), RequestProblem>(RequestProblem::NoTargetLanguages),
        !is_blank(text@) && target_languages@.len() > 0 && is_blank(server_url@) ==> r == Err::<(), RequestProblem>(RequestProblem::EmptyServerUrl),
        !is_blank(text@) && target_languages@.len() > 0 && !is_blank(server_url@) && is_blank(model_name@) ==> r == Err::<(), RequestProblem>(RequestProblem::EmptyModelName),
        !is_blank(text@) && target_languages@.len() > 0 && !is_blank(server_url@) && !is_blank(model_name@) ==> r is Ok,
{
    if is_blank_text(text) {
        Err(RequestProblem::EmptyText)
    } else if target_languages.len() == 0 {
        Err(RequestProblem::NoTargetLanguages)
    } else if is_blank_text(server_url) {
        Err(RequestProblem::EmptyServerUrl)
    } else if is_blank_text(model_name) {
        Err(RequestProblem::EmptyModelName)
    } else {
        Ok(())
    }
}

/// `s` without its trailing `/` characters.
pub open spec fn without_trailing_slashes(s: Seq<char>) -> Seq<char>
    decreases s.len(),
{
    if s.len() > 0 && s.last() == '/' {
        without_trailing_slashes(s.drop_last())
    } else {
        s
    }
}

/// The address of `path` on a server: the server address without trailing
/// slashes, then the path.
pub fn endpoint_url(server_url: &str, path: &str) -> (r: String)
    ensures
        r@ == without_trailing_slashes(server_url@) + path@,
{
    let mut n = server_url.unicode_len();
    assert(server_url@.subrange(0, n as int) =~= server_url@);
    while n > 0 && server_url.get_char(n - 1) == '/'
        invariant
            n <= server_url@.len(),
            without_trailing_slashes(server_url@) == without_trailing_slashes(server_url@.subrange(0, n as int)),
        decreases n,
    {
        proof {
            assert(server_url@.subrange(0, n as int).drop_last() =~= server_url@.subrange(0, n - 1));
        }
        n = n - 1;
    }
    proof {
        assert(server_url@.subrange(0, n as int) == without_trailing_slashes(server_url@.subrange(0, n as int)));
    }
    let mut out = owned(server_url.substring_char(0, n));
    out.append(path);
    out
}

/// `s` with each occurrence of the non-empty `pat`, left to right, replaced by `rep`.
pub open spec fn replace_all(s: Seq<char>, pat: Seq<char>, rep: Seq<char>) -> Seq<char>
    decreases s.len(),
{
    if pat.len() == 0 || s.len() == 0 {
        s
    } else if occurs_at(s, pat, 0) {
        rep + replace_all(s.subrange(pat.len() as int, s.len() as int), pat, rep)
    } else {
        seq![s[0]] + replace_all(s.drop_first(), pat, rep)
    }
}

/// `s` with each occurrence of the non-empty `pat`, left to right, replaced by `rep`.
pub fn replace_str(s: &str, pat: &str, rep: &str) -> (r: String)
    ensures
        r@ == replace_all(s@, pat@, rep@),
{
    let sc = chars_of(s);
    let pc = chars_of(pat);
    let rc = chars_of(rep);
    if pc.len() == 0 {
        return owned(s);
    }
    let mut out: Vec<char> = Vec::new();
    let mut i: usize = 0;
    let n = sc.len();
    assert(sc@.subrange(0, n as int) =~= sc@);
    while i < n
        invariant
            n == sc@.len(),
            sc@ == s@,
            pc@ == pat@,
            rc@ == rep@,
            pc@.len() > 0,
            i <= n,
            out@ + replace_all(sc@.subrange(i as int, n as int), pc@, rc@) == replace_all(sc@, pc@, rc@),
        decreases n - i,
    {
        let rest = Ghost(sc@.subrange(i as int, n as int));
        if occurs_at_exec(sc.as_slice(), pc.as_slice(), i) {
            proof {
                assert(rest@.subrange(0, pc@.len() as int) =~= sc@.subrange(i as int, i + pc@.len()));
                assert(occurs_at(rest@, pc@, 0));
                assert(rest@.subrange(pc@.len() as int, rest@.len() as int) =~= sc@.subrange(i + pc@.len(), n as int));
            }
            let ghost before = out@;
            let mut k: usize = 0;
            while k < rc.len()
                invariant
                    k <= rc@.len(),
                    out@ == before + rc@.subrange(0, k as int),
                decreases rc@.len() - k,
            {
                out.push(rc[k]);
                k = k + 1;
                assert(out@ =~= before + rc@.subrange(0, k as int));
            }
            assert(rc@.subrange(0, rc@.len() as int) =~= rc@);
            assert(out@ + replace_all(sc@.subrange(i + pc@.len(), n as int), pc@, rc@) =~= before + (rc@ + replace_all(sc@.subrange(i + pc@.len(), n as int), pc@, rc@)));
            i = i + pc.len();
        } else {
            proof {
                if i + pc@.len() <= n {
                    assert(rest@.subrange(0, pc@.len() as int) =~= sc@.subrange(i as int, i + pc@.len()));
                }
                assert(!occurs_at(rest@, pc@, 0));
                assert(rest@.drop_first() =~= sc@.subrange(i + 1, n as int));
            }
            let ghost before = out@;
            out.push(sc[i]);
            assert(out@ + replace_all(sc@.subrange(i + 1, n as int), pc@, rc@) =~= before + (seq![sc@[i as int]] + replace_all(sc@.subrange(i + 1, n as int), pc@, rc@)));
            i = i + 1;
        }
    }
    assert(out@ + replace_all(sc@.subrange(n as int, n as int), pc@, rc@) =~= out@);
    crate::text::string_of_chars(out.as_slice())
}

/// The system prompt for a target language: the built-in prompt with each
/// `{{lang}}` replaced by the language's explicit form.
pub fn system_prompt_for(target_lang: &str) -> (r: String)
    ensures
        r@ == replace_all(SYSTEM_PROMPT@, "{{lang}}"@, explicit_language(target_lang@)),
{
    let template = get_embedded_system_prompt();
    let lang = get_explicit_language_spec(target_lang);
    replace_str(template.as_str(), "{{lang}}", lang.as_str())
}

/// A chat message of an OpenAI-compatible server.
#[derive(Debug)]
pub struct OpenAIMessage {
    pub role: String,
    pub content: String,
}

/// One choice of an OpenAI-compatible chat response.
#[derive(Debug)]
pub struct OpenAIChoice {
    pub message: OpenAIMessage,
}

/// An OpenAI-compatible chat response.
#[derive(Debug)]
pub struct OpenAIResponse {
    pub choices: Vec<OpenAIChoice>,
}

/// An Ollama generation response.
#[derive(Debug)]
pub struct OllamaResponse {
    pub response: String,
}

/// The translation in a chat response: the first choice's content, trimmed
/// and cleaned, unless there is no choice or the content is blank.
pub fn openai_translation(resp: &OpenAIResponse, target_lang: &str) -> (r: Option<String>)
    ensures
        resp.choices@.len() == 0 ==> r is None,
        resp.choices@.len() > 0 && is_blank(resp.choices@[0].message.content@) ==> r is None,
        resp.choices@.len() > 0 && !is_blank(resp.choices@[0].message.content@) ==> (r matches Some(t)
            && t@ == cleaned(trim(resp.choices@[0].message.content@), target_lang@)),
{
    if resp.choices.len() == 0 {
        return None;
    }
    let content = resp.choices[0].message.content.as_str();
    if is_blank_text(content) {
        return None;
    }
    let raw = trim_str(content);
    Some(clean_translation_result(raw.as_str(), target_lang))
}

/// The translation in an Ollama response: the response trimmed and cleaned,
/// unless it is blank before or after cleaning.
pub fn ollama_translation(resp: &OllamaResponse, target_lang: &str) -> (r: Option<String>)
    ensures
        is_blank(resp.response@) ==> r is None,
        !is_blank(resp.response@) && is_blank(cleaned(trim(resp.response@), target_lang@)) ==> r is None,
        !is_blank(resp.response@) && !is_blank(cleaned(trim(resp.response@), target_lang@)) ==> (r matches Some(t)
            && t@ == cleaned(trim(resp.response@), target_lang@)),
{
    if is_blank_text(resp.response.as_str()) {
        return None;
    }
    let raw = trim_str(resp.response.as_str());
    let t = clean_translation_result(raw.as_str(), target_lang);
    if is_blank_text(t.as_str()) {
        None
    } else {
        Some(t)
    }
}

} // verus!
