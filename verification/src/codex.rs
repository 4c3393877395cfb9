//! The Codex engine: ChatGPT's transcription backend, authenticated with the
//! local Codex CLI credentials (`~/.codex/auth.json`).

use vstd::prelude::*;
use crate::remote::{
    RemoteRequest, language_fields, opt_view, pairs_view, push_language_field, spec_normalize_language,
    strings_view,
};

verus! {

/// What a JSON document holds under one member object: `None` when the
/// document has no member `object`, and otherwise the two named members of
/// that object that are strings (`None` for one that is missing or not a
/// string); `Err` with the parser's message when the text is not JSON.
pub type JsonStrings<S> = Result<Option<(Option<S>, Option<S>)>, S>;

/// `serde_json::from_str::<serde_json::Value>` followed by
/// `Value::get(object)`, then `Value::get(first)` / `Value::get(second)` and
/// `Value::as_str` on what that gave.
pub uninterp spec fn json_object_strings(
    contents: Seq<char>,
    object: Seq<char>,
    first: Seq<char>,
    second: Seq<char>,
) -> JsonStrings<Seq<char>>;

/// The value of a `JsonStrings`.
pub open spec fn json_strings_view(r: JsonStrings<String>) -> JsonStrings<Seq<char>> {
    match r {
        Err(e) => Err(e@),
        Ok(None) => Ok(None),
        Ok(Some((a, b))) => Ok(
            Some(
                (
                    opt_view(a),
                    opt_view(b),
                ),
            ),
        ),
    }
}

/// Calls `serde_json::from_str::<serde_json::Value>` on `contents`, then
/// `Value::get(object)`, and on what that gave `Value::get(first)`,
/// `Value::get(second)` and `Value::as_str`; a parse error is returned as its
/// text. Claims only that the result is the named function of its arguments.
#[verifier::external_body]
fn read_json_object_strings(contents: &str, object: &str, first: &str, second: &str) -> (r:
    JsonStrings<String>)
    ensures
        json_strings_view(r) == json_object_strings(contents@, object@, first@, second@),
{
    let json: serde_json::Value = serde_json::from_str(contents).map_err(|e| e.to_string())?;
    Ok(
        json.get(object).map(
            |o| (
                o.get(first).and_then(|v| v.as_str()).map(|s| s.to_string()),
                o.get(second).and_then(|v| v.as_str()).map(|s| s.to_string()),
            ),
        ),
    )
}

/// ChatGPT backend transcription endpoint used by Codex.
pub const TRANSCRIBE_URL: &'static str = "https://chatgpt.com/backend-api/transcribe";

/// Identifies the request as coming from the Codex desktop client.
pub const ORIGINATOR: &'static str = "codex_desktop";

/// User-Agent the Codex desktop client sends.
pub const CODEX_USER_AGENT: &'static str = "Codex Desktop/26.611.62324";

/// The headers of a Codex request: the client's identity, and the account
/// when the credentials name one.
pub open spec fn codex_headers(account_id: Option<Seq<char>>) -> Seq<Seq<char>> {
    let identity = seq!["originator: "@ + ORIGINATOR@, "User-Agent: "@ + CODEX_USER_AGENT@];
    match account_id {
        Some(id) => identity.push("ChatGPT-Account-Id: "@ + id),
        None => identity,
    }
}

/// Remote transcription engine backed by the ChatGPT backend transcribe API,
/// authenticated with the local Codex CLI credentials (`~/.codex/auth.json`).
///
/// Holds no model state — each transcription is an HTTP request.
pub struct CodexEngine;

/// The Codex credentials a request uses.
#[derive(Debug, Clone, PartialEq)]
pub struct CodexAuth {
    pub access_token: String,
    pub account_id: Option<String>,
}

/// Why `auth.json` gave no usable credentials.
#[derive(Debug, PartialEq)]
pub enum CodexAuthError<S> {
    /// The file is not JSON; the parser's message.
    InvalidJson(S),
    /// There is no `tokens` member.
    MissingTokens,
    /// `tokens.access_token` is missing, not a string, or empty.
    MissingAccessToken,
}

/// The value of an error.
pub open spec fn auth_error_view(e: CodexAuthError<String>) -> CodexAuthError<Seq<char>> {
    match e {
        CodexAuthError::InvalidJson(m) => CodexAuthError::InvalidJson(m@),
        CodexAuthError::MissingTokens => CodexAuthError::MissingTokens,
        CodexAuthError::MissingAccessToken => CodexAuthError::MissingAccessToken,
    }
}

/// The value of a parse result: the access token and optional account id.
pub open spec fn auth_result_view(r: Result<CodexAuth, CodexAuthError<String>>) -> Result<
    (Seq<char>, Option<Seq<char>>),
    CodexAuthError<Seq<char>>,
> {
    match r {
        Ok(a) => Ok(
            (
                a.access_token@,
                opt_view(a.account_id),
            ),
        ),
        Err(e) => Err(auth_error_view(e)),
    }
}

/// A string member taken as present only when it is not empty.
pub open spec fn non_empty(s: Option<Seq<char>>) -> Option<Seq<char>> {
    match s {
        Some(v) => if v.len() > 0 {
            Some(v)
        } else {
            None
        },
        None => None,
    }
}

/// The credentials that the members of `tokens` give: `access_token` is
/// required and must not be empty; an empty `account_id` counts as absent.
pub open spec fn spec_auth_from_json(fields: JsonStrings<Seq<char>>) -> Result<
    (Seq<char>, Option<Seq<char>>),
    CodexAuthError<Seq<char>>,
> {
    match fields {
        Err(e) => Err(CodexAuthError::InvalidJson(e)),
        Ok(None) => Err(CodexAuthError::MissingTokens),
        Ok(Some((access, account))) => match non_empty(access) {
            None => Err(CodexAuthError::MissingAccessToken),
            Some(token) => Ok((token, non_empty(account))),
        },
    }
}

/// The credentials in `auth.json` contents.
pub open spec fn spec_parse_auth(contents: Seq<char>) -> Result<
    (Seq<char>, Option<Seq<char>>),
    CodexAuthError<Seq<char>>,
> {
    spec_auth_from_json(
        json_object_strings(contents, "tokens"@, "access_token"@, "account_id"@),
    )
}

/// Parsed credentials always carry a non-empty access token, and an account
/// id only when it is not empty; JSON without a `tokens` member is refused for
/// that reason before anything else is looked at.
pub proof fn law_credentials_are_never_empty(contents: Seq<char>)
    ensures
        spec_parse_auth(contents) matches Ok((token, account)) ==> token.len() > 0 && (
        account matches Some(id) ==> id.len() > 0),
        json_object_strings(contents, "tokens"@, "access_token"@, "account_id"@) == Ok::<
            Option<(Option<Seq<char>>, Option<Seq<char>>)>,
            Seq<char>,
        >(None) ==> spec_parse_auth(contents) == Err::<
            (Seq<char>, Option<Seq<char>>),
            CodexAuthError<Seq<char>>,
        >(CodexAuthError::MissingTokens),
{
}

/// The credentials depend on nothing but how `tokens.access_token` and
/// `tokens.account_id` read: two files that read alike there (whatever their
/// `refresh_token`, `id_token` or other members) give the same result.
pub proof fn law_auth_reads_only_token_and_account(c1: Seq<char>, c2: Seq<char>)
    requires
        json_object_strings(c1, "tokens"@, "access_token"@, "account_id"@) == json_object_strings(
            c2,
            "tokens"@,
            "access_token"@,
            "account_id"@,
        ),
    ensures
        spec_parse_auth(c1) == spec_parse_auth(c2),
{
}

/// The message a credentials error is reported with.
pub open spec fn auth_error_message(e: CodexAuthError<Seq<char>>) -> Seq<char> {
    match e {
        CodexAuthError::InvalidJson(m) => "Failed to parse Codex auth.json: "@ + m,
        CodexAuthError::MissingTokens => "Codex auth.json missing 'tokens' object"@,
        CodexAuthError::MissingAccessToken => "Codex auth.json missing tokens.access_token"@,
    }
}

impl CodexAuthError<String> {
    /// The message this error is reported with.
    pub fn message(&self) -> (m: String)
        ensures
            m@ == auth_error_message(auth_error_view(*self)),
    {
        match self {
            CodexAuthError::InvalidJson(e) => {
                let mut m = String::new();
                m.append("Failed to parse Codex auth.json: ");
                m.append(e.as_str());
                m
            },
            CodexAuthError::MissingTokens => "Codex auth.json missing 'tokens' object".to_owned(),
            CodexAuthError::MissingAccessToken => "Codex auth.json missing tokens.access_token".to_owned(),
        }
    }
}

/// A string member, kept only when it is not empty.
fn keep_non_empty(s: Option<String>) -> (r: Option<String>)
    ensures
        match r {
            Some(v) => non_empty(
                opt_view(s),
            ) == Some(v@),
            None => non_empty(
                opt_view(s),
            ) is None,
        },
{
    match s {
        Some(v) => if v.as_str().unicode_len() > 0 {
            Some(v)
        } else {
            None
        },
        None => None,
    }
}

/// The request a Codex transcription sends for credentials holding this access
/// token and account id: nothing else of the credentials reaches it.
pub open spec fn codex_request_view(
    access_token: Seq<char>,
    account_id: Option<Seq<char>>,
    selected_language: Seq<char>,
) -> (Seq<char>, Seq<char>, Seq<Seq<char>>, Seq<(Seq<char>, Seq<char>)>) {
    (
        TRANSCRIBE_URL@,
        access_token,
        codex_headers(account_id),
        language_fields(spec_normalize_language(selected_language)),
    )
}

/// Two transcriptions whose auth files read alike at `tokens.access_token` and
/// `tokens.account_id` send the same request: other members of the file, such
/// as `refresh_token` and `id_token`, never reach it.
pub proof fn law_request_uses_only_token_and_account(
    c1: Seq<char>,
    c2: Seq<char>,
    selected_language: Seq<char>,
)
    requires
        json_object_strings(c1, "tokens"@, "access_token"@, "account_id"@) == json_object_strings(
            c2,
            "tokens"@,
            "access_token"@,
            "account_id"@,
        ),
        spec_parse_auth(c1) is Ok,
    ensures
        spec_parse_auth(c2) is Ok,
        codex_request_view(
            spec_parse_auth(c1)->Ok_0.0,
            spec_parse_auth(c1)->Ok_0.1,
            selected_language,
        ) == codex_request_view(
            spec_parse_auth(c2)->Ok_0.0,
            spec_parse_auth(c2)->Ok_0.1,
            selected_language,
        ),
{
}

impl CodexEngine {
    pub fn new() -> (r: Self) {
        CodexEngine
    }

    /// The request that transcribes audio with these credentials in
    /// `selected_language`.
    pub fn request(&self, auth: &CodexAuth, selected_language: &str) -> (r: RemoteRequest)
        ensures
            r.url@ == TRANSCRIBE_URL@,
            r.bearer@ == auth.access_token@,
            strings_view(r.extra_headers@) == codex_headers(
                opt_view(auth.account_id),
            ),
            pairs_view(r.form_fields@) == language_fields(spec_normalize_language(selected_language@)),
            (r.url@, r.bearer@, strings_view(r.extra_headers@), pairs_view(r.form_fields@))
                == codex_request_view(
                auth.access_token@,
                opt_view(auth.account_id),
                selected_language@,
            ),
    {
        let mut originator = String::new();
        originator.append("originator: ");
        originator.append(ORIGINATOR);
        let mut agent = String::new();
        agent.append("User-Agent: ");
        agent.append(CODEX_USER_AGENT);
        let mut headers: Vec<String> = Vec::new();
        headers.push(originator);
        headers.push(agent);
        if let Some(account_id) = &auth.account_id {
            let mut h = String::new();
            h.append("ChatGPT-Account-Id: ");
            h.append(account_id.as_str());
            headers.push(h);
        }
        let ghost want = codex_headers(
            opt_view(auth.account_id),
        );
        assert(strings_view(headers@) =~= want);
        let mut form_fields: Vec<(String, String)> = Vec::new();
        push_language_field(&mut form_fields, selected_language);
        assert(pairs_view(form_fields@) =~= language_fields(spec_normalize_language(selected_language@)));
        RemoteRequest {
            url: TRANSCRIBE_URL.to_owned(),
            bearer: auth.access_token.clone(),
            extra_headers: headers,
            form_fields,
        }
    }

    /// The credentials that what `auth.json` holds under `tokens` gives.
    pub fn auth_from_json(fields: JsonStrings<String>) -> (r: Result<
        CodexAuth,
        CodexAuthError<String>,
    >)
        ensures
            auth_result_view(r) == spec_auth_from_json(json_strings_view(fields)),
    {
        match fields {
            Err(e) => Err(CodexAuthError::InvalidJson(e)),
            Ok(None) => Err(CodexAuthError::MissingTokens),
            Ok(Some((access, account))) => match keep_non_empty(access) {
                None => Err(CodexAuthError::MissingAccessToken),
                Some(token) => Ok(
                    CodexAuth { access_token: token, account_id: keep_non_empty(account) },
                ),
            },
        }
    }

    /// Parse Codex credentials from `auth.json` contents.
    ///
    /// Uses `tokens.access_token` (required) and `tokens.account_id` (optional).
    /// `refresh_token` and `id_token` are intentionally ignored.
    pub fn parse_auth(contents: &str) -> (r: Result<CodexAuth, CodexAuthError<String>>)
        ensures
            auth_result_view(r) == spec_parse_auth(contents@),
    {
        let fields = read_json_object_strings(contents, "tokens", "access_token", "account_id");
        Self::auth_from_json(fields)
    }
}

} // verus!
