//! The Groq engine: hosted Whisper models behind Groq's OpenAI-compatible API.

use vstd::prelude::*;
use crate::remote::{
    RemoteRequest, language_fields, pairs_view, push_language_field, spec_normalize_language,
};

verus! {

/// Groq's OpenAI-compatible audio transcription endpoint.
pub const GROQ_TRANSCRIBE_URL: &'static str = "https://api.groq.com/openai/v1/audio/transcriptions";

/// Remote transcription engine backed by Groq's hosted Whisper models.
///
/// Holds the Groq model name (e.g. `whisper-large-v3-turbo`) and the user's
/// per-model API key. Each transcription is an HTTP request; no local state.
pub struct GroqEngine {
    model: String,
    api_key: String,
}

impl View for GroqEngine {
    /// The model name and the API key.
    type V = (Seq<char>, Seq<char>);

    closed spec fn view(&self) -> (Seq<char>, Seq<char>) {
        (self.model@, self.api_key@)
    }
}

/// The form fields of a Groq request: the model, JSON responses, and the
/// language when one is to be sent.
pub open spec fn groq_form_fields(model: Seq<char>, selected_language: Seq<char>) -> Seq<
    (Seq<char>, Seq<char>),
> {
    seq![("model"@, model), ("response_format"@, "json"@)] + language_fields(
        spec_normalize_language(selected_language),
    )
}

impl GroqEngine {
    pub fn new(model: String, api_key: String) -> (r: Self)
        ensures
            r@ == (model@, api_key@),
    {
        GroqEngine { model, api_key }
    }

    /// The request that transcribes audio in `selected_language`.
    pub fn request(&self, selected_language: &str) -> (r: RemoteRequest)
        ensures
            r.url@ == GROQ_TRANSCRIBE_URL@,
            r.bearer@ == self@.1,
            r.extra_headers@.len() == 0,
            pairs_view(r.form_fields@) == groq_form_fields(self@.0, selected_language@),
    {
        let mut form_fields: Vec<(String, String)> = Vec::new();
        form_fields.push(("model".to_owned(), self.model.clone()));
        form_fields.push(("response_format".to_owned(), "json".to_owned()));
        assert(pairs_view(form_fields@) =~= seq![("model"@, self@.0), ("response_format"@, "json"@)]);
        push_language_field(&mut form_fields, selected_language);
        RemoteRequest {
            url: GROQ_TRANSCRIBE_URL.to_owned(),
            bearer: self.api_key.clone(),
            extra_headers: Vec::new(),
            form_fields,
        }
    }
}

} // verus!
