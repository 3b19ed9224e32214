//! The Google backend: a per-model generateContent endpoint with the API key
//! as a query parameter, and the generated text under
//! `candidates[0].content.parts[0].text`.

use vstd::prelude::*;
use vstd::string::*;

use crate::json::{append_json_string, is_json_number, json_string_lit, JsonModel};
use crate::providers::{header_views, Provider};
use crate::settings::GoogleSettings;
use crate::text::{dec_digits, u32_to_string};

verus! {

/// The Google backend, wrapping its configuration.
pub struct GoogleProvider {
    pub config: GoogleSettings,
}

/// The endpoint URL for a configuration: the model's generateContent route
/// with the key as a query parameter.
pub open spec fn google_url_spec(s: GoogleSettings) -> Seq<char> {
    s.base_url@ + "/models/"@ + s.model@ + ":generateContent?key="@ + s.api_key@
}

/// The payload text for a configuration and a prompt: one content part
/// holding the prompt, and the generation parameters.
pub open spec fn google_body_spec(s: GoogleSettings, prompt: Seq<char>) -> Seq<char> {
    "{\"contents\":[{\"parts\":[{\"text\":"@ + json_string_lit(prompt)
        + "}]}],\"generationConfig\":{\"temperature\":"@ + s.temperature@ + ",\"topP\":"@ + s.top_p@
        + ",\"maxOutputTokens\":"@ + dec_digits(s.max_tokens as nat) + "}}"@
}

/// The text under `candidates[0].content.parts[0].text`, or the empty text
/// when the document is not shaped that way.
pub open spec fn google_extract(doc: JsonModel) -> Seq<char> {
    match doc {
        JsonModel::Obj { fields } => {
            if fields.contains_key("candidates"@) {
                match fields["candidates"@] {
                    JsonModel::Arr { items } => {
                        if items.len() > 0 {
                            match items[0] {
                                JsonModel::Obj { fields: candidate } => {
                                    if candidate.contains_key("content"@) {
                                        match candidate["content"@] {
                                            JsonModel::Obj { fields: content } => {
                                                if content.contains_key("parts"@) {
                                                    google_extract_parts(content["parts"@])
                                                } else {
                                                    Seq::empty()
                                                }
                                            },
                                            _ => Seq::empty(),
                                        }
                                    } else {
                                        Seq::empty()
                                    }
                                },
                                _ => Seq::empty(),
                            }
                        } else {
                            Seq::empty()
                        }
                    },
                    _ => Seq::empty(),
                }
            } else {
                Seq::empty()
            }
        },
        _ => Seq::empty(),
    }
}

/// The text under `[0].text` of a parts list, or the empty text.
pub open spec fn google_extract_parts(parts: JsonModel) -> Seq<char> {
    match parts {
        JsonModel::Arr { items } => {
            if items.len() > 0 {
                match items[0] {
                    JsonModel::Obj { fields: part } => {
                        if part.contains_key("text"@) {
                            match part["text"@] {
                                JsonModel::Text { s } => s,
                                _ => Seq::empty(),
                            }
                        } else {
                            Seq::empty()
                        }
                    },
                    _ => Seq::empty(),
                }
            } else {
                Seq::empty()
            }
        },
        _ => Seq::empty(),
    }
}

/// The payload carries the prompt exactly once, as one JSON string
/// literal between a prefix and a suffix that do not depend on the prompt,
/// and that literal decodes back to the prompt unchanged.
pub proof fn lemma_google_body_carries_prompt(s: GoogleSettings, prompt: Seq<char>)
    ensures
        ({
            let pre = "{\"contents\":[{\"parts\":[{\"text\":"@;
            let post = "}]}],\"generationConfig\":{\"temperature\":"@ + s.temperature@
                + ",\"topP\":"@ + s.top_p@ + ",\"maxOutputTokens\":"@ + dec_digits(
                s.max_tokens as nat,
            ) + "}}"@;
            google_body_spec(s, prompt) == pre + json_string_lit(prompt) + post
        }),
        crate::json::unescape_str(crate::json::escape_str(prompt)) == Some(prompt),
{
    crate::json::lemma_escape_lossless(prompt);
    assert(google_body_spec(s, prompt) =~= "{\"contents\":[{\"parts\":[{\"text\":"@
        + json_string_lit(prompt) + ("}]}],\"generationConfig\":{\"temperature\":"@
        + s.temperature@ + ",\"topP\":"@ + s.top_p@ + ",\"maxOutputTokens\":"@ + dec_digits(
        s.max_tokens as nat,
    ) + "}}"@));
}

impl Provider for GoogleProvider {
    type Config = GoogleSettings;

    open spec fn made(config: GoogleSettings) -> GoogleProvider {
        GoogleProvider { config }
    }

    open spec fn url_spec(&self) -> Seq<char> {
        google_url_spec(self.config)
    }

    open spec fn body_spec(&self, prompt: Seq<char>) -> Seq<char> {
        google_body_spec(self.config, prompt)
    }

    open spec fn headers_spec(&self) -> Seq<(Seq<char>, Seq<char>)> {
        seq![("content-type"@, "application/json"@)]
    }

    open spec fn extract_spec(&self, doc: JsonModel) -> Seq<char> {
        google_extract(doc)
    }

    open spec fn wf(&self) -> bool {
        self.config.wf()
    }

    fn from_config(config: GoogleSettings) -> (r: GoogleProvider) {
        GoogleProvider { config }
    }

    fn check_wf(&self) -> (r: bool) {
        is_json_number(self.config.temperature.as_str()) && is_json_number(
            self.config.top_p.as_str(),
        )
    }

    fn build_url(&self) -> (r: String) {
        let mut url = self.config.base_url.clone();
        url.append("/models/");
        url.append(self.config.model.as_str());
        url.append(":generateContent?key=");
        url.append(self.config.api_key.expose_secret());
        url
    }

    fn build_request_body(&self, prompt: &str) -> (r: String) {
        let mut out = String::new();
        out.append("{\"contents\":[{\"parts\":[{\"text\":");
        append_json_string(&mut out, prompt);
        out.append("}]}],\"generationConfig\":{\"temperature\":");
        out.append(self.config.temperature.as_str());
        out.append(",\"topP\":");
        out.append(self.config.top_p.as_str());
        out.append(",\"maxOutputTokens\":");
        let digits = u32_to_string(self.config.max_tokens);
        out.append(digits.as_str());
        out.append("}}");
        proof {
            assert(out@ =~= google_body_spec(self.config, prompt@));
        }
        out
    }

    fn headers(&self) -> (r: Vec<(String, String)>) {
        let mut v: Vec<(String, String)> = Vec::new();
        v.push(("content-type".to_owned(), "application/json".to_owned()));
        proof {
            assert(header_views(v@) =~= self.headers_spec());
        }
        v
    }

    fn parse_response(&self, response: &serde_json::Value) -> (r: String) {
        match crate::json::value_get(response, "candidates") {
            Some(candidates) => match crate::json::value_as_array(candidates) {
                Some(items) => {
                    if items.len() > 0 {
                        let first = &items[0];
                        match crate::json::value_get(first, "content") {
                            Some(content) => match crate::json::value_get(content, "parts") {
                                Some(parts) => match crate::json::value_as_array(parts) {
                                    Some(part_items) => {
                                        if part_items.len() > 0 {
                                            let part = &part_items[0];
                                            match crate::json::value_get(part, "text") {
                                                Some(t) => match crate::json::value_as_str(t) {
                                                    Some(s) => s.to_owned(),
                                                    None => String::new(),
                                                },
                                                None => String::new(),
                                            }
                                        } else {
                                            String::new()
                                        }
                                    },
                                    None => String::new(),
                                },
                                None => String::new(),
                            },
                            None => String::new(),
                        }
                    } else {
                        String::new()
                    }
                },
                None => String::new(),
            },
            None => String::new(),
        }
    }
}

} // verus!
