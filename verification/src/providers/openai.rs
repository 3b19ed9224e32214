//! The OpenAI backend: the chat-completions endpoint under a configurable
//! base URL, bearer-token authentication, and the generated text under
//! `choices[0].message.content`.

use vstd::prelude::*;
use vstd::string::*;

use crate::json::{append_json_string, is_json_number, json_string_lit, JsonModel};
use crate::providers::anthropic::user_message_json;
use crate::providers::{header_views, Provider};
use crate::settings::OpenAISettings;
use crate::text::{dec_digits, u32_to_string};

verus! {

/// The OpenAI backend, wrapping its configuration.
pub struct OpenAIProvider {
    pub config: OpenAISettings,
}

/// The payload text for a configuration and a prompt: one user message, the
/// sampling parameters, and streaming switched off.
pub open spec fn openai_body_spec(s: OpenAISettings, prompt: Seq<char>) -> Seq<char> {
    "{\"model\":"@ + json_string_lit(s.model@) + ",\"messages\":["@ + user_message_json(prompt)
        + "],\"temperature\":"@ + s.temperature@ + ",\"top_p\":"@ + s.top_p@ + ",\"max_tokens\":"@
        + dec_digits(s.max_tokens as nat) + ",\"stream\":false}"@
}

/// The text under `choices[0].message.content`, or the empty text when the
/// document is not shaped that way.
pub open spec fn openai_extract(doc: JsonModel) -> Seq<char> {
    match doc {
        JsonModel::Obj { fields } => {
            if fields.contains_key("choices"@) {
                match fields["choices"@] {
                    JsonModel::Arr { items } => {
                        if items.len() > 0 {
                            match items[0] {
                                JsonModel::Obj { fields: choice } => {
                                    if choice.contains_key("message"@) {
                                        match choice["message"@] {
                                            JsonModel::Obj { fields: message } => {
                                                if message.contains_key("content"@) {
                                                    match message["content"@] {
                                                        JsonModel::Text { s } => s,
                                                        _ => Seq::empty(),
                                                    }
                                                } else {
                                                    Seq::empty()
                                                }
                                            },
                                            _ => Seq::empty(),
                                        }
                                    } else {
                                        Seq::empty()
                                    }
                                },
                                _ => Seq::empty(),
                            }
                        } else {
                            Seq::empty()
                        }
                    },
                    _ => Seq::empty(),
                }
            } else {
                Seq::empty()
            }
        },
        _ => Seq::empty(),
    }
}

/// The payload carries the prompt exactly once, as one JSON string
/// literal between a prefix and a suffix that do not depend on the prompt,
/// and that literal decodes back to the prompt unchanged.
pub proof fn lemma_openai_body_carries_prompt(s: OpenAISettings, prompt: Seq<char>)
    ensures
        ({
            let pre = "{\"model\":"@ + json_string_lit(s.model@) + ",\"messages\":["@
                + "{\"role\":"@ + "\"user\""@ + ",\"content\":"@;
            let post = "}"@ + ("],\"temperature\":"@ + s.temperature@ + ",\"top_p\":"@
                + s.top_p@ + ",\"max_tokens\":"@ + dec_digits(s.max_tokens as nat)
                + ",\"stream\":false}"@);
            openai_body_spec(s, prompt) == pre + json_string_lit(prompt) + post
        }),
        crate::json::unescape_str(crate::json::escape_str(prompt)) == Some(prompt),
{
    crate::json::lemma_escape_lossless(prompt);
    assert(openai_body_spec(s, prompt) =~= ("{\"model\":"@ + json_string_lit(s.model@)
        + ",\"messages\":["@ + "{\"role\":"@ + "\"user\""@ + ",\"content\":"@)
        + json_string_lit(prompt) + ("}"@ + ("],\"temperature\":"@ + s.temperature@
        + ",\"top_p\":"@ + s.top_p@ + ",\"max_tokens\":"@ + dec_digits(s.max_tokens as nat)
        + ",\"stream\":false}"@)));
}

impl Provider for OpenAIProvider {
    type Config = OpenAISettings;

    open spec fn made(config: OpenAISettings) -> OpenAIProvider {
        OpenAIProvider { config }
    }

    open spec fn url_spec(&self) -> Seq<char> {
        self.config.base_url@ + "/chat/completions"@
    }

    open spec fn body_spec(&self, prompt: Seq<char>) -> Seq<char> {
        openai_body_spec(self.config, prompt)
    }

    open spec fn headers_spec(&self) -> Seq<(Seq<char>, Seq<char>)> {
        seq![
            ("authorization"@, "Bearer "@ + self.config.api_key@),
            ("content-type"@, "application/json"@),
        ]
    }

    open spec fn extract_spec(&self, doc: JsonModel) -> Seq<char> {
        openai_extract(doc)
    }

    open spec fn wf(&self) -> bool {
        self.config.wf()
    }

    fn from_config(config: OpenAISettings) -> (r: OpenAIProvider) {
        OpenAIProvider { config }
    }

    fn check_wf(&self) -> (r: bool) {
        is_json_number(self.config.temperature.as_str()) && is_json_number(
            self.config.top_p.as_str(),
        ) && is_json_number(self.config.frequency_penalty.as_str()) && is_json_number(
            self.config.presence_penalty.as_str(),
        )
    }

    fn build_url(&self) -> (r: String) {
        let mut url = self.config.base_url.clone();
        url.append("/chat/completions");
        url
    }

    fn build_request_body(&self, prompt: &str) -> (r: String) {
        let mut out = String::new();
        out.append("{\"model\":");
        append_json_string(&mut out, self.config.model.as_str());
        out.append(",\"messages\":[");
        out.append("{\"role\":\"user\",\"content\":");
        append_json_string(&mut out, prompt);
        out.append("}");
        out.append("],\"temperature\":");
        out.append(self.config.temperature.as_str());
        out.append(",\"top_p\":");
        out.append(self.config.top_p.as_str());
        out.append(",\"max_tokens\":");
        let digits = u32_to_string(self.config.max_tokens);
        out.append(digits.as_str());
        out.append(",\"stream\":false}");
        proof {
            assert("{\"role\":\"user\",\"content\":"@ =~= "{\"role\":"@ + "\"user\""@
                + ",\"content\":"@) by {
                reveal_strlit("{\"role\":\"user\",\"content\":");
                reveal_strlit("{\"role\":");
                reveal_strlit("\"user\"");
                reveal_strlit(",\"content\":");
            }
            assert(out@ =~= openai_body_spec(self.config, prompt@));
        }
        out
    }

    fn headers(&self) -> (r: Vec<(String, String)>) {
        let mut auth = String::new();
        auth.append("Bearer ");
        auth.append(self.config.api_key.expose_secret());
        proof {
            assert(Seq::<char>::empty() + "Bearer "@ =~= "Bearer "@);
        }
        let mut v: Vec<(String, String)> = Vec::new();
        v.push(("authorization".to_owned(), auth));
        v.push(("content-type".to_owned(), "application/json".to_owned()));
        proof {
            assert(header_views(v@) =~= self.headers_spec());
        }
        v
    }

    fn parse_response(&self, response: &serde_json::Value) -> (r: String) {
        match crate::json::value_get(response, "choices") {
            Some(choices) => match crate::json::value_as_array(choices) {
                Some(items) => {
                    if items.len() > 0 {
                        let first = &items[0];
                        match crate::json::value_get(first, "message") {
                            Some(message) => match crate::json::value_get(message, "content") {
                                Some(content) => match crate::json::value_as_str(content) {
                                    Some(s) => s.to_owned(),
                                    None => String::new(),
                                },
                                None => String::new(),
                            },
                            None => String::new(),
                        }
                    } else {
                        String::new()
                    }
                },
                None => String::new(),
            },
            None => String::new(),
        }
    }
}

} // verus!
