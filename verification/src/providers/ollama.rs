//! The Ollama backend: a local generate endpoint, no authentication, the
//! prompt sent directly with the sampling options, and the generated text
//! under `response`.

use vstd::prelude::*;
use vstd::string::*;

use crate::json::{append_json_string, is_json_number, json_string_lit, JsonModel};
use crate::providers::{header_views, Provider};
use crate::settings::OllamaSettings;
use crate::text::{dec_digits, u32_to_string};

verus! {

/// The Ollama backend, wrapping its configuration.
pub struct OllamaProvider {
    pub config: OllamaSettings,
}

/// The payload text for a configuration and a prompt: the prompt itself,
/// streaming switched off, and the sampling options.
pub open spec fn ollama_body_spec(s: OllamaSettings, prompt: Seq<char>) -> Seq<char> {
    "{\"model\":"@ + json_string_lit(s.model@) + ",\"prompt\":"@ + json_string_lit(prompt)
        + ",\"stream\":false,\"options\":{\"temperature\":"@ + s.temperature@ + ",\"top_p\":"@
        + s.top_p@ + ",\"num_predict\":"@ + dec_digits(s.num_predict as nat) + "}}"@
}

/// The text under `response`, or the empty text when the document is not
/// shaped that way.
pub open spec fn ollama_extract(doc: JsonModel) -> Seq<char> {
    match doc {
        JsonModel::Obj { fields } => {
            if fields.contains_key("response"@) {
                match fields["response"@] {
                    JsonModel::Text { s } => s,
                    _ => Seq::empty(),
                }
            } else {
                Seq::empty()
            }
        },
        _ => Seq::empty(),
    }
}

/// The payload carries the prompt exactly once, as one JSON string
/// literal between a prefix and a suffix that do not depend on the prompt,
/// and that literal decodes back to the prompt unchanged.
pub proof fn lemma_ollama_body_carries_prompt(s: OllamaSettings, prompt: Seq<char>)
    ensures
        ({
            let pre = "{\"model\":"@ + json_string_lit(s.model@) + ",\"prompt\":"@;
            let post = ",\"stream\":false,\"options\":{\"temperature\":"@ + s.temperature@
                + ",\"top_p\":"@ + s.top_p@ + ",\"num_predict\":"@ + dec_digits(
                s.num_predict as nat,
            ) + "}}"@;
            ollama_body_spec(s, prompt) == pre + json_string_lit(prompt) + post
        }),
        crate::json::unescape_str(crate::json::escape_str(prompt)) == Some(prompt),
{
    crate::json::lemma_escape_lossless(prompt);
    assert(ollama_body_spec(s, prompt) =~= ("{\"model\":"@ + json_string_lit(s.model@)
        + ",\"prompt\":"@) + json_string_lit(prompt)
        + (",\"stream\":false,\"options\":{\"temperature\":"@ + s.temperature@
        + ",\"top_p\":"@ + s.top_p@ + ",\"num_predict\":"@ + dec_digits(s.num_predict as nat)
        + "}}"@));
}

impl Provider for OllamaProvider {
    type Config = OllamaSettings;

    open spec fn made(config: OllamaSettings) -> OllamaProvider {
        OllamaProvider { config }
    }

    open spec fn url_spec(&self) -> Seq<char> {
        self.config.url@ + "/api/generate"@
    }

    open spec fn body_spec(&self, prompt: Seq<char>) -> Seq<char> {
        ollama_body_spec(self.config, prompt)
    }

    open spec fn headers_spec(&self) -> Seq<(Seq<char>, Seq<char>)> {
        seq![("content-type"@, "application/json"@)]
    }

    open spec fn extract_spec(&self, doc: JsonModel) -> Seq<char> {
        ollama_extract(doc)
    }

    open spec fn wf(&self) -> bool {
        self.config.wf()
    }

    fn from_config(config: OllamaSettings) -> (r: OllamaProvider) {
        OllamaProvider { config }
    }

    fn check_wf(&self) -> (r: bool) {
        is_json_number(self.config.temperature.as_str()) && is_json_number(
            self.config.top_p.as_str(),
        )
    }

    fn build_url(&self) -> (r: String) {
        let mut url = self.config.url.clone();
        url.append("/api/generate");
        url
    }

    fn build_request_body(&self, prompt: &str) -> (r: String) {
        let mut out = String::new();
        out.append("{\"model\":");
        append_json_string(&mut out, self.config.model.as_str());
        out.append(",\"prompt\":");
        append_json_string(&mut out, prompt);
        out.append(",\"stream\":false,\"options\":{\"temperature\":");
        out.append(self.config.temperature.as_str());
        out.append(",\"top_p\":");
        out.append(self.config.top_p.as_str());
        out.append(",\"num_predict\":");
        let digits = u32_to_string(self.config.num_predict);
        out.append(digits.as_str());
        out.append("}}");
        proof {
            assert(out@ =~= ollama_body_spec(self.config, prompt@));
        }
        out
    }

    fn headers(&self) -> (r: Vec<(String, String)>) {
        let mut v: Vec<(String, String)> = Vec::new();
        v.push(("content-type".to_owned(), "application/json".to_owned()));
        proof {
            assert(header_views(v@) =~= self.headers_spec());
        }
        v
    }

    fn parse_response(&self, response: &serde_json::Value) -> (r: String) {
        match crate::json::value_get(response, "response") {
            Some(text) => match crate::json::value_as_str(text) {
                Some(s) => s.to_owned(),
                None => String::new(),
            },
            None => String::new(),
        }
    }
}

} // verus!
