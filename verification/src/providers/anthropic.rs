//! The Anthropic backend: a fixed messages endpoint, authentication through
//! the `x-api-key` and `anthropic-version` headers, a typed payload, and the
//! generated text under `content[0].text`.

use vstd::prelude::*;
use vstd::string::*;

use crate::json::{append_json_string, is_json_number, is_number_token, json_string_lit, JsonModel};
use crate::providers::{header_views, Provider};
use crate::settings::AnthropicSettings;
use crate::text::{dec_digits, u32_to_string};

verus! {

/// The Anthropic backend, wrapping its configuration.
pub struct AnthropicProvider {
    pub config: AnthropicSettings,
}

/// Who speaks a message; this library only ever sends as the user.
pub enum Role {
    User,
}

/// One chat message of the payload.
pub struct Message {
    pub role: Role,
    pub content: String,
}

/// The typed request payload.
pub struct Payload {
    pub model: String,
    pub max_tokens: u32,
    pub temperature: Option<String>,
    pub top_p: Option<String>,
    pub messages: Vec<Message>,
}

/// How a role is written in the payload.
pub open spec fn role_json(r: Role) -> Seq<char> {
    match r {
        Role::User => "\"user\""@,
    }
}

/// How a user message with the given content is written.
pub open spec fn user_message_json(content: Seq<char>) -> Seq<char> {
    "{\"role\":"@ + "\"user\""@ + ",\"content\":"@ + json_string_lit(content) + "}"@
}

/// How one message is written in the payload.
pub open spec fn message_json(m: Message) -> Seq<char> {
    match m.role {
        Role::User => user_message_json(m.content@),
    }
}

/// How a message list is written: the messages, comma-separated.
pub open spec fn messages_json(ms: Seq<Message>) -> Seq<char>
    decreases ms.len(),
{
    if ms.len() == 0 {
        Seq::empty()
    } else if ms.len() == 1 {
        message_json(ms[0])
    } else {
        messages_json(ms.drop_last()) + ","@ + message_json(ms.last())
    }
}

/// How the whole payload is written: the fields in order, the optional
/// sampling parameters only when set.
pub open spec fn payload_json(p: Payload) -> Seq<char> {
    "{\"model\":"@ + json_string_lit(p.model@) + ",\"max_tokens\":"@ + dec_digits(
        p.max_tokens as nat,
    ) + (match p.temperature {
        Some(t) => ",\"temperature\":"@ + t@,
        None => Seq::<char>::empty(),
    }) + (match p.top_p {
        Some(t) => ",\"top_p\":"@ + t@,
        None => Seq::<char>::empty(),
    }) + ",\"messages\":["@ + messages_json(p.messages@) + "]}"@
}

/// The payload text for a configuration and a prompt: one user message
/// holding the prompt, with the configuration's parameters.
pub open spec fn anthropic_body_spec(s: AnthropicSettings, prompt: Seq<char>) -> Seq<char> {
    "{\"model\":"@ + json_string_lit(s.model@) + ",\"max_tokens\":"@ + dec_digits(
        s.max_tokens as nat,
    ) + (match s.temperature {
        Some(t) => ",\"temperature\":"@ + t@,
        None => Seq::<char>::empty(),
    }) + (match s.top_p {
        Some(t) => ",\"top_p\":"@ + t@,
        None => Seq::<char>::empty(),
    }) + ",\"messages\":["@ + user_message_json(prompt) + "]}"@
}

/// The text under `content[0].text`, or the empty text when the document is
/// not shaped that way.
pub open spec fn anthropic_extract(doc: JsonModel) -> Seq<char> {
    match doc {
        JsonModel::Obj { fields } => {
            if fields.contains_key("content"@) {
                match fields["content"@] {
                    JsonModel::Arr { items } => {
                        if items.len() > 0 {
                            match items[0] {
                                JsonModel::Obj { fields: entry } => {
                                    if entry.contains_key("text"@) {
                                        match entry["text"@] {
                                            JsonModel::Text { s } => s,
                                            _ => Seq::empty(),
                                        }
                                    } else {
                                        Seq::empty()
                                    }
                                },
                                _ => Seq::empty(),
                            }
                        } else {
                            Seq::empty()
                        }
                    },
                    _ => Seq::empty(),
                }
            } else {
                Seq::empty()
            }
        },
        _ => Seq::empty(),
    }
}

impl Payload {
    /// The fractional sampling parameters, where set, are decimal number
    /// tokens.
    pub open spec fn wf(&self) -> bool {
        (self.temperature matches Some(t) ==> is_number_token(t@)) && (
        self.top_p matches Some(t) ==> is_number_token(t@))
    }

    /// The payload for one prompt under the given configuration: the
    /// configuration's parameters and a single user message with the prompt.
    pub fn from_settings_and_prompt(prompt: String, settings: AnthropicSettings) -> (r: Payload)
        ensures
            r.model == settings.model,
            r.max_tokens == settings.max_tokens,
            r.temperature == settings.temperature,
            r.top_p == settings.top_p,
            r.messages@ =~= seq![Message { role: Role::User, content: prompt }],
    {
        let mut messages: Vec<Message> = Vec::new();
        messages.push(Message { role: Role::User, content: prompt });
        Payload {
            model: settings.model,
            max_tokens: settings.max_tokens,
            temperature: settings.temperature,
            top_p: settings.top_p,
            messages,
        }
    }

    /// Writes the payload out; the number tokens are spliced in unquoted,
    /// which the precondition keeps well-formed.
    pub fn to_json(&self) -> (r: String)
        requires
            self.wf(),
        ensures
            r@ == payload_json(*self),
    {
        let mut out = String::new();
        out.append("{\"model\":");
        append_json_string(&mut out, self.model.as_str());
        out.append(",\"max_tokens\":");
        let digits = u32_to_string(self.max_tokens);
        out.append(digits.as_str());
        match &self.temperature {
            Some(t) => {
                out.append(",\"temperature\":");
                out.append(t.as_str());
            },
            None => {},
        }
        match &self.top_p {
            Some(t) => {
                out.append(",\"top_p\":");
                out.append(t.as_str());
            },
            None => {},
        }
        out.append(",\"messages\":[");
        let ghost views = self.messages@;
        proof {
            assert(Seq::<char>::empty() + "{\"model\":"@ =~= "{\"model\":"@);
            assert(views.take(0) =~= Seq::<Message>::empty());
            assert(out@ =~= payload_prefix(*self) + messages_json(views.take(0)));
        }
        let mut i: usize = 0;
        while i < self.messages.len()
            invariant
                0 <= i <= self.messages@.len(),
                views == self.messages@,
                out@ == payload_prefix(*self) + messages_json(views.take(i as int)),
            decreases self.messages@.len() - i,
        {
            if i > 0 {
                out.append(",");
                proof {
                    reveal_strlit(",");
                }
            }
            let m = &self.messages[i];
            match m.role {
                Role::User => {
                    out.append("{\"role\":\"user\",\"content\":");
                },
            }
            append_json_string(&mut out, m.content.as_str());
            out.append("}");
            proof {
                assert(views.take(i + 1).drop_last() =~= views.take(i as int));
                assert(views.take(i + 1).last() == views[i as int]);
                assert("{\"role\":\"user\",\"content\":"@ =~= "{\"role\":"@ + "\"user\""@
                    + ",\"content\":"@) by {
                    reveal_strlit("{\"role\":\"user\",\"content\":");
                    reveal_strlit("{\"role\":");
                    reveal_strlit("\"user\"");
                    reveal_strlit(",\"content\":");
                }
                assert(message_json(views[i as int]) == "{\"role\":"@ + role_json(
                    views[i as int].role,
                ) + ",\"content\":"@ + json_string_lit(views[i as int].content@) + "}"@);
                assert(out@ =~= payload_prefix(*self) + messages_json(views.take(i + 1)));
            }
            i = i + 1;
        }
        proof {
            assert(views.take(views.len() as int) =~= views);
        }
        out.append("]}");
        proof {
            assert(out@ =~= payload_json(*self));
        }
        out
    }
}

/// Everything of the payload text before the message list.
pub open spec fn payload_prefix(p: Payload) -> Seq<char> {
    "{\"model\":"@ + json_string_lit(p.model@) + ",\"max_tokens\":"@ + dec_digits(
        p.max_tokens as nat,
    ) + (match p.temperature {
        Some(t) => ",\"temperature\":"@ + t@,
        None => Seq::<char>::empty(),
    }) + (match p.top_p {
        Some(t) => ",\"top_p\":"@ + t@,
        None => Seq::<char>::empty(),
    }) + ",\"messages\":["@
}

/// The payload carries the prompt exactly once, as one JSON string
/// literal between a prefix and a suffix that do not depend on the prompt,
/// and that literal decodes back to the prompt unchanged: nothing of the
/// prompt is lost or altered beyond standard string escaping.
pub proof fn lemma_anthropic_body_carries_prompt(s: AnthropicSettings, prompt: Seq<char>)
    ensures
        ({
            let pre = "{\"model\":"@ + json_string_lit(s.model@) + ",\"max_tokens\":"@
                + dec_digits(s.max_tokens as nat) + (match s.temperature {
                Some(t) => ",\"temperature\":"@ + t@,
                None => Seq::<char>::empty(),
            }) + (match s.top_p {
                Some(t) => ",\"top_p\":"@ + t@,
                None => Seq::<char>::empty(),
            }) + ",\"messages\":["@ + "{\"role\":"@ + "\"user\""@ + ",\"content\":"@;
            anthropic_body_spec(s, prompt) == pre + json_string_lit(prompt) + ("}"@ + "]}"@)
        }),
        crate::json::unescape_str(crate::json::escape_str(prompt)) == Some(prompt),
{
    crate::json::lemma_escape_lossless(prompt);
    assert(anthropic_body_spec(s, prompt) =~= ("{\"model\":"@ + json_string_lit(s.model@)
        + ",\"max_tokens\":"@ + dec_digits(s.max_tokens as nat) + (match s.temperature {
        Some(t) => ",\"temperature\":"@ + t@,
        None => Seq::<char>::empty(),
    }) + (match s.top_p {
        Some(t) => ",\"top_p\":"@ + t@,
        None => Seq::<char>::empty(),
    }) + ",\"messages\":["@ + "{\"role\":"@ + "\"user\""@ + ",\"content\":"@)
        + json_string_lit(prompt) + ("}"@ + "]}"@));
}

impl Provider for AnthropicProvider {
    type Config = AnthropicSettings;

    open spec fn made(config: AnthropicSettings) -> AnthropicProvider {
        AnthropicProvider { config }
    }

    open spec fn url_spec(&self) -> Seq<char> {
        "https://api.anthropic.com/v1/messages"@
    }

    open spec fn body_spec(&self, prompt: Seq<char>) -> Seq<char> {
        anthropic_body_spec(self.config, prompt)
    }

    open spec fn headers_spec(&self) -> Seq<(Seq<char>, Seq<char>)> {
        seq![
            ("x-api-key"@, self.config.api_key@),
            ("anthropic-version"@, self.config.version@),
            ("content-type"@, "application/json"@),
        ]
    }

    open spec fn extract_spec(&self, doc: JsonModel) -> Seq<char> {
        anthropic_extract(doc)
    }

    open spec fn wf(&self) -> bool {
        self.config.wf()
    }

    fn from_config(config: AnthropicSettings) -> (r: AnthropicProvider) {
        AnthropicProvider { config }
    }

    fn check_wf(&self) -> (r: bool) {
        let t_ok = match &self.config.temperature {
            Some(t) => is_json_number(t.as_str()),
            None => true,
        };
        let p_ok = match &self.config.top_p {
            Some(t) => is_json_number(t.as_str()),
            None => true,
        };
        t_ok && p_ok
    }

    fn build_url(&self) -> (r: String) {
        "https://api.anthropic.com/v1/messages".to_owned()
    }

    fn build_request_body(&self, prompt: &str) -> (r: String) {
        let payload = Payload::from_settings_and_prompt(prompt.to_owned(), self.config.duplicate());
        let body = payload.to_json();
        proof {
            let ms = payload.messages@;
            assert(ms.len() == 1);
            assert(messages_json(ms) == message_json(ms[0]));
            assert(body@ =~= anthropic_body_spec(self.config, prompt@));
        }
        body
    }

    fn headers(&self) -> (r: Vec<(String, String)>) {
        let mut v: Vec<(String, String)> = Vec::new();
        v.push(("x-api-key".to_owned(), self.config.api_key.expose_secret().to_owned()));
        v.push(("anthropic-version".to_owned(), self.config.version.clone()));
        v.push(("content-type".to_owned(), "application/json".to_owned()));
        proof {
            assert(header_views(v@) =~= self.headers_spec());
        }
        v
    }

    fn parse_response(&self, response: &serde_json::Value) -> (r: String) {
        match crate::json::value_get(response, "content") {
            Some(content) => match crate::json::value_as_array(content) {
                Some(items) => {
                    if items.len() > 0 {
                        let first = &items[0];
                        match crate::json::value_get(first, "text") {
                            Some(t) => match crate::json::value_as_str(t) {
                                Some(s) => s.to_owned(),
                                None => String::new(),
                            },
                            None => String::new(),
                        }
                    } else {
                        String::new()
                    }
                },
                None => String::new(),
            },
            None => String::new(),
        }
    }
}

} // verus!
