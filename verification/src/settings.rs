//! Typed provider configurations and profile resolution. Loading and
//! merging the configuration file is the caller's business; this module owns
//! what happens after: picking the named profile, holding the credential so
//! it can only be exposed deliberately, and serializing configurations with
//! the credential always redacted.
//!
//! Generation parameters that are fractional (temperature and the like) are
//! carried as their decimal tokens, exactly as they are spliced into a
//! payload; the whole-number parameters stay integers.

use vstd::prelude::*;
use vstd::string::*;

use crate::error::Error;
use crate::json::{append_json_string, is_number_token, json_string_lit};
use crate::text::{dec_digits, u32_to_string};

verus! {

/// A credential. Its only operations are deliberate exposure for one
/// authenticated call and redacted serialization; nothing else can read it.
pub struct Secret {
    value: String,
}

impl View for Secret {
    type V = Seq<char>;

    closed spec fn view(&self) -> Seq<char> {
        self.value@
    }
}

impl Secret {
    /// Wraps a credential.
    pub fn new(value: String) -> (r: Secret)
        ensures
            r@ == value@,
    {
        Secret { value }
    }

    /// Hands the credential out for use in one authenticated call.
    pub fn expose_secret(&self) -> (r: &str)
        ensures
            r@ == self@,
    {
        self.value.as_str()
    }

    /// A copy of the credential.
    pub fn duplicate(&self) -> (r: Secret)
        ensures
            r == *self,
    {
        Secret { value: self.value.clone() }
    }
}

/// A copy of an optional string.
pub fn copy_opt_string(o: &Option<String>) -> (r: Option<String>)
    ensures
        r == *o,
{
    match o {
        Some(s) => Some(s.clone()),
        None => None,
    }
}

/// The fixed placeholder that stands for any credential in serialized
/// output.
pub open spec fn redacted_spec() -> Seq<char> {
    "[REDACTED]"@
}

/// What serialization writes in place of a credential: the fixed
/// placeholder, whatever the credential is.
pub fn serialize_secret(_value: &Secret) -> (r: &'static str)
    ensures
        r@ == redacted_spec(),
{
    "[REDACTED]"
}

/// Configuration for the Anthropic backend.
pub struct AnthropicSettings {
    pub version: String,
    pub model: String,
    pub api_key: Secret,
    pub max_tokens: u32,
    pub temperature: Option<String>,
    pub top_p: Option<String>,
}

impl AnthropicSettings {
    /// The API version header value used when the file names none.
    pub fn default_version() -> (r: String)
        ensures
            r@ == "2023-06-01"@,
    {
        "2023-06-01".to_owned()
    }

    /// The token budget used when the file names none.
    pub fn default_max_tokens() -> (r: u32)
        ensures
            r == 500,
    {
        500
    }

    /// The fractional sampling parameters, where set, are decimal number
    /// tokens, so that every text they are spliced into stays well-formed.
    pub open spec fn wf(&self) -> bool {
        (self.temperature matches Some(t) ==> is_number_token(t@)) && (
        self.top_p matches Some(t) ==> is_number_token(t@))
    }

    /// A field-for-field copy.
    pub fn duplicate(&self) -> (r: AnthropicSettings)
        ensures
            r == *self,
    {
        AnthropicSettings {
            version: self.version.clone(),
            model: self.model.clone(),
            api_key: self.api_key.duplicate(),
            max_tokens: self.max_tokens,
            temperature: copy_opt_string(&self.temperature),
            top_p: copy_opt_string(&self.top_p),
        }
    }
}

/// Configuration for the Ollama backend; it carries no credential.
pub struct OllamaSettings {
    pub url: String,
    pub model: String,
    pub temperature: String,
    pub top_p: String,
    pub num_predict: u32,
}

impl OllamaSettings {
    /// The endpoint used when the file names none.
    pub fn default_url() -> (r: String)
        ensures
            r@ == "http://localhost:11434"@,
    {
        "http://localhost:11434".to_owned()
    }

    /// The sampling temperature used when the file names none.
    pub fn default_temperature() -> (r: String)
        ensures
            r@ == "0.3"@,
    {
        "0.3".to_owned()
    }

    /// The nucleus-sampling bound used when the file names none.
    pub fn default_top_p() -> (r: String)
        ensures
            r@ == "0.9"@,
    {
        "0.9".to_owned()
    }

    /// The prediction budget used when the file names none.
    pub fn default_num_predict() -> (r: u32)
        ensures
            r == 500,
    {
        500
    }

    /// The fractional sampling parameters are decimal number tokens.
    pub open spec fn wf(&self) -> bool {
        is_number_token(self.temperature@) && is_number_token(self.top_p@)
    }
}

/// Configuration for the OpenAI backend.
pub struct OpenAISettings {
    pub model: String,
    pub api_key: Secret,
    pub base_url: String,
    pub max_tokens: u32,
    pub temperature: String,
    pub top_p: String,
    pub frequency_penalty: String,
    pub presence_penalty: String,
}

impl OpenAISettings {
    /// The endpoint base used when the file names none.
    pub fn default_base_url() -> (r: String)
        ensures
            r@ == "https://api.openai.com/v1"@,
    {
        "https://api.openai.com/v1".to_owned()
    }

    /// The token budget used when the file names none.
    pub fn default_max_tokens() -> (r: u32)
        ensures
            r == 500,
    {
        500
    }

    /// The sampling temperature used when the file names none.
    pub fn default_temperature() -> (r: String)
        ensures
            r@ == "0.3"@,
    {
        "0.3".to_owned()
    }

    /// The nucleus-sampling bound used when the file names none.
    pub fn default_top_p() -> (r: String)
        ensures
            r@ == "0.9"@,
    {
        "0.9".to_owned()
    }

    /// The frequency penalty used when the file names none.
    pub fn default_frequency_penalty() -> (r: String)
        ensures
            r@ == "0.0"@,
    {
        "0.0".to_owned()
    }

    /// The presence penalty used when the file names none.
    pub fn default_presence_penalty() -> (r: String)
        ensures
            r@ == "0.0"@,
    {
        "0.0".to_owned()
    }

    /// The fractional sampling parameters are decimal number tokens.
    pub open spec fn wf(&self) -> bool {
        is_number_token(self.temperature@) && is_number_token(self.top_p@) && is_number_token(
            self.frequency_penalty@,
        ) && is_number_token(self.presence_penalty@)
    }
}

/// Configuration for the Google backend.
pub struct GoogleSettings {
    pub model: String,
    pub api_key: Secret,
    pub base_url: String,
    pub max_tokens: u32,
    pub temperature: String,
    pub top_p: String,
}

impl GoogleSettings {
    /// The endpoint base used when the file names none.
    pub fn default_base_url() -> (r: String)
        ensures
            r@ == "https://generativelanguage.googleapis.com/v1beta"@,
    {
        "https://generativelanguage.googleapis.com/v1beta".to_owned()
    }

    /// The token budget used when the file names none.
    pub fn default_max_tokens() -> (r: u32)
        ensures
            r == 500,
    {
        500
    }

    /// The sampling temperature used when the file names none.
    pub fn default_temperature() -> (r: String)
        ensures
            r@ == "0.3"@,
    {
        "0.3".to_owned()
    }

    /// The nucleus-sampling bound used when the file names none.
    pub fn default_top_p() -> (r: String)
        ensures
            r@ == "0.9"@,
    {
        "0.9".to_owned()
    }

    /// The fractional sampling parameters are decimal number tokens.
    pub open spec fn wf(&self) -> bool {
        is_number_token(self.temperature@) && is_number_token(self.top_p@)
    }
}

/// One backend's configuration, tagged by backend.
pub enum Provider {
    Anthropic(AnthropicSettings),
    Ollama(OllamaSettings),
    OpenAI(OpenAISettings),
    Google(GoogleSettings),
}

/// A named profile: optional prompt overrides plus one backend
/// configuration.
pub struct Profile {
    pub name: String,
    pub role: Option<String>,
    pub directive: Option<String>,
    pub provider: Provider,
}

/// The loaded settings: the name of the default profile and the profiles
/// themselves.
pub struct Settings {
    pub default: String,
    pub profiles: Vec<Profile>,
}

/// The profile name that resolution looks for: the requested one, or the
/// configured default when none is requested.
pub open spec fn requested_name(default: Seq<char>, profile: Option<Seq<char>>) -> Seq<char> {
    match profile {
        Some(p) => p,
        None => default,
    }
}

impl Settings {
    /// Assembles settings from the default profile name and the profiles.
    pub fn new(default: String, profiles: Vec<Profile>) -> (r: Settings)
        ensures
            r.default == default,
            r.profiles() == profiles@,
    {
        Settings { default, profiles }
    }

    /// The profiles, in file order.
    pub open spec fn profiles(&self) -> Seq<Profile> {
        self.profiles@
    }

    /// Resolves a profile by name: the first profile whose name is the
    /// requested one (or the configured default, when none is requested);
    /// `ProfileNotFound` exactly when no profile has that name.
    pub fn get(self, profile: Option<String>) -> (r: Result<Profile, Error>)
        ensures
            ({
                let wanted = requested_name(
                    self.default@,
                    match profile {
                        Some(p) => Some(p@),
                        None => None,
                    },
                );
                match r {
                    Ok(p) => exists|i: int|
                        0 <= i < self.profiles().len() && p == self.profiles()[i]
                            && self.profiles()[i].name@ == wanted && (forall|j: int|
                            0 <= j < i ==> (#[trigger] self.profiles()[j]).name@ != wanted),
                    Err(e) => e matches Error::ProfileNotFound { name } && name@ == wanted && (
                    forall|i: int|
                        0 <= i < self.profiles().len() ==> (#[trigger] self.profiles()[i]).name@
                            != wanted),
                }
            }),
    {
        let name: String = match profile {
            Some(p) => p,
            None => self.default,
        };
        let mut profiles = self.profiles;
        let mut i: usize = 0;
        while i < profiles.len()
            invariant
                0 <= i <= profiles.len(),
                profiles@ == self.profiles(),
                name@ == requested_name(
                    self.default@,
                    match profile {
                        Some(p) => Some(p@),
                        None => None,
                    },
                ),
                forall|j: int| 0 <= j < i ==> (#[trigger] profiles@[j]).name@ != name@,
            decreases profiles.len() - i,
        {
            let found = profiles[i].name == name;
            if found {
                let p = profiles.remove(i);
                return Ok(p);
            }
            i = i + 1;
        }
        Err(Error::ProfileNotFound { name })
    }
}

/// The serialized fields of an Anthropic configuration, with the credential
/// redacted; the key's value never enters the output.
pub open spec fn anthropic_fields_json(s: AnthropicSettings) -> Seq<char> {
    "\"version\":"@ + json_string_lit(s.version@) + ",\"model\":"@ + json_string_lit(s.model@)
        + ",\"api_key\":\"[REDACTED]\",\"max_tokens\":"@ + dec_digits(s.max_tokens as nat) + (
    match s.temperature {
        Some(t) => ",\"temperature\":"@ + t@,
        None => Seq::<char>::empty(),
    }) + (match s.top_p {
        Some(t) => ",\"top_p\":"@ + t@,
        None => Seq::<char>::empty(),
    })
}

/// The serialized fields of an Ollama configuration; it has no credential.
pub open spec fn ollama_fields_json(s: OllamaSettings) -> Seq<char> {
    "\"url\":"@ + json_string_lit(s.url@) + ",\"model\":"@ + json_string_lit(s.model@)
        + ",\"temperature\":"@ + s.temperature@ + ",\"top_p\":"@ + s.top_p@ + ",\"num_predict\":"@
        + dec_digits(s.num_predict as nat)
}

/// The serialized fields of an OpenAI configuration, with the credential
/// redacted.
pub open spec fn openai_fields_json(s: OpenAISettings) -> Seq<char> {
    "\"model\":"@ + json_string_lit(s.model@) + ",\"api_key\":\"[REDACTED]\",\"base_url\":"@
        + json_string_lit(s.base_url@) + ",\"max_tokens\":"@ + dec_digits(s.max_tokens as nat)
        + ",\"temperature\":"@ + s.temperature@ + ",\"top_p\":"@ + s.top_p@
        + ",\"frequency_penalty\":"@ + s.frequency_penalty@ + ",\"presence_penalty\":"@
        + s.presence_penalty@
}

/// The serialized fields of a Google configuration, with the credential
/// redacted.
pub open spec fn google_fields_json(s: GoogleSettings) -> Seq<char> {
    "\"model\":"@ + json_string_lit(s.model@) + ",\"api_key\":\"[REDACTED]\",\"base_url\":"@
        + json_string_lit(s.base_url@) + ",\"max_tokens\":"@ + dec_digits(s.max_tokens as nat)
        + ",\"temperature\":"@ + s.temperature@ + ",\"top_p\":"@ + s.top_p@
}

/// The serialized form of a tagged provider configuration: the backend tag,
/// then the backend's fields, in one object.
pub open spec fn provider_json(p: Provider) -> Seq<char> {
    match p {
        Provider::Anthropic(s) => "{\"provider\":\"anthropic\","@ + anthropic_fields_json(s)
            + "}"@,
        Provider::Ollama(s) => "{\"provider\":\"ollama\","@ + ollama_fields_json(s) + "}"@,
        Provider::OpenAI(s) => "{\"provider\":\"openai\","@ + openai_fields_json(s) + "}"@,
        Provider::Google(s) => "{\"provider\":\"google\","@ + google_fields_json(s) + "}"@,
    }
}

impl AnthropicSettings {
    fn append_fields_json(&self, out: &mut String)
        ensures
            final(out)@ == old(out)@ + anthropic_fields_json(*self),
    {
        out.append("\"version\":");
        append_json_string(out, self.version.as_str());
        out.append(",\"model\":");
        append_json_string(out, self.model.as_str());
        out.append(",\"api_key\":\"[REDACTED]\",\"max_tokens\":");
        let digits = u32_to_string(self.max_tokens);
        out.append(digits.as_str());
        match &self.temperature {
            Some(t) => {
                out.append(",\"temperature\":");
                out.append(t.as_str());
            },
            None => {},
        }
        match &self.top_p {
            Some(t) => {
                out.append(",\"top_p\":");
                out.append(t.as_str());
            },
            None => {},
        }
        proof {
            assert(final(out)@ =~= old(out)@ + anthropic_fields_json(*self));
        }
    }
}

impl OllamaSettings {
    fn append_fields_json(&self, out: &mut String)
        ensures
            final(out)@ == old(out)@ + ollama_fields_json(*self),
    {
        out.append("\"url\":");
        append_json_string(out, self.url.as_str());
        out.append(",\"model\":");
        append_json_string(out, self.model.as_str());
        out.append(",\"temperature\":");
        out.append(self.temperature.as_str());
        out.append(",\"top_p\":");
        out.append(self.top_p.as_str());
        out.append(",\"num_predict\":");
        let digits = u32_to_string(self.num_predict);
        out.append(digits.as_str());
        proof {
            assert(final(out)@ =~= old(out)@ + ollama_fields_json(*self));
        }
    }
}

impl OpenAISettings {
    fn append_fields_json(&self, out: &mut String)
        ensures
            final(out)@ == old(out)@ + openai_fields_json(*self),
    {
        out.append("\"model\":");
        append_json_string(out, self.model.as_str());
        out.append(",\"api_key\":\"[REDACTED]\",\"base_url\":");
        append_json_string(out, self.base_url.as_str());
        out.append(",\"max_tokens\":");
        let digits = u32_to_string(self.max_tokens);
        out.append(digits.as_str());
        out.append(",\"temperature\":");
        out.append(self.temperature.as_str());
        out.append(",\"top_p\":");
        out.append(self.top_p.as_str());
        out.append(",\"frequency_penalty\":");
        out.append(self.frequency_penalty.as_str());
        out.append(",\"presence_penalty\":");
        out.append(self.presence_penalty.as_str());
        proof {
            assert(final(out)@ =~= old(out)@ + openai_fields_json(*self));
        }
    }
}

impl GoogleSettings {
    fn append_fields_json(&self, out: &mut String)
        ensures
            final(out)@ == old(out)@ + google_fields_json(*self),
    {
        out.append("\"model\":");
        append_json_string(out, self.model.as_str());
        out.append(",\"api_key\":\"[REDACTED]\",\"base_url\":");
        append_json_string(out, self.base_url.as_str());
        out.append(",\"max_tokens\":");
        let digits = u32_to_string(self.max_tokens);
        out.append(digits.as_str());
        out.append(",\"temperature\":");
        out.append(self.temperature.as_str());
        out.append(",\"top_p\":");
        out.append(self.top_p.as_str());
        proof {
            assert(final(out)@ =~= old(out)@ + google_fields_json(*self));
        }
    }
}

impl Provider {
    /// The carried configuration's fractional parameters are decimal number
    /// tokens.
    pub open spec fn wf(&self) -> bool {
        match self {
            Provider::Anthropic(s) => s.wf(),
            Provider::Ollama(s) => s.wf(),
            Provider::OpenAI(s) => s.wf(),
            Provider::Google(s) => s.wf(),
        }
    }

    /// Serializes the configuration with the backend tag, the credential
    /// always replaced by the fixed placeholder; the number tokens are
    /// spliced in unquoted, which the precondition keeps well-formed.
    pub fn to_json(&self) -> (r: String)
        requires
            self.wf(),
        ensures
            r@ == provider_json(*self),
    {
        let mut out = String::new();
        match self {
            Provider::Anthropic(s) => {
                out.append("{\"provider\":\"anthropic\",");
                s.append_fields_json(&mut out);
            },
            Provider::Ollama(s) => {
                out.append("{\"provider\":\"ollama\",");
                s.append_fields_json(&mut out);
            },
            Provider::OpenAI(s) => {
                out.append("{\"provider\":\"openai\",");
                s.append_fields_json(&mut out);
            },
            Provider::Google(s) => {
                out.append("{\"provider\":\"google\",");
                s.append_fields_json(&mut out);
            },
        }
        out.append("}");
        proof {
            assert(out@ =~= provider_json(*self));
        }
        out
    }
}

/// Redaction for the Anthropic backend: serialization does not depend on the
/// credential, so two configurations that differ only in the credential
/// serialize to the very same text.
pub proof fn lemma_anthropic_redaction(a: AnthropicSettings, b: AnthropicSettings)
    requires
        a.version == b.version,
        a.model == b.model,
        a.max_tokens == b.max_tokens,
        a.temperature == b.temperature,
        a.top_p == b.top_p,
    ensures
        anthropic_fields_json(a) == anthropic_fields_json(b),
        provider_json(Provider::Anthropic(a)) == provider_json(Provider::Anthropic(b)),
{
}

/// Redaction for the OpenAI backend: serialization does not depend on the
/// credential.
pub proof fn lemma_openai_redaction(a: OpenAISettings, b: OpenAISettings)
    requires
        a.model == b.model,
        a.base_url == b.base_url,
        a.max_tokens == b.max_tokens,
        a.temperature == b.temperature,
        a.top_p == b.top_p,
        a.frequency_penalty == b.frequency_penalty,
        a.presence_penalty == b.presence_penalty,
    ensures
        openai_fields_json(a) == openai_fields_json(b),
        provider_json(Provider::OpenAI(a)) == provider_json(Provider::OpenAI(b)),
{
}

/// Redaction for the Google backend: serialization does not depend on the
/// credential.
pub proof fn lemma_google_redaction(a: GoogleSettings, b: GoogleSettings)
    requires
        a.model == b.model,
        a.base_url == b.base_url,
        a.max_tokens == b.max_tokens,
        a.temperature == b.temperature,
        a.top_p == b.top_p,
    ensures
        google_fields_json(a) == google_fields_json(b),
        provider_json(Provider::Google(a)) == provider_json(Provider::Google(b)),
{
}

} // verus!
