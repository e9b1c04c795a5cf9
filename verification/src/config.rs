//! Which models take sampling controls, and how a configuration is put
//! together from the settings found in the environment.

use vstd::prelude::*;
use crate::error::{ErrorView, GatewayError};
use vstd::utf8::is_ascii_chars;
use crate::text::{ascii_lowered, chars_of, contains, lowercase, occurs_in, to_lowercase};
use crate::types::{opt_text, ConfigView, GatewayConfig};

verus! {

/// The names that mark a reasoning-only model. A model whose name holds one of
/// them takes no sampling controls.
pub open spec fn reasoning_names() -> Seq<Seq<char>> {
    seq![
        "o1"@,
        "o1-preview"@,
        "o1-mini"@,
        "o3"@,
        "o3-mini"@,
        "gpt-5"@,
        "gpt-5-mini"@,
    ]
}

/// Whether one of `names` stands somewhere in `text`.
pub open spec fn holds_any(text: Seq<char>, names: Seq<Seq<char>>) -> bool {
    exists|k: int| 0 <= k < names.len() && occurs_in(text, #[trigger] names[k])
}

/// Whether a model identifier, already in lower case, names a reasoning-only
/// model.
pub open spec fn names_reasoning_model(lower: Seq<char>) -> bool {
    holds_any(lower, reasoning_names())
}

/// Whether a model with this identifier takes sampling controls: temperature,
/// the two penalties, stop sequences and `max_tokens`. It does unless its
/// identifier, put in lower case, holds one of the reasoning names.
pub open spec fn supports_sampling(model: Seq<char>) -> bool {
    !names_reasoning_model(lowercase(model))
}

/// Whether a model identifier, already in lower case, names a reasoning-only
/// model.
pub fn is_reasoning_name(lower: &str) -> (found: bool)
    ensures
        found == names_reasoning_model(lower@),
{
    let names: [&str; 7] = ["o1", "o1-preview", "o1-mini", "o3", "o3-mini", "gpt-5", "gpt-5-mini"];
    let text = chars_of(lower);
    let mut k: usize = 0;
    while k < 7
        invariant
            k <= 7,
            text@ == lower@,
            names@.len() == 7,
            forall|j: int| 0 <= j < 7 ==> (#[trigger] names@[j])@ == reasoning_names()[j],
            forall|j: int| 0 <= j < k ==> !occurs_in(lower@, #[trigger] reasoning_names()[j]),
        decreases 7 - k,
    {
        let name = chars_of(names[k]);
        if contains(&text, &name) {
            assert(occurs_in(lower@, reasoning_names()[k as int]));
            return true;
        }
        k = k + 1;
    }
    false
}

/// Whether a model with this identifier takes sampling controls. For an
/// identifier that is ASCII throughout, lower case is the identifier with its
/// capitals as small letters.
pub fn model_supports_temperature(model: &str) -> (supported: bool)
    ensures
        supported == supports_sampling(model@),
        is_ascii_chars(model@) ==> supported == !names_reasoning_model(ascii_lowered(model@)),
{
    let lower = to_lowercase(model);
    !is_reasoning_name(lower.as_str())
}

/// The message for an environment that holds no API key.
pub const MISSING_KEY: &'static str =
    "AI_GATEWAY_API_KEY, AIGATEWAY_API_KEY, or VERCEL_OIDC_TOKEN is required";

/// The value of a decimal digit.
pub open spec fn digit_value(c: char) -> Option<nat> {
    if '0' <= c <= '9' {
        Some((c as u32 - '0' as u32) as nat)
    } else {
        None
    }
}

/// The number that a run of decimal digits writes; the empty run writes zero.
pub open spec fn digits_value(s: Seq<char>) -> Option<nat>
    decreases s.len(),
{
    if s.len() == 0 {
        Some(0)
    } else {
        match (digits_value(s.drop_last()), digit_value(s.last())) {
            (Some(high), Some(low)) => Some(high * 10 + low),
            _ => None,
        }
    }
}

/// The number that a text writes: decimal digits, at least one, with or
/// without a plus sign before them.
pub open spec fn written_count(s: Seq<char>) -> Option<nat> {
    let digits = if s.len() > 0 && s[0] == '+' {
        s.drop_first()
    } else {
        s
    };
    if digits.len() == 0 {
        None
    } else {
        digits_value(digits)
    }
}

/// The count that a text stands for: the number it writes, if it writes one
/// that a `usize` holds.
pub open spec fn parsed_count(s: Seq<char>) -> Option<usize> {
    match written_count(s) {
        Some(value) => if value <= usize::MAX {
            Some(value as usize)
        } else {
            None
        },
        None => None,
    }
}

/// The start of a run of digits writes no more than the whole run, and where
/// the start writes no number, neither does the run.
pub proof fn lemma_digits_prefix(s: Seq<char>, k: int)
    requires
        0 <= k <= s.len(),
    ensures
        digits_value(s) matches Some(whole) ==> digits_value(s.take(k)) matches Some(part) && part
            <= whole,
    decreases s.len() - k,
{
    if k == s.len() {
        assert(s.take(k) =~= s);
    } else {
        let shorter = s.drop_last();
        lemma_digits_prefix(shorter, k);
        assert(shorter.take(k) =~= s.take(k));
    }
}

/// The count that a text stands for.
pub fn parse_count(text: &str) -> (count: Option<usize>)
    ensures
        count == parsed_count(text@),
{
    let cs = chars_of(text);
    let n: usize = cs.len();
    let first: usize = if n > 0 && cs[0] == '+' {
        1
    } else {
        0
    };
    if first == n {
        return None;
    }
    let ghost digits = cs@.skip(first as int);
    proof {
        if first == 1 {
            assert(digits =~= cs@.drop_first());
        } else {
            assert(digits =~= cs@);
        }
        assert(digits.take(0) =~= Seq::<char>::empty());
        assert(written_count(text@) == digits_value(digits));
    }
    let mut value: usize = 0;
    let mut i: usize = first;
    while i < n
        invariant
            n == cs@.len(),
            first <= i <= n,
            digits == cs@.skip(first as int),
            written_count(text@) == digits_value(digits),
            digits_value(digits.take(i - first)) == Some(value as nat),
        decreases n - i,
    {
        let c = cs[i];
        proof {
            lemma_digits_prefix(digits, i - first + 1);
            assert(digits.take(i - first + 1).drop_last() =~= digits.take(i - first));
            assert(digits.take(i - first + 1).last() == c);
        }
        if c < '0' || c > '9' {
            return None;
        }
        let d: usize = (c as u32 - '0' as u32) as usize;
        if value > (usize::MAX - d) / 10 {
            return None;
        }
        value = value * 10 + d;
        i = i + 1;
    }
    proof {
        assert(digits.take(n - first) =~= digits);
    }
    Some(value)
}

/// The settings that the environment holds for the gateway, each as the text
/// of its variable, or `None` where the variable is not set.
#[derive(Debug, Clone)]
pub struct EnvSettings {
    /// `AI_GATEWAY_API_KEY`
    pub api_key: Option<String>,
    /// `AIGATEWAY_API_KEY`
    pub api_key_fallback: Option<String>,
    /// `VERCEL_OIDC_TOKEN`
    pub oidc_token: Option<String>,
    /// `AI_GATEWAY_BASE_URL`
    pub base_url: Option<String>,
    /// `AI_GATEWAY_SMALL_MODEL`
    pub small_model: Option<String>,
    /// `AI_GATEWAY_LARGE_MODEL`
    pub large_model: Option<String>,
    /// `AI_GATEWAY_EMBEDDING_MODEL`
    pub embedding_model: Option<String>,
    /// `AI_GATEWAY_EMBEDDING_DIMENSIONS`
    pub embedding_dimensions: Option<String>,
}

/// The settings as mathematical values.
pub struct EnvView {
    pub api_key: Option<Seq<char>>,
    pub api_key_fallback: Option<Seq<char>>,
    pub oidc_token: Option<Seq<char>>,
    pub base_url: Option<Seq<char>>,
    pub small_model: Option<Seq<char>>,
    pub large_model: Option<Seq<char>>,
    pub embedding_model: Option<Seq<char>>,
    pub embedding_dimensions: Option<Seq<char>>,
}

impl View for EnvSettings {
    type V = EnvView;

    open spec fn view(&self) -> EnvView {
        EnvView {
            api_key: opt_text(self.api_key),
            api_key_fallback: opt_text(self.api_key_fallback),
            oidc_token: opt_text(self.oidc_token),
            base_url: opt_text(self.base_url),
            small_model: opt_text(self.small_model),
            large_model: opt_text(self.large_model),
            embedding_model: opt_text(self.embedding_model),
            embedding_dimensions: opt_text(self.embedding_dimensions),
        }
    }
}

/// Whether a variable holds something: it is set, and not to the empty text.
pub open spec fn holds_text(value: Option<Seq<char>>) -> bool {
    value matches Some(text) && text.len() > 0
}

/// The text of a setting, or the default where it is not set.
pub open spec fn or_default(value: Option<Seq<char>>, default: Seq<char>) -> Seq<char> {
    match value {
        Some(text) => text,
        None => default,
    }
}

impl EnvView {
    /// The API key: the first of the three variables that holds something.
    pub open spec fn key(self) -> Option<Seq<char>> {
        if holds_text(self.api_key) {
            self.api_key
        } else if holds_text(self.api_key_fallback) {
            self.api_key_fallback
        } else if holds_text(self.oidc_token) {
            self.oidc_token
        } else {
            None
        }
    }

    /// The embedding dimensionality: what the variable stands for, or the
    /// default where it is not set or stands for no count.
    pub open spec fn dimensions(self, default: nat) -> nat {
        match self.embedding_dimensions {
            Some(text) => match parsed_count(text) {
                Some(count) => count as nat,
                None => default,
            },
            None => default,
        }
    }

    /// The configuration that the settings give, for the key they hold.
    pub open spec fn configuration(self, key: Seq<char>) -> ConfigView {
        let defaults = ConfigView::with_defaults(key);
        ConfigView {
            api_key: key,
            base_url: or_default(self.base_url, defaults.base_url),
            small_model: or_default(self.small_model, defaults.small_model),
            large_model: or_default(self.large_model, defaults.large_model),
            embedding_model: or_default(self.embedding_model, defaults.embedding_model),
            embedding_dimensions: self.dimensions(defaults.embedding_dimensions),
            image_model: defaults.image_model,
            timeout_secs: defaults.timeout_secs,
        }
    }
}

fn first_key(env: &EnvSettings) -> (key: Option<&str>)
    ensures
        match key {
            Some(text) => env@.key() == Some(text@),
            None => env@.key() is None,
        },
{
    match &env.api_key {
        Some(text) => {
            if text.as_str().unicode_len() > 0 {
                return Some(text.as_str());
            }
        },
        None => {},
    }
    match &env.api_key_fallback {
        Some(text) => {
            if text.as_str().unicode_len() > 0 {
                return Some(text.as_str());
            }
        },
        None => {},
    }
    match &env.oidc_token {
        Some(text) => {
            if text.as_str().unicode_len() > 0 {
                return Some(text.as_str());
            }
        },
        None => {},
    }
    None
}

impl GatewayConfig {
    /// The configuration that the environment gives. The API key is required:
    /// without one the configuration is refused. Every other setting replaces
    /// its default where it is set; embedding dimensions that stand for no
    /// count are passed over without an error.
    pub fn from_env(env: &EnvSettings) -> (config: Result<GatewayConfig, GatewayError>)
        ensures
            match env@.key() {
                Some(key) => config matches Ok(c) && c@ == env@.configuration(key) && c@.api_key.len()
                    > 0,
                None => config matches Err(e) && e@ == ErrorView::ConfigError(MISSING_KEY@),
            },
    {
        let key = match first_key(env) {
            Some(key) => key,
            None => {
                return Err(GatewayError::ConfigError(MISSING_KEY.to_owned()));
            },
        };
        let mut config = GatewayConfig::new(key);
        match &env.base_url {
            Some(url) => {
                config = config.base_url(url.as_str());
            },
            None => {},
        }
        match &env.small_model {
            Some(model) => {
                config = config.small_model(model.as_str());
            },
            None => {},
        }
        match &env.large_model {
            Some(model) => {
                config = config.large_model(model.as_str());
            },
            None => {},
        }
        match &env.embedding_model {
            Some(model) => {
                config = config.embedding_model(model.as_str());
            },
            None => {},
        }
        match &env.embedding_dimensions {
            Some(text) => {
                match parse_count(text.as_str()) {
                    Some(dims) => {
                        config = config.embedding_dimensions(dims);
                    },
                    None => {},
                }
            },
            None => {},
        }
        Ok(config)
    }
}

} // verus!
