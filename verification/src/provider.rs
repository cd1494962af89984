//! Built-in providers: their upstreams, API key variables and model catalogs.
use vstd::prelude::*;

use crate::cli::ProviderArgs;
use crate::error::PalError;
use crate::text::{normalize, normalized, str_eq};

verus! {

/// A model that a provider offers: slug, display name, description, context window.
pub type ModelInfo = (Seq<char>, Seq<char>, Seq<char>, u32);

/// A model that a built-in provider offers.
#[derive(Clone, Copy, Debug, PartialEq, Eq)]
pub struct ProviderModel {
    pub slug: &'static str,
    pub display_name: &'static str,
    pub description: &'static str,
    pub context_window: u32,
}

impl View for ProviderModel {
    type V = ModelInfo;

    open spec fn view(&self) -> ModelInfo {
        (self.slug@, self.display_name@, self.description@, self.context_window)
    }
}

/// The resolved settings of one provider.
#[derive(Debug, Clone, PartialEq, Eq)]
pub struct ProviderProfile {
    pub name: String,
    pub upstream: String,
    pub api_key_env: String,
    pub api_key: Option<String>,
}

/// The names accepted as built-in providers, in the order they are listed.
pub open spec fn builtin_names() -> Seq<Seq<char>> {
    seq![
        "openai"@,
        "deepseek"@,
        "z"@,
        "zai"@,
        "kimi"@,
        "moonshot"@,
        "qwen"@,
        "dashscope"@,
        "mistral"@,
        "groq"@,
        "xai"@,
        "grok"@,
        "openrouter"@,
        "custom"@,
    ]
}

/// Default upstream and API key variable of a (normalized) provider name.
pub open spec fn defaults_of(p: Seq<char>) -> Option<(Seq<char>, Seq<char>)> {
    if p == "openai"@ {
        Some(("https://api.openai.com/v1"@, "OPENAI_API_KEY"@))
    } else if p == "deepseek"@ {
        Some(("https://api.deepseek.com/v1"@, "DEEPSEEK_API_KEY"@))
    } else if p == "z"@ || p == "zai"@ {
        Some(("https://api.z.ai/api/paas/v4"@, "ZAI_API_KEY"@))
    } else if p == "kimi"@ || p == "moonshot"@ {
        Some(("https://api.moonshot.cn/v1"@, "MOONSHOT_API_KEY"@))
    } else if p == "qwen"@ || p == "dashscope"@ {
        Some(("https://dashscope.aliyuncs.com/compatible-mode/v1"@, "DASHSCOPE_API_KEY"@))
    } else if p == "mistral"@ {
        Some(("https://api.mistral.ai/v1"@, "MISTRAL_API_KEY"@))
    } else if p == "groq"@ {
        Some(("https://api.groq.com/openai/v1"@, "GROQ_API_KEY"@))
    } else if p == "xai"@ || p == "grok"@ {
        Some(("https://api.x.ai/v1"@, "XAI_API_KEY"@))
    } else if p == "openrouter"@ {
        Some(("https://openrouter.ai/api/v1"@, "OPENROUTER_API_KEY"@))
    } else if p == "custom"@ {
        Some(("https://openrouter.ai/api/v1"@, "OPENAI_API_KEY"@))
    } else {
        None
    }
}

pub open spec fn deepseek_models() -> Seq<ModelInfo> {
    seq![
        (
            "deepseek-v4-pro"@,
            "DeepSeek-V4-Pro"@,
            "DeepSeek frontier model with thinking mode, 1M context, JSON output, and tool calls."@,
            1_000_000u32,
        ),
        (
            "deepseek-v4-flash"@,
            "DeepSeek-V4-Flash"@,
            "DeepSeek faster V4 model with thinking mode, 1M context, JSON output, and tool calls."@,
            1_000_000u32,
        ),
    ]
}

pub open spec fn zai_models() -> Seq<ModelInfo> {
    seq![
        (
            "glm-5.2"@,
            "GLM-5.2"@,
            "Z.ai's flagship model for coding and long-horizon tasks with configurable reasoning effort."@,
            1_000_000u32,
        ),
    ]
}

pub open spec fn kimi_models() -> Seq<ModelInfo> {
    seq![
        (
            "kimi-k3"@,
            "Kimi K3"@,
            "Kimi's flagship model for long-horizon coding, knowledge work, and reasoning."@,
            1_000_000u32,
        ),
        (
            "kimi-k2.7-code"@,
            "Kimi K2.7 Code"@,
            "Kimi's strongest coding model for agentic coding workflows."@,
            256_000u32,
        ),
        (
            "kimi-k2.7-code-highspeed"@,
            "Kimi K2.7 Code Highspeed"@,
            "High-speed Kimi K2.7 Code variant with the same model parameters."@,
            256_000u32,
        ),
        ("kimi-k2.6"@, "Kimi K2.6"@, "Kimi general chat and multimodal model."@, 256_000u32),
    ]
}

pub open spec fn qwen_models() -> Seq<ModelInfo> {
    seq![
        (
            "qwen3.7-max"@,
            "Qwen3.7 Max"@,
            "DashScope's strongest Qwen text-generation model."@,
            1_000_000u32,
        ),
        (
            "qwen3.7-plus"@,
            "Qwen3.7 Plus"@,
            "DashScope high-capability Qwen text-generation model."@,
            1_000_000u32,
        ),
        (
            "qwen3.6-flash"@,
            "Qwen3.6 Flash"@,
            "DashScope low-latency Qwen text-generation model."@,
            1_000_000u32,
        ),
    ]
}

pub open spec fn mistral_models() -> Seq<ModelInfo> {
    seq![
        (
            "mistral-medium-3-5+2"@,
            "Mistral Medium 3.5"@,
            "Mistral frontier multimodal model optimized for agentic and coding use cases."@,
            256_000u32,
        ),
        (
            "mistral-small-2603+1"@,
            "Mistral Small 4"@,
            "Mistral hybrid model unifying instruct, reasoning, and coding capabilities."@,
            256_000u32,
        ),
        (
            "devstral-2512"@,
            "Devstral 2"@,
            "Mistral code agents model for software engineering tasks."@,
            256_000u32,
        ),
    ]
}

pub open spec fn groq_models() -> Seq<ModelInfo> {
    seq![
        (
            "openai/gpt-oss-120b"@,
            "GPT OSS 120B"@,
            "OpenAI's flagship open-weight model hosted by Groq."@,
            131_072u32,
        ),
        (
            "groq/compound"@,
            "Groq Compound"@,
            "Groq agentic system that can use built-in tools such as web search and code execution."@,
            131_072u32,
        ),
        (
            "llama-3.3-70b-versatile"@,
            "Llama 3.3 70B Versatile"@,
            "Groq production Llama 3.3 70B model."@,
            131_072u32,
        ),
        (
            "qwen/qwen3.6-27b"@,
            "Qwen3.6 27B"@,
            "Qwen3.6 preview model hosted by Groq."@,
            131_072u32,
        ),
    ]
}

pub open spec fn xai_models() -> Seq<ModelInfo> {
    seq![
        (
            "grok-4.3"@,
            "Grok 4.3"@,
            "xAI's recommended general-purpose model with agentic tool calling."@,
            1_000_000u32,
        ),
        (
            "grok-build-0.1"@,
            "Grok Build 0.1"@,
            "xAI coding model trained for agentic coding workflows."@,
            256_000u32,
        ),
    ]
}

pub open spec fn openrouter_models() -> Seq<ModelInfo> {
    seq![
        (
            "openrouter/auto"@,
            "OpenRouter Auto"@,
            "OpenRouter router that automatically selects a suitable model for each prompt."@,
            128_000u32,
        ),
    ]
}

/// The model catalog of a (normalized) provider name.
pub open spec fn models_of(p: Seq<char>) -> Seq<ModelInfo> {
    if p == "deepseek"@ {
        deepseek_models()
    } else if p == "z"@ || p == "zai"@ {
        zai_models()
    } else if p == "kimi"@ || p == "moonshot"@ {
        kimi_models()
    } else if p == "qwen"@ || p == "dashscope"@ {
        qwen_models()
    } else if p == "mistral"@ {
        mistral_models()
    } else if p == "groq"@ {
        groq_models()
    } else if p == "xai"@ || p == "grok"@ {
        xai_models()
    } else if p == "openrouter"@ {
        openrouter_models()
    } else {
        Seq::empty()
    }
}

/// The default model of a provider as typed by the user.
pub open spec fn default_model_of(provider: Seq<char>) -> Option<Seq<char>> {
    let p = normalized(provider);
    if models_of(p).len() > 0 {
        Some(models_of(p)[0].0)
    } else if p == "openai"@ {
        Some("gpt-5.5"@)
    } else {
        None
    }
}

pub open spec fn views(models: Seq<ProviderModel>) -> Seq<ModelInfo> {
    models.map_values(|m: ProviderModel| m@)
}

/// The names accepted as built-in providers, in the order they are listed.
pub fn builtin_providers() -> (r: Vec<&'static str>)
    ensures
        r@.map_values(|s: &'static str| s@) == builtin_names(),
{
    let r = vec![
        "openai",
        "deepseek",
        "z",
        "zai",
        "kimi",
        "moonshot",
        "qwen",
        "dashscope",
        "mistral",
        "groq",
        "xai",
        "grok",
        "openrouter",
        "custom",
    ];
    assert(r@.map_values(|s: &'static str| s@) =~= builtin_names());
    r
}

/// The default upstream URL and API key variable of a normalized provider name.
pub fn provider_defaults(provider: &str) -> (r: Result<(&'static str, &'static str), PalError>)
    ensures
        match defaults_of(provider@) {
            Some((upstream, key_env)) => r matches Ok((u, k)) && u@ == upstream && k@ == key_env,
            None => r matches Err(PalError::UnknownProvider { provider: p }) && p@ == provider@,
        },
{
    if str_eq(provider, "openai") {
        Ok(("https://api.openai.com/v1", "OPENAI_API_KEY"))
    } else if str_eq(provider, "deepseek") {
        Ok(("https://api.deepseek.com/v1", "DEEPSEEK_API_KEY"))
    } else if str_eq(provider, "z") || str_eq(provider, "zai") {
        Ok(("https://api.z.ai/api/paas/v4", "ZAI_API_KEY"))
    } else if str_eq(provider, "kimi") || str_eq(provider, "moonshot") {
        Ok(("https://api.moonshot.cn/v1", "MOONSHOT_API_KEY"))
    } else if str_eq(provider, "qwen") || str_eq(provider, "dashscope") {
        Ok(("https://dashscope.aliyuncs.com/compatible-mode/v1", "DASHSCOPE_API_KEY"))
    } else if str_eq(provider, "mistral") {
        Ok(("https://api.mistral.ai/v1", "MISTRAL_API_KEY"))
    } else if str_eq(provider, "groq") {
        Ok(("https://api.groq.com/openai/v1", "GROQ_API_KEY"))
    } else if str_eq(provider, "xai") || str_eq(provider, "grok") {
        Ok(("https://api.x.ai/v1", "XAI_API_KEY"))
    } else if str_eq(provider, "openrouter") {
        Ok(("https://openrouter.ai/api/v1", "OPENROUTER_API_KEY"))
    } else if str_eq(provider, "custom") {
        Ok(("https://openrouter.ai/api/v1", "OPENAI_API_KEY"))
    } else {
        Err(PalError::UnknownProvider { provider: String::from_str(provider) })
    }
}

/// Whether `name`, trimmed and lower-cased, is a built-in provider.
pub fn is_builtin_provider(name: &str) -> (r: bool)
    ensures
        r == defaults_of(normalized(name@)) is Some,
{
    let normalized_name = normalize(name);
    provider_defaults(normalized_name.as_str()).is_ok()
}

fn deepseek() -> (r: Vec<ProviderModel>)
    ensures
        views(r@) == deepseek_models(),
{
    let r = vec![
        ProviderModel {
            slug: "deepseek-v4-pro",
            display_name: "DeepSeek-V4-Pro",
            description: "DeepSeek frontier model with thinking mode, 1M context, JSON output, and tool calls.",
            context_window: 1_000_000,
        },
        ProviderModel {
            slug: "deepseek-v4-flash",
            display_name: "DeepSeek-V4-Flash",
            description: "DeepSeek faster V4 model with thinking mode, 1M context, JSON output, and tool calls.",
            context_window: 1_000_000,
        },
    ];
    assert(views(r@) =~= deepseek_models());
    r
}

fn zai() -> (r: Vec<ProviderModel>)
    ensures
        views(r@) == zai_models(),
{
    let r = vec![
        ProviderModel {
            slug: "glm-5.2",
            display_name: "GLM-5.2",
            description: "Z.ai's flagship model for coding and long-horizon tasks with configurable reasoning effort.",
            context_window: 1_000_000,
        },
    ];
    assert(views(r@) =~= zai_models());
    r
}

fn kimi() -> (r: Vec<ProviderModel>)
    ensures
        views(r@) == kimi_models(),
{
    let r = vec![
        ProviderModel {
            slug: "kimi-k3",
            display_name: "Kimi K3",
            description: "Kimi's flagship model for long-horizon coding, knowledge work, and reasoning.",
            context_window: 1_000_000,
        },
        ProviderModel {
            slug: "kimi-k2.7-code",
            display_name: "Kimi K2.7 Code",
            description: "Kimi's strongest coding model for agentic coding workflows.",
            context_window: 256_000,
        },
        ProviderModel {
            slug: "kimi-k2.7-code-highspeed",
            display_name: "Kimi K2.7 Code Highspeed",
            description: "High-speed Kimi K2.7 Code variant with the same model parameters.",
            context_window: 256_000,
        },
        ProviderModel {
            slug: "kimi-k2.6",
            display_name: "Kimi K2.6",
            description: "Kimi general chat and multimodal model.",
            context_window: 256_000,
        },
    ];
    assert(views(r@) =~= kimi_models());
    r
}

fn qwen() -> (r: Vec<ProviderModel>)
    ensures
        views(r@) == qwen_models(),
{
    let r = vec![
        ProviderModel {
            slug: "qwen3.7-max",
            display_name: "Qwen3.7 Max",
            description: "DashScope's strongest Qwen text-generation model.",
            context_window: 1_000_000,
        },
        ProviderModel {
            slug: "qwen3.7-plus",
            display_name: "Qwen3.7 Plus",
            description: "DashScope high-capability Qwen text-generation model.",
            context_window: 1_000_000,
        },
        ProviderModel {
            slug: "qwen3.6-flash",
            display_name: "Qwen3.6 Flash",
            description: "DashScope low-latency Qwen text-generation model.",
            context_window: 1_000_000,
        },
    ];
    assert(views(r@) =~= qwen_models());
    r
}

fn mistral() -> (r: Vec<ProviderModel>)
    ensures
        views(r@) == mistral_models(),
{
    let r = vec![
        ProviderModel {
            slug: "mistral-medium-3-5+2",
            display_name: "Mistral Medium 3.5",
            description: "Mistral frontier multimodal model optimized for agentic and coding use cases.",
            context_window: 256_000,
        },
        ProviderModel {
            slug: "mistral-small-2603+1",
            display_name: "Mistral Small 4",
            description: "Mistral hybrid model unifying instruct, reasoning, and coding capabilities.",
            context_window: 256_000,
        },
        ProviderModel {
            slug: "devstral-2512",
            display_name: "Devstral 2",
            description: "Mistral code agents model for software engineering tasks.",
            context_window: 256_000,
        },
    ];
    assert(views(r@) =~= mistral_models());
    r
}

fn groq() -> (r: Vec<ProviderModel>)
    ensures
        views(r@) == groq_models(),
{
    let r = vec![
        ProviderModel {
            slug: "openai/gpt-oss-120b",
            display_name: "GPT OSS 120B",
            description: "OpenAI's flagship open-weight model hosted by Groq.",
            context_window: 131_072,
        },
        ProviderModel {
            slug: "groq/compound",
            display_name: "Groq Compound",
            description: "Groq agentic system that can use built-in tools such as web search and code execution.",
            context_window: 131_072,
        },
        ProviderModel {
            slug: "llama-3.3-70b-versatile",
            display_name: "Llama 3.3 70B Versatile",
            description: "Groq production Llama 3.3 70B model.",
            context_window: 131_072,
        },
        ProviderModel {
            slug: "qwen/qwen3.6-27b",
            display_name: "Qwen3.6 27B",
            description: "Qwen3.6 preview model hosted by Groq.",
            context_window: 131_072,
        },
    ];
    assert(views(r@) =~= groq_models());
    r
}

fn xai() -> (r: Vec<ProviderModel>)
    ensures
        views(r@) == xai_models(),
{
    let r = vec![
        ProviderModel {
            slug: "grok-4.3",
            display_name: "Grok 4.3",
            description: "xAI's recommended general-purpose model with agentic tool calling.",
            context_window: 1_000_000,
        },
        ProviderModel {
            slug: "grok-build-0.1",
            display_name: "Grok Build 0.1",
            description: "xAI coding model trained for agentic coding workflows.",
            context_window: 256_000,
        },
    ];
    assert(views(r@) =~= xai_models());
    r
}

fn openrouter() -> (r: Vec<ProviderModel>)
    ensures
        views(r@) == openrouter_models(),
{
    let r = vec![
        ProviderModel {
            slug: "openrouter/auto",
            display_name: "OpenRouter Auto",
            description: "OpenRouter router that automatically selects a suitable model for each prompt.",
            context_window: 128_000,
        },
    ];
    assert(views(r@) =~= openrouter_models());
    r
}

/// The model catalog of a provider, named as the user typed it.
pub fn provider_models(provider: &str) -> (r: Vec<ProviderModel>)
    ensures
        views(r@) == models_of(normalized(provider@)),
{
    let n = normalize(provider);
    let p = n.as_str();
    if str_eq(p, "deepseek") {
        deepseek()
    } else if str_eq(p, "z") || str_eq(p, "zai") {
        zai()
    } else if str_eq(p, "kimi") || str_eq(p, "moonshot") {
        kimi()
    } else if str_eq(p, "qwen") || str_eq(p, "dashscope") {
        qwen()
    } else if str_eq(p, "mistral") {
        mistral()
    } else if str_eq(p, "groq") {
        groq()
    } else if str_eq(p, "xai") || str_eq(p, "grok") {
        xai()
    } else if str_eq(p, "openrouter") {
        openrouter()
    } else {
        let r: Vec<ProviderModel> = Vec::new();
        assert(views(r@) =~= Seq::<ModelInfo>::empty());
        r
    }
}

/// The model used when none is chosen: the first of the provider's catalog,
/// or `gpt-5.5` for `openai`.
pub fn default_model(provider: &str) -> (r: Option<&'static str>)
    ensures
        match default_model_of(provider@) {
            Some(m) => r matches Some(s) && s@ == m,
            None => r is None,
        },
{
    let models = provider_models(provider);
    if models.len() > 0 {
        assert(views(models@)[0] == models@[0]@);
        Some(models[0].slug)
    } else {
        let n = normalize(provider);
        if str_eq(n.as_str(), "openai") {
            Some("gpt-5.5")
        } else {
            None
        }
    }
}

/// The settings that a resolved profile takes from its arguments.
pub open spec fn resolved_from(r: ProviderProfile, args: ProviderArgs) -> bool {
    let name = normalized(args.provider@);
    &&& defaults_of(name) is Some
    &&& r.name@ == name
    &&& r.upstream@ == match args.upstream {
        Some(u) => u@,
        None => defaults_of(name).unwrap().0,
    }
    &&& r.api_key_env@ == match args.api_key_env {
        Some(k) => k@,
        None => defaults_of(name).unwrap().1,
    }
    &&& r.api_key == args.api_key
}

impl ProviderProfile {
    /// Resolves provider arguments against the built-in defaults.
    pub fn resolve(args: &ProviderArgs) -> (r: Result<ProviderProfile, PalError>)
        ensures
            match r {
                Ok(p) => resolved_from(p, *args),
                Err(e) => defaults_of(normalized(args.provider@)) is None && (e matches PalError::UnknownProvider { provider } && provider@ == normalized(args.provider@)),
            },
            defaults_of(normalized(args.provider@)) is Some <==> r is Ok,
    {
        let provider = normalize(args.provider.as_str());
        let (default_upstream, default_key_env) = match provider_defaults(provider.as_str()) {
            Ok(d) => d,
            Err(e) => return Err(e),
        };
        let upstream = match &args.upstream {
            Some(u) => u.clone(),
            None => String::from_str(default_upstream),
        };
        let api_key_env = match &args.api_key_env {
            Some(k) => k.clone(),
            None => String::from_str(default_key_env),
        };
        Ok(ProviderProfile { name: provider, upstream, api_key_env, api_key: args.api_key.clone() })
    }

    /// Whether Codex reaches this provider through a relay: every provider but `openai`.
    pub fn needs_relay(&self) -> (r: bool)
        ensures
            r == (self.name@ != "openai"@),
    {
        !str_eq(self.name.as_str(), "openai")
    }

    /// The API key to hand on: the profile's own, else `env_value`, the value of
    /// its API key variable in the environment.
    pub fn api_key_value(&self, env_value: Option<String>) -> (r: Option<String>)
        ensures
            r == match self.api_key {
                Some(k) => Some(k),
                None => env_value,
            },
    {
        match &self.api_key {
            Some(k) => Some(k.clone()),
            None => env_value,
        }
    }

    /// A copy of the profile.
    pub fn duplicate(&self) -> (r: ProviderProfile)
        ensures
            r.name@ == self.name@,
            r.upstream@ == self.upstream@,
            r.api_key_env@ == self.api_key_env@,
            r.api_key == self.api_key,
    {
        ProviderProfile {
            name: self.name.clone(),
            upstream: self.upstream.clone(),
            api_key_env: self.api_key_env.clone(),
            api_key: self.api_key.clone(),
        }
    }
}

/// A word of lower-case ASCII letters is its own normalized form.
proof fn lemma_lowercase_word(s: Seq<char>)
    requires
        s.len() > 0,
        forall|i: int| 0 <= i < s.len() ==> 'a' <= #[trigger] s[i] <= 'z',
    ensures
        normalized(s) == s,
{
    assert('a' <= s[0] <= 'z');
    assert('a' <= s.last() <= 'z');
    assert(crate::text::trim_start(s) == s);
    assert(crate::text::trim_end(s) == s);
    assert(crate::text::ascii_lower(s) =~= s);
}

/// Every listed provider name is accepted as it is written, and each of them but
/// `custom` has a default model.
pub proof fn lemma_builtin_providers_usable(i: int)
    requires
        0 <= i < builtin_names().len(),
    ensures
        defaults_of(normalized(builtin_names()[i])) is Some,
        builtin_names()[i] != "custom"@ ==> default_model_of(builtin_names()[i]) is Some,
{
    reveal_strlit("openai");
    reveal_strlit("deepseek");
    reveal_strlit("z");
    reveal_strlit("zai");
    reveal_strlit("kimi");
    reveal_strlit("moonshot");
    reveal_strlit("qwen");
    reveal_strlit("dashscope");
    reveal_strlit("mistral");
    reveal_strlit("groq");
    reveal_strlit("xai");
    reveal_strlit("grok");
    reveal_strlit("openrouter");
    reveal_strlit("custom");
    let n = builtin_names()[i];
    lemma_lowercase_word(n);
}

/// The provider an alias stands for: `z` for `zai`, `kimi` for `moonshot`, `qwen`
/// for `dashscope`, `grok` for `xai`; any other name stands for itself.
pub open spec fn aliased_provider(n: Seq<char>) -> Seq<char> {
    if n == "z"@ {
        "zai"@
    } else if n == "kimi"@ {
        "moonshot"@
    } else if n == "qwen"@ {
        "dashscope"@
    } else if n == "grok"@ {
        "xai"@
    } else {
        n
    }
}

/// The provider names that come with a model catalog.
pub open spec fn catalog_names() -> Seq<Seq<char>> {
    seq![
        "deepseek"@,
        "z"@,
        "zai"@,
        "kimi"@,
        "moonshot"@,
        "qwen"@,
        "dashscope"@,
        "mistral"@,
        "groq"@,
        "xai"@,
        "grok"@,
        "openrouter"@,
    ]
}

/// No two models of a catalog share a slug.
pub open spec fn distinct_slugs(models: Seq<ModelInfo>) -> bool {
    forall|i: int, j: int| 0 <= i < j < models.len() ==> #[trigger] models[i].0 != #[trigger] models[j].0
}

/// Slugs of different lengths differ.
proof fn lemma_distinct_by_length(m: Seq<ModelInfo>)
    requires
        forall|i: int, j: int| 0 <= i < j < m.len() ==> #[trigger] m[i].0.len() != #[trigger] m[j].0.len(),
    ensures
        distinct_slugs(m),
{
    assert forall|i: int, j: int| 0 <= i < j < m.len() implies #[trigger] m[i].0 != #[trigger] m[j].0 by {
        assert(m[i].0.len() != m[j].0.len());
    }
}

proof fn lemma_catalogs_distinct()
    ensures
        distinct_slugs(deepseek_models()),
        distinct_slugs(zai_models()),
        distinct_slugs(kimi_models()),
        distinct_slugs(qwen_models()),
        distinct_slugs(mistral_models()),
        distinct_slugs(groq_models()),
        distinct_slugs(xai_models()),
        distinct_slugs(openrouter_models()),
{
    reveal_strlit("deepseek-v4-pro");
    reveal_strlit("deepseek-v4-flash");
    reveal_strlit("kimi-k3");
    reveal_strlit("kimi-k2.7-code");
    reveal_strlit("kimi-k2.7-code-highspeed");
    reveal_strlit("kimi-k2.6");
    reveal_strlit("qwen3.7-max");
    reveal_strlit("qwen3.7-plus");
    reveal_strlit("qwen3.6-flash");
    reveal_strlit("mistral-medium-3-5+2");
    reveal_strlit("mistral-small-2603+1");
    reveal_strlit("devstral-2512");
    reveal_strlit("openai/gpt-oss-120b");
    reveal_strlit("groq/compound");
    reveal_strlit("llama-3.3-70b-versatile");
    reveal_strlit("qwen/qwen3.6-27b");
    reveal_strlit("grok-4.3");
    reveal_strlit("grok-build-0.1");
    let d = deepseek_models();
    assert(d.len() == 2 && d[0].0.len() == 15 && d[1].0.len() == 17);
    lemma_distinct_by_length(d);
    let k = kimi_models();
    assert(k.len() == 4 && k[0].0.len() == 7 && k[1].0.len() == 14 && k[2].0.len() == 24
        && k[3].0.len() == 9);
    lemma_distinct_by_length(k);
    let q = qwen_models();
    assert(q.len() == 3 && q[0].0.len() == 11 && q[1].0.len() == 12 && q[2].0.len() == 13);
    lemma_distinct_by_length(q);
    let g = groq_models();
    assert(g.len() == 4 && g[0].0.len() == 19 && g[1].0.len() == 13 && g[2].0.len() == 23
        && g[3].0.len() == 16);
    lemma_distinct_by_length(g);
    let x = xai_models();
    assert(x.len() == 2 && x[0].0.len() == 8 && x[1].0.len() == 14);
    lemma_distinct_by_length(x);
    let m = mistral_models();
    assert(m.len() == 3 && m[0].0.len() == 20 && m[1].0.len() == 20 && m[2].0.len() == 13);
    assert(m[0].0[8] != m[1].0[8]);
    assert forall|i: int, j: int| 0 <= i < j < m.len() implies #[trigger] m[i].0 != #[trigger] m[j].0 by {
        if i == 0 && j == 1 {
            assert(m[i].0[8] != m[j].0[8]);
        }
    }
}

/// Provider names are read in normalized form, so a name and its normalized form
/// have the same catalog and defaults; an alias has the catalog and defaults of
/// the provider it stands for; exactly the names of `catalog_names` have a
/// non-empty catalog; and no catalog lists a slug twice.
pub proof fn lemma_provider_names(p: Seq<char>)
    ensures
        normalized(normalized(p)) == normalized(p),
        models_of(normalized(normalized(p))) == models_of(normalized(p)),
        models_of(normalized(p)) == models_of(aliased_provider(normalized(p))),
        defaults_of(normalized(p)) == defaults_of(aliased_provider(normalized(p))),
        models_of(normalized(p)).len() > 0 <==> catalog_names().contains(normalized(p)),
        distinct_slugs(models_of(normalized(p))),
{
    crate::text::lemma_normalized_idempotent(p);
    lemma_catalogs_distinct();
    let n = normalized(p);
    reveal_strlit("deepseek");
    reveal_strlit("z");
    reveal_strlit("zai");
    reveal_strlit("kimi");
    reveal_strlit("moonshot");
    reveal_strlit("qwen");
    reveal_strlit("dashscope");
    reveal_strlit("mistral");
    reveal_strlit("groq");
    reveal_strlit("xai");
    reveal_strlit("grok");
    reveal_strlit("openrouter");
    reveal_strlit("openai");
    reveal_strlit("custom");
    let c = catalog_names();
    assert("z"@.len() == 1 && "zai"@.len() == 3 && "xai"@.len() == 3);
    assert("kimi"@.len() == 4 && "qwen"@.len() == 4 && "grok"@.len() == 4 && "groq"@.len() == 4);
    assert("openai"@.len() == 6 && "custom"@.len() == 6);
    assert("deepseek"@.len() == 8 && "moonshot"@.len() == 8);
    assert("dashscope"@.len() == 9 && "mistral"@.len() == 7 && "openrouter"@.len() == 10);
    assert("zai"@[0] != "xai"@[0]);
    assert("kimi"@[0] != "qwen"@[0] && "kimi"@[0] != "grok"@[0] && "kimi"@[0] != "groq"@[0]);
    assert("qwen"@[0] != "grok"@[0] && "qwen"@[0] != "groq"@[0] && "grok"@[3] != "groq"@[3]);
    assert("openai"@[0] != "custom"@[0] && "deepseek"@[0] != "moonshot"@[0]);
    if n == "z"@ {
        assert(aliased_provider(n) == "zai"@);
    } else if n == "kimi"@ {
        assert(aliased_provider(n) == "moonshot"@);
    } else if n == "qwen"@ {
        assert(aliased_provider(n) == "dashscope"@);
    } else if n == "grok"@ {
        assert(aliased_provider(n) == "xai"@);
    } else {
        assert(aliased_provider(n) == n);
    }
    if models_of(n).len() > 0 {
        if n == "deepseek"@ {
            assert(c[0] == n);
        } else if n == "z"@ {
            assert(c[1] == n);
        } else if n == "zai"@ {
            assert(c[2] == n);
        } else if n == "kimi"@ {
            assert(c[3] == n);
        } else if n == "moonshot"@ {
            assert(c[4] == n);
        } else if n == "qwen"@ {
            assert(c[5] == n);
        } else if n == "dashscope"@ {
            assert(c[6] == n);
        } else if n == "mistral"@ {
            assert(c[7] == n);
        } else if n == "groq"@ {
            assert(c[8] == n);
        } else if n == "xai"@ {
            assert(c[9] == n);
        } else if n == "grok"@ {
            assert(c[10] == n);
        } else {
            assert(c[11] == n);
        }
    }
    if c.contains(n) {
        let i = choose|i: int| 0 <= i < c.len() && c[i] == n;
        assert(models_of(c[i]).len() > 0);
    }
}

/// A resolved provider keeps what its arguments set, whatever the provider: the
/// given upstream, API key variable and API key are the ones used; only where
/// none is given does the provider's default stand. Its name is the normalized
/// name given, and it is a built-in provider.
pub proof fn lemma_resolve_keeps_overrides(r: ProviderProfile, args: ProviderArgs)
    requires
        resolved_from(r, args),
    ensures
        r.name@ == normalized(args.provider@),
        defaults_of(r.name@) is Some,
        args.upstream matches Some(u) ==> r.upstream@ == u@,
        args.upstream is None ==> r.upstream@ == defaults_of(r.name@).unwrap().0,
        args.api_key_env matches Some(k) ==> r.api_key_env@ == k@,
        args.api_key_env is None ==> r.api_key_env@ == defaults_of(r.name@).unwrap().1,
        r.api_key == args.api_key,
{
}

} // verus!
