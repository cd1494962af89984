//! The Codex invocation: approval and sandbox settings, the `-c` overrides that
//! point Codex at a relay, and the model catalog entries given to it.
use vstd::prelude::*;

use crate::error::PalError;
use crate::config::opt_text;
use crate::provider::{ProviderModel, ProviderProfile, ModelInfo, models_of, provider_models, views};
use crate::text::{decimal, normalized, push_decimal, push_str, replace_all, replace_str, str_eq};
use crate::toml_value::{json_string, json_string_array};

verus! {

/// When Codex asks before running a command.
#[derive(Debug, Clone, Copy, PartialEq, Eq, Structural)]
pub enum ApprovalPolicy {
    Never,
    OnRequest,
    OnFailure,
    Untrusted,
}

/// How far Codex's sandbox confines commands.
#[derive(Debug, Clone, Copy, PartialEq, Eq, Structural)]
pub enum SandboxMode {
    ReadOnly,
    WorkspaceWrite,
    DangerFullAccess,
}

pub open spec fn approval_text(p: ApprovalPolicy) -> Seq<char> {
    match p {
        ApprovalPolicy::Never => "never"@,
        ApprovalPolicy::OnRequest => "on-request"@,
        ApprovalPolicy::OnFailure => "on-failure"@,
        ApprovalPolicy::Untrusted => "untrusted"@,
    }
}

/// The approval policy written as `s`, if any.
pub open spec fn approval_named(s: Seq<char>) -> Option<ApprovalPolicy> {
    if s == "never"@ {
        Some(ApprovalPolicy::Never)
    } else if s == "on-request"@ {
        Some(ApprovalPolicy::OnRequest)
    } else if s == "on-failure"@ {
        Some(ApprovalPolicy::OnFailure)
    } else if s == "untrusted"@ {
        Some(ApprovalPolicy::Untrusted)
    } else {
        None
    }
}

pub open spec fn sandbox_text(m: SandboxMode) -> Seq<char> {
    match m {
        SandboxMode::ReadOnly => "read-only"@,
        SandboxMode::WorkspaceWrite => "workspace-write"@,
        SandboxMode::DangerFullAccess => "danger-full-access"@,
    }
}

/// The sandbox mode written as `s`, if any.
pub open spec fn sandbox_named(s: Seq<char>) -> Option<SandboxMode> {
    if s == "read-only"@ {
        Some(SandboxMode::ReadOnly)
    } else if s == "workspace-write"@ {
        Some(SandboxMode::WorkspaceWrite)
    } else if s == "danger-full-access"@ {
        Some(SandboxMode::DangerFullAccess)
    } else {
        None
    }
}

impl ApprovalPolicy {
    /// The value of Codex's `approval_policy` setting.
    pub fn as_config_value(self) -> (r: &'static str)
        ensures
            r@ == approval_text(self),
    {
        match self {
            ApprovalPolicy::Never => "never",
            ApprovalPolicy::OnRequest => "on-request",
            ApprovalPolicy::OnFailure => "on-failure",
            ApprovalPolicy::Untrusted => "untrusted",
        }
    }

    /// Reads a policy from its setting value.
    pub fn parse(value: &str) -> (r: Result<ApprovalPolicy, PalError>)
        ensures
            match approval_named(value@) {
                Some(p) => r == Ok::<ApprovalPolicy, PalError>(p),
                None => r matches Err(PalError::UnknownApprovalPolicy { value: v }) && v@ == value@,
            },
    {
        if str_eq(value, "never") {
            Ok(ApprovalPolicy::Never)
        } else if str_eq(value, "on-request") {
            Ok(ApprovalPolicy::OnRequest)
        } else if str_eq(value, "on-failure") {
            Ok(ApprovalPolicy::OnFailure)
        } else if str_eq(value, "untrusted") {
            Ok(ApprovalPolicy::Untrusted)
        } else {
            Err(PalError::UnknownApprovalPolicy { value: String::from_str(value) })
        }
    }
}

impl SandboxMode {
    /// The value of Codex's `-s` flag.
    pub fn as_cli_value(self) -> (r: &'static str)
        ensures
            r@ == sandbox_text(self),
    {
        match self {
            SandboxMode::ReadOnly => "read-only",
            SandboxMode::WorkspaceWrite => "workspace-write",
            SandboxMode::DangerFullAccess => "danger-full-access",
        }
    }

    /// Whether the mode turns off both the sandbox and approvals.
    pub fn bypasses_sandbox(self) -> (r: bool)
        ensures
            r == (self == SandboxMode::DangerFullAccess),
    {
        self == SandboxMode::DangerFullAccess
    }

    /// Reads a mode from its flag value.
    pub fn parse(value: &str) -> (r: Result<SandboxMode, PalError>)
        ensures
            match sandbox_named(value@) {
                Some(m) => r == Ok::<SandboxMode, PalError>(m),
                None => r matches Err(PalError::UnknownSandboxMode { value: v }) && v@ == value@,
            },
    {
        if str_eq(value, "read-only") {
            Ok(SandboxMode::ReadOnly)
        } else if str_eq(value, "workspace-write") {
            Ok(SandboxMode::WorkspaceWrite)
        } else if str_eq(value, "danger-full-access") {
            Ok(SandboxMode::DangerFullAccess)
        } else {
            Err(PalError::UnknownSandboxMode { value: String::from_str(value) })
        }
    }
}

impl std::str::FromStr for ApprovalPolicy {
    type Err = PalError;

    fn from_str(value: &str) -> (r: Result<ApprovalPolicy, PalError>)
        ensures
            match approval_named(value@) {
                Some(p) => r == Ok::<ApprovalPolicy, PalError>(p),
                None => r matches Err(PalError::UnknownApprovalPolicy { value: v }) && v@ == value@,
            },
    {
        ApprovalPolicy::parse(value)
    }
}

impl std::str::FromStr for SandboxMode {
    type Err = PalError;

    fn from_str(value: &str) -> (r: Result<SandboxMode, PalError>)
        ensures
            match sandbox_named(value@) {
                Some(m) => r == Ok::<SandboxMode, PalError>(m),
                None => r matches Err(PalError::UnknownSandboxMode { value: v }) && v@ == value@,
            },
    {
        SandboxMode::parse(value)
    }
}

/// Reading back the value that a policy is written as gives the policy.
pub proof fn lemma_approval_round_trip(p: ApprovalPolicy)
    ensures
        approval_named(approval_text(p)) == Some(p),
{
    reveal_strlit("never");
    reveal_strlit("on-request");
    reveal_strlit("on-failure");
    reveal_strlit("untrusted");
    assert("never"@.len() == 5);
    assert("on-request"@[3] == 'r');
    assert("on-failure"@[3] == 'f');
    assert("untrusted"@.len() == 9);
}

/// Reading back the value that a sandbox mode is written as gives the mode.
pub proof fn lemma_sandbox_round_trip(m: SandboxMode)
    ensures
        sandbox_named(sandbox_text(m)) == Some(m),
{
    reveal_strlit("read-only");
    reveal_strlit("workspace-write");
    reveal_strlit("danger-full-access");
    assert("read-only"@.len() == 9);
    assert("workspace-write"@.len() == 15);
    assert("danger-full-access"@.len() == 18);
}

/// Everything that decides how Codex is launched.
#[derive(Debug, Clone)]
pub struct CodexLaunch {
    pub codex_bin: String,
    pub provider: ProviderProfile,
    pub port: u16,
    /// The `/v1` base URL of a remote relay; without one, the local relay on `port`.
    pub relay_url: Option<String>,
    pub model: Option<String>,
    pub model_catalog_json: Option<String>,
    pub approval: ApprovalPolicy,
    pub sandbox: SandboxMode,
    pub context_window: u32,
    pub extra_args: Vec<String>,
}

/// The program arguments and extra environment of a Codex run.
#[derive(Debug, Clone, PartialEq, Eq)]
pub struct CodexCommand {
    pub argv: Vec<String>,
    pub env: Vec<(String, String)>,
}

pub open spec fn texts(v: Seq<String>) -> Seq<Seq<char>> {
    v.map_values(|s: String| s@)
}

pub open spec fn pair_texts(v: Seq<(String, String)>) -> Seq<(Seq<char>, Seq<char>)> {
    v.map_values(|p: (String, String)| (p.0@, p.1@))
}

/// `-c key=value`.
pub open spec fn config_arg(key: Seq<char>, value: Seq<char>) -> Seq<Seq<char>> {
    seq!["-c"@, key + "="@ + value]
}

/// The key of a per-model property: `model_properties.<quoted model>.<name>`,
/// built as `str::replace` of `{}` in `model_properties.<quoted model>.{}`.
pub open spec fn property_key(model: Seq<char>, name: Seq<char>) -> Seq<char> {
    replace_all("model_properties."@ + json_string(model) + ".{}"@, "{}"@, name)
}

/// The per-model properties that fix context window and capabilities.
pub open spec fn model_property_args(model: Seq<char>, context_window: u32) -> Seq<Seq<char>> {
    config_arg(property_key(model, "context_window"@), decimal(context_window as nat))
        + config_arg(property_key(model, "max_context_window"@), decimal(context_window as nat))
        + config_arg(property_key(model, "supports_parallel_tool_calls"@), "true"@)
        + config_arg(property_key(model, "supports_reasoning_summaries"@), "false"@)
        + config_arg(property_key(model, "input_modalities"@), json_string_array(seq!["text"@]))
}

/// The `/v1` base URL of the local relay on `port`.
pub open spec fn local_relay_url(port: u16) -> Seq<char> {
    "http://127.0.0.1:"@ + decimal(port as nat) + "/v1"@
}

/// The base URL that Codex is pointed at: the remote relay's, else the local
/// relay's on `port`.
pub open spec fn relay_url_of(port: u16, remote: Option<Seq<char>>) -> Seq<char> {
    match remote {
        Some(u) => u,
        None => local_relay_url(port),
    }
}

/// The overrides that make Codex talk to the relay at `base_url`.
pub open spec fn relay_config_args(
    provider_name: Seq<char>,
    base_url: Seq<char>,
    api_key_env: Seq<char>,
    catalog: Option<Seq<char>>,
) -> Seq<Seq<char>> {
    config_arg("model_provider"@, json_string("codex-pal"@))
        + config_arg(
        "model_providers.codex-pal.name"@,
        json_string("codex-pal ("@ + provider_name + ")"@),
    ) + config_arg(
        "model_providers.codex-pal.base_url"@,
        json_string(base_url),
    ) + config_arg("model_providers.codex-pal.wire_api"@, json_string("responses"@))
        + config_arg("model_providers.codex-pal.env_key"@, json_string(api_key_env))
        + match catalog {
        Some(path) => config_arg("model_catalog_json"@, json_string(path)),
        None => Seq::empty(),
    }
}

/// The sandbox and approval arguments.
pub open spec fn sandbox_args(approval: ApprovalPolicy, sandbox: SandboxMode) -> Seq<Seq<char>> {
    if sandbox == SandboxMode::DangerFullAccess {
        seq!["--dangerously-bypass-approvals-and-sandbox"@]
    } else {
        config_arg("approval_policy"@, json_string(approval_text(approval))) + seq![
            "-s"@,
            sandbox_text(sandbox),
        ]
    }
}

/// The full argument vector of a launch.
pub open spec fn codex_argv(launch: CodexLaunch) -> Seq<Seq<char>> {
    seq![launch.codex_bin@] + (if launch.provider.name@ != "openai"@ {
        relay_config_args(
            launch.provider.name@,
            relay_url_of(launch.port, opt_text(launch.relay_url)),
            launch.provider.api_key_env@,
            match launch.model_catalog_json {
                Some(p) => Some(p@),
                None => None,
            },
        )
    } else {
        Seq::empty()
    }) + match launch.model {
        Some(m) => seq!["-m"@, m@] + model_property_args(m@, launch.context_window),
        None => Seq::empty(),
    } + sandbox_args(launch.approval, launch.sandbox) + texts(launch.extra_args@)
}

/// The API key handed to the relay: the explicit one, else the environment's.
pub open spec fn key_value(api_key: Option<String>, env_api_key: Option<String>) -> Seq<char> {
    match api_key {
        Some(k) => k@,
        None => match env_api_key {
            Some(k) => k@,
            None => Seq::empty(),
        },
    }
}

/// The environment of a launch: the API key under its own variable and under
/// `OPENAI_API_KEY`, for relay-backed providers with a non-empty key.
pub open spec fn codex_env(launch: CodexLaunch, env_api_key: Option<String>) -> Seq<
    (Seq<char>, Seq<char>),
> {
    let key = key_value(launch.provider.api_key, env_api_key);
    if launch.provider.name@ != "openai"@ && key.len() > 0 {
        seq![(launch.provider.api_key_env@, key), ("OPENAI_API_KEY"@, key)]
    } else {
        Seq::empty()
    }
}

/// Appends `-c key=value`.
pub fn push_config(argv: &mut Vec<String>, key: &str, value: &str)
    ensures
        texts(final(argv)@) == texts(old(argv)@) + config_arg(key@, value@),
{
    argv.push(String::from_str("-c"));
    let mut setting = String::from_str(key);
    push_str(&mut setting, "=");
    push_str(&mut setting, value);
    argv.push(setting);
    assert(texts(argv@) =~= texts(old(argv)@) + config_arg(key@, value@));
}

/// Appends one argument.
fn push_arg(argv: &mut Vec<String>, arg: String)
    ensures
        texts(final(argv)@) == texts(old(argv)@).push(arg@),
{
    argv.push(arg);
    assert(texts(argv@) =~= texts(old(argv)@).push(arg@));
}

/// The JSON string literal of a model name, used as a TOML key.
pub fn quoted_key(value: &str) -> (r: String)
    ensures
        r@ == json_string(value@),
{
    crate::toml_value::string(value)
}

/// Appends the per-model properties of `model`.
pub fn push_model_properties(argv: &mut Vec<String>, model: &str, context_window: u32)
    ensures
        texts(final(argv)@) == texts(old(argv)@) + model_property_args(model@, context_window),
{
    let mut key_prefix = String::from_str("model_properties.");
    let quoted = quoted_key(model);
    push_str(&mut key_prefix, quoted.as_str());
    push_str(&mut key_prefix, ".{}");
    proof {
        reveal_strlit("{}");
    }
    let window = crate::text::decimal_string(context_window as u64);
    let ghost a0 = texts(argv@);
    let k1 = replace_str(key_prefix.as_str(), "{}", "context_window");
    push_config(argv, k1.as_str(), window.as_str());
    let k2 = replace_str(key_prefix.as_str(), "{}", "max_context_window");
    push_config(argv, k2.as_str(), window.as_str());
    let k3 = replace_str(key_prefix.as_str(), "{}", "supports_parallel_tool_calls");
    push_config(argv, k3.as_str(), "true");
    let k4 = replace_str(key_prefix.as_str(), "{}", "supports_reasoning_summaries");
    push_config(argv, k4.as_str(), "false");
    let k5 = replace_str(key_prefix.as_str(), "{}", "input_modalities");
    let text_only = vec!["text"];
    let modalities = crate::toml_value::string_array(text_only.as_slice());
    assert(text_only@.map_values(|s: &str| s@) =~= seq!["text"@]);
    push_config(argv, k5.as_str(), modalities.as_str());
    assert(texts(argv@) =~= a0 + model_property_args(model@, context_window));
}

/// Appends the overrides that point Codex at the relay.
/// The `/v1` base URL of the local relay on `port`.
pub fn local_relay_base_url(port: u16) -> (r: String)
    ensures
        r@ == local_relay_url(port),
{
    let mut r = String::from_str("http://127.0.0.1:");
    push_decimal(&mut r, port as u64);
    push_str(&mut r, "/v1");
    r
}

fn push_relay_config(
    argv: &mut Vec<String>,
    provider: &ProviderProfile,
    base_url: &str,
    catalog: &Option<String>,
)
    ensures
        texts(final(argv)@) == texts(old(argv)@) + relay_config_args(
            provider.name@,
            base_url@,
            provider.api_key_env@,
            match *catalog {
                Some(p) => Some(p@),
                None => None,
            },
        ),
{
    let ghost a0 = texts(argv@);
    let p1 = crate::toml_value::string("codex-pal");
    push_config(argv, "model_provider", p1.as_str());
    let mut display = String::from_str("codex-pal (");
    push_str(&mut display, provider.name.as_str());
    push_str(&mut display, ")");
    let p2 = crate::toml_value::string(display.as_str());
    push_config(argv, "model_providers.codex-pal.name", p2.as_str());
    let p3 = crate::toml_value::string(base_url);
    push_config(argv, "model_providers.codex-pal.base_url", p3.as_str());
    let p4 = crate::toml_value::string("responses");
    push_config(argv, "model_providers.codex-pal.wire_api", p4.as_str());
    let p5 = crate::toml_value::string(provider.api_key_env.as_str());
    push_config(argv, "model_providers.codex-pal.env_key", p5.as_str());
    let ghost a5 = texts(argv@);
    if let Some(path) = catalog {
        let p6 = crate::toml_value::string(path.as_str());
        push_config(argv, "model_catalog_json", p6.as_str());
    }
    assert(texts(argv@) =~= a0 + relay_config_args(
        provider.name@,
        base_url@,
        provider.api_key_env@,
        match *catalog {
            Some(p) => Some(p@),
            None => None,
        },
    ));
}

/// Appends the sandbox and approval arguments.
fn push_sandbox_args(argv: &mut Vec<String>, approval: ApprovalPolicy, sandbox: SandboxMode)
    ensures
        texts(final(argv)@) == texts(old(argv)@) + sandbox_args(approval, sandbox),
{
    let ghost a0 = texts(argv@);
    if sandbox.bypasses_sandbox() {
        push_arg(argv, String::from_str("--dangerously-bypass-approvals-and-sandbox"));
    } else {
        let policy = crate::toml_value::string(approval.as_config_value());
        push_config(argv, "approval_policy", policy.as_str());
        push_arg(argv, String::from_str("-s"));
        push_arg(argv, String::from_str(sandbox.as_cli_value()));
    }
    assert(texts(argv@) =~= a0 + sandbox_args(approval, sandbox));
}

/// Appends copies of `args`.
fn push_args(argv: &mut Vec<String>, args: &Vec<String>)
    ensures
        texts(final(argv)@) == texts(old(argv)@) + texts(args@),
{
    let ghost a0 = texts(argv@);
    let mut i: usize = 0;
    while i < args.len()
        invariant
            i <= args@.len(),
            texts(argv@) == a0 + texts(args@.subrange(0, i as int)),
        decreases args.len() - i,
    {
        push_arg(argv, args[i].clone());
        assert(texts(args@.subrange(0, i + 1)) =~= texts(args@.subrange(0, i as int)).push(
            args@[i as int]@,
        ));
        i = i + 1;
    }
    assert(args@.subrange(0, i as int) == args@);
}

/// The environment that hands the API key to Codex.
fn key_env(provider: &ProviderProfile, env_api_key: Option<String>) -> (r: Vec<(String, String)>)
    ensures
        pair_texts(r@) == (if provider.name@ != "openai"@ && key_value(
            provider.api_key,
            env_api_key,
        ).len() > 0 {
            seq![
                (provider.api_key_env@, key_value(provider.api_key, env_api_key)),
                ("OPENAI_API_KEY"@, key_value(provider.api_key, env_api_key)),
            ]
        } else {
            Seq::empty()
        }),
{
    let mut env: Vec<(String, String)> = Vec::new();
    if provider.needs_relay() {
        let key: String = match provider.api_key_value(env_api_key) {
            Some(k) => k,
            None => String::new(),
        };
        if key.as_str().unicode_len() > 0 {
            env.push((provider.api_key_env.clone(), key.clone()));
            env.push((String::from_str("OPENAI_API_KEY"), key));
        }
    }
    assert(pair_texts(env@) =~= (if provider.name@ != "openai"@ && key_value(
        provider.api_key,
        env_api_key,
    ).len() > 0 {
        seq![
            (provider.api_key_env@, key_value(provider.api_key, env_api_key)),
            ("OPENAI_API_KEY"@, key_value(provider.api_key, env_api_key)),
        ]
    } else {
        Seq::empty()
    }));
    env
}

/// Builds the Codex command of a launch. `codex_found` says whether the Codex
/// executable was found on the search path, and `env_api_key` is the value of the
/// provider's API key variable in the environment, used when the profile carries
/// no key of its own.
pub fn build_codex_command(
    launch: &CodexLaunch,
    codex_found: bool,
    env_api_key: Option<String>,
) -> (r: Result<CodexCommand, PalError>)
    ensures
        !codex_found ==> (r matches Err(PalError::CodexNotFound { codex_bin }) && codex_bin@
            == launch.codex_bin@),
        codex_found ==> (r matches Ok(c) && texts(c.argv@) == codex_argv(*launch) && pair_texts(
            c.env@,
        ) == codex_env(*launch, env_api_key)),
{
    if !codex_found {
        return Err(PalError::CodexNotFound { codex_bin: launch.codex_bin.clone() });
    }
    let mut argv: Vec<String> = Vec::new();
    push_arg(&mut argv, launch.codex_bin.clone());
    let env = key_env(&launch.provider, env_api_key);
    let ghost a1 = texts(argv@);
    if launch.provider.needs_relay() {
        let base_url = match &launch.relay_url {
            Some(u) => u.clone(),
            None => local_relay_base_url(launch.port),
        };
        push_relay_config(&mut argv, &launch.provider, base_url.as_str(), &launch.model_catalog_json);
    }
    let ghost a2 = texts(argv@);
    if let Some(model) = &launch.model {
        push_arg(&mut argv, String::from_str("-m"));
        push_arg(&mut argv, model.clone());
        push_model_properties(&mut argv, model.as_str(), launch.context_window);
    }
    let ghost a3 = texts(argv@);
    push_sandbox_args(&mut argv, launch.approval, launch.sandbox);
    push_args(&mut argv, &launch.extra_args);
    assert(texts(argv@) =~= codex_argv(*launch));
    Ok(CodexCommand { argv, env })
}


/// A model listed in the catalog handed to Codex.
#[derive(Debug)]
pub struct CatalogModel {
    pub slug: String,
    pub display_name: String,
    pub description: String,
    pub context_window: u32,
}

impl View for CatalogModel {
    type V = ModelInfo;

    open spec fn view(&self) -> ModelInfo {
        (self.slug@, self.display_name@, self.description@, self.context_window)
    }
}

impl CatalogModel {
    /// The catalog entry of a built-in model.
    pub fn from_provider_model(model: &ProviderModel) -> (r: CatalogModel)
        ensures
            r@ == model@,
    {
        CatalogModel {
            slug: String::from_str(model.slug),
            display_name: String::from_str(model.display_name),
            description: String::from_str(model.description),
            context_window: model.context_window,
        }
    }
}

pub open spec fn catalog_views(models: Seq<CatalogModel>) -> Seq<ModelInfo> {
    models.map_values(|m: CatalogModel| m@)
}

/// The entry added for a selected model that the provider's catalog lacks.
pub open spec fn custom_entry(provider_name: Seq<char>, selected: Seq<char>) -> ModelInfo {
    (selected, selected, "Custom "@ + provider_name + " model selected for this launch."@, 128_000u32)
}

/// The models of the catalog written for a launch: the provider's models, and the
/// selected model after them when it is not among them. No catalog is written
/// for a provider without models.
pub open spec fn catalog_of(provider_name: Seq<char>, selected: Option<Seq<char>>) -> Option<
    Seq<ModelInfo>,
> {
    let base = models_of(normalized(provider_name));
    if base.len() == 0 {
        None
    } else {
        match selected {
            Some(m) => if exists|i: int| 0 <= i < base.len() && #[trigger] base[i].0 == m {
                Some(base)
            } else {
                Some(base.push(custom_entry(provider_name, m)))
            },
            None => Some(base),
        }
    }
}

/// The models of the catalog written for a launch with `provider_name` and the
/// selected model, or `None` when the provider has no model catalog.
pub fn catalog_models(provider_name: &str, selected_model: Option<&str>) -> (r: Option<
    Vec<CatalogModel>,
>)
    ensures
        match catalog_of(
            provider_name@,
            match selected_model {
                Some(m) => Some(m@),
                None => None,
            },
        ) {
            Some(c) => r matches Some(v) && catalog_views(v@) == c,
            None => r is None,
        },
{
    let builtin = provider_models(provider_name);
    let ghost base = models_of(normalized(provider_name@));
    let mut models: Vec<CatalogModel> = Vec::new();
    let mut i: usize = 0;
    while i < builtin.len()
        invariant
            i <= builtin@.len(),
            views(builtin@) == base,
            catalog_views(models@) == base.subrange(0, i as int),
        decreases builtin.len() - i,
    {
        let m = CatalogModel::from_provider_model(&builtin[i]);
        assert(views(builtin@)[i as int] == builtin@[i as int]@);
        let ghost old_models = models@;
        models.push(m);
        assert(models@ == old_models.push(m));
        assert(m@ == base[i as int]);
        assert(catalog_views(models@) =~= catalog_views(old_models).push(m@));
        assert(base.subrange(0, i + 1) =~= base.subrange(0, i as int).push(base[i as int]));
        assert(catalog_views(models@) =~= base.subrange(0, i + 1));
        i = i + 1;
    }
    assert(base.subrange(0, i as int) == base);
    if models.len() == 0 {
        return None;
    }
    if let Some(selected) = selected_model {
        let mut found = false;
        let mut j: usize = 0;
        while j < models.len()
            invariant
                j <= models@.len(),
                catalog_views(models@) == base,
                found <==> exists|k: int| 0 <= k < j && #[trigger] base[k].0 == selected@,
            decreases models.len() - j,
        {
            assert(catalog_views(models@)[j as int] == models@[j as int]@);
            assert(base[j as int].0 == models@[j as int].slug@);
            if str_eq(models[j].slug.as_str(), selected) {
                found = true;
            }
            assert(found <==> exists|k: int| 0 <= k < j + 1 && #[trigger] base[k].0 == selected@) by {
                if found && !(exists|k: int| 0 <= k < j && #[trigger] base[k].0 == selected@) {
                    assert(base[j as int].0 == selected@);
                }
            }
            j = j + 1;
        }
        if !found {
            let mut description = String::from_str("Custom ");
            push_str(&mut description, provider_name);
            push_str(&mut description, " model selected for this launch.");
            models.push(
                CatalogModel {
                    slug: String::from_str(selected),
                    display_name: String::from_str(selected),
                    description,
                    context_window: 128_000,
                },
            );
            assert(catalog_views(models@) =~= base.push(custom_entry(provider_name@, selected@)));
        }
    }
    Some(models)
}

/// A value written into a catalog entry.
#[derive(Debug)]
pub enum CatalogValue {
    Text(String),
    Number(u64),
    Flag(bool),
    TextList(Vec<String>),
}

/// The view of a catalog value.
pub enum CatalogValueView {
    Text(Seq<char>),
    Number(u64),
    Flag(bool),
    TextList(Seq<Seq<char>>),
}

impl View for CatalogValue {
    type V = CatalogValueView;

    open spec fn view(&self) -> CatalogValueView {
        match self {
            CatalogValue::Text(s) => CatalogValueView::Text(s@),
            CatalogValue::Number(n) => CatalogValueView::Number(*n),
            CatalogValue::Flag(b) => CatalogValueView::Flag(*b),
            CatalogValue::TextList(v) => CatalogValueView::TextList(texts(v@)),
        }
    }
}

pub open spec fn field_views(v: Seq<(String, CatalogValue)>) -> Seq<(Seq<char>, CatalogValueView)> {
    v.map_values(|f: (String, CatalogValue)| (f.0@, f.1@))
}

/// The fields that a catalog entry sets on top of Codex's bundled model template,
/// in the order they are set.
pub open spec fn entry_fields(model: ModelInfo, priority: usize) -> Seq<
    (Seq<char>, CatalogValueView),
> {
    seq![
        ("slug"@, CatalogValueView::Text(model.0)),
        ("display_name"@, CatalogValueView::Text(model.1)),
        ("description"@, CatalogValueView::Text(model.2)),
        ("priority"@, CatalogValueView::Number(priority as u64)),
        ("visibility"@, CatalogValueView::Text("list"@)),
        ("supported_in_api"@, CatalogValueView::Flag(true)),
        ("context_window"@, CatalogValueView::Number(model.3 as u64)),
        ("max_context_window"@, CatalogValueView::Number(model.3 as u64)),
        ("input_modalities"@, CatalogValueView::TextList(seq!["text"@])),
        ("supports_search_tool"@, CatalogValueView::Flag(false)),
        ("supports_image_detail_original"@, CatalogValueView::Flag(false)),
        ("supports_reasoning_summaries"@, CatalogValueView::Flag(false)),
    ]
}

/// The fields that the catalog entry of `model`, listed at `priority`, sets.
pub fn catalog_entry_fields(model: &CatalogModel, priority: usize) -> (r: Vec<(String, CatalogValue)>)
    ensures
        field_views(r@) == entry_fields(model@, priority),
{
    let r = vec![
        (String::from_str("slug"), CatalogValue::Text(model.slug.clone())),
        (String::from_str("display_name"), CatalogValue::Text(model.display_name.clone())),
        (String::from_str("description"), CatalogValue::Text(model.description.clone())),
        (String::from_str("priority"), CatalogValue::Number(priority as u64)),
        (String::from_str("visibility"), CatalogValue::Text(String::from_str("list"))),
        (String::from_str("supported_in_api"), CatalogValue::Flag(true)),
        (String::from_str("context_window"), CatalogValue::Number(model.context_window as u64)),
        (String::from_str("max_context_window"), CatalogValue::Number(model.context_window as u64)),
        (String::from_str("input_modalities"), CatalogValue::TextList(vec![String::from_str("text")])),
        (String::from_str("supports_search_tool"), CatalogValue::Flag(false)),
        (String::from_str("supports_image_detail_original"), CatalogValue::Flag(false)),
        (String::from_str("supports_reasoning_summaries"), CatalogValue::Flag(false)),
    ];
    proof {
        let tl = r@[8].1;
        if let CatalogValue::TextList(v) = tl {
            assert(texts(v@) =~= seq!["text"@]);
        }
    }
    assert(field_views(r@) =~= entry_fields(model@, priority));
    r
}

// ---------------------------------------------------------------------------
// Catalog entries built on Codex's bundled model template
// ---------------------------------------------------------------------------

/// A JSON value of `serde_json`.
#[verifier::external_type_specification]
#[verifier::external_body]
pub struct ExJsonValue(serde_json::Value);

/// Whether a JSON value is an object.
pub uninterp spec fn json_is_object(v: serde_json::Value) -> bool;

/// The members of a JSON object: each key with the compact JSON text that
/// `serde_json::to_string` gives of its value.
pub uninterp spec fn json_members(v: serde_json::Value) -> Map<Seq<char>, Seq<char>>;

/// What Codex's bundled catalog output `stdout` holds: `Err` when it is not JSON,
/// `Ok(None)` when it has no first element under `models`, and otherwise whether
/// that first model is a JSON object, with its members.
pub uninterp spec fn bundled_template(stdout: Seq<u8>) -> Result<
    Option<(bool, Map<Seq<char>, Seq<char>>)>,
    (),
>;

/// Calls `serde_json::from_slice` on the output, then takes the first element
/// of the array under `models` (`get`, `as_array`, `first`). What comes back is
/// only named (`bundled_template`), as a function of the bytes.
#[verifier::external_body]
fn read_bundled_template(stdout: &[u8]) -> (r: Result<Option<serde_json::Value>, ()>)
    ensures
        match bundled_template(stdout@) {
            Err(()) => r is Err,
            Ok(None) => r matches Ok(None),
            Ok(Some((object, members))) => r matches Ok(Some(t)) && json_is_object(t) == object
                && json_members(t) == members,
        },
{
    let catalog: serde_json::Value = match serde_json::from_slice(stdout) {
        Ok(c) => c,
        Err(_) => return Err(()),
    };
    Ok(catalog.get("models").and_then(serde_json::Value::as_array).and_then(|m| m.first()).cloned())
}

/// Calls `serde_json::Value::is_object`.
#[verifier::external_body]
fn json_object_check(v: &serde_json::Value) -> (r: bool)
    ensures
        r == json_is_object(*v),
{
    v.is_object()
}

/// Calls `Clone::clone` on a JSON value, which copies it as it is.
#[verifier::external_body]
fn json_clone(v: &serde_json::Value) -> (r: serde_json::Value)
    ensures
        json_is_object(r) == json_is_object(*v),
        json_members(r) == json_members(*v),
{
    v.clone()
}

/// Sets the member `key` of a JSON object to a string (`IndexMut` with a key
/// inserts or replaces that member); a string is written as `json_string` states.
#[verifier::external_body]
fn json_set_text(v: &mut serde_json::Value, key: &str, value: &str)
    requires
        json_is_object(*old(v)),
    ensures
        json_is_object(*final(v)),
        json_members(*final(v)) == json_members(*old(v)).insert(key@, json_string(value@)),
{
    v[key] = serde_json::Value::String(value.to_string());
}

/// Sets the member `key` of a JSON object to an integer, written in decimal.
#[verifier::external_body]
fn json_set_number(v: &mut serde_json::Value, key: &str, value: u64)
    requires
        json_is_object(*old(v)),
    ensures
        json_is_object(*final(v)),
        json_members(*final(v)) == json_members(*old(v)).insert(key@, decimal(value as nat)),
{
    v[key] = serde_json::Value::from(value);
}

/// Sets the member `key` of a JSON object to `true` or `false`.
#[verifier::external_body]
fn json_set_flag(v: &mut serde_json::Value, key: &str, value: bool)
    requires
        json_is_object(*old(v)),
    ensures
        json_is_object(*final(v)),
        json_members(*final(v)) == json_members(*old(v)).insert(key@, flag_text(value)),
{
    v[key] = serde_json::Value::Bool(value);
}

/// Sets the member `key` of a JSON object to an array of strings, written as the
/// compact array `json_string_array` states.
#[verifier::external_body]
fn json_set_texts(v: &mut serde_json::Value, key: &str, values: &Vec<String>)
    requires
        json_is_object(*old(v)),
    ensures
        json_is_object(*final(v)),
        json_members(*final(v)) == json_members(*old(v)).insert(key@, json_string_array(texts(values@))),
{
    v[key] = serde_json::Value::from(values.clone());
}

/// The JSON text of a boolean.
pub open spec fn flag_text(b: bool) -> Seq<char> {
    if b {
        "true"@
    } else {
        "false"@
    }
}

/// The compact JSON text of a catalog value.
pub open spec fn catalog_value_json(v: CatalogValueView) -> Seq<char> {
    match v {
        CatalogValueView::Text(s) => json_string(s),
        CatalogValueView::Number(n) => decimal(n as nat),
        CatalogValueView::Flag(b) => flag_text(b),
        CatalogValueView::TextList(items) => json_string_array(items),
    }
}

/// The members `m` with each field set in turn.
pub open spec fn overlaid(m: Map<Seq<char>, Seq<char>>, fields: Seq<(Seq<char>, CatalogValueView)>) -> Map<
    Seq<char>,
    Seq<char>,
>
    decreases fields.len(),
{
    if fields.len() == 0 {
        m
    } else {
        overlaid(m, fields.drop_last()).insert(fields.last().0, catalog_value_json(fields.last().1))
    }
}

/// The first model of Codex's bundled catalog output, the template of entries.
pub fn bundled_model_template(stdout: &[u8]) -> (r: Result<serde_json::Value, PalError>)
    ensures
        match bundled_template(stdout@) {
            Err(()) => r matches Err(PalError::ModelCatalogUnreadable),
            Ok(None) => r matches Err(PalError::NoBundledModels),
            Ok(Some((object, members))) => r matches Ok(t) && json_is_object(t) == object
                && json_members(t) == members,
        },
{
    match read_bundled_template(stdout) {
        Err(()) => Err(PalError::ModelCatalogUnreadable),
        Ok(None) => Err(PalError::NoBundledModels),
        Ok(Some(t)) => Ok(t),
    }
}

/// The catalog entry of `model`: the template with the entry's fields set.
pub fn catalog_entry_from_template(
    template: &serde_json::Value,
    model: &CatalogModel,
    priority: usize,
) -> (r: Result<serde_json::Value, PalError>)
    ensures
        !json_is_object(*template) ==> r matches Err(PalError::ModelTemplateNotObject),
        json_is_object(*template) ==> (r matches Ok(e) && json_is_object(e) && json_members(e)
            == overlaid(json_members(*template), entry_fields(model@, priority))),
{
    if !json_object_check(template) {
        return Err(PalError::ModelTemplateNotObject);
    }
    let mut entry = json_clone(template);
    let fields = catalog_entry_fields(model, priority);
    let ghost fv = field_views(fields@);
    let ghost base = json_members(*template);
    let mut i: usize = 0;
    while i < fields.len()
        invariant
            i <= fields@.len(),
            fv == field_views(fields@),
            json_is_object(entry),
            json_members(entry) == overlaid(base, fv.subrange(0, i as int)),
        decreases fields.len() - i,
    {
        let key = fields[i].0.as_str();
        assert(fv.subrange(0, i + 1).drop_last() =~= fv.subrange(0, i as int));
        assert(fv[i as int] == (fields@[i as int].0@, fields@[i as int].1@));
        match &fields[i].1 {
            CatalogValue::Text(s) => json_set_text(&mut entry, key, s.as_str()),
            CatalogValue::Number(n) => json_set_number(&mut entry, key, *n),
            CatalogValue::Flag(b) => json_set_flag(&mut entry, key, *b),
            CatalogValue::TextList(items) => json_set_texts(&mut entry, key, items),
        }
        i = i + 1;
    }
    assert(fv.subrange(0, i as int) =~= fv);
    Ok(entry)
}

/// The catalog entries of `models`, each built on the template with its position
/// as priority.
pub fn catalog_entries(template: &serde_json::Value, models: &Vec<CatalogModel>) -> (r: Result<
    Vec<serde_json::Value>,
    PalError,
>)
    ensures
        !json_is_object(*template) && models@.len() > 0 ==> (r matches Err(
            PalError::ModelTemplateNotObject,
        )),
        json_is_object(*template) || models@.len() == 0 ==> (r matches Ok(es) && es@.len()
            == models@.len() && forall|i: int|
            0 <= i < models@.len() ==> json_is_object(#[trigger] es@[i]) && json_members(es@[i])
                == overlaid(json_members(*template), entry_fields(models@[i]@, i as usize))),
{
    let mut entries: Vec<serde_json::Value> = Vec::new();
    let mut i: usize = 0;
    while i < models.len()
        invariant
            i <= models@.len(),
            i > 0 ==> json_is_object(*template),
            entries@.len() == i,
            forall|k: int|
                0 <= k < i ==> json_is_object(#[trigger] entries@[k]) && json_members(entries@[k])
                    == overlaid(json_members(*template), entry_fields(models@[k]@, k as usize)),
        decreases models.len() - i,
    {
        match catalog_entry_from_template(template, &models[i], i) {
            Ok(e) => entries.push(e),
            Err(err) => return Err(err),
        }
        i = i + 1;
    }
    Ok(entries)
}

/// A character of a provider name as it appears in a file name.
pub open spec fn file_name_char(c: char) -> char {
    if crate::text::is_ascii_alphanumeric(c) || c == '-' || c == '_' {
        c
    } else {
        '-'
    }
}

/// The name of the model catalog file of a provider and port.
pub open spec fn catalog_file_name(provider: Seq<char>, port: u16) -> Seq<char> {
    "models-"@ + provider.map_values(|c: char| file_name_char(c)) + "-"@ + decimal(port as nat)
        + ".json"@
}

/// The file name, inside the state directory, of the catalog of `provider` on `port`.
pub fn model_catalog_file(provider: &str, port: u16) -> (r: String)
    ensures
        r@ == catalog_file_name(provider@, port),
{
    let chars = crate::text::chars_of(provider);
    let mut name = String::from_str("models-");
    let ghost start = name@;
    let mut i: usize = 0;
    while i < chars.len()
        invariant
            i <= chars@.len(),
            chars@ == provider@,
            name@ == start + chars@.subrange(0, i as int).map_values(|c: char| file_name_char(c)),
        decreases chars.len() - i,
    {
        let c = chars[i];
        let keep = ('0' <= c && c <= '9') || ('a' <= c && c <= 'z') || ('A' <= c && c <= 'Z')
            || c == '-' || c == '_';
        crate::text::push_char(&mut name, if keep { c } else { '-' });
        assert(chars@.subrange(0, i + 1).map_values(|c: char| file_name_char(c)) =~= chars@.subrange(
            0,
            i as int,
        ).map_values(|c: char| file_name_char(c)).push(file_name_char(c)));
        i = i + 1;
    }
    assert(chars@.subrange(0, i as int) == chars@);
    push_str(&mut name, "-");
    push_decimal(&mut name, port as u64);
    push_str(&mut name, ".json");
    name
}

/// The launch command runs the chosen Codex executable, and the arguments left
/// after the launch options are passed on last, unchanged and in order.
pub proof fn lemma_argv_frame(launch: CodexLaunch)
    ensures
        codex_argv(launch)[0] == launch.codex_bin@,
        codex_argv(launch).len() >= 1 + launch.extra_args@.len(),
        codex_argv(launch).subrange(
            codex_argv(launch).len() - launch.extra_args@.len(),
            codex_argv(launch).len() as int,
        ) == texts(launch.extra_args@),
{
    let extra = texts(launch.extra_args@);
    let argv = codex_argv(launch);
    assert(argv.subrange(argv.len() - extra.len(), argv.len() as int) =~= extra);
}

/// The catalog written for a launch lists the selected model.
pub proof fn lemma_catalog_lists_selected(provider_name: Seq<char>, selected: Seq<char>)
    requires
        catalog_of(provider_name, Some(selected)) is Some,
    ensures
        exists|i: int|
            0 <= i < catalog_of(provider_name, Some(selected))->Some_0.len()
                && #[trigger] catalog_of(provider_name, Some(selected))->Some_0[i].0 == selected,
{
    let base = models_of(normalized(provider_name));
    let c = catalog_of(provider_name, Some(selected))->Some_0;
    if !exists|i: int| 0 <= i < base.len() && #[trigger] base[i].0 == selected {
        assert(c[base.len() as int].0 == selected);
    }
}

/// With a remote relay, Codex is pointed at that relay's URL, and the local port
/// plays no part in its command line or environment.
pub proof fn lemma_remote_relay_ignores_port(launch: CodexLaunch, port: u16, env_api_key: Option<String>)
    requires
        launch.relay_url is Some,
    ensures
        relay_url_of(launch.port, opt_text(launch.relay_url)) == launch.relay_url->0@,
        codex_argv(launch) == codex_argv(CodexLaunch { port, ..launch }),
        codex_env(launch, env_api_key) == codex_env(CodexLaunch { port, ..launch }, env_api_key),
{
}

/// Codex runs under the launch's own sandbox and approval policy: Codex's own
/// arguments come last, and right before them stands either the bypass flag
/// (full access) or `-s` with a value that reads back as the launch's sandbox
/// mode, preceded by an approval setting that reads back as the launch's policy.
pub proof fn lemma_launch_policy_reaches_codex(launch: CodexLaunch)
    ensures
        ({
            let a = codex_argv(launch);
            let n = a.len() - launch.extra_args@.len();
            &&& n >= 2
            &&& a.subrange(n, a.len() as int) == texts(launch.extra_args@)
            &&& launch.sandbox == SandboxMode::DangerFullAccess ==> a[n - 1]
                == "--dangerously-bypass-approvals-and-sandbox"@
            &&& launch.sandbox != SandboxMode::DangerFullAccess ==> {
                &&& n >= 4
                &&& a[n - 2] == "-s"@
                &&& sandbox_named(a[n - 1]) == Some(launch.sandbox)
                &&& a[n - 4] == "-c"@
                &&& exists|w: Seq<char>|
                    a[n - 3] == "approval_policy="@ + json_string(w) && #[trigger] approval_named(w)
                        == Some(launch.approval)
            }
        }),
{
    let a = codex_argv(launch);
    let e = texts(launch.extra_args@);
    let sb = sandbox_args(launch.approval, launch.sandbox);
    let head = seq![launch.codex_bin@] + (if launch.provider.name@ != "openai"@ {
        relay_config_args(
            launch.provider.name@,
            relay_url_of(launch.port, opt_text(launch.relay_url)),
            launch.provider.api_key_env@,
            match launch.model_catalog_json {
                Some(p) => Some(p@),
                None => None,
            },
        )
    } else {
        Seq::empty()
    }) + match launch.model {
        Some(m) => seq!["-m"@, m@] + model_property_args(m@, launch.context_window),
        None => Seq::empty(),
    };
    assert(a == head + sb + e);
    let n = a.len() - e.len();
    assert(n == head.len() + sb.len());
    assert(a.subrange(n, a.len() as int) =~= e);
    lemma_sandbox_round_trip(launch.sandbox);
    lemma_approval_round_trip(launch.approval);
    assert forall|k: int| 0 <= k < sb.len() implies a[head.len() + k] == #[trigger] sb[k] by {
        assert((head + sb)[head.len() + k] == sb[k]);
    }
    if launch.sandbox == SandboxMode::DangerFullAccess {
        assert(a[n - 1] == sb[sb.len() - 1]);
    } else {
        assert(sb.len() == 4);
        assert(a[n - 1] == sb[3]);
        assert(a[n - 2] == sb[2]);
        assert(a[n - 3] == sb[1]);
        assert(a[n - 4] == sb[0]);
        let w = approval_text(launch.approval);
        reveal_strlit("approval_policy");
        reveal_strlit("=");
        reveal_strlit("approval_policy=");
        assert("approval_policy"@ + "="@ =~= "approval_policy="@);
        assert(sb[1] == "approval_policy"@ + "="@ + json_string(w));
        assert(a[n - 3] == "approval_policy="@ + json_string(w));
        assert(approval_named(w) == Some(launch.approval));
    }
}

} // verus!
