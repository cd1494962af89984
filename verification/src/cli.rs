//! Command-line data and the decisions of the command-line front end: which
//! profile command was asked for, how a profile becomes launch options, what a
//! launch needs, and the text shown to the user.
use vstd::prelude::*;

use crate::codex::{
    ApprovalPolicy, CodexLaunch, SandboxMode, approval_named, approval_text,
    lemma_approval_round_trip, lemma_sandbox_round_trip, sandbox_named, sandbox_text,
};
use crate::config::{
    ConfigFile, ProfileConfig, ProfileView, arg_texts, clone_args, clone_opt, empty_profile,
    opt_text, sorted_names,
};
use crate::error::PalError;
use crate::provider::{
    ProviderProfile, builtin_names, default_model, default_model_of, defaults_of,
    is_builtin_provider,
};
use crate::relay::{RelayRequest, RelayState, normalize_relay_base_url, relay_base_url, state_text};
use crate::text::{
    debug_quoted, debug_str, is_plain, plain_quoted, normalized, push_str, replace_all, replace_str, str_eq, trim,
    trim_str,
};

verus! {

/// The parsed command line.
#[derive(Debug)]
pub struct Cli {
    pub command: Option<Command>,
}

/// A top-level command.
#[derive(Debug)]
pub enum Command {
    /// Fully explicit launch path.
    Run(Box<RunArgs>),
    /// List saved profiles.
    Profiles,
    /// List built-in provider shortcuts.
    Providers,
    /// Print the configuration file's path.
    ConfigPath,
    /// Manage relay processes directly.
    Relay { command: RelayCommand },
    /// Print a Codex config.toml snippet from `codex-relay --print-config`.
    RelayConfig(ConfigArgs),
    /// Human-friendly profile path: a profile name and what follows it.
    Profile(Vec<String>),
}

/// A relay command.
#[derive(Debug)]
pub enum RelayCommand {
    /// Print relay status for a port.
    Status(StatusArgs),
    /// Stop the managed relay for a port.
    Stop(StatusArgs),
}

/// The port of a relay command.
#[derive(Debug, Clone)]
pub struct StatusArgs {
    pub port: u16,
}

/// Arguments of `relay-config`.
#[derive(Debug, Clone)]
pub struct ConfigArgs {
    pub provider: ProviderArgs,
    pub relay_bin: String,
}

/// Arguments of `run`.
#[derive(Debug, Clone)]
pub struct RunArgs {
    pub provider: ProviderArgs,
    pub launch: LaunchOptions,
}

/// Everything a launch is told on the command line.
#[derive(Debug, Clone)]
pub struct LaunchOptions {
    pub model: Option<String>,
    pub codex_bin: String,
    pub relay_bin: String,
    pub port: u16,
    pub relay_url: Option<String>,
    pub approval: ApprovalPolicy,
    pub sandbox: SandboxMode,
    pub ask: bool,
    pub no_sandbox: bool,
    pub no_start_relay: bool,
    pub print_codex_command: bool,
    pub context_window: u32,
    pub codex_args: Vec<String>,
}

/// Which provider to use, and overrides of its defaults.
#[derive(Debug, Clone)]
pub struct ProviderArgs {
    pub provider: String,
    pub upstream: Option<String>,
    pub api_key_env: Option<String>,
    pub api_key: Option<String>,
}

/// Launch options given after a profile name; unset ones come from the profile.
#[derive(Debug, Clone)]
pub struct ProfileLaunchOptions {
    pub model: Option<String>,
    pub port: Option<u16>,
    pub relay_url: Option<String>,
    pub approval: Option<ApprovalPolicy>,
    pub sandbox: Option<SandboxMode>,
    pub ask: bool,
    pub no_sandbox: bool,
    pub no_start_relay: bool,
    pub print_codex_command: bool,
    pub context_window: Option<u32>,
    pub codex_args: Vec<String>,
}

impl Default for ProfileLaunchOptions {
    fn default() -> (r: ProfileLaunchOptions)
        ensures
            r.model is None,
            r.port is None,
            r.relay_url is None,
            r.approval is None,
            r.sandbox is None,
            !r.ask,
            !r.no_sandbox,
            !r.no_start_relay,
            !r.print_codex_command,
            r.context_window is None,
            r.codex_args@.len() == 0,
    {
        ProfileLaunchOptions {
            model: None,
            port: None,
            relay_url: None,
            approval: None,
            sandbox: None,
            ask: false,
            no_sandbox: false,
            no_start_relay: false,
            print_codex_command: false,
            context_window: None,
            codex_args: Vec::new(),
        }
    }
}

/// Settings given to `<profile> config`.
#[derive(Debug, Clone)]
pub struct ProfileConfigArgs {
    pub provider: Option<String>,
    pub model: Option<String>,
    pub upstream: Option<String>,
    pub api_key_env: Option<String>,
    pub port: Option<u16>,
    pub relay_url: Option<String>,
    pub codex_bin: Option<String>,
    pub relay_bin: Option<String>,
    pub approval: Option<ApprovalPolicy>,
    pub sandbox: Option<SandboxMode>,
    pub context_window: Option<u32>,
    pub reset: bool,
    pub show: bool,
}

// ---------------------------------------------------------------------------
// Profile commands
// ---------------------------------------------------------------------------

/// What a profile command line asks for.
#[derive(Debug)]
pub enum ProfileAction {
    /// `<name> config ...`: change the saved profile.
    Configure { name: String, args: Vec<String> },
    /// `<name> show`: print the saved profile.
    Show { name: String },
    /// `<name> status`: print the status of its relay.
    Status { name: String },
    /// `<name> stop`: stop its relay.
    Stop { name: String },
    /// `<name> restart ...`: stop its relay, then launch.
    Restart { name: String, args: Vec<String> },
    /// `<name> ...`: launch with the remaining arguments.
    Run { name: String, args: Vec<String> },
}

/// Which profile command was asked for.
pub enum ActionKind {
    Configure,
    Show,
    Status,
    Stop,
    Restart,
    Run,
}

/// The profile command that `tokens` ask for, the profile name first: its kind,
/// the profile name and the arguments handed on.
pub open spec fn profile_action_of(tokens: Seq<Seq<char>>) -> Result<
    (ActionKind, Seq<char>, Seq<Seq<char>>),
    PalError,
> {
    if tokens.len() == 0 {
        Err(PalError::MissingProfileName)
    } else if tokens[0] == "help"@ {
        Err(PalError::HelpRequested)
    } else {
        let name = tokens[0];
        let rest = tokens.drop_first();
        if rest.len() > 0 && rest[0] == "config"@ {
            Ok((ActionKind::Configure, name, rest.drop_first()))
        } else if rest.len() > 0 && rest[0] == "show"@ {
            Ok((ActionKind::Show, name, Seq::empty()))
        } else if rest.len() > 0 && rest[0] == "status"@ {
            Ok((ActionKind::Status, name, Seq::empty()))
        } else if rest.len() > 0 && rest[0] == "stop"@ {
            Ok((ActionKind::Stop, name, Seq::empty()))
        } else if rest.len() > 0 && rest[0] == "restart"@ {
            Ok((ActionKind::Restart, name, rest.drop_first()))
        } else {
            Ok((ActionKind::Run, name, rest))
        }
    }
}

/// The kind, name and arguments of an action, as `profile_action_of` gives them.
pub open spec fn action_parts(a: ProfileAction) -> (ActionKind, Seq<char>, Seq<Seq<char>>) {
    match a {
        ProfileAction::Configure { name, args } => (ActionKind::Configure, name@, arg_texts(args@)),
        ProfileAction::Show { name } => (ActionKind::Show, name@, Seq::empty()),
        ProfileAction::Status { name } => (ActionKind::Status, name@, Seq::empty()),
        ProfileAction::Stop { name } => (ActionKind::Stop, name@, Seq::empty()),
        ProfileAction::Restart { name, args } => (ActionKind::Restart, name@, arg_texts(args@)),
        ProfileAction::Run { name, args } => (ActionKind::Run, name@, arg_texts(args@)),
    }
}

/// Copies of `v[from..]`.
fn clone_tail(v: &Vec<String>, from: usize) -> (r: Vec<String>)
    requires
        from <= v.len(),
    ensures
        arg_texts(r@) == arg_texts(v@).skip(from as int),
{
    let mut r: Vec<String> = Vec::new();
    let mut i: usize = from;
    while i < v.len()
        invariant
            from <= i <= v@.len(),
            arg_texts(r@) == arg_texts(v@).subrange(from as int, i as int),
        decreases v.len() - i,
    {
        let ghost before = r@;
        let c = v[i].clone();
        r.push(c);
        assert(arg_texts(r@) =~= arg_texts(before).push(c@));
        assert(arg_texts(v@).subrange(from as int, i + 1) =~= arg_texts(v@).subrange(
            from as int,
            i as int,
        ).push(v@[i as int]@));
        i = i + 1;
    }
    assert(arg_texts(v@).subrange(from as int, i as int) =~= arg_texts(v@).skip(from as int));
    r
}

/// Reads a profile command line: the profile name, then an optional management
/// word (`config`, `show`, `status`, `stop`, `restart`), then arguments.
pub fn handle_profile(tokens: &Vec<String>) -> (r: Result<ProfileAction, PalError>)
    ensures
        match profile_action_of(arg_texts(tokens@)) {
            Ok(parts) => r matches Ok(a) && action_parts(a) == parts,
            Err(PalError::MissingProfileName) => r matches Err(PalError::MissingProfileName),
            Err(_) => r matches Err(PalError::HelpRequested),
        },
{
    let ghost t = arg_texts(tokens@);
    if tokens.len() == 0 {
        return Err(PalError::MissingProfileName);
    }
    assert(t[0] == tokens@[0]@);
    let name = tokens[0].clone();
    if str_eq(name.as_str(), "help") {
        return Err(PalError::HelpRequested);
    }
    let ghost rest = t.drop_first();
    assert(arg_texts(tokens@).skip(1) =~= rest);
    if tokens.len() > 1 {
        assert(rest[0] == tokens@[1]@);
        let word = tokens[1].as_str();
        assert(arg_texts(tokens@).skip(2) =~= rest.drop_first());
        if str_eq(word, "config") {
            return Ok(ProfileAction::Configure { name, args: clone_tail(tokens, 2) });
        } else if str_eq(word, "show") {
            return Ok(ProfileAction::Show { name });
        } else if str_eq(word, "status") {
            return Ok(ProfileAction::Status { name });
        } else if str_eq(word, "stop") {
            return Ok(ProfileAction::Stop { name });
        } else if str_eq(word, "restart") {
            return Ok(ProfileAction::Restart { name, args: clone_tail(tokens, 2) });
        }
    }
    Ok(ProfileAction::Run { name, args: clone_tail(tokens, 1) })
}

// ---------------------------------------------------------------------------
// From a profile to launch options
// ---------------------------------------------------------------------------

/// The first value that is set, else `default`.
pub open spec fn first_or<T>(a: Option<T>, b: Option<T>, default: T) -> T {
    match a {
        Some(x) => x,
        None => match b {
            Some(y) => y,
            None => default,
        },
    }
}

/// The launch options that a saved profile and the arguments after its name give.
pub open spec fn options_from_profile(
    profile: ProfileView,
    run: ProfileLaunchOptions,
    out: LaunchOptions,
) -> bool {
    &&& opt_text(out.model) == match run.model {
        Some(m) => Some(m@),
        None => match profile.model {
            Some(m) => Some(m),
            None => default_model_of(profile.provider),
        },
    }
    &&& out.codex_bin@ == match profile.codex_bin {
        Some(b) => b,
        None => "codex"@,
    }
    &&& out.relay_bin@ == match profile.relay_bin {
        Some(b) => b,
        None => "codex-relay"@,
    }
    &&& out.port == first_or(run.port, profile.port, 4444u16)
    &&& opt_text(out.relay_url) == match run.relay_url {
        Some(u) => Some(u@),
        None => profile.relay_url,
    }
    &&& out.approval == match run.approval {
        Some(a) => a,
        None => match approval_named(
            match profile.approval {
                Some(a) => a,
                None => "never"@,
            },
        ) {
            Some(a) => a,
            None => ApprovalPolicy::Never,
        },
    }
    &&& out.sandbox == match run.sandbox {
        Some(s) => s,
        None => match sandbox_named(
            match profile.sandbox {
                Some(s) => s,
                None => "workspace-write"@,
            },
        ) {
            Some(s) => s,
            None => SandboxMode::WorkspaceWrite,
        },
    }
    &&& out.ask == run.ask
    &&& out.no_sandbox == run.no_sandbox
    &&& out.no_start_relay == run.no_start_relay
    &&& out.print_codex_command == run.print_codex_command
    &&& out.context_window == first_or(run.context_window, profile.context_window, 128_000u32)
    &&& arg_texts(out.codex_args@) == if run.codex_args@.len() == 0 {
        profile.codex_args
    } else {
        arg_texts(run.codex_args@)
    }
}

/// The launch options of a saved profile, with the arguments given after its name
/// taking precedence, then the profile, then the built-in defaults.
pub fn launch_options_from_profile(profile: &ProfileConfig, run_args: &ProfileLaunchOptions) -> (r:
    Result<LaunchOptions, PalError>)
    ensures
        r matches Ok(o) && options_from_profile(profile@, *run_args, o),
{
    let model = match &run_args.model {
        Some(m) => Some(m.clone()),
        None => match &profile.model {
            Some(m) => Some(m.clone()),
            None => match default_model(profile.provider.as_str()) {
                Some(m) => Some(String::from_str(m)),
                None => None,
            },
        },
    };
    let codex_bin = match &profile.codex_bin {
        Some(b) => b.clone(),
        None => String::from_str("codex"),
    };
    let relay_bin = match &profile.relay_bin {
        Some(b) => b.clone(),
        None => String::from_str("codex-relay"),
    };
    let port = match run_args.port {
        Some(p) => p,
        None => match profile.port {
            Some(p) => p,
            None => 4444,
        },
    };
    let relay_url = match &run_args.relay_url {
        Some(u) => Some(u.clone()),
        None => clone_opt(&profile.relay_url),
    };
    let approval = match run_args.approval {
        Some(a) => a,
        None => {
            let value = match &profile.approval {
                Some(a) => a.as_str(),
                None => "never",
            };
            match ApprovalPolicy::parse(value) {
                Ok(a) => a,
                Err(_) => ApprovalPolicy::Never,
            }
        },
    };
    let sandbox = match run_args.sandbox {
        Some(s) => s,
        None => {
            let value = match &profile.sandbox {
                Some(s) => s.as_str(),
                None => "workspace-write",
            };
            match SandboxMode::parse(value) {
                Ok(s) => s,
                Err(_) => SandboxMode::WorkspaceWrite,
            }
        },
    };
    let context_window = match run_args.context_window {
        Some(c) => c,
        None => match profile.context_window {
            Some(c) => c,
            None => 128_000,
        },
    };
    let codex_args = if run_args.codex_args.len() == 0 {
        clone_args(&profile.codex_args)
    } else {
        clone_args(&run_args.codex_args)
    };
    Ok(
        LaunchOptions {
            model,
            codex_bin,
            relay_bin,
            port,
            relay_url,
            approval,
            sandbox,
            ask: run_args.ask,
            no_sandbox: run_args.no_sandbox,
            no_start_relay: run_args.no_start_relay,
            print_codex_command: run_args.print_codex_command,
            context_window,
            codex_args,
        },
    )
}

// ---------------------------------------------------------------------------
// Profile setup
// ---------------------------------------------------------------------------

pub open spec fn more_examples() -> Seq<char> {
    "\n\nRun `codex-pal --help` for more examples."@
}

/// The setup hint shown instead of launching an incomplete profile, if any.
pub open spec fn setup_message_of(name: Seq<char>, profile: ProfileView) -> Option<Seq<char>> {
    setup_message_with(name, debug_quoted(name), profile)
}

/// The setup hint, with `quoted` standing for the `{:?}` form of the name.
pub open spec fn setup_message_with(name: Seq<char>, quoted: Seq<char>, profile: ProfileView) -> Option<Seq<char>> {
    if trim(profile.provider).len() == 0 {
        Some(
            "profile "@ + quoted
                + " is missing a provider.\nConfigure it with:\n  codex-pal "@ + name
                + " config --provider deepseek --model deepseek-v4-pro"@ + more_examples(),
        )
    } else if profile.model is None && default_model_of(profile.provider) is None {
        Some(
            "profile "@ + quoted
                + " is missing a model.\nConfigure it with:\n  codex-pal "@ + name
                + " config --model vendor/model"@ + more_examples(),
        )
    } else if profile.provider == "custom"@ && profile.upstream is None {
        Some(
            "custom profile "@ + quoted
                + " is missing an upstream URL.\nConfigure it with:\n  codex-pal "@ + name
                + " config --provider custom --upstream https://llm.example.com/v1 --api-key-env EXAMPLE_API_KEY --model vendor/model"@
                + more_examples(),
        )
    } else if profile.provider == "custom"@ && profile.api_key_env is None {
        Some(
            "custom profile "@ + quoted
                + " is missing an API key environment variable.\nConfigure it with:\n  codex-pal "@
                + name + " config --api-key-env EXAMPLE_API_KEY --model vendor/model"@
                + more_examples(),
        )
    } else {
        None
    }
}

/// `<lead><quoted><middle><name><tail>` followed by the pointer to `--help`.
fn setup_text(lead: &str, quoted: &str, middle: &str, name: &str, tail: &str) -> (r: String)
    ensures
        r@ == lead@ + quoted@ + middle@ + name@ + tail@ + more_examples(),
{
    let mut r = String::from_str(lead);
    push_str(&mut r, quoted);
    push_str(&mut r, middle);
    push_str(&mut r, name);
    push_str(&mut r, tail);
    push_str(&mut r, "\n\nRun `codex-pal --help` for more examples.");
    r
}

/// The hint shown instead of launching a profile that lacks a provider, a model,
/// or, for a custom provider, an upstream URL or API key variable; `quoted_name`
/// is the name in `{:?}` form.
pub fn setup_message_quoted(name: &str, quoted_name: &str, profile: &ProfileConfig) -> (r: Option<
    String,
>)
    ensures
        match setup_message_with(name@, quoted_name@, profile@) {
            Some(m) => r matches Some(s) && s@ == m,
            None => r is None,
        },
{
    let provider = trim_str(profile.provider.as_str());
    if provider.as_str().unicode_len() == 0 {
        return Some(
            setup_text(
                "profile ",
                quoted_name,
                " is missing a provider.\nConfigure it with:\n  codex-pal ",
                name,
                " config --provider deepseek --model deepseek-v4-pro",
            ),
        );
    }
    if profile.model.is_none() && default_model(profile.provider.as_str()).is_none() {
        return Some(
            setup_text(
                "profile ",
                quoted_name,
                " is missing a model.\nConfigure it with:\n  codex-pal ",
                name,
                " config --model vendor/model",
            ),
        );
    }
    let custom = str_eq(profile.provider.as_str(), "custom");
    if custom && profile.upstream.is_none() {
        return Some(
            setup_text(
                "custom profile ",
                quoted_name,
                " is missing an upstream URL.\nConfigure it with:\n  codex-pal ",
                name,
                " config --provider custom --upstream https://llm.example.com/v1 --api-key-env EXAMPLE_API_KEY --model vendor/model",
            ),
        );
    }
    if custom && profile.api_key_env.is_none() {
        return Some(
            setup_text(
                "custom profile ",
                quoted_name,
                " is missing an API key environment variable.\nConfigure it with:\n  codex-pal ",
                name,
                " config --api-key-env EXAMPLE_API_KEY --model vendor/model",
            ),
        );
    }
    None
}

/// The hint shown instead of launching a profile that lacks a provider, a model,
/// or, for a custom provider, an upstream URL or API key variable.
pub fn profile_setup_message(name: &str, profile: &ProfileConfig) -> (r: Option<String>)
    ensures
        match setup_message_of(name@, profile@) {
            Some(m) => r matches Some(s) && s@ == m,
            None => r is None,
        },
        is_plain(name@) ==> match setup_message_with(name@, plain_quoted(name@), profile@) {
            Some(m) => r matches Some(s) && s@ == m,
            None => r is None,
        },
{
    let quoted = debug_str(name);
    setup_message_quoted(name, quoted.as_str(), profile)
}

/// The sandbox a first-time profile records.
pub fn normalized_sandbox(args: &ProfileLaunchOptions) -> (r: SandboxMode)
    ensures
        r == if args.no_sandbox {
            SandboxMode::DangerFullAccess
        } else {
            match args.sandbox {
                Some(s) => s,
                None => SandboxMode::WorkspaceWrite,
            }
        },
{
    if args.no_sandbox {
        SandboxMode::DangerFullAccess
    } else {
        match args.sandbox {
            Some(s) => s,
            None => SandboxMode::WorkspaceWrite,
        }
    }
}

/// The model a first-time profile of a built-in provider starts with, before the
/// user is asked: the one given, else the provider's default.
pub fn initial_model(name: &str, run_args: &ProfileLaunchOptions) -> (r: Option<String>)
    ensures
        opt_text(r) == match run_args.model {
            Some(m) => Some(m@),
            None => default_model_of(name@),
        },
{
    match &run_args.model {
        Some(m) => Some(m.clone()),
        None => match default_model(name) {
            Some(m) => Some(String::from_str(m)),
            None => None,
        },
    }
}

/// The profile created the first time a built-in provider's name is launched.
pub fn new_builtin_profile(name: &str, run_args: &ProfileLaunchOptions, model: Option<String>) -> (r:
    ProfileConfig)
    ensures
        r@ == first_run_view(name@, *run_args, opt_text(model)),
{
    let approval = match run_args.approval {
        Some(a) => a,
        None => ApprovalPolicy::Never,
    };
    let mut profile = ProfileConfig::empty();
    profile.provider = String::from_str(name);
    profile.model = model;
    profile.port = Some(
        match run_args.port {
            Some(p) => p,
            None => 4444,
        },
    );
    profile.relay_url = clone_opt(&run_args.relay_url);
    profile.approval = Some(String::from_str(approval.as_config_value()));
    profile.sandbox = Some(String::from_str(normalized_sandbox(run_args).as_cli_value()));
    profile.context_window = Some(
        match run_args.context_window {
            Some(c) => c,
            None => 128_000,
        },
    );
    profile
}

/// The profile recorded the first time a built-in provider's name is launched.
pub open spec fn first_run_view(name: Seq<char>, run_args: ProfileLaunchOptions, model: Option<
    Seq<char>,
>) -> ProfileView {
    ProfileView {
        provider: name,
        model: model,
        port: Some(first_or(run_args.port, None, 4444u16)),
        relay_url: match run_args.relay_url {
            Some(u) => Some(u@),
            None => None,
        },
        approval: Some(
            approval_text(
                match run_args.approval {
                    Some(a) => a,
                    None => ApprovalPolicy::Never,
                },
            ),
        ),
        sandbox: Some(
            sandbox_text(
                if run_args.no_sandbox {
                    SandboxMode::DangerFullAccess
                } else {
                    match run_args.sandbox {
                        Some(s) => s,
                        None => SandboxMode::WorkspaceWrite,
                    }
                },
            ),
        ),
        context_window: Some(first_or(run_args.context_window, None, 128_000u32)),
        ..empty_profile()
    }
}

/// Whether launching `name` must ask the user for a model: no profile is saved
/// under it, it names a built-in provider, and neither the arguments nor the
/// provider give a model.
pub fn needs_model_prompt(config: &ConfigFile, name: &str, run_args: &ProfileLaunchOptions) -> (r:
    bool)
    ensures
        r == (!config.profiles_map().contains_key(name@) && defaults_of(normalized(name@)) is Some
            && run_args.model is None && default_model_of(name@) is None),
{
    config.get(name).is_none() && is_builtin_provider(name) && initial_model(name, run_args).is_none()
}

/// The profile launched under `name`: the saved one, or, for a built-in provider's
/// name, a new one that is saved and becomes the default when none is set. The
/// model of a new profile is the one given, the provider's default, or the answer
/// `prompted` at the prompt; without any, setup is refused when the user could
/// have been asked. Returns the profile and whether it was created.
pub fn load_or_create_profile(
    config: &mut ConfigFile,
    name: &str,
    run_args: &ProfileLaunchOptions,
    prompted: Option<String>,
    interactive: bool,
) -> (r: Result<(ProfileConfig, bool), PalError>)
    ensures
        old(config).profiles_map().contains_key(name@) ==> (r matches Ok((p, created))
            && !created && p@ == old(config).profiles_map()[name@]),
        !old(config).profiles_map().contains_key(name@) && defaults_of(normalized(name@)) is None
            ==> (r matches Err(PalError::ProfileNotConfigured { name: n }) && n@ == name@),
        ({
            let model = match run_args.model {
                Some(m) => Some(m@),
                None => match default_model_of(name@) {
                    Some(m) => Some(m),
                    None => opt_text(prompted),
                },
            };
            !old(config).profiles_map().contains_key(name@) && defaults_of(normalized(name@))
                is Some ==> if model is None && interactive {
                r matches Err(PalError::ModelRequired)
            } else {
                &&& r matches Ok((p, created)) && created && p@ == first_run_view(
                    name@,
                    *run_args,
                    model,
                )
                &&& final(config).profiles_map() == old(config).profiles_map().insert(
                    name@,
                    first_run_view(name@, *run_args, model),
                )
                &&& final(config).default_name() == match old(config).default_name() {
                    Some(d) => Some(d),
                    None => Some(name@),
                }
            }
        }),
        r is Err || (r matches Ok((_, created)) && !created) ==> final(config).profiles_map()
            == old(config).profiles_map() && final(config).default_name() == old(
            config,
        ).default_name(),
{
    if let Some(profile) = config.get(name) {
        return Ok((profile.duplicate(), false));
    }
    if !is_builtin_provider(name) {
        return Err(PalError::ProfileNotConfigured { name: String::from_str(name) });
    }
    let model = match initial_model(name, run_args) {
        Some(m) => Some(m),
        None => prompted,
    };
    if model.is_none() && interactive {
        return Err(PalError::ModelRequired);
    }
    let profile = new_builtin_profile(name, run_args, model);
    config.insert_profile(String::from_str(name), profile.duplicate());
    Ok((profile, true))
}

/// A profile with the settings given to `<profile> config` applied.
pub open spec fn applied(p: ProfileView, args: ProfileConfigArgs) -> ProfileView {
    ProfileView {
        provider: match args.provider {
            Some(x) => x@,
            None => p.provider,
        },
        model: match args.model {
            Some(x) => Some(x@),
            None => p.model,
        },
        upstream: match args.upstream {
            Some(x) => Some(x@),
            None => p.upstream,
        },
        api_key_env: match args.api_key_env {
            Some(x) => Some(x@),
            None => p.api_key_env,
        },
        port: match args.port {
            Some(x) => Some(x),
            None => p.port,
        },
        relay_url: match args.relay_url {
            Some(x) => Some(x@),
            None => p.relay_url,
        },
        codex_bin: match args.codex_bin {
            Some(x) => Some(x@),
            None => p.codex_bin,
        },
        relay_bin: match args.relay_bin {
            Some(x) => Some(x@),
            None => p.relay_bin,
        },
        approval: match args.approval {
            Some(x) => Some(approval_text(x)),
            None => p.approval,
        },
        sandbox: match args.sandbox {
            Some(x) => Some(sandbox_text(x)),
            None => p.sandbox,
        },
        context_window: match args.context_window {
            Some(x) => Some(x),
            None => p.context_window,
        },
        codex_args: p.codex_args,
    }
}

/// Applies the settings given to `<profile> config`; settings not given stay.
pub fn apply_profile_config_args(profile: &mut ProfileConfig, args: ProfileConfigArgs)
    ensures
        final(profile)@ == applied(old(profile)@, args),
{
    if let Some(provider) = args.provider {
        profile.provider = provider;
    }
    if let Some(model) = args.model {
        profile.model = Some(model);
    }
    if let Some(upstream) = args.upstream {
        profile.upstream = Some(upstream);
    }
    if let Some(api_key_env) = args.api_key_env {
        profile.api_key_env = Some(api_key_env);
    }
    if let Some(port) = args.port {
        profile.port = Some(port);
    }
    if let Some(relay_url) = args.relay_url {
        profile.relay_url = Some(relay_url);
    }
    if let Some(codex_bin) = args.codex_bin {
        profile.codex_bin = Some(codex_bin);
    }
    if let Some(relay_bin) = args.relay_bin {
        profile.relay_bin = Some(relay_bin);
    }
    if let Some(approval) = args.approval {
        profile.approval = Some(String::from_str(approval.as_config_value()));
    }
    if let Some(sandbox) = args.sandbox {
        profile.sandbox = Some(String::from_str(sandbox.as_cli_value()));
    }
    if let Some(context_window) = args.context_window {
        profile.context_window = Some(context_window);
    }
}

// ---------------------------------------------------------------------------
// Saved profiles
// ---------------------------------------------------------------------------

/// The profile a `config` command starts from when none is saved under `name`:
/// a built-in provider's name names its provider, any other name a custom one.
pub open spec fn fresh_profile(name: Seq<char>) -> ProfileView {
    ProfileView {
        provider: if defaults_of(normalized(name)) is Some {
            name
        } else {
            "custom"@
        },
        ..empty_profile()
    }
}

/// The profile that `<name> config` saves.
pub open spec fn configured(old: Option<ProfileView>, name: Seq<char>, args: ProfileConfigArgs) -> ProfileView {
    let base = match old {
        Some(p) => p,
        None => fresh_profile(name),
    };
    let p = applied(base, args);
    if p.model is None {
        ProfileView { model: default_model_of(p.provider), ..p }
    } else {
        p
    }
}

/// What `<name> config` did with the saved profiles.
#[derive(Debug, Clone, Copy, PartialEq, Eq)]
pub enum ConfigureOutcome {
    /// `--show`: nothing changed; the saved profile is to be printed.
    Show,
    /// `--reset`: the profile was removed.
    Removed,
    /// The profile was saved with the given settings.
    Saved,
}

/// Carries out `<name> config`. With `--show` nothing changes. With `--reset`
/// the profile is removed and the default cleared when it named that profile.
/// Otherwise the saved profile, or a fresh one, gets the given settings and the
/// provider's default model when no model is set, and becomes the default when
/// there is none.
pub fn configure_profile(config: &mut ConfigFile, name: &str, args: ProfileConfigArgs) -> (r:
    ConfigureOutcome)
    ensures
        args.show ==> r == ConfigureOutcome::Show && *final(config) == *old(config),
        !args.show && args.reset ==> r == ConfigureOutcome::Removed
            && final(config).profiles_map() == old(config).profiles_map().remove(name@)
            && final(config).default_name() == (if old(config).default_name() == Some(name@) {
            None
        } else {
            old(config).default_name()
        }),
        !args.show && !args.reset ==> r == ConfigureOutcome::Saved
            && final(config).profiles_map() == old(config).profiles_map().insert(
            name@,
            configured(
                if old(config).profiles_map().contains_key(name@) {
                    Some(old(config).profiles_map()[name@])
                } else {
                    None
                },
                name@,
                args,
            ),
        ) && final(config).default_name() == match old(config).default_name() {
            Some(d) => Some(d),
            None => Some(name@),
        },
{
    if args.show {
        return ConfigureOutcome::Show;
    }
    if args.reset {
        reset_profile(config, name);
        return ConfigureOutcome::Removed;
    }
    let mut profile = match config.get(name) {
        Some(p) => p.duplicate(),
        None => {
            let mut p = ProfileConfig::empty();
            p.provider = if is_builtin_provider(name) {
                String::from_str(name)
            } else {
                String::from_str("custom")
            };
            p
        },
    };
    apply_profile_config_args(&mut profile, args);
    if profile.model.is_none() {
        profile.model = match default_model(profile.provider.as_str()) {
            Some(m) => Some(String::from_str(m)),
            None => None,
        };
    }
    config.insert_profile(String::from_str(name), profile);
    ConfigureOutcome::Saved
}

/// Removes the profile `name`, and clears the default when it named that profile.
pub fn reset_profile(config: &mut ConfigFile, name: &str)
    ensures
        final(config).profiles_map() == old(config).profiles_map().remove(name@),
        final(config).default_name() == if old(config).default_name() == Some(name@) {
            None
        } else {
            old(config).default_name()
        },
{
    config.remove_profile(name);
    let is_default = match config.default_profile() {
        Some(d) => str_eq(d.as_str(), name),
        None => false,
    };
    if is_default {
        config.set_default_profile(None);
    }
}

/// The profile saved under `name`.
pub fn required_profile(config: &ConfigFile, name: &str) -> (r: Result<ProfileConfig, PalError>)
    ensures
        match r {
            Ok(p) => config.profiles_map().contains_key(name@) && p@ == config.profiles_map()[name@],
            Err(e) => !config.profiles_map().contains_key(name@) && (e matches PalError::ProfileNotFound { name: n } && n@ == name@),
        },
{
    match config.get(name) {
        Some(p) => Ok(p.duplicate()),
        None => Err(PalError::ProfileNotFound { name: String::from_str(name) }),
    }
}

/// The relay port of a saved profile.
pub fn profile_port(profile: &ProfileConfig) -> (r: u16)
    ensures
        r == first_or(profile.port, None, 4444u16),
{
    match profile.port {
        Some(p) => p,
        None => 4444,
    }
}

/// One line of the profile list.
pub open spec fn profile_line(default: Option<Seq<char>>, name: Seq<char>, p: ProfileView) -> Seq<char> {
    (if default == Some(name) {
        "*"@
    } else {
        " "@
    }) + " "@ + name + "\tprovider="@ + p.provider + "\tmodel="@ + match p.model {
        Some(m) => m,
        None => "(unset)"@,
    }
}

/// The lines of `profiles`, in the order of their names: the default marked with
/// `*`, each with its provider and model.
pub fn profile_listing(config: &ConfigFile) -> (r: Vec<String>)
    ensures
        arg_texts(r@) == config.entries().map_values(
            |e: (Seq<char>, ProfileView)| profile_line(config.default_name(), e.0, e.1),
        ),
        sorted_names(config.entries()),
{
    let entries = config.profiles();
    let ghost es = config.entries();
    let ghost line = |e: (Seq<char>, ProfileView)| profile_line(config.default_name(), e.0, e.1);
    let mut lines: Vec<String> = Vec::new();
    let mut i: usize = 0;
    while i < entries.len()
        invariant
            i <= entries@.len(),
            crate::config::entry_views(entries@) == es,
            es == config.entries(),
            line == (|e: (Seq<char>, ProfileView)| profile_line(config.default_name(), e.0, e.1)),
            arg_texts(lines@) == es.subrange(0, i as int).map_values(line),
        decreases entries.len() - i,
    {
        let (name, profile) = &entries[i];
        assert(es[i as int] == (name@, profile@));
        let is_default = match config.default_profile() {
            Some(d) => str_eq(d.as_str(), name.as_str()),
            None => false,
        };
        let mut s = String::from_str(if is_default { "*" } else { " " });
        push_str(&mut s, " ");
        push_str(&mut s, name.as_str());
        push_str(&mut s, "\tprovider=");
        push_str(&mut s, profile.provider.as_str());
        push_str(&mut s, "\tmodel=");
        match &profile.model {
            Some(m) => push_str(&mut s, m.as_str()),
            None => push_str(&mut s, "(unset)"),
        }
        assert(s@ == line(es[i as int]));
        let ghost before = lines@;
        lines.push(s);
        assert(arg_texts(lines@) =~= arg_texts(before).push(s@));
        assert(es.subrange(0, i + 1).map_values(line) =~= es.subrange(0, i as int).map_values(
            line,
        ).push(line(es[i as int])));
        i = i + 1;
    }
    assert(es.subrange(0, i as int) == es);
    lines
}

/// One line of the provider list.
pub open spec fn provider_line(p: Seq<char>) -> Seq<char> {
    if p == "custom"@ {
        "custom\tconfigure with --upstream and --api-key-env"@
    } else {
        p + "\tdefault_model="@ + match default_model_of(p) {
            Some(m) => m,
            None => "(none)"@,
        }
    }
}

/// The lines of `providers`: each built-in provider with its default model.
pub fn provider_listing() -> (r: Vec<String>)
    ensures
        arg_texts(r@) == builtin_names().map_values(|p: Seq<char>| provider_line(p)),
{
    let names = crate::provider::builtin_providers();
    let mut lines: Vec<String> = Vec::new();
    let mut i: usize = 0;
    while i < names.len()
        invariant
            i <= names@.len(),
            names@.map_values(|s: &'static str| s@) == builtin_names(),
            arg_texts(lines@) == builtin_names().subrange(0, i as int).map_values(
                |p: Seq<char>| provider_line(p),
            ),
        decreases names.len() - i,
    {
        let p = names[i];
        assert(builtin_names()[i as int] == p@);
        let s = if str_eq(p, "custom") {
            String::from_str("custom\tconfigure with --upstream and --api-key-env")
        } else {
            let mut s = String::from_str(p);
            push_str(&mut s, "\tdefault_model=");
            match default_model(p) {
                Some(m) => push_str(&mut s, m),
                None => push_str(&mut s, "(none)"),
            }
            s
        };
        let ghost before = lines@;
        lines.push(s);
        assert(arg_texts(lines@) =~= arg_texts(before).push(s@));
        assert(builtin_names().subrange(0, i + 1).map_values(|p: Seq<char>| provider_line(p))
            =~= builtin_names().subrange(0, i as int).map_values(|p: Seq<char>| provider_line(p)).push(
            provider_line(p@),
        ));
        i = i + 1;
    }
    assert(builtin_names().subrange(0, i as int) == builtin_names());
    lines
}

/// The answer typed at a prompt: the trimmed line, or nothing when it is blank.
pub fn prompt_answer(line: &str) -> (r: Option<String>)
    ensures
        match r {
            Some(s) => s@ == trim(line@) && s@.len() > 0,
            None => trim(line@).len() == 0,
        },
{
    let value = trim_str(line);
    if value.as_str().unicode_len() == 0 {
        None
    } else {
        Some(value)
    }
}

// ---------------------------------------------------------------------------
// Launching
// ---------------------------------------------------------------------------

/// The approval and sandbox that a launch runs with: `--no-sandbox` turns off
/// both sandbox and approvals, otherwise `--ask` asks on request.
pub open spec fn effective_policy(
    approval: ApprovalPolicy,
    sandbox: SandboxMode,
    ask: bool,
    no_sandbox: bool,
) -> (ApprovalPolicy, SandboxMode) {
    if no_sandbox {
        (ApprovalPolicy::Never, SandboxMode::DangerFullAccess)
    } else if ask {
        (ApprovalPolicy::OnRequest, sandbox)
    } else {
        (approval, sandbox)
    }
}

/// Applies `--no-sandbox` and `--ask` to the approval and sandbox settings.
/// Returns whether `--ask` was ignored because `--no-sandbox` was also given.
pub fn normalize_launch_options(args: &mut LaunchOptions) -> (ask_ignored: bool)
    ensures
        (final(args).approval, final(args).sandbox) == effective_policy(
            old(args).approval,
            old(args).sandbox,
            old(args).ask,
            old(args).no_sandbox,
        ),
        ask_ignored == (old(args).no_sandbox && old(args).ask),
        final(args).model == old(args).model,
        final(args).codex_bin == old(args).codex_bin,
        final(args).relay_bin == old(args).relay_bin,
        final(args).port == old(args).port,
        final(args).relay_url == old(args).relay_url,
        final(args).ask == old(args).ask,
        final(args).no_sandbox == old(args).no_sandbox,
        final(args).no_start_relay == old(args).no_start_relay,
        final(args).print_codex_command == old(args).print_codex_command,
        final(args).context_window == old(args).context_window,
        final(args).codex_args == old(args).codex_args,
{
    if args.no_sandbox {
        args.sandbox = SandboxMode::DangerFullAccess;
        args.approval = ApprovalPolicy::Never;
        args.ask
    } else {
        if args.ask {
            args.approval = ApprovalPolicy::OnRequest;
        }
        false
    }
}

/// Normalizing launch options a second time changes nothing.
pub proof fn lemma_effective_policy_idempotent(
    approval: ApprovalPolicy,
    sandbox: SandboxMode,
    ask: bool,
    no_sandbox: bool,
)
    ensures
        ({
            let (a, s) = effective_policy(approval, sandbox, ask, no_sandbox);
            effective_policy(a, s, ask, no_sandbox) == (a, s)
        }),
{
}

/// `--no-sandbox` always wins: the launch bypasses sandbox and approvals.
pub proof fn lemma_no_sandbox_bypasses(approval: ApprovalPolicy, sandbox: SandboxMode, ask: bool)
    ensures
        effective_policy(approval, sandbox, ask, true) == (
            ApprovalPolicy::Never,
            SandboxMode::DangerFullAccess,
        ),
{
}

/// The remote relay of a launch: the `/v1` base URL of `--relay-url`, if given.
pub fn remote_relay_url(args: &LaunchOptions) -> (r: Result<Option<String>, PalError>)
    ensures
        match args.relay_url {
            None => r matches Ok(None),
            Some(raw) => match relay_base_url(raw@) {
                Ok(url) => r matches Ok(Some(u)) && u@ == url,
                Err(_) => r matches Err(e) && (e is EmptyRelayUrl || e is RelayUrlScheme),
            },
        },
{
    match &args.relay_url {
        None => Ok(None),
        Some(raw) => match normalize_relay_base_url(raw.as_str()) {
            Ok(url) => Ok(Some(url)),
            Err(e) => Err(e),
        },
    }
}

/// The local relay a launch starts or reuses: none for `openai`, with
/// `--no-start-relay`, or with a remote relay.
pub fn launch_relay_request(provider: &ProviderProfile, args: &LaunchOptions) -> (r: Option<RelayRequest>)
    ensures
        r is Some <==> (provider.name@ != "openai"@ && !args.no_start_relay && args.relay_url is None),
        r matches Some(req) ==> req.relay_bin@ == args.relay_bin@ && req.port == args.port
            && req.provider.name@ == provider.name@ && req.provider.upstream@ == provider.upstream@
            && req.provider.api_key_env@ == provider.api_key_env@ && req.provider.api_key
            == provider.api_key,
{
    if provider.needs_relay() && !args.no_start_relay && args.relay_url.is_none() {
        Some(
            RelayRequest {
                relay_bin: args.relay_bin.clone(),
                provider: provider.duplicate(),
                port: args.port,
            },
        )
    } else {
        None
    }
}

/// The line that reports the relay of a launch.
pub open spec fn relay_notice_text(
    state: Option<RelayState>,
    needs_relay: bool,
    port: u16,
    remote: Option<Seq<char>>,
) -> Seq<char> {
    match remote {
        Some(url) if needs_relay => "relay     remote "@ + url,
        _ => match state {
        Some(s) => "relay     "@ + state_text(s),
        None => if needs_relay {
            "relay     not started (--no-start-relay); expecting port "@ + crate::text::decimal(
                port as nat,
            )
        } else {
            "relay     not needed for provider=openai"@
        },
        },
    }
}

/// Reports the relay of a launch: how it was obtained, or why there is none.
pub fn relay_notice(
    state: &Option<RelayState>,
    needs_relay: bool,
    port: u16,
    remote: &Option<String>,
) -> (r: String)
    ensures
        r@ == relay_notice_text(*state, needs_relay, port, opt_text(*remote)),
{
    if let Some(url) = remote {
        if needs_relay {
            let mut r = String::from_str("relay     remote ");
            push_str(&mut r, url.as_str());
            return r;
        }
    }
    match state {
        Some(s) => {
            let mut r = String::from_str("relay     ");
            let d = s.describe();
            push_str(&mut r, d.as_str());
            r
        },
        None => if needs_relay {
            let mut r = String::from_str("relay     not started (--no-start-relay); expecting port ");
            crate::text::push_decimal(&mut r, port as u64);
            r
        } else {
            String::from_str("relay     not needed for provider=openai")
        },
    }
}

/// The Codex launch of normalized options, pointed at the remote relay `remote`
/// when there is one. A model catalog and a remote relay are only used for
/// relay-backed providers.
pub fn codex_launch(
    provider: ProviderProfile,
    args: &LaunchOptions,
    catalog: Option<String>,
    remote: Option<String>,
) -> (r: CodexLaunch)
    ensures
        r.codex_bin@ == args.codex_bin@,
        r.provider == provider,
        r.port == args.port,
        opt_text(r.relay_url) == if provider.name@ != "openai"@ {
            opt_text(remote)
        } else {
            None
        },
        opt_text(r.model) == opt_text(args.model),
        opt_text(r.model_catalog_json) == if provider.name@ != "openai"@ {
            opt_text(catalog)
        } else {
            None
        },
        r.approval == args.approval,
        r.sandbox == args.sandbox,
        r.context_window == args.context_window,
        arg_texts(r.extra_args@) == arg_texts(args.codex_args@),
{
    let relayed = provider.needs_relay();
    let model_catalog_json = if relayed {
        catalog
    } else {
        None
    };
    let relay_url = if relayed {
        remote
    } else {
        None
    };
    CodexLaunch {
        codex_bin: args.codex_bin.clone(),
        provider,
        port: args.port,
        relay_url,
        model: clone_opt(&args.model),
        model_catalog_json,
        approval: args.approval,
        sandbox: args.sandbox,
        context_window: args.context_window,
        extra_args: clone_args(&args.codex_args),
    }
}

// ---------------------------------------------------------------------------
// Shell quoting
// ---------------------------------------------------------------------------

/// Characters that need no quoting in a shell word.
pub open spec fn is_shell_safe(c: char) -> bool {
    ||| crate::text::is_ascii_alphanumeric(c)
    ||| c == '-'
    ||| c == '_'
    ||| c == '.'
    ||| c == '/'
    ||| c == ':'
    ||| c == '='
    ||| c == '+'
}

pub open spec fn all_shell_safe(s: Seq<char>) -> bool {
    forall|i: int| 0 <= i < s.len() ==> #[trigger] is_shell_safe(s[i])
}

/// An argument as a shell word: as it is when every character is safe, else in
/// single quotes with each `'` written as `'\''`.
pub open spec fn shell_word(s: Seq<char>) -> Seq<char> {
    if all_shell_safe(s) {
        s
    } else {
        "'"@ + replace_all(s, "'"@, "'\\''"@) + "'"@
    }
}

/// The arguments as one shell command line.
pub open spec fn shell_line(argv: Seq<Seq<char>>) -> Seq<char> {
    crate::text::join(argv.map_values(|s: Seq<char>| shell_word(s)), " "@)
}

fn shell_safe_char(c: char) -> (r: bool)
    ensures
        r == is_shell_safe(c),
{
    ('0' <= c && c <= '9') || ('a' <= c && c <= 'z') || ('A' <= c && c <= 'Z') || c == '-' || c
        == '_' || c == '.' || c == '/' || c == ':' || c == '=' || c == '+'
}

/// One argument as a shell word.
pub fn shell_quote(arg: &str) -> (r: String)
    ensures
        r@ == shell_word(arg@),
{
    let chars = crate::text::chars_of(arg);
    let mut safe = true;
    let mut i: usize = 0;
    while i < chars.len()
        invariant
            i <= chars@.len(),
            chars@ == arg@,
            safe <==> forall|k: int| 0 <= k < i ==> #[trigger] is_shell_safe(chars@[k]),
        decreases chars.len() - i,
    {
        if !shell_safe_char(chars[i]) {
            safe = false;
        }
        i = i + 1;
    }
    if safe {
        String::from_str(arg)
    } else {
        proof {
            reveal_strlit("'");
        }
        let mut r = String::from_str("'");
        let escaped = replace_str(arg, "'", "'\\''");
        push_str(&mut r, escaped.as_str());
        push_str(&mut r, "'");
        r
    }
}

/// The arguments as one shell command line, for display.
pub fn shell_join(argv: &Vec<String>) -> (r: String)
    ensures
        r@ == shell_line(arg_texts(argv@)),
{
    let ghost words = arg_texts(argv@).map_values(|s: Seq<char>| shell_word(s));
    let mut r = String::new();
    let mut i: usize = 0;
    while i < argv.len()
        invariant
            i <= argv@.len(),
            words == arg_texts(argv@).map_values(|s: Seq<char>| shell_word(s)),
            r@ == crate::text::join(words.subrange(0, i as int), " "@),
        decreases argv.len() - i,
    {
        let w = shell_quote(argv[i].as_str());
        assert(words[i as int] == w@);
        let ghost prev = words.subrange(0, i as int);
        let ghost next = words.subrange(0, i + 1);
        assert(next.drop_last() =~= prev);
        if i > 0 {
            push_str(&mut r, " ");
        }
        push_str(&mut r, w.as_str());
        assert(i == 0 ==> prev =~= Seq::<Seq<char>>::empty());
        i = i + 1;
    }
    assert(words.subrange(0, i as int) =~= words);
    r
}

/// A word of safe characters is shown as it is.
pub proof fn lemma_safe_word_unquoted(s: Seq<char>)
    requires
        all_shell_safe(s),
    ensures
        shell_word(s) == s,
{
}

// ---------------------------------------------------------------------------
// How a POSIX shell reads a command line back
// ---------------------------------------------------------------------------

/// Where a shell reading a line stands: outside quotes, inside single quotes, or
/// just after a backslash.
pub enum QuoteMode {
    Plain,
    Single,
    Escape,
}

/// What a shell has read of a line: the finished words, the word being read,
/// whether a word has begun, and the quoting.
pub struct SplitState {
    pub words: Seq<Seq<char>>,
    pub cur: Seq<char>,
    pub in_word: bool,
    pub mode: QuoteMode,
}

/// Before a word, with `words` read.
pub open spec fn between_words(words: Seq<Seq<char>>) -> SplitState {
    SplitState { words, cur: Seq::empty(), in_word: false, mode: QuoteMode::Plain }
}

/// Inside a word, outside quotes, with `words` read and `cur` read of the word.
pub open spec fn in_word(words: Seq<Seq<char>>, cur: Seq<char>) -> SplitState {
    SplitState { words, cur, in_word: true, mode: QuoteMode::Plain }
}

/// One character read by the shell: spaces end words outside quotes, `'` opens
/// and closes single quotes, `\` takes the next character as it is outside quotes.
pub open spec fn split_step(st: SplitState, c: char) -> SplitState {
    match st.mode {
        QuoteMode::Single => if c == '\'' {
            SplitState { mode: QuoteMode::Plain, ..st }
        } else {
            SplitState { cur: st.cur.push(c), ..st }
        },
        QuoteMode::Escape => SplitState {
            cur: st.cur.push(c),
            in_word: true,
            mode: QuoteMode::Plain,
            ..st
        },
        QuoteMode::Plain => if c == ' ' {
            if st.in_word {
                between_words(st.words.push(st.cur))
            } else {
                st
            }
        } else if c == '\'' {
            SplitState { in_word: true, mode: QuoteMode::Single, ..st }
        } else if c == '\\' {
            SplitState { in_word: true, mode: QuoteMode::Escape, ..st }
        } else {
            SplitState { cur: st.cur.push(c), in_word: true, ..st }
        },
    }
}

/// The state after reading `s` from `st`.
pub open spec fn split_run(s: Seq<char>, st: SplitState) -> SplitState
    decreases s.len(),
{
    if s.len() == 0 {
        st
    } else {
        split_step(split_run(s.drop_last(), st), s.last())
    }
}

/// The words of a line as a POSIX shell splits it, quotes removed (no expansions).
pub open spec fn shell_split(line: Seq<char>) -> Seq<Seq<char>> {
    let st = split_run(line, between_words(Seq::empty()));
    if st.in_word {
        st.words.push(st.cur)
    } else {
        st.words
    }
}

proof fn lemma_split_run_concat(a: Seq<char>, b: Seq<char>, st: SplitState)
    ensures
        split_run(a + b, st) == split_run(b, split_run(a, st)),
    decreases b.len(),
{
    if b.len() == 0 {
        assert(a + b =~= a);
    } else {
        assert((a + b).drop_last() =~= a + b.drop_last());
        assert((a + b).last() == b.last());
        lemma_split_run_concat(a, b.drop_last(), st);
    }
}

proof fn lemma_split_run_push(s: Seq<char>, c: char, st: SplitState)
    ensures
        split_run(s.push(c), st) == split_step(split_run(s, st), c),
{
    assert(s.push(c).drop_last() =~= s);
}

proof fn lemma_split_run_one(c: char, st: SplitState)
    ensures
        split_run(seq![c], st) == split_step(st, c),
{
    assert(seq![c] =~= Seq::<char>::empty().push(c));
    lemma_split_run_push(Seq::empty(), c, st);
}

proof fn lemma_split_safe(s: Seq<char>, words: Seq<Seq<char>>, cur: Seq<char>, started: bool)
    requires
        all_shell_safe(s),
    ensures
        split_run(s, SplitState { words, cur, in_word: started, mode: QuoteMode::Plain })
            == (SplitState { words, cur: cur + s, in_word: started || s.len() > 0, mode: QuoteMode::Plain }),
    decreases s.len(),
{
    let st = SplitState { words, cur, in_word: started, mode: QuoteMode::Plain };
    if s.len() == 0 {
        assert(cur + s =~= cur);
    } else {
        let p = s.drop_last();
        assert forall|i: int| 0 <= i < p.len() implies #[trigger] is_shell_safe(p[i]) by {
            assert(is_shell_safe(s[i]));
        }
        lemma_split_safe(p, words, cur, started);
        assert(is_shell_safe(s[s.len() - 1]));
        assert((cur + p).push(s.last()) =~= cur + s);
    }
}

proof fn lemma_split_quoted(s: Seq<char>, words: Seq<Seq<char>>, cur: Seq<char>)
    ensures
        split_run(
            replace_all(s, "'"@, "'\\''"@),
            SplitState { words, cur, in_word: true, mode: QuoteMode::Single },
        ) == (SplitState { words, cur: cur + s, in_word: true, mode: QuoteMode::Single }),
    decreases s.len(),
{
    reveal_strlit("'");
    reveal_strlit("'\\''");
    let st = SplitState { words, cur, in_word: true, mode: QuoteMode::Single };
    let q = "'"@;
    let rep = "'\\''"@;
    if s.len() == 0 {
        assert(cur + s =~= cur);
    } else if crate::text::starts_with(s, q) {
        assert(s.subrange(0, 1)[0] == s[0]);
        assert(q[0] == '\'');
        assert(s[0] == '\'');
        let rest = s.skip(1);
        let mid = SplitState { words, cur: cur.push('\''), in_word: true, mode: QuoteMode::Single };
        let r1 = seq!['\''];
        let r2 = r1.push('\\');
        let r3 = r2.push('\'');
        assert(rep =~= r3.push('\''));
        lemma_split_run_one('\'', st);
        lemma_split_run_push(r1, '\\', st);
        lemma_split_run_push(r2, '\'', st);
        lemma_split_run_push(r3, '\'', st);
        assert(split_run(rep, st) == mid);
        lemma_split_run_concat(rep, replace_all(rest, q, rep), st);
        lemma_split_quoted(rest, words, cur.push('\''));
        assert(cur.push('\'') + rest =~= cur + s);
    } else {
        assert(s[0] != '\'') by {
            if s[0] == '\'' {
                assert(s.subrange(0, 1) =~= q);
            }
        }
        let rest = s.drop_first();
        let mid = SplitState { words, cur: cur.push(s[0]), in_word: true, mode: QuoteMode::Single };
        lemma_split_run_one(s[0], st);
        assert(split_run(seq![s[0]], st) == mid);
        lemma_split_run_concat(seq![s[0]], replace_all(rest, q, rep), st);
        lemma_split_quoted(rest, words, cur.push(s[0]));
        assert(cur.push(s[0]) + rest =~= cur + s);
    }
}

/// Reading one word from between words leaves the shell inside that word.
proof fn lemma_split_word(s: Seq<char>, words: Seq<Seq<char>>)
    requires
        s.len() > 0,
    ensures
        split_run(shell_word(s), between_words(words)) == in_word(words, s),
{
    reveal_strlit("'");
    let st = between_words(words);
    if all_shell_safe(s) {
        lemma_split_safe(s, words, Seq::empty(), false);
        assert(Seq::<char>::empty() + s =~= s);
    } else {
        let q = "'"@;
        let body = replace_all(s, q, "'\\''"@);
        let opened = SplitState { words, cur: Seq::empty(), in_word: true, mode: QuoteMode::Single };
        let closed = SplitState { words, cur: s, in_word: true, mode: QuoteMode::Single };
        assert(q =~= seq!['\'']);
        lemma_split_run_one('\'', st);
        lemma_split_run_one('\'', closed);
        assert(split_run(q, st) == opened);
        lemma_split_quoted(s, words, Seq::empty());
        assert(Seq::<char>::empty() + s =~= s);
        lemma_split_run_concat(q, body, st);
        lemma_split_run_concat(q + body, q, st);
        assert(split_run(q, closed) == in_word(words, s));
    }
}

proof fn lemma_split_line(argv: Seq<Seq<char>>)
    requires
        argv.len() > 0,
        forall|i: int| 0 <= i < argv.len() ==> (#[trigger] argv[i]).len() > 0,
    ensures
        split_run(shell_line(argv), between_words(Seq::empty())) == in_word(
            argv.drop_last(),
            argv.last(),
        ),
    decreases argv.len(),
{
    let f = |s: Seq<char>| shell_word(s);
    let ws = argv.map_values(f);
    if argv.len() == 1 {
        assert(ws.len() == 1);
        assert(shell_line(argv) == ws[0]);
        lemma_split_word(argv[0], Seq::empty());
        assert(argv.drop_last() =~= Seq::<Seq<char>>::empty());
    } else {
        let p = argv.drop_last();
        assert forall|i: int| 0 <= i < p.len() implies (#[trigger] p[i]).len() > 0 by {
            assert(argv[i].len() > 0);
        }
        lemma_split_line(p);
        assert(ws.drop_last() =~= p.map_values(f));
        assert(shell_line(argv) == shell_line(p) + " "@ + shell_word(argv.last()));
        reveal_strlit(" ");
        assert(" "@ =~= seq![' ']);
        let init = between_words(Seq::empty());
        lemma_split_run_one(' ', in_word(p.drop_last(), p.last()));
        lemma_split_run_concat(shell_line(p), " "@, init);
        lemma_split_run_concat(shell_line(p) + " "@, shell_word(argv.last()), init);
        assert(p.drop_last().push(p.last()) =~= p);
        lemma_split_word(argv.last(), p);
    }
}

/// A command line shown by `shell_join` reads back, in a POSIX shell that only
/// removes quotes, as the arguments it was made from, when no argument is empty.
pub proof fn lemma_shell_line_round_trip(argv: Seq<Seq<char>>)
    requires
        forall|i: int| 0 <= i < argv.len() ==> (#[trigger] argv[i]).len() > 0,
    ensures
        shell_split(shell_line(argv)) == argv,
{
    if argv.len() == 0 {
        assert(shell_line(argv) =~= Seq::<char>::empty());
    } else {
        lemma_split_line(argv);
        assert(argv.drop_last().push(argv.last()) =~= argv);
    }
}

// ---------------------------------------------------------------------------
// What the settings given on the command line become
// ---------------------------------------------------------------------------

/// The flags given after a profile name reach the launch as they were given, and
/// the settings given there win over the profile: so `--ask` without
/// `--no-sandbox` makes Codex ask on request, `--no-sandbox` gives full access
/// without approvals, and a given policy, sandbox, model or port is the one used.
pub proof fn lemma_profile_run_arguments_win(
    profile: ProfileView,
    run: ProfileLaunchOptions,
    out: LaunchOptions,
)
    requires
        options_from_profile(profile, run, out),
    ensures
        out.ask == run.ask,
        out.no_sandbox == run.no_sandbox,
        out.no_start_relay == run.no_start_relay,
        out.print_codex_command == run.print_codex_command,
        run.ask && !run.no_sandbox ==> effective_policy(out.approval, out.sandbox, out.ask, out.no_sandbox).0
            == ApprovalPolicy::OnRequest,
        run.no_sandbox ==> effective_policy(out.approval, out.sandbox, out.ask, out.no_sandbox) == (
            ApprovalPolicy::Never,
            SandboxMode::DangerFullAccess,
        ),
        run.approval matches Some(a) ==> (!run.ask && !run.no_sandbox ==> effective_policy(
            out.approval,
            out.sandbox,
            out.ask,
            out.no_sandbox,
        ).0 == a),
        run.sandbox matches Some(m) ==> (!run.no_sandbox ==> effective_policy(
            out.approval,
            out.sandbox,
            out.ask,
            out.no_sandbox,
        ).1 == m),
        run.model matches Some(m) ==> (out.model matches Some(o) && o@ == m@),
        run.port matches Some(p) ==> out.port == p,
        run.relay_url matches Some(u) ==> (out.relay_url matches Some(o) && o@ == u@),
        run.context_window matches Some(c) ==> out.context_window == c,
{
}

/// A setting given to `<name> config` is what the profile then holds (a policy or
/// sandbox mode written so that it reads back as the one given); a setting not
/// given keeps the profile's value.
pub proof fn lemma_config_settings_are_saved(p: ProfileView, args: ProfileConfigArgs)
    ensures
        ({
            let q = applied(p, args);
            &&& args.provider matches Some(x) ==> q.provider == x@
            &&& args.provider is None ==> q.provider == p.provider
            &&& args.model matches Some(x) ==> q.model == Some(x@)
            &&& args.model is None ==> q.model == p.model
            &&& args.upstream matches Some(x) ==> q.upstream == Some(x@)
            &&& args.upstream is None ==> q.upstream == p.upstream
            &&& args.api_key_env matches Some(x) ==> q.api_key_env == Some(x@)
            &&& args.api_key_env is None ==> q.api_key_env == p.api_key_env
            &&& args.port matches Some(x) ==> q.port == Some(x)
            &&& args.port is None ==> q.port == p.port
            &&& args.relay_url matches Some(x) ==> q.relay_url == Some(x@)
            &&& args.relay_url is None ==> q.relay_url == p.relay_url
            &&& args.codex_bin matches Some(x) ==> q.codex_bin == Some(x@)
            &&& args.codex_bin is None ==> q.codex_bin == p.codex_bin
            &&& args.relay_bin matches Some(x) ==> q.relay_bin == Some(x@)
            &&& args.relay_bin is None ==> q.relay_bin == p.relay_bin
            &&& args.approval matches Some(a) ==> (q.approval matches Some(t) && approval_named(t)
                == Some(a))
            &&& args.approval is None ==> q.approval == p.approval
            &&& args.sandbox matches Some(m) ==> (q.sandbox matches Some(t) && sandbox_named(t)
                == Some(m))
            &&& args.sandbox is None ==> q.sandbox == p.sandbox
            &&& args.context_window matches Some(x) ==> q.context_window == Some(x)
            &&& args.context_window is None ==> q.context_window == p.context_window
            &&& q.codex_args == p.codex_args
        }),
        forall|old: Option<ProfileView>, name: Seq<char>|
            {
                let c = #[trigger] configured(old, name, args);
                &&& args.model matches Some(x) ==> c.model == Some(x@)
                &&& args.port matches Some(x) ==> c.port == Some(x)
                &&& args.sandbox matches Some(m) ==> (c.sandbox matches Some(t) && sandbox_named(t)
                    == Some(m))
                &&& args.approval matches Some(a) ==> (c.approval matches Some(t)
                    && approval_named(t) == Some(a))
                &&& args.provider matches Some(x) ==> c.provider == x@
                &&& args.relay_url matches Some(x) ==> c.relay_url == Some(x@)
            },
{
    if let Some(a) = args.approval {
        lemma_approval_round_trip(a);
    }
    if let Some(m) = args.sandbox {
        lemma_sandbox_round_trip(m);
    }
}

/// The profile recorded on the first launch of a built-in provider's name holds
/// the settings of that launch: the name as provider, the model chosen, and the
/// port, policy, sandbox mode, context window and relay URL given, or their
/// defaults (port 4444, `never`, `workspace-write`, 128000); `--no-sandbox`
/// records full access.
pub proof fn lemma_first_run_records_launch(
    name: Seq<char>,
    run: ProfileLaunchOptions,
    model: Option<Seq<char>>,
)
    ensures
        ({
            let p = first_run_view(name, run, model);
            &&& p.provider == name
            &&& p.model == model
            &&& p.port == Some(
                match run.port {
                    Some(x) => x,
                    None => 4444u16,
                },
            )
            &&& p.approval matches Some(t) && approval_named(t) == Some(
                match run.approval {
                    Some(a) => a,
                    None => ApprovalPolicy::Never,
                },
            )
            &&& p.sandbox matches Some(t) && sandbox_named(t) == Some(
                if run.no_sandbox {
                    SandboxMode::DangerFullAccess
                } else {
                    match run.sandbox {
                        Some(m) => m,
                        None => SandboxMode::WorkspaceWrite,
                    }
                },
            )
            &&& p.context_window == Some(
                match run.context_window {
                    Some(c) => c,
                    None => 128_000u32,
                },
            )
            &&& run.relay_url matches Some(u) ==> p.relay_url == Some(u@)
        }),
{
    lemma_approval_round_trip(
        match run.approval {
            Some(a) => a,
            None => ApprovalPolicy::Never,
        },
    );
    lemma_sandbox_round_trip(
        if run.no_sandbox {
            SandboxMode::DangerFullAccess
        } else {
            match run.sandbox {
                Some(m) => m,
                None => SandboxMode::WorkspaceWrite,
            }
        },
    );
}

} // verus!
