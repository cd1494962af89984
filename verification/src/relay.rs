//! The local `codex-relay` sidecar: what is recorded about a managed relay, when a
//! running relay may be reused, and how its process is started and stopped.
use vstd::prelude::*;

use crate::codex::{pair_texts, texts};
use crate::error::PalError;
use crate::provider::ProviderProfile;
use crate::text::{
    decimal, decimal_string, ends_with, has_prefix, has_suffix, is_space, parse_u32,
    parse_u32_str, push_decimal, push_str, starts_with, str_eq, trim, trim_end_char, trim_str,
};

verus! {

/// A relay that a launch needs: which executable, which provider, which port.
#[derive(Debug, Clone)]
pub struct RelayRequest {
    pub relay_bin: String,
    pub provider: ProviderProfile,
    pub port: u16,
}

/// What is recorded on disk about a managed relay.
#[derive(Debug, Clone, PartialEq, Eq)]
pub struct RelayMetadata {
    pub pid: Option<u32>,
    pub port: u16,
    pub upstream: String,
    pub api_key_env: String,
}

/// The metadata serves `request`: same port, upstream and API key variable.
/// The provider's name is not compared, so aliases share a relay.
pub open spec fn serves(m: RelayMetadata, request: RelayRequest) -> bool {
    &&& m.port == request.port
    &&& m.upstream@ == request.provider.upstream@
    &&& m.api_key_env@ == request.provider.api_key_env@
}

impl RelayMetadata {
    /// The record of a relay started for `request`, with its PID if known.
    pub fn new(pid: Option<u32>, request: &RelayRequest) -> (r: RelayMetadata)
        ensures
            r.pid == pid,
            r.port == request.port,
            r.upstream@ == request.provider.upstream@,
            r.api_key_env@ == request.provider.api_key_env@,
    {
        RelayMetadata {
            pid,
            port: request.port,
            upstream: request.provider.upstream.clone(),
            api_key_env: request.provider.api_key_env.clone(),
        }
    }

    /// Whether the recorded relay can serve `request`.
    pub fn matches(&self, request: &RelayRequest) -> (r: bool)
        ensures
            r == serves(*self, *request),
    {
        self.port == request.port && str_eq(
            self.upstream.as_str(),
            request.provider.upstream.as_str(),
        ) && str_eq(self.api_key_env.as_str(), request.provider.api_key_env.as_str())
    }
}

/// A relay freshly recorded for a request serves that request.
pub proof fn lemma_new_metadata_serves(m: RelayMetadata, request: RelayRequest)
    requires
        m.port == request.port,
        m.upstream@ == request.provider.upstream@,
        m.api_key_env@ == request.provider.api_key_env@,
    ensures
        serves(m, request),
{
}

/// How a launch came to have its relay.
#[allow(inconsistent_fields)]
#[derive(Debug, Clone, Copy, PartialEq, Eq, Structural)]
pub enum RelayState {
    Started { pid: u32, port: u16 },
    AlreadyRunning { pid: Option<u32>, port: u16 },
}

pub open spec fn state_text(s: RelayState) -> Seq<char> {
    match s {
        RelayState::Started { pid, port } => "started (pid="@ + decimal(pid as nat) + ", port="@
            + decimal(port as nat) + ")"@,
        RelayState::AlreadyRunning { pid: Some(pid), port } => "already running (pid="@ + decimal(
            pid as nat,
        ) + ", port="@ + decimal(port as nat) + ")"@,
        RelayState::AlreadyRunning { pid: None, port } => "already running (external, port="@
            + decimal(port as nat) + ")"@,
    }
}

impl RelayState {
    /// The state as shown to the user.
    pub fn describe(&self) -> (r: String)
        ensures
            r@ == state_text(*self),
    {
        match self {
            RelayState::Started { pid, port } => {
                let mut r = String::from_str("started (pid=");
                push_decimal(&mut r, *pid as u64);
                push_str(&mut r, ", port=");
                push_decimal(&mut r, *port as u64);
                push_str(&mut r, ")");
                r
            },
            RelayState::AlreadyRunning { pid: Some(pid), port } => {
                let mut r = String::from_str("already running (pid=");
                push_decimal(&mut r, *pid as u64);
                push_str(&mut r, ", port=");
                push_decimal(&mut r, *port as u64);
                push_str(&mut r, ")");
                r
            },
            RelayState::AlreadyRunning { pid: None, port } => {
                let mut r = String::from_str("already running (external, port=");
                push_decimal(&mut r, *port as u64);
                push_str(&mut r, ")");
                r
            },
        }
    }
}

/// What to do about the relay a launch asked for.
#[derive(Debug, Clone, Copy, PartialEq, Eq, Structural)]
pub enum RelayStartup {
    /// A relay already listens on the port; use it.
    Reuse(RelayState),
    /// Start a relay, after removing a PID file left by a dead one if told so.
    Start { remove_stale_pid_file: bool },
}

/// The decision of `ensure_relay`, from what was found on disk and on the port.
pub open spec fn startup_decision(
    request: RelayRequest,
    existing_pid: Option<u32>,
    existing_metadata: Option<RelayMetadata>,
    port_in_use: bool,
) -> Result<RelayStartup, PalError> {
    match existing_metadata {
        Some(m) if m.pid is Some && m.pid != existing_pid => Err(
            PalError::RelayStateInconsistent { port: request.port },
        ),
        Some(m) if !serves(m, request) => Err(
            PalError::RelayConfigMismatch {
                port: request.port,
                existing_upstream: m.upstream,
                existing_api_key_env: m.api_key_env,
                upstream: request.provider.upstream,
                api_key_env: request.provider.api_key_env,
            },
        ),
        _ => if port_in_use {
            Ok(
                RelayStartup::Reuse(
                    RelayState::AlreadyRunning {
                        pid: match existing_metadata {
                            Some(m) if m.pid is Some => m.pid,
                            _ => existing_pid,
                        },
                        port: request.port,
                    },
                ),
            )
        } else if existing_metadata is Some {
            Err(PalError::StaleReservation { port: request.port })
        } else {
            Ok(RelayStartup::Start { remove_stale_pid_file: existing_pid is Some })
        },
    }
}

/// Two errors are reported the same way: same variant, same port, and the same
/// strings by their characters.
pub open spec fn same_error(a: PalError, b: PalError) -> bool {
    match (a, b) {
        (PalError::RelayStateInconsistent { port: p }, PalError::RelayStateInconsistent {
            port: q,
        }) => p == q,
        (
            PalError::RelayConfigMismatch {
                port: p,
                existing_upstream: u1,
                existing_api_key_env: k1,
                upstream: u2,
                api_key_env: k2,
            },
            PalError::RelayConfigMismatch {
                port: q,
                existing_upstream: v1,
                existing_api_key_env: l1,
                upstream: v2,
                api_key_env: l2,
            },
        ) => p == q && u1@ == v1@ && k1@ == l1@ && u2@ == v2@ && k2@ == l2@,
        (PalError::StaleReservation { port: p }, PalError::StaleReservation { port: q }) => p
            == q,
        _ => false,
    }
}

pub open spec fn same_outcome(
    a: Result<RelayStartup, PalError>,
    b: Result<RelayStartup, PalError>,
) -> bool {
    match (a, b) {
        (Ok(x), Ok(y)) => x == y,
        (Err(x), Err(y)) => same_error(x, y),
        _ => false,
    }
}

/// Decides, under the port's lock, whether a running relay is reused, a new one is
/// started, or the launch is refused because the recorded state is inconsistent,
/// configured for another upstream, or a stale reservation.
pub fn relay_startup(
    request: &RelayRequest,
    existing_pid: Option<u32>,
    existing_metadata: &Option<RelayMetadata>,
    port_in_use: bool,
) -> (r: Result<RelayStartup, PalError>)
    ensures
        same_outcome(r, startup_decision(*request, existing_pid, *existing_metadata, port_in_use)),
{
    if let Some(metadata) = existing_metadata {
        if let Some(metadata_pid) = metadata.pid {
            if existing_pid != Some(metadata_pid) {
                return Err(PalError::RelayStateInconsistent { port: request.port });
            }
        }
        if !metadata.matches(request) {
            return Err(
                PalError::RelayConfigMismatch {
                    port: request.port,
                    existing_upstream: metadata.upstream.clone(),
                    existing_api_key_env: metadata.api_key_env.clone(),
                    upstream: request.provider.upstream.clone(),
                    api_key_env: request.provider.api_key_env.clone(),
                },
            );
        }
    }
    if port_in_use {
        let pid = match existing_metadata {
            Some(m) if m.pid.is_some() => m.pid,
            _ => existing_pid,
        };
        return Ok(RelayStartup::Reuse(RelayState::AlreadyRunning { pid, port: request.port }));
    }
    if existing_metadata.is_some() {
        return Err(PalError::StaleReservation { port: request.port });
    }
    Ok(RelayStartup::Start { remove_stale_pid_file: existing_pid.is_some() })
}

/// Arguments and extra environment of a child process.
#[derive(Debug)]
pub struct ChildCommand {
    pub args: Vec<String>,
    pub env: Vec<(String, String)>,
}

/// The API key handed to a relay under its own variable and the two generic ones.
pub open spec fn relay_key_env(api_key_env: Seq<char>, api_key: Option<String>) -> Seq<
    (Seq<char>, Seq<char>),
> {
    match api_key {
        Some(k) => seq![
            (api_key_env, k@),
            ("OPENAI_API_KEY"@, k@),
            ("CODEX_RELAY_API_KEY"@, k@),
        ],
        None => Seq::empty(),
    }
}

fn push_key_env(env: &mut Vec<(String, String)>, api_key_env: &String, api_key: Option<String>)
    ensures
        pair_texts(final(env)@) == pair_texts(old(env)@) + relay_key_env(api_key_env@, api_key),
{
    let ghost e0 = pair_texts(env@);
    let ghost key = api_key;
    if let Some(k) = api_key {
        env.push((api_key_env.clone(), k.clone()));
        env.push((String::from_str("OPENAI_API_KEY"), k.clone()));
        env.push((String::from_str("CODEX_RELAY_API_KEY"), k));
    }
    assert(pair_texts(env@) =~= e0 + relay_key_env(api_key_env@, key));
}

/// How the relay for `request` is started: `--port` and `--upstream`, the same two
/// settings in the environment, and the API key when one is known.
pub fn relay_spawn_command(request: &RelayRequest, api_key: Option<String>) -> (r: ChildCommand)
    ensures
        texts(r.args@) == seq![
            "--port"@,
            decimal(request.port as nat),
            "--upstream"@,
            request.provider.upstream@,
        ],
        pair_texts(r.env@) == seq![
            ("CODEX_RELAY_PORT"@, decimal(request.port as nat)),
            ("CODEX_RELAY_UPSTREAM"@, request.provider.upstream@),
        ] + relay_key_env(request.provider.api_key_env@, api_key),
{
    let port = decimal_string(request.port as u64);
    let args = vec![
        String::from_str("--port"),
        port.clone(),
        String::from_str("--upstream"),
        request.provider.upstream.clone(),
    ];
    let mut env = vec![
        (String::from_str("CODEX_RELAY_PORT"), port),
        (String::from_str("CODEX_RELAY_UPSTREAM"), request.provider.upstream.clone()),
    ];
    assert(texts(args@) =~= seq![
        "--port"@,
        decimal(request.port as nat),
        "--upstream"@,
        request.provider.upstream@,
    ]);
    assert(pair_texts(env@) =~= seq![
        ("CODEX_RELAY_PORT"@, decimal(request.port as nat)),
        ("CODEX_RELAY_UPSTREAM"@, request.provider.upstream@),
    ]);
    push_key_env(&mut env, &request.provider.api_key_env, api_key);
    ChildCommand { args, env }
}

/// How `codex-relay --print-config` is run for a provider.
pub fn relay_print_config_command(provider: &ProviderProfile, api_key: Option<String>) -> (r:
    ChildCommand)
    ensures
        texts(r.args@) == seq!["--print-config"@, "--upstream"@, provider.upstream@],
        pair_texts(r.env@) == seq![("CODEX_RELAY_UPSTREAM"@, provider.upstream@)] + relay_key_env(
            provider.api_key_env@,
            api_key,
        ),
{
    let args = vec![
        String::from_str("--print-config"),
        String::from_str("--upstream"),
        provider.upstream.clone(),
    ];
    let mut env = vec![(String::from_str("CODEX_RELAY_UPSTREAM"), provider.upstream.clone())];
    assert(texts(args@) =~= seq!["--print-config"@, "--upstream"@, provider.upstream@]);
    assert(pair_texts(env@) =~= seq![("CODEX_RELAY_UPSTREAM"@, provider.upstream@)]);
    push_key_env(&mut env, &provider.api_key_env, api_key);
    ChildCommand { args, env }
}

pub open spec fn status_text(port: u16, running: bool, pid: Option<u32>) -> Seq<char> {
    match (running, pid) {
        (true, Some(p)) => "running managed pid="@ + decimal(p as nat) + " port="@ + decimal(
            port as nat,
        ),
        (true, None) => "running external port="@ + decimal(port as nat),
        (false, Some(p)) => "stale pid="@ + decimal(p as nat) + " port="@ + decimal(port as nat),
        (false, None) => "not running port="@ + decimal(port as nat),
    }
}

/// The status line of the relay on `port`, given whether the port answers and
/// the PID recorded for it.
pub fn relay_status(port: u16, running: bool, pid: Option<u32>) -> (r: String)
    ensures
        r@ == status_text(port, running, pid),
{
    let mut r = match (running, pid) {
        (true, Some(p)) => {
            let mut s = String::from_str("running managed pid=");
            push_decimal(&mut s, p as u64);
            push_str(&mut s, " port=");
            s
        },
        (true, None) => String::from_str("running external port="),
        (false, Some(p)) => {
            let mut s = String::from_str("stale pid=");
            push_decimal(&mut s, p as u64);
            push_str(&mut s, " port=");
            s
        },
        (false, None) => String::from_str("not running port="),
    };
    push_decimal(&mut r, port as u64);
    r
}

/// What stopping the relay on a port does.
#[derive(Debug, Clone, Copy, PartialEq, Eq, Structural)]
pub enum StopAction {
    /// No PID is recorded: clear leftover metadata and report the relay as not running.
    ClearState,
    /// Terminate the recorded process.
    Terminate { pid: u32 },
}

/// Decides how to stop the relay on `port`. Without a recorded PID the state is
/// cleared, unless the port is busy and metadata says a managed relay owns it.
pub fn stop_action(port: u16, pid: Option<u32>, port_in_use: bool, has_metadata: bool) -> (r:
    Result<StopAction, PalError>)
    ensures
        match pid {
            Some(p) => r == Ok::<StopAction, PalError>(StopAction::Terminate { pid: p }),
            None => if port_in_use && has_metadata {
                r matches Err(PalError::ManagedStateWithoutPid { port: q }) && q == port
            } else {
                r == Ok::<StopAction, PalError>(StopAction::ClearState)
            },
        },
{
    match pid {
        Some(p) => Ok(StopAction::Terminate { pid: p }),
        None => if port_in_use && has_metadata {
            Err(PalError::ManagedStateWithoutPid { port })
        } else {
            Ok(StopAction::ClearState)
        },
    }
}

/// The report after stopping: `released` says whether the port was freed in time.
pub fn stop_report(port: u16, action: StopAction, released: bool) -> (r: Result<String, PalError>)
    ensures
        match action {
            StopAction::ClearState => r matches Ok(s) && s@ == "not running port="@ + decimal(
                port as nat,
            ),
            StopAction::Terminate { pid } => if released {
                r matches Ok(s) && s@ == "stopped pid="@ + decimal(pid as nat) + " port="@
                    + decimal(port as nat)
            } else {
                r matches Err(PalError::PortNotReleased { pid: p, port: q }) && p == pid && q
                    == port
            },
        },
{
    match action {
        StopAction::ClearState => {
            let mut s = String::from_str("not running port=");
            push_decimal(&mut s, port as u64);
            Ok(s)
        },
        StopAction::Terminate { pid } => {
            if released {
                let mut s = String::from_str("stopped pid=");
                push_decimal(&mut s, pid as u64);
                push_str(&mut s, " port=");
                push_decimal(&mut s, port as u64);
                Ok(s)
            } else {
                Err(PalError::PortNotReleased { pid, port })
            }
        },
    }
}

/// `codex-relay-<port><extension>`.
fn relay_file(port: u16, extension: &str) -> (r: String)
    ensures
        r@ == "codex-relay-"@ + decimal(port as nat) + extension@,
{
    let mut r = String::from_str("codex-relay-");
    push_decimal(&mut r, port as u64);
    push_str(&mut r, extension);
    r
}

/// The name of the PID file of the relay on `port`.
pub fn pid_file(port: u16) -> (r: String)
    ensures
        r@ == "codex-relay-"@ + decimal(port as nat) + ".pid"@,
{
    relay_file(port, ".pid")
}

/// The name of the log file of the relay on `port`.
pub fn log_file(port: u16) -> (r: String)
    ensures
        r@ == "codex-relay-"@ + decimal(port as nat) + ".log"@,
{
    relay_file(port, ".log")
}

/// The name of the metadata file of the relay on `port`.
pub fn metadata_file(port: u16) -> (r: String)
    ensures
        r@ == "codex-relay-"@ + decimal(port as nat) + ".json"@,
{
    relay_file(port, ".json")
}

/// The name of the lock file that serializes work on `port`.
pub fn lock_file(port: u16) -> (r: String)
    ensures
        r@ == "codex-relay-"@ + decimal(port as nat) + ".lock"@,
{
    relay_file(port, ".lock")
}

/// What a PID file holds for `pid`.
pub fn pid_contents(pid: u32) -> (r: String)
    ensures
        r@ == decimal(pid as nat),
{
    decimal_string(pid as u64)
}

/// The PID held by a PID file's contents: the trimmed text read as a `u32`.
pub fn read_pid(contents: &str) -> (r: Option<u32>)
    ensures
        r == parse_u32(trim(contents@)),
{
    let t = trim_str(contents);
    parse_u32_str(t.as_str())
}

/// A PID written to a PID file is read back unchanged.
pub proof fn lemma_pid_round_trip(pid: u32)
    ensures
        parse_u32(trim(decimal(pid as nat))) == Some(pid),
{
    crate::text::lemma_parse_decimal(pid);
}

/// The file name of an executable next to another, with the platform's suffix.
pub fn executable_name(relay_bin: &str, exe_suffix: &str) -> (r: String)
    ensures
        r@ == if exe_suffix@.len() == 0 || ends_with(relay_bin@, exe_suffix@) {
            relay_bin@
        } else {
            relay_bin@ + exe_suffix@
        },
{
    if exe_suffix.unicode_len() == 0 || has_suffix(relay_bin, exe_suffix) {
        String::from_str(relay_bin)
    } else {
        let mut r = String::from_str(relay_bin);
        push_str(&mut r, exe_suffix);
        r
    }
}

/// What `normalize_relay_base_url` returns.
pub open spec fn relay_base_url(raw: Seq<char>) -> Result<Seq<char>, ()> {
    let value = trim_end_char(trim(raw), '/');
    if value.len() == 0 {
        Err(())
    } else if !(starts_with(value, "http://"@) || starts_with(value, "https://"@)) {
        Err(())
    } else if ends_with(value, "/v1"@) {
        Ok(value)
    } else {
        Ok(value + "/v1"@)
    }
}

/// Turns a relay URL, with or without its `/v1` suffix and trailing slashes, into
/// the relay's `/v1` base URL.
pub fn normalize_relay_base_url(raw: &str) -> (r: Result<String, PalError>)
    ensures
        match relay_base_url(raw@) {
            Ok(url) => r matches Ok(s) && s@ == url,
            Err(_) => r is Err,
        },
        r matches Err(e) ==> (trim_end_char(trim(raw@), '/').len() == 0 <==> e is EmptyRelayUrl),
        r matches Err(e) ==> (e is EmptyRelayUrl || e is RelayUrlScheme),
{
    let trimmed = trim_str(raw);
    let value = trim_end_slashes(trimmed.as_str());
    if value.unicode_len() == 0 {
        return Err(PalError::EmptyRelayUrl);
    }
    if !(has_prefix(value.as_str(), "http://") || has_prefix(value.as_str(), "https://")) {
        return Err(PalError::RelayUrlScheme);
    }
    if has_suffix(value.as_str(), "/v1") {
        Ok(value)
    } else {
        let mut r = value;
        push_str(&mut r, "/v1");
        Ok(r)
    }
}

/// `s` without trailing `/` characters, as `str::trim_end_matches('/')` gives it.
fn trim_end_slashes(s: &str) -> (r: String)
    ensures
        r@ == trim_end_char(s@, '/'),
{
    let v = crate::text::chars_of(s);
    let mut j = v.len();
    assert(v@.subrange(0, j as int) == v@);
    loop
        invariant
            j <= v@.len(),
            v@ == s@,
            trim_end_char(s@, '/') == trim_end_char(v@.subrange(0, j as int), '/'),
        ensures
            j <= v@.len(),
            trim_end_char(s@, '/') == trim_end_char(v@.subrange(0, j as int), '/'),
            j == 0 || v@[j - 1] != '/',
        decreases j,
    {
        if j == 0 || v[j - 1] != '/' {
            break;
        }
        assert(v@.subrange(0, j as int).drop_last() == v@.subrange(0, j - 1));
        j = j - 1;
    }
    assert(j > 0 ==> v@.subrange(0, j as int).last() == v@[j - 1]);
    let mut r = String::new();
    crate::text::push_chars(&mut r, &v, 0, j);
    r
}

proof fn lemma_trim_plain_ends(s: Seq<char>)
    requires
        s.len() > 0,
        !is_space(s[0]),
        !is_space(s.last()),
    ensures
        trim(s) == s,
{
}

/// Normalizing a normalized relay URL changes nothing.
pub proof fn lemma_relay_base_url_idempotent(raw: Seq<char>)
    requires
        relay_base_url(raw) is Ok,
    ensures
        relay_base_url(relay_base_url(raw)->Ok_0) == relay_base_url(raw),
        ends_with(relay_base_url(raw)->Ok_0, "/v1"@),
        starts_with(relay_base_url(raw)->Ok_0, "http://"@) || starts_with(
            relay_base_url(raw)->Ok_0,
            "https://"@,
        ),
{
    reveal_strlit("http://");
    reveal_strlit("https://");
    reveal_strlit("/v1");
    let value = trim_end_char(trim(raw), '/');
    let url = relay_base_url(raw)->Ok_0;
    assert(value[0] == 'h') by {
        if starts_with(value, "http://"@) {
            assert(value.subrange(0, 7)[0] == value[0]);
        } else {
            assert(value.subrange(0, 8)[0] == value[0]);
        }
    }
    assert(url[0] == 'h');
    assert(url.last() == '1') by {
        if !ends_with(value, "/v1"@) {
            assert(url == value + "/v1"@);
            assert(url.last() == ("/v1"@).last());
        } else {
            assert(value.subrange(value.len() - 3, value.len() as int)[2] == value.last());
        }
    }
    lemma_trim_plain_ends(url);
    assert(trim_end_char(url, '/') == url);
    assert(starts_with(url, "http://"@) || starts_with(url, "https://"@)) by {
        if starts_with(value, "http://"@) {
            assert(url.subrange(0, 7) =~= value.subrange(0, 7));
        } else {
            assert(url.subrange(0, 8) =~= value.subrange(0, 8));
        }
    }
    assert(ends_with(url, "/v1"@)) by {
        if !ends_with(value, "/v1"@) {
            assert(url.subrange(url.len() - 3, url.len() as int) =~= "/v1"@);
        }
    }
}

/// A relay recorded for another port, upstream or API key variable is neither
/// reused nor replaced: the launch is refused.
pub proof fn lemma_foreign_relay_refused(
    request: RelayRequest,
    existing_pid: Option<u32>,
    recorded: RelayMetadata,
    port_in_use: bool,
)
    requires
        !serves(recorded, request),
    ensures
        startup_decision(request, existing_pid, Some(recorded), port_in_use) is Err,
{
}

/// Whenever a launch may go ahead while relay metadata is recorded, that metadata
/// serves the launch's request.
pub proof fn lemma_proceeding_relay_serves(
    request: RelayRequest,
    existing_pid: Option<u32>,
    recorded: RelayMetadata,
    port_in_use: bool,
)
    requires
        startup_decision(request, existing_pid, Some(recorded), port_in_use) is Ok,
    ensures
        serves(recorded, request),
        startup_decision(request, existing_pid, Some(recorded), port_in_use)
            == Ok::<RelayStartup, PalError>(
            RelayStartup::Reuse(
                RelayState::AlreadyRunning {
                    pid: if recorded.pid is Some {
                        recorded.pid
                    } else {
                        existing_pid
                    },
                    port: request.port,
                },
            ),
        ),
{
}

/// Profiles that differ only in the provider's name (aliases such as `z` and
/// `zai`) are served by the same relay.
pub proof fn lemma_aliases_share_relay(m: RelayMetadata, a: RelayRequest, b: RelayRequest)
    requires
        serves(m, a),
        a.port == b.port,
        a.provider.upstream@ == b.provider.upstream@,
        a.provider.api_key_env@ == b.provider.api_key_env@,
    ensures
        serves(m, b),
{
}

} // verus!
