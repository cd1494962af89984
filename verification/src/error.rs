//! The library's error type and the text that each error is reported with.
use vstd::prelude::*;

use crate::text::{
    debug_quoted, debug_str, decimal, is_plain, plain_quoted, push_decimal, push_str,
};

verus! {

/// Why an operation of the library was refused.
#[derive(Debug)]
pub enum PalError {
    /// The provider name is not one of the built-in providers.
    UnknownProvider { provider: String },
    /// A profile command was given without a profile name.
    MissingProfileName,
    /// `help` was given where a profile name belongs.
    HelpRequested,
    /// No saved profile has this name.
    ProfileNotFound { name: String },
    /// No saved profile has this name and it is not a built-in provider either.
    ProfileNotConfigured { name: String },
    /// First-time setup of a profile needs a model and none was given.
    ModelRequired,
    /// The Codex executable could not be found.
    CodexNotFound { codex_bin: String },
    /// The value is not an approval policy.
    UnknownApprovalPolicy { value: String },
    /// The value is not a sandbox mode.
    UnknownSandboxMode { value: String },
    /// The recorded relay PID disagrees with the PID file.
    RelayStateInconsistent { port: u16 },
    /// A relay on the port was started for another upstream or key variable.
    RelayConfigMismatch {
        port: u16,
        existing_upstream: String,
        existing_api_key_env: String,
        upstream: String,
        api_key_env: String,
    },
    /// Relay state exists on disk but nothing listens on the port.
    StaleReservation { port: u16 },
    /// The port is busy with a managed relay whose PID is unknown.
    ManagedStateWithoutPid { port: u16 },
    /// A stopped relay kept its port open.
    PortNotReleased { pid: u32, port: u16 },
    /// The relay URL is empty.
    EmptyRelayUrl,
    /// The relay URL is neither `http://` nor `https://`.
    RelayUrlScheme,
    /// Codex's bundled model catalog is not JSON.
    ModelCatalogUnreadable,
    /// Codex's bundled model catalog lists no models.
    NoBundledModels,
    /// The first model of Codex's bundled catalog is not a JSON object.
    ModelTemplateNotObject,
}

pub open spec fn dec16(n: u16) -> Seq<char> {
    decimal(n as nat)
}

/// The fields of an error that its message shows in `{:?}` form, in order.
pub open spec fn quoted_fields(e: PalError) -> Seq<Seq<char>> {
    match e {
        PalError::UnknownProvider { provider } => seq![provider@],
        PalError::ProfileNotFound { name } => seq![name@],
        PalError::ProfileNotConfigured { name } => seq![name@],
        PalError::CodexNotFound { codex_bin } => seq![codex_bin@],
        PalError::UnknownApprovalPolicy { value } => seq![value@],
        PalError::UnknownSandboxMode { value } => seq![value@],
        PalError::RelayConfigMismatch {
            existing_upstream,
            existing_api_key_env,
            upstream,
            api_key_env,
            ..
        } => seq![existing_upstream@, existing_api_key_env@, upstream@, api_key_env@],
        _ => Seq::empty(),
    }
}

/// The text of an error, with `q[i]` standing for the `{:?}` form of its i-th quoted field.
pub open spec fn error_text_with(e: PalError, q: Seq<Seq<char>>) -> Seq<char> {
    match e {
        PalError::UnknownProvider { .. } => "unknown provider "@ + q[0]
            + "; use --upstream/--api-key-env with --provider custom"@,
        PalError::MissingProfileName => "missing profile name"@,
        PalError::HelpRequested => "use `codex-pal --help` for help"@,
        PalError::ProfileNotFound { .. } => "profile "@ + q[0] + " not found"@,
        PalError::ProfileNotConfigured { name } => "profile "@ + q[0]
            + " not found; configure it with `codex-pal "@ + name@ + " config ...`"@,
        PalError::ModelRequired => "model is required for first-time profile setup"@,
        PalError::CodexNotFound { .. } => "codex binary "@ + q[0]
            + " not found in PATH; install Codex or set --codex-bin"@,
        PalError::UnknownApprovalPolicy { .. } => "unknown approval policy "@ + q[0],
        PalError::UnknownSandboxMode { .. } => "unknown sandbox mode "@ + q[0],
        PalError::RelayStateInconsistent { port } => "relay state for port "@ + dec16(port)
            + " is inconsistent; stop the existing relay and retry"@,
        PalError::RelayConfigMismatch { port, .. } => "relay on port "@ + dec16(port)
            + " is configured for upstream "@ + q[0] + " with API key environment variable "@
            + q[1] + ", not upstream "@ + q[2] + " with "@ + q[3]
            + "; use a different --port or stop the existing relay"@,
        PalError::StaleReservation { port } => "relay on port "@ + dec16(port)
            + " has an incomplete or stale startup reservation; run `codex-pal relay stop --port "@
            + dec16(port) + "` and retry"@,
        PalError::ManagedStateWithoutPid { port } => "relay on port "@ + dec16(port)
            + " has managed configuration state but no PID; refusing to clear it while the port is active"@,
        PalError::PortNotReleased { pid, port } => "relay pid="@ + decimal(pid as nat)
            + " did not release port "@ + dec16(port) + " within 10s; preserving relay state"@,
        PalError::EmptyRelayUrl => "relay URL must not be empty"@,
        PalError::RelayUrlScheme => "relay URL must start with http:// or https://"@,
        PalError::ModelCatalogUnreadable => "parsing bundled Codex model catalog JSON"@,
        PalError::NoBundledModels => "bundled Codex model catalog did not contain any models"@,
        PalError::ModelTemplateNotObject => "bundled Codex model template was not a JSON object"@,
    }
}

/// The text of an error.
pub open spec fn error_text(e: PalError) -> Seq<char> {
    error_text_with(e, quoted_fields(e).map_values(|f: Seq<char>| debug_quoted(f)))
}

pub open spec fn string_texts(v: Seq<String>) -> Seq<Seq<char>> {
    v.map_values(|s: String| s@)
}

impl PalError {
    /// The fields that the message shows in `{:?}` form, in order.
    pub fn quoted_fields(&self) -> (r: Vec<&str>)
        ensures
            r@.map_values(|s: &str| s@) == quoted_fields(*self),
    {
        let r: Vec<&str> = match self {
            PalError::UnknownProvider { provider } => vec![provider.as_str()],
            PalError::ProfileNotFound { name } => vec![name.as_str()],
            PalError::ProfileNotConfigured { name } => vec![name.as_str()],
            PalError::CodexNotFound { codex_bin } => vec![codex_bin.as_str()],
            PalError::UnknownApprovalPolicy { value } => vec![value.as_str()],
            PalError::UnknownSandboxMode { value } => vec![value.as_str()],
            PalError::RelayConfigMismatch {
                existing_upstream,
                existing_api_key_env,
                upstream,
                api_key_env,
                ..
            } => vec![
                existing_upstream.as_str(),
                existing_api_key_env.as_str(),
                upstream.as_str(),
                api_key_env.as_str(),
            ],
            _ => Vec::new(),
        };
        assert(r@.map_values(|s: &str| s@) =~= quoted_fields(*self));
        r
    }

    /// The message of the error, given the `{:?}` forms of its quoted fields.
    pub fn render(&self, quoted: &Vec<String>) -> (r: String)
        requires
            quoted@.len() == quoted_fields(*self).len(),
        ensures
            r@ == error_text_with(*self, string_texts(quoted@)),
    {
        let ghost q = string_texts(quoted@);
        assert(forall|i: int| 0 <= i < quoted@.len() ==> #[trigger] q[i] == quoted@[i]@);
        match self {
            PalError::UnknownProvider { .. } => {
                let mut r = String::from_str("unknown provider ");
                push_str(&mut r, quoted[0].as_str());
                push_str(&mut r, "; use --upstream/--api-key-env with --provider custom");
                r
            },
            PalError::MissingProfileName => String::from_str("missing profile name"),
            PalError::HelpRequested => String::from_str("use `codex-pal --help` for help"),
            PalError::ProfileNotFound { .. } => {
                let mut r = String::from_str("profile ");
                push_str(&mut r, quoted[0].as_str());
                push_str(&mut r, " not found");
                r
            },
            PalError::ProfileNotConfigured { name } => {
                let mut r = String::from_str("profile ");
                push_str(&mut r, quoted[0].as_str());
                push_str(&mut r, " not found; configure it with `codex-pal ");
                push_str(&mut r, name.as_str());
                push_str(&mut r, " config ...`");
                r
            },
            PalError::ModelRequired => String::from_str(
                "model is required for first-time profile setup",
            ),
            PalError::CodexNotFound { .. } => {
                let mut r = String::from_str("codex binary ");
                push_str(&mut r, quoted[0].as_str());
                push_str(&mut r, " not found in PATH; install Codex or set --codex-bin");
                r
            },
            PalError::UnknownApprovalPolicy { .. } => {
                let mut r = String::from_str("unknown approval policy ");
                push_str(&mut r, quoted[0].as_str());
                r
            },
            PalError::UnknownSandboxMode { .. } => {
                let mut r = String::from_str("unknown sandbox mode ");
                push_str(&mut r, quoted[0].as_str());
                r
            },
            PalError::RelayStateInconsistent { port } => {
                let mut r = String::from_str("relay state for port ");
                push_decimal(&mut r, *port as u64);
                push_str(&mut r, " is inconsistent; stop the existing relay and retry");
                r
            },
            PalError::RelayConfigMismatch { port, .. } => {
                let mut r = String::from_str("relay on port ");
                push_decimal(&mut r, *port as u64);
                push_str(&mut r, " is configured for upstream ");
                push_str(&mut r, quoted[0].as_str());
                push_str(&mut r, " with API key environment variable ");
                push_str(&mut r, quoted[1].as_str());
                push_str(&mut r, ", not upstream ");
                push_str(&mut r, quoted[2].as_str());
                push_str(&mut r, " with ");
                push_str(&mut r, quoted[3].as_str());
                push_str(&mut r, "; use a different --port or stop the existing relay");
                r
            },
            PalError::StaleReservation { port } => {
                let mut r = String::from_str("relay on port ");
                push_decimal(&mut r, *port as u64);
                push_str(
                    &mut r,
                    " has an incomplete or stale startup reservation; run `codex-pal relay stop --port ",
                );
                push_decimal(&mut r, *port as u64);
                push_str(&mut r, "` and retry");
                r
            },
            PalError::ManagedStateWithoutPid { port } => {
                let mut r = String::from_str("relay on port ");
                push_decimal(&mut r, *port as u64);
                push_str(
                    &mut r,
                    " has managed configuration state but no PID; refusing to clear it while the port is active",
                );
                r
            },
            PalError::PortNotReleased { pid, port } => {
                let mut r = String::from_str("relay pid=");
                push_decimal(&mut r, *pid as u64);
                push_str(&mut r, " did not release port ");
                push_decimal(&mut r, *port as u64);
                push_str(&mut r, " within 10s; preserving relay state");
                r
            },
            PalError::EmptyRelayUrl => String::from_str("relay URL must not be empty"),
            PalError::RelayUrlScheme => String::from_str(
                "relay URL must start with http:// or https://",
            ),
            PalError::ModelCatalogUnreadable => String::from_str(
                "parsing bundled Codex model catalog JSON",
            ),
            PalError::NoBundledModels => String::from_str(
                "bundled Codex model catalog did not contain any models",
            ),
            PalError::ModelTemplateNotObject => String::from_str(
                "bundled Codex model template was not a JSON object",
            ),
        }
    }

    /// The message with which the error is reported.
    pub fn message(&self) -> (r: String)
        ensures
            r@ == error_text(*self),
            (forall|i: int| 0 <= i < quoted_fields(*self).len() ==> is_plain(
                #[trigger] quoted_fields(*self)[i],
            )) ==> r@ == error_text_with(
                *self,
                quoted_fields(*self).map_values(|f: Seq<char>| plain_quoted(f)),
            ),
    {
        let fields = self.quoted_fields();
        let ghost fv = fields@.map_values(|s: &str| s@);
        let mut quoted: Vec<String> = Vec::new();
        let mut i: usize = 0;
        while i < fields.len()
            invariant
                i <= fields@.len(),
                fv == fields@.map_values(|s: &str| s@),
                string_texts(quoted@) == fv.subrange(0, i as int).map_values(
                    |f: Seq<char>| debug_quoted(f),
                ),
                forall|k: int| 0 <= k < i && is_plain(fv[k]) ==> debug_quoted(#[trigger] fv[k])
                    == plain_quoted(fv[k]),
            decreases fields.len() - i,
        {
            let d = debug_str(fields[i]);
            let ghost before = quoted@;
            quoted.push(d);
            assert(fv[i as int] == fields@[i as int]@);
            assert(string_texts(quoted@) =~= string_texts(before).push(d@));
            assert(fv.subrange(0, i + 1).map_values(|f: Seq<char>| debug_quoted(f)) =~= fv.subrange(
                0,
                i as int,
            ).map_values(|f: Seq<char>| debug_quoted(f)).push(debug_quoted(fv[i as int])));
            i = i + 1;
        }
        assert(fv.subrange(0, i as int) == fv);
        proof {
            if forall|k: int| 0 <= k < fv.len() ==> is_plain(#[trigger] fv[k]) {
                assert(fv.map_values(|f: Seq<char>| debug_quoted(f)) =~= fv.map_values(
                    |f: Seq<char>| plain_quoted(f),
                ));
            }
        }
        self.render(&quoted)
    }
}

} // verus!
