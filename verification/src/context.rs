//! Process-wide configuration, resolved once before any pipeline runs.
//!
//! The execution context merges global and per-command flags into an
//! immutable value, and carries the bearer credential.  A credential is
//! only accepted at the fixed token length; resolving it fails before
//! any descriptor is built.

use vstd::prelude::*;

verus! {

/// Errors that stop the process before or instead of a pipeline run.
#[derive(Clone, Copy, Debug, PartialEq, Eq, Structural)]
pub enum CliError {
    /// No subcommand was resolved.
    NoCommand,
    /// No token of the accepted length could be resolved.
    CredentialMissing,
}

impl CliError {
    /// The diagnostic printed for this error.
    pub open spec fn diagnostic_text(self) -> Seq<char> {
        match self {
            CliError::NoCommand => "No command was provided\n\nFor more information try --help"@,
            CliError::CredentialMissing => "No DigitalOcean Auth Token found.\n\nUse `docli --token <token>` or set the DO_AUTH_TOKEN environment variable and try again"@,
        }
    }

    /// Render the diagnostic for this error.
    pub fn diagnostic(&self) -> (r: String)
        ensures
            r@ == self.diagnostic_text(),
    {
        match self {
            CliError::NoCommand => String::from_str(
                "No command was provided\n\nFor more information try --help",
            ),
            CliError::CredentialMissing => String::from_str(
                "No DigitalOcean Auth Token found.\n\nUse `docli --token <token>` or set the DO_AUTH_TOKEN environment variable and try again",
            ),
        }
    }
}

/// The length every accepted auth token has.
pub const TOKEN_LEN: usize = 64;

/// An opaque bearer token of the accepted length.
#[derive(Clone, Debug)]
pub struct Credential {
    pub token: String,
}

impl Credential {
    /// A credential holds a token of exactly the accepted length.
    pub open spec fn wf(self) -> bool {
        self.token@.len() == TOKEN_LEN
    }
}

/// The token that credential resolution considers: the override if one
/// was given, else the environment-sourced token, else empty.
pub open spec fn chosen_token(override_token: Option<String>, env_token: Option<String>) -> Seq<
    char,
> {
    match override_token {
        Some(t) => t@,
        None => match env_token {
            Some(t) => t@,
            None => Seq::empty(),
        },
    }
}

/// Resolve the credential from an override and an environment fallback.
///
/// Succeeds exactly when the chosen token has the accepted length;
/// otherwise the caller must report the diagnostic and exit before any
/// descriptor is built.
pub fn resolve_credential(override_token: Option<String>, env_token: Option<String>) -> (r: Result<
    Credential,
    CliError,
>)
    ensures
        r matches Ok(c) <==> chosen_token(override_token, env_token).len() == TOKEN_LEN,
        r matches Ok(c) ==> c.token@ == chosen_token(override_token, env_token) && c.wf(),
        r matches Err(e) ==> e is CredentialMissing,
{
    let token = match override_token {
        Some(t) => t,
        None => match env_token {
            Some(t) => t,
            None => String::new(),
        },
    };
    if token.as_str().unicode_len() == TOKEN_LEN {
        Ok(Credential { token })
    } else {
        Err(CliError::CredentialMissing)
    }
}

/// Configuration for one pipeline run, read-only after construction.
#[derive(Clone, Debug)]
pub struct ExecutionContext {
    /// Enables the preview and the raw-response display.
    pub verbose: bool,
    /// Stops the pipeline after the preview, before any backend contact.
    pub dry_run: bool,
    /// Bypasses the confirmation gate even for mutating operations.
    pub skip_confirm: bool,
    /// The pre-validated bearer token.
    pub credential: Credential,
}

impl ExecutionContext {
    /// The context carries a well-formed credential.
    pub open spec fn wf(self) -> bool {
        self.credential.wf()
    }

    /// Merge global and per-command flags into one immutable context.
    ///
    /// A per-command flag can switch verbosity or dry run on but never
    /// off; skipping confirmation is chosen per command.
    pub fn merge(
        global_verbose: bool,
        global_dry_run: bool,
        cmd_verbose: bool,
        cmd_dry_run: bool,
        cmd_skip_confirm: bool,
        credential: Credential,
    ) -> (r: ExecutionContext)
        ensures
            r.verbose == (global_verbose || cmd_verbose),
            r.dry_run == (global_dry_run || cmd_dry_run),
            r.skip_confirm == cmd_skip_confirm,
            r.credential == credential,
    {
        ExecutionContext {
            verbose: global_verbose || cmd_verbose,
            dry_run: global_dry_run || cmd_dry_run,
            skip_confirm: cmd_skip_confirm,
            credential,
        }
    }
}

} // verus!
