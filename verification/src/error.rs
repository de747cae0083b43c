//! Failures that the adapter reports to Nushell, with their wording.

use vstd::prelude::*;
use vstd::string::StringExecFns;

verus! {

/// What the Rust `Debug` formatting of a string produces for it: the string
/// in double quotes, with escapes.
pub uninterp spec fn str_debug(s: Seq<char>) -> Seq<char>;

/// Quote `s` as Rust's `Debug` formatting of `str` does.
///
/// Trusted: it calls `<str as Debug>::fmt` through `format!`; the contract
/// only names the result, which depends on `s` alone.
#[verifier::external_body]
pub(crate) fn debug_text(s: &str) -> (r: String)
    ensures
        r@ == str_debug(s@),
{
    format!("{:?}", s)
}

/// A failure of a plugin invocation.
#[derive(Debug)]
pub enum PluginError {
    /// The backend executable could not be started.
    BackendUnavailable {
        /// The backend as it was named, for display.
        backend: String,
        /// Why starting it failed.
        detail: String,
    },
    /// The backend ran and reported failure; `detail` describes its exit.
    BackendFailed { detail: String },
    /// A text output format was selected and the output is not UTF-8.
    InvalidText { detail: String },
    /// JSON output was expected and the output is not UTF-8.
    InvalidUtf8 { detail: String },
    /// JSON output was expected and the output does not parse as JSON.
    InvalidJson {
        /// The parser's explanation.
        detail: String,
        /// The start of the trimmed output.
        preview: String,
    },
}

/// The message of an error.
pub open spec fn error_message(e: PluginError) -> Seq<char> {
    match e {
        PluginError::BackendUnavailable { backend, detail } => "could not execute ipscan backend `"@
            + backend@ + "`: "@ + detail@,
        PluginError::BackendFailed { detail } => "ipscan backend failed: "@ + detail@,
        PluginError::InvalidText { detail } => "ipscan emitted invalid text output: "@ + detail@,
        PluginError::InvalidUtf8 { detail } => "ipscan emitted invalid UTF-8: "@ + detail@,
        PluginError::InvalidJson { detail, preview } =>
            "ipscan returned output that is not valid JSON: "@ + detail@ + "; output begins with "@
                + str_debug(preview@),
    }
}

/// The label that points at the invocation's span.
pub open spec fn error_label(e: PluginError) -> Seq<char> {
    match e {
        PluginError::BackendUnavailable { .. } => "backend executable"@,
        PluginError::BackendFailed { .. } => "backend invocation"@,
        PluginError::InvalidText { .. } => "backend output"@,
        PluginError::InvalidUtf8 { .. } => "backend JSON output"@,
        PluginError::InvalidJson { .. } => "backend JSON output"@,
    }
}

/// The help text, where there is one.
pub open spec fn error_help(e: PluginError) -> Option<Seq<char>> {
    match e {
        PluginError::BackendUnavailable { .. } => Some(
            "install ipscan or set NU_PLUGIN_IPSCAN_BACKEND to an executable path"@,
        ),
        PluginError::InvalidJson { .. } => Some(
            "use `--raw` to inspect backend stdout while diagnosing a compatibility issue"@,
        ),
        _ => None,
    }
}

/// The diagnostic code.
pub open spec fn error_code(e: PluginError) -> Seq<char> {
    match e {
        PluginError::BackendUnavailable { .. } => "nu_plugin_ipscan::backend_unavailable"@,
        PluginError::BackendFailed { .. } => "nu_plugin_ipscan::backend_failed"@,
        _ => "nu_plugin_ipscan::invalid_output"@,
    }
}

/// `a` followed by `b`.
fn joined(a: &str, b: &str) -> (r: String)
    ensures
        r@ == a@ + b@,
{
    let mut r = a.to_owned();
    r.append(b);
    r
}

impl PluginError {
    /// The message shown to the user.
    pub fn message(&self) -> (r: String)
        ensures
            r@ == error_message(*self),
    {
        match self {
            PluginError::BackendUnavailable { backend, detail } => {
                proof {
                    reveal_strlit("could not execute ipscan backend `");
                    reveal_strlit("`: ");
                }
                let mut r = joined("could not execute ipscan backend `", backend.as_str());
                r.append("`: ");
                r.append(detail.as_str());
                r
            },
            PluginError::BackendFailed { detail } => {
                proof {
                    reveal_strlit("ipscan backend failed: ");
                }
                joined("ipscan backend failed: ", detail.as_str())
            },
            PluginError::InvalidText { detail } => {
                proof {
                    reveal_strlit("ipscan emitted invalid text output: ");
                }
                joined("ipscan emitted invalid text output: ", detail.as_str())
            },
            PluginError::InvalidUtf8 { detail } => {
                proof {
                    reveal_strlit("ipscan emitted invalid UTF-8: ");
                }
                joined("ipscan emitted invalid UTF-8: ", detail.as_str())
            },
            PluginError::InvalidJson { detail, preview } => {
                proof {
                    reveal_strlit("ipscan returned output that is not valid JSON: ");
                    reveal_strlit("; output begins with ");
                }
                let quoted = debug_text(preview.as_str());
                let mut r = joined(
                    "ipscan returned output that is not valid JSON: ",
                    detail.as_str(),
                );
                r.append("; output begins with ");
                r.append(quoted.as_str());
                r
            },
        }
    }

    /// The label attached to the invocation's span.
    pub fn label(&self) -> (r: &'static str)
        ensures
            r@ == error_label(*self),
    {
        match self {
            PluginError::BackendUnavailable { .. } => "backend executable",
            PluginError::BackendFailed { .. } => "backend invocation",
            PluginError::InvalidText { .. } => "backend output",
            PluginError::InvalidUtf8 { .. } => "backend JSON output",
            PluginError::InvalidJson { .. } => "backend JSON output",
        }
    }

    /// The help text, where there is one.
    pub fn help(&self) -> (r: Option<&'static str>)
        ensures
            r is None <==> error_help(*self) is None,
            r matches Some(h) ==> error_help(*self) == Some(h@),
    {
        match self {
            PluginError::BackendUnavailable { .. } => Some(
                "install ipscan or set NU_PLUGIN_IPSCAN_BACKEND to an executable path",
            ),
            PluginError::InvalidJson { .. } => Some(
                "use `--raw` to inspect backend stdout while diagnosing a compatibility issue",
            ),
            _ => None,
        }
    }

    /// The diagnostic code.
    pub fn code(&self) -> (r: &'static str)
        ensures
            r@ == error_code(*self),
    {
        match self {
            PluginError::BackendUnavailable { .. } => "nu_plugin_ipscan::backend_unavailable",
            PluginError::BackendFailed { .. } => "nu_plugin_ipscan::backend_failed",
            _ => "nu_plugin_ipscan::invalid_output",
        }
    }
}

} // verus!
