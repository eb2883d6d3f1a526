//! Startup initialization: chooses the severity filter from the
//! environment-provided configuration and wires the process-wide logging
//! subscriber, with each outside call behind a trusted wrapper.

use vstd::prelude::*;
use vstd::string::{is_ascii, string_is_ascii};

use crate::error::AppError;

verus! {

/// `tracing_subscriber`'s severity filter. It is opaque here: values of it
/// are built and consumed only through the wrappers below.
#[verifier::external_type_specification]
#[verifier::external_body]
pub struct ExEnvFilter(tracing_subscriber::EnvFilter);

/// The severity filter that `tracing_subscriber::EnvFilter::new` builds
/// from a directive string: a deterministic parse, a function of the
/// directives alone.
pub uninterp spec fn filter_of(directive: Seq<char>) -> tracing_subscriber::EnvFilter;

/// What `tracing_subscriber::EnvFilter::try_new` makes of a directive
/// string: `Some` filter exactly when every directive in it is valid,
/// `None` otherwise — again a function of the string alone.
pub uninterp spec fn parsed_filter(directives: Seq<char>) -> Option<
    tracing_subscriber::EnvFilter,
>;

/// Relies on `tracing_subscriber::EnvFilter::new`: parses the directives
/// in the given string, skipping any invalid ones; the result depends on
/// the directives alone. The vendored parser indexes the untrimmed string
/// with positions taken from its trimmed form, which can panic on a
/// directive holding both leading whitespace and a multi-byte character;
/// on ASCII input every byte index is a character boundary, so only ASCII
/// directives are admitted.
#[verifier::external_body]
fn filter_from_directive(directive: &str) -> (r: tracing_subscriber::EnvFilter)
    requires
        is_ascii(directive),
    ensures
        r == filter_of(directive@),
{
    tracing_subscriber::EnvFilter::new(directive)
}

/// Relies on `tracing_subscriber::EnvFilter::try_new`: `Ok` exactly when
/// every directive in the string is valid, deterministically in the string
/// alone. ASCII-only for the same reason as above: the vendored parser can
/// panic on non-ASCII directives with leading whitespace.
#[verifier::external_body]
fn try_filter_from_directives(directives: &str) -> (r: Option<tracing_subscriber::EnvFilter>)
    requires
        is_ascii(directives),
    ensures
        r == parsed_filter(directives@),
{
    tracing_subscriber::EnvFilter::try_new(directives).ok()
}

/// Relies on `tracing_subscriber::fmt`'s builder and its `try_init`:
/// installs a global subscriber that filters records by `filter`, returning
/// `Err` when a global subscriber is already installed (or, the subscriber
/// itself installed, when a `log`-crate logger was set first), and never
/// panicking. Whether this call is the first depends on global state, so
/// nothing is stated of the result.
#[verifier::external_body]
fn install_subscriber(filter: tracing_subscriber::EnvFilter) -> (installed: bool) {
    tracing_subscriber::fmt().with_env_filter(filter).try_init().is_ok()
}

/// The severity directive the initializer falls back to when the
/// environment provides no valid one.
pub fn default_directive() -> (r: &'static str)
    ensures
        r@ == "info"@,
        is_ascii(r),
{
    proof {
        reveal_strlit("info");
    }
    "info"
}

/// The severity filter the initializer installs, chosen from the
/// environment-provided configuration: the environment's own filter when
/// its value parses as a valid one, otherwise — value absent, holding
/// non-ASCII characters, or invalid — one built from the default
/// directive `info`.
pub fn chosen_filter(env_directives: Option<String>) -> (r: tracing_subscriber::EnvFilter)
    ensures
        match env_directives {
            Some(s) => {
                if string_is_ascii(&s) && parsed_filter(s@) is Some {
                    r == parsed_filter(s@)->0
                } else {
                    r == filter_of("info"@)
                }
            },
            None => r == filter_of("info"@),
        },
{
    match env_directives {
        Some(s) => {
            if s.is_ascii() {
                match try_filter_from_directives(s.as_str()) {
                    Some(f) => f,
                    None => filter_from_directive(default_directive()),
                }
            } else {
                filter_from_directive(default_directive())
            }
        },
        None => filter_from_directive(default_directive()),
    }
}

/// Initialize the application: install a logging subscriber filtering by
/// the given severity configuration, defaulting to `info` when that is
/// absent or invalid. The caller reads the configuration value from the
/// environment and passes it in raw, since environment access cannot
/// stand in verified code.
///
/// Duplicate installation is tolerated: when a subscriber is already
/// installed — as when this runs more than once in one process — the
/// installation is silently skipped and initialization still succeeds, so
/// the call always returns `Ok`. The unverified shell around this library
/// installs the diagnostic rendering hook and logs the startup
/// announcement, since both go through names of the outside crates that
/// cannot stand in verified code.
pub fn run(env_directives: Option<String>) -> (r: Result<(), AppError>)
    ensures
        r is Ok,
{
    let filter = chosen_filter(env_directives);
    let _ = install_subscriber(filter);
    Ok(())
}

} // verus!
