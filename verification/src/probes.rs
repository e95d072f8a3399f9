//! Interpreting external tool probes.
//!
//! The shell runs a probe command — the runtime interpreter's version flag,
//! the container engine's health check — and reports what it saw; the verdict
//! on that report is decided here.

use vstd::prelude::*;

verus! {

/// What the shell observed of one finished probe command.
#[derive(Clone, Debug)]
pub struct CommandOutcome {
    /// Whether the process exited with a success status.
    pub status_ok: bool,
    /// Its captured standard output, decoded to text.
    pub stdout: String,
    /// Its captured standard error, decoded to text.
    pub stderr: String,
}

/// Why a probe did not answer.
#[derive(Clone, Debug, PartialEq, Eq)]
pub enum ProbeError {
    /// The probe's process could not be run at all; the cause is the
    /// shell's description of the launch failure.
    Launch(String),
    /// The tool ran and answered with a failure status; the payload is its
    /// error output.
    Tool(String),
}

/// What `str::trim` leaves of a string.
pub uninterp spec fn trim_of(s: Seq<char>) -> Seq<char>;

/// Relies on str::trim: removes leading and trailing whitespace; the result
/// depends on the characters alone, and an empty string stays empty.
#[verifier::external_body]
fn trim_str(s: &String) -> (r: String)
    ensures
        r@ == trim_of(s@),
        s@.len() == 0 ==> r@.len() == 0,
{
    s.trim().to_owned()
}

/// The verdict on a version probe (e.g. `node --version`): a launch failure
/// is "tool not found"; a failure status surfaces the tool's error output;
/// a success yields the version — the output with surrounding whitespace
/// trimmed away.
pub fn interpret_version_probe(outcome: Result<CommandOutcome, String>) -> (r: Result<
    String,
    ProbeError,
>)
    ensures
        match outcome {
            Result::Err(cause) => r == Err::<String, ProbeError>(ProbeError::Launch(cause)),
            Result::Ok(o) => if o.status_ok {
                r matches Ok(v) && v@ == trim_of(o.stdout@)
            } else {
                r == Err::<String, ProbeError>(ProbeError::Tool(o.stderr))
            },
        },
{
    match outcome {
        Result::Err(cause) => Result::Err(ProbeError::Launch(cause)),
        Result::Ok(o) => {
            if o.status_ok {
                Result::Ok(trim_str(&o.stdout))
            } else {
                Result::Err(ProbeError::Tool(o.stderr))
            }
        },
    }
}

/// The verdict on a container-engine health probe (e.g. `docker info`): a
/// launch failure or a failure status is an error carrying the cause; a
/// success status means the engine is healthy.
pub fn interpret_engine_probe(outcome: Result<CommandOutcome, String>) -> (r: Result<
    bool,
    ProbeError,
>)
    ensures
        match outcome {
            Result::Err(cause) => r == Err::<bool, ProbeError>(ProbeError::Launch(cause)),
            Result::Ok(o) => if o.status_ok {
                r == Ok::<bool, ProbeError>(true)
            } else {
                r == Err::<bool, ProbeError>(ProbeError::Tool(o.stderr))
            },
        },
{
    match outcome {
        Result::Err(cause) => Result::Err(ProbeError::Launch(cause)),
        Result::Ok(o) => {
            if o.status_ok {
                Result::Ok(true)
            } else {
                Result::Err(ProbeError::Tool(o.stderr))
            }
        },
    }
}

} // verus!
