use vstd::prelude::*;

use rustc_hash::FxHashMap;

use crate::invocation::{config_tool, is_version_query, Invocation, QueryConfig};
use crate::output::{parse_output, version_in_output};
use crate::text::{first_word, strip_prefix};
use crate::tool::{tool_prefix, Tool};
use crate::version::{model_of, semver_parse, Version};

verus! {

/// What running a command gave: the command line as it was run, and the text
/// it printed on standard output, or why no such text was had (it could not be
/// started, it failed, or its output was no UTF-8).
#[derive(Debug)]
pub struct Execution {
    pub command: String,
    pub stdout: Result<String, String>,
}

/// A version query whose command could not be run.
#[derive(Debug)]
pub struct QueryError {
    /// The command line that was tried.
    pub command: String,
    /// Why it failed.
    pub cause: String,
}

/// The outcome of a version query whose command ran: the version, if the
/// output told one, and otherwise a warning to log.
#[derive(Debug)]
pub struct VersionReport {
    pub version: Option<Version>,
    pub warning: Option<String>,
}

pub const ERROR_HEAD: &'static str = "Failed to query rust toolchain version via `";

pub const ERROR_TAIL: &'static str = "`, is your toolchain setup correctly?";

pub const WARNING_HEAD: &'static str = "Failed to parse `";

pub const WARNING_MIDDLE: &'static str = "` output `";

pub const WARNING_TAIL: &'static str = "` as a semver version";

/// The message of a failed query of `command`.
pub open spec fn error_message(command: Seq<char>) -> Seq<char> {
    ERROR_HEAD@ + command + ERROR_TAIL@
}

/// The warning for output `out` of `command` that tells no version.
pub open spec fn warning_message(command: Seq<char>, out: Seq<char>) -> Seq<char> {
    WARNING_HEAD@ + command + WARNING_MIDDLE@ + out + WARNING_TAIL@
}

/// `part` stands in `whole`, as a run of consecutive characters.
pub open spec fn contains_text(whole: Seq<char>, part: Seq<char>) -> bool {
    exists|i: int|
        0 <= i <= whole.len() - part.len() && #[trigger] whole.subrange(i, i + part.len())
            == part
}

impl QueryError {
    /// The message to show for the failure, naming the command.
    pub fn message(&self) -> (r: String)
        ensures
            r@ == error_message(self.command@),
    {
        let mut m = String::from_str(ERROR_HEAD);
        m.append(self.command.as_str());
        m.append(ERROR_TAIL);
        m
    }
}

fn warning_text(command: &String, out: &String) -> (r: String)
    ensures
        r@ == warning_message(command@, out@),
{
    let mut m = String::from_str(WARNING_HEAD);
    m.append(command.as_str());
    m.append(WARNING_MIDDLE);
    m.append(out.as_str());
    m.append(WARNING_TAIL);
    m
}

/// `r` is what the query of `tool` makes of the execution `e`: an error naming
/// the command where it did not run; else the version in its output, with a
/// warning exactly where there is none.
pub open spec fn interprets(tool: Tool, e: Execution, r: Result<VersionReport, QueryError>) -> bool {
    match e.stdout {
        Err(cause) => r matches Err(err) && err.command@ == e.command@ && err.cause@ == cause@,
        Ok(out) => r matches Ok(report) && model_of(report.version) == version_in_output(
            tool,
            out@,
        ) && match report.warning {
            Some(w) => report.version is None && w@ == warning_message(e.command@, out@),
            None => report.version is Some,
        },
    }
}

/// `r` is a success that carries no version, and a warning.
pub open spec fn is_soft_failure(r: Result<VersionReport, QueryError>) -> bool {
    r matches Ok(report) && report.version is None && report.warning is Some
}

/// Turns what running the version query of `tool` gave into its result.
///
/// Output without the tool's prefix, or whose first word after it is no
/// semantic version, is no error: it gives no version and a warning.
pub fn interpret(tool: Tool, e: Execution) -> (r: Result<VersionReport, QueryError>)
    ensures
        interprets(tool, e, r),
        (e.stdout matches Ok(out) && !tool_prefix(tool).is_prefix_of(out@)) ==> is_soft_failure(
            r,
        ),
        (e.stdout matches Ok(out) && strip_prefix(out@, tool_prefix(tool)) matches Some(rest)
            && first_word(rest) matches Some(word) && semver_parse(word) is None)
            ==> is_soft_failure(r),
{
    let Execution { command, stdout } = e;
    match stdout {
        Err(cause) => Err(QueryError { command, cause }),
        Ok(out) => {
            let version = parse_output(tool, out.as_str());
            let warning = match version {
                Some(_) => None,
                None => Some(warning_text(&command, &out)),
            };
            Ok(VersionReport { version, warning })
        },
    }
}

/// Asks the tool of `config` for its version.
///
/// `run` runs the command it is given and reports what came of it. The command
/// asks for the version in the directory of `config`, with every variable of
/// `extra_env` set. Where it does not run, the result is an error naming it;
/// where it runs, the version is read from its output as `interpret` does.
pub fn get<F>(config: QueryConfig, extra_env: &FxHashMap<String, String>, run: F) -> (r: Result<
    VersionReport,
    QueryError,
>) where F: FnOnce(&Invocation) -> Execution
    requires
        forall|inv: &Invocation| run.requires((inv,)),
    ensures
        exists|inv: Invocation, e: Execution|
            {
                &&& is_version_query(inv, config, extra_env@)
                &&& #[trigger] run.ensures((&inv,), e)
                &&& interprets(config_tool(config), e, r)
            },
{
    let tool = match config {
        QueryConfig::Cargo(..) => Tool::Cargo,
        QueryConfig::Rustc(..) => Tool::Rustc,
    };
    let inv = Invocation::for_query(config, extra_env);
    let e = run(&inv);
    let r = interpret(tool, e);
    assert(run.ensures((&inv,), e));
    r
}

/// A query whose command ran is never an error for what the command printed:
/// output without the tool's prefix, with no word after it, or whose first
/// word is no semantic version gives success with no version, and a warning.
pub proof fn lemma_unreadable_output_is_soft(
    tool: Tool,
    e: Execution,
    r: Result<VersionReport, QueryError>,
)
    requires
        interprets(tool, e, r),
        e.stdout matches Ok(out) && version_in_output(tool, out@) is None,
    ensures
        is_soft_failure(r),
        r matches Ok(report) && report.warning matches Some(w) && w@ == warning_message(
            e.command@,
            e.stdout->Ok_0@,
        ),
{
}

/// A failed query names the command it tried: the command line stands in the
/// error's message.
pub proof fn lemma_error_names_command(command: Seq<char>)
    ensures
        contains_text(error_message(command), command),
{
    let m = error_message(command);
    let i = ERROR_HEAD@.len() as int;
    assert(m.subrange(i, i + command.len()) =~= command);
}

/// A warning names both the command and the output that told no version.
pub proof fn lemma_warning_names_command_and_output(command: Seq<char>, out: Seq<char>)
    ensures
        contains_text(warning_message(command, out), command),
        contains_text(warning_message(command, out), out),
{
    let m = warning_message(command, out);
    let i = WARNING_HEAD@.len() as int;
    assert(m.subrange(i, i + command.len()) =~= command);
    let j = i + command.len() + WARNING_MIDDLE@.len();
    assert(m.subrange(j, j + out.len()) =~= out);
}

} // verus!
