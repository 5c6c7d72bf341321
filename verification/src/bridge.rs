//! Classifying one captured invocation of the external tool.
//!
//! The hosting application launches the tool, waits for it, and captures the
//! exit status and both output streams, decoded permissively. Everything the
//! bridge decides from that captured outcome is here: a non-zero exit is an
//! execution failure carrying the diagnostic stream, output that does not
//! conform to the response schema is a schema failure carrying a bounded
//! prefix of the raw text, and conforming output is returned as the typed
//! response tree, unmodified.

use vstd::prelude::*;
use vstd::string::StringExecFns;
use crate::model::{ListAllResponse, ListAllResponseView, BridgeError, BridgeErrorView};
use crate::schema::{sp_response_text, parse_response};
use crate::text::{chars_of_str, copy_range, string_of_chars};

verus! {

/// The outcome that one captured tool invocation denotes: a function of the
/// exit status and the two decoded streams alone.
pub open spec fn sp_interpret(status_ok: bool, out: Seq<char>, err: Seq<char>) -> Result<
    ListAllResponseView,
    BridgeErrorView,
> {
    if !status_ok {
        Err(BridgeErrorView::ExecutionError("mael list-all failed: "@ + err))
    } else {
        match sp_response_text(out) {
            Some(r) => Ok(r),
            None => Err(
                BridgeErrorView::SchemaError(
                    "mael list-all printed output that does not match the expected JSON schema"@,
                    out.take(
                        if out.len() <= 200 {
                            out.len() as int
                        } else {
                            200
                        },
                    ),
                ),
            ),
        }
    }
}

/// Classifies one captured invocation: `status_ok` says whether the tool
/// exited successfully, `stdout` and `stderr` are its streams decoded
/// permissively by the caller.
pub fn interpret_output(status_ok: bool, stdout: &str, stderr: &str) -> (r: Result<
    ListAllResponse,
    BridgeError,
>)
    ensures
        (match r {
            Ok(resp) => sp_interpret(status_ok, stdout@, stderr@) == Ok::<
                ListAllResponseView,
                BridgeErrorView,
            >(resp@),
            Err(e) => sp_interpret(status_ok, stdout@, stderr@) == Err::<
                ListAllResponseView,
                BridgeErrorView,
            >(e@),
        }),
{
    if !status_ok {
        let mut m = String::from_str("mael list-all failed: ");
        m.append(stderr);
        return Err(BridgeError::ExecutionError(m));
    }
    match parse_response(stdout) {
        Some(resp) => Ok(resp),
        None => {
            let v = chars_of_str(stdout);
            let n: usize = if v.len() <= 200 {
                v.len()
            } else {
                200
            };
            let prefix_chars = copy_range(&v, 0, n);
            let prefix = string_of_chars(&prefix_chars);
            let diag = String::from_str(
                "mael list-all printed output that does not match the expected JSON schema",
            );
            Err(BridgeError::SchemaError(diag, prefix))
        },
    }
}

/// Classifies a failure to start the tool at all: the carried message names
/// the invocation and holds the system error text.
pub fn launch_failure(detail: &str) -> (e: BridgeError)
    ensures
        e@ == BridgeErrorView::LaunchError("Failed to execute uv run mael: "@ + detail@),
{
    let mut m = String::from_str("Failed to execute uv run mael: ");
    m.append(detail);
    BridgeError::LaunchError(m)
}

/// The fixed argument vector handed to the environment runner: its run
/// subcommand, the tool's name, the machine-readable-output flag, and the
/// tool's subcommand.
pub fn tool_arguments() -> (a: Vec<String>)
    ensures
        a@.len() == 4,
        a@[0]@ == "run"@,
        a@[1]@ == "mael"@,
        a@[2]@ == "--json"@,
        a@[3]@ == "list-all"@,
{
    let mut a: Vec<String> = Vec::new();
    a.push(String::from_str("run"));
    a.push(String::from_str("mael"));
    a.push(String::from_str("--json"));
    a.push(String::from_str("list-all"));
    a
}

/// The prefix of a path before its last `/` separator: empty when the path
/// holds no separator.
pub open spec fn sp_parent_dir(s: Seq<char>) -> Seq<char>
    decreases s.len(),
{
    if s.len() == 0 {
        s
    } else if s.last() == '/' {
        s.drop_last()
    } else {
        sp_parent_dir(s.drop_last())
    }
}

fn parent_of(v: &Vec<char>) -> (r: Vec<char>)
    ensures
        r@ == sp_parent_dir(v@),
{
    let mut k: usize = v.len();
    proof {
        assert(v@.take(v@.len() as int) =~= v@);
    }
    while k > 0
        invariant
            k <= v@.len(),
            sp_parent_dir(v@.take(k as int)) == sp_parent_dir(v@),
        decreases k,
    {
        if v[k - 1] == '/' {
            let r = copy_range(v, 0, k - 1);
            proof {
                assert(v@.take(k as int).drop_last() =~= v@.subrange(0, k - 1));
            }
            return r;
        }
        proof {
            assert(v@.take(k as int).drop_last() =~= v@.take(k - 1));
        }
        k -= 1;
    }
    let r: Vec<char> = Vec::new();
    proof {
        assert(v@.take(0) =~= Seq::<char>::empty());
    }
    r
}

/// Returns the repository root: the directory two levels above the given
/// installation directory of the application's backend, with `/` as the
/// separator.
pub fn repo_root(install_dir: &str) -> (r: String)
    ensures
        r@ == sp_parent_dir(sp_parent_dir(install_dir@)),
{
    let v = chars_of_str(install_dir);
    let p1 = parent_of(&v);
    let p2 = parent_of(&p1);
    string_of_chars(&p2)
}

/// Interpreting the same captured outcome twice yields structurally equal
/// results: the bridge holds no state across calls, so the outcome is a
/// function of the captured exit status and streams alone.
pub proof fn lemma_interpret_idempotent(
    ok1: bool,
    out1: Seq<char>,
    err1: Seq<char>,
    ok2: bool,
    out2: Seq<char>,
    err2: Seq<char>,
)
    requires
        ok1 == ok2,
        out1 == out2,
        err1 == err2,
    ensures
        sp_interpret(ok1, out1, err1) == sp_interpret(ok2, out2, err2),
{
}

/// Every outcome is classified, and none is swallowed: a non-zero exit is
/// an execution failure carrying the diagnostic stream after the fixed
/// message, non-conforming output of a successful exit is a schema failure,
/// and conforming output is returned as parsed, unmodified.
pub proof fn lemma_outcome_classification(status_ok: bool, out: Seq<char>, err: Seq<char>)
    ensures
        !status_ok ==> sp_interpret(status_ok, out, err) == Err::<
            ListAllResponseView,
            BridgeErrorView,
        >(BridgeErrorView::ExecutionError("mael list-all failed: "@ + err)),
        status_ok && sp_response_text(out) is None ==> (sp_interpret(status_ok, out, err) matches
            Err(e) && e is SchemaError),
        status_ok && sp_response_text(out) is Some ==> sp_interpret(status_ok, out, err) == Ok::<
            ListAllResponseView,
            BridgeErrorView,
        >(sp_response_text(out)->0),
{
}

} // verus!
