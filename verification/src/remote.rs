//! The remote-session computation: interpreting the outcome of a remote
//! command from its exit code and captured streams, and parsing the network
//! interface listing. The secure-shell transport itself stays outside the
//! library and hands these functions plain values.
use vstd::prelude::*;

use crate::errors::Exception;
use crate::strutil::split_chars;
use crate::strutil::split_str;
use crate::strutil::trim_str;
use crate::strutil::trimmed;

verus! {

/// The error message of a remote command that exited non-zero, embedding the
/// command and the trimmed standard-error capture.
pub fn exec_failure_message(command: &str, stderr: &str) -> (r: String)
    ensures
        r@ == "exec '"@ + command@ + "' failed\n "@ + trimmed(stderr@),
{
    let t = trim_str(stderr);
    String::from_str("exec '").concat(command).concat("' failed\n ").concat(t.as_str())
}

/// The outcome of a buffered remote command: the captured output when the
/// exit code is zero, and otherwise an error embedding the command and the
/// trimmed standard-error capture.
pub fn exec_outcome(command: &str, output: String, code: i32, stderr: &str) -> (r: Result<
    String,
    Exception,
>)
    ensures
        code == 0 ==> r == Ok::<String, Exception>(output),
        code != 0 ==> (r matches Err(e) && e matches Exception::Error(m) && m@ == "exec '"@
            + command@ + "' failed\n "@ + trimmed(stderr@)),
{
    if code != 0 {
        Err(Exception::Error(exec_failure_message(command, stderr)))
    } else {
        Ok(output)
    }
}

/// The outcome of a streaming remote command: when the exit code is non-zero
/// and the loop was not already draining standard error, the failure detail
/// is captured into the error; in every other case the command counts as
/// done once its stream closed.
pub fn long_command_outcome(command: &str, code: i32, show_error: bool, stderr: &str) -> (r:
    Result<(), Exception>)
    ensures
        code == 0 || show_error ==> r == Ok::<(), Exception>(()),
        code != 0 && !show_error ==> (r matches Err(e) && e matches Exception::Error(m) && m@
            == "exec '"@ + command@ + "' failed\n "@ + trimmed(stderr@)),
{
    if code != 0 && !show_error {
        Err(Exception::Error(exec_failure_message(command, stderr)))
    } else {
        Ok(())
    }
}

/// The interface names read from the trimmed output of the listing pipeline:
/// its first two lines in listed order, or the single line twice when fewer
/// than two were produced.
pub fn parse_nics(output: &str) -> (r: (String, String))
    ensures
        ({
            let lines = split_chars(trimmed(output@), '\n');
            &&& r.0@ == lines[0]
            &&& (lines.len() >= 2 ==> r.1@ == lines[1])
            &&& (lines.len() < 2 ==> r.1@ == lines[0])
        }),
{
    let t = trim_str(output);
    let lines = split_str(t.as_str(), '\n');
    if lines.len() >= 2 {
        let first = lines[0].clone();
        let second = lines[1].clone();
        (first, second)
    } else {
        let first = lines[0].clone();
        let second = lines[0].clone();
        (first, second)
    }
}

} // verus!
