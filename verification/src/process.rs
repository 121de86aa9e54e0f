//! A child process under the harness's care, and the report of its end.
//!
//! The process itself is started, killed and waited for by the caller. Here
//! stands what is decided about it: that it is stopped once and only once,
//! and what is printed when it has been stopped.

use vstd::prelude::*;
use vstd::string::*;
use vstd::utf8::*;
use crate::text::{str_view, tab, tabbed};

verus! {

/// What `String::from_utf8_lossy` of std makes of a run of bytes.
pub uninterp spec fn utf8_lossy(bytes: Seq<u8>) -> Seq<char>;

/// Calls `String::from_utf8_lossy`.
///
/// Trusted: the text is a function of the bytes alone, named `utf8_lossy`,
/// and for bytes that are valid UTF-8 it is the text that they encode.
#[verifier::external_body]
pub(crate) fn decode_lossy(data: &[u8]) -> (r: String)
    ensures
        r@ == utf8_lossy(data@),
        valid_utf8(data@) ==> r@ == decode_utf8(data@),
{
    String::from_utf8_lossy(data).into_owned()
}

/// What the first call of `stop` hands to the caller: the handle of the
/// process, to kill it, wait for it and collect its output, and whether the
/// report of its end is to be printed.
#[derive(Debug)]
pub struct Termination<H> {
    pub handle: H,
    pub report: bool,
}

/// What a call of `stop` hands out, given the handle that the process holds.
pub open spec fn stop_plan<H>(handle: Option<H>, print_output: bool) -> Option<Termination<H>> {
    match handle {
        Some(handle) => Some(Termination { handle, report: print_output }),
        None => None,
    }
}

/// A child process: its name and, as long as it has not been stopped, the
/// handle by which the system knows it and its output is collected.
#[derive(Debug)]
pub struct ManagedProcess<H> {
    name: String,
    handle: Option<H>,
}

impl<H> ManagedProcess<H> {
    /// The name under which the process is reported.
    pub closed spec fn spec_name(&self) -> Seq<char> {
        self.name@
    }

    /// The handle of the process: there while it runs, gone once it has
    /// been stopped.
    pub closed spec fn spec_handle(&self) -> Option<H> {
        self.handle
    }

    /// Whether the process has not been stopped.
    pub open spec fn spec_running(&self) -> bool {
        self.spec_handle() is Some
    }

    /// The record of a process that has just been started.
    pub fn spawn(name: &str, handle: H) -> (r: ManagedProcess<H>)
        ensures
            r.spec_name() == name@,
            r.spec_handle() == Some(handle),
    {
        ManagedProcess { name: String::from_str(name), handle: Some(handle) }
    }

    /// The name under which the process is reported.
    pub fn name(&self) -> (r: &str)
        ensures
            r@ == self.spec_name(),
    {
        self.name.as_str()
    }

    /// Whether the process has not been stopped.
    pub fn is_running(&self) -> (r: bool)
        ensures
            r == self.spec_running(),
    {
        self.handle.is_some()
    }

    /// Stops the process. The first call hands out the handle, for the
    /// caller to terminate the process; every later call hands out nothing.
    pub fn stop(&mut self, print_output: bool) -> (r: Option<Termination<H>>)
        ensures
            final(self).spec_name() == old(self).spec_name(),
            final(self).spec_handle() is None,
            r == stop_plan(old(self).spec_handle(), print_output),
    {
        match self.handle.take() {
            Some(handle) => Some(Termination { handle, report: print_output }),
            None => None,
        }
    }

    /// The report of the stopped process: its status, then what it wrote to
    /// each of its two streams.
    pub fn report(&self, status: Option<&str>, stdout: &[u8], stderr: &[u8]) -> (r: String)
        ensures
            r@ == report_text(self.spec_name(), str_view(status), stdout@, stderr@),
    {
        let mut out = status_line(self.name.as_str(), status);
        let first = stream_block(self.name.as_str(), "stdout", stdout);
        out.append(first.as_str());
        let second = stream_block(self.name.as_str(), "stderr", stderr);
        out.append(second.as_str());
        out
    }
}

/// The line that tells how the process ended; where its end could not be
/// waited for, the status reads `None`.
pub open spec fn status_text(name: Seq<char>, status: Option<Seq<char>>) -> Seq<char> {
    name + " status: "@ + (match status {
        Some(s) => s,
        None => "None"@,
    }) + "\n"@
}

/// What is printed of one stream: nothing where the process wrote nothing to
/// it; else a heading with the names of the process and of the stream, and
/// below it the text, indented.
pub open spec fn stream_text(name: Seq<char>, stream: Seq<char>, data: Seq<u8>) -> Seq<char> {
    if data.len() == 0 {
        seq![]
    } else {
        name + " "@ + stream + ":\n"@ + tabbed(utf8_lossy(data)) + "\n"@
    }
}

/// The whole report of a stopped process.
pub open spec fn report_text(
    name: Seq<char>,
    status: Option<Seq<char>>,
    stdout: Seq<u8>,
    stderr: Seq<u8>,
) -> Seq<char> {
    status_text(name, status) + stream_text(name, "stdout"@, stdout) + stream_text(
        name,
        "stderr"@,
        stderr,
    )
}

/// The line that tells how the process ended.
pub fn status_line(name: &str, status: Option<&str>) -> (r: String)
    ensures
        r@ == status_text(name@, str_view(status)),
{
    let mut out = String::from_str(name);
    out.append(" status: ");
    match status {
        Some(s) => out.append(s),
        None => out.append("None"),
    }
    out.append("\n");
    out
}

/// What is printed of one stream of the process.
pub fn stream_block(name: &str, stream: &str, data: &[u8]) -> (r: String)
    ensures
        r@ == stream_text(name@, stream@, data@),
{
    if data.len() == 0 {
        return String::new();
    }
    let text = decode_lossy(data);
    let body = tab(text.as_str());
    let mut out = String::from_str(name);
    out.append(" ");
    out.append(stream);
    out.append(":\n");
    out.append(body.as_str());
    out.append("\n");
    out
}

/// What a stream's reader handed back, or nothing where reading failed.
pub fn captured_or_empty(data: Option<Vec<u8>>) -> (r: Vec<u8>)
    ensures
        r@ == match data {
            Some(bytes) => bytes@,
            None => Seq::<u8>::empty(),
        },
{
    match data {
        Some(bytes) => bytes,
        None => Vec::new(),
    }
}

/// Stopping twice is stopping once: whatever the process held, after one
/// call of `stop` it holds no handle, and a call that finds none hands out
/// nothing.
pub proof fn lemma_stop_twice<H>(handle: Option<H>, first: bool, second: bool)
    ensures
        stop_plan(handle, first) is Some <==> handle is Some,
        stop_plan(None::<H>, second) is None,
{
}

} // verus!
