//! Launching a service on a port of this machine and waiting until it
//! accepts connections.
//!
//! The caller finds a free port, starts the process and makes the attempts
//! to connect. Here stands what is decided: when to try, when to pause, when
//! to give up, and what address the service has once it answers.

use vstd::prelude::*;
use vstd::string::*;
use crate::address::{parse_url, url_parse};
use crate::error::{ErrorView, HarnessError};
use crate::poll::{
    action_of, phase_after, PollAction, PollEvent, PollPhase, PollPolicy, Poller,
};
use crate::process::{report_text, stop_plan, ManagedProcess, Termination};
use crate::text::{decimal, push_decimal, str_view, texts};

verus! {

/// A program to start: its path, its arguments and the variables added to
/// its environment.
#[derive(Debug)]
pub struct CommandLine {
    pub program: String,
    pub args: Vec<String>,
    pub env: Vec<(String, String)>,
}

/// What a `CommandLine` holds.
pub struct CommandView {
    pub program: Seq<char>,
    pub args: Seq<Seq<char>>,
    pub env: Seq<(Seq<char>, Seq<char>)>,
}

impl View for CommandLine {
    type V = CommandView;

    open spec fn view(&self) -> CommandView {
        CommandView {
            program: self.program@,
            args: texts(self.args@),
            env: self.env@.map_values(|p: (String, String)| (p.0@, p.1@)),
        }
    }
}

/// A command as it is written on one line: the program, then each argument
/// behind a space.
pub open spec fn command_text(program: Seq<char>, args: Seq<Seq<char>>) -> Seq<char>
    decreases args.len(),
{
    if args.len() == 0 {
        program
    } else {
        command_text(program, args.drop_last()) + " "@ + args.last()
    }
}

impl CommandLine {
    /// The command as it is written on one line.
    pub fn text(&self) -> (r: String)
        ensures
            r@ == command_text(self@.program, self@.args),
    {
        let mut out = self.program.clone();
        let mut i: usize = 0;
        assert(texts(self.args@).take(0) == Seq::<Seq<char>>::empty());
        while i < self.args.len()
            invariant
                i <= self.args.len(),
                out@ == command_text(self.program@, texts(self.args@).take(i as int)),
            decreases self.args.len() - i,
        {
            let ghost next = texts(self.args@).take(i + 1);
            assert(next.drop_last() == texts(self.args@).take(i as int));
            assert(next.last() == self.args@[i as int]@);
            out.append(" ");
            out.append(self.args[i].as_str());
            i += 1;
        }
        assert(texts(self.args@).take(self.args.len() as int) == texts(self.args@));
        out
    }

    /// The failure to start the command, for the reason that the system
    /// gave.
    pub fn spawn_failure(&self, reason: &str) -> (r: HarnessError)
        ensures
            r@ == (ErrorView::SpawnFailure {
                command: command_text(self@.program, self@.args),
                reason: reason@,
            }),
    {
        HarnessError::SpawnFailure { command: self.text(), reason: String::from_str(reason) }
    }
}

/// A launched service is given five seconds to accept a connection, and is
/// tried every hundred milliseconds.
pub open spec fn readiness() -> PollPolicy {
    PollPolicy { timeout_ms: 5000, interval_ms: 100 }
}

/// The policy by which a launched service is waited for.
pub fn readiness_policy() -> (r: PollPolicy)
    ensures
        r == readiness(),
{
    PollPolicy { timeout_ms: 5000, interval_ms: 100 }
}

/// The address of a service on `port` of this machine, as it is written
/// down.
pub open spec fn endpoint_text(port: u16) -> Seq<char> {
    "http://127.0.0.1:"@ + decimal(port as nat)
}

/// The address of a service on `port` of this machine, as it is written
/// down.
pub fn endpoint_address(port: u16) -> (r: String)
    ensures
        r@ == endpoint_text(port),
{
    let mut out = String::from_str("http://127.0.0.1:");
    push_decimal(&mut out, port as u64);
    out
}

/// A service that has accepted a connection: its address and the process
/// that serves it.
#[derive(Debug)]
pub struct ServiceEndpoint<H> {
    url: String,
    process: ManagedProcess<H>,
}

impl<H> ServiceEndpoint<H> {
    /// The address of the service.
    pub closed spec fn spec_url(&self) -> Seq<char> {
        self.url@
    }

    /// The process that serves it.
    pub closed spec fn spec_process(&self) -> ManagedProcess<H> {
        self.process
    }

    /// The address of the service.
    pub fn get_url(&self) -> (r: &str)
        ensures
            r@ == self.spec_url(),
    {
        self.url.as_str()
    }

    /// Whether the process that serves it has not been stopped.
    pub fn is_running(&self) -> (r: bool)
        ensures
            r == self.spec_process().spec_running(),
    {
        self.process.is_running()
    }

    /// Stops the process that serves it; see `ManagedProcess::stop`.
    pub fn stop(&mut self, print_output: bool) -> (r: Option<Termination<H>>)
        ensures
            final(self).spec_url() == old(self).spec_url(),
            final(self).spec_process().spec_name() == old(self).spec_process().spec_name(),
            final(self).spec_process().spec_handle() is None,
            r == stop_plan(old(self).spec_process().spec_handle(), print_output),
    {
        self.process.stop(print_output)
    }

    /// The report of the stopped process; see `ManagedProcess::report`.
    pub fn report(&self, status: Option<&str>, stdout: &[u8], stderr: &[u8]) -> (r: String)
        ensures
            r@ == report_text(
                self.spec_process().spec_name(),
                str_view(status),
                stdout@,
                stderr@,
            ),
    {
        self.process.report(status, stdout, stderr)
    }
}

/// A launch that did not lead to a service: the process, stopped, its
/// handle for the caller to terminate it, and the failure.
#[derive(Debug)]
pub struct LaunchFailure<H> {
    pub process: ManagedProcess<H>,
    pub termination: Option<Termination<H>>,
    pub error: HarnessError,
}

/// A service that has been started on a port and is waited for.
#[derive(Debug)]
pub struct NetworkServiceLauncher<H> {
    port: u16,
    process: ManagedProcess<H>,
    poller: Poller,
}

impl<H> NetworkServiceLauncher<H> {
    /// The port that the service was told to listen on.
    pub closed spec fn spec_port(&self) -> u16 {
        self.port
    }

    /// The process that was started.
    pub closed spec fn spec_process(&self) -> ManagedProcess<H> {
        self.process
    }

    /// What the launcher waits for.
    pub closed spec fn spec_phase(&self) -> PollPhase {
        self.poller.spec_phase()
    }

    /// The policy by which the service is waited for.
    pub closed spec fn spec_policy(&self) -> PollPolicy {
        self.poller.spec_policy()
    }

    /// Takes over a process that was just started for `port`, and begins to
    /// wait for it.
    pub fn start(name: &str, port: u16, handle: H) -> (r: NetworkServiceLauncher<H>)
        ensures
            r.spec_port() == port,
            r.spec_process().spec_name() == name@,
            r.spec_process().spec_handle() == Some(handle),
            r.spec_phase() == PollPhase::Timing,
            r.spec_policy() == readiness(),
    {
        NetworkServiceLauncher {
            port,
            process: ManagedProcess::spawn(name, handle),
            poller: Poller::new(readiness_policy()),
        }
    }

    /// The port that the service was told to listen on.
    pub fn port(&self) -> (r: u16)
        ensures
            r == self.spec_port(),
    {
        self.port
    }

    /// What the launcher asks of its caller now; `Probe` is an attempt to
    /// connect to the port.
    pub fn action(&self) -> (r: PollAction)
        ensures
            r == action_of(self.spec_policy(), self.spec_phase()),
    {
        self.poller.action()
    }

    /// Takes in what the caller reports and says what to do next.
    pub fn step(&mut self, event: PollEvent) -> (r: PollAction)
        ensures
            final(self).spec_port() == old(self).spec_port(),
            final(self).spec_process() == old(self).spec_process(),
            final(self).spec_policy() == old(self).spec_policy(),
            final(self).spec_phase() == phase_after(
                old(self).spec_policy(),
                old(self).spec_phase(),
                event,
            ),
            r == action_of(final(self).spec_policy(), final(self).spec_phase()),
    {
        self.poller.step(event)
    }

    /// Ends the launch. The service is handed out only if an attempt to
    /// connect has succeeded; its address is then the normal form of
    /// `endpoint_text`. In every other case the process is stopped: with its
    /// output printed and `ReadinessTimeout` where no attempt succeeded,
    /// quietly where the address could not be read.
    pub fn finish(self) -> (r: Result<ServiceEndpoint<H>, LaunchFailure<H>>)
        ensures
            match r {
                Ok(endpoint) => {
                    &&& self.spec_phase() == PollPhase::Succeeded
                    &&& url_parse(endpoint_text(self.spec_port())) == Some(endpoint.spec_url())
                    &&& endpoint.spec_process() == self.spec_process()
                },
                Err(failure) => {
                    &&& failure.process.spec_name() == self.spec_process().spec_name()
                    &&& failure.process.spec_handle() is None
                    &&& failure.termination == stop_plan(
                        self.spec_process().spec_handle(),
                        self.spec_phase() != PollPhase::Succeeded,
                    )
                    &&& if self.spec_phase() == PollPhase::Succeeded {
                        &&& url_parse(endpoint_text(self.spec_port())) is None
                        &&& failure.error@ == (ErrorView::InvalidAddress {
                            address: endpoint_text(self.spec_port()),
                        })
                    } else {
                        failure.error@ == ErrorView::ReadinessTimeout
                    }
                },
            },
    {
        let mut process = self.process;
        if !self.poller.has_succeeded() {
            let termination = process.stop(true);
            return Err(
                LaunchFailure { process, termination, error: HarnessError::ReadinessTimeout },
            );
        }
        let address = endpoint_address(self.port);
        match parse_url(address.as_str()) {
            Some(url) => Ok(ServiceEndpoint { url, process }),
            None => {
                let termination = process.stop(false);
                Err(
                    LaunchFailure {
                        process,
                        termination,
                        error: HarnessError::InvalidAddress { address },
                    },
                )
            },
        }
    }
}

/// From a launch that has just begun, a service is handed out only after an
/// attempt to connect was reported as having succeeded.
pub proof fn lemma_endpoint_needs_connection(events: Seq<PollEvent>)
    requires
        crate::poll::phase_after_all(readiness(), PollPhase::Timing, events)
            == PollPhase::Succeeded,
    ensures
        exists|i: int| 0 <= i < events.len() && #[trigger] events[i] == PollEvent::Probed(true),
{
    crate::poll::lemma_run_ends_for_a_reason(readiness(), events);
}

/// A launch whose service never accepts a connection is given up no earlier
/// than five seconds after it began and, where no round of attempt and pause
/// takes longer than half a second, before five and a half seconds.
pub proof fn lemma_launch_gives_up_in_time(readings: Seq<u64>, k: int)
    requires
        0 <= k < readings.len(),
        readings[0] < 5000,
        forall|i: int| 0 < i < readings.len() ==> #[trigger] readings[i] <= readings[i - 1] + 500,
        phase_after(readiness(), PollPhase::Timing, PollEvent::Elapsed(readings[k]))
            == PollPhase::TimedOut,
        forall|i: int|
            0 <= i < k ==> phase_after(
                readiness(),
                PollPhase::Timing,
                PollEvent::Elapsed(#[trigger] readings[i]),
            ) == PollPhase::Probing,
    ensures
        5000 <= readings[k] < 5500,
{
    crate::poll::lemma_gives_up_in_time(readiness(), readings, 500, k);
}

} // verus!
