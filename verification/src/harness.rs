//! The fixture of a test: the application, the driver and the session, set
//! up in this order and taken down in the opposite one.
//!
//! The caller starts the processes and talks to the driver. The fixture
//! keeps what has been set up, says what is next, and says what has to be
//! taken down whenever the test ends.

use vstd::prelude::*;
use vstd::string::*;
use crate::driver::DriverInfo;
use crate::error::{message_text, ErrorView, HarnessError};
use crate::handle::DriverProcessHandle;
use crate::launcher::{CommandLine, CommandView, ServiceEndpoint};
use crate::process::{report_text, Termination};
use crate::session::{pause_for, SessionHandle, WindowStep};
use crate::text::{
    decimal, eq_ignoring_ascii_case, push_decimal, same_text, same_text_ignoring_ascii_case,
    str_view,
};

verus! {

/// The steps of setting the fixture up, in their order.
#[derive(Clone, Copy, Debug, PartialEq, Eq, Structural)]
pub enum SetupStage {
    /// The application is started.
    Application,
    /// A driver is settled on.
    Resolution,
    /// The driver is started, or connected to.
    Driver,
    /// The session is opened.
    Session,
}

/// One step of taking the fixture down.
#[derive(Debug)]
pub enum TeardownStep<H> {
    /// Ask the driver to close the session; a failure is only logged.
    CloseSession,
    /// Terminate the driver that was started.
    StopDriver(Termination<H>),
    /// Terminate the application.
    StopApplication(Termination<H>),
}

/// The command that starts the application on `port`: the port and the
/// place of the page's files are handed over in its environment.
pub open spec fn application_command_view(port: u16) -> CommandView {
    CommandView {
        program: "../target/debug/backend"@,
        args: seq![],
        env: seq![("PORT"@, decimal(port as nat)), ("STATIC_ASSETS"@, "../frontend/dist"@)],
    }
}

/// The command that starts the application on `port`.
pub fn application_command(port: u16) -> (r: CommandLine)
    ensures
        r@ == application_command_view(port),
{
    let mut number = String::new();
    push_decimal(&mut number, port as u64);
    let mut env: Vec<(String, String)> = Vec::new();
    env.push((String::from_str("PORT"), number));
    env.push((String::from_str("STATIC_ASSETS"), String::from_str("../frontend/dist")));
    let r = CommandLine { program: String::from_str("../target/debug/backend"), args: Vec::new(), env };
    assert(r@.args =~= Seq::<Seq<char>>::empty());
    assert(r@.env =~= application_command_view(port).env);
    r
}

/// Whether the value of the variable that asks for a slow run asks for one:
/// it is `1`, or `true` in any case.
pub open spec fn asks_demo(value: Option<Seq<char>>) -> bool {
    match value {
        Some(v) => v == "1"@ || eq_ignoring_ascii_case(v, "true"@),
        None => false,
    }
}

/// Whether the run is to be slowed down for an onlooker, given the value of
/// the variable that asks for it.
pub fn demo_mode(value: Option<&str>) -> (r: bool)
    ensures
        r == asks_demo(str_view(value)),
{
    match value {
        Some(v) => same_text(v, "1") || same_text_ignoring_ascii_case(v, "true"),
        None => false,
    }
}

/// What a failure at `stage` is said to have prevented; a failure to settle
/// on a driver speaks for itself.
pub open spec fn context_text(stage: SetupStage) -> Seq<char> {
    match stage {
        SetupStage::Application => "Could not start application process: "@,
        SetupStage::Resolution => ""@,
        SetupStage::Driver => "Could not determine/start webdriver process: "@,
        SetupStage::Session => "Could not create webdriver client: "@,
    }
}

/// What is said of a failure at `stage`.
pub open spec fn failure_report(stage: SetupStage, error: ErrorView) -> Seq<char> {
    context_text(stage) + message_text(error)
}

/// What is said of a failure at `stage`.
pub fn describe_failure(stage: SetupStage, error: &HarnessError) -> (r: String)
    ensures
        r@ == failure_report(stage, error@),
{
    let context = match stage {
        SetupStage::Application => "Could not start application process: ",
        SetupStage::Resolution => "",
        SetupStage::Driver => "Could not determine/start webdriver process: ",
        SetupStage::Session => "Could not create webdriver client: ",
    };
    let message = error.message();
    String::from_str(context).concat(message.as_str())
}

/// The step that is next when so much has been set up.
pub open spec fn stage_after(application: bool, resolved: bool, driver: bool, session: bool) -> Option<
    SetupStage,
> {
    if !application {
        Some(SetupStage::Application)
    } else if !resolved {
        Some(SetupStage::Resolution)
    } else if !driver {
        Some(SetupStage::Driver)
    } else if !session {
        Some(SetupStage::Session)
    } else {
        None
    }
}

/// What has to be taken down, in its order: the session if it is open, then
/// the driver if it was started and runs, then the application if it runs.
pub open spec fn teardown_steps<H>(
    session_open: bool,
    driver: Option<H>,
    application: Option<H>,
    print_output: bool,
) -> Seq<TeardownStep<H>> {
    (if session_open {
        seq![TeardownStep::CloseSession]
    } else {
        seq![]
    }) + (match driver {
        Some(handle) => seq![TeardownStep::StopDriver(Termination { handle, report: print_output })],
        None => seq![],
    }) + (match application {
        Some(handle) => seq![
            TeardownStep::StopApplication(Termination { handle, report: print_output }),
        ],
        None => seq![],
    })
}

/// The fixture of a test.
#[derive(Debug)]
pub struct TestHarness<H> {
    application: Option<ServiceEndpoint<H>>,
    driver_info: Option<DriverInfo>,
    driver: Option<DriverProcessHandle<H>>,
    session: Option<SessionHandle>,
}

impl<H> TestHarness<H> {
    /// The application, once it has been started.
    pub closed spec fn spec_application(&self) -> Option<ServiceEndpoint<H>> {
        self.application
    }

    /// The driver that was settled on.
    pub closed spec fn spec_driver_info(&self) -> Option<DriverInfo> {
        self.driver_info
    }

    /// The driver, once it has been started or connected to.
    pub closed spec fn spec_driver(&self) -> Option<DriverProcessHandle<H>> {
        self.driver
    }

    /// The session, once it has been opened.
    pub closed spec fn spec_session(&self) -> Option<SessionHandle> {
        self.session
    }

    /// The step that is next, or none where the fixture is complete.
    pub open spec fn spec_next_stage(&self) -> Option<SetupStage> {
        stage_after(
            self.spec_application() is Some,
            self.spec_driver_info() is Some,
            self.spec_driver() is Some,
            self.spec_session() is Some,
        )
    }

    /// Whether the session is there and open.
    pub open spec fn spec_session_open(&self) -> bool {
        self.spec_session() matches Some(session) && session.spec_open()
    }

    /// The handle of the driver's process, where the fixture started one and
    /// it has not been stopped.
    pub open spec fn spec_driver_handle(&self) -> Option<H> {
        match self.spec_driver() {
            Some(handle) => handle.spec_handle(),
            None => None,
        }
    }

    /// The handle of the application's process, where it was started and has
    /// not been stopped.
    pub open spec fn spec_application_handle(&self) -> Option<H> {
        match self.spec_application() {
            Some(endpoint) => endpoint.spec_process().spec_handle(),
            None => None,
        }
    }

    /// A fixture of which nothing has been set up.
    pub fn new() -> (r: TestHarness<H>)
        ensures
            r.spec_application() is None,
            r.spec_driver_info() is None,
            r.spec_driver() is None,
            r.spec_session() is None,
    {
        TestHarness { application: None, driver_info: None, driver: None, session: None }
    }

    /// The step that is next, or none where the fixture is complete.
    pub fn next_stage(&self) -> (r: Option<SetupStage>)
        ensures
            r == self.spec_next_stage(),
    {
        if self.application.is_none() {
            Some(SetupStage::Application)
        } else if self.driver_info.is_none() {
            Some(SetupStage::Resolution)
        } else if self.driver.is_none() {
            Some(SetupStage::Driver)
        } else if self.session.is_none() {
            Some(SetupStage::Session)
        } else {
            None
        }
    }

    /// Takes in the application that was started. It is taken only where
    /// starting it is the next step; else it is handed back.
    pub fn application_started(&mut self, endpoint: ServiceEndpoint<H>) -> (r: Result<
        (),
        ServiceEndpoint<H>,
    >)
        ensures
            final(self).spec_driver_info() == old(self).spec_driver_info(),
            final(self).spec_driver() == old(self).spec_driver(),
            final(self).spec_session() == old(self).spec_session(),
            if old(self).spec_next_stage() == Some(SetupStage::Application) {
                r is Ok && final(self).spec_application() == Some(endpoint)
            } else {
                r == Err::<(), ServiceEndpoint<H>>(endpoint) && final(self).spec_application()
                    == old(self).spec_application()
            },
    {
        if self.application.is_none() {
            self.application = Some(endpoint);
            Ok(())
        } else {
            Err(endpoint)
        }
    }

    /// Takes in the driver that was settled on. It is taken only where
    /// settling on one is the next step: what was settled once stays.
    pub fn driver_resolved(&mut self, info: DriverInfo) -> (r: Result<(), DriverInfo>)
        ensures
            final(self).spec_application() == old(self).spec_application(),
            final(self).spec_driver() == old(self).spec_driver(),
            final(self).spec_session() == old(self).spec_session(),
            if old(self).spec_next_stage() == Some(SetupStage::Resolution) {
                r is Ok && final(self).spec_driver_info() == Some(info)
            } else {
                r == Err::<(), DriverInfo>(info) && final(self).spec_driver_info() == old(
                    self,
                ).spec_driver_info()
            },
    {
        if self.application.is_some() && self.driver_info.is_none() {
            self.driver_info = Some(info);
            Ok(())
        } else {
            Err(info)
        }
    }

    /// Takes in the driver that was started or connected to. It is taken
    /// only where that is the next step; else it is handed back.
    pub fn driver_started(&mut self, handle: DriverProcessHandle<H>) -> (r: Result<
        (),
        DriverProcessHandle<H>,
    >)
        ensures
            final(self).spec_application() == old(self).spec_application(),
            final(self).spec_driver_info() == old(self).spec_driver_info(),
            final(self).spec_session() == old(self).spec_session(),
            if old(self).spec_next_stage() == Some(SetupStage::Driver) {
                r is Ok && final(self).spec_driver() == Some(handle)
            } else {
                r == Err::<(), DriverProcessHandle<H>>(handle) && final(self).spec_driver() == old(
                    self,
                ).spec_driver()
            },
    {
        if self.application.is_some() && self.driver_info.is_some() && self.driver.is_none() {
            self.driver = Some(handle);
            Ok(())
        } else {
            Err(handle)
        }
    }

    /// Takes in the session that was opened. It is taken only where opening
    /// it is the next step; else it is handed back.
    pub fn session_opened(&mut self, session: SessionHandle) -> (r: Result<(), SessionHandle>)
        ensures
            final(self).spec_application() == old(self).spec_application(),
            final(self).spec_driver_info() == old(self).spec_driver_info(),
            final(self).spec_driver() == old(self).spec_driver(),
            if old(self).spec_next_stage() == Some(SetupStage::Session) {
                r is Ok && final(self).spec_session() == Some(session)
            } else {
                r == Err::<(), SessionHandle>(session) && final(self).spec_session() == old(
                    self,
                ).spec_session()
            },
    {
        if self.application.is_some() && self.driver_info.is_some() && self.driver.is_some()
            && self.session.is_none() {
            self.session = Some(session);
            Ok(())
        } else {
            Err(session)
        }
    }

    /// The address of the application, once it has been started.
    pub fn app_url(&self) -> (r: Option<&str>)
        ensures
            match self.spec_application() {
                Some(endpoint) => r matches Some(url) && url@ == endpoint.spec_url(),
                None => r is None,
            },
    {
        match &self.application {
            Some(endpoint) => Some(endpoint.get_url()),
            None => None,
        }
    }

    /// The address of the driver, once it has been started or connected to.
    pub fn driver_url(&self) -> (r: Option<&str>)
        ensures
            match self.spec_driver() {
                Some(handle) => r matches Some(url) && url@ == handle.spec_url(),
                None => r is None,
            },
    {
        match &self.driver {
            Some(handle) => Some(handle.get_url()),
            None => None,
        }
    }

    /// The driver that was settled on.
    pub fn driver_info(&self) -> (r: Option<&DriverInfo>)
        ensures
            match self.spec_driver_info() {
                Some(info) => r == Some(&info),
                None => r is None,
            },
    {
        self.driver_info.as_ref()
    }

    /// The session, once it has been opened.
    pub fn session(&self) -> (r: Option<&SessionHandle>)
        ensures
            match self.spec_session() {
                Some(session) => r == Some(&session),
                None => r is None,
            },
    {
        self.session.as_ref()
    }

    /// The report of the application's stopped process, once it has been
    /// started; see `ManagedProcess::report`.
    pub fn application_report(&self, status: Option<&str>, stdout: &[u8], stderr: &[u8]) -> (r:
        Option<String>)
        ensures
            match self.spec_application() {
                Some(endpoint) => r matches Some(text) && text@ == report_text(
                    endpoint.spec_process().spec_name(),
                    str_view(status),
                    stdout@,
                    stderr@,
                ),
                None => r is None,
            },
    {
        match &self.application {
            Some(endpoint) => Some(endpoint.report(status, stdout, stderr)),
            None => None,
        }
    }

    /// The report of the driver's stopped process, where the fixture started
    /// one; see `ManagedProcess::report`.
    pub fn driver_report(&self, status: Option<&str>, stdout: &[u8], stderr: &[u8]) -> (r: Option<
        String,
    >)
        ensures
            match self.spec_driver() {
                Some(handle) => match handle.spec_name() {
                    Some(name) => r matches Some(text) && text@ == report_text(
                        name,
                        str_view(status),
                        stdout@,
                        stderr@,
                    ),
                    None => r is None,
                },
                None => r is None,
            },
    {
        match &self.driver {
            Some(handle) => handle.report(status, stdout, stderr),
            None => None,
        }
    }

    /// The pause to make after an action that changes the page, in
    /// milliseconds; none without a session.
    pub fn demo_pause(&self) -> (r: u64)
        ensures
            r == match self.spec_session() {
                Some(session) => pause_for(session.spec_demo_mode()),
                None => 0,
            },
    {
        match &self.session {
            Some(session) => session.demo_pause(),
            None => 0,
        }
    }

    /// Makes sure that the driver acts on the window `wanted`; see
    /// `SessionHandle::ensure_window`. Without a session there is nothing to
    /// do.
    pub fn ensure_window(&mut self, current: &str, wanted: &str) -> (r: WindowStep)
        ensures
            final(self).spec_application() == old(self).spec_application(),
            final(self).spec_driver_info() == old(self).spec_driver_info(),
            final(self).spec_driver() == old(self).spec_driver(),
            match old(self).spec_session() {
                Some(session) => {
                    &&& final(self).spec_session() matches Some(after)
                    &&& after.spec_id() == session.spec_id()
                    &&& after.spec_demo_mode() == session.spec_demo_mode()
                    &&& after.spec_open() == session.spec_open()
                    &&& after.spec_window() == Some(wanted@)
                    &&& r == if current@ == wanted@ {
                        WindowStep::Stay
                    } else {
                        WindowStep::Switch { pause_ms: pause_for(session.spec_demo_mode()) }
                    }
                },
                None => final(self).spec_session() is None && r == WindowStep::Stay,
            },
    {
        let mut session = self.session.take();
        let step = match &mut session {
            Some(handle) => handle.ensure_window(current, wanted),
            None => WindowStep::Stay,
        };
        self.session = session;
        step
    }

    /// Takes the fixture down and hands out what the caller has to do for
    /// it, in this order: close the session, stop the driver, stop the
    /// application. Each step stands for what is there and has not been
    /// taken down before; afterwards nothing is left to take down.
    pub fn teardown(&mut self, print_output: bool) -> (r: Vec<TeardownStep<H>>)
        ensures
            r@ == teardown_steps(
                old(self).spec_session_open(),
                old(self).spec_driver_handle(),
                old(self).spec_application_handle(),
                print_output,
            ),
            !final(self).spec_session_open(),
            final(self).spec_driver_handle() is None,
            final(self).spec_application_handle() is None,
            final(self).spec_next_stage() == old(self).spec_next_stage(),
            final(self).spec_driver_info() == old(self).spec_driver_info(),
            old(self).spec_application() matches Some(before) ==> final(self).spec_application()
                ->0.spec_url() == before.spec_url(),
            old(self).spec_driver() matches Some(before) ==> final(self).spec_driver()->0.spec_url()
                == before.spec_url(),
            old(self).spec_session() matches Some(before) ==> final(self).spec_session()->0.spec_id()
                == before.spec_id(),
    {
        let mut steps: Vec<TeardownStep<H>> = Vec::new();
        let mut session = self.session.take();
        match &mut session {
            Some(handle) => {
                if handle.close() {
                    steps.push(TeardownStep::CloseSession);
                }
            },
            None => {},
        }
        self.session = session;
        let mut driver = self.driver.take();
        match &mut driver {
            Some(handle) => {
                match handle.stop(print_output) {
                    Some(termination) => {
                        steps.push(TeardownStep::StopDriver(termination));
                    },
                    None => {},
                }
            },
            None => {},
        }
        self.driver = driver;
        let mut application = self.application.take();
        match &mut application {
            Some(endpoint) => {
                match endpoint.stop(print_output) {
                    Some(termination) => {
                        steps.push(TeardownStep::StopApplication(termination));
                    },
                    None => {},
                }
            },
            None => {},
        }
        self.application = application;
        assert(steps@ =~= teardown_steps(
            old(self).spec_session_open(),
            old(self).spec_driver_handle(),
            old(self).spec_application_handle(),
            print_output,
        ));
        steps
    }
}

/// The steps of taking down come in one order: the session before the
/// driver, the driver before the application, and none of them twice.
pub proof fn lemma_teardown_order<H>(
    session_open: bool,
    driver: Option<H>,
    application: Option<H>,
    print_output: bool,
)
    ensures
        ({
            let steps = teardown_steps(session_open, driver, application, print_output);
            &&& steps.len() <= 3
            &&& forall|i: int, j: int|
                0 <= i < j < steps.len() ==> {
                    &&& !(steps[j] is CloseSession)
                    &&& !(steps[i] is StopApplication)
                    &&& !(steps[i] is StopDriver && steps[j] is StopDriver)
                }
            &&& (session_open <==> exists|i: int|
                0 <= i < steps.len() && #[trigger] steps[i] is CloseSession)
            &&& (driver is Some <==> exists|i: int|
                0 <= i < steps.len() && #[trigger] steps[i] == TeardownStep::StopDriver(
                    Termination { handle: driver->0, report: print_output },
                ))
            &&& (application is Some <==> exists|i: int|
                0 <= i < steps.len() && #[trigger] steps[i] == TeardownStep::StopApplication(
                    Termination { handle: application->0, report: print_output },
                ))
        }),
{
    let steps = teardown_steps(session_open, driver, application, print_output);
    if session_open {
        assert(steps[0] is CloseSession);
    }
    if driver is Some {
        let at = if session_open {
            1int
        } else {
            0int
        };
        assert(steps[at] == TeardownStep::StopDriver(
            Termination { handle: driver->0, report: print_output },
        ));
    }
    if application is Some {
        assert(steps[steps.len() - 1] == TeardownStep::StopApplication(
            Termination { handle: application->0, report: print_output },
        ));
    }
}

/// Once the fixture has been taken down, taking it down again asks for
/// nothing.
pub proof fn lemma_teardown_once<H>(print_output: bool)
    ensures
        teardown_steps(false, None::<H>, None::<H>, print_output) == Seq::<TeardownStep<H>>::empty(),
{
    assert(teardown_steps(false, None::<H>, None::<H>, print_output) =~= Seq::<
        TeardownStep<H>,
    >::empty());
}

} // verus!
