//! The ways in which setting up or using the harness fails.

use vstd::prelude::*;
use vstd::string::*;
use crate::driver::{kind_order, DriverKind};
use crate::locator::ResolutionFailure;

verus! {

/// A failure of the harness.
#[derive(Debug)]
pub enum HarnessError {
    /// The system refused to start a process.
    SpawnFailure { command: String, reason: String },
    /// A launched service did not accept a connection in time.
    ReadinessTimeout,
    /// The address of a launched service could not be read as one.
    InvalidAddress { address: String },
    /// No usable driver was found or fetched.
    DriverResolutionFailure(ResolutionFailure),
    /// A call to the driver was refused or timed out.
    SessionFailure(String),
    /// The page did not show what was expected.
    AssertionFailure(String),
}

/// What a `HarnessError` holds.
pub enum ErrorView {
    SpawnFailure { command: Seq<char>, reason: Seq<char> },
    ReadinessTimeout,
    InvalidAddress { address: Seq<char> },
    DriverResolutionFailure(ResolutionFailure),
    SessionFailure(Seq<char>),
    AssertionFailure(Seq<char>),
}

impl View for HarnessError {
    type V = ErrorView;

    open spec fn view(&self) -> ErrorView {
        match self {
            HarnessError::SpawnFailure { command, reason } => ErrorView::SpawnFailure {
                command: command@,
                reason: reason@,
            },
            HarnessError::ReadinessTimeout => ErrorView::ReadinessTimeout,
            HarnessError::InvalidAddress { address } => ErrorView::InvalidAddress {
                address: address@,
            },
            HarnessError::DriverResolutionFailure(failure) => ErrorView::DriverResolutionFailure(
                *failure,
            ),
            HarnessError::SessionFailure(text) => ErrorView::SessionFailure(text@),
            HarnessError::AssertionFailure(text) => ErrorView::AssertionFailure(text@),
        }
    }
}

/// The beginning of what is said where no driver was found: the ways to
/// name one.
pub const NO_DRIVER_INTRO: &'static str =
    "failed to find a suitable WebDriver binary or remote running WebDriver to drive\n\
testing; to configure the location of the webdriver binary you can use\n\
environment variables like `GECKODRIVER=/path/to/geckodriver`\n\
or `GECKODRIVER=auto` (for gecko and chrome it will be downloaded if not present locally)\n\
or make sure that the binary is in `PATH`; to configure the address of remote webdriver you can\n\
use environment variables like `GECKODRIVER_REMOTE=http://remote.host/`\n";

/// Where the driver of `kind` is to be had.
pub open spec fn driver_source(kind: DriverKind) -> Seq<char> {
    match kind {
        DriverKind::Firefox => "https://github.com/mozilla/geckodriver/releases"@,
        DriverKind::Safari => "should be preinstalled on OSX"@,
        DriverKind::Chrome => "https://chromedriver.chromium.org/downloads"@,
        DriverKind::Edge => "https://developer.microsoft.com/en-us/microsoft-edge/tools/webdriver/"@,
    }
}

/// The line that names the driver of `kind` and where it is to be had.
pub open spec fn driver_line(kind: DriverKind) -> Seq<char> {
    "    * "@ + kind.binary() + " - "@ + driver_source(kind) + "\n"@
}

/// The line that names the variables by which the driver of `kind` is
/// configured.
pub open spec fn variables_line(kind: DriverKind) -> Seq<char> {
    "    * "@ + kind.variable() + ", "@ + kind.args_variable() + ", "@ + kind.remote_variable()
        + "\n"@
}

/// The lines of the first `n` kinds of the fixed order: for each kind its
/// driver, then for each kind its variables.
pub open spec fn driver_lines(n: int) -> Seq<char>
    decreases n,
{
    if n <= 0 || n > 4 {
        seq![]
    } else {
        driver_lines(n - 1) + driver_line(kind_order()[n - 1])
    }
}

/// The lines that name the variables of the first `n` kinds of the fixed
/// order.
pub open spec fn variables_lines(n: int) -> Seq<char>
    decreases n,
{
    if n <= 0 || n > 4 {
        seq![]
    } else {
        variables_lines(n - 1) + variables_line(kind_order()[n - 1])
    }
}

/// What is said where no driver was found: the ways to name one, every
/// driver that is known, and every variable that is read.
pub open spec fn no_driver_text() -> Seq<char> {
    NO_DRIVER_INTRO@ + "\nThe supported drivers are:\n"@ + driver_lines(4)
        + "\nThe environment variables that are read are:\n"@ + variables_lines(4)
}

/// What is said where no driver was found.
pub fn no_driver_message() -> (r: String)
    ensures
        r@ == no_driver_text(),
{
    let mut out = String::from_str(NO_DRIVER_INTRO);
    out.append("\nThe supported drivers are:\n");
    let mut i: usize = 0;
    while i < 4
        invariant
            i <= 4,
            out@ == NO_DRIVER_INTRO@ + "\nThe supported drivers are:\n"@ + driver_lines(i as int),
        decreases 4 - i,
    {
        let kind = DriverKind::at(i);
        let source = match kind {
            DriverKind::Firefox => "https://github.com/mozilla/geckodriver/releases",
            DriverKind::Safari => "should be preinstalled on OSX",
            DriverKind::Chrome => "https://chromedriver.chromium.org/downloads",
            DriverKind::Edge => "https://developer.microsoft.com/en-us/microsoft-edge/tools/webdriver/",
        };
        let ghost before = out@;
        out.append("    * ");
        out.append(kind.binary_name());
        out.append(" - ");
        out.append(source);
        out.append("\n");
        assert(out@ =~= before + driver_line(kind));
        i += 1;
        assert(out@ =~= NO_DRIVER_INTRO@ + "\nThe supported drivers are:\n"@ + driver_lines(
            i as int,
        ));
    }
    out.append("\nThe environment variables that are read are:\n");
    let ghost head = out@;
    let mut j: usize = 0;
    while j < 4
        invariant
            j <= 4,
            head == NO_DRIVER_INTRO@ + "\nThe supported drivers are:\n"@ + driver_lines(4)
                + "\nThe environment variables that are read are:\n"@,
            out@ == head + variables_lines(j as int),
        decreases 4 - j,
    {
        let kind = DriverKind::at(j);
        let args = kind.args_variable_name();
        let remote = kind.remote_variable_name();
        let ghost before = out@;
        out.append("    * ");
        out.append(kind.variable_name());
        out.append(", ");
        out.append(args.as_str());
        out.append(", ");
        out.append(remote.as_str());
        out.append("\n");
        assert(out@ =~= before + variables_line(kind));
        j += 1;
        assert(out@ =~= head + variables_lines(j as int));
    }
    out
}

/// What is said of a failure to settle on a driver.
pub open spec fn failure_text(failure: ResolutionFailure) -> Seq<char> {
    match failure {
        ResolutionFailure::NoDriverFound => no_driver_text(),
        ResolutionFailure::AutoInstallUnsupported(kind) => "Auto downloading is not supported for "@
            + kind.binary(),
        ResolutionFailure::InstallFailed(kind) => "Could not install "@ + kind.binary(),
    }
}

/// What is said of a failure.
pub open spec fn message_text(error: ErrorView) -> Seq<char> {
    match error {
        ErrorView::SpawnFailure { command, reason } => "Failed to spawn `"@ + command + "`: "@
            + reason,
        ErrorView::ReadinessTimeout => "server failed to bind port during startup"@,
        ErrorView::InvalidAddress { address } => "not a web address: "@ + address,
        ErrorView::DriverResolutionFailure(failure) => failure_text(failure),
        ErrorView::SessionFailure(text) => text,
        ErrorView::AssertionFailure(text) => text,
    }
}

/// What is said of a failure to settle on a driver.
pub fn failure_message(failure: ResolutionFailure) -> (r: String)
    ensures
        r@ == failure_text(failure),
{
    match failure {
        ResolutionFailure::NoDriverFound => no_driver_message(),
        ResolutionFailure::AutoInstallUnsupported(kind) => String::from_str(
            "Auto downloading is not supported for ",
        ).concat(kind.binary_name()),
        ResolutionFailure::InstallFailed(kind) => String::from_str("Could not install ").concat(
            kind.binary_name(),
        ),
    }
}

impl HarnessError {
    /// What is said of the failure.
    pub fn message(&self) -> (r: String)
        ensures
            r@ == message_text(self@),
    {
        match self {
            HarnessError::SpawnFailure { command, reason } => {
                let mut out = String::from_str("Failed to spawn `");
                out.append(command.as_str());
                out.append("`: ");
                out.append(reason.as_str());
                out
            },
            HarnessError::ReadinessTimeout => String::from_str(
                "server failed to bind port during startup",
            ),
            HarnessError::InvalidAddress { address } => String::from_str(
                "not a web address: ",
            ).concat(address.as_str()),
            HarnessError::DriverResolutionFailure(failure) => failure_message(*failure),
            HarnessError::SessionFailure(text) => text.clone(),
            HarnessError::AssertionFailure(text) => text.clone(),
        }
    }

    /// The failure to start `command`, for the reason that the system gave.
    pub fn spawn_failure(command: &str, reason: &str) -> (r: HarnessError)
        ensures
            r@ == (ErrorView::SpawnFailure { command: command@, reason: reason@ }),
    {
        HarnessError::SpawnFailure {
            command: String::from_str(command),
            reason: String::from_str(reason),
        }
    }

    /// The failure of a call to the driver.
    pub fn session_failure(reason: &str) -> (r: HarnessError)
        ensures
            r@ == ErrorView::SessionFailure(reason@),
    {
        HarnessError::SessionFailure(String::from_str(reason))
    }
}

} // verus!
