//! The driver that a session talks to: one that this harness started, or
//! one that was running already.

use vstd::prelude::*;
use vstd::string::*;
use crate::driver::{DriverLocation, LocationView};
use crate::launcher::{CommandLine, CommandView, ServiceEndpoint};
use crate::process::{report_text, stop_plan, Termination};
use crate::text::{decimal, push_decimal, str_view, texts};

verus! {

/// The argument that tells a driver which port to listen on.
pub open spec fn port_argument(port: u16) -> Seq<char> {
    "--port="@ + decimal(port as nat)
}

/// The command that starts the driver at `path` on `port`: the given
/// arguments, then the port.
pub open spec fn driver_command(path: Seq<char>, args: Seq<Seq<char>>, port: u16) -> CommandView {
    CommandView { program: path, args: args.push(port_argument(port)), env: seq![] }
}

/// The command that starts a driver that is to be had on this machine, and
/// nothing for one that is running already.
pub open spec fn launch_command(location: LocationView, port: u16) -> Option<CommandView> {
    match location {
        LocationView::Local { path, args } => Some(driver_command(path, args, port)),
        LocationView::Remote { url } => None,
    }
}

/// A driver to talk to.
#[derive(Debug)]
pub enum DriverProcessHandle<H> {
    /// A driver that this harness started.
    Local(ServiceEndpoint<H>),
    /// A driver that was running already, by its address.
    Remote(String),
}

/// The command that starts the driver of `location` on `port`. A driver that
/// is running already needs none.
pub fn driver_launch_command(location: &DriverLocation, port: u16) -> (r: Option<CommandLine>)
    ensures
        r matches Some(command) ==> launch_command(location@, port) == Some(command@),
        r is None ==> launch_command(location@, port) is None,
{
    match location {
        DriverLocation::Local { path, args } => {
            let mut all = args.clone();
            assert(texts(all@) =~= texts(args@)) by {
                assert(all@ == args@);
            }
            let mut last = String::from_str("--port=");
            push_decimal(&mut last, port as u64);
            let ghost before = texts(all@);
            all.push(last);
            assert(texts(all@) =~= before.push(port_argument(port)));
            let env: Vec<(String, String)> = Vec::new();
            let command = CommandLine { program: path.clone(), args: all, env };
            assert(command@.env =~= Seq::<(Seq<char>, Seq<char>)>::empty());
            Some(command)
        },
        DriverLocation::Remote { url } => None,
    }
}

impl<H> DriverProcessHandle<H> {
    /// The address of the driver.
    pub open spec fn spec_url(&self) -> Seq<char> {
        match self {
            DriverProcessHandle::Local(endpoint) => endpoint.spec_url(),
            DriverProcessHandle::Remote(url) => url@,
        }
    }

    /// The handle of the process behind the driver: there while a driver
    /// that this harness started runs.
    pub open spec fn spec_handle(&self) -> Option<H> {
        match self {
            DriverProcessHandle::Local(endpoint) => endpoint.spec_process().spec_handle(),
            DriverProcessHandle::Remote(url) => None,
        }
    }

    /// The handle of a driver that is running already, and nothing for one
    /// that has to be started.
    pub fn connect(location: &DriverLocation) -> (r: Option<DriverProcessHandle<H>>)
        ensures
            match location@ {
                LocationView::Remote { url } => r matches Some(handle) && handle.spec_url() == url
                    && handle is Remote,
                LocationView::Local { path, args } => r is None,
            },
    {
        match location {
            DriverLocation::Remote { url } => Some(DriverProcessHandle::Remote(url.clone())),
            DriverLocation::Local { path, args } => None,
        }
    }

    /// The handle of a driver that this harness started.
    pub fn launched(endpoint: ServiceEndpoint<H>) -> (r: DriverProcessHandle<H>)
        ensures
            r == DriverProcessHandle::Local(endpoint),
    {
        DriverProcessHandle::Local(endpoint)
    }

    /// The address of the driver.
    pub fn get_url(&self) -> (r: &str)
        ensures
            r@ == self.spec_url(),
    {
        match self {
            DriverProcessHandle::Local(endpoint) => endpoint.get_url(),
            DriverProcessHandle::Remote(url) => url.as_str(),
        }
    }

    /// The name under which the driver's process is reported, where this
    /// harness started it.
    pub open spec fn spec_name(&self) -> Option<Seq<char>> {
        match self {
            DriverProcessHandle::Local(endpoint) => Some(endpoint.spec_process().spec_name()),
            DriverProcessHandle::Remote(url) => None,
        }
    }

    /// The report of the driver's stopped process, where this harness
    /// started it; see `ManagedProcess::report`.
    pub fn report(&self, status: Option<&str>, stdout: &[u8], stderr: &[u8]) -> (r: Option<String>)
        ensures
            match self.spec_name() {
                Some(name) => r matches Some(text) && text@ == report_text(
                    name,
                    str_view(status),
                    stdout@,
                    stderr@,
                ),
                None => r is None,
            },
    {
        match self {
            DriverProcessHandle::Local(endpoint) => Some(endpoint.report(status, stdout, stderr)),
            DriverProcessHandle::Remote(url) => None,
        }
    }

    /// Stops the driver where this harness started it; a driver that was
    /// running already is left alone.
    pub fn stop(&mut self, print_output: bool) -> (r: Option<Termination<H>>)
        ensures
            final(self).spec_url() == old(self).spec_url(),
            final(self).spec_handle() is None,
            *final(self) is Remote <==> *old(self) is Remote,
            r == stop_plan(old(self).spec_handle(), print_output),
    {
        match self {
            DriverProcessHandle::Local(endpoint) => endpoint.stop(print_output),
            DriverProcessHandle::Remote(url) => None,
        }
    }
}

} // verus!
