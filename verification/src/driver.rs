//! Browser drivers: their kinds and where one of them is to be had.

use vstd::prelude::*;
use vstd::string::*;
use crate::text::texts;

verus! {

/// The browsers whose drivers are known, in the order in which they are tried.
#[derive(Clone, Copy, Debug, PartialEq, Eq, Structural)]
pub enum DriverKind {
    Firefox,
    Safari,
    Chrome,
    Edge,
}

/// The fixed order in which the kinds are tried.
pub open spec fn kind_order() -> Seq<DriverKind> {
    seq![DriverKind::Firefox, DriverKind::Safari, DriverKind::Chrome, DriverKind::Edge]
}

/// The first kind, from position `from` of the fixed order on, of which
/// `accepts` holds.
pub open spec fn first_kind_from(accepts: spec_fn(DriverKind) -> bool, from: int) -> Option<
    DriverKind,
>
    decreases 4 - from,
{
    if from < 0 || from >= 4 {
        None
    } else if accepts(kind_order()[from]) {
        Some(kind_order()[from])
    } else {
        first_kind_from(accepts, from + 1)
    }
}

/// The first kind of the fixed order of which `accepts` holds.
pub open spec fn first_kind(accepts: spec_fn(DriverKind) -> bool) -> Option<DriverKind> {
    first_kind_from(accepts, 0)
}

impl DriverKind {
    /// The position of the kind in the fixed order.
    pub open spec fn rank(self) -> int {
        match self {
            DriverKind::Firefox => 0,
            DriverKind::Safari => 1,
            DriverKind::Chrome => 2,
            DriverKind::Edge => 3,
        }
    }

    /// The name of the kind's driver binary.
    pub open spec fn binary(self) -> Seq<char> {
        match self {
            DriverKind::Firefox => "geckodriver"@,
            DriverKind::Safari => "safaridriver"@,
            DriverKind::Chrome => "chromedriver"@,
            DriverKind::Edge => "msedgedriver"@,
        }
    }

    /// The name of the environment variable that names the kind's binary.
    pub open spec fn variable(self) -> Seq<char> {
        match self {
            DriverKind::Firefox => "GECKODRIVER"@,
            DriverKind::Safari => "SAFARIDRIVER"@,
            DriverKind::Chrome => "CHROMEDRIVER"@,
            DriverKind::Edge => "MSEDGEDRIVER"@,
        }
    }

    /// The name of the variable that names a running driver of the kind.
    pub open spec fn remote_variable(self) -> Seq<char> {
        self.variable() + "_REMOTE"@
    }

    /// The name of the variable that holds further arguments for the binary.
    pub open spec fn args_variable(self) -> Seq<char> {
        self.variable() + "_ARGS"@
    }

    /// Whether a driver of this kind can be fetched on demand.
    pub open spec fn installable(self) -> bool {
        self == DriverKind::Firefox || self == DriverKind::Chrome
    }

    /// The kind at position `i` of the fixed order.
    pub fn at(i: usize) -> (r: DriverKind)
        requires
            i < 4,
        ensures
            r == kind_order()[i as int],
    {
        if i == 0 {
            DriverKind::Firefox
        } else if i == 1 {
            DriverKind::Safari
        } else if i == 2 {
            DriverKind::Chrome
        } else {
            DriverKind::Edge
        }
    }

    /// The name of the kind's driver binary.
    pub fn binary_name(self) -> (r: &'static str)
        ensures
            r@ == self.binary(),
    {
        match self {
            DriverKind::Firefox => "geckodriver",
            DriverKind::Safari => "safaridriver",
            DriverKind::Chrome => "chromedriver",
            DriverKind::Edge => "msedgedriver",
        }
    }

    /// The name of the environment variable that names the kind's binary.
    pub fn variable_name(self) -> (r: &'static str)
        ensures
            r@ == self.variable(),
    {
        match self {
            DriverKind::Firefox => "GECKODRIVER",
            DriverKind::Safari => "SAFARIDRIVER",
            DriverKind::Chrome => "CHROMEDRIVER",
            DriverKind::Edge => "MSEDGEDRIVER",
        }
    }

    /// The name of the variable that names a running driver of the kind.
    pub fn remote_variable_name(self) -> (r: String)
        ensures
            r@ == self.remote_variable(),
    {
        String::from_str(self.variable_name()).concat("_REMOTE")
    }

    /// The name of the variable that holds further arguments for the binary.
    pub fn args_variable_name(self) -> (r: String)
        ensures
            r@ == self.args_variable(),
    {
        String::from_str(self.variable_name()).concat("_ARGS")
    }

    /// Whether a driver of this kind can be fetched on demand.
    pub fn can_auto_install(self) -> (r: bool)
        ensures
            r == self.installable(),
    {
        match self {
            DriverKind::Firefox => true,
            DriverKind::Safari => false,
            DriverKind::Chrome => true,
            DriverKind::Edge => false,
        }
    }
}

/// Where a driver is to be had: a binary on this machine with the arguments
/// to start it with, or the address of one that is running.
#[derive(Debug)]
pub enum DriverLocation {
    Local { path: String, args: Vec<String> },
    Remote { url: String },
}

/// What a `DriverLocation` holds.
pub enum LocationView {
    Local { path: Seq<char>, args: Seq<Seq<char>> },
    Remote { url: Seq<char> },
}

impl View for DriverLocation {
    type V = LocationView;

    open spec fn view(&self) -> LocationView {
        match self {
            DriverLocation::Local { path, args } => LocationView::Local {
                path: path@,
                args: texts(args@),
            },
            DriverLocation::Remote { url } => LocationView::Remote { url: url@ },
        }
    }
}

/// A driver that was settled on: its kind and its location.
#[derive(Debug)]
pub struct DriverInfo {
    pub kind: DriverKind,
    pub location: DriverLocation,
}

/// What a `DriverInfo` holds.
pub struct InfoView {
    pub kind: DriverKind,
    pub location: LocationView,
}

impl View for DriverInfo {
    type V = InfoView;

    open spec fn view(&self) -> InfoView {
        InfoView { kind: self.kind, location: self.location@ }
    }
}

impl DriverInfo {
    /// The browser that the driver drives.
    pub fn browser(&self) -> (r: DriverKind)
        ensures
            r == self.kind,
    {
        self.kind
    }

    /// Where the driver is to be had.
    pub fn location(&self) -> (r: &DriverLocation)
        ensures
            r == &self.location,
    {
        &self.location
    }
}

} // verus!
