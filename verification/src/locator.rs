//! Settling on a browser driver.
//!
//! The driver is looked for in a fixed chain, and the first link that finds
//! one decides: a running driver named in the environment, a binary named in
//! the environment (or the request to fetch one), a binary on the search
//! path.

use vstd::prelude::*;
use vstd::string::*;
use crate::address::{parse_url, url_parse};
use crate::driver::{
    first_kind, first_kind_from, kind_order, DriverInfo, DriverKind, DriverLocation, InfoView,
    LocationView,
};
use crate::environment::{lookup, Environment};
use crate::text::{
    eq_ignoring_ascii_case, same_text_ignoring_ascii_case, split_words, string_view, texts, words,
};

verus! {

/// Which driver binaries one directory of the search path holds.
#[derive(Clone, Copy, Debug, PartialEq, Eq, Structural)]
pub struct DirectoryScan {
    pub firefox: bool,
    pub safari: bool,
    pub chrome: bool,
    pub edge: bool,
}

impl DirectoryScan {
    /// Whether the directory holds the binary of `kind`.
    pub open spec fn holds(self, kind: DriverKind) -> bool {
        match kind {
            DriverKind::Firefox => self.firefox,
            DriverKind::Safari => self.safari,
            DriverKind::Chrome => self.chrome,
            DriverKind::Edge => self.edge,
        }
    }

    /// Whether the directory holds the binary of `kind`.
    pub fn has(&self, kind: DriverKind) -> (r: bool)
        ensures
            r == self.holds(kind),
    {
        match kind {
            DriverKind::Firefox => self.firefox,
            DriverKind::Safari => self.safari,
            DriverKind::Chrome => self.chrome,
            DriverKind::Edge => self.edge,
        }
    }
}

/// Why no driver could be settled on.
#[derive(Clone, Copy, Debug, PartialEq, Eq, Structural)]
pub enum ResolutionFailure {
    /// No link of the chain found a driver.
    NoDriverFound,
    /// A driver of a kind that cannot be fetched was asked to be fetched.
    AutoInstallUnsupported(DriverKind),
    /// Fetching the driver failed.
    InstallFailed(DriverKind),
}

/// How the chain ended: with a driver, or with the request to fetch one and
/// start it with the given arguments.
#[derive(Debug)]
pub enum Resolution {
    Found(DriverInfo),
    Install { kind: DriverKind, args: Vec<String> },
}

/// What a `Resolution` holds.
pub enum ResolutionView {
    Found(InfoView),
    Install { kind: DriverKind, args: Seq<Seq<char>> },
}

impl View for Resolution {
    type V = ResolutionView;

    open spec fn view(&self) -> ResolutionView {
        match self {
            Resolution::Found(info) => ResolutionView::Found(info@),
            Resolution::Install { kind, args } => ResolutionView::Install {
                kind: *kind,
                args: texts(args@),
            },
        }
    }
}

/// What the chain's result holds.
pub open spec fn outcome_view(r: Result<Resolution, ResolutionFailure>) -> Result<
    ResolutionView,
    ResolutionFailure,
> {
    match r {
        Ok(resolution) => Ok(resolution@),
        Err(failure) => Err(failure),
    }
}

/// What an optional driver holds.
pub open spec fn info_view(r: Option<DriverInfo>) -> Option<InfoView> {
    match r {
        Some(info) => Some(info@),
        None => None,
    }
}

/// The address of a running driver of `kind` that the environment names, if
/// it names one and the address is well-formed.
pub open spec fn remote_address(env: Seq<(Seq<char>, Seq<char>)>, kind: DriverKind) -> Option<
    Seq<char>,
> {
    match lookup(env, kind.remote_variable()) {
        Some(value) => url_parse(value),
        None => None,
    }
}

/// The kinds of which the environment names a running driver.
pub open spec fn has_remote(env: Seq<(Seq<char>, Seq<char>)>) -> spec_fn(DriverKind) -> bool {
    |kind: DriverKind| remote_address(env, kind) is Some
}

/// First link: the first kind of which the environment names a running
/// driver, with the address.
pub open spec fn remote_override(env: Seq<(Seq<char>, Seq<char>)>) -> Option<InfoView> {
    match first_kind(has_remote(env)) {
        Some(kind) => Some(
            InfoView {
                kind,
                location: LocationView::Remote { url: remote_address(env, kind)->0 },
            },
        ),
        None => None,
    }
}

/// Whether the environment names a binary of `kind`: the variable is set and
/// not empty.
pub open spec fn names_binary(env: Seq<(Seq<char>, Seq<char>)>, kind: DriverKind) -> bool {
    lookup(env, kind.variable()) matches Some(value) && value.len() > 0
}

/// The kinds of which the environment names a binary.
pub open spec fn has_binary(env: Seq<(Seq<char>, Seq<char>)>) -> spec_fn(DriverKind) -> bool {
    |kind: DriverKind| names_binary(env, kind)
}

/// The further arguments that the environment holds for the binary of `kind`.
pub open spec fn extra_args(env: Seq<(Seq<char>, Seq<char>)>, kind: DriverKind) -> Seq<Seq<char>> {
    match lookup(env, kind.args_variable()) {
        Some(value) => words(value),
        None => seq![],
    }
}

/// Whether a variable's value asks for the driver to be fetched: the word
/// `auto`, in any case.
pub open spec fn asks_install(value: Seq<char>) -> bool {
    eq_ignoring_ascii_case(value, "auto"@)
}

/// What the environment's naming a binary of `kind` leads to.
pub open spec fn local_choice(env: Seq<(Seq<char>, Seq<char>)>, kind: DriverKind) -> Result<
    ResolutionView,
    ResolutionFailure,
> {
    let value = lookup(env, kind.variable())->0;
    if asks_install(value) {
        if kind.installable() {
            Ok(ResolutionView::Install { kind, args: extra_args(env, kind) })
        } else {
            Err(ResolutionFailure::AutoInstallUnsupported(kind))
        }
    } else {
        Ok(
            ResolutionView::Found(
                InfoView {
                    kind,
                    location: LocationView::Local { path: value, args: extra_args(env, kind) },
                },
            ),
        )
    }
}

/// Second link: the first kind of which the environment names a binary
/// decides.
pub open spec fn local_override(env: Seq<(Seq<char>, Seq<char>)>) -> Option<
    Result<ResolutionView, ResolutionFailure>,
> {
    match first_kind(has_binary(env)) {
        Some(kind) => Some(local_choice(env, kind)),
        None => None,
    }
}

/// The kinds whose binary a directory holds.
pub open spec fn in_directory(dir: DirectoryScan) -> spec_fn(DriverKind) -> bool {
    |kind: DriverKind| dir.holds(kind)
}

/// The kind found on the search path: that of the first directory that holds
/// a binary, and in it the first kind of the fixed order.
pub open spec fn first_on_path(dirs: Seq<DirectoryScan>) -> Option<DriverKind>
    decreases dirs.len(),
{
    if dirs.len() == 0 {
        None
    } else if first_kind(in_directory(dirs[0])) is Some {
        first_kind(in_directory(dirs[0]))
    } else {
        first_on_path(dirs.drop_first())
    }
}

/// Third link: the binary found on the search path, called by its bare name
/// and without further arguments.
pub open spec fn path_default(dirs: Seq<DirectoryScan>) -> Option<InfoView> {
    match first_on_path(dirs) {
        Some(kind) => Some(
            InfoView {
                kind,
                location: LocationView::Local { path: kind.binary(), args: seq![] },
            },
        ),
        None => None,
    }
}

/// The chain from its second link on, given what the first link found.
pub open spec fn resolution_after(
    remote: Option<InfoView>,
    env: Seq<(Seq<char>, Seq<char>)>,
    dirs: Seq<DirectoryScan>,
) -> Result<ResolutionView, ResolutionFailure> {
    if remote is Some {
        Ok(ResolutionView::Found(remote->0))
    } else if local_override(env) is Some {
        local_override(env)->0
    } else if path_default(dirs) is Some {
        Ok(ResolutionView::Found(path_default(dirs)->0))
    } else {
        Err(ResolutionFailure::NoDriverFound)
    }
}

/// The whole chain.
pub open spec fn resolution(env: Seq<(Seq<char>, Seq<char>)>, dirs: Seq<DirectoryScan>) -> Result<
    ResolutionView,
    ResolutionFailure,
> {
    resolution_after(remote_override(env), env, dirs)
}

/// Whether the search path decides: the environment names neither a
/// running driver nor a binary.
pub open spec fn path_decides(env: Seq<(Seq<char>, Seq<char>)>) -> bool {
    remote_override(env) is None && local_override(env) is None
}

/// The driver that a fetch ended with: the fetched binary with the arguments
/// that were kept for it, or the failure to fetch one.
pub open spec fn installed(kind: DriverKind, args: Seq<Seq<char>>, path: Option<Seq<char>>) -> Result<
    InfoView,
    ResolutionFailure,
> {
    match path {
        Some(path) => Ok(InfoView { kind, location: LocationView::Local { path, args } }),
        None => Err(ResolutionFailure::InstallFailed(kind)),
    }
}

/// Settles on the browser driver to use.
pub struct DriverLocator;

impl DriverLocator {
    /// The further arguments that the environment holds for the binary of
    /// `kind`.
    pub fn driver_args(env: &Environment, kind: DriverKind) -> (r: Vec<String>)
        ensures
            texts(r@) == extra_args(env@, kind),
    {
        let name = kind.args_variable_name();
        match env.get(name.as_str()) {
            Some(value) => split_words(value.as_str()),
            None => {
                let none: Vec<String> = Vec::new();
                assert(texts(none@) =~= Seq::<Seq<char>>::empty());
                none
            },
        }
    }

    /// First link of the chain: the running driver that the environment
    /// names.
    pub fn find_remote(env: &Environment) -> (r: Option<DriverInfo>)
        ensures
            info_view(r) == remote_override(env@),
    {
        let mut i: usize = 0;
        while i < 4
            invariant
                i <= 4,
                first_kind(has_remote(env@)) == first_kind_from(has_remote(env@), i as int),
            decreases 4 - i,
        {
            let kind = DriverKind::at(i);
            let name = kind.remote_variable_name();
            match env.get(name.as_str()) {
                Some(value) => {
                    match parse_url(value.as_str()) {
                        Some(url) => {
                            return Some(
                                DriverInfo { kind, location: DriverLocation::Remote { url } },
                            );
                        },
                        None => {},
                    }
                },
                None => {},
            }
            i += 1;
        }
        None
    }

    /// Second link of the chain: the binary that the environment names, or
    /// its request to fetch one.
    pub fn find_local_override(env: &Environment) -> (r: Option<
        Result<Resolution, ResolutionFailure>,
    >)
        ensures
            r matches Some(choice) ==> local_override(env@) == Some(outcome_view(choice)),
            r is None ==> local_override(env@) is None,
    {
        let mut i: usize = 0;
        while i < 4
            invariant
                i <= 4,
                first_kind(has_binary(env@)) == first_kind_from(has_binary(env@), i as int),
            decreases 4 - i,
        {
            let kind = DriverKind::at(i);
            match env.get(kind.variable_name()) {
                Some(value) => {
                    if value.as_str().unicode_len() > 0 {
                        let args = Self::driver_args(env, kind);
                        if same_text_ignoring_ascii_case(value.as_str(), "auto") {
                            if kind.can_auto_install() {
                                return Some(Ok(Resolution::Install { kind, args }));
                            } else {
                                return Some(Err(ResolutionFailure::AutoInstallUnsupported(kind)));
                            }
                        } else {
                            let info = DriverInfo {
                                kind,
                                location: DriverLocation::Local { path: value.clone(), args },
                            };
                            return Some(Ok(Resolution::Found(info)));
                        }
                    }
                },
                None => {},
            }
            i += 1;
        }
        None
    }

    /// The first kind of the fixed order whose binary `dir` holds.
    pub fn find_in_directory(dir: &DirectoryScan) -> (r: Option<DriverKind>)
        ensures
            r == first_kind(in_directory(*dir)),
    {
        let mut i: usize = 0;
        while i < 4
            invariant
                i <= 4,
                first_kind(in_directory(*dir)) == first_kind_from(in_directory(*dir), i as int),
            decreases 4 - i,
        {
            let kind = DriverKind::at(i);
            if dir.has(kind) {
                return Some(kind);
            }
            i += 1;
        }
        None
    }

    /// Third link of the chain: the binary found on the search path.
    pub fn find_on_path(dirs: &Vec<DirectoryScan>) -> (r: Option<DriverInfo>)
        ensures
            info_view(r) == path_default(dirs@),
    {
        let mut i: usize = 0;
        assert(dirs@.skip(0) == dirs@);
        while i < dirs.len()
            invariant
                i <= dirs.len(),
                first_on_path(dirs@) == first_on_path(dirs@.skip(i as int)),
            decreases dirs.len() - i,
        {
            assert(dirs@.skip(i as int).drop_first() == dirs@.skip(i + 1));
            match Self::find_in_directory(&dirs[i]) {
                Some(kind) => {
                    let args: Vec<String> = Vec::new();
                    assert(texts(args@) =~= Seq::<Seq<char>>::empty());
                    return Some(
                        DriverInfo {
                            kind,
                            location: DriverLocation::Local {
                                path: String::from_str(kind.binary_name()),
                                args,
                            },
                        },
                    );
                },
                None => {},
            }
            i += 1;
        }
        None
    }

    /// The chain from its second link on, given what the first link found.
    pub fn resolve_after_remote(
        remote: Option<DriverInfo>,
        env: &Environment,
        dirs: &Vec<DirectoryScan>,
    ) -> (r: Result<Resolution, ResolutionFailure>)
        ensures
            outcome_view(r) == resolution_after(info_view(remote), env@, dirs@),
    {
        match remote {
            Some(info) => Ok(Resolution::Found(info)),
            None => match Self::find_local_override(env) {
                Some(choice) => choice,
                None => match Self::find_on_path(dirs) {
                    Some(info) => Ok(Resolution::Found(info)),
                    None => Err(ResolutionFailure::NoDriverFound),
                },
            },
        }
    }

    /// Whether the search path has to be scanned: where the environment
    /// decides, `resolve` does not look at what the directories hold.
    pub fn needs_search_path(env: &Environment) -> (r: bool)
        ensures
            r == path_decides(env@),
    {
        Self::find_remote(env).is_none() && Self::find_local_override(env).is_none()
    }

    /// Settles on a driver: the first link of the chain that finds one
    /// decides, and where none does the search fails.
    pub fn resolve(env: &Environment, dirs: &Vec<DirectoryScan>) -> (r: Result<
        Resolution,
        ResolutionFailure,
    >)
        ensures
            outcome_view(r) == resolution(env@, dirs@),
    {
        let remote = Self::find_remote(env);
        Self::resolve_after_remote(remote, env, dirs)
    }

    /// Ends a resolution that asked for a driver to be fetched: `path` is the
    /// fetched binary, or nothing where the fetch failed.
    pub fn complete_install(kind: DriverKind, args: Vec<String>, path: Option<String>) -> (r:
        Result<DriverInfo, ResolutionFailure>)
        ensures
            match r {
                Ok(info) => installed(kind, texts(args@), string_view(path)) == Ok::<
                    InfoView,
                    ResolutionFailure,
                >(info@),
                Err(failure) => installed(kind, texts(args@), string_view(path))
                    == Err::<InfoView, ResolutionFailure>(failure),
            },
    {
        match path {
            Some(path) => Ok(DriverInfo { kind, location: DriverLocation::Local { path, args } }),
            None => Err(ResolutionFailure::InstallFailed(kind)),
        }
    }
}

/// A running driver that the environment names is used whatever else the
/// environment and the search path hold.
pub proof fn lemma_remote_takes_precedence(
    env: Seq<(Seq<char>, Seq<char>)>,
    dirs: Seq<DirectoryScan>,
)
    requires
        remote_override(env) is Some,
    ensures
        resolution(env, dirs) == Ok::<ResolutionView, ResolutionFailure>(
            ResolutionView::Found(remote_override(env)->0),
        ),
        resolution(env, dirs) matches Ok(ResolutionView::Found(info))
            && info.location is Remote,
{
}

/// Where the environment names no running driver and asks for a driver that
/// can be fetched, the fetch is asked for whatever the search path holds.
pub proof fn lemma_install_is_attempted(
    env: Seq<(Seq<char>, Seq<char>)>,
    dirs: Seq<DirectoryScan>,
    kind: DriverKind,
)
    requires
        remote_override(env) is None,
        first_kind(has_binary(env)) == Some(kind),
        asks_install(lookup(env, kind.variable())->0),
        kind.installable(),
    ensures
        resolution(env, dirs) == Ok::<ResolutionView, ResolutionFailure>(
            ResolutionView::Install { kind, args: extra_args(env, kind) },
        ),
{
}

/// Asking for a driver that cannot be fetched fails: it does not fall through
/// to the search path.
pub proof fn lemma_unsupported_install_fails(
    env: Seq<(Seq<char>, Seq<char>)>,
    dirs: Seq<DirectoryScan>,
    kind: DriverKind,
)
    requires
        remote_override(env) is None,
        first_kind(has_binary(env)) == Some(kind),
        asks_install(lookup(env, kind.variable())->0),
        !kind.installable(),
    ensures
        resolution(env, dirs) == Err::<ResolutionView, ResolutionFailure>(
            ResolutionFailure::AutoInstallUnsupported(kind),
        ),
{
}

/// Where the environment decides, what the search path holds makes no
/// difference.
pub proof fn lemma_path_is_last(
    env: Seq<(Seq<char>, Seq<char>)>,
    dirs: Seq<DirectoryScan>,
    other_dirs: Seq<DirectoryScan>,
)
    requires
        !path_decides(env),
    ensures
        resolution(env, dirs) == resolution(env, other_dirs),
{
}

/// The search fails for want of a driver exactly when no link of the chain
/// finds one.
pub proof fn lemma_no_driver_found(env: Seq<(Seq<char>, Seq<char>)>, dirs: Seq<DirectoryScan>)
    ensures
        resolution(env, dirs) == Err::<ResolutionView, ResolutionFailure>(
            ResolutionFailure::NoDriverFound,
        ) <==> remote_override(env) is None && local_override(env) is None && path_default(dirs)
            is None,
{
    if remote_override(env) is None && local_override(env) is Some {
        let kind = first_kind(has_binary(env))->0;
        assert(local_override(env)->0 == local_choice(env, kind));
    }
}

/// The first kind of which `accepts` holds is accepted, and no kind before
/// it in the fixed order is.
pub proof fn lemma_first_kind(accepts: spec_fn(DriverKind) -> bool)
    ensures
        first_kind(accepts) matches Some(kind) ==> accepts(kind) && forall|other: DriverKind|
            other.rank() < kind.rank() ==> !accepts(other),
        first_kind(accepts) is None ==> forall|other: DriverKind|
            0 <= #[trigger] other.rank() ==> !accepts(other),
{
    reveal_with_fuel(first_kind_from, 5);
    assert(kind_order()[0] == DriverKind::Firefox);
    assert(kind_order()[1] == DriverKind::Safari);
    assert(kind_order()[2] == DriverKind::Chrome);
    assert(kind_order()[3] == DriverKind::Edge);
}

} // verus!
