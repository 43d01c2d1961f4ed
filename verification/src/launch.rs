//! Launching the Roslyn language server: honour a user-configured binary,
//! reuse the binary found before while it still exists, or fetch the newest
//! `roslyn-language-server` package from NuGet, unpack it once, and start it.
//!
//! The host performs each step (settings, files, network, statuses); a
//! [`RoslynLaunch`] decides, one event at a time, what comes next.

use vstd::prelude::*;
use crate::text::{views, concat, push_string, append_all};
use crate::server::{Command, ServerPath, Os, Architecture, spec_rid, rid_for_platform, command_matches};
use crate::roslyn::{Roslyn, DirEntry, located_server, tools_dir};
use crate::status::InstallStatus;

verus! {

/// The user's `lsp.roslyn-razor.binary` settings.
pub struct BinarySettings {
    pub path: Option<String>,
    pub arguments: Option<Vec<String>>,
}

/// Where a launch stands: which event it waits for next.
#[derive(Debug, Clone, Copy, PartialEq, Eq, Structural)]
pub enum LaunchPhase {
    /// Waits for the user's binary settings.
    AwaitBinarySettings,
    /// Waits for the Razor extension bootstrap.
    AwaitRazor,
    /// Waits to learn whether the binary found before still exists.
    CheckCached,
    /// Waits for the "checking for update" status to be shown.
    ShowChecking,
    /// Waits for the platform.
    AwaitPlatform,
    /// Waits for the newest package version.
    AwaitVersion,
    /// Waits for the tools listing, to learn whether the version is unpacked.
    ProbeListing,
    /// Waits for the absolute path of the assembly, to learn the same.
    ProbeAbsolute,
    /// Waits to learn whether the binary of that version exists.
    ProbeFile,
    /// Waits for the "downloading" status to be shown.
    ShowDownloading,
    /// Waits for the package download.
    Download,
    /// Waits for older versions to be removed.
    Cleanup,
    /// Waits for the tools listing, to find the binary.
    FindListing,
    /// Waits for the absolute path of the assembly found.
    FindAbsolute,
    /// Waits for the executable found to be made executable.
    AwaitExecutable,
    /// Finished.
    Done,
}

/// What the host does next for a launch.
#[derive(Debug)]
pub enum LaunchAction {
    /// Read `lsp.roslyn-razor.binary` and report it.
    ReadBinarySettings,
    /// Run the Razor extension bootstrap and report its outcome.
    InstallOrUpdateRazor,
    /// Report whether this path names an existing regular file.
    CheckIsFile(String),
    /// Show an installation status, then report.
    SetStatus(InstallStatus),
    /// Report the platform.
    QueryPlatform,
    /// Fetch the newest version of this NuGet package and report it.
    FetchLatestVersion(String),
    /// List this directory and report its entries.
    ListDirectory(String),
    /// Report the absolute form of this path.
    Absolutize(String),
    /// Download this version of the package and unpack it into `version_dir`.
    DownloadPackage { package_id: String, version: String, version_dir: String },
    /// Remove the directories whose names start with `prefix`, except `keep`.
    RemoveOutdatedVersions { prefix: String, keep: String },
    /// Make this file executable.
    MakeExecutable(String),
    /// The launch is over: the command that starts the server, or an error.
    Finish(Result<Command, String>),
}

/// The arguments every launch passes, then the Razor bootstrap's, then the
/// user's.
pub open spec fn launch_args(razor: Option<Seq<Seq<char>>>, user: Option<Seq<Seq<char>>>) -> Seq<Seq<char>> {
    seq!["--stdio"@, "--autoLoadProjects"@] + match razor {
        Some(a) => a,
        None => seq![],
    } + match user {
        Some(a) => a,
        None => seq![],
    }
}

/// The strings of an optional list.
pub open spec fn opt_views(v: Option<Vec<String>>) -> Option<Seq<Seq<char>>> {
    match v {
        Some(v) => Some(views(v@)),
        None => None,
    }
}

/// The NuGet package of the server for the runtime identifier `rid`.
pub open spec fn package_id(rid: Seq<char>) -> Seq<char> {
    "roslyn-language-server."@ + rid
}

/// The directory a package version is unpacked into.
pub open spec fn version_dir(version: Seq<char>) -> Seq<char> {
    "roslyn-razor-"@ + version
}

/// Whether `a` ends the launch with a command starting `sp` with `args`.
pub open spec fn finishes_with(a: LaunchAction, sp: ServerPath, args: Seq<Seq<char>>) -> bool {
    match a {
        LaunchAction::Finish(Ok(c)) => command_matches(c, sp, args),
        _ => false,
    }
}

/// Whether `a` ends the launch with the error `msg`.
pub open spec fn fails_with(a: LaunchAction, msg: Seq<char>) -> bool {
    match a {
        LaunchAction::Finish(Err(m)) => m@ == msg,
        _ => false,
    }
}

/// Whether `a` asks to check that `path` is a file.
pub open spec fn checks_file(a: LaunchAction, path: Seq<char>) -> bool {
    match a {
        LaunchAction::CheckIsFile(p) => p@ == path,
        _ => false,
    }
}

/// Whether `a` asks to list `dir`.
pub open spec fn lists(a: LaunchAction, dir: Seq<char>) -> bool {
    match a {
        LaunchAction::ListDirectory(d) => d@ == dir,
        _ => false,
    }
}

/// Whether `a` asks for the absolute form of `path`.
pub open spec fn absolutizes(a: LaunchAction, path: Seq<char>) -> bool {
    match a {
        LaunchAction::Absolutize(p) => p@ == path,
        _ => false,
    }
}

/// One launch of the Roslyn language server.
pub struct RoslynLaunch {
    pub phase: LaunchPhase,
    /// The binary the user configured, if any.
    pub override_path: Option<String>,
    /// The arguments the user configured, if any.
    pub user_args: Option<Vec<String>>,
    /// All arguments after the server binary, once known.
    pub extra_args: Vec<String>,
    pub rid: String,
    pub package_id: String,
    pub version: String,
    pub version_dir: String,
    /// The binary about to be used.
    pub pending: Option<ServerPath>,
}

/// Whether `new` keeps the plan of `old`: the arguments, the runtime
/// identifier, the package, its version and its directory.
pub open spec fn keeps_plan(old: RoslynLaunch, new: RoslynLaunch) -> bool {
    &&& new.extra_args == old.extra_args
    &&& new.rid == old.rid
    &&& new.package_id == old.package_id
    &&& new.version == old.version
    &&& new.version_dir == old.version_dir
}

impl Roslyn {
    /// Starts a launch of the server: the user's binary settings are read
    /// first.
    pub fn language_server_cmd(&self) -> (r: (RoslynLaunch, LaunchAction))
        ensures
            r.0.phase == LaunchPhase::AwaitBinarySettings,
            r.0.override_path is None,
            r.0.user_args is None,
            r.0.extra_args@.len() == 0,
            r.0.rid@.len() == 0,
            r.0.package_id@.len() == 0,
            r.0.version@.len() == 0,
            r.0.version_dir@.len() == 0,
            r.0.pending is None,
            r.1 is ReadBinarySettings,
    {
        (
            RoslynLaunch {
                phase: LaunchPhase::AwaitBinarySettings,
                override_path: None,
                user_args: None,
                extra_args: Vec::new(),
                rid: String::new(),
                package_id: String::new(),
                version: String::new(),
                version_dir: String::new(),
                pending: None,
            },
            LaunchAction::ReadBinarySettings,
        )
    }

    /// Whether a directory entry named `name` is an unpacked version other
    /// than `keep` among those whose names start with `prefix`.
    pub fn is_outdated_version(name: &str, prefix: &str, keep: &str) -> (r: bool)
        ensures
            r == (prefix@.is_prefix_of(name@) && name@ != keep@),
    {
        crate::text::starts_with(name, prefix) && !crate::text::str_eq(name, keep)
    }
}

impl RoslynLaunch {
    fn take_extra_args(&mut self) -> (r: Vec<String>)
        ensures
            r@ == old(self).extra_args@,
            final(self).phase == old(self).phase,
            final(self).pending == old(self).pending,
            final(self).version_dir == old(self).version_dir,
    {
        let mut out: Vec<String> = Vec::new();
        std::mem::swap(&mut out, &mut self.extra_args);
        out
    }

    /// The user's binary settings are in; the Razor bootstrap runs next.
    pub fn on_binary_settings(&mut self, binary: Option<BinarySettings>) -> (a: LaunchAction)
        requires
            old(self).phase == LaunchPhase::AwaitBinarySettings,
        ensures
            final(self).phase == LaunchPhase::AwaitRazor,
            a is InstallOrUpdateRazor,
            match binary {
                Some(b) => final(self).override_path == b.path && final(self).user_args == b.arguments,
                None => final(self).override_path is None && final(self).user_args is None,
            },
    {
        match binary {
            Some(b) => {
                self.override_path = b.path;
                self.user_args = b.arguments;
            },
            None => {
                self.override_path = None;
                self.user_args = None;
            },
        }
        self.phase = LaunchPhase::AwaitRazor;
        LaunchAction::InstallOrUpdateRazor
    }

    /// The Razor bootstrap is over. Its error ends the launch; otherwise the
    /// arguments are settled, and a binary the user configured is started
    /// as it is; else the binary found before is checked, or the newest
    /// version is looked up.
    pub fn on_razor_args(&mut self, roslyn: &Roslyn, razor: Result<Option<Vec<String>>, String>) -> (a: LaunchAction)
        requires
            old(self).phase == LaunchPhase::AwaitRazor,
        ensures
            razor matches Err(e) ==> final(self).phase == LaunchPhase::Done && fails_with(a, e@),
            razor matches Ok(r) ==> views(final(self).extra_args@) == launch_args(
                opt_views(r),
                opt_views(old(self).user_args),
            ),
            razor matches Ok(r) ==> views(final(self).extra_args@) == seq!["--stdio"@, "--autoLoadProjects"@]
                + (if r is Some {
                views(r->0@)
            } else {
                seq![]
            }) + (if old(self).user_args is Some {
                views(old(self).user_args->0@)
            } else {
                seq![]
            }),
            razor is Ok && old(self).override_path is Some ==> final(self).phase == LaunchPhase::Done
                && finishes_with(a, ServerPath::Exe(old(self).override_path->0), views(final(self).extra_args@)),
            razor is Ok && old(self).override_path is None && roslyn.cached_server_path is Some
                ==> final(self).phase == LaunchPhase::CheckCached && final(self).pending
                == roslyn.cached_server_path && checks_file(a, roslyn.cached_server_path->0.path()),
            razor is Ok && old(self).override_path is None && roslyn.cached_server_path is None
                ==> final(self).phase == LaunchPhase::ShowChecking && a == LaunchAction::SetStatus(
                InstallStatus::CheckingForUpdate,
            ),
    {
        if razor.is_err() {
            self.phase = LaunchPhase::Done;
            return match razor {
                Err(e) => LaunchAction::Finish(Err(e)),
                Ok(_) => LaunchAction::Finish(Err(String::new())),
            };
        }
        let razor_args = match razor {
            Ok(r) => r,
            Err(_) => None,
        };
        let mut args: Vec<String> = Vec::new();
        push_string(&mut args, String::from_str("--stdio"));
        push_string(&mut args, String::from_str("--autoLoadProjects"));
        match razor_args {
            Some(r) => append_all(&mut args, r),
            None => {},
        }
        let mut user: Option<Vec<String>> = None;
        std::mem::swap(&mut user, &mut self.user_args);
        match user {
            Some(u) => append_all(&mut args, u),
            None => {},
        }
        assert(views(args@) =~= launch_args(opt_views(razor_args), opt_views(old(self).user_args)));
        match &self.override_path {
            Some(p) => {
                self.phase = LaunchPhase::Done;
                self.extra_args = args;
                let c = Command { command: p.clone(), args: self.extra_args.clone(), env: Vec::new() };
                assert(views(c.args@) =~= views(self.extra_args@)) by {
                    assert forall|i: int| 0 <= i < c.args@.len() implies c.args@[i] == self.extra_args@[i] by {
                        assert(cloned::<String>(self.extra_args@[i], c.args@[i]));
                    }
                };
                LaunchAction::Finish(Ok(c))
            },
            None => {
                self.extra_args = args;
                match &roslyn.cached_server_path {
                    Some(sp) => {
                        self.pending = Some(sp.duplicate());
                        self.phase = LaunchPhase::CheckCached;
                        LaunchAction::CheckIsFile(String::from_str(sp.as_str()))
                    },
                    None => {
                        self.phase = LaunchPhase::ShowChecking;
                        LaunchAction::SetStatus(InstallStatus::CheckingForUpdate)
                    },
                }
            },
        }
    }

    /// Whether a binary exists: the one found before is started with the
    /// settled arguments when it still exists, and otherwise the newest
    /// version is looked up; the probed binary of the newest version is used
    /// when it exists, and otherwise that version is downloaded.
    pub fn on_is_file(&mut self, is_file: bool) -> (a: LaunchAction)
        requires
            old(self).phase == LaunchPhase::CheckCached || old(self).phase == LaunchPhase::ProbeFile,
            old(self).phase == LaunchPhase::CheckCached ==> old(self).pending is Some,
        ensures
            final(self).pending == old(self).pending,
            final(self).phase != LaunchPhase::Done ==> keeps_plan(*old(self), *final(self)),
            old(self).phase == LaunchPhase::CheckCached ==> if is_file {
                final(self).phase == LaunchPhase::Done && finishes_with(
                    a,
                    old(self).pending->0,
                    views(old(self).extra_args@),
                )
            } else {
                final(self).phase == LaunchPhase::ShowChecking && a == LaunchAction::SetStatus(
                    InstallStatus::CheckingForUpdate,
                )
            },
            old(self).phase == LaunchPhase::ProbeFile ==> if is_file {
                final(self).phase == LaunchPhase::FindListing && lists(a, tools_dir(old(self).version_dir@))
            } else {
                final(self).phase == LaunchPhase::ShowDownloading && a == LaunchAction::SetStatus(
                    InstallStatus::Downloading,
                )
            },
    {
        if self.phase == LaunchPhase::CheckCached {
            if is_file {
                if self.pending.is_some() {
                    self.phase = LaunchPhase::Done;
                    let extra = self.take_extra_args();
                    match &self.pending {
                        Some(sp) => {
                            let c = Roslyn::build_command(sp, extra);
                            return LaunchAction::Finish(Ok(c));
                        },
                        None => {},
                    }
                }
            }
            self.phase = LaunchPhase::ShowChecking;
            LaunchAction::SetStatus(InstallStatus::CheckingForUpdate)
        } else if is_file {
            self.phase = LaunchPhase::FindListing;
            LaunchAction::ListDirectory(concat(self.version_dir.as_str(), "/tools"))
        } else {
            self.phase = LaunchPhase::ShowDownloading;
            LaunchAction::SetStatus(InstallStatus::Downloading)
        }
    }

    /// A status is shown: the platform is queried next after "checking for
    /// update", the download starts after "downloading".
    pub fn on_status_set(&mut self) -> (a: LaunchAction)
        requires
            old(self).phase == LaunchPhase::ShowChecking || old(self).phase == LaunchPhase::ShowDownloading,
        ensures
            keeps_plan(*old(self), *final(self)),
            old(self).phase == LaunchPhase::ShowChecking ==> final(self).phase == LaunchPhase::AwaitPlatform
                && a is QueryPlatform,
            old(self).phase == LaunchPhase::ShowDownloading ==> final(self).phase == LaunchPhase::Download
                && match a {
                LaunchAction::DownloadPackage { package_id, version, version_dir } => package_id@
                    == old(self).package_id@ && version@ == old(self).version@ && version_dir@
                    == old(self).version_dir@,
                _ => false,
            },
    {
        if self.phase == LaunchPhase::ShowChecking {
            self.phase = LaunchPhase::AwaitPlatform;
            LaunchAction::QueryPlatform
        } else {
            self.phase = LaunchPhase::Download;
            LaunchAction::DownloadPackage {
                package_id: self.package_id.clone(),
                version: self.version.clone(),
                version_dir: self.version_dir.clone(),
            }
        }
    }

    /// The platform is known: its package's newest version is fetched next.
    pub fn on_platform(&mut self, os: Os, arch: Architecture) -> (a: LaunchAction)
        requires
            old(self).phase == LaunchPhase::AwaitPlatform,
        ensures
            final(self).extra_args == old(self).extra_args,
            final(self).phase == LaunchPhase::AwaitVersion,
            final(self).rid@ == spec_rid(os, arch),
            final(self).package_id@ == package_id(spec_rid(os, arch)),
            match a {
                LaunchAction::FetchLatestVersion(p) => p@ == package_id(spec_rid(os, arch)),
                _ => false,
            },
    {
        let rid = rid_for_platform(os, arch);
        self.rid = String::from_str(rid);
        self.package_id = concat("roslyn-language-server.", rid);
        self.phase = LaunchPhase::AwaitVersion;
        LaunchAction::FetchLatestVersion(self.package_id.clone())
    }

    /// The newest version is known (or could not be): its tools directory is
    /// listed to learn whether it is unpacked already.
    pub fn on_latest_version(&mut self, version: Result<String, String>) -> (a: LaunchAction)
        requires
            old(self).phase == LaunchPhase::AwaitVersion,
        ensures
            final(self).extra_args == old(self).extra_args,
            final(self).rid == old(self).rid,
            final(self).package_id == old(self).package_id,
            match version {
                Err(e) => final(self).phase == LaunchPhase::Done && fails_with(a, e@),
                Ok(v) => {
                    &&& final(self).phase == LaunchPhase::ProbeListing
                    &&& final(self).version@ == v@
                    &&& final(self).version_dir@ == version_dir(v@)
                    &&& lists(a, tools_dir(version_dir(v@)))
                },
            },
    {
        match version {
            Err(e) => {
                self.phase = LaunchPhase::Done;
                LaunchAction::Finish(Err(e))
            },
            Ok(v) => {
                self.version_dir = concat("roslyn-razor-", v.as_str());
                self.version = v;
                self.phase = LaunchPhase::ProbeListing;
                LaunchAction::ListDirectory(concat(self.version_dir.as_str(), "/tools"))
            },
        }
    }

    /// The tools directory is listed (see [`located_server`]). While probing,
    /// a missing binary means the version is downloaded; an assembly is made
    /// absolute and an executable checked. While finding, a missing binary
    /// ends the launch with the error; an assembly is made absolute and an
    /// executable is made executable.
    pub fn on_listing(&mut self, listing: Result<Vec<DirEntry>, String>) -> (a: LaunchAction)
        requires
            old(self).phase == LaunchPhase::ProbeListing || old(self).phase == LaunchPhase::FindListing,
        ensures
            keeps_plan(*old(self), *final(self)),
            old(self).phase == LaunchPhase::ProbeListing ==> final(self).pending == old(self).pending,
            ({
                let loc = located_server(
                    old(self).rid@,
                    old(self).version_dir@,
                    match listing {
                        Ok(v) => Ok(v@),
                        Err(e) => Err(e@),
                    },
                );
                &&& old(self).phase == LaunchPhase::ProbeListing ==> match loc {
                    Err(_) => final(self).phase == LaunchPhase::ShowDownloading && a == LaunchAction::SetStatus(
                        InstallStatus::Downloading,
                    ),
                    Ok((dll, path)) => if dll {
                        final(self).phase == LaunchPhase::ProbeAbsolute && absolutizes(a, path)
                    } else {
                        final(self).phase == LaunchPhase::ProbeFile && checks_file(a, path)
                    },
                }
                &&& old(self).phase == LaunchPhase::FindListing ==> match loc {
                    Err(m) => final(self).phase == LaunchPhase::Done && fails_with(a, m),
                    Ok((dll, path)) => if dll {
                        final(self).phase == LaunchPhase::FindAbsolute && absolutizes(a, path)
                    } else {
                        &&& final(self).phase == LaunchPhase::AwaitExecutable
                        &&& final(self).pending matches Some(ServerPath::Exe(p)) && p@ == path
                        &&& match a {
                            LaunchAction::MakeExecutable(p) => p@ == path,
                            _ => false,
                        }
                    },
                }
            }),
    {
        let located = Roslyn::locate_server_path(self.rid.as_str(), self.version_dir.as_str(), listing);
        if self.phase == LaunchPhase::ProbeListing {
            match located {
                Err(_) => {
                    self.phase = LaunchPhase::ShowDownloading;
                    LaunchAction::SetStatus(InstallStatus::Downloading)
                },
                Ok(ServerPath::Dll(p)) => {
                    self.phase = LaunchPhase::ProbeAbsolute;
                    LaunchAction::Absolutize(p)
                },
                Ok(ServerPath::Exe(p)) => {
                    self.phase = LaunchPhase::ProbeFile;
                    LaunchAction::CheckIsFile(p)
                },
            }
        } else {
            match located {
                Err(m) => {
                    self.phase = LaunchPhase::Done;
                    LaunchAction::Finish(Err(m))
                },
                Ok(ServerPath::Dll(p)) => {
                    self.phase = LaunchPhase::FindAbsolute;
                    LaunchAction::Absolutize(p)
                },
                Ok(ServerPath::Exe(p)) => {
                    self.phase = LaunchPhase::AwaitExecutable;
                    let act = LaunchAction::MakeExecutable(p.clone());
                    self.pending = Some(ServerPath::Exe(p));
                    act
                },
            }
        }
    }

    /// The absolute path of the assembly is known (or could not be). While
    /// probing, it is checked, or the version is downloaded on an error.
    /// While finding, an error ends the launch; otherwise the assembly is
    /// remembered in `roslyn` and started.
    pub fn on_absolute_path(&mut self, roslyn: &mut Roslyn, path: Result<String, String>) -> (a: LaunchAction)
        requires
            old(self).phase == LaunchPhase::ProbeAbsolute || old(self).phase == LaunchPhase::FindAbsolute,
        ensures
            old(self).phase == LaunchPhase::ProbeAbsolute ==> {
                &&& keeps_plan(*old(self), *final(self))
                &&& final(self).pending == old(self).pending
                &&& *final(roslyn) == *old(roslyn)
                &&& match path {
                    Err(_) => final(self).phase == LaunchPhase::ShowDownloading && a == LaunchAction::SetStatus(
                        InstallStatus::Downloading,
                    ),
                    Ok(p) => final(self).phase == LaunchPhase::ProbeFile && checks_file(a, p@),
                }
            },
            old(self).phase == LaunchPhase::FindAbsolute ==> final(self).phase == LaunchPhase::Done
                && match path {
                Err(e) => fails_with(a, e@) && *final(roslyn) == *old(roslyn),
                Ok(p) => {
                    &&& final(roslyn).cached_server_path == Some(ServerPath::Dll(p))
                    &&& finishes_with(a, ServerPath::Dll(p), views(old(self).extra_args@))
                },
            },
    {
        if self.phase == LaunchPhase::ProbeAbsolute {
            match path {
                Err(_) => {
                    self.phase = LaunchPhase::ShowDownloading;
                    LaunchAction::SetStatus(InstallStatus::Downloading)
                },
                Ok(p) => {
                    self.phase = LaunchPhase::ProbeFile;
                    LaunchAction::CheckIsFile(p)
                },
            }
        } else {
            self.phase = LaunchPhase::Done;
            match path {
                Err(e) => LaunchAction::Finish(Err(e)),
                Ok(p) => {
                    let sp = ServerPath::Dll(p);
                    let extra = self.take_extra_args();
                    let c = Roslyn::build_command(&sp, extra);
                    roslyn.cached_server_path = Some(sp);
                    LaunchAction::Finish(Ok(c))
                },
            }
        }
    }

    /// The download is over: an error ends the launch; otherwise older
    /// versions are removed.
    pub fn on_downloaded(&mut self, result: Result<(), String>) -> (a: LaunchAction)
        requires
            old(self).phase == LaunchPhase::Download,
        ensures
            keeps_plan(*old(self), *final(self)),
            final(self).pending == old(self).pending,
            match result {
                Err(e) => final(self).phase == LaunchPhase::Done && fails_with(a, e@),
                Ok(_) => final(self).phase == LaunchPhase::Cleanup && match a {
                    LaunchAction::RemoveOutdatedVersions { prefix, keep } => prefix@
                        == Roslyn::spec_language_server_id() && keep@ == old(self).version_dir@,
                    _ => false,
                },
            },
    {
        match result {
            Err(e) => {
                self.phase = LaunchPhase::Done;
                LaunchAction::Finish(Err(e))
            },
            Ok(_) => {
                self.phase = LaunchPhase::Cleanup;
                LaunchAction::RemoveOutdatedVersions {
                    prefix: String::from_str(Roslyn::language_server_id()),
                    keep: self.version_dir.clone(),
                }
            },
        }
    }

    /// Older versions are removed: an error ends the launch; otherwise the
    /// unpacked version is searched for its binary.
    pub fn on_cleaned_up(&mut self, result: Result<(), String>) -> (a: LaunchAction)
        requires
            old(self).phase == LaunchPhase::Cleanup,
        ensures
            keeps_plan(*old(self), *final(self)),
            final(self).pending == old(self).pending,
            match result {
                Err(e) => final(self).phase == LaunchPhase::Done && fails_with(a, e@),
                Ok(_) => final(self).phase == LaunchPhase::FindListing && lists(
                    a,
                    tools_dir(old(self).version_dir@),
                ),
            },
    {
        match result {
            Err(e) => {
                self.phase = LaunchPhase::Done;
                LaunchAction::Finish(Err(e))
            },
            Ok(_) => {
                self.phase = LaunchPhase::FindListing;
                LaunchAction::ListDirectory(concat(self.version_dir.as_str(), "/tools"))
            },
        }
    }

    /// The executable found is made executable (or could not be): an error
    /// ends the launch; otherwise it is remembered in `roslyn` and started.
    pub fn on_made_executable(&mut self, roslyn: &mut Roslyn, result: Result<(), String>) -> (a: LaunchAction)
        requires
            old(self).phase == LaunchPhase::AwaitExecutable,
            old(self).pending is Some,
        ensures
            final(self).phase == LaunchPhase::Done,
            match result {
                Err(e) => fails_with(a, e@) && *final(roslyn) == *old(roslyn),
                Ok(_) => final(roslyn).cached_server_path == old(self).pending && finishes_with(
                    a,
                    old(self).pending->0,
                    views(old(self).extra_args@),
                ),
            },
    {
        self.phase = LaunchPhase::Done;
        match result {
            Err(e) => LaunchAction::Finish(Err(e)),
            Ok(_) => {
                let mut pending: Option<ServerPath> = None;
                std::mem::swap(&mut pending, &mut self.pending);
                match pending {
                    Some(sp) => {
                        let extra = self.take_extra_args();
                        let c = Roslyn::build_command(&sp, extra);
                        roslyn.cached_server_path = Some(sp);
                        LaunchAction::Finish(Ok(c))
                    },
                    None => LaunchAction::Finish(Err(String::new())),
                }
            },
        }
    }
}

/// The layout of the launch arguments: `--stdio` and `--autoLoadProjects`
/// first, the Razor bootstrap's arguments (if any) next, and the user's
/// arguments (if any) last, in order, whatever the bootstrap returned.
pub proof fn law_launch_args_layout(razor: Option<Seq<Seq<char>>>, user: Option<Seq<Seq<char>>>)
    ensures
        ({
            let args = launch_args(razor, user);
            let r = if razor is Some { razor->0 } else { seq![] };
            let u = if user is Some { user->0 } else { seq![] };
            &&& args.len() == 2 + r.len() + u.len()
            &&& args[0] == "--stdio"@
            &&& args[1] == "--autoLoadProjects"@
            &&& args.subrange(2, 2 + r.len() as int) == r
            &&& args.subrange(2 + r.len() as int, args.len() as int) == u
        }),
{
    let args = launch_args(razor, user);
    let r = if razor is Some { razor->0 } else { seq![] };
    let u = if user is Some { user->0 } else { seq![] };
    assert(args =~= seq!["--stdio"@, "--autoLoadProjects"@] + r + u);
    assert(args.subrange(2, 2 + r.len() as int) =~= r);
    assert(args.subrange(2 + r.len() as int, args.len() as int) =~= u);
}

} // verus!
