//! The extension: which language server an id names, how the bundled HTML
//! and CSS servers are started (from `PATH`, or through the shared npm
//! package installed once per session), and which server gets a workspace
//! configuration.

use vstd::prelude::*;
use crate::text::{views, concat, str_eq, push_string};
use crate::server::Command;
use crate::roslyn::Roslyn;
use crate::status::{InstallStatus, strings1};

verus! {

/// The npm package that bundles the HTML and CSS language servers.
pub open spec fn langservers_package() -> Seq<char> {
    "@zed-industries/vscode-langservers-extracted"@
}

/// The npm package that bundles the HTML and CSS language servers.
pub fn langservers_package_name() -> (r: &'static str)
    ensures
        r@ == langservers_package(),
{
    "@zed-industries/vscode-langservers-extracted"
}

/// The extension's state for one editor session.
pub struct Razor {
    /// Whether the shared npm package is known to be installed and current.
    pub langservers_ready: bool,
    /// The Roslyn server, once it was asked for.
    pub roslyn: Option<Roslyn>,
}

/// The server a language server id names.
#[derive(Debug, PartialEq)]
pub enum Route {
    /// A server of the shared npm package: its binary name on `PATH`, and
    /// its script relative to the extension's working directory.
    Bundled { binary_name: String, relative_path: String },
    /// The Roslyn server.
    Roslyn,
}

/// The route for the language server id `id`, or the error for an unknown id.
pub open spec fn route_for(id: Seq<char>) -> Result<(Seq<char>, Seq<char>), Seq<char>> {
    if id == "html-in-razor"@ {
        Ok(
            (
                "vscode-html-language-server"@,
                "node_modules/@zed-industries/vscode-langservers-extracted/bin/vscode-html-language-server"@,
            ),
        )
    } else if id == "css-in-razor"@ {
        Ok(
            (
                "vscode-css-language-server"@,
                "node_modules/@zed-industries/vscode-langservers-extracted/bin/vscode-css-language-server"@,
            ),
        )
    } else {
        Err("unknown language server: "@ + id)
    }
}

/// Where a start of a bundled server stands: which event it waits for next.
#[derive(Debug, Clone, Copy, PartialEq, Eq, Structural)]
pub enum BundledPhase {
    /// Waits for the binary to be looked up on `PATH`.
    AwaitWhich,
    /// Waits for the installed version of the npm package.
    AwaitInstalledVersion,
    /// Waits for the newest version of the npm package.
    AwaitLatestVersion,
    /// Waits for the "downloading" status to be shown.
    ShowDownloading,
    /// Waits for the npm package to be installed.
    AwaitInstall,
    /// Waits for the absolute path of the server script.
    AwaitScriptPath,
    /// Waits for the path of the node binary.
    AwaitNodeBinary,
    /// Finished.
    Done,
}

/// What the host does next to start a bundled server.
#[derive(Debug)]
pub enum BundledAction {
    /// Look this binary up on the worktree's `PATH` and report it.
    Which(String),
    /// Report the installed version of this npm package, if any.
    QueryInstalledVersion(String),
    /// Report the newest version of this npm package.
    QueryLatestVersion(String),
    /// Show an installation status, then report.
    SetStatus(InstallStatus),
    /// Install this version of this npm package.
    InstallPackage { package: String, version: String },
    /// Report this path joined to the working directory.
    ResolveScriptPath(String),
    /// Report the path of the node binary.
    QueryNodeBinary,
    /// The start is decided: the command, or an error.
    Finish(Result<Command, String>),
}

/// One start of a bundled server.
pub struct BundledLaunch {
    pub phase: BundledPhase,
    pub relative_path: String,
    /// The installed version of the npm package, once known.
    pub installed: Option<String>,
    /// The newest version of the npm package, once known.
    pub latest: String,
    /// The absolute path of the server script, once known.
    pub script_path: String,
}

/// Whether `a` ends the start with the command `program` with `args` and no
/// environment.
pub open spec fn finishes_with(a: BundledAction, program: Seq<char>, args: Seq<Seq<char>>) -> bool {
    match a {
        BundledAction::Finish(Ok(c)) => c.command@ == program && views(c.args@) == args && c.env@.len() == 0,
        _ => false,
    }
}

/// Whether `a` ends the start with the error `msg`.
pub open spec fn fails_with(a: BundledAction, msg: Seq<char>) -> bool {
    match a {
        BundledAction::Finish(Err(m)) => m@ == msg,
        _ => false,
    }
}

/// Whether `a` asks for the absolute path of `relative_path`.
pub open spec fn resolves(a: BundledAction, relative_path: Seq<char>) -> bool {
    match a {
        BundledAction::ResolveScriptPath(p) => p@ == relative_path,
        _ => false,
    }
}

impl Razor {
    /// A session in which nothing is installed or started yet.
    pub fn new() -> (r: Razor)
        ensures
            !r.langservers_ready,
            r.roslyn is None,
    {
        Razor { langservers_ready: false, roslyn: None }
    }

    /// The Roslyn server, made on first use.
    pub fn roslyn(&mut self) -> (r: &mut Roslyn)
        ensures
            final(self).langservers_ready == old(self).langservers_ready,
            final(self).roslyn == Some(*final(r)),
            old(self).roslyn matches Some(ro) ==> *r == ro,
            old(self).roslyn is None ==> r.cached_server_path is None,
    {
        if self.roslyn.is_none() {
            self.roslyn = Some(Roslyn::new());
        }
        self.roslyn.as_mut().unwrap()
    }

    /// Which server the id `id` names; an unknown id is an error.
    pub fn language_server_command(&self, id: &str) -> (r: Result<Route, String>)
        ensures
            (r matches Ok(Route::Roslyn)) <==> id@ == Roslyn::spec_language_server_id(),
            r matches Ok(Route::Bundled { binary_name, relative_path }) ==> route_for(id@) == Ok::<
                (Seq<char>, Seq<char>),
                Seq<char>,
            >((binary_name@, relative_path@)),
            r matches Err(e) ==> route_for(id@) == Err::<(Seq<char>, Seq<char>), Seq<char>>(e@),
            id@ != Roslyn::spec_language_server_id() ==> (r is Err <==> route_for(id@) is Err),
    {
        proof {
            reveal_strlit("html-in-razor");
            reveal_strlit("css-in-razor");
            reveal_strlit("roslyn-razor");
            assert("html-in-razor"@.len() != "roslyn-razor"@.len());
            assert("css-in-razor"@[0] != "roslyn-razor"@[0]);
        }
        if str_eq(id, "html-in-razor") {
            Ok(Route::Bundled {
                binary_name: String::from_str("vscode-html-language-server"),
                relative_path: String::from_str(
                    "node_modules/@zed-industries/vscode-langservers-extracted/bin/vscode-html-language-server",
                ),
            })
        } else if str_eq(id, "css-in-razor") {
            Ok(Route::Bundled {
                binary_name: String::from_str("vscode-css-language-server"),
                relative_path: String::from_str(
                    "node_modules/@zed-industries/vscode-langservers-extracted/bin/vscode-css-language-server",
                ),
            })
        } else if str_eq(id, Roslyn::language_server_id()) {
            Ok(Route::Roslyn)
        } else {
            Err(concat("unknown language server: ", id))
        }
    }

    /// Whether the server `id` gets a workspace configuration: only Roslyn
    /// does (see [`Roslyn::configuration_options`]).
    pub fn language_server_workspace_configuration(id: &str) -> (r: bool)
        ensures
            r == (id@ == Roslyn::spec_language_server_id()),
    {
        str_eq(id, Roslyn::language_server_id())
    }

    /// Starts a bundled server: the binary is looked up on `PATH` first.
    pub fn bundled_binary_command(binary_name: &str, relative_path: &str) -> (r: (BundledLaunch, BundledAction))
        ensures
            r.0.phase == BundledPhase::AwaitWhich,
            r.0.relative_path@ == relative_path@,
            match r.1 {
                BundledAction::Which(b) => b@ == binary_name@,
                _ => false,
            },
    {
        (
            BundledLaunch {
                phase: BundledPhase::AwaitWhich,
                relative_path: String::from_str(relative_path),
                installed: None,
                latest: String::new(),
                script_path: String::new(),
            },
            BundledAction::Which(String::from_str(binary_name)),
        )
    }
}

impl BundledLaunch {
    /// The binary was looked up on `PATH`: a copy there is preferred and
    /// started with `--stdio`; otherwise the npm package is checked, unless
    /// it is already known to be current in this session.
    pub fn on_which(&mut self, razor: &Razor, found: Option<String>) -> (a: BundledAction)
        requires
            old(self).phase == BundledPhase::AwaitWhich,
        ensures
            final(self).relative_path == old(self).relative_path,
            match found {
                Some(p) => final(self).phase == BundledPhase::Done && finishes_with(a, p@, seq!["--stdio"@]),
                None => if razor.langservers_ready {
                    final(self).phase == BundledPhase::AwaitScriptPath && resolves(a, old(self).relative_path@)
                } else {
                    final(self).phase == BundledPhase::AwaitInstalledVersion && match a {
                        BundledAction::QueryInstalledVersion(p) => p@ == langservers_package(),
                        _ => false,
                    }
                },
            },
    {
        match found {
            Some(p) => {
                self.phase = BundledPhase::Done;
                BundledAction::Finish(Ok(Command { command: p, args: strings1("--stdio"), env: Vec::new() }))
            },
            None => {
                if razor.langservers_ready {
                    self.phase = BundledPhase::AwaitScriptPath;
                    BundledAction::ResolveScriptPath(self.relative_path.clone())
                } else {
                    self.phase = BundledPhase::AwaitInstalledVersion;
                    BundledAction::QueryInstalledVersion(String::from_str(langservers_package_name()))
                }
            },
        }
    }

    /// The installed version of the npm package is known (or could not be):
    /// the newest version is asked for next.
    pub fn on_installed_version(&mut self, installed: Result<Option<String>, String>) -> (a: BundledAction)
        requires
            old(self).phase == BundledPhase::AwaitInstalledVersion,
        ensures
            final(self).relative_path == old(self).relative_path,
            match installed {
                Err(e) => final(self).phase == BundledPhase::Done && fails_with(a, e@),
                Ok(v) => final(self).phase == BundledPhase::AwaitLatestVersion && final(self).installed == v
                    && match a {
                    BundledAction::QueryLatestVersion(p) => p@ == langservers_package(),
                    _ => false,
                },
            },
    {
        match installed {
            Err(e) => {
                self.phase = BundledPhase::Done;
                BundledAction::Finish(Err(e))
            },
            Ok(v) => {
                self.installed = v;
                self.phase = BundledPhase::AwaitLatestVersion;
                BundledAction::QueryLatestVersion(String::from_str(langservers_package_name()))
            },
        }
    }

    /// The newest version of the npm package is known (or could not be):
    /// when it is the installed one the package is ready for the session;
    /// otherwise it is installed.
    pub fn on_latest_version(&mut self, razor: &mut Razor, latest: Result<String, String>) -> (a: BundledAction)
        requires
            old(self).phase == BundledPhase::AwaitLatestVersion,
        ensures
            final(self).relative_path == old(self).relative_path,
            final(razor).roslyn == old(razor).roslyn,
            match latest {
                Err(e) => final(self).phase == BundledPhase::Done && fails_with(a, e@)
                    && final(razor).langservers_ready == old(razor).langservers_ready,
                Ok(l) => {
                    &&& final(self).latest@ == l@
                    &&& if old(self).installed matches Some(i) && i@ == l@ {
                        &&& final(razor).langservers_ready
                        &&& final(self).phase == BundledPhase::AwaitScriptPath
                        &&& resolves(a, old(self).relative_path@)
                    } else {
                        &&& final(razor).langservers_ready == old(razor).langservers_ready
                        &&& final(self).phase == BundledPhase::ShowDownloading
                        &&& a == BundledAction::SetStatus(InstallStatus::Downloading)
                    }
                },
            },
    {
        match latest {
            Err(e) => {
                self.phase = BundledPhase::Done;
                BundledAction::Finish(Err(e))
            },
            Ok(l) => {
                let current = match &self.installed {
                    Some(i) => str_eq(i.as_str(), l.as_str()),
                    None => false,
                };
                self.latest = l;
                if current {
                    razor.langservers_ready = true;
                    self.phase = BundledPhase::AwaitScriptPath;
                    BundledAction::ResolveScriptPath(self.relative_path.clone())
                } else {
                    self.phase = BundledPhase::ShowDownloading;
                    BundledAction::SetStatus(InstallStatus::Downloading)
                }
            },
        }
    }

    /// The "downloading" status is shown: the newest version is installed.
    pub fn on_status_set(&mut self) -> (a: BundledAction)
        requires
            old(self).phase == BundledPhase::ShowDownloading,
        ensures
            final(self).relative_path == old(self).relative_path,
            final(self).phase == BundledPhase::AwaitInstall,
            match a {
                BundledAction::InstallPackage { package, version } => package@ == langservers_package()
                    && version@ == old(self).latest@,
                _ => false,
            },
    {
        self.phase = BundledPhase::AwaitInstall;
        BundledAction::InstallPackage {
            package: String::from_str(langservers_package_name()),
            version: self.latest.clone(),
        }
    }

    /// The npm package is installed (or could not be): on success it is
    /// ready for the rest of the session and the script is located.
    pub fn on_installed(&mut self, razor: &mut Razor, result: Result<(), String>) -> (a: BundledAction)
        requires
            old(self).phase == BundledPhase::AwaitInstall,
        ensures
            final(self).relative_path == old(self).relative_path,
            final(razor).roslyn == old(razor).roslyn,
            match result {
                Err(e) => final(self).phase == BundledPhase::Done && fails_with(a, e@)
                    && final(razor).langservers_ready == old(razor).langservers_ready,
                Ok(_) => final(razor).langservers_ready && final(self).phase == BundledPhase::AwaitScriptPath
                    && resolves(a, old(self).relative_path@),
            },
    {
        match result {
            Err(e) => {
                self.phase = BundledPhase::Done;
                BundledAction::Finish(Err(e))
            },
            Ok(_) => {
                razor.langservers_ready = true;
                self.phase = BundledPhase::AwaitScriptPath;
                BundledAction::ResolveScriptPath(self.relative_path.clone())
            },
        }
    }

    /// The absolute path of the script is known (or could not be): the node
    /// binary is asked for next.
    pub fn on_script_path(&mut self, path: Result<String, String>) -> (a: BundledAction)
        requires
            old(self).phase == BundledPhase::AwaitScriptPath,
        ensures
            match path {
                Err(e) => final(self).phase == BundledPhase::Done && fails_with(a, e@),
                Ok(p) => final(self).phase == BundledPhase::AwaitNodeBinary && final(self).script_path@ == p@
                    && a is QueryNodeBinary,
            },
    {
        match path {
            Err(e) => {
                self.phase = BundledPhase::Done;
                BundledAction::Finish(Err(e))
            },
            Ok(p) => {
                self.script_path = p;
                self.phase = BundledPhase::AwaitNodeBinary;
                BundledAction::QueryNodeBinary
            },
        }
    }

    /// The node binary is known (or could not be): the server script is run
    /// by node with `--stdio`.
    pub fn on_node_binary(&mut self, node: Result<String, String>) -> (a: BundledAction)
        requires
            old(self).phase == BundledPhase::AwaitNodeBinary,
        ensures
            final(self).phase == BundledPhase::Done,
            match node {
                Err(e) => fails_with(a, e@),
                Ok(n) => finishes_with(a, n@, seq![old(self).script_path@, "--stdio"@]),
            },
    {
        self.phase = BundledPhase::Done;
        match node {
            Err(e) => BundledAction::Finish(Err(e)),
            Ok(n) => {
                let mut args: Vec<String> = Vec::new();
                push_string(&mut args, self.script_path.clone());
                push_string(&mut args, String::from_str("--stdio"));
                assert(views(args@) =~= seq![self.script_path@, "--stdio"@]);
                BundledAction::Finish(Ok(Command { command: n, args, env: Vec::new() }))
            },
        }
    }
}

} // verus!
