//! The opt-in bootstrap of Microsoft's VS Code Razor extension from a Roslyn
//! source checkout (`roslyn_source_repository_root`): clone or update the
//! checkout, build the extension with the newest .NET SDK, and hand Roslyn
//! the `--extension`, `--razorSourceGenerator` and `--razorDesignTimePath`
//! arguments that load it.
//!
//! The host runs the processes and shows the statuses; a [`RazorBootstrap`]
//! decides, one event at a time, what comes next.

use vstd::prelude::*;
use crate::text::{
    line_start, views, concat, push_string, last_line, last_line_of, words, split_whitespace, trim_brackets,
    trim_brackets_of, until_second_dot, first_two_components, signed_decimal, i32_to_decimal,
};
use crate::json::{JsonValue, str_at, get_str};
use crate::status::{
    InstallStatus, ProcessRequest, ProcessOutput, runs, succeeded, process_request, strings1,
    strings2,
};

verus! {

/// The SDK that `dotnet --list-sdks` lists last, from its output: its
/// `(path, version)`, where the path is `<base>/<version>`, or the error
/// message.
pub open spec fn sdk_listing(stdout: Seq<char>) -> Result<(Seq<char>, Seq<char>), Seq<char>> {
    match last_line(stdout) {
        None => Err("no .NET SDK found (`dotnet --list-sdks` returned nothing): "@ + stdout),
        Some(line) => {
            let parts = words(line);
            if parts.len() < 2 {
                Err("unable to parse `dotnet --list-sdks` output: "@ + stdout)
            } else {
                let version = parts[0];
                let base = trim_brackets(parts[1]);
                Ok((base + "/"@ + version, version))
            }
        },
    }
}

/// Parses the output of `dotnet --list-sdks` (lines such as
/// `10.0.100 [/home/user/.dotnet/sdk]`), taking the last SDK listed.
pub fn parse_sdk_listing(stdout: &str) -> (r: Result<(String, String), String>)
    ensures
        match (r, sdk_listing(stdout@)) {
            (Ok((p, v)), Ok((sp, sv))) => p@ == sp && v@ == sv,
            (Err(e), Err(m)) => e@ == m,
            _ => false,
        },
        r is Ok <==> (last_line(stdout@) is Some && words(last_line(stdout@)->0).len() >= 2),
        r matches Ok((p, v)) ==> v@ == words(last_line(stdout@)->0)[0] && p@ == trim_brackets(
            words(last_line(stdout@)->0)[1],
        ) + "/"@ + words(last_line(stdout@)->0)[0],
{
    match last_line_of(stdout) {
        None => Err(concat("no .NET SDK found (`dotnet --list-sdks` returned nothing): ", stdout)),
        Some(line) => {
            let parts = split_whitespace(line.as_str());
            if parts.len() < 2 {
                Err(concat("unable to parse `dotnet --list-sdks` output: ", stdout))
            } else {
                let version = parts[0].clone();
                let base = trim_brackets_of(parts[1].as_str());
                let mut path = base;
                path.append("/");
                path.append(version.as_str());
                Ok((path, version))
            }
        },
    }
}

/// `Some(<n>)` or `None`, as `{:?}` writes an exit status.
pub open spec fn status_debug(status: Option<i32>) -> Seq<char> {
    match status {
        Some(n) => "Some("@ + signed_decimal(n as int) + ")"@,
        None => "None"@,
    }
}

/// `Some(<n>)` or `None`, as `{:?}` writes an exit status.
pub fn format_status(status: Option<i32>) -> (r: String)
    ensures
        r@ == status_debug(status),
{
    match status {
        Some(n) => {
            let mut s = String::from_str("Some(");
            let digits = i32_to_decimal(n);
            s.append(digits.as_str());
            s.append(")");
            s
        },
        None => String::from_str("None"),
    }
}

/// The error reported when building the extension fails.
pub open spec fn build_failure(out: ProcessOutput) -> Seq<char> {
    "failed to build Microsoft.VisualStudioCode.RazorExtension from roslyn_source_repository_root (status: "@
        + status_debug(out.status) + ")\n--- stdout ---\n"@ + out.stdout@ + "\n--- stderr ---\n"@
        + out.stderr@
}

/// The project file of the extension inside the checkout `root`.
pub open spec fn extension_project(root: Seq<char>) -> Seq<char> {
    root + "/src/Razor/src/Razor/src/Microsoft.VisualStudioCode.RazorExtension/Microsoft.VisualStudioCode.RazorExtension.csproj"@
}

/// The build output directory of the extension inside the checkout `root`,
/// for the SDK version `sdk_version` (the target framework is `net` and the
/// first two components of the version).
pub open spec fn build_output_dir(root: Seq<char>, sdk_version: Seq<char>) -> Seq<char> {
    root + "/artifacts/bin/Microsoft.VisualStudioCode.RazorExtension/Release/"@ + "net"@
        + until_second_dot(sdk_version, false)
}

/// The built extension assembly.
pub open spec fn extension_dll(root: Seq<char>, sdk_version: Seq<char>) -> Seq<char> {
    build_output_dir(root, sdk_version) + "/Microsoft.VisualStudioCode.RazorExtension.dll"@
}

/// The Razor source generator shipped with the built extension.
pub open spec fn source_generator_dll(root: Seq<char>, sdk_version: Seq<char>) -> Seq<char> {
    build_output_dir(root, sdk_version) + "/Microsoft.CodeAnalysis.Razor.Compiler.dll"@
}

/// The Razor design-time targets shipped with the built extension.
pub open spec fn design_time_targets(root: Seq<char>, sdk_version: Seq<char>) -> Seq<char> {
    build_output_dir(root, sdk_version) + "/Targets/Microsoft.NET.Sdk.Razor.DesignTime.targets"@
}

/// The arguments that make Roslyn load the extension built in `root`: the
/// extension itself, its Razor source generator and its design-time targets.
pub open spec fn razor_extension_args(root: Seq<char>, sdk_version: Seq<char>) -> Seq<Seq<char>> {
    seq![
        "--extension"@,
        extension_dll(root, sdk_version),
        "--razorSourceGenerator"@,
        source_generator_dll(root, sdk_version),
        "--razorDesignTimePath"@,
        design_time_targets(root, sdk_version),
    ]
}

/// The setting that opts in to the bootstrap.
pub open spec fn root_setting() -> Seq<char> {
    "roslyn_source_repository_root"@
}

/// Where a bootstrap stands: which event it waits for next.
#[derive(Debug, Clone, Copy, PartialEq, Eq, Structural)]
pub enum BootstrapPhase {
    /// Waits for the user's `lsp.roslyn-razor.settings`.
    AwaitSettings,
    /// Waits for `dotnet --list-sdks`.
    ListSdks,
    /// Waits for `test -d <root>`.
    TestCheckout,
    /// Waits for the "checking for update" status to be shown.
    ShowChecking,
    /// Waits for `git -C <root> reset --hard`.
    Reset,
    /// Waits for `git -C <root> pull`, whose outcome does not matter.
    Pull,
    /// Waits for the status to be cleared after updating.
    ClearAfterPull,
    /// Waits for the "downloading" status to be shown.
    ShowDownloading,
    /// Waits for `git clone`.
    Clone,
    /// Waits for the status to be cleared after cloning.
    ClearAfterClone,
    /// Waits for `dotnet build`.
    Build,
    /// Finished.
    Done,
}

/// What the host does next for a bootstrap.
#[derive(Debug)]
pub enum BootstrapAction {
    /// Read the user's `lsp.roslyn-razor.settings` and report them.
    ReadSettings,
    /// Run a process and report its output, or the error that kept it from
    /// running.
    Run(ProcessRequest),
    /// Show an installation status, then report.
    SetStatus(InstallStatus),
    /// The bootstrap is over: the extra Roslyn arguments (none when the
    /// bootstrap is not configured), or an error.
    Finish(Result<Option<Vec<String>>, String>),
}

/// Whether `a` runs `program` with `args`.
pub open spec fn action_runs(a: BootstrapAction, program: Seq<char>, args: Seq<Seq<char>>, shell_env: bool) -> bool {
    match a {
        BootstrapAction::Run(r) => runs(r, program, args, shell_env),
        _ => false,
    }
}

/// Whether `a` ends the bootstrap with the error `msg`.
pub open spec fn fails_with(a: BootstrapAction, msg: Seq<char>) -> bool {
    match a {
        BootstrapAction::Finish(Err(m)) => m@ == msg,
        _ => false,
    }
}

/// The `dotnet build` of the extension.
pub open spec fn runs_build(a: BootstrapAction, root: Seq<char>) -> bool {
    action_runs(a, "dotnet"@, seq!["build"@, extension_project(root), "--configuration"@, "Release"@], true)
}

/// One run of the bootstrap.
pub struct RazorBootstrap {
    pub phase: BootstrapPhase,
    /// The checkout directory, once the setting is read.
    pub root: String,
    /// The version of the newest SDK, once listed.
    pub sdk_version: String,
    /// Whether the clone succeeded (meaningful after a clone).
    pub clone_ok: bool,
}

impl RazorBootstrap {
    /// Starts a bootstrap: the user settings are read first.
    pub fn start() -> (r: (RazorBootstrap, BootstrapAction))
        ensures
            r.0.phase == BootstrapPhase::AwaitSettings,
            r.0.root@.len() == 0,
            r.0.sdk_version@.len() == 0,
            !r.0.clone_ok,
            r.1 is ReadSettings,
    {
        (
            RazorBootstrap {
                phase: BootstrapPhase::AwaitSettings,
                root: String::new(),
                sdk_version: String::new(),
                clone_ok: false,
            },
            BootstrapAction::ReadSettings,
        )
    }

    /// The phases that wait for a process.
    pub open spec fn awaits_process(&self) -> bool {
        ||| self.phase == BootstrapPhase::ListSdks
        ||| self.phase == BootstrapPhase::TestCheckout
        ||| self.phase == BootstrapPhase::Reset
        ||| self.phase == BootstrapPhase::Pull
        ||| self.phase == BootstrapPhase::Clone
        ||| self.phase == BootstrapPhase::Build
    }

    /// The phases that wait for a status to be shown.
    pub open spec fn awaits_status(&self) -> bool {
        ||| self.phase == BootstrapPhase::ShowChecking
        ||| self.phase == BootstrapPhase::ClearAfterPull
        ||| self.phase == BootstrapPhase::ShowDownloading
        ||| self.phase == BootstrapPhase::ClearAfterClone
    }

    /// The user settings are in: without a `roslyn_source_repository_root`
    /// string the bootstrap ends with no extra arguments; otherwise the SDKs
    /// are listed.
    pub fn on_settings(&mut self, settings: Option<JsonValue>) -> (a: BootstrapAction)
        requires
            old(self).phase == BootstrapPhase::AwaitSettings,
        ensures
            match settings {
                Some(s) if str_at(s, root_setting()) is Some => {
                    &&& final(self).phase == BootstrapPhase::ListSdks
                    &&& final(self).root@ == str_at(s, root_setting())->0
                    &&& action_runs(a, "dotnet"@, seq!["--list-sdks"@], true)
                },
                _ => final(self).phase == BootstrapPhase::Done && a matches BootstrapAction::Finish(Ok(None)),
            },
    {
        let root = match &settings {
            Some(s) => get_str(s, "roslyn_source_repository_root"),
            None => None,
        };
        match root {
            None => {
                self.phase = BootstrapPhase::Done;
                BootstrapAction::Finish(Ok(None))
            },
            Some(root) => {
                self.root = root;
                self.phase = BootstrapPhase::ListSdks;
                BootstrapAction::Run(process_request("dotnet", strings1("--list-sdks"), true))
            },
        }
    }

    /// A status is shown: the next step of updating or cloning, or the
    /// build, or the end of a failed clone.
    pub fn on_status_set(&mut self) -> (a: BootstrapAction)
        requires
            old(self).awaits_status(),
        ensures
            final(self).root == old(self).root,
            final(self).sdk_version == old(self).sdk_version,
            old(self).phase == BootstrapPhase::ShowChecking ==> final(self).phase == BootstrapPhase::Reset
                && action_runs(a, "git"@, seq!["-C"@, old(self).root@, "reset"@, "--hard"@], false),
            old(self).phase == BootstrapPhase::ShowDownloading ==> final(self).phase == BootstrapPhase::Clone
                && action_runs(
                a,
                "git"@,
                seq!["clone"@, "https://github.com/dotnet/roslyn"@, "--branch"@, "release/stable"@, old(self).root@],
                false,
            ),
            old(self).phase == BootstrapPhase::ClearAfterPull ==> final(self).phase == BootstrapPhase::Build
                && runs_build(a, old(self).root@),
            old(self).phase == BootstrapPhase::ClearAfterClone ==> if old(self).clone_ok {
                final(self).phase == BootstrapPhase::Build && runs_build(a, old(self).root@)
            } else {
                final(self).phase == BootstrapPhase::Done && fails_with(
                    a,
                    "failed to clone dotnet/roslyn into roslyn_source_repository_root (git + internet access required for this opt-in setting)"@,
                )
            },
    {
        match self.phase {
            BootstrapPhase::ShowChecking => {
                self.phase = BootstrapPhase::Reset;
                let mut args = strings2("-C", self.root.as_str());
                push_string(&mut args, String::from_str("reset"));
                push_string(&mut args, String::from_str("--hard"));
                assert(views(args@) =~= seq!["-C"@, self.root@, "reset"@, "--hard"@]);
                BootstrapAction::Run(process_request("git", args, false))
            },
            BootstrapPhase::ShowDownloading => {
                self.phase = BootstrapPhase::Clone;
                let mut args = strings2("clone", "https://github.com/dotnet/roslyn");
                push_string(&mut args, String::from_str("--branch"));
                push_string(&mut args, String::from_str("release/stable"));
                push_string(&mut args, self.root.clone());
                assert(views(args@) =~= seq![
                    "clone"@,
                    "https://github.com/dotnet/roslyn"@,
                    "--branch"@,
                    "release/stable"@,
                    self.root@,
                ]);
                BootstrapAction::Run(process_request("git", args, false))
            },
            BootstrapPhase::ClearAfterPull => {
                self.phase = BootstrapPhase::Build;
                self.build_action()
            },
            _ => {
                if self.clone_ok {
                    self.phase = BootstrapPhase::Build;
                    self.build_action()
                } else {
                    self.phase = BootstrapPhase::Done;
                    BootstrapAction::Finish(
                        Err(
                            String::from_str(
                                "failed to clone dotnet/roslyn into roslyn_source_repository_root (git + internet access required for this opt-in setting)",
                            ),
                        ),
                    )
                }
            },
        }
    }

    fn build_action(&self) -> (a: BootstrapAction)
        ensures
            runs_build(a, self.root@),
    {
        let project = concat(
            self.root.as_str(),
            "/src/Razor/src/Razor/src/Microsoft.VisualStudioCode.RazorExtension/Microsoft.VisualStudioCode.RazorExtension.csproj",
        );
        let mut args = strings1("build");
        push_string(&mut args, project);
        push_string(&mut args, String::from_str("--configuration"));
        push_string(&mut args, String::from_str("Release"));
        assert(views(args@) =~= seq!["build"@, extension_project(self.root@), "--configuration"@, "Release"@]);
        BootstrapAction::Run(process_request("dotnet", args, true))
    }

    /// A process has finished (or could not run): an error to run a process
    /// ends the bootstrap with that error, except for `git pull`, whose
    /// outcome is ignored.
    pub fn on_output(&mut self, output: Result<ProcessOutput, String>) -> (a: BootstrapAction)
        requires
            old(self).awaits_process(),
        ensures
            final(self).root == old(self).root,
            old(self).phase != BootstrapPhase::ListSdks ==> final(self).sdk_version == old(self).sdk_version,
            old(self).phase != BootstrapPhase::Pull ==> match output {
                Err(e) => final(self).phase == BootstrapPhase::Done && fails_with(a, e@),
                Ok(_) => true,
            },
            old(self).phase == BootstrapPhase::Pull ==> final(self).phase == BootstrapPhase::ClearAfterPull
                && a == BootstrapAction::SetStatus(InstallStatus::Cleared),
            match output {
                Ok(out) => {
                    &&& old(self).phase == BootstrapPhase::ListSdks ==> match sdk_listing(out.stdout@) {
                        Err(m) => final(self).phase == BootstrapPhase::Done && fails_with(a, m),
                        Ok((_, version)) => final(self).phase == BootstrapPhase::TestCheckout
                            && final(self).sdk_version@ == version && action_runs(
                            a,
                            "test"@,
                            seq!["-d"@, old(self).root@],
                            false,
                        ),
                    }
                    &&& old(self).phase == BootstrapPhase::TestCheckout ==> if succeeded(out) {
                        final(self).phase == BootstrapPhase::ShowChecking
                            && a == BootstrapAction::SetStatus(InstallStatus::CheckingForUpdate)
                    } else {
                        final(self).phase == BootstrapPhase::ShowDownloading
                            && a == BootstrapAction::SetStatus(InstallStatus::Downloading)
                    }
                    &&& old(self).phase == BootstrapPhase::Reset ==> if succeeded(out) {
                        final(self).phase == BootstrapPhase::Pull && action_runs(
                            a,
                            "git"@,
                            seq!["-C"@, old(self).root@, "pull"@],
                            false,
                        )
                    } else {
                        final(self).phase == BootstrapPhase::Done && fails_with(
                            a,
                            "failed to reset the roslyn_source_repository_root git checkout — is `git` installed?"@,
                        )
                    }
                    &&& old(self).phase == BootstrapPhase::Clone ==> final(self).phase
                        == BootstrapPhase::ClearAfterClone && final(self).clone_ok == succeeded(out)
                        && a == BootstrapAction::SetStatus(InstallStatus::Cleared)
                    &&& old(self).phase == BootstrapPhase::Build ==> final(self).phase == BootstrapPhase::Done
                        && if succeeded(out) {
                        match a {
                            BootstrapAction::Finish(Ok(Some(args))) => views(args@) == razor_extension_args(
                                old(self).root@,
                                old(self).sdk_version@,
                            ),
                            _ => false,
                        }
                    } else {
                        fails_with(a, build_failure(out))
                    }
                },
                Err(_) => true,
            },
    {
        if self.phase == BootstrapPhase::Pull {
            self.phase = BootstrapPhase::ClearAfterPull;
            return BootstrapAction::SetStatus(InstallStatus::Cleared);
        }
        let out = match output {
            Err(e) => {
                self.phase = BootstrapPhase::Done;
                return BootstrapAction::Finish(Err(e));
            },
            Ok(out) => out,
        };
        let ok = match out.status {
            Some(code) => code == 0,
            None => false,
        };
        match self.phase {
            BootstrapPhase::ListSdks => match parse_sdk_listing(out.stdout.as_str()) {
                Err(m) => {
                    self.phase = BootstrapPhase::Done;
                    BootstrapAction::Finish(Err(m))
                },
                Ok((_path, version)) => {
                    self.sdk_version = version;
                    self.phase = BootstrapPhase::TestCheckout;
                    BootstrapAction::Run(process_request("test", strings2("-d", self.root.as_str()), false))
                },
            },
            BootstrapPhase::TestCheckout => {
                if ok {
                    self.phase = BootstrapPhase::ShowChecking;
                    BootstrapAction::SetStatus(InstallStatus::CheckingForUpdate)
                } else {
                    self.phase = BootstrapPhase::ShowDownloading;
                    BootstrapAction::SetStatus(InstallStatus::Downloading)
                }
            },
            BootstrapPhase::Reset => {
                if ok {
                    self.phase = BootstrapPhase::Pull;
                    let mut args = strings2("-C", self.root.as_str());
                    push_string(&mut args, String::from_str("pull"));
                    assert(views(args@) =~= seq!["-C"@, self.root@, "pull"@]);
                    BootstrapAction::Run(process_request("git", args, false))
                } else {
                    self.phase = BootstrapPhase::Done;
                    BootstrapAction::Finish(
                        Err(
                            String::from_str(
                                "failed to reset the roslyn_source_repository_root git checkout — is `git` installed?",
                            ),
                        ),
                    )
                }
            },
            BootstrapPhase::Clone => {
                self.clone_ok = ok;
                self.phase = BootstrapPhase::ClearAfterClone;
                BootstrapAction::SetStatus(InstallStatus::Cleared)
            },
            _ => {
                self.phase = BootstrapPhase::Done;
                if ok {
                    let short = first_two_components(self.sdk_version.as_str());
                    let mut dir = concat(
                        self.root.as_str(),
                        "/artifacts/bin/Microsoft.VisualStudioCode.RazorExtension/Release/",
                    );
                    dir.append("net");
                    dir.append(short.as_str());
                    let dll = concat(dir.as_str(), "/Microsoft.VisualStudioCode.RazorExtension.dll");
                    let generator = concat(dir.as_str(), "/Microsoft.CodeAnalysis.Razor.Compiler.dll");
                    let targets = concat(dir.as_str(), "/Targets/Microsoft.NET.Sdk.Razor.DesignTime.targets");
                    let mut args = strings1("--extension");
                    push_string(&mut args, dll);
                    push_string(&mut args, String::from_str("--razorSourceGenerator"));
                    push_string(&mut args, generator);
                    push_string(&mut args, String::from_str("--razorDesignTimePath"));
                    push_string(&mut args, targets);
                    assert(views(args@) =~= razor_extension_args(self.root@, self.sdk_version@));
                    BootstrapAction::Finish(Ok(Some(args)))
                } else {
                    let mut msg = String::from_str(
                        "failed to build Microsoft.VisualStudioCode.RazorExtension from roslyn_source_repository_root (status: ",
                    );
                    let st = format_status(out.status);
                    msg.append(st.as_str());
                    msg.append(")\n--- stdout ---\n");
                    msg.append(out.stdout.as_str());
                    msg.append("\n--- stderr ---\n");
                    msg.append(out.stderr.as_str());
                    BootstrapAction::Finish(Err(msg))
                }
            },
        }
    }
}

proof fn lemma_line_start_at(s: Seq<char>, p: int, e: int, k: int)
    requires
        0 <= p <= k <= e <= s.len(),
        p == 0 || s[p - 1] == '\n',
        forall|j: int| p <= j < e ==> s[j] != '\n',
    ensures
        line_start(s, k) == p,
    decreases k,
{
    if k > p {
        lemma_line_start_at(s, p, e, k - 1);
    }
}

/// The SDK taken is the one on the last line, whatever the lines before it
/// list: after any lines `prefix`, a last line `line` (ended by a newline or
/// not) whose first two words are a version and a bracketed base path gives
/// that version, and the base path with the version appended.
pub proof fn law_sdk_from_last_line(prefix: Seq<char>, line: Seq<char>, newline: bool)
    requires
        prefix.len() == 0 || prefix.last() == '\n',
        forall|j: int| 0 <= j < line.len() ==> line[j] != '\n',
        line.len() == 0 || line.last() != '\r',
        words(line).len() >= 2,
    ensures
        ({
            let stdout = if newline { prefix + line + seq!['\n'] } else { prefix + line };
            sdk_listing(stdout) == Ok::<(Seq<char>, Seq<char>), Seq<char>>(
                (trim_brackets(words(line)[1]) + "/"@ + words(line)[0], words(line)[0]),
            )
        }),
{
    let p = prefix.len() as int;
    let e = p + line.len();
    if newline {
        let s = prefix + line + seq!['\n'];
        assert forall|j: int| p <= j < e implies s[j] != '\n' by {
            assert(s[j] == line[j - p]);
        }
        if p > 0 {
            assert(s[p - 1] == prefix.last());
        }
        lemma_line_start_at(s, p, e, e);
        assert(s.subrange(p, e) =~= line);
        if line.len() > 0 {
            assert(line.last() == line[line.len() - 1]);
        }
        assert(last_line(s) == Some(line));
    } else {
        let s = prefix + line;
        assert(line.len() > 0);
        assert forall|j: int| p <= j < e implies s[j] != '\n' by {
            assert(s[j] == line[j - p]);
        }
        if p > 0 {
            assert(s[p - 1] == prefix.last());
        }
        assert(s.last() == line[line.len() - 1]);
        lemma_line_start_at(s, p, e, e);
        assert(s.subrange(p, e) =~= line);
        assert(last_line(s) == Some(line));
    }
}

/// Two listings with the same last line give the same SDK: nothing on an
/// earlier line counts.
pub proof fn law_sdk_depends_on_last_line(s1: Seq<char>, s2: Seq<char>)
    requires
        last_line(s1) == last_line(s2),
        last_line(s1) is Some,
        words(last_line(s1)->0).len() >= 2,
    ensures
        sdk_listing(s1) is Ok,
        sdk_listing(s1) == sdk_listing(s2),
{
}

} // verus!
