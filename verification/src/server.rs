//! Where the Roslyn language server binary lives and how it is started.

use vstd::prelude::*;
use crate::text::views;

verus! {

/// A process to start: program, arguments and environment variables.
#[derive(Debug, PartialEq)]
pub struct Command {
    pub command: String,
    pub args: Vec<String>,
    pub env: Vec<(String, String)>,
}

/// The server binary found in a package: a native executable, or a
/// framework-dependent assembly that `dotnet` runs.
#[derive(Debug, PartialEq)]
pub enum ServerPath {
    Exe(String),
    Dll(String),
}

impl ServerPath {
    /// The file path of either kind.
    pub open spec fn path(&self) -> Seq<char> {
        match self {
            ServerPath::Exe(p) => p@,
            ServerPath::Dll(p) => p@,
        }
    }

    /// The file path of either kind.
    pub fn as_str(&self) -> (r: &str)
        ensures
            r@ == self.path(),
    {
        match self {
            ServerPath::Exe(path) => path.as_str(),
            ServerPath::Dll(path) => path.as_str(),
        }
    }

    /// A copy of this path.
    pub fn duplicate(&self) -> (r: ServerPath)
        ensures
            r == *self,
    {
        match self {
            ServerPath::Exe(path) => ServerPath::Exe(path.clone()),
            ServerPath::Dll(path) => ServerPath::Dll(path.clone()),
        }
    }
}

/// The operating system the editor runs on.
#[derive(Debug, Clone, Copy, PartialEq, Eq, Structural)]
pub enum Os {
    Mac,
    Linux,
    Windows,
}

/// The processor architecture the editor runs on.
#[derive(Debug, Clone, Copy, PartialEq, Eq, Structural)]
pub enum Architecture {
    Aarch64,
    X86,
    X8664,
}

/// The .NET runtime identifier of the platform; `any` where no
/// platform-specific build is published.
pub open spec fn spec_rid(os: Os, arch: Architecture) -> Seq<char> {
    match (os, arch) {
        (Os::Windows, Architecture::X8664) => "win-x64"@,
        (Os::Windows, Architecture::Aarch64) => "win-arm64"@,
        (Os::Linux, Architecture::X8664) => "linux-x64"@,
        (Os::Linux, Architecture::Aarch64) => "linux-arm64"@,
        (Os::Mac, Architecture::X8664) => "osx-x64"@,
        (Os::Mac, Architecture::Aarch64) => "osx-arm64"@,
        _ => "any"@,
    }
}

/// The .NET runtime identifier of the platform.
pub fn rid_for_platform(os: Os, arch: Architecture) -> (r: &'static str)
    ensures
        r@ == spec_rid(os, arch),
{
    match (os, arch) {
        (Os::Windows, Architecture::X8664) => "win-x64",
        (Os::Windows, Architecture::Aarch64) => "win-arm64",
        (Os::Linux, Architecture::X8664) => "linux-x64",
        (Os::Linux, Architecture::Aarch64) => "linux-arm64",
        (Os::Mac, Architecture::X8664) => "osx-x64",
        (Os::Mac, Architecture::Aarch64) => "osx-arm64",
        _ => "any",
    }
}

/// Whether the runtime identifier `rid` selects the framework-dependent
/// assembly (run by `dotnet`) rather than a native executable.
pub open spec fn rid_uses_dll(rid: Seq<char>) -> bool {
    rid == "any"@
}

/// The file of the server binary inside `server_dir` for the runtime
/// identifier `rid`: `.dll` for `any`, `.exe` on Windows, no extension
/// elsewhere.
pub open spec fn server_file(rid: Seq<char>, server_dir: Seq<char>) -> Seq<char> {
    if rid == "any"@ {
        server_dir + "/Microsoft.CodeAnalysis.LanguageServer.dll"@
    } else if "win-"@.is_prefix_of(rid) {
        server_dir + "/Microsoft.CodeAnalysis.LanguageServer.exe"@
    } else {
        server_dir + "/Microsoft.CodeAnalysis.LanguageServer"@
    }
}

/// The command that starts `server_path` with `extra_args`: an assembly
/// runs under `dotnet exec`, an executable runs directly; no environment.
pub open spec fn command_matches(c: Command, server_path: ServerPath, extra_args: Seq<Seq<char>>) -> bool {
    &&& c.env@.len() == 0
    &&& match server_path {
        ServerPath::Dll(p) => c.command@ == "dotnet"@ && views(c.args@) == seq!["exec"@, p@] + extra_args,
        ServerPath::Exe(p) => c.command@ == p@ && views(c.args@) == extra_args,
    }
}

} // verus!
