//! The Roslyn language server: locating its binary and building its command.

use vstd::prelude::*;
use crate::text::{views, concat, starts_with, str_eq, append_all};
use crate::server::{Command, ServerPath, rid_uses_dll, server_file, command_matches};

verus! {

/// State kept across launches of the Roslyn language server: the binary that
/// the last successful launch found.
pub struct Roslyn {
    pub cached_server_path: Option<ServerPath>,
}

/// One entry of a directory listing: its name when it is valid UTF-8, and
/// whether it is a directory.
pub struct DirEntry {
    pub name: Option<String>,
    pub is_dir: bool,
}

/// The name of the first listed entry that is a directory with a UTF-8 name.
pub open spec fn first_dir_name(entries: Seq<DirEntry>) -> Option<Seq<char>>
    decreases entries.len(),
{
    if entries.len() == 0 {
        None
    } else if entries[0].is_dir && entries[0].name is Some {
        Some(entries[0].name->0@)
    } else {
        first_dir_name(entries.drop_first())
    }
}

/// `<version_dir>/tools`, where a package keeps its target-framework folders.
pub open spec fn tools_dir(version_dir: Seq<char>) -> Seq<char> {
    version_dir + "/tools"@
}

/// The outcome of looking for the server binary given the listing of the
/// tools directory: the binary path inside the first target-framework folder
/// (an assembly path still relative to the working directory), or an error.
pub open spec fn located_server(
    rid: Seq<char>,
    version_dir: Seq<char>,
    listing: Result<Seq<DirEntry>, Seq<char>>,
) -> Result<(bool, Seq<char>), Seq<char>> {
    let tools = tools_dir(version_dir);
    match listing {
        Err(e) => Err("failed to read tools directory '"@ + tools + "': "@ + e),
        Ok(entries) => match first_dir_name(entries) {
            None => Err("no TFM directory found inside '"@ + tools + "'"@),
            Some(tfm) => Ok(
                (rid_uses_dll(rid), server_file(rid, tools + "/"@ + tfm + "/"@ + rid)),
            ),
        },
    }
}

/// Whether `r` is the outcome `located_server` describes.
pub open spec fn locate_result_matches(
    r: Result<ServerPath, String>,
    expected: Result<(bool, Seq<char>), Seq<char>>,
) -> bool {
    match (r, expected) {
        (Ok(sp), Ok((dll, path))) => (sp is Dll) == dll && sp.path() == path,
        (Err(e), Err(m)) => e@ == m,
        _ => false,
    }
}

impl Roslyn {
    /// The identifier under which Zed knows this server and its settings.
    pub open spec fn spec_language_server_id() -> Seq<char> {
        "roslyn-razor"@
    }

    /// The identifier under which Zed knows this server and its settings.
    pub fn language_server_id() -> (r: &'static str)
        ensures
            r@ == Self::spec_language_server_id(),
    {
        "roslyn-razor"
    }

    /// A server with no binary found yet.
    pub fn new() -> (r: Roslyn)
        ensures
            r.cached_server_path is None,
    {
        Roslyn { cached_server_path: None }
    }

    /// The binary inside `server_dir` for the runtime identifier `rid`.
    pub fn server_path_for_rid(rid: &str, server_dir: String) -> (r: ServerPath)
        ensures
            (r is Dll) == rid_uses_dll(rid@),
            r.path() == server_file(rid@, server_dir@),
            rid@ == "any"@ ==> r is Dll && r.path() == server_dir@ + "/Microsoft.CodeAnalysis.LanguageServer.dll"@,
            rid@ != "any"@ && "win-"@.is_prefix_of(rid@) ==> r is Exe && r.path() == server_dir@
                + "/Microsoft.CodeAnalysis.LanguageServer.exe"@,
            rid@ != "any"@ && !"win-"@.is_prefix_of(rid@) ==> r is Exe && r.path() == server_dir@
                + "/Microsoft.CodeAnalysis.LanguageServer"@,
    {
        if str_eq(rid, "any") {
            ServerPath::Dll(concat(server_dir.as_str(), "/Microsoft.CodeAnalysis.LanguageServer.dll"))
        } else if starts_with(rid, "win-") {
            ServerPath::Exe(concat(server_dir.as_str(), "/Microsoft.CodeAnalysis.LanguageServer.exe"))
        } else {
            ServerPath::Exe(concat(server_dir.as_str(), "/Microsoft.CodeAnalysis.LanguageServer"))
        }
    }

    /// The command that starts `server_path` with `extra_args`.
    pub fn build_command(server_path: &ServerPath, extra_args: Vec<String>) -> (r: Command)
        ensures
            command_matches(r, *server_path, views(extra_args@)),
    {
        match server_path {
            ServerPath::Dll(path) => {
                let mut args: Vec<String> = Vec::new();
                args.push(String::from_str("exec"));
                args.push(path.clone());
                assert(views(args@) =~= seq!["exec"@, path@]);
                append_all(&mut args, extra_args);
                Command { command: String::from_str("dotnet"), args, env: Vec::new() }
            },
            ServerPath::Exe(path) => Command { command: path.clone(), args: extra_args, env: Vec::new() },
        }
    }

    /// Finds the server binary of the package unpacked in `version_dir`,
    /// given the listing of its tools directory (see [`located_server`]).
    pub fn locate_server_path(
        rid: &str,
        version_dir: &str,
        listing: Result<Vec<DirEntry>, String>,
    ) -> (r: Result<ServerPath, String>)
        ensures
            locate_result_matches(
                r,
                located_server(
                    rid@,
                    version_dir@,
                    match listing {
                        Ok(v) => Ok(v@),
                        Err(e) => Err(e@),
                    },
                ),
            ),
    {
        let tools = concat(version_dir, "/tools");
        match listing {
            Err(e) => {
                let mut msg = String::from_str("failed to read tools directory '");
                msg.append(tools.as_str());
                msg.append("': ");
                msg.append(e.as_str());
                Err(msg)
            },
            Ok(entries) => match first_dir(&entries) {
                None => {
                    let mut msg = String::from_str("no TFM directory found inside '");
                    msg.append(tools.as_str());
                    msg.append("'");
                    Err(msg)
                },
                Some(tfm) => {
                    let mut dir = tools.clone();
                    dir.append("/");
                    dir.append(tfm.as_str());
                    dir.append("/");
                    dir.append(rid);
                    Ok(Self::server_path_for_rid(rid, dir))
                },
            },
        }
    }
}

/// The name of the first listed entry that is a directory with a UTF-8 name.
pub fn first_dir(entries: &Vec<DirEntry>) -> (r: Option<String>)
    ensures
        match r {
            Some(n) => first_dir_name(entries@) == Some(n@),
            None => first_dir_name(entries@) is None,
        },
{
    let mut i: usize = 0;
    assert(entries@.skip(0) =~= entries@);
    while i < entries.len()
        invariant
            i <= entries.len(),
            first_dir_name(entries@) == first_dir_name(entries@.skip(i as int)),
        decreases entries.len() - i,
    {
        assert(entries@.skip(i as int).drop_first() =~= entries@.skip(i + 1));
        if entries[i].is_dir {
            match &entries[i].name {
                Some(n) => {
                    return Some(n.clone());
                },
                None => {},
            }
        }
        i = i + 1;
    }
    None
}

/// The server binary for each runtime identifier: the framework-dependent
/// assembly for `any`, the `.exe` for every Windows identifier (`win-x64`,
/// `win-arm64`, ...), and the extensionless executable for every other one.
pub proof fn law_server_file_by_rid(rid: Seq<char>, server_dir: Seq<char>)
    ensures
        rid == "any"@ ==> rid_uses_dll(rid) && server_file(rid, server_dir) == server_dir
            + "/Microsoft.CodeAnalysis.LanguageServer.dll"@,
        rid != "any"@ && "win-"@.is_prefix_of(rid) ==> !rid_uses_dll(rid) && server_file(rid, server_dir)
            == server_dir + "/Microsoft.CodeAnalysis.LanguageServer.exe"@,
        rid != "any"@ && !"win-"@.is_prefix_of(rid) ==> !rid_uses_dll(rid) && server_file(rid, server_dir)
            == server_dir + "/Microsoft.CodeAnalysis.LanguageServer"@,
{
}

} // verus!
