use zed_razor::roslyn::{first_dir, DirEntry, Roslyn};
use zed_razor::server::{rid_for_platform, Architecture, Command, Os, ServerPath};

fn strings(v: &[&str]) -> Vec<String> {
    v.iter().map(|s| s.to_string()).collect()
}

#[test]
fn rid_for_each_platform() {
    assert_eq!(rid_for_platform(Os::Windows, Architecture::X8664), "win-x64");
    assert_eq!(rid_for_platform(Os::Windows, Architecture::Aarch64), "win-arm64");
    assert_eq!(rid_for_platform(Os::Linux, Architecture::X8664), "linux-x64");
    assert_eq!(rid_for_platform(Os::Linux, Architecture::Aarch64), "linux-arm64");
    assert_eq!(rid_for_platform(Os::Mac, Architecture::X8664), "osx-x64");
    assert_eq!(rid_for_platform(Os::Mac, Architecture::Aarch64), "osx-arm64");
    assert_eq!(rid_for_platform(Os::Linux, Architecture::X86), "any");
    assert_eq!(rid_for_platform(Os::Windows, Architecture::X86), "any");
}

#[test]
fn server_path_for_each_kind_of_rid() {
    assert_eq!(
        Roslyn::server_path_for_rid("any", "d".to_string()),
        ServerPath::Dll("d/Microsoft.CodeAnalysis.LanguageServer.dll".to_string())
    );
    assert_eq!(
        Roslyn::server_path_for_rid("win-arm64", "d".to_string()),
        ServerPath::Exe("d/Microsoft.CodeAnalysis.LanguageServer.exe".to_string())
    );
    assert_eq!(
        Roslyn::server_path_for_rid("osx-arm64", "d".to_string()),
        ServerPath::Exe("d/Microsoft.CodeAnalysis.LanguageServer".to_string())
    );
}

#[test]
fn as_str_gives_the_path() {
    assert_eq!(ServerPath::Exe("x".to_string()).as_str(), "x");
    assert_eq!(ServerPath::Dll("y".to_string()).as_str(), "y");
}

#[test]
fn build_command_for_assembly_and_executable() {
    let c = Roslyn::build_command(&ServerPath::Dll("/a/s.dll".to_string()), strings(&["--stdio"]));
    assert_eq!(
        c,
        Command { command: "dotnet".to_string(), args: strings(&["exec", "/a/s.dll", "--stdio"]), env: vec![] }
    );
    let c = Roslyn::build_command(&ServerPath::Exe("/a/s".to_string()), strings(&["--stdio", "-x"]));
    assert_eq!(c, Command { command: "/a/s".to_string(), args: strings(&["--stdio", "-x"]), env: vec![] });
}

fn entry(name: Option<&str>, is_dir: bool) -> DirEntry {
    DirEntry { name: name.map(|s| s.to_string()), is_dir }
}

#[test]
fn first_dir_skips_files_and_bad_names() {
    let v = vec![entry(Some("readme"), false), entry(None, true), entry(Some("net9.0"), true), entry(Some("net8.0"), true)];
    assert_eq!(first_dir(&v), Some("net9.0".to_string()));
    assert_eq!(first_dir(&vec![entry(Some("f"), false)]), None);
}

#[test]
fn locate_server_path_outcomes() {
    let found = Roslyn::locate_server_path("linux-x64", "roslyn-razor-5.0.0", Ok(vec![entry(Some("net9.0"), true)]));
    assert_eq!(
        found,
        Ok(ServerPath::Exe(
            "roslyn-razor-5.0.0/tools/net9.0/linux-x64/Microsoft.CodeAnalysis.LanguageServer".to_string()
        ))
    );
    let found = Roslyn::locate_server_path("any", "v", Ok(vec![entry(Some("net9.0"), true)]));
    assert_eq!(found, Ok(ServerPath::Dll("v/tools/net9.0/any/Microsoft.CodeAnalysis.LanguageServer.dll".to_string())));
    assert_eq!(
        Roslyn::locate_server_path("any", "v", Ok(vec![])),
        Err("no TFM directory found inside 'v/tools'".to_string())
    );
    assert_eq!(
        Roslyn::locate_server_path("any", "v", Err("No such file or directory".to_string())),
        Err("failed to read tools directory 'v/tools': No such file or directory".to_string())
    );
}

#[test]
fn outdated_versions() {
    assert!(Roslyn::is_outdated_version("roslyn-razor-4.0.0", "roslyn-razor", "roslyn-razor-5.0.0"));
    assert!(!Roslyn::is_outdated_version("roslyn-razor-5.0.0", "roslyn-razor", "roslyn-razor-5.0.0"));
    assert!(!Roslyn::is_outdated_version("node_modules", "roslyn-razor", "roslyn-razor-5.0.0"));
}

#[test]
fn new_has_no_cached_path() {
    assert!(Roslyn::new().cached_server_path.is_none());
}
