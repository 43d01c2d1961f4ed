use zed_razor::launch::{BinarySettings, LaunchAction, LaunchPhase};
use zed_razor::roslyn::{DirEntry, Roslyn};
use zed_razor::server::{Architecture, Command, Os, ServerPath};
use zed_razor::status::InstallStatus;

fn strings(v: &[&str]) -> Vec<String> {
    v.iter().map(|s| s.to_string()).collect()
}

fn dir(name: &str) -> DirEntry {
    DirEntry { name: Some(name.to_string()), is_dir: true }
}

fn finished(a: LaunchAction) -> Result<Command, String> {
    match a {
        LaunchAction::Finish(r) => r,
        other => panic!("not finished: {:?}", other),
    }
}

#[test]
fn override_path_is_started_with_all_arguments() {
    let roslyn = Roslyn::new();
    let (mut l, a) = roslyn.language_server_cmd();
    assert!(matches!(a, LaunchAction::ReadBinarySettings));
    let a = l.on_binary_settings(Some(BinarySettings {
        path: Some("/opt/roslyn/server".to_string()),
        arguments: Some(strings(&["--logLevel", "Trace"])),
    }));
    assert!(matches!(a, LaunchAction::InstallOrUpdateRazor));
    let a = l.on_razor_args(&roslyn, Ok(Some(strings(&["--extension", "/r/x.dll"]))));
    assert_eq!(
        finished(a),
        Ok(Command {
            command: "/opt/roslyn/server".to_string(),
            args: strings(&["--stdio", "--autoLoadProjects", "--extension", "/r/x.dll", "--logLevel", "Trace"]),
            env: vec![],
        })
    );
    assert_eq!(l.phase, LaunchPhase::Done);
}

#[test]
fn razor_error_ends_the_launch() {
    let roslyn = Roslyn::new();
    let (mut l, _) = roslyn.language_server_cmd();
    l.on_binary_settings(None);
    let a = l.on_razor_args(&roslyn, Err("failed to clone".to_string()));
    assert_eq!(finished(a), Err("failed to clone".to_string()));
}

#[test]
fn fresh_install_downloads_and_caches_the_executable() {
    let mut roslyn = Roslyn::new();
    let (mut l, _) = roslyn.language_server_cmd();
    l.on_binary_settings(None);
    let a = l.on_razor_args(&roslyn, Ok(None));
    assert!(matches!(a, LaunchAction::SetStatus(InstallStatus::CheckingForUpdate)));
    assert!(matches!(l.on_status_set(), LaunchAction::QueryPlatform));
    match l.on_platform(Os::Linux, Architecture::X8664) {
        LaunchAction::FetchLatestVersion(p) => assert_eq!(p, "roslyn-language-server.linux-x64"),
        other => panic!("{:?}", other),
    }
    match l.on_latest_version(Ok("5.0.0".to_string())) {
        LaunchAction::ListDirectory(d) => assert_eq!(d, "roslyn-razor-5.0.0/tools"),
        other => panic!("{:?}", other),
    }
    // Not unpacked yet: the listing fails, so the package is downloaded.
    let a = l.on_listing(Err("not found".to_string()));
    assert!(matches!(a, LaunchAction::SetStatus(InstallStatus::Downloading)));
    match l.on_status_set() {
        LaunchAction::DownloadPackage { package_id, version, version_dir } => {
            assert_eq!(package_id, "roslyn-language-server.linux-x64");
            assert_eq!(version, "5.0.0");
            assert_eq!(version_dir, "roslyn-razor-5.0.0");
        }
        other => panic!("{:?}", other),
    }
    match l.on_downloaded(Ok(())) {
        LaunchAction::RemoveOutdatedVersions { prefix, keep } => {
            assert_eq!(prefix, "roslyn-razor");
            assert_eq!(keep, "roslyn-razor-5.0.0");
        }
        other => panic!("{:?}", other),
    }
    match l.on_cleaned_up(Ok(())) {
        LaunchAction::ListDirectory(d) => assert_eq!(d, "roslyn-razor-5.0.0/tools"),
        other => panic!("{:?}", other),
    }
    let exe = "roslyn-razor-5.0.0/tools/net9.0/linux-x64/Microsoft.CodeAnalysis.LanguageServer";
    match l.on_listing(Ok(vec![dir("net9.0")])) {
        LaunchAction::MakeExecutable(p) => assert_eq!(p, exe),
        other => panic!("{:?}", other),
    }
    let a = l.on_made_executable(&mut roslyn, Ok(()));
    assert_eq!(
        finished(a),
        Ok(Command { command: exe.to_string(), args: strings(&["--stdio", "--autoLoadProjects"]), env: vec![] })
    );
    assert_eq!(roslyn.cached_server_path, Some(ServerPath::Exe(exe.to_string())));

    // The next launch reuses the cached binary while it exists.
    let (mut l, _) = roslyn.language_server_cmd();
    l.on_binary_settings(None);
    match l.on_razor_args(&roslyn, Ok(None)) {
        LaunchAction::CheckIsFile(p) => assert_eq!(p, exe),
        other => panic!("{:?}", other),
    }
    let a = l.on_is_file(true);
    assert_eq!(
        finished(a),
        Ok(Command { command: exe.to_string(), args: strings(&["--stdio", "--autoLoadProjects"]), env: vec![] })
    );
}

#[test]
fn unpacked_assembly_is_reused_without_download() {
    let mut roslyn = Roslyn::new();
    let (mut l, _) = roslyn.language_server_cmd();
    l.on_binary_settings(None);
    l.on_razor_args(&roslyn, Ok(None));
    l.on_status_set();
    l.on_platform(Os::Linux, Architecture::X86);
    l.on_latest_version(Ok("5.0.0".to_string()));
    let rel = "roslyn-razor-5.0.0/tools/net9.0/any/Microsoft.CodeAnalysis.LanguageServer.dll";
    match l.on_listing(Ok(vec![dir("net9.0")])) {
        LaunchAction::Absolutize(p) => assert_eq!(p, rel),
        other => panic!("{:?}", other),
    }
    let abs = format!("/work/{rel}");
    match l.on_absolute_path(&mut roslyn, Ok(abs.clone())) {
        LaunchAction::CheckIsFile(p) => assert_eq!(p, abs),
        other => panic!("{:?}", other),
    }
    match l.on_is_file(true) {
        LaunchAction::ListDirectory(d) => assert_eq!(d, "roslyn-razor-5.0.0/tools"),
        other => panic!("{:?}", other),
    }
    assert!(matches!(l.on_listing(Ok(vec![dir("net9.0")])), LaunchAction::Absolutize(_)));
    let a = l.on_absolute_path(&mut roslyn, Ok(abs.clone()));
    assert_eq!(
        finished(a),
        Ok(Command {
            command: "dotnet".to_string(),
            args: strings(&["exec", &abs, "--stdio", "--autoLoadProjects"]),
            env: vec![],
        })
    );
    assert_eq!(roslyn.cached_server_path, Some(ServerPath::Dll(abs)));
}

#[test]
fn missing_cached_binary_is_looked_up_again() {
    let mut roslyn = Roslyn::new();
    roslyn.cached_server_path = Some(ServerPath::Exe("/gone".to_string()));
    let (mut l, _) = roslyn.language_server_cmd();
    l.on_binary_settings(None);
    assert!(matches!(l.on_razor_args(&roslyn, Ok(None)), LaunchAction::CheckIsFile(_)));
    assert!(matches!(l.on_is_file(false), LaunchAction::SetStatus(InstallStatus::CheckingForUpdate)));
}

#[test]
fn launch_errors() {
    let mut roslyn = Roslyn::new();
    let (mut l, _) = roslyn.language_server_cmd();
    l.on_binary_settings(None);
    l.on_razor_args(&roslyn, Ok(None));
    l.on_status_set();
    l.on_platform(Os::Mac, Architecture::Aarch64);
    assert_eq!(finished(l.on_latest_version(Err("offline".to_string()))), Err("offline".to_string()));

    let (mut l, _) = roslyn.language_server_cmd();
    l.on_binary_settings(None);
    l.on_razor_args(&roslyn, Ok(None));
    l.on_status_set();
    l.on_platform(Os::Mac, Architecture::Aarch64);
    l.on_latest_version(Ok("1.0".to_string()));
    l.on_listing(Ok(vec![]));
    l.on_status_set();
    assert_eq!(finished(l.on_downloaded(Err("http 500".to_string()))), Err("http 500".to_string()));

    let (mut l, _) = roslyn.language_server_cmd();
    l.on_binary_settings(None);
    l.on_razor_args(&roslyn, Ok(None));
    l.on_status_set();
    l.on_platform(Os::Mac, Architecture::Aarch64);
    l.on_latest_version(Ok("1.0".to_string()));
    l.on_listing(Ok(vec![]));
    l.on_status_set();
    l.on_downloaded(Ok(()));
    assert_eq!(finished(l.on_cleaned_up(Err("busy".to_string()))), Err("busy".to_string()));

    let (mut l, _) = roslyn.language_server_cmd();
    l.on_binary_settings(None);
    l.on_razor_args(&roslyn, Ok(None));
    l.on_status_set();
    l.on_platform(Os::Mac, Architecture::Aarch64);
    l.on_latest_version(Ok("1.0".to_string()));
    l.on_listing(Ok(vec![]));
    l.on_status_set();
    l.on_downloaded(Ok(()));
    l.on_cleaned_up(Ok(()));
    assert_eq!(
        finished(l.on_listing(Ok(vec![]))),
        Err("no TFM directory found inside 'roslyn-razor-1.0/tools'".to_string())
    );

    let (mut l, _) = roslyn.language_server_cmd();
    l.on_binary_settings(None);
    l.on_razor_args(&roslyn, Ok(None));
    l.on_status_set();
    l.on_platform(Os::Mac, Architecture::Aarch64);
    l.on_latest_version(Ok("1.0".to_string()));
    l.on_listing(Ok(vec![dir("net9.0")]));
    l.on_is_file(true);
    l.on_listing(Ok(vec![dir("net9.0")]));
    assert_eq!(finished(l.on_made_executable(&mut roslyn, Err("denied".to_string()))), Err("denied".to_string()));
    assert_eq!(roslyn.cached_server_path, None);
}
