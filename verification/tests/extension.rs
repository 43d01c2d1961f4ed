use zed_razor::extension::{BundledAction, Razor, Route};
use zed_razor::server::Command;
use zed_razor::status::InstallStatus;

fn strings(v: &[&str]) -> Vec<String> {
    v.iter().map(|s| s.to_string()).collect()
}

#[test]
fn routes_by_id() {
    let r = Razor::new();
    assert_eq!(
        r.language_server_command("html-in-razor"),
        Ok(Route::Bundled {
            binary_name: "vscode-html-language-server".to_string(),
            relative_path: "node_modules/@zed-industries/vscode-langservers-extracted/bin/vscode-html-language-server"
                .to_string(),
        })
    );
    assert_eq!(
        r.language_server_command("css-in-razor"),
        Ok(Route::Bundled {
            binary_name: "vscode-css-language-server".to_string(),
            relative_path: "node_modules/@zed-industries/vscode-langservers-extracted/bin/vscode-css-language-server"
                .to_string(),
        })
    );
    assert_eq!(r.language_server_command("roslyn-razor"), Ok(Route::Roslyn));
    assert_eq!(r.language_server_command("omnisharp"), Err("unknown language server: omnisharp".to_string()));
}

#[test]
fn only_roslyn_gets_a_workspace_configuration() {
    assert!(Razor::language_server_workspace_configuration("roslyn-razor"));
    assert!(!Razor::language_server_workspace_configuration("html-in-razor"));
}

#[test]
fn binary_on_path_is_preferred() {
    let razor = Razor::new();
    let (mut l, a) = Razor::bundled_binary_command("vscode-html-language-server", "rel");
    assert!(matches!(a, BundledAction::Which(ref b) if b == "vscode-html-language-server"));
    match l.on_which(&razor, Some("/usr/bin/vscode-html-language-server".to_string())) {
        BundledAction::Finish(Ok(c)) => assert_eq!(
            c,
            Command { command: "/usr/bin/vscode-html-language-server".to_string(), args: strings(&["--stdio"]), env: vec![] }
        ),
        other => panic!("{:?}", other),
    }
}

#[test]
fn package_is_installed_once_per_session() {
    let mut razor = Razor::new();
    let (mut l, _) = Razor::bundled_binary_command("vscode-css-language-server", "node_modules/x/bin/css");
    match l.on_which(&razor, None) {
        BundledAction::QueryInstalledVersion(p) => assert_eq!(p, "@zed-industries/vscode-langservers-extracted"),
        other => panic!("{:?}", other),
    }
    assert!(matches!(l.on_installed_version(Ok(Some("4.9.0".to_string()))), BundledAction::QueryLatestVersion(_)));
    let a = l.on_latest_version(&mut razor, Ok("4.10.0".to_string()));
    assert!(matches!(a, BundledAction::SetStatus(InstallStatus::Downloading)));
    assert!(!razor.langservers_ready);
    match l.on_status_set() {
        BundledAction::InstallPackage { package, version } => {
            assert_eq!(package, "@zed-industries/vscode-langservers-extracted");
            assert_eq!(version, "4.10.0");
        }
        other => panic!("{:?}", other),
    }
    match l.on_installed(&mut razor, Ok(())) {
        BundledAction::ResolveScriptPath(p) => assert_eq!(p, "node_modules/x/bin/css"),
        other => panic!("{:?}", other),
    }
    assert!(razor.langservers_ready);
    assert!(matches!(l.on_script_path(Ok("/ext/node_modules/x/bin/css".to_string())), BundledAction::QueryNodeBinary));
    match l.on_node_binary(Ok("/node/bin/node".to_string())) {
        BundledAction::Finish(Ok(c)) => assert_eq!(
            c,
            Command {
                command: "/node/bin/node".to_string(),
                args: strings(&["/ext/node_modules/x/bin/css", "--stdio"]),
                env: vec![]
            }
        ),
        other => panic!("{:?}", other),
    }

    // Once ready, the package is not checked again.
    let (mut l, _) = Razor::bundled_binary_command("vscode-html-language-server", "rel");
    assert!(matches!(l.on_which(&razor, None), BundledAction::ResolveScriptPath(_)));
}

#[test]
fn current_package_needs_no_install() {
    let mut razor = Razor::new();
    let (mut l, _) = Razor::bundled_binary_command("b", "rel");
    l.on_which(&razor, None);
    l.on_installed_version(Ok(Some("4.10.0".to_string())));
    assert!(matches!(l.on_latest_version(&mut razor, Ok("4.10.0".to_string())), BundledAction::ResolveScriptPath(_)));
    assert!(razor.langservers_ready);
}

#[test]
fn bundled_errors() {
    let mut razor = Razor::new();
    let (mut l, _) = Razor::bundled_binary_command("b", "rel");
    l.on_which(&razor, None);
    assert!(matches!(l.on_installed_version(Err("npm".to_string())), BundledAction::Finish(Err(ref e)) if e == "npm"));
    let (mut l, _) = Razor::bundled_binary_command("b", "rel");
    l.on_which(&razor, None);
    l.on_installed_version(Ok(None));
    l.on_latest_version(&mut razor, Ok("1".to_string()));
    l.on_status_set();
    assert!(matches!(l.on_installed(&mut razor, Err("disk".to_string())), BundledAction::Finish(Err(ref e)) if e == "disk"));
    assert!(!razor.langservers_ready);
}

#[test]
fn roslyn_is_made_once() {
    let mut razor = Razor::new();
    assert!(razor.roslyn.is_none());
    razor.roslyn().cached_server_path = Some(zed_razor::server::ServerPath::Exe("/x".to_string()));
    assert_eq!(
        razor.roslyn().cached_server_path,
        Some(zed_razor::server::ServerPath::Exe("/x".to_string()))
    );
}
