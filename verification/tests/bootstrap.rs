use zed_razor::json::JsonValue;
use zed_razor::razor_build::{format_status, parse_sdk_listing, BootstrapAction, BootstrapPhase, RazorBootstrap};
use zed_razor::status::{InstallStatus, ProcessOutput, ProcessRequest};

fn strings(v: &[&str]) -> Vec<String> {
    v.iter().map(|s| s.to_string()).collect()
}

fn settings(root: &str) -> JsonValue {
    JsonValue::Object(vec![(
        "roslyn_source_repository_root".to_string(),
        JsonValue::String(root.to_string()),
    )])
}

fn out(status: Option<i32>, stdout: &str) -> ProcessOutput {
    ProcessOutput { status, stdout: stdout.to_string(), stderr: String::new() }
}

fn run(a: BootstrapAction) -> ProcessRequest {
    match a {
        BootstrapAction::Run(r) => r,
        other => panic!("not a run: {:?}", other),
    }
}

const SDKS: &str = "8.0.404 [/usr/share/dotnet/sdk]\n10.0.100 [/usr/share/dotnet/sdk]\n";

#[test]
fn sdk_listing_takes_the_last_sdk() {
    assert_eq!(
        parse_sdk_listing(SDKS),
        Ok(("/usr/share/dotnet/sdk/10.0.100".to_string(), "10.0.100".to_string()))
    );
    assert_eq!(
        parse_sdk_listing(""),
        Err("no .NET SDK found (`dotnet --list-sdks` returned nothing): ".to_string())
    );
    assert_eq!(
        parse_sdk_listing("garbage\n"),
        Err("unable to parse `dotnet --list-sdks` output: garbage\n".to_string())
    );
}

#[test]
fn status_formatting() {
    assert_eq!(format_status(Some(1)), "Some(1)");
    assert_eq!(format_status(Some(-9)), "Some(-9)");
    assert_eq!(format_status(None), "None");
}

#[test]
fn without_the_setting_nothing_is_done() {
    let (mut b, a) = RazorBootstrap::start();
    assert!(matches!(a, BootstrapAction::ReadSettings));
    assert!(matches!(b.on_settings(None), BootstrapAction::Finish(Ok(None))));
    let (mut b, _) = RazorBootstrap::start();
    let other = JsonValue::Object(vec![("x".to_string(), JsonValue::Null)]);
    assert!(matches!(b.on_settings(Some(other)), BootstrapAction::Finish(Ok(None))));
    assert_eq!(b.phase, BootstrapPhase::Done);
}

#[test]
fn existing_checkout_is_updated_and_built() {
    let (mut b, _) = RazorBootstrap::start();
    let r = run(b.on_settings(Some(settings("/src/roslyn"))));
    assert_eq!(r.program, "dotnet");
    assert_eq!(r.args, strings(&["--list-sdks"]));
    assert!(r.with_shell_env);
    let r = run(b.on_output(Ok(out(Some(0), SDKS))));
    assert_eq!((r.program.as_str(), r.args.clone()), ("test", strings(&["-d", "/src/roslyn"])));
    let a = b.on_output(Ok(out(Some(0), "")));
    assert!(matches!(a, BootstrapAction::SetStatus(InstallStatus::CheckingForUpdate)));
    let r = run(b.on_status_set());
    assert_eq!((r.program.as_str(), r.args.clone()), ("git", strings(&["-C", "/src/roslyn", "reset", "--hard"])));
    let r = run(b.on_output(Ok(out(Some(0), ""))));
    assert_eq!((r.program.as_str(), r.args.clone()), ("git", strings(&["-C", "/src/roslyn", "pull"])));
    // A failed pull is not fatal.
    let a = b.on_output(Err("offline".to_string()));
    assert!(matches!(a, BootstrapAction::SetStatus(InstallStatus::Cleared)));
    let r = run(b.on_status_set());
    assert_eq!(r.program, "dotnet");
    assert_eq!(
        r.args,
        strings(&[
            "build",
            "/src/roslyn/src/Razor/src/Razor/src/Microsoft.VisualStudioCode.RazorExtension/Microsoft.VisualStudioCode.RazorExtension.csproj",
            "--configuration",
            "Release",
        ])
    );
    assert!(r.with_shell_env);
    match b.on_output(Ok(out(Some(0), "Build succeeded."))) {
        BootstrapAction::Finish(Ok(Some(args))) => assert_eq!(
            args,
            strings(&[
                "--extension",
                "/src/roslyn/artifacts/bin/Microsoft.VisualStudioCode.RazorExtension/Release/net10.0/Microsoft.VisualStudioCode.RazorExtension.dll",
                "--razorSourceGenerator",
                "/src/roslyn/artifacts/bin/Microsoft.VisualStudioCode.RazorExtension/Release/net10.0/Microsoft.CodeAnalysis.Razor.Compiler.dll",
                "--razorDesignTimePath",
                "/src/roslyn/artifacts/bin/Microsoft.VisualStudioCode.RazorExtension/Release/net10.0/Targets/Microsoft.NET.Sdk.Razor.DesignTime.targets",
            ])
        ),
        other => panic!("{:?}", other),
    }
}

#[test]
fn failed_reset_is_an_error() {
    let (mut b, _) = RazorBootstrap::start();
    b.on_settings(Some(settings("/r")));
    b.on_output(Ok(out(Some(0), SDKS)));
    b.on_output(Ok(out(Some(0), "")));
    b.on_status_set();
    match b.on_output(Ok(out(Some(128), ""))) {
        BootstrapAction::Finish(Err(e)) => assert_eq!(
            e,
            "failed to reset the roslyn_source_repository_root git checkout — is `git` installed?"
        ),
        other => panic!("{:?}", other),
    }
}

#[test]
fn missing_checkout_is_cloned_and_clone_failure_reported() {
    let (mut b, _) = RazorBootstrap::start();
    b.on_settings(Some(settings("/r")));
    b.on_output(Ok(out(Some(0), SDKS)));
    let a = b.on_output(Ok(out(Some(1), "")));
    assert!(matches!(a, BootstrapAction::SetStatus(InstallStatus::Downloading)));
    let r = run(b.on_status_set());
    assert_eq!(
        (r.program.as_str(), r.args.clone()),
        ("git", strings(&["clone", "https://github.com/dotnet/roslyn", "--branch", "release/stable", "/r"]))
    );
    let a = b.on_output(Ok(out(Some(128), "")));
    assert!(matches!(a, BootstrapAction::SetStatus(InstallStatus::Cleared)));
    match b.on_status_set() {
        BootstrapAction::Finish(Err(e)) => assert_eq!(
            e,
            "failed to clone dotnet/roslyn into roslyn_source_repository_root (git + internet access required for this opt-in setting)"
        ),
        other => panic!("{:?}", other),
    }
}

#[test]
fn build_failure_reports_status_and_output() {
    let (mut b, _) = RazorBootstrap::start();
    b.on_settings(Some(settings("/r")));
    b.on_output(Ok(out(Some(0), SDKS)));
    b.on_output(Ok(out(Some(1), "")));
    b.on_status_set();
    b.on_output(Ok(out(Some(0), "")));
    assert!(matches!(b.on_status_set(), BootstrapAction::Run(_)));
    let failed = ProcessOutput { status: Some(1), stdout: "o".to_string(), stderr: "e".to_string() };
    match b.on_output(Ok(failed)) {
        BootstrapAction::Finish(Err(e)) => assert_eq!(
            e,
            "failed to build Microsoft.VisualStudioCode.RazorExtension from roslyn_source_repository_root (status: Some(1))\n--- stdout ---\no\n--- stderr ---\ne"
        ),
        other => panic!("{:?}", other),
    }
}

#[test]
fn process_errors_end_the_bootstrap() {
    let (mut b, _) = RazorBootstrap::start();
    b.on_settings(Some(settings("/r")));
    match b.on_output(Err("no dotnet".to_string())) {
        BootstrapAction::Finish(Err(e)) => assert_eq!(e, "no dotnet"),
        other => panic!("{:?}", other),
    }
    let (mut b, _) = RazorBootstrap::start();
    b.on_settings(Some(settings("/r")));
    match b.on_output(Ok(out(Some(0), ""))) {
        BootstrapAction::Finish(Err(e)) => {
            assert_eq!(e, "no .NET SDK found (`dotnet --list-sdks` returned nothing): ")
        }
        other => panic!("{:?}", other),
    }
}
