use zed_razor::configuration::defaults;
use zed_razor::json::{get_str, insert_entry, JsonValue};
use zed_razor::roslyn::Roslyn;

fn obj(entries: Vec<(&str, JsonValue)>) -> JsonValue {
    JsonValue::Object(entries.into_iter().map(|(k, v)| (k.to_string(), v)).collect())
}

fn entries(v: &JsonValue) -> &Vec<(String, JsonValue)> {
    match v {
        JsonValue::Object(e) => e,
        _ => panic!("not an object"),
    }
}

fn lookup<'a>(v: &'a JsonValue, key: &str) -> Option<&'a JsonValue> {
    entries(v).iter().find(|(k, _)| k == key).map(|(_, v)| v)
}

#[test]
fn no_settings_give_the_defaults_with_cohosting_on() {
    let r = Roslyn::configuration_options(None).unwrap().unwrap();
    assert_eq!(entries(&r).len(), 13);
    assert_eq!(
        lookup(&r, "razor|language_server.cohosting_enabled"),
        Some(&JsonValue::Bool(true))
    );
    assert_eq!(
        lookup(&r, "csharp|code_lens.dotnet_enable_references_code_lens"),
        Some(&JsonValue::Bool(false))
    );
    assert_eq!(r, JsonValue::Object(defaults()));
}

#[test]
fn non_object_settings_give_the_defaults() {
    let r = Roslyn::transform_settings_for_roslyn(JsonValue::String("x".to_string()));
    assert_eq!(r, JsonValue::Object(defaults()));
    let r = Roslyn::transform_settings_for_roslyn(JsonValue::Null);
    assert_eq!(r, JsonValue::Object(defaults()));
}

#[test]
fn groups_are_flattened_dotted_keys_kept_others_dropped() {
    let settings = obj(vec![
        (
            "csharp|background_analysis",
            obj(vec![
                ("dotnet_compiler_diagnostics_scope", JsonValue::String("openFiles".to_string())),
                ("dotnet_analyzer_diagnostics_scope", JsonValue::String("fullSolution".to_string())),
            ]),
        ),
        ("dotnet.server.useOmnisharp", JsonValue::Bool(false)),
        ("plain", JsonValue::Number("3".to_string())),
        ("csharp|not_an_object", JsonValue::Bool(true)),
        ("roslyn_source_repository_root", JsonValue::String("/src/roslyn".to_string())),
    ]);
    let r = Roslyn::transform_settings_for_roslyn(settings);
    assert_eq!(entries(&r).len(), 16);
    assert_eq!(
        lookup(&r, "csharp|background_analysis.dotnet_compiler_diagnostics_scope"),
        Some(&JsonValue::String("openFiles".to_string()))
    );
    assert_eq!(
        lookup(&r, "csharp|background_analysis.dotnet_analyzer_diagnostics_scope"),
        Some(&JsonValue::String("fullSolution".to_string()))
    );
    assert_eq!(lookup(&r, "dotnet.server.useOmnisharp"), Some(&JsonValue::Bool(false)));
    assert_eq!(lookup(&r, "plain"), None);
    assert_eq!(lookup(&r, "csharp|not_an_object"), None);
    assert_eq!(lookup(&r, "roslyn_source_repository_root"), None);
}

#[test]
fn user_settings_override_defaults_in_place() {
    let settings = obj(vec![(
        "razor|language_server",
        obj(vec![("cohosting_enabled", JsonValue::Bool(false))]),
    )]);
    let r = Roslyn::transform_settings_for_roslyn(settings);
    assert_eq!(entries(&r).len(), 13);
    assert_eq!(entries(&r)[0].0, "razor|language_server.cohosting_enabled");
    assert_eq!(entries(&r)[0].1, JsonValue::Bool(false));
}

#[test]
fn later_settings_win_for_the_same_key() {
    let settings = obj(vec![
        ("a|b", obj(vec![("c.d", JsonValue::Number("1".to_string()))])),
        ("a|b.c", obj(vec![("d", JsonValue::Number("2".to_string()))])),
    ]);
    let r = Roslyn::transform_settings_for_roslyn(settings);
    assert_eq!(entries(&r).len(), 14);
    assert_eq!(lookup(&r, "a|b.c.d"), Some(&JsonValue::Number("2".to_string())));
}

#[test]
fn insert_entry_replaces_or_appends() {
    let mut v = vec![("a".to_string(), JsonValue::Null)];
    insert_entry(&mut v, "b".to_string(), JsonValue::Bool(true));
    insert_entry(&mut v, "a".to_string(), JsonValue::Bool(false));
    assert_eq!(
        v,
        vec![
            ("a".to_string(), JsonValue::Bool(false)),
            ("b".to_string(), JsonValue::Bool(true))
        ]
    );
}

#[test]
fn get_str_reads_a_string_under_a_key() {
    let v = obj(vec![
        ("roslyn_source_repository_root", JsonValue::String("/src/roslyn".to_string())),
        ("n", JsonValue::Number("1".to_string())),
    ]);
    assert_eq!(get_str(&v, "roslyn_source_repository_root"), Some("/src/roslyn".to_string()));
    assert_eq!(get_str(&v, "n"), None);
    assert_eq!(get_str(&v, "missing"), None);
    assert_eq!(get_str(&JsonValue::Null, "n"), None);
}
