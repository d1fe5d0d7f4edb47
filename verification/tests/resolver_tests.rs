//! The resolver's behavior on concrete inputs: the cascade for each hint,
//! the environment fallback, and strict mode.

use hbs::resolver::resolve;
use hbs::{Data, Diag, Fmt, Resolution};

fn env_fixture() -> Vec<(String, String)> {
    vec![
        ("HOME".to_string(), "/home/ada".to_string()),
        ("NAME".to_string(), "Ada".to_string()),
    ]
}

fn path(s: &str) -> String {
    s.to_string()
}

#[test]
fn json_content_json_extension_first_try() {
    let (r, diags) = resolve(
        Some(&path("d.json")),
        Some("{\"name\": \"Ada\"}".to_string()),
        false,
        env_fixture(),
    );
    assert!(matches!(r, Resolution::Resolved(Data::Json(_))));
    assert!(diags.is_empty());
}

#[test]
fn yaml_content_yml_extension_first_try() {
    let (r, diags) = resolve(
        Some(&path("a.yml")),
        Some("name: Ada".to_string()),
        false,
        env_fixture(),
    );
    assert!(matches!(r, Resolution::Resolved(Data::Yaml(_))));
    assert!(diags.is_empty());
}

#[test]
fn toml_content_toml_extension_first_try() {
    let (r, diags) = resolve(
        Some(&path("c.toml")),
        Some("name = \"Ada\"".to_string()),
        true,
        env_fixture(),
    );
    assert!(matches!(r, Resolution::Resolved(Data::Toml(_))));
    assert!(diags.is_empty());
}

#[test]
fn yaml_content_json_extension_falls_through() {
    // mismatched hint: the cascade from JSON tries TOML next, then YAML,
    // which parses — the true format wins within the three-attempt budget
    let (r, diags) = resolve(
        Some(&path("d.json")),
        Some("name: Ada".to_string()),
        false,
        env_fixture(),
    );
    assert!(matches!(r, Resolution::Resolved(Data::Yaml(_))));
    assert_eq!(diags.len(), 2);
    assert!(matches!(
        diags[0],
        Diag::ParseFailed { failed: Fmt::Json, .. }
    ));
    assert!(matches!(
        diags[1],
        Diag::ParseFailed { failed: Fmt::Toml, .. }
    ));
}

#[test]
fn unparseable_lenient_uses_env() {
    let env = env_fixture();
    let (r, diags) = resolve(
        Some(&path("d.json")),
        Some("{".to_string()),
        false,
        env.clone(),
    );
    match r {
        Resolution::Resolved(Data::Env(pairs)) => assert_eq!(pairs, env),
        _ => panic!("expected the environment fallback"),
    }
    assert_eq!(diags.len(), 4);
    let using_env = diags
        .iter()
        .filter(|d| matches!(d, Diag::UsingEnv))
        .count();
    assert_eq!(using_env, 1);
    assert!(matches!(diags[3], Diag::UsingEnv));
}

#[test]
fn unparseable_strict_is_fatal() {
    let (r, diags) = resolve(
        Some(&path("d.json")),
        Some("{".to_string()),
        true,
        env_fixture(),
    );
    assert!(matches!(r, Resolution::FatalStrictFailure));
    assert_eq!(diags.len(), 3);
    assert!(diags.iter().all(|d| !matches!(d, Diag::UsingEnv)));
}

#[test]
fn no_data_path_uses_env_immediately() {
    for strict in [false, true] {
        let env = env_fixture();
        let (r, diags) = resolve(None, None, strict, env.clone());
        match r {
            Resolution::Resolved(Data::Env(pairs)) => assert_eq!(pairs, env),
            _ => panic!("expected the environment"),
        }
        assert!(diags.is_empty());
    }
}

#[test]
fn unreadable_file_uses_env_even_under_strict() {
    // a named file whose content could not be read: a read failure is not a
    // parse failure, so the environment is used even in strict mode
    let env = env_fixture();
    let (r, diags) = resolve(Some(&path("d.json")), None, true, env.clone());
    match r {
        Resolution::Resolved(Data::Env(pairs)) => assert_eq!(pairs, env),
        _ => panic!("expected the environment"),
    }
    assert!(diags.is_empty());
}

#[test]
fn unknown_extension_starts_cascade_at_yaml() {
    // valid TOML under a `.txt` extension: YAML fails (a tab cannot open a
    // YAML line), JSON fails, TOML succeeds on the third and last attempt
    let (r, diags) = resolve(
        Some(&path("d.txt")),
        Some("\ta = 1\n".to_string()),
        false,
        env_fixture(),
    );
    assert!(matches!(r, Resolution::Resolved(Data::Toml(_))));
    assert_eq!(diags.len(), 3);
    match &diags[0] {
        Diag::UnknownExtension { extension } => assert_eq!(extension, "txt"),
        _ => panic!("expected the unknown-extension notice first"),
    }
    assert!(matches!(
        diags[1],
        Diag::ParseFailed { failed: Fmt::Yaml, .. }
    ));
    assert!(matches!(
        diags[2],
        Diag::ParseFailed { failed: Fmt::Json, .. }
    ));
}

#[test]
fn missing_extension_enters_cascade_at_yaml() {
    // no extension at all counts as unrecognized: one notice, then the
    // cascade from YAML — which happily parses a JSON document
    let (r, diags) = resolve(
        Some(&path("data")),
        Some("{\"name\": \"Ada\"}".to_string()),
        true,
        env_fixture(),
    );
    assert!(matches!(r, Resolution::Resolved(Data::Yaml(_))));
    assert_eq!(diags.len(), 1);
    match &diags[0] {
        Diag::UnknownExtension { extension } => assert_eq!(extension, ""),
        _ => panic!("expected the unrecognized-extension notice"),
    }
}

#[test]
fn missing_extension_strict_exhaustion_is_fatal() {
    // unparseable content without an extension still runs the cascade, so
    // strict mode ends fatally rather than in the environment
    let (r, diags) = resolve(Some(&path("data")), Some("{".to_string()), true, env_fixture());
    assert!(matches!(r, Resolution::FatalStrictFailure));
    assert_eq!(diags.len(), 4);
    assert!(matches!(diags[0], Diag::UnknownExtension { .. }));
    assert!(diags.iter().all(|d| !matches!(d, Diag::UsingEnv)));
}

#[test]
fn extension_is_case_sensitive() {
    // `JSON` is not `json`: unknown extension, cascade from YAML — and YAML
    // happily parses a JSON document, so the resolved variant is Yaml
    let (r, diags) = resolve(
        Some(&path("d.JSON")),
        Some("{\"name\": \"Ada\"}".to_string()),
        false,
        env_fixture(),
    );
    assert!(matches!(r, Resolution::Resolved(Data::Yaml(_))));
    assert_eq!(diags.len(), 1);
    assert!(matches!(diags[0], Diag::UnknownExtension { .. }));
}

#[test]
fn strict_mode_does_not_disturb_a_clean_parse() {
    let (r, diags) = resolve(
        Some(&path("d.yaml")),
        Some("name: Ada".to_string()),
        true,
        env_fixture(),
    );
    assert!(matches!(r, Resolution::Resolved(Data::Yaml(_))));
    assert!(diags.is_empty());
}
