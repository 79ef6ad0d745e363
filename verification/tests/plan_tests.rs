use nixpacks::app::{App, SourceFile};
use nixpacks::cache::sanitize_cache_key;
use nixpacks::environment::{EnvVar, Environment};
use nixpacks::errors::NixpacksError;
use nixpacks::plan::{merge_file_lists, BuildPlan, SetupPhase, StartPhase};
use nixpacks::nix::Pkg;
use nixpacks::strutil::parse_i32_or_zero;
use nixpacks::validate_start_phase;

#[test]
fn test_sanitize_already_legal() {
    assert_eq!("cache_key-dir1", sanitize_cache_key("cache_key-dir1"));
}

#[test]
fn test_sanitize_spaces() {
    assert_eq!("my-cache-key-dir1", sanitize_cache_key("my cache key-dir1"));
}

#[test]
fn test_sanitize_idempotent_on_example() {
    let once = sanitize_cache_key("a key/with:odd chars!");
    let twice = sanitize_cache_key(&once);
    assert_eq!(once, twice);
    assert_eq!("a-key-with-odd-chars-", once);
}

#[test]
fn test_merge_file_lists() {
    let none: Option<Vec<String>> = None;
    let left = Some(vec!["a".to_string()]);
    let right = Some(vec!["b".to_string(), "a".to_string()]);
    assert_eq!(None, merge_file_lists(&none, &none));
    assert_eq!(left.clone(), merge_file_lists(&left, &none));
    assert_eq!(right.clone(), merge_file_lists(&none, &right));
    // Union keeps order and allows duplicates.
    assert_eq!(
        Some(vec!["a".to_string(), "b".to_string(), "a".to_string()]),
        merge_file_lists(&left, &right)
    );
}

#[test]
fn test_environment_parsing() {
    let env = Environment::from_envs(vec!["FOO=bar", "NIXPACKS_JDK_VERSION=11"]).unwrap();
    assert_eq!(Some("bar".to_string()), env.get_variable("FOO"));
    assert_eq!(None, env.get_variable("MISSING"));
    assert_eq!(
        Some("11".to_string()),
        env.get_config_variable("JDK_VERSION")
    );
}

#[test]
fn test_environment_parsing_rejects_bare_names() {
    let result = Environment::from_envs(vec!["FOO=bar", "BROKEN"]);
    assert_eq!(
        Err(NixpacksError::InvalidEnvironmentVariable(
            "BROKEN".to_string()
        )),
        result
    );
}

#[test]
fn test_environment_value_with_equals_sign() {
    let env = Environment::from_envs(vec!["OPTS=-Da=b"]).unwrap();
    assert_eq!(Some("-Da=b".to_string()), env.get_variable("OPTS"));
}

#[test]
fn test_environment_last_binding_wins() {
    let env = Environment::from_envs(vec!["A=1", "A=2"]).unwrap();
    assert_eq!(Some("2".to_string()), env.get_variable("A"));
}

#[test]
fn test_config_variable_truthy() {
    let env = Environment::from_envs(vec![
        "NIXPACKS_NO_CACHE=1",
        "NIXPACKS_OTHER=yes",
    ])
    .unwrap();
    assert!(env.is_config_variable_truthy("NO_CACHE"));
    assert!(!env.is_config_variable_truthy("OTHER"));
    assert!(!env.is_config_variable_truthy("ABSENT"));
    let env2 = Environment::from_envs(vec!["NIXPACKS_NO_CACHE=true"]).unwrap();
    assert!(env2.is_config_variable_truthy("NO_CACHE"));
}

#[test]
fn test_app_model() {
    let app = App::new(
        vec![SourceFile {
            path: "pom.xml".to_string(),
            content: "<project/>".to_string(),
        }],
        vec!["pom.atom".to_string()],
    );
    assert!(app.includes_file("pom.xml"));
    assert!(!app.includes_file("pom.yml"));
    assert!(app.includes_directory("pom.atom"));
    assert_eq!(Ok("<project/>".to_string()), app.read_file("pom.xml"));
    assert_eq!(
        Err(NixpacksError::MissingFile("absent".to_string())),
        app.read_file("absent")
    );
    let found = app.find_files("*.xml");
    assert_eq!(vec!["pom.xml".to_string()], found);
}

#[test]
fn test_validate_start_phase() {
    let no_cmd = BuildPlan::new(
        Some(SetupPhase::new(vec![Pkg::new("jdk")])),
        None,
        None,
        Some(StartPhase {
            cmd: None,
            run_image: None,
            only_include_files: None,
        }),
    );
    assert_eq!(
        Err(NixpacksError::NoStartCommand),
        validate_start_phase(&no_cmd, false)
    );
    // The explicit override accepts a plan without an entry point.
    assert_eq!(Ok(()), validate_start_phase(&no_cmd, true));

    let with_cmd = BuildPlan::new(None, None, None, Some(StartPhase::new("./run")));
    assert_eq!(Ok(()), validate_start_phase(&with_cmd, false));
    // A plan with no start phase at all passes validation.
    let without_start = BuildPlan::new(None, None, None, None);
    assert_eq!(Ok(()), validate_start_phase(&without_start, false));
}

#[test]
fn test_error_messages() {
    assert_eq!(
        "No start command could be found",
        NixpacksError::NoStartCommand.message()
    );
    assert_eq!(
        "No provider detected for this source tree",
        NixpacksError::NoProviderDetected.message()
    );
    assert_eq!(
        "Missing file: pom.xml",
        NixpacksError::MissingFile("pom.xml".to_string()).message()
    );
}

#[test]
fn test_parse_version_numbers() {
    assert_eq!(7, parse_i32_or_zero("7"));
    assert_eq!(0, parse_i32_or_zero(""));
    assert_eq!(0, parse_i32_or_zero("x7"));
    assert_eq!(2147483647, parse_i32_or_zero("2147483647"));
    assert_eq!(0, parse_i32_or_zero("2147483648"));
    assert_eq!(-12, parse_i32_or_zero("-12"));
    assert_eq!(-2147483648, parse_i32_or_zero("-2147483648"));
    assert_eq!(0, parse_i32_or_zero("99999999999999999999"));
}
