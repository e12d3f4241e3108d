use rust_web_app::config::{Config, Env, EnvError, Error};

fn keys(names: &[&str]) -> Vec<String> {
    names.iter().map(|s| s.to_string()).collect()
}

fn all_names() -> Vec<String> {
    Env::all().iter().map(|e| e.to_name()).collect()
}

#[test]
fn test_enum_variants_are_screaming_case_after_conversion() {
    for env in Env::all() {
        let as_str = env.to_name();
        assert!(as_str.chars().all(|r| r.is_uppercase() || r == '_'));
    }
}

#[test]
fn check_round_trip_conversion_of_enum_variants() {
    for env in Env::all() {
        let to_string = env.to_name();
        let to_variant = Env::from_name(&to_string).expect("Failed to convert back to variant");
        assert_eq!(env, to_variant)
    }
}

#[test]
fn test_env_in_file_but_not_in_enum() {
    let vars = vec!["SERVER_URL", "DATABASE_URL"];
    let file_envs = Env::get_file_envs(keys(&vars)).unwrap();
    let enum_envs = keys(&vars[..vars.len() - 1]);
    assert_ne!(file_envs, enum_envs);
}

#[test]
fn test_env_in_enum_but_not_in_file() {
    let vars = vec!["SERVER_URL", "DATABASE_URL"];
    let file_envs = Env::get_file_envs(keys(&vars)).unwrap();
    let mut enum_envs = keys(&vars);
    enum_envs.push("CLIENT_URL".to_string());
    assert_ne!(file_envs, enum_envs);
}

#[test]
fn test_env_in_file_wrong_format() {
    let vars = vec!["SERVER_URL", "DATABASE_URL", "NotScreamingCase"];
    let result = Env::get_file_envs(keys(&vars));
    let err = result.expect_err("Expected error, but got ok");
    assert!(
        matches!(&err, Error::Env(EnvError::WrongFormat(k)) if k == "NotScreamingCase"),
        "Expected WrongFormat error, but got {:?}",
        err
    );
}

#[test]
fn test_env_in_file_duplicated() {
    let vars = vec!["SERVER_URL", "DATABASE_URL", "SERVER_URL"];
    let err = Env::get_file_envs(keys(&vars)).expect_err("Expected error, but got ok");
    assert!(
        matches!(&err, Error::Env(EnvError::DuplicatedEnvInFile(k)) if k == "SERVER_URL"),
        "Expected DuplicatedEnvInFile error, but got {:?}",
        err
    );
}

#[test]
fn test_check_missing_env_from_enum() {
    // A key of sixteen uppercase letters that names no variant.
    let mut state: u32 = 0x2545_f491;
    let random_key: String = (0..16)
        .map(|_| {
            state ^= state << 13;
            state ^= state >> 17;
            state ^= state << 5;
            (b'A' + (state % 26) as u8) as char
        })
        .collect();
    assert!(random_key.chars().all(|c| c.is_uppercase() || c == '_'));

    let vars = vec!["SERVER_URL", "DATABASE_URL", &random_key];
    let err = Env::get_file_envs(keys(&vars)).unwrap_err();
    assert!(matches!(err, Error::Env(EnvError::MissingEnvFromEnum(_))));
}

#[test]
fn test_check_missing_env_from_file() {
    let enum_envs = Env::get_enum_envs().unwrap();

    if !enum_envs.is_empty() {
        let mut file_envs = enum_envs.clone().into_iter();
        let first = file_envs.next().unwrap().clone();
        let file_envs = file_envs.collect::<Vec<String>>();

        let result = Env::check_mapping(enum_envs, file_envs);
        let result = result.unwrap_err();

        assert!(
            matches!(
                result,
                Error::Env(EnvError::MissingEnvFromFile(ref missing)) if missing == &vec![first]
            ),
            "Expected MissingEnvFromFile error with correct missing env, but got {:?}",
            result
        );
    }
}

#[test]
fn main_test_enum_file_equality() {
    let file_envs = Env::get_file_envs(all_names()).unwrap();
    let enum_envs = Env::get_enum_envs().unwrap();
    assert_eq!(file_envs, enum_envs);
}

#[test]
fn mod_test_enum_file_equality() {
    let mut reversed = all_names();
    reversed.reverse();
    let file_envs = Env::get_file_envs(reversed.clone()).unwrap();
    assert_eq!(file_envs, reversed);
    assert!(Env::compare_envs(file_envs).is_ok());
}

#[test]
fn whatever() {
    assert_eq!(2 + 2, 4);
}

#[test]
fn enum_names_are_the_screaming_snake_case_of_the_variants() {
    assert_eq!(
        Env::get_enum_envs().unwrap(),
        vec![
            "SERVER_URL",
            "SERVER_PORT",
            "CLIENT_URL",
            "CLIENT_PORT",
            "DB_ADMIN_POSTGRES_PASSWORD",
            "DB_POSTGRES_ADAMB_PASSWORD",
            "DATABASE_URL",
        ]
    );
    assert_eq!(Env::DatabaseUrl.as_str(), "DATABASE_URL");
    assert_eq!(Env::from_name("database_url"), None);
    assert_eq!(Env::from_name("DATABASE_URL"), Some(Env::DatabaseUrl));
}

#[test]
fn config_accepts_exactly_the_declared_variables() {
    assert!(Config::new(all_names()).is_ok());
    assert!(Env::load_envs(all_names()).is_ok());

    let mut missing_one = all_names();
    let dropped = missing_one.remove(2);
    match Config::new(missing_one) {
        Err(Error::Env(EnvError::MissingEnvFromFile(missing))) => assert_eq!(missing, vec![dropped]),
        other => panic!("unexpected {:?}", other.map(|_| ())),
    }

    assert!(matches!(Config::new(vec![]), Err(Error::Env(EnvError::MissingEnvFromFile(m))) if m.len() == 7));

    let mut with_unknown = all_names();
    with_unknown.push("UNKNOWN_KEY".to_string());
    assert!(matches!(
        Config::new(with_unknown),
        Err(Error::Env(EnvError::MissingEnvFromEnum(k))) if k == "UNKNOWN_KEY"
    ));
    assert_eq!(Config::APP_SOCKET_ADDR, "127.0.0.1:5000");
    assert_eq!(Env::ENV_PATH, ".env");
}

#[test]
fn the_first_bad_key_decides_the_error() {
    let err = Env::get_file_envs(keys(&["SERVER_URL", "SERVER_URL", "lower"])).unwrap_err();
    assert!(matches!(err, Error::Env(EnvError::DuplicatedEnvInFile(_))));
    let err = Env::get_file_envs(keys(&["lower", "SERVER_URL", "SERVER_URL"])).unwrap_err();
    assert!(matches!(err, Error::Env(EnvError::WrongFormat(_))));
}
