use krocore::data::{Config, JsonDeConfig, LanguageType};
use krocore::error::Error;

fn base_json(lang: &str) -> JsonDeConfig {
    JsonDeConfig {
        lang: lang.to_owned(),
        exe_file_path: "/bin/true".to_owned(),
        input_file_path: None,
        output_file_path: None,
        error_file_path: None,
        cpu_time_limit: None,
        real_time_limit: None,
        memory_limit: None,
        stack_limit: None,
        max_output_size: None,
        args: None,
        env: None,
        uid: None,
        gid: None,
    }
}

#[test]
fn validate_accepts_c() {
    let cfg = Config::validate(base_json("C"), true, true, true, true).unwrap();
    assert_eq!(cfg.lang, LanguageType::C);
    assert_eq!(cfg.exe_file_path, "/bin/true");
    assert_eq!(cfg.input_file_path, "/dev/stdin");
    assert_eq!(cfg.output_file_path, "/dev/stdout");
    assert_eq!(cfg.error_file_path, "/dev/stderr");
    assert_eq!(cfg.args, Vec::<String>::new());
    assert_eq!(cfg.env, Vec::<String>::new());
    assert_eq!(cfg.uid, None);
    assert_eq!(cfg.gid, None);
}

#[test]
fn validate_accepts_cpp() {
    let cfg = Config::validate(base_json("C++"), true, true, true, true).unwrap();
    assert_eq!(cfg.lang, LanguageType::Cpp);
}

#[test]
fn validate_rejects_unknown_language() {
    let err = Config::validate(base_json("Rust"), true, true, true, true).unwrap_err();
    assert_eq!(err, Error::InvalidLanguage("Rust".to_owned()));
}

#[test]
fn validate_rejects_missing_exe() {
    let err = Config::validate(base_json("C"), false, true, true, true).unwrap_err();
    assert_eq!(err, Error::InvalidFilePath("/bin/true".to_owned()));
}

#[test]
fn validate_rejects_missing_input() {
    let mut j = base_json("C");
    j.input_file_path = Some("/no/such/input".to_owned());
    let err = Config::validate(j, true, false, true, true).unwrap_err();
    assert_eq!(err, Error::InvalidFilePath("/no/such/input".to_owned()));
}

#[test]
fn validate_language_checked_before_paths() {
    let err = Config::validate(base_json("Java"), false, false, false, false).unwrap_err();
    assert_eq!(err, Error::InvalidLanguage("Java".to_owned()));
}

#[test]
fn validate_rejects_zero_cpu_limit() {
    let mut j = base_json("C");
    j.cpu_time_limit = Some(0);
    let err = Config::validate(j, true, true, true, true).unwrap_err();
    assert_eq!(err, Error::InvalidLimit("cpu_time_limit".to_owned()));
}

#[test]
fn validate_rejects_zero_real_limit() {
    let mut j = base_json("C");
    j.real_time_limit = Some(0);
    let err = Config::validate(j, true, true, true, true).unwrap_err();
    assert_eq!(err, Error::InvalidLimit("real_time_limit".to_owned()));
}

#[test]
fn validate_rejects_zero_memory_limit() {
    let mut j = base_json("C");
    j.memory_limit = Some(0);
    let err = Config::validate(j, true, true, true, true).unwrap_err();
    assert_eq!(err, Error::InvalidLimit("memory_limit".to_owned()));
}

#[test]
fn validate_rejects_zero_stack_limit() {
    let mut j = base_json("C");
    j.stack_limit = Some(0);
    let err = Config::validate(j, true, true, true, true).unwrap_err();
    assert_eq!(err, Error::InvalidLimit("stack_limit".to_owned()));
}

#[test]
fn validate_rejects_zero_output_size() {
    let mut j = base_json("C");
    j.max_output_size = Some(0);
    let err = Config::validate(j, true, true, true, true).unwrap_err();
    assert_eq!(err, Error::InvalidLimit("max_output_size".to_owned()));
}

#[test]
fn validate_keeps_limits_args_env_ids() {
    let mut j = base_json("C");
    j.cpu_time_limit = Some(2);
    j.real_time_limit = Some(3000);
    j.memory_limit = Some(64 * 1024 * 1024);
    j.stack_limit = Some(8 * 1024 * 1024);
    j.max_output_size = Some(1024);
    j.args = Some(vec!["-x".to_owned(), "y".to_owned()]);
    j.env = Some(vec!["PATH=/bin".to_owned()]);
    j.uid = Some(1000);
    j.gid = Some(1000);
    let cfg = Config::validate(j, true, true, true, true).unwrap();
    assert_eq!(cfg.cpu_time_limit, Some(2));
    assert_eq!(cfg.real_time_limit, Some(3000));
    assert_eq!(cfg.memory_limit, Some(64 * 1024 * 1024));
    assert_eq!(cfg.stack_limit, Some(8 * 1024 * 1024));
    assert_eq!(cfg.output_size_limit, Some(1024));
    assert_eq!(cfg.args, vec!["-x".to_owned(), "y".to_owned()]);
    assert_eq!(cfg.env, vec!["PATH=/bin".to_owned()]);
    assert_eq!(cfg.uid, Some(1000));
    assert_eq!(cfg.gid, Some(1000));
}

#[test]
fn try_from_checks_real_filesystem() {
    // /dev/null exists, so a config pointing everything there passes.
    let mut j = base_json("C");
    j.exe_file_path = "/dev/null".to_owned();
    j.input_file_path = Some("/dev/null".to_owned());
    j.output_file_path = Some("/dev/null".to_owned());
    j.error_file_path = Some("/dev/null".to_owned());
    assert!(Config::try_from(j).is_ok());
}

#[test]
fn try_from_rejects_nonexistent_exe() {
    let mut j = base_json("C");
    j.exe_file_path = "/no/such/binary".to_owned();
    let err = Config::try_from(j).unwrap_err();
    assert_eq!(err, Error::InvalidFilePath("/no/such/binary".to_owned()));
}

#[test]
fn try_from_rejects_nonexistent_output() {
    let mut j = base_json("C");
    j.exe_file_path = "/dev/null".to_owned();
    j.output_file_path = Some("/no/such/dir/out".to_owned());
    let err = Config::try_from(j).unwrap_err();
    assert_eq!(err, Error::InvalidFilePath("/no/such/dir/out".to_owned()));
}
