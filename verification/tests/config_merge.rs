use archivist_front::Config;
use archivist_front::ConfigError;
use archivist_front::Overrides;

fn no_overrides() -> Overrides {
    Overrides {
        root_dir: None,
        listen: None,
        allow_all: false,
        allowed_file_names: None,
        allowed_extensions: None,
        blocked_file_names: None,
        markdown: None,
    }
}

#[test]
fn default_config_values() {
    let c = Config::default();
    assert_eq!(c.root_dir, "");
    assert_eq!(c.listen, "");
    assert!(!c.allow_all);
    assert!(c.allowed_file_names.is_empty());
    assert!(c.allowed_extensions.is_empty());
    assert!(c.blocked_file_names.is_empty());
    assert_eq!(c.markdown, vec![String::from("md")]);
}

#[test]
fn markdown_default_survives_merge() {
    let merged = Config::default().merge(no_overrides());
    assert_eq!(merged.markdown, vec![String::from("md")]);
}

#[test]
fn cli_value_wins_over_file_value() {
    let mut base = Config::default();
    base.root_dir = String::from("from_file");
    let mut o = no_overrides();
    o.root_dir = Some(String::from("from_cli"));
    let merged = base.merge(o);
    assert_eq!(merged.root_dir, "from_cli");
}

#[test]
fn file_value_kept_when_cli_silent() {
    let mut base = Config::default();
    base.root_dir = String::from("from_file");
    base.listen = String::from("localhost:5000");
    let merged = base.merge(no_overrides());
    assert_eq!(merged.root_dir, "from_file");
    assert_eq!(merged.listen, "localhost:5000");
}

#[test]
fn list_values_replaced_wholesale() {
    let mut base = Config::default();
    base.allowed_extensions = vec![String::from("rs"), String::from("txt")];
    base.markdown = vec![String::from("md")];
    let mut o = no_overrides();
    o.allowed_extensions = Some(vec![String::from("html")]);
    let merged = base.merge(o);
    assert_eq!(merged.allowed_extensions, vec![String::from("html")]);
    assert_eq!(merged.markdown, vec![String::from("md")]);
}

#[test]
fn allow_all_switched_on_by_flag() {
    let base = Config::default();
    let mut o = no_overrides();
    o.allow_all = true;
    assert!(base.merge(o).allow_all);
}

#[test]
fn allow_all_not_switched_off_by_absent_flag() {
    let mut base = Config::default();
    base.allow_all = true;
    assert!(base.merge(no_overrides()).allow_all);
}

#[test]
fn unconfigured_startup_rejected() {
    let merged = Config::default().merge(no_overrides());
    match merged.validated() {
        Ok(_) => panic!("an unconfigured merge must not validate"),
        Err(e) => assert_eq!(e, ConfigError::MissingRootDir),
    }
}

#[test]
fn missing_listen_reported() {
    let mut c = Config::default();
    c.root_dir = String::from("site");
    match c.validated() {
        Ok(_) => panic!("a config without listen must not validate"),
        Err(e) => assert_eq!(e, ConfigError::MissingListen),
    }
}

#[test]
fn complete_config_validates() {
    let mut c = Config::default();
    c.root_dir = String::from("site");
    c.listen = String::from("localhost:5000");
    let v = match c.validated() {
        Ok(v) => v,
        Err(_) => panic!("a complete config must validate"),
    };
    assert_eq!(v.root_dir, "site");
    assert_eq!(v.listen, "localhost:5000");
}
