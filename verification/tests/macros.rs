use brushfire::{MacroEnvironment, MacroExpander};

fn env_with_home(home: &str) -> MacroEnvironment {
    MacroEnvironment {
        home: Some(home.to_string()),
        user: None,
        xdg_runtime_dir: None,
        path: None,
        xdg_config_home: None,
    }
}

fn empty_env() -> MacroEnvironment {
    MacroEnvironment { home: None, user: None, xdg_runtime_dir: None, path: None, xdg_config_home: None }
}

#[test]
fn test_expand_home() {
    let home = "/home/tester";
    let expander = MacroExpander::new(env_with_home(home));

    assert_eq!(expander.expand("${HOME}/test"), format!("{home}/test"));
}

#[test]
fn test_expand_multiple() {
    let mut expander = MacroExpander::new(env_with_home("/home/tester"));
    expander.set_macro("TEST".to_string(), "value".to_string());

    let result = expander.expand("${TEST} and ${TEST} again");
    assert_eq!(result, "value and value again");
}

#[test]
fn test_no_expansion() {
    let expander = MacroExpander::new(env_with_home("/home/tester"));

    assert_eq!(expander.expand("${UNKNOWN}"), "${UNKNOWN}");
}

#[test]
fn standard_macros_from_environment() {
    let env = MacroEnvironment {
        home: Some("/h".to_string()),
        user: Some("u".to_string()),
        xdg_runtime_dir: Some("/run/me".to_string()),
        path: Some("/bin".to_string()),
        xdg_config_home: Some("/cfg".to_string()),
    };
    let m = MacroExpander::new(env);
    let names: Vec<&str> = m.vars().iter().map(|(k, _)| k.as_str()).collect();
    assert_eq!(
        names,
        vec!["HOME", "DOWNLOADS", "DOCUMENTS", "DESKTOP", "PICTURES", "MUSIC", "VIDEOS", "USER", "RUNUSER", "PATH", "CFG"]
    );
    assert_eq!(m.get_macro("DOWNLOADS").map(|s| s.as_str()), Some("/h/Downloads"));
    assert_eq!(m.get_macro("VIDEOS").map(|s| s.as_str()), Some("/h/Videos"));
    assert_eq!(m.get_macro("RUNUSER").map(|s| s.as_str()), Some("/run/me"));
    assert_eq!(m.get_macro("CFG").map(|s| s.as_str()), Some("/cfg"));
    assert_eq!(m.get_macro("PATH").map(|s| s.as_str()), Some("/bin"));
}

#[test]
fn empty_environment_defines_nothing() {
    let m = MacroExpander::new(empty_env());
    assert!(m.vars().is_empty());
    assert_eq!(m.expand("${HOME}/x"), "${HOME}/x");
}

#[test]
fn set_then_get_and_override() {
    let mut m = MacroExpander::new(empty_env());
    assert!(m.get_macro("A").is_none());
    m.set_macro("A".to_string(), "1".to_string());
    assert_eq!(m.get_macro("A").map(|s| s.as_str()), Some("1"));
    m.set_macro("B".to_string(), "2".to_string());
    m.set_macro("A".to_string(), "3".to_string());
    assert_eq!(m.get_macro("A").map(|s| s.as_str()), Some("3"));
    assert_eq!(m.vars().len(), 2);
    assert_eq!(m.expand("${A}${B}$A{B}"), "32$A{B}");
}

#[test]
fn empty_user_runuser_fallback() {
    let env = MacroEnvironment { home: None, user: Some("bob".to_string()), xdg_runtime_dir: None, path: None, xdg_config_home: None };
    let m = MacroExpander::new(env);
    assert_eq!(m.get_macro("RUNUSER").map(|s| s.as_str()), Some("/run/user/bob"));
    assert!(m.get_macro("CFG").is_none());
}
