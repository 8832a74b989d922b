use tg2mx_bot::auth::{is_admin, Config, MissingVariable};

#[test]
fn admin_list_names_its_members() {
    assert!(is_admin(Some("@a:x,@b:x"), "@a:x"));
    assert!(is_admin(Some("@a:x,@b:x"), "@b:x"));
    assert!(!is_admin(Some("@a:x,@b:x"), "@c:x"));
}

#[test]
fn without_admin_list_everyone_is_admin() {
    assert!(is_admin(None, "@a:x"));
    assert!(is_admin(None, "@c:x"));
    assert!(is_admin(None, ""));
}

#[test]
fn admin_list_is_split_at_commas_and_spaces() {
    assert!(is_admin(Some("@a:x @b:x"), "@b:x"));
    assert!(is_admin(Some("@a:x, @b:x"), "@b:x"));
    assert!(is_admin(Some("@a:x, @b:x"), "@a:x"));
    assert!(!is_admin(Some("@a:x, @b:x"), "@a:x,"));
    assert!(!is_admin(Some("@a:x, @b:x"), " @b:x"));
}

#[test]
fn admin_entries_are_compared_whole() {
    assert!(!is_admin(Some("@alice:x"), "@a"));
    assert!(!is_admin(Some("@alice:x"), "alice:x"));
    assert!(!is_admin(Some("@alice:x"), "@alice:x2"));
    assert!(!is_admin(Some("@a:x"), "@A:x"));
}

#[test]
fn empty_entries_match_only_the_empty_sender() {
    assert!(is_admin(Some(""), ""));
    assert!(is_admin(Some("@a:x,,@b:x"), ""));
    assert!(is_admin(Some("@a:x,"), ""));
    assert!(!is_admin(Some("@a:x"), ""));
    assert!(!is_admin(Some(""), "@a:x"));
}

#[test]
fn config_requires_homeserver_account_and_password() {
    let s = |t: &str| Some(t.to_string());
    assert_eq!(
        Config::new(None, None, None, None, None).unwrap_err(),
        MissingVariable::Homeserver
    );
    assert_eq!(
        Config::new(s("https://x/"), None, s("pw"), None, None).unwrap_err(),
        MissingVariable::MatrixId
    );
    assert_eq!(
        Config::new(s("https://x/"), s("@bot:x"), None, None, None).unwrap_err(),
        MissingVariable::Password
    );
    let config = Config::new(s("https://x/"), s("@bot:x"), s("pw"), s("@a:x"), None).unwrap();
    assert_eq!(config.homeserver, "https://x/");
    assert_eq!(config.matrix_id, "@bot:x");
    assert_eq!(config.password, "pw");
    assert!(config.is_admin("@a:x"));
    assert!(!config.is_admin("@b:x"));
    assert_eq!(MissingVariable::Homeserver.name(), "HOMESERVER");
    assert_eq!(MissingVariable::MatrixId.name(), "MATRIX_ID");
    assert_eq!(MissingVariable::Password.name(), "PASSWORD");
}

#[test]
fn config_without_admin_list_is_open() {
    let s = |t: &str| Some(t.to_string());
    let config = Config::new(s("https://x/"), s("@bot:x"), s("pw"), None, None).unwrap();
    assert!(config.is_admin("@anyone:x"));
}
