use crit::error::CritError;
use crit::manifest::get_applications;
use crit::pattern::Pattern;

fn letmeout() -> Pattern {
    Pattern::new("letmeout").unwrap()
}

#[test]
fn excluded_feature_drops_binary() {
    let text = "[[bin]]\nname = \"crit\"\npath = \"src/crit.rs\"\n\n[[bin]]\nname = \"tinyrick\"\nrequired-features = [\"letmeout\"]\n";
    assert_eq!(get_applications(&letmeout(), text), Ok(vec!["crit".to_string()]));
}

#[test]
fn other_features_keep_binary() {
    let text = "[[bin]]\nname = \"a\"\nrequired-features = [\"cli\", \"net\"]\n\n[[bin]]\nname = \"b\"\n";
    assert_eq!(get_applications(&letmeout(), text), Ok(vec!["a".to_string(), "b".to_string()]));
}

#[test]
fn one_excluded_feature_among_many_drops_binary() {
    let text = "[[bin]]\nname = \"x\"\nrequired-features = [\"cli\", \"letmeout\"]\n";
    assert_eq!(get_applications(&letmeout(), text), Ok(Vec::new()));
}

#[test]
fn missing_bin_section() {
    let text = "[package]\nname = \"p\"\n";
    assert_eq!(get_applications(&letmeout(), text), Err(CritError::MissingBinarySection));
    assert_eq!(get_applications(&letmeout(), "bin = 3\n"), Err(CritError::MissingBinarySection));
}

#[test]
fn entry_without_name_is_malformed() {
    let text = "[[bin]]\npath = \"src/main.rs\"\n";
    assert_eq!(get_applications(&letmeout(), text), Err(CritError::MalformedEntry));
    let text = "[[bin]]\nname = 7\n";
    assert_eq!(get_applications(&letmeout(), text), Err(CritError::MalformedEntry));
}

#[test]
fn excluded_entry_without_name_is_not_an_error() {
    let text = "[[bin]]\nrequired-features = [\"letmeout\"]\n\n[[bin]]\nname = \"ok\"\n";
    assert_eq!(get_applications(&letmeout(), text), Ok(vec!["ok".to_string()]));
}

#[test]
fn invalid_toml_is_a_parse_error() {
    let r = get_applications(&letmeout(), "[[bin]\nname = ");
    assert!(matches!(r, Err(CritError::ManifestParse(_))));
}
