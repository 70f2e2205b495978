use pumpkin_runner::manifest::project_name;

#[test]
fn reads_double_quoted_name() {
    let text = "[package]\nname = \"my-plugin\"\nversion = \"0.1.0\"\n";
    assert_eq!(project_name(text), Some("my-plugin".to_string()));
}

#[test]
fn reads_single_quoted_name_with_blanks_and_crlf() {
    let text = "[package]\r\n  name\t=  'hello' \r\nedition = \"2021\"\r\n";
    assert_eq!(project_name(text), Some("hello".to_string()));
}

#[test]
fn first_name_line_wins() {
    let text = "[package]\nname = \"first\"\nname = \"again\"\n[[bin]]\nname = \"second\"\n";
    assert_eq!(project_name(text), Some("first".to_string()));
}

#[test]
fn name_of_another_section_is_ignored() {
    let text = "[lib]\nname = \"libname\"\n\n  [package]  \nversion = \"1\"\nname = \"pkg\"\n";
    assert_eq!(project_name(text), Some("pkg".to_string()));
}

#[test]
fn name_before_any_section_is_ignored() {
    assert_eq!(project_name("name = \"loose\"\n"), None);
    assert_eq!(project_name("name = \"loose\"\n[dependencies]\nname = \"x\"\n"), None);
}

#[test]
fn package_section_ends_at_next_header() {
    let text = "[package]\nversion = \"1\"\n[lib]\nname = \"libname\"\n";
    assert_eq!(project_name(text), None);
}

#[test]
fn key_must_be_exactly_name() {
    let text = "[package]\nnamespace = \"x\"\nname_x = \"y\"\nversion = \"1\"\n";
    assert_eq!(project_name(text), None);
}

#[test]
fn name_without_equals_is_skipped() {
    let text = "[package]\nname\nname = bare\n";
    assert_eq!(project_name(text), Some("bare".to_string()));
}

#[test]
fn empty_manifest_has_no_name() {
    assert_eq!(project_name(""), None);
    assert_eq!(project_name("\n\n"), None);
}

#[test]
fn empty_value_is_empty_name() {
    assert_eq!(project_name("[package]\nname = \"\""), Some(String::new()));
}
