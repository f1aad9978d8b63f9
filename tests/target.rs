use new_cli::opener::{get_default_editor, Platform};
use new_cli::resolve::{find_template_file, TemplateChoice};
use new_cli::store::{DEFAULT_TEMPLATE, DEFAULT_TEMPLATE_FILE, STORE_DIR, TEMPLATE_DIR};
use new_cli::target::{destination_name, template_file_name};
use new_cli::validate::validate_cli_inputs;

#[test]
fn joined_file_name() {
    assert_eq!(template_file_name("foo", "html"), "foo.html");
    assert_eq!(template_file_name("a.b", "c"), "a.b.c");
}

#[test]
fn destination_stays_in_working_directory() {
    assert_eq!(destination_name("index", "html"), Some("index.html".to_string()));
    assert_eq!(destination_name("index", "x/../../etc/passwd"), None);
    assert_eq!(destination_name("a", "b\\c"), None);
    assert_eq!(destination_name("/etc/x", "y"), None);
    assert_eq!(destination_name(".", ""), None);
    assert_eq!(destination_name("", "."), None);
    assert_eq!(destination_name("", ""), None);
}

#[test]
fn default_run_resolves_seeded_template() {
    let filename = "index";
    let extension = "html";
    assert!(validate_cli_inputs(filename, extension).is_ok());
    assert_eq!(template_file_name(filename, extension), DEFAULT_TEMPLATE_FILE);
    let root: Vec<Vec<u8>> = vec![b"/".to_vec(), b"h".to_vec(), STORE_DIR.as_bytes().to_vec(), TEMPLATE_DIR.as_bytes().to_vec()];
    let mut exact = root.clone();
    exact.push(DEFAULT_TEMPLATE_FILE.as_bytes().to_vec());
    let r = find_template_file(&Some(root), &Some(exact), &Vec::new(), extension.as_bytes());
    assert_eq!(r, Some(TemplateChoice::Exact));
    assert_eq!(destination_name(filename, extension), Some("index.html".to_string()));
    assert!(DEFAULT_TEMPLATE.starts_with("<!DOCTYPE html>"));
}

#[test]
fn editors_by_platform() {
    assert_eq!(get_default_editor(Platform::Windows), "notepad3");
    assert_eq!(get_default_editor(Platform::MacOs), "open");
    assert_eq!(get_default_editor(Platform::Unix), "xdg-open");
}
