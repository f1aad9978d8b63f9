use new_cli::resolve::{find_template_file, is_strictly_within, EntryInfo, TemplateChoice};

fn path(parts: &[&str]) -> Vec<Vec<u8>> {
    parts.iter().map(|p| p.as_bytes().to_vec()).collect()
}

fn entry(is_file: bool, ext: Option<&str>, canonical: Option<&[&str]>) -> EntryInfo {
    EntryInfo {
        is_file,
        extension: ext.map(|e| e.as_bytes().to_vec()),
        canonical: canonical.map(path),
    }
}

fn root() -> Option<Vec<Vec<u8>>> {
    Some(path(&["/", "home", "u", ".new-cli", "template"]))
}

#[test]
fn exact_match_inside_directory_is_chosen() {
    let exact = Some(path(&["/", "home", "u", ".new-cli", "template", "foo.html"]));
    let entries = vec![entry(true, Some("html"), Some(&["/", "home", "u", ".new-cli", "template", "a.html"]))];
    assert_eq!(find_template_file(&root(), &exact, &entries, b"html"), Some(TemplateChoice::Exact));
}

#[test]
fn other_file_with_same_extension_is_chosen() {
    let entries = vec![
        entry(true, Some("txt"), Some(&["/", "home", "u", ".new-cli", "template", "a.txt"])),
        entry(false, Some("html"), Some(&["/", "home", "u", ".new-cli", "template", "dir.html"])),
        entry(true, Some("html"), Some(&["/", "home", "u", ".new-cli", "template", "index.html"])),
        entry(true, Some("html"), Some(&["/", "home", "u", ".new-cli", "template", "b.html"])),
    ];
    assert_eq!(find_template_file(&root(), &None, &entries, b"html"), Some(TemplateChoice::Entry(2)));
}

#[test]
fn no_file_with_extension_gives_no_template() {
    let entries = vec![
        entry(true, Some("txt"), Some(&["/", "home", "u", ".new-cli", "template", "a.txt"])),
        entry(true, None, Some(&["/", "home", "u", ".new-cli", "template", "README"])),
    ];
    assert_eq!(find_template_file(&root(), &None, &entries, b"html"), None);
    assert_eq!(find_template_file(&root(), &None, &Vec::new(), b"html"), None);
}

#[test]
fn symlink_outside_is_never_chosen() {
    // the exact name is a link to /etc/passwd, and so is the only other entry
    let exact = Some(path(&["/", "etc", "passwd.html"]));
    let entries = vec![entry(true, Some("html"), Some(&["/", "etc", "passwd.html"]))];
    assert_eq!(find_template_file(&root(), &exact, &entries, b"html"), None);
}

#[test]
fn symlink_outside_is_skipped_for_a_later_entry() {
    let exact = Some(path(&["/", "tmp", "foo.html"]));
    let entries = vec![
        entry(true, Some("html"), Some(&["/", "home", "u", "secret.html"])),
        entry(true, Some("html"), None),
        entry(true, Some("html"), Some(&["/", "home", "u", ".new-cli", "template", "ok.html"])),
    ];
    assert_eq!(find_template_file(&root(), &exact, &entries, b"html"), Some(TemplateChoice::Entry(2)));
}

#[test]
fn sibling_with_common_prefix_is_outside() {
    let exact = Some(path(&["/", "home", "u", ".new-cli", "template2", "foo.html"]));
    assert_eq!(find_template_file(&root(), &exact, &Vec::new(), b"html"), None);
}

#[test]
fn directory_itself_is_not_within() {
    let r = root().unwrap();
    assert!(!is_strictly_within(&r, &r));
    assert!(is_strictly_within(&r, &path(&["/", "home", "u", ".new-cli", "template", "x", "y"])));
    assert!(!is_strictly_within(&r, &path(&["/", "home", "u"])));
}

#[test]
fn no_canonical_directory_resolves_nothing() {
    let exact = Some(path(&["/", "home", "u", ".new-cli", "template", "foo.html"]));
    assert_eq!(find_template_file(&None, &exact, &Vec::new(), b"html"), None);
}
