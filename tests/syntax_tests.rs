use writer::syntax::{get_language_name, language_for_file, Language};

#[test]
fn syntax_tests_test_rust_extension() {
    let filename = "main.rs".to_string();
    assert_eq!(get_language_name(Some(&filename)), "Rust");
}

#[test]
fn syntax_tests_test_python_extensions() {
    let py = "script.py".to_string();
    let py3 = "script.py3".to_string();
    let pyw = "script.pyw".to_string();
    assert_eq!(get_language_name(Some(&py)), "Python");
    assert_eq!(get_language_name(Some(&py3)), "Python");
    assert_eq!(get_language_name(Some(&pyw)), "Python");
}

#[test]
fn syntax_tests_test_shell_extensions() {
    let sh = "script.sh".to_string();
    let bash = "script.bash".to_string();
    let zsh = "script.zsh".to_string();
    assert_eq!(get_language_name(Some(&sh)), "Shell");
    assert_eq!(get_language_name(Some(&bash)), "Shell");
    assert_eq!(get_language_name(Some(&zsh)), "Shell");
}

#[test]
fn syntax_tests_test_no_extension() {
    let readme = "README".to_string();
    assert_eq!(get_language_name(Some(&readme)), "Plain Text");
}

#[test]
fn syntax_tests_test_no_filename() {
    assert_eq!(get_language_name(None), "Plain Text");
}

#[test]
fn syntax_tests_test_unknown_extension() {
    let xyz = "file.xyz".to_string();
    assert_eq!(get_language_name(Some(&xyz)), "Plain Text");
}


#[test]
fn syntax_test_rust_extension() {
    let filename = "main.rs".to_string();
    assert_eq!(get_language_name(Some(&filename)), "Rust");
}

#[test]
fn syntax_test_python_extensions() {
    let py = "script.py".to_string();
    let py3 = "script.py3".to_string();
    let pyw = "script.pyw".to_string();
    assert_eq!(get_language_name(Some(&py)), "Python");
    assert_eq!(get_language_name(Some(&py3)), "Python");
    assert_eq!(get_language_name(Some(&pyw)), "Python");
}

#[test]
fn syntax_test_shell_extensions() {
    let sh = "script.sh".to_string();
    let bash = "script.bash".to_string();
    let zsh = "script.zsh".to_string();
    assert_eq!(get_language_name(Some(&sh)), "Shell");
    assert_eq!(get_language_name(Some(&bash)), "Shell");
    assert_eq!(get_language_name(Some(&zsh)), "Shell");
}

#[test]
fn syntax_test_no_extension() {
    let readme = "README".to_string();
    assert_eq!(get_language_name(Some(&readme)), "Plain Text");
}

#[test]
fn syntax_test_no_filename() {
    assert_eq!(get_language_name(None), "Plain Text");
}

#[test]
fn syntax_test_unknown_extension() {
    let xyz = "file.xyz".to_string();
    assert_eq!(get_language_name(Some(&xyz)), "Plain Text");
}

#[test]
fn other_languages() {
    for (name, lang) in [
        ("a.lua", "Lua"),
        ("q.sql", "SQL"),
        ("boot.asm", "Assembly"),
        ("start.s", "Assembly"),
        ("notes.txt", "Plain Text"),
        ("archive.tar.rs", "Rust"),
        ("dir.d/file", "Plain Text"),
        ("trailing.", "Plain Text"),
        ("rs", "Rust"),
        ("MAIN.RS", "Plain Text"),
    ] {
        assert_eq!(get_language_name(Some(&name.to_string())), lang, "{}", name);
    }
}

#[test]
fn language_enum_names() {
    assert_eq!(language_for_file(Some(&"x.py3".to_string())), Language::Python);
    assert_eq!(language_for_file(None), Language::PlainText);
    assert_eq!(Language::Sql.name(), "SQL");
}
