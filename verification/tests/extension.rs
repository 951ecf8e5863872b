use rs_git_status2arrow_ipc_stream::extension::extension_of;

fn std_extension(path: &str) -> String {
    std::path::Path::new(path)
        .extension()
        .and_then(|extension| extension.to_str())
        .unwrap_or("")
        .to_string()
}

#[test]
fn extension_is_the_suffix_after_the_last_dot() {
    assert_eq!(extension_of("a/b.txt"), "txt");
    assert_eq!(extension_of("b.txt"), "txt");
    assert_eq!(extension_of("archive.tar.gz"), "gz");
    assert_eq!(extension_of("src/deep/er/lib.rs"), "rs");
    assert_eq!(extension_of("a.b/c.d.e"), "e");
}

#[test]
fn path_without_dot_suffix_has_empty_extension() {
    assert_eq!(extension_of("x"), "");
    assert_eq!(extension_of("Makefile"), "");
    assert_eq!(extension_of("a/b/c"), "");
    assert_eq!(extension_of(""), "");
    assert_eq!(extension_of("/"), "");
}

#[test]
fn dot_in_a_directory_is_no_extension_of_the_file() {
    assert_eq!(extension_of("a.d/b"), "");
    assert_eq!(extension_of("v1.2/README"), "");
}

#[test]
fn leading_dot_starts_a_dot_suffix() {
    assert_eq!(extension_of(".gitignore"), "gitignore");
    assert_eq!(extension_of("a/.gitignore"), "gitignore");
    assert_eq!(extension_of(".a"), "a");
    assert_eq!(extension_of("a/.b"), "b");
    assert_eq!(extension_of(".config.toml"), "toml");
    assert_eq!(extension_of("..a"), "a");
}

#[test]
fn name_that_ends_in_a_dot_has_empty_extension() {
    assert_eq!(extension_of("a."), "");
    assert_eq!(extension_of("a.b."), "");
    assert_eq!(extension_of("..."), "");
}

#[test]
fn trailing_separators_and_dot_components_do_not_count() {
    assert_eq!(extension_of("a/b.txt/"), "txt");
    assert_eq!(extension_of("a/b.txt//"), "txt");
    assert_eq!(extension_of("a/b.txt/."), "txt");
    assert_eq!(extension_of("a/b.txt/./"), "txt");
    assert_eq!(extension_of("."), "");
    assert_eq!(extension_of("./"), "");
    assert_eq!(extension_of(".."), "");
    assert_eq!(extension_of("a.b/.."), "");
}

#[test]
fn extension_of_text_beyond_ascii() {
    assert_eq!(extension_of("ä/ö.é"), "é");
    assert_eq!(extension_of("日本語.テキスト"), "テキスト");
    assert_eq!(extension_of("dir/файл"), "");
    assert_eq!(extension_of("a/😀.😀😀"), "😀😀");
}

#[test]
fn extension_agrees_with_the_standard_library_but_for_a_leading_dot() {
    let paths = vec![
        "",
        ".",
        "..",
        "...",
        "/",
        "//",
        "a",
        "a.",
        "a.b",
        "a.b.c",
        "a/",
        "a/.",
        "a/..",
        "a/./b.c",
        "a/b.c/.",
        "a/b.c/./",
        "a/b.c//",
        "./a.b",
        "../a.b",
        "a.b/../c",
        "/a/b.c",
        "a/.b.c",
        "a/b..c",
        "a/b.c.",
        "a b/c d.e f",
        "ä/ö.é",
        "x/.../y",
        "x/...",
        "x/..a",
        "./.",
        "a/b.txt",
        "src/lib.rs",
        "Cargo.lock",
        ".github/workflows/ci.yml",
    ];
    for path in paths {
        assert_eq!(extension_of(path), std_extension(path), "path {:?}", path);
    }
    assert_eq!(std_extension(".a"), "");
    assert_eq!(extension_of(".a"), "a");
    assert_eq!(std_extension("a/.b"), "");
    assert_eq!(extension_of("a/.b"), "b");
}

#[test]
fn extension_holds_neither_dot_nor_separator() {
    let paths = vec!["a/b.c.d", "a.b/c", "x.y.z/", "q/.r.s", "t.u/."];
    for path in paths {
        let extension = extension_of(path);
        assert!(!extension.contains('.'));
        assert!(!extension.contains('/'));
        assert!(path.contains(extension.as_str()));
    }
}
