use ragent::error::RagentError;
use ragent::tool_call::helpers::{
    edit_file, glob_file, list_matches, read_file, replace_first, safe_path, write_file, DirListing, FileProbe,
    WalkEntry,
};
use ragent::tool_call::lines::limit_lines;
use ragent::tool_call::path::{normalize_path, path_components, render_path};

#[test]
fn test_safe_path() {
    let workdir = "/home/user";
    assert!(safe_path(workdir, "doc").is_ok());
    assert!(safe_path(workdir, "doc/../").is_ok());
    assert!(safe_path(workdir, "../").is_err());
    assert!(safe_path(workdir, "/etc").is_err());
    assert!(safe_path(workdir, "/home/user/doc").is_ok()); // absolute, but inside the workspace
    assert!(safe_path(workdir, "/home/user/../other").is_err());
}

#[test]
fn safe_path_values() {
    assert_eq!(safe_path("/home/user", "doc").unwrap(), "/home/user/doc");
    assert_eq!(safe_path("/home/user", "doc/../").unwrap(), "/home/user");
    assert_eq!(safe_path("/home/user", "./a//b/./c/").unwrap(), "/home/user/a/b/c");
    assert_eq!(safe_path("/home/./user/", "").unwrap(), "/home/user");
    assert_eq!(safe_path("/", "x").unwrap(), "/x");
    assert_eq!(safe_path("/", "").unwrap(), "/");
    assert_eq!(safe_path("/home/user", "a/b/../../c").unwrap(), "/home/user/c");
    assert_eq!(
        safe_path("/home/user", "../").unwrap_err(),
        "Path escapes workspace: ../"
    );
    assert_eq!(safe_path("home/user", "doc").unwrap_err(), "Workdir must be absolute");
    assert_eq!(safe_path("", "doc").unwrap_err(), "Workdir must be absolute");
    // a sibling directory with a common prefix is outside
    assert!(safe_path("/home/user", "/home/username").is_err());
    // leading `..` above the root is kept and still compared by component
    assert_eq!(safe_path("/..", "a").unwrap(), "/../a");
}

#[test]
fn safe_path_is_idempotent() {
    let w = "/srv/work";
    for p in ["a", "a/./b", "x/../y", "/srv/work/z/..", "deep/er/../../f"] {
        let r = safe_path(w, p).unwrap();
        assert_eq!(safe_path(w, &r).unwrap(), r);
        assert!(r.starts_with("/srv/work"));
    }
}

#[test]
fn limit_lines_cases() {
    assert_eq!(limit_lines("a\nb\nc\n", None), "a\nb\nc");
    assert_eq!(limit_lines("a\r\nb\r\n", None), "a\nb");
    assert_eq!(limit_lines("a\nb\nc", Some(2)), "a\nb\n... (1 more lines)");
    assert_eq!(limit_lines("a\nb\nc", Some(3)), "a\nb\nc");
    assert_eq!(limit_lines("a\nb\nc", Some(0)), "... (3 more lines)");
    assert_eq!(limit_lines("", Some(0)), "");
    assert_eq!(limit_lines("", None), "");
    assert_eq!(limit_lines("\n\nx", None), "\n\nx");
    assert_eq!(limit_lines("a\r", None), "a\r");
    let many: String = (0..15).map(|i| format!("l{}\n", i)).collect();
    assert_eq!(limit_lines(&many, Some(3)), "l0\nl1\nl2\n... (12 more lines)");
}

#[test]
fn replace_first_cases() {
    assert_eq!(replace_first("abcabc", "bc", "X").unwrap(), "aXabc");
    assert_eq!(replace_first("héllo wörld", "wö", "wo").unwrap(), "héllo world");
    assert_eq!(replace_first("abc", "", "Z").unwrap(), "Zabc");
    assert!(replace_first("abc", "abcd", "Z").is_none());
    assert!(replace_first("abc", "x", "Z").is_none());
}

#[test]
fn read_file_cases() {
    let ok: Result<String, String> = Ok("one\ntwo\nthree\n".to_string());
    assert_eq!(read_file("/w", "f.txt", Some(1), &ok).unwrap(), "one\n... (2 more lines)");
    assert_eq!(read_file("/w", "f.txt", None, &ok).unwrap(), "one\ntwo\nthree");
    let failed: Result<String, String> = Err("denied".to_string());
    match read_file("/w", "f.txt", None, &failed) {
        Err(e) => {
            assert!(matches!(&e, RagentError::FileRead(m) if m == "IO error: denied"));
            assert_eq!(e.message(), "Error: IO error: denied");
        }
        other => panic!("unexpected {:?}", other),
    }
    match read_file("/w", "../f.txt", None, &ok) {
        Err(e) => {
            assert_eq!(
                e.message(),
                "Error: Path escapes workspace: Path escapes workspace: ../f.txt"
            );
            assert!(e.message().starts_with("Error: "));
        }
        other => panic!("unexpected {:?}", other),
    }
}

#[test]
fn write_file_cases() {
    let w = write_file("/w", "d/f.txt", "hi".to_string()).unwrap();
    assert_eq!(w.path, "/w/d/f.txt");
    assert_eq!(w.content, "hi");
    assert_eq!(w.message, "Wrote content to /w/d/f.txt successful");
    assert!(matches!(write_file("/w", "/etc/passwd", String::new()), Err(RagentError::PathEscape(_))));
}

#[test]
fn edit_file_cases() {
    let file = FileProbe::File(Ok("let x = 1;\nlet x = 1;\n".to_string()));
    let w = edit_file("/w", "src/a.rs", "x = 1".to_string(), "y = 2".to_string(), &file).unwrap();
    assert_eq!(w.path, "/w/src/a.rs");
    assert_eq!(w.content, "let y = 2;\nlet x = 1;\n");
    assert_eq!(w.message, "Replaced first occurrence of 'x = 1' with 'y = 2' in /w/src/a.rs");

    match edit_file("/w", "src", "a".into(), "b".into(), &FileProbe::Directory) {
        Err(RagentError::PathNotAFile(p)) => assert_eq!(p, "/w/src"),
        other => panic!("unexpected {:?}", other),
    }
    match edit_file("/w", "nope", "a".into(), "b".into(), &FileProbe::Missing) {
        Err(RagentError::PathNotExist(p)) => assert_eq!(p, "/w/nope"),
        other => panic!("unexpected {:?}", other),
    }
    match edit_file("/w", "f", "zzz".into(), "b".into(), &file) {
        Err(RagentError::TextNotFound(t)) => assert_eq!(t, "zzz"),
        other => panic!("unexpected {:?}", other),
    }
    match edit_file("/w", "../f", "a".into(), "b".into(), &file) {
        Err(RagentError::PathEscape(_)) => {}
        other => panic!("unexpected {:?}", other),
    }
    match edit_file("/w", "f", "a".into(), "b".into(), &FileProbe::File(Err("bad utf-8".into()))) {
        Err(RagentError::FileRead(e)) => assert_eq!(e, "IO error: bad utf-8"),
        other => panic!("unexpected {:?}", other),
    }
}

fn entry(is_file: bool, name: &str, path: &str) -> Option<WalkEntry> {
    Some(WalkEntry { is_file, file_name: name.to_string(), path: path.to_string() })
}

#[test]
fn glob_file_cases() {
    let listing = DirListing::Entries(vec![
        entry(false, "src", "/w/src"),
        entry(true, "main.rs", "/w/src/main.rs"),
        None,
        entry(true, "notes.txt", "/w/src/notes.txt"),
        entry(true, "lib.rs", "/w/src/lib.rs"),
        entry(false, "dir.rs", "/w/src/dir.rs"),
    ]);
    assert_eq!(
        glob_file("/w", "src", "*.rs".to_string(), &listing).unwrap(),
        "/w/src/main.rs\n/w/src/lib.rs"
    );
    assert_eq!(
        glob_file("/w", "src", "*.md".to_string(), &listing).unwrap(),
        "No files matched the pattern '*.md' in '/w/src'"
    );
    // an invalid pattern matches nothing
    assert_eq!(
        glob_file("/w", "src", "[".to_string(), &listing).unwrap(),
        "No files matched the pattern '[' in '/w/src'"
    );
    assert_eq!(glob_file("/w", "src", "l?b.rs".to_string(), &listing).unwrap(), "/w/src/lib.rs");
    match glob_file("/w", "gone", "*".to_string(), &DirListing::Missing) {
        Err(RagentError::PathNotExist(p)) => assert_eq!(p, "/w/gone"),
        other => panic!("unexpected {:?}", other),
    }
    assert!(matches!(
        glob_file("/w", "/", "*".to_string(), &listing),
        Err(RagentError::PathEscape(_))
    ));
}

#[test]
fn read_after_write_gives_text_back() {
    let plan = write_file("/w", "notes/today.md", "first\nsecond\n".to_string()).unwrap();
    assert_eq!(safe_path("/w", "notes/today.md").unwrap(), plan.path);
    let back: Result<String, String> = Ok(plan.content.clone());
    assert_eq!(read_file("/w", "notes/today.md", None, &back).unwrap(), "first\nsecond");
}

#[test]
fn edit_changes_only_first_occurrence() {
    let raw = "aXbXc".to_string();
    let w = edit_file("/w", "f", "X".into(), "--".into(), &FileProbe::File(Ok(raw))).unwrap();
    assert_eq!(w.content, "a--bXc");
}

#[test]
fn edit_keeps_line_endings() {
    let w = edit_file("/w", "f", "a".into(), "b".into(), &FileProbe::File(Ok("a\n".into())))
        .unwrap();
    assert_eq!(w.content, "b\n");
    let crlf = FileProbe::File(Ok("one\r\ntwo\r\n".into()));
    let w = edit_file("/w", "f", "two".into(), "2".into(), &crlf).unwrap();
    assert_eq!(w.content, "one\r\n2\r\n");
}

#[test]
fn list_matches_follows_flags() {
    let entries = vec![
        entry(false, "src", "/w/src"),
        entry(true, "a.rs", "/w/src/a.rs"),
        None,
        entry(true, "b.rs", "/w/src/b.rs"),
    ];
    assert_eq!(
        list_matches("/w/src", "*.rs", &entries, &vec![true, true, true, true]),
        "/w/src/a.rs\n/w/src/b.rs"
    );
    assert_eq!(list_matches("/w/src", "x", &entries, &vec![false, false, false, true]), "/w/src/b.rs");
    // a missing flag counts as unset
    assert_eq!(list_matches("/w/src", "x", &entries, &vec![false, true]), "/w/src/a.rs");
    assert_eq!(
        list_matches("/w/src", "*.md", &entries, &vec![]),
        "No files matched the pattern '*.md' in '/w/src'"
    );
}

#[test]
fn normalizing_twice_is_normalizing_once() {
    for p in ["/a/../../b/./c/..", "x/y/../../..", "../a/b/..", "/", ""] {
        let once = normalize_path(&path_components(p));
        let twice = normalize_path(&once);
        assert_eq!(render_path(&once), render_path(&twice), "{}", p);
    }
    let r: String = render_path(&normalize_path(&path_components("/a/../../b/./c/.."))).into_iter().collect();
    assert_eq!(r, "/../b");
    let r: String = render_path(&normalize_path(&path_components("x/y/../../.."))).into_iter().collect();
    assert_eq!(r, "..");
}
