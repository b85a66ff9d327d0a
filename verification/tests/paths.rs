use std::path::Path;

use repoweave::paths::{components_of, dir_above, name_of, strip_dir, with_slashes};
use repoweave::registry::is_tracked_in_parent_repo;

fn s(text: &str) -> String {
    text.to_owned()
}

#[test]
fn paths_are_taken_apart_by_their_components() {
    assert_eq!(dir_above(&s("/w/a")), Some(s("/w")));
    assert_eq!(dir_above(&s("a/b/")), Some(s("a")));
    assert_eq!(dir_above(&s("a//b")), Some(s("a")));
    assert_eq!(dir_above(&s("/a")), Some(s("/")));
    assert_eq!(dir_above(&s("a")), Some(s("")));
    assert_eq!(dir_above(&s(".")), Some(s("")));
    assert_eq!(dir_above(&s("/")), None);
    assert_eq!(dir_above(&s("")), None);
    assert_eq!(name_of(&s("a/b/")), Some(s("b")));
    assert_eq!(name_of(&s("a/./b/.")), Some(s("b")));
    assert_eq!(name_of(&s("a/..")), None);
    assert_eq!(name_of(&s("..")), None);
    assert_eq!(name_of(&s("/")), None);
}

#[test]
fn short_paths_are_taken_apart_as_the_standard_library_does() {
    let mut paths = vec![String::new()];
    let mut from = 0;
    for _ in 0..7 {
        let until = paths.len();
        for i in from..until {
            for c in ['a', '.', '/'] {
                let longer = format!("{}{c}", paths[i]);
                paths.push(longer);
            }
        }
        from = until;
    }
    let parts = |path: &Path| -> Vec<String> {
        path.components().map(|c| c.as_os_str().to_str().unwrap().to_owned()).collect()
    };
    for path in &paths {
        let std = Path::new(path);
        assert_eq!(components_of(path), parts(std), "{path}");
        for dir in &paths[..40] {
            let rest = std.strip_prefix(dir).ok().map(parts);
            assert_eq!(strip_dir(dir, path), rest, "{path} below {dir}");
        }
        assert_eq!(dir_above(path).as_deref(), std.parent().and_then(|p| p.to_str()), "{path}");
        assert_eq!(name_of(path).as_deref(), std.file_name().and_then(|n| n.to_str()), "{path}");
    }
}

#[test]
fn what_is_below_a_directory_is_told_by_components() {
    let texts = |list: &[&str]| list.iter().map(|t| s(t)).collect::<Vec<String>>();
    assert_eq!(strip_dir(&s("/w/"), &s("/w//a/b")), Some(texts(&["a", "b"])));
    assert_eq!(strip_dir(&s("/w"), &s("/wx/a")), None);
    assert_eq!(strip_dir(&s("/w"), &s("/w/.")), Some(Vec::new()));
    assert_eq!(with_slashes(&texts(&["projects", "a", "b"]), 1), "a/b");
    assert_eq!(with_slashes(&texts(&["a"]), 1), "");
}

#[test]
fn only_a_path_with_a_name_is_asked_for() {
    assert!(is_tracked_in_parent_repo(&s("a/b"), Some(true)));
    assert!(is_tracked_in_parent_repo(&s("a/b/"), Some(true)));
    assert!(!is_tracked_in_parent_repo(&s("a/b"), Some(false)));
    assert!(!is_tracked_in_parent_repo(&s("a/b"), None));
    assert!(!is_tracked_in_parent_repo(&s(".."), Some(true)));
    assert!(!is_tracked_in_parent_repo(&s("/"), Some(true)));
}
