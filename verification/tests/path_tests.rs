use cap_desktop::path::{join, parent, path_components, same_path};
use std::path::Path;

const SAMPLES: [&str; 22] = [
    "", "/", "//", ".", "./", "./a", "a", "a/", "a//b", "a/./b", "a/b/.", "/a", "/a/b", "/./a",
    "..", "a/..", "a/../b", "/a//", ".a", "a/.b/c.mp4", "./.", "/Users/me/x.cap/output/result.mp4",
];

#[test]
fn joins_like_the_standard_library() {
    for base in SAMPLES {
        for rest in SAMPLES {
            let expected = Path::new(base).join(rest);
            assert_eq!(join(base, rest), expected.to_str().unwrap());
        }
    }
}

#[test]
fn compares_like_the_standard_library() {
    for a in SAMPLES {
        for b in SAMPLES {
            assert_eq!(same_path(a, b), Path::new(a) == Path::new(b), "{} {}", a, b);
        }
    }
}

#[test]
fn finds_parents_like_the_standard_library() {
    for path in SAMPLES {
        let expected = Path::new(path).parent().map(|p| p.to_str().unwrap().to_string());
        assert_eq!(parent(path), expected, "{}", path);
    }
}

#[test]
fn lists_components() {
    assert_eq!(path_components("/a/./b//c/"), vec!["/", "a", "b", "c"]);
    assert_eq!(path_components("./a"), vec![".", "a"]);
    assert!(path_components("").is_empty());
}

#[test]
fn trailing_slash_makes_no_difference() {
    assert!(same_path("a/b", "a/b/"));
    assert!(same_path("/", "//"));
    assert!(!same_path("", "/"));
}

#[test]
fn joining_appends_components() {
    let mut all = path_components("/data");
    all.extend(path_components("recordings/x.cap"));
    assert_eq!(path_components(&join("/data", "recordings/x.cap")), all);
}
