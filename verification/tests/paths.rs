use auto_installer::paths::{
    path_file_name, path_is_absolute, path_join, path_starts_with_str, path_strip_prefix,
};
use std::path::Path;

const SAMPLES: &[&str] = &[
    "a//b/c",
    "/a/b/./",
    "x/./y/",
    "/a/b.txt",
    "/a/b/",
    "/",
    "",
    ".",
    "./x",
    "a/..",
    "a/./b",
    "/tmp/x/icons/a.png",
    "relative/dir/file.tar.gz",
    ".bashrc",
    "/opt/My App/run.sh",
    "a.",
    "..",
];

#[test]
fn file_name_agrees_with_std() {
    for sample in SAMPLES {
        let expected = Path::new(sample)
            .file_name()
            .map(|value| value.to_str().unwrap().to_string());
        assert_eq!(path_file_name(sample), expected, "{}", sample);
    }
}

#[test]
fn is_absolute_agrees_with_std() {
    for sample in SAMPLES {
        assert_eq!(
            path_is_absolute(sample),
            Path::new(sample).is_absolute(),
            "{}",
            sample
        );
    }
}

#[test]
fn join_agrees_with_std() {
    for a in SAMPLES {
        for b in ["b", "/abs", "c/d", ""] {
            let expected = Path::new(a).join(b).to_str().unwrap().to_string();
            assert_eq!(path_join(a, b), expected, "{} + {}", a, b);
        }
    }
}

#[test]
fn starts_with_agrees_with_std() {
    for a in SAMPLES {
        for b in SAMPLES {
            assert_eq!(
                path_starts_with_str(a, b),
                Path::new(a).starts_with(b),
                "{} starts with {}",
                a,
                b
            );
        }
    }
}

#[test]
fn strip_prefix_agrees_with_std() {
    for a in SAMPLES {
        for b in SAMPLES {
            let expected = Path::new(a)
                .strip_prefix(b)
                .ok()
                .map(|value| value.to_str().unwrap().to_string());
            assert_eq!(path_strip_prefix(a, b), expected, "{} minus {}", a, b);
        }
    }
}

#[test]
fn strip_prefix_examples() {
    assert_eq!(
        path_strip_prefix("/tmp/x/icons/a.png", "/tmp/x"),
        Some("icons/a.png".to_string())
    );
    assert_eq!(path_strip_prefix("/tmp/x", "/tmp/x"), Some(String::new()));
    assert_eq!(path_strip_prefix("/tmp/y", "/tmp/x"), None);
    assert_eq!(path_strip_prefix("/tmp/xy", "/tmp/x"), None);
}

#[test]
fn join_examples() {
    assert_eq!(path_join("/a", "b"), "/a/b");
    assert_eq!(path_join("/a/", "b"), "/a/b");
    assert_eq!(path_join("/a", "/b"), "/b");
    assert_eq!(path_join("", "b"), "b");
}

#[test]
fn parent_agrees_with_std() {
    for sample in SAMPLES.iter().chain(["a//b/c", "/a/b/./", "./a", "a"].iter()) {
        let expected = Path::new(sample)
            .parent()
            .map(|value| value.to_str().unwrap().to_string());
        let s: &str = sample;
        let chars: Vec<char> = s.chars().collect();
        let got = auto_installer::paths::parent_chars(&chars).map(|v| v.into_iter().collect::<String>());
        assert_eq!(got, expected, "{}", sample);
    }
}
