use gs_visualizer::paths::{is_relative_path, join_paths};
use std::path::Path;

const SAMPLES: [&str; 11] = ["", "/", "a", "a/", "/a", "/a/b", "./x", "../y", "a//", "é/ü", "//z"];

#[test]
fn relative_paths_match_std() {
    for p in SAMPLES {
        assert_eq!(is_relative_path(p), Path::new(p).is_relative(), "{p:?}");
    }
}

#[test]
fn joined_paths_match_std() {
    for base in SAMPLES {
        for rel in SAMPLES {
            assert_eq!(
                join_paths(base, rel),
                Path::new(base).join(rel).to_string_lossy(),
                "{base:?} + {rel:?}"
            );
        }
    }
}
