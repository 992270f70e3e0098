use build_libunwind::recover::{
    begins_with_one, is_object_of, recover, stems_for, BuildArtifact, CountMismatch, OutputEntry,
};

fn file(path: &str) -> OutputEntry {
    OutputEntry { path: path.to_string(), is_file: true }
}

fn directory(path: &str) -> OutputEntry {
    OutputEntry { path: path.to_string(), is_file: false }
}

fn cpp_names() -> Vec<String> {
    vec!["Unwind-EHABI.cpp".to_string(), "Unwind-seh.cpp".to_string(), "libunwind.cpp".to_string()]
}

fn artifact(objects: &[&str]) -> BuildArtifact {
    BuildArtifact {
        archive: "unwind-cpp".to_string(),
        objects: objects.iter().map(|path| path.to_string()).collect(),
    }
}

fn stems() -> Vec<String> {
    stems_for(&cpp_names())
}

#[test]
fn stems_of_the_cpp_sources() {
    assert_eq!(stems(), vec!["Unwind-EHABI", "Unwind-seh", "libunwind"]);
}

#[test]
fn begins_with_one_of_the_stems() {
    assert!(begins_with_one("libunwind.o", &stems()));
    assert!(begins_with_one("Unwind-seh-1a2b.o", &stems()));
    assert!(!begins_with_one("UnwindLevel1.o", &stems()));
    assert!(!begins_with_one("0123-libunwind.o", &stems()));
    assert!(!begins_with_one("libunwind.o", &Vec::new()));
}

#[test]
fn object_needs_file_extension_and_stem() {
    assert!(is_object_of(&file("/out/Unwind-EHABI.o"), &stems()));
    assert!(!is_object_of(&directory("/out/Unwind-EHABI.o"), &stems()));
    assert!(!is_object_of(&file("/out/Unwind-EHABI.obj"), &stems()));
    assert!(!is_object_of(&file("/out/Unwind-EHABI"), &stems()));
    assert!(!is_object_of(&file("/out/Unwind-sjlj.o"), &stems()));
    assert!(!is_object_of(&file("/libunwind.o/other.o"), &stems()));
    assert!(!is_object_of(&file("/out/libunwind.O"), &stems()));
}

#[test]
fn recover_finds_the_three_objects() {
    let entries = vec![
        file("/out/Unwind-sjlj.o"),
        file("/out/libunwind.o"),
        file("/out/libunwind-cpp.a"),
        directory("/out/Unwind-seh.o.d"),
        file("/out/Unwind-EHABI.o"),
        file("/out/notes.txt"),
        file("/out/Unwind-seh.o"),
    ];
    assert_eq!(
        recover(&entries, &cpp_names(), "unwind-cpp"),
        Ok(artifact(&["/out/libunwind.o", "/out/Unwind-EHABI.o", "/out/Unwind-seh.o"]))
    );
}

#[test]
fn recover_counts_too_few() {
    let entries = vec![file("/out/libunwind.o"), file("/out/Unwind-EHABI.o")];
    assert_eq!(recover(&entries, &cpp_names(), "unwind-cpp"), Err(CountMismatch { expected: 3, found: 2 }));
}

#[test]
fn recover_counts_none_in_an_empty_directory() {
    assert_eq!(recover(&Vec::new(), &cpp_names(), "unwind-cpp"), Err(CountMismatch { expected: 3, found: 0 }));
}

#[test]
fn recover_counts_too_many() {
    let entries = vec![
        file("/out/libunwind.o"),
        file("/out/libunwind-old.o"),
        file("/out/Unwind-EHABI.o"),
        file("/out/Unwind-seh.o"),
    ];
    assert_eq!(recover(&entries, &cpp_names(), "unwind-cpp"), Err(CountMismatch { expected: 3, found: 4 }));
}

#[test]
fn recover_rejects_objects_named_otherwise() {
    let entries = vec![
        file("/out/7f3a9c-Unwind-EHABI.o"),
        file("/out/7f3a9c-Unwind-seh.o"),
        file("/out/7f3a9c-libunwind.o"),
    ];
    assert_eq!(recover(&entries, &cpp_names(), "unwind-cpp"), Err(CountMismatch { expected: 3, found: 0 }));
}

#[test]
fn recover_counts_objects_not_sources() {
    let entries = vec![file("/out/libunwind.o"), file("/out/libunwind2.o"), file("/out/libunwind3.o")];
    assert_eq!(
        recover(&entries, &cpp_names(), "unwind-cpp"),
        Ok(artifact(&["/out/libunwind.o", "/out/libunwind2.o", "/out/libunwind3.o"]))
    );
}

#[test]
fn recover_for_no_sources_wants_no_objects() {
    assert_eq!(
        recover(&vec![file("/out/a.o")], &Vec::new(), "none"),
        Ok(BuildArtifact { archive: "none".to_string(), objects: Vec::new() })
    );
}
