use file_sharer::errors::ShareError;
use file_sharer::input::{base_name, resolve_input, FileHandle};

#[test]
fn resolve_keeps_contents_and_base_name() {
    let contents = vec![1u8, 2, 3];
    let r = resolve_input("dir/notes.txt".to_string(), true, contents);
    match r {
        Ok(h) => {
            assert_eq!(h.path, "dir/notes.txt");
            assert_eq!(h.base_name, "notes.txt");
            assert_eq!(h.contents.len(), 3);
            assert_eq!(h.contents, vec![1u8, 2, 3]);
        }
        Err(_) => panic!("a regular file must resolve"),
    }
}

#[test]
fn resolve_rejects_non_file() {
    let r = resolve_input("missing.bin".to_string(), false, Vec::new());
    match r {
        Ok(_) => panic!("a non-file must be rejected"),
        Err(ShareError::InvalidInput { path }) => assert_eq!(path, "missing.bin"),
        Err(_) => panic!("the error must be InvalidInput"),
    }
}

#[test]
fn base_name_without_separator_is_whole_path() {
    assert_eq!(base_name("notes.txt"), "notes.txt");
}

#[test]
fn base_name_takes_final_segment() {
    assert_eq!(base_name("a/b/c.bin"), "c.bin");
    assert_eq!(base_name("/etc/hosts"), "hosts");
}

#[test]
fn base_name_of_empty_path_is_empty() {
    assert_eq!(base_name(""), "");
}

#[test]
fn file_handle_new_fills_every_field() {
    let h = FileHandle::new("x/y".to_string(), vec![9u8]);
    assert_eq!(h.path, "x/y");
    assert_eq!(h.base_name, "y");
    assert_eq!(h.contents, vec![9u8]);
}
