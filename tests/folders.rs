use padington::folder::{file_for, slugify, Folder, PathValidity};

fn tree() -> Folder {
    let mut root = Folder::new(None);
    root.add_sub("room".to_string(), Folder::new(None));
    root.add_sub("notes".to_string(), Folder::new(Some("/srv/notes".to_string())));
    root
}

#[test]
fn file_in_subfolder() {
    match tree().check_name("/room/pad", "pads".to_string()) {
        PathValidity::File(dir, name) => {
            assert_eq!(dir, "pads/room");
            assert_eq!(name, "pad");
        }
        other => panic!("unexpected {:?}", other),
    }
}

#[test]
fn file_at_root() {
    match tree().check_name("/doc", "pads".to_string()) {
        PathValidity::File(dir, name) => {
            assert_eq!(dir, "pads");
            assert_eq!(name, "doc");
        }
        other => panic!("unexpected {:?}", other),
    }
}

#[test]
fn trailing_slash_is_folder() {
    assert!(matches!(tree().check_name("/room/", "pads".to_string()), PathValidity::Folder(ref d) if d == "pads/room"));
    assert!(matches!(tree().check_name("/", "pads".to_string()), PathValidity::Folder(ref d) if d == "pads"));
}

#[test]
fn save_dir_overrides_inherited() {
    match tree().check_name("/notes/today", "pads".to_string()) {
        PathValidity::File(dir, name) => {
            assert_eq!(dir, "/srv/notes");
            assert_eq!(name, "today");
        }
        other => panic!("unexpected {:?}", other),
    }
}

#[test]
fn invalid_paths() {
    assert!(matches!(tree().check_name("room/pad", "pads".to_string()), PathValidity::Invalid));
    assert!(matches!(tree().check_name("", "pads".to_string()), PathValidity::Invalid));
    assert!(matches!(tree().check_name("/nowhere/pad", "pads".to_string()), PathValidity::Invalid));
}

#[test]
fn add_sub_replaces_same_name() {
    let mut root = tree();
    root.add_sub("room".to_string(), Folder::new(Some("/other".to_string())));
    assert_eq!(root.sub.len(), 2);
    match root.check_name("/room/x", "pads".to_string()) {
        PathValidity::File(dir, _) => assert_eq!(dir, "/other"),
        other => panic!("unexpected {:?}", other),
    }
}

#[test]
fn slugs() {
    assert_eq!(slugify("My Pad"), "my-pad");
    assert_eq!(slugify("  --test_-_cool"), "test-cool");
    assert_eq!(slugify("Æúű--cool?"), "aeuu-cool");
    assert_eq!(slugify("!!!"), "");
}

#[test]
fn slugify_is_idempotent() {
    for s in ["My Pad", "Æúű--cool?", "a  b", "x-y", "", "ÄÖÜ straße"] {
        let once = slugify(s);
        assert_eq!(slugify(&once), once);
    }
}

#[test]
fn slug_collision_gives_same_file() {
    let a = file_for(&"pads".to_string(), &"My Pad".to_string());
    let b = file_for(&"pads".to_string(), &"my-pad".to_string());
    assert_eq!(a, Some("pads/my-pad.md".to_string()));
    assert_eq!(a, b);
    assert_eq!(file_for(&"pads".to_string(), &"???".to_string()), None);
}
