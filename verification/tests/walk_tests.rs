use gitkv::hash::ObjectId;
use gitkv::walk::{advance, EntryKind, Step, Wanted};

fn id(fill: u8) -> ObjectId {
    ObjectId::new(vec![fill; 20])
}

fn step_of(kind: EntryKind, last: bool, want: Wanted, directory: bool) -> &'static str {
    match advance(Some((kind, id(7))), last, want, directory) {
        Step::Enter(found) => {
            assert_eq!(found, id(7));
            "enter"
        }
        Step::Arrive(found) => {
            assert_eq!(found, id(7));
            "arrive"
        }
        Step::Missing => "missing",
        Step::Mismatch => "mismatch",
    }
}

#[test]
fn advance_without_entry_is_missing() {
    for last in [false, true] {
        for want in [Wanted::File, Wanted::Directory] {
            for directory in [false, true] {
                assert!(matches!(
                    advance(None, last, want, directory),
                    Step::Missing
                ));
            }
        }
    }
}

#[test]
fn advance_before_the_last_name_enters_directories_only() {
    for want in [Wanted::File, Wanted::Directory] {
        for directory in [false, true] {
            assert_eq!(step_of(EntryKind::Tree, false, want, directory), "enter");
            assert_eq!(step_of(EntryKind::Blob, false, want, directory), "mismatch");
            assert_eq!(step_of(EntryKind::Other, false, want, directory), "mismatch");
        }
    }
}

#[test]
fn advance_at_the_last_name_wants_the_right_kind() {
    assert_eq!(step_of(EntryKind::Blob, true, Wanted::File, false), "arrive");
    assert_eq!(step_of(EntryKind::Tree, true, Wanted::File, false), "mismatch");
    assert_eq!(step_of(EntryKind::Other, true, Wanted::File, false), "mismatch");
    assert_eq!(step_of(EntryKind::Tree, true, Wanted::Directory, false), "arrive");
    assert_eq!(step_of(EntryKind::Blob, true, Wanted::Directory, false), "mismatch");
    assert_eq!(step_of(EntryKind::Other, true, Wanted::Directory, false), "mismatch");
}

#[test]
fn advance_on_a_path_with_trailing_slash_accepts_directories_only() {
    assert_eq!(step_of(EntryKind::Blob, true, Wanted::File, true), "mismatch");
    assert_eq!(step_of(EntryKind::Tree, true, Wanted::File, true), "mismatch");
    assert_eq!(step_of(EntryKind::Tree, true, Wanted::Directory, true), "arrive");
    assert_eq!(step_of(EntryKind::Blob, true, Wanted::Directory, true), "mismatch");
}
