use std::cell::Cell;
use std::rc::Rc;

use vfs::{ChangeKind, ChangedFile, FileId, Loader, Vfs, VfsPath};

/// A loader backed by a fixed list of files, counting how often it is asked.
struct ListLoader {
    files: Vec<(String, Vec<u8>)>,
    loads: Rc<Cell<usize>>,
}

impl Loader for ListLoader {
    fn load_sync(&mut self, path: &str) -> Option<Vec<u8>> {
        self.loads.set(self.loads.get() + 1);
        self.files.iter().find(|(p, _)| p == path).map(|(_, b)| b.clone())
    }
}

fn store(files: &[(&str, &[u8])]) -> (Vfs<ListLoader>, Rc<Cell<usize>>) {
    let loads = Rc::new(Cell::new(0));
    let loader = ListLoader {
        files: files.iter().map(|(p, b)| (p.to_string(), b.to_vec())).collect(),
        loads: loads.clone(),
    };
    (Vfs::new(loader), loads)
}

fn disk(p: &str) -> VfsPath {
    VfsPath::Real(p.to_string())
}

fn mem(p: &str) -> VfsPath {
    VfsPath::Virtual(p.to_string())
}

fn kinds(changes: &[ChangedFile]) -> Vec<(u32, ChangeKind)> {
    changes.iter().map(|c| (c.file_id.0, c.change_kind)).collect()
}

#[test]
fn new_store_is_empty() {
    let (mut vfs, loads) = store(&[]);
    assert_eq!(vfs.len(), 0);
    assert!(!vfs.has_changes());
    assert!(vfs.take_changes().is_empty());
    assert!(vfs.iter().is_empty());
    assert_eq!(vfs.file_id(&disk("/a")), None);
    assert_eq!(loads.get(), 0);
}

#[test]
fn last_update_wins() {
    let (mut vfs, _) = store(&[]);
    vfs.set_file_contents(disk("/a"), Some(b"one".to_vec()));
    vfs.set_file_contents(disk("/b"), Some(b"bee".to_vec()));
    vfs.set_file_contents(disk("/a"), None);
    vfs.set_file_contents(disk("/a"), Some(b"two".to_vec()));
    vfs.set_file_contents(disk("/b"), Some(b"bee2".to_vec()));
    vfs.set_file_contents(disk("/a"), Some(b"three".to_vec()));
    let a = vfs.file_id(&disk("/a")).unwrap();
    let b = vfs.file_id(&disk("/b")).unwrap();
    assert_eq!(vfs.file_contents(a), Some(&b"three"[..]));
    assert_eq!(vfs.file_contents(b), Some(&b"bee2"[..]));
}

#[test]
fn same_bytes_twice_is_unchanged() {
    let (mut vfs, _) = store(&[]);
    assert!(vfs.set_file_contents(disk("/a"), Some(b"x".to_vec())));
    let before = vfs.take_changes();
    assert_eq!(before.len(), 1);
    assert!(!vfs.set_file_contents(disk("/a"), Some(b"x".to_vec())));
    assert!(!vfs.has_changes());
    assert!(vfs.take_changes().is_empty());
}

#[test]
fn first_set_takes_next_handle_and_creates() {
    let (mut vfs, _) = store(&[]);
    vfs.set_file_contents(disk("/a"), Some(b"a".to_vec()));
    vfs.take_changes();
    let h = vfs.len();
    assert_eq!(h, 1);
    assert!(vfs.set_file_contents(disk("/b"), Some(b"b".to_vec())));
    assert_eq!(vfs.file_id(&disk("/b")), Some(FileId(1)));
    assert_eq!(vfs.len(), 2);
    assert_eq!(kinds(&vfs.take_changes()), vec![(1, ChangeKind::Create)]);
}

#[test]
fn second_different_set_modifies() {
    let (mut vfs, _) = store(&[]);
    assert!(vfs.set_file_contents(disk("/a"), Some(b"1".to_vec())));
    assert!(vfs.set_file_contents(disk("/a"), Some(b"2".to_vec())));
    assert_eq!(kinds(&vfs.take_changes()), vec![(0, ChangeKind::Create), (0, ChangeKind::Modify)]);
}

#[test]
fn delete_then_recreate_keeps_handle() {
    let (mut vfs, _) = store(&[]);
    assert!(vfs.set_file_contents(disk("/a"), Some(b"x".to_vec())));
    assert!(vfs.set_file_contents(disk("/a"), None));
    assert!(vfs.set_file_contents(disk("/a"), Some(b"x".to_vec())));
    assert_eq!(vfs.len(), 1);
    assert_eq!(
        kinds(&vfs.take_changes()),
        vec![(0, ChangeKind::Create), (0, ChangeKind::Delete), (0, ChangeKind::Create)]
    );
}

#[test]
fn drain_keeps_order_and_empties() {
    let (mut vfs, _) = store(&[]);
    vfs.set_file_contents(disk("/a"), Some(b"a".to_vec()));
    vfs.set_file_contents(mem("/b"), Some(b"b".to_vec()));
    vfs.set_file_contents(disk("/a"), Some(b"aa".to_vec()));
    vfs.set_file_contents(mem("/b"), None);
    assert!(vfs.has_changes());
    assert_eq!(
        kinds(&vfs.take_changes()),
        vec![
            (0, ChangeKind::Create),
            (1, ChangeKind::Create),
            (0, ChangeKind::Modify),
            (1, ChangeKind::Delete)
        ]
    );
    assert!(!vfs.has_changes());
    assert!(vfs.take_changes().is_empty());
}

#[test]
fn unknown_file_loads_once() {
    let (mut vfs, loads) = store(&[("/disk/x.rs", b"fn x() {}")]);
    let id = vfs.alloc_file_id(disk("/disk/x.rs"));
    assert!(!vfs.has_changes());
    assert_eq!(loads.get(), 0);
    assert_eq!(vfs.file_contents(id), Some(&b"fn x() {}"[..]));
    assert_eq!(loads.get(), 1);
    assert_eq!(kinds(&vfs.take_changes()), vec![(0, ChangeKind::Create)]);
    assert_eq!(vfs.file_contents(id), Some(&b"fn x() {}"[..]));
    assert_eq!(loads.get(), 1);
    assert!(!vfs.has_changes());
}

#[test]
fn unknown_file_missing_on_disk_becomes_deleted() {
    let (mut vfs, loads) = store(&[]);
    let id = vfs.alloc_file_id(disk("/disk/missing.rs"));
    assert_eq!(vfs.file_contents(id), None);
    assert_eq!(loads.get(), 1);
    assert!(!vfs.has_changes());
    assert!(vfs.set_file_contents(disk("/disk/missing.rs"), Some(b"now".to_vec())));
    assert_eq!(kinds(&vfs.take_changes()), vec![(0, ChangeKind::Create)]);
    assert_eq!(loads.get(), 1);
}

#[test]
fn set_before_read_does_not_load() {
    let (mut vfs, loads) = store(&[("/disk/y.rs", b"disk")]);
    let id = vfs.alloc_file_id(disk("/disk/y.rs"));
    assert!(vfs.set_id_contents(id, Some(b"editor".to_vec())));
    assert_eq!(vfs.file_contents(id), Some(&b"editor"[..]));
    assert_eq!(loads.get(), 0);
}

#[test]
fn unknown_to_deleted_records_nothing() {
    let (mut vfs, _) = store(&[]);
    assert!(!vfs.set_file_contents(mem("/v"), None));
    assert_eq!(vfs.len(), 1);
    assert!(!vfs.has_changes());
    assert!(!vfs.set_file_contents(mem("/v"), None));
    assert!(!vfs.has_changes());
}

#[test]
fn interning_twice_gives_same_handle() {
    let (mut vfs, _) = store(&[]);
    let a = vfs.alloc_file_id(disk("/a"));
    assert_eq!(vfs.len(), 1);
    let again = vfs.alloc_file_id(disk("/a"));
    assert_eq!(a, again);
    assert_eq!(vfs.len(), 1);
    let b = vfs.alloc_file_id(disk("/b"));
    assert_eq!(b, FileId(1));
    assert!(!vfs.has_changes());
}

#[test]
fn real_and_virtual_paths_differ() {
    let (mut vfs, _) = store(&[]);
    let r = vfs.alloc_file_id(disk("/a"));
    let v = vfs.alloc_file_id(mem("/a"));
    assert_ne!(r, v);
    assert_eq!(vfs.file_path(r), disk("/a"));
    assert_eq!(vfs.file_path(v), mem("/a"));
}

#[test]
fn iter_lists_handles_in_order() {
    let (mut vfs, loads) = store(&[]);
    vfs.alloc_file_id(disk("/c"));
    vfs.set_file_contents(mem("/a"), Some(vec![]));
    vfs.set_file_contents(disk("/b"), None);
    let all = vfs.iter();
    assert_eq!(
        all,
        vec![(FileId(0), disk("/c")), (FileId(1), mem("/a")), (FileId(2), disk("/b"))]
    );
    assert_eq!(loads.get(), 0);
}

#[test]
fn empty_contents_are_present() {
    let (mut vfs, _) = store(&[]);
    assert!(vfs.set_file_contents(disk("/e"), Some(vec![])));
    let id = vfs.file_id(&disk("/e")).unwrap();
    assert_eq!(vfs.file_contents(id), Some(&[][..]));
    assert!(vfs.set_file_contents(disk("/e"), None));
    assert_eq!(kinds(&vfs.take_changes()), vec![(0, ChangeKind::Create), (0, ChangeKind::Delete)]);
}

#[test]
fn changed_file_predicates() {
    let c = ChangedFile { file_id: FileId(3), change_kind: ChangeKind::Create };
    let m = ChangedFile { file_id: FileId(3), change_kind: ChangeKind::Modify };
    let d = ChangedFile { file_id: FileId(3), change_kind: ChangeKind::Delete };
    assert!(c.file_exists() && m.file_exists() && !d.file_exists());
    assert!(c.is_created_or_deleted() && !m.is_created_or_deleted() && d.is_created_or_deleted());
}

#[test]
fn as_path_only_for_real_paths() {
    assert_eq!(disk("/a/b.rs").as_path(), Some("/a/b.rs"));
    assert_eq!(mem("/a/b.rs").as_path(), None);
    assert!(disk("/a") == disk("/a"));
    assert!(disk("/a") != disk("/b"));
    assert!(disk("/a") != mem("/a"));
}
