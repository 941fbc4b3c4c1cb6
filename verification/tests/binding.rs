use libzfs::{
    Call, Dataset, DatasetType, DatasetTypeMask, Error, Event, LibZfs, Run, SafeString, Stage,
    Step, SysError, ZPool, ZPoolState, ZfsError, ZfsErrorCode,
};

// A native library in memory: pools and datasets by name, handles that are counted
// when they are given out and when they are closed, an error slot, and a log of calls.

const FILESYSTEM: u32 = 1;
const SNAPSHOT: u32 = 2;
const VOLUME: u32 = 4;
const BOOKMARK: u32 = 16;

struct Entry {
    name: &'static str,
    kind: u32,
    created: u64,
}

#[derive(Clone, Debug, PartialEq)]
enum Open {
    Library,
    Pool(String),
    // The pool handle that a dataset keeps, by the dataset's handle.
    PoolOf(usize, String),
    Dataset(String),
    NameSet(Vec<String>),
}

struct Native {
    pools: Vec<(&'static str, u32)>,
    datasets: Vec<Entry>,
    next_handle: usize,
    open: Vec<(usize, Open)>,
    closed: Vec<usize>,
    log: Vec<String>,
    slot: ZfsError,
    system: SysError,
    init_fails: bool,
    alloc_status: i32,
    batch_status: i32,
    // After how many pushed handles the enumeration breaks off, and with which status.
    enumeration_breaks: Option<(usize, i32)>,
    submitted: Vec<(String, Vec<String>)>,
}

fn text(name: &str) -> SafeString {
    SafeString::new(name).expect("a name without NUL")
}

fn slot(code: ZfsErrorCode, msg: &str) -> ZfsError {
    ZfsError::last_error(code, String::from(msg))
}

impl Native {
    fn new() -> Native {
        Native {
            pools: vec![("tank", 0), ("backup", 1)],
            datasets: vec![
                Entry { name: "tank", kind: FILESYSTEM, created: 10 },
                Entry { name: "tank/home", kind: FILESYSTEM, created: 20 },
                Entry { name: "tank/home@c", kind: SNAPSHOT, created: 3 },
                Entry { name: "tank/home@a", kind: SNAPSHOT, created: 1 },
                Entry { name: "tank/home@b", kind: SNAPSHOT, created: 2 },
                Entry { name: "tank/home#mark", kind: BOOKMARK, created: 4 },
                Entry { name: "tank/home/alice", kind: FILESYSTEM, created: 30 },
                Entry { name: "tank/home/bob", kind: FILESYSTEM, created: 31 },
                Entry { name: "tank/vol", kind: VOLUME, created: 40 },
                Entry { name: "tank/vol@v1", kind: SNAPSHOT, created: 41 },
                Entry { name: "backup", kind: FILESYSTEM, created: 50 },
            ],
            next_handle: 0x1000,
            open: Vec::new(),
            closed: Vec::new(),
            log: Vec::new(),
            slot: slot(ZfsErrorCode::EZFS_NOENT, "no such pool or dataset"),
            system: SysError { code: 2, msg: String::from("No such file or directory") },
            init_fails: false,
            alloc_status: 0,
            batch_status: 0,
            enumeration_breaks: None,
            submitted: Vec::new(),
        }
    }

    fn hand_out(&mut self, what: Open) -> usize {
        self.next_handle += 0x10;
        self.open.push((self.next_handle, what));
        self.next_handle
    }

    fn close(&mut self, handle: usize) {
        let at = self.open.iter().position(|(h, _)| *h == handle).expect("closing what is not open");
        self.open.remove(at);
        self.closed.push(handle);
    }

    fn held(&self, handle: usize) -> Open {
        let found = self.open.iter().find(|(h, _)| *h == handle).expect("using what is not open");
        found.1.clone()
    }

    fn dataset_name(&self, handle: usize) -> String {
        match self.held(handle) {
            Open::Dataset(name) => name,
            other => panic!("not a dataset: {:?}", other),
        }
    }

    fn pool_name(&self, handle: usize) -> String {
        match self.held(handle) {
            Open::Pool(name) => name,
            Open::PoolOf(_, name) => name,
            other => panic!("not a pool: {:?}", other),
        }
    }

    fn entry(&self, name: &str) -> &Entry {
        self.datasets.iter().find(|e| e.name == name).expect("a dataset of that name")
    }

    fn open_datasets(&self) -> usize {
        self.open.iter().filter(|(_, what)| matches!(what, Open::Dataset(_))).count()
    }

    fn open_pools(&self) -> usize {
        self.open.iter().filter(|(_, what)| matches!(what, Open::Pool(_))).count()
    }

    fn open_name_sets(&self) -> usize {
        self.open.iter().filter(|(_, what)| matches!(what, Open::NameSet(_))).count()
    }

    fn count_calls(&self, prefix: &str) -> usize {
        self.log.iter().filter(|line| line.starts_with(prefix)).count()
    }

    // A call that is answered by one event.
    fn perform(&mut self, call: Call) -> Event {
        self.log.push(format!("{:?}", call));
        match call {
            Call::Init => {
                if self.init_fails {
                    Event::Handle(0)
                } else {
                    Event::Handle(self.hand_out(Open::Library))
                }
            }
            Call::Fini { libzfs } => {
                self.close(libzfs);
                Event::Returned
            }
            Call::LibraryError { libzfs } => {
                assert_eq!(self.held(libzfs), Open::Library);
                Event::LibraryError(self.slot.clone())
            }
            Call::SystemError => Event::SystemError(self.system.clone()),
            Call::PoolOpen { libzfs, name } => {
                assert_eq!(self.held(libzfs), Open::Library);
                if self.pools.iter().any(|(pool, _)| *pool == name.as_str()) {
                    Event::Handle(self.hand_out(Open::Pool(String::from(name.as_str()))))
                } else {
                    Event::Handle(0)
                }
            }
            Call::PoolClose { pool } => {
                match self.held(pool) {
                    Open::Pool(_) => self.close(pool),
                    other => panic!("not a pool to close: {:?}", other),
                }
                Event::Returned
            }
            Call::PoolName { pool } => Event::Name(text(&self.pool_name(pool))),
            Call::PoolState { pool } => {
                let name = self.pool_name(pool);
                let state = self.pools.iter().find(|(pool, _)| *pool == name).expect("a pool").1;
                Event::PoolState(state)
            }
            Call::DatasetOpen { libzfs, name, types } => {
                assert_eq!(self.held(libzfs), Open::Library);
                let found = self.datasets.iter().find(|e| e.name == name.as_str());
                match found {
                    Some(entry) if entry.kind & types.raw() != 0 => {
                        Event::Handle(self.hand_out(Open::Dataset(String::from(entry.name))))
                    }
                    _ => Event::Handle(0),
                }
            }
            Call::DatasetClose { dataset } => {
                self.dataset_name(dataset);
                self.close(dataset);
                // The pool handle that the dataset kept goes with it.
                self.open.retain(|(_, what)| !matches!(what, Open::PoolOf(of, _) if *of == dataset));
                Event::Returned
            }
            Call::DatasetDup { dataset } => {
                let name = self.dataset_name(dataset);
                Event::Handle(self.hand_out(Open::Dataset(name)))
            }
            Call::DatasetType { dataset } => {
                let name = self.dataset_name(dataset);
                Event::DatasetType(self.entry(&name).kind)
            }
            Call::DatasetName { dataset } => Event::Name(text(&self.dataset_name(dataset))),
            Call::DatasetPool { dataset } => {
                // The dataset's own pool handle: the same one each time.
                let kept = self
                    .open
                    .iter()
                    .find(|(_, what)| matches!(what, Open::PoolOf(of, _) if *of == dataset))
                    .map(|(handle, _)| *handle);
                match kept {
                    Some(handle) => Event::Borrowed(handle),
                    None => {
                        let name = self.dataset_name(dataset);
                        let pool =
                            name.split(|c| c == '/' || c == '@' || c == '#').next().expect("a pool");
                        Event::Borrowed(self.hand_out(Open::PoolOf(dataset, String::from(pool))))
                    }
                }
            }
            Call::DatasetPoolName { dataset } => {
                let name = self.dataset_name(dataset);
                let pool = name.split(|c| c == '/' || c == '@' || c == '#').next().expect("a pool");
                Event::Name(text(pool))
            }
            Call::NameSetAlloc => {
                if self.alloc_status != 0 {
                    Event::Allocated { status: self.alloc_status, set: 0 }
                } else {
                    Event::Allocated { status: 0, set: self.hand_out(Open::NameSet(Vec::new())) }
                }
            }
            Call::NameSetAdd { set, name } => {
                let at = self.open.iter().position(|(h, _)| *h == set).expect("an open set");
                match &mut self.open[at].1 {
                    Open::NameSet(names) => {
                        // The set keeps each name once.
                        names.retain(|n| n != name.as_str());
                        names.push(String::from(name.as_str()));
                    }
                    other => panic!("not a name set: {:?}", other),
                }
                Event::Returned
            }
            Call::NameSetFree { set } => {
                match self.held(set) {
                    Open::NameSet(_) => self.close(set),
                    other => panic!("not a name set: {:?}", other),
                }
                Event::Returned
            }
            Call::SnapshotCreate { libzfs, set } => {
                assert_eq!(self.held(libzfs), Open::Library);
                match self.held(set) {
                    Open::NameSet(names) => {
                        assert!(!names.is_empty(), "the native call does not survive an empty set");
                        self.submitted.push((String::from("create"), names));
                    }
                    other => panic!("not a name set: {:?}", other),
                }
                Event::Status(self.batch_status)
            }
            Call::SnapshotDestroy { libzfs, set, defer } => {
                assert_eq!(self.held(libzfs), Open::Library);
                assert!(!defer);
                match self.held(set) {
                    Open::NameSet(names) => {
                        assert!(!names.is_empty(), "the native call does not survive an empty set");
                        self.submitted.push((String::from("destroy"), names));
                    }
                    other => panic!("not a name set: {:?}", other),
                }
                Event::Status(self.batch_status)
            }
            other => panic!("an enumeration is not answered by one event: {:?}", other),
        }
    }

    // An enumerating call: the names that it pushes, in order.
    fn enumerate(&mut self, call: &Call) -> Option<Vec<(String, bool)>> {
        let listed: Vec<(String, bool)> = match call {
            Call::PoolIter { libzfs } => {
                assert_eq!(self.held(*libzfs), Open::Library);
                self.pools.iter().map(|(name, _)| (String::from(*name), true)).collect()
            }
            Call::IterFilesystems { dataset } => {
                let parent = self.dataset_name(*dataset);
                let prefix = format!("{}/", parent);
                self.datasets
                    .iter()
                    .filter(|e| e.name.starts_with(&prefix))
                    .filter(|e| !e.name[prefix.len()..].contains(|c| c == '/' || c == '@' || c == '#'))
                    .map(|e| (String::from(e.name), false))
                    .collect()
            }
            Call::IterSnapshots { dataset, simple, min_txg, max_txg } => {
                assert!(!simple);
                assert_eq!((*min_txg, *max_txg), (0, 0));
                let prefix = format!("{}@", self.dataset_name(*dataset));
                self.datasets
                    .iter()
                    .filter(|e| e.name.starts_with(&prefix))
                    .map(|e| (String::from(e.name), false))
                    .collect()
            }
            Call::IterSnapshotsSorted { dataset, min_txg, max_txg } => {
                assert_eq!((*min_txg, *max_txg), (0, 0));
                let prefix = format!("{}@", self.dataset_name(*dataset));
                let mut found: Vec<&Entry> =
                    self.datasets.iter().filter(|e| e.name.starts_with(&prefix)).collect();
                found.sort_by_key(|e| e.created);
                found.iter().map(|e| (String::from(e.name), false)).collect()
            }
            Call::IterDependents { dataset, recurse } => {
                assert!(*recurse);
                let parent = self.dataset_name(*dataset);
                self.datasets
                    .iter()
                    .filter(|e| e.name.len() > parent.len() && e.name.starts_with(&parent))
                    .filter(|e| {
                        let next = e.name.as_bytes()[parent.len()];
                        next == b'/' || next == b'@' || next == b'#'
                    })
                    .map(|e| (String::from(e.name), false))
                    .collect()
            }
            _ => return None,
        };
        self.log.push(format!("{:?}", call));
        Some(listed)
    }
}

// The loop of the embedding program: make the call that the step names and hand back
// what came of it, until the operation is over.
fn drive<T>(
    native: &mut Native,
    mut op: impl FnMut(Run, Event) -> Step<T>,
    callback: &mut dyn FnMut(&mut Native, Dataset),
) -> T {
    let mut step = op(Run::new(), Event::Begin);
    loop {
        step = match step {
            Step::Done(result) => return result,
            Step::Stray(run) => panic!("the operation was told what it had not asked for, at {:?}", run.stage),
            Step::Await(_) | Step::Yield(_, _) => panic!("no enumeration is in progress"),
            Step::Call(call, run) => match native.enumerate(&call) {
                None => {
                    let event = native.perform(call);
                    op(run, event)
                }
                Some(listed) => {
                    let (limit, status) = match native.enumeration_breaks {
                        Some((after, status)) => (after, status),
                        None => (listed.len(), 0),
                    };
                    let mut run = run;
                    for (name, is_pool) in listed.into_iter().take(limit) {
                        let what = if is_pool { Open::Pool(name) } else { Open::Dataset(name) };
                        let handle = native.hand_out(what);
                        run = match op(run, Event::Item(handle)) {
                            Step::Await(run) => run,
                            Step::Yield(dataset, run) => {
                                callback(native, dataset);
                                run
                            }
                            _ => panic!("a pushed handle is gathered or handed out"),
                        };
                    }
                    op(run, Event::Status(status))
                }
            },
        };
    }
}

fn no_callback(_: &mut Native, _: Dataset) {
    panic!("this operation hands nothing out");
}

fn init(native: &mut Native) -> LibZfs {
    drive(native, |run, event| LibZfs::new(run, event), &mut no_callback).expect("a library")
}

fn open_dataset(native: &mut Native, lib: &LibZfs, name: &str) -> Dataset {
    let name = text(name);
    drive(native, |run, event| lib.dataset_by_name(&name, DatasetTypeMask::all(), run, event), &mut no_callback)
        .expect("a dataset of that name")
}

fn open_pool(native: &mut Native, lib: &LibZfs, name: &str) -> ZPool {
    let name = text(name);
    drive(native, |run, event| lib.pool_by_name(&name, run, event), &mut no_callback)
        .expect("a pool of that name")
}

fn close_dataset(native: &mut Native, dataset: Dataset) {
    let handle = dataset.handle;
    let call = dataset.close();
    assert_eq!(call, Call::DatasetClose { dataset: handle });
    assert_eq!(native.perform(call), Event::Returned);
}

fn close_pool(native: &mut Native, pool: ZPool) {
    let handle = pool.handle;
    let owned = pool.owned;
    match pool.close() {
        Some(call) => {
            assert!(owned);
            assert_eq!(call, Call::PoolClose { pool: handle });
            assert_eq!(native.perform(call), Event::Returned);
        }
        None => assert!(!owned),
    }
}

fn name_of(native: &mut Native, dataset: &Dataset) -> String {
    drive(native, |run, event| dataset.get_name(run, event), &mut no_callback).into_string()
}

fn names_of(native: &mut Native, datasets: &[Dataset]) -> Vec<String> {
    datasets.iter().map(|d| name_of(native, d)).collect()
}

fn close_all(native: &mut Native, datasets: Vec<Dataset>) {
    for dataset in datasets {
        close_dataset(native, dataset);
    }
}

// Initialising.

#[test]
fn library_opens() {
    let mut native = Native::new();
    let lib = init(&mut native);
    assert_ne!(lib.handle, 0);
    assert_eq!(native.held(lib.handle), Open::Library);
    assert_eq!(native.log, vec![String::from("Init")]);
}

#[test]
fn library_that_does_not_open_reports_the_system_error() {
    let mut native = Native::new();
    native.init_fails = true;
    native.system = SysError { code: 13, msg: String::from("Permission denied") };
    let result = drive(&mut native, |run, event| LibZfs::new(run, event), &mut no_callback);
    assert_eq!(result, Err(Error::Sys(SysError { code: 13, msg: String::from("Permission denied") })));
    assert_eq!(native.log, vec![String::from("Init"), String::from("SystemError")]);
}

#[test]
fn library_is_released_once() {
    let mut native = Native::new();
    let lib = init(&mut native);
    let handle = lib.handle;
    let call = lib.close();
    assert_eq!(call, Call::Fini { libzfs: handle });
    assert_eq!(native.perform(call), Event::Returned);
    assert!(native.open.is_empty());
    assert_eq!(native.closed, vec![handle]);
}

// Opening by name.

#[test]
fn pool_opens_by_name() {
    let mut native = Native::new();
    let lib = init(&mut native);
    let pool = open_pool(&mut native, &lib, "tank");
    assert_eq!(pool.libzfs, lib.handle);
    assert_eq!(native.held(pool.handle), Open::Pool(String::from("tank")));
    assert_eq!(native.count_calls("PoolOpen"), 1);
    assert_eq!(native.count_calls("LibraryError"), 0);
}

#[test]
fn missing_pool_reports_the_library_error() {
    let mut native = Native::new();
    let lib = init(&mut native);
    native.slot = slot(ZfsErrorCode::EZFS_NOENT, "no such pool or dataset");
    let name = text("nowhere");
    let result = drive(&mut native, |run, event| lib.pool_by_name(&name, run, event), &mut no_callback);
    assert_eq!(result, Err(Error::Zfs(slot(ZfsErrorCode::EZFS_NOENT, "no such pool or dataset"))));
    assert_eq!(native.count_calls("LibraryError"), 1);
    assert_eq!(native.count_calls("SystemError"), 0);
    assert_eq!(native.open_pools(), 0);
}

#[test]
fn missing_pool_with_unknown_code_reports_the_system_error() {
    let mut native = Native::new();
    let lib = init(&mut native);
    native.slot = slot(ZfsErrorCode::EZFS_UNKNOWN, "unknown error");
    native.system = SysError { code: 5, msg: String::from("Input/output error") };
    let name = text("nowhere");
    let result = drive(&mut native, |run, event| lib.pool_by_name(&name, run, event), &mut no_callback);
    assert_eq!(result, Err(Error::Sys(SysError { code: 5, msg: String::from("Input/output error") })));
    let tail: Vec<&str> = native.log.iter().skip(2).map(|s| s.as_str()).collect();
    assert_eq!(tail.len(), 2);
    assert!(tail[0].starts_with("LibraryError"));
    assert_eq!(tail[1], "SystemError");
}

#[test]
fn dataset_opens_by_name() {
    let mut native = Native::new();
    let lib = init(&mut native);
    let dataset = open_dataset(&mut native, &lib, "tank/home");
    assert_eq!(dataset.libzfs, lib.handle);
    assert_eq!(native.held(dataset.handle), Open::Dataset(String::from("tank/home")));
}

#[test]
fn dataset_of_another_type_is_not_opened() {
    let mut native = Native::new();
    let lib = init(&mut native);
    native.slot = slot(ZfsErrorCode::EZFS_BADTYPE, "dataset is not of appropriate type");
    let name = text("tank/home@a");
    let only_filesystems = DatasetTypeMask::from(DatasetType::Filesystem);
    let result = drive(
        &mut native,
        |run, event| lib.dataset_by_name(&name, only_filesystems, run, event),
        &mut no_callback,
    );
    assert_eq!(result, Err(Error::Zfs(slot(ZfsErrorCode::EZFS_BADTYPE, "dataset is not of appropriate type"))));
    let snapshots_too = DatasetType::Filesystem | DatasetType::Snapshot;
    let found = drive(
        &mut native,
        |run, event| lib.dataset_by_name(&name, snapshots_too, run, event),
        &mut no_callback,
    );
    assert!(found.is_ok());
}

#[test]
fn missing_dataset_reports_what_the_slot_holds() {
    let mut native = Native::new();
    let lib = init(&mut native);
    let name = text("tank/none");
    native.slot = slot(ZfsErrorCode::EZFS_NOENT, "no such pool or dataset");
    let library = drive(
        &mut native,
        |run, event| lib.dataset_by_name(&name, DatasetTypeMask::all(), run, event),
        &mut no_callback,
    );
    assert_eq!(library, Err(Error::Zfs(slot(ZfsErrorCode::EZFS_NOENT, "no such pool or dataset"))));
    native.slot = slot(ZfsErrorCode::EZFS_UNKNOWN, "");
    native.system = SysError { code: 12, msg: String::from("Cannot allocate memory") };
    let system = drive(
        &mut native,
        |run, event| lib.dataset_by_name(&name, DatasetTypeMask::all(), run, event),
        &mut no_callback,
    );
    assert_eq!(system, Err(Error::Sys(SysError { code: 12, msg: String::from("Cannot allocate memory") })));
}

#[test]
fn handle_is_judged_null_or_not() {
    let lib = LibZfs { handle: 0x40 };
    assert_eq!(lib.ptr_or_err(0x1234, Run::new()), Step::Done(Ok(0x1234)));
    match lib.ptr_or_err(0, Run::new()) {
        Step::Call(call, run) => {
            assert_eq!(call, Call::LibraryError { libzfs: 0x40 });
            assert_eq!(run.stage, Stage::LibraryError);
        }
        other => panic!("a null handle is a failure to read: {:?}", other),
    }
}

#[test]
fn last_error_reads_the_slot_first() {
    let lib = LibZfs { handle: 0x40 };
    let run = match lib.get_last_error(Run::new(), Event::Begin) {
        Step::Call(call, run) => {
            assert_eq!(call, Call::LibraryError { libzfs: 0x40 });
            run
        }
        other => panic!("the slot is read first: {:?}", other),
    };
    let known = slot(ZfsErrorCode::EZFS_NOSPC, "out of space");
    assert_eq!(
        lib.get_last_error(run, Event::LibraryError(known.clone())),
        Step::Done(Error::Zfs(known))
    );
    let run = match lib.get_last_error(Run::new(), Event::Begin) {
        Step::Call(_, run) => run,
        other => panic!("the slot is read first: {:?}", other),
    };
    let run = match lib.get_last_error(run, Event::LibraryError(slot(ZfsErrorCode::EZFS_UNKNOWN, "x"))) {
        Step::Call(call, run) => {
            assert_eq!(call, Call::SystemError);
            run
        }
        other => panic!("the system is read next: {:?}", other),
    };
    let system = SysError { code: 28, msg: String::from("No space left on device") };
    assert_eq!(
        lib.get_last_error(run, Event::SystemError(system.clone())),
        Step::Done(Error::Sys(system))
    );
}

// Handles are closed once.

#[test]
fn opened_then_closed_leaves_nothing_open() {
    let mut native = Native::new();
    let lib = init(&mut native);
    for name in ["tank", "tank/home", "tank/home@a", "tank/vol", "backup"] {
        let dataset = open_dataset(&mut native, &lib, name);
        assert_eq!(native.open_datasets(), 1);
        let handle = dataset.handle;
        close_dataset(&mut native, dataset);
        assert_eq!(native.open_datasets(), 0);
        assert_eq!(native.closed.last(), Some(&handle));
    }
    assert_eq!(native.closed.len(), 5);
    assert_eq!(native.open, vec![(lib.handle, Open::Library)]);
}

#[test]
fn pool_opened_then_closed_leaves_nothing_open() {
    let mut native = Native::new();
    let lib = init(&mut native);
    let pool = open_pool(&mut native, &lib, "backup");
    let handle = pool.handle;
    close_pool(&mut native, pool);
    assert_eq!(native.open_pools(), 0);
    assert_eq!(native.closed, vec![handle]);
}

#[test]
fn duplicate_is_closed_on_its_own() {
    let mut native = Native::new();
    let lib = init(&mut native);
    let first = open_dataset(&mut native, &lib, "tank/home");
    let copy = drive(&mut native, |run, event| first.duplicate(run, event), &mut no_callback);
    assert_ne!(copy.handle, first.handle);
    assert_eq!(copy.libzfs, first.libzfs);
    assert_eq!(native.open_datasets(), 2);
    let (one, other) = (first.handle, copy.handle);
    close_dataset(&mut native, copy);
    // The first is still usable.
    assert_eq!(name_of(&mut native, &first), "tank/home");
    assert_eq!(native.open_datasets(), 1);
    close_dataset(&mut native, first);
    assert_eq!(native.open_datasets(), 0);
    assert_eq!(native.closed, vec![other, one]);
    assert_eq!(native.count_calls("DatasetClose"), 2);
}

// Questions about a pool or a dataset.

#[test]
fn pool_name_and_state() {
    let mut native = Native::new();
    let lib = init(&mut native);
    let tank = open_pool(&mut native, &lib, "tank");
    let backup = open_pool(&mut native, &lib, "backup");
    let name = drive(&mut native, |run, event| tank.get_name(run, event), &mut no_callback);
    assert_eq!(name.as_str(), "tank");
    let state = drive(&mut native, |run, event| tank.get_state(run, event), &mut no_callback);
    assert_eq!(state, ZPoolState::Active);
    let state = drive(&mut native, |run, event| backup.get_state(run, event), &mut no_callback);
    assert_eq!(state, ZPoolState::Exported);
}

#[test]
fn dataset_name_type_and_pool() {
    let mut native = Native::new();
    let lib = init(&mut native);
    let snapshot = open_dataset(&mut native, &lib, "tank/home@b");
    assert_eq!(name_of(&mut native, &snapshot), "tank/home@b");
    let kind = drive(&mut native, |run, event| snapshot.get_type(run, event), &mut no_callback);
    assert_eq!(kind, DatasetType::Snapshot);
    let volume = open_dataset(&mut native, &lib, "tank/vol");
    let kind = drive(&mut native, |run, event| volume.get_type(run, event), &mut no_callback);
    assert_eq!(kind, DatasetType::Volume);
    let pool_name = drive(&mut native, |run, event| snapshot.get_pool_name(run, event), &mut no_callback);
    assert_eq!(pool_name.as_str(), "tank");
}

#[test]
fn pool_state_by_its_number() {
    let pool = ZPool { libzfs: 0x40, handle: 0x50, owned: true };
    for (raw, state) in [
        (0, ZPoolState::Active),
        (6, ZPoolState::Unavailable),
        (7, ZPoolState::PotentiallyActive),
    ] {
        let run = match pool.get_state(Run::new(), Event::Begin) {
            Step::Call(call, run) => {
                assert_eq!(call, Call::PoolState { pool: 0x50 });
                run
            }
            other => panic!("the state is asked: {:?}", other),
        };
        assert_eq!(pool.get_state(run, Event::PoolState(raw)), Step::Done(state));
        assert_eq!(u32::from(state), raw);
    }
}

#[test]
fn pool_of_a_dataset_is_borrowed() {
    let mut native = Native::new();
    let lib = init(&mut native);
    let home = open_dataset(&mut native, &lib, "tank/home");
    let once = drive(&mut native, |run, event| home.get_pool(run, event), &mut no_callback);
    let again = drive(&mut native, |run, event| home.get_pool(run, event), &mut no_callback);
    // The native library answers with the dataset's own pool handle, each time.
    assert_eq!(once.handle, again.handle);
    assert_ne!(once.handle, 0);
    assert_eq!(once.libzfs, lib.handle);
    assert!(!once.owned);
    assert!(!again.owned);
    let name = drive(&mut native, |run, event| once.get_name(run, event), &mut no_callback);
    let pool_name = drive(&mut native, |run, event| home.get_pool_name(run, event), &mut no_callback);
    assert_eq!(name, pool_name);
    assert_eq!(name.as_str(), "tank");
    // Closing both asks for no call: the handle is not theirs.
    assert_eq!(once.close(), None);
    assert_eq!(again.close(), None);
    assert_eq!(native.count_calls("PoolClose"), 0);
    // The dataset stays usable, and takes its pool handle with it when it is closed.
    assert_eq!(name_of(&mut native, &home), "tank/home");
    close_dataset(&mut native, home);
    assert_eq!(native.open, vec![(lib.handle, Open::Library)]);
}

#[test]
fn pool_opened_by_name_owns_its_handle() {
    let mut native = Native::new();
    let lib = init(&mut native);
    let pool = open_pool(&mut native, &lib, "tank");
    assert!(pool.owned);
    let handle = pool.handle;
    assert_eq!(pool.close(), Some(Call::PoolClose { pool: handle }));
    let pools = drive(&mut native, |run, event| lib.get_zpools(run, event), &mut no_callback)
        .expect("the pools");
    assert!(pools.iter().all(|pool| pool.owned));
}

#[test]
fn event_that_was_not_asked_for_changes_nothing() {
    let lib = LibZfs { handle: 0x40 };
    let name = text("tank");
    match lib.pool_by_name(&name, Run::new(), Event::Status(0)) {
        Step::Stray(run) => assert_eq!(run, Run::new()),
        other => panic!("nothing was asked yet: {:?}", other),
    }
    let run = match lib.pool_by_name(&name, Run::new(), Event::Begin) {
        Step::Call(_, run) => run,
        other => panic!("the pool is opened: {:?}", other),
    };
    match lib.pool_by_name(&name, run, Event::Returned) {
        Step::Stray(run) => assert_eq!(run.stage, Stage::Asked),
        other => panic!("a handle was asked for: {:?}", other),
    }
    // A null handle is never gathered.
    let dataset = Dataset { libzfs: 0x40, handle: 0x60 };
    let run = match dataset.get_snapshots(Run::new(), Event::Begin) {
        Step::Call(_, run) => run,
        other => panic!("the enumeration is asked: {:?}", other),
    };
    match dataset.get_snapshots(run, Event::Item(0)) {
        Step::Stray(run) => assert!(run.datasets.is_empty()),
        other => panic!("a null handle is no dataset: {:?}", other),
    }
}

// Enumerations.

#[test]
fn snapshots_in_the_order_of_the_library() {
    let mut native = Native::new();
    let lib = init(&mut native);
    let home = open_dataset(&mut native, &lib, "tank/home");
    let snapshots = drive(&mut native, |run, event| home.get_snapshots(run, event), &mut no_callback)
        .expect("the snapshots");
    assert_eq!(names_of(&mut native, &snapshots), vec!["tank/home@c", "tank/home@a", "tank/home@b"]);
    for snapshot in &snapshots {
        assert_eq!(snapshot.libzfs, lib.handle);
    }
    assert_eq!(native.count_calls("IterSnapshots "), 1);
}

#[test]
fn snapshots_oldest_first() {
    let mut native = Native::new();
    let lib = init(&mut native);
    let home = open_dataset(&mut native, &lib, "tank/home");
    let snapshots = drive(&mut native, |run, event| home.get_snapshots_ordered(run, event), &mut no_callback)
        .expect("the snapshots");
    let names = names_of(&mut native, &snapshots);
    assert_eq!(names, vec!["tank/home@a", "tank/home@b", "tank/home@c"]);
    let created: Vec<u64> = names.iter().map(|n| native.entry(n).created).collect();
    assert_eq!(created, vec![1, 2, 3]);
}

#[test]
fn list_and_callback_see_the_same_snapshots() {
    let mut native = Native::new();
    let lib = init(&mut native);
    let home = open_dataset(&mut native, &lib, "tank/home");
    let listed = drive(&mut native, |run, event| home.get_snapshots(run, event), &mut no_callback)
        .expect("the snapshots");
    let listed_names = names_of(&mut native, &listed);
    let mut called_names: Vec<String> = Vec::new();
    let result = drive(&mut native, |run, event| home.foreach_snapshot(run, event), &mut |native, snapshot| {
        called_names.push(name_of(native, &snapshot));
        close_dataset(native, snapshot);
    });
    assert_eq!(result, Ok(()));
    assert_eq!(called_names, listed_names);
    assert_eq!(called_names, vec!["tank/home@c", "tank/home@a", "tank/home@b"]);
}

#[test]
fn list_and_callback_see_the_same_snapshots_oldest_first() {
    let mut native = Native::new();
    let lib = init(&mut native);
    let home = open_dataset(&mut native, &lib, "tank/home");
    let listed = drive(&mut native, |run, event| home.get_snapshots_ordered(run, event), &mut no_callback)
        .expect("the snapshots");
    let listed_names = names_of(&mut native, &listed);
    let mut called_names: Vec<String> = Vec::new();
    let result = drive(
        &mut native,
        |run, event| home.foreach_snapshot_ordered(run, event),
        &mut |native, snapshot| {
            called_names.push(name_of(native, &snapshot));
            close_dataset(native, snapshot);
        },
    );
    assert_eq!(result, Ok(()));
    assert_eq!(called_names, listed_names);
    assert_eq!(called_names, vec!["tank/home@a", "tank/home@b", "tank/home@c"]);
}

#[test]
fn child_filesystems_one_level_down() {
    let mut native = Native::new();
    let lib = init(&mut native);
    let home = open_dataset(&mut native, &lib, "tank/home");
    let children = drive(&mut native, |run, event| home.get_child_filesystems(run, event), &mut no_callback)
        .expect("the children");
    assert_eq!(names_of(&mut native, &children), vec!["tank/home/alice", "tank/home/bob"]);
    let tank = open_dataset(&mut native, &lib, "tank");
    let children = drive(&mut native, |run, event| tank.get_child_filesystems(run, event), &mut no_callback)
        .expect("the children");
    assert_eq!(names_of(&mut native, &children), vec!["tank/home", "tank/vol"]);
}

#[test]
fn dependents_at_any_depth_and_of_any_type() {
    let mut native = Native::new();
    let lib = init(&mut native);
    let home = open_dataset(&mut native, &lib, "tank/home");
    let dependents = drive(&mut native, |run, event| home.get_all_dependents(run, event), &mut no_callback)
        .expect("the dependents");
    assert_eq!(
        names_of(&mut native, &dependents),
        vec![
            "tank/home@c",
            "tank/home@a",
            "tank/home@b",
            "tank/home#mark",
            "tank/home/alice",
            "tank/home/bob",
        ]
    );
}

#[test]
fn enumeration_of_nothing_is_an_empty_list() {
    let mut native = Native::new();
    let lib = init(&mut native);
    let alice = open_dataset(&mut native, &lib, "tank/home/alice");
    let snapshots = drive(&mut native, |run, event| alice.get_snapshots(run, event), &mut no_callback);
    assert_eq!(snapshots, Ok(Vec::new()));
    let mut calls = 0;
    let result = drive(&mut native, |run, event| alice.foreach_snapshot(run, event), &mut |_, _| calls += 1);
    assert_eq!(result, Ok(()));
    assert_eq!(calls, 0);
}

#[test]
fn failed_enumeration_returns_nothing_and_closes_what_it_gathered() {
    let mut native = Native::new();
    let lib = init(&mut native);
    let home = open_dataset(&mut native, &lib, "tank/home");
    native.enumeration_breaks = Some((2, -1));
    native.slot = slot(ZfsErrorCode::EZFS_IO, "I/O error");
    let before = native.closed.len();
    let result = drive(&mut native, |run, event| home.get_snapshots(run, event), &mut no_callback);
    assert_eq!(result, Err(Error::Zfs(slot(ZfsErrorCode::EZFS_IO, "I/O error"))));
    // Two snapshots had been pushed; both are closed, in the order in which they came.
    assert_eq!(native.closed.len(), before + 2);
    assert!(native.closed[before] < native.closed[before + 1]);
    assert_eq!(native.open_datasets(), 1);
    // The failure is read before anything is closed.
    let tail: Vec<&str> = native.log.iter().rev().take(3).map(|s| s.as_str()).collect();
    assert!(tail[2].starts_with("LibraryError"));
    assert!(tail[1].starts_with("DatasetClose"));
    assert!(tail[0].starts_with("DatasetClose"));
}

#[test]
fn failed_enumeration_with_unknown_code_reports_the_system_error() {
    let mut native = Native::new();
    let lib = init(&mut native);
    let home = open_dataset(&mut native, &lib, "tank/home");
    native.enumeration_breaks = Some((0, 5));
    native.slot = slot(ZfsErrorCode::EZFS_UNKNOWN, "unknown error");
    native.system = SysError { code: 4, msg: String::from("Interrupted system call") };
    let result = drive(&mut native, |run, event| home.get_all_dependents(run, event), &mut no_callback);
    assert_eq!(result, Err(Error::Sys(SysError { code: 4, msg: String::from("Interrupted system call") })));
    assert_eq!(native.count_calls("DatasetClose"), 0);
}

#[test]
fn failed_callback_enumeration_keeps_what_was_handed_out() {
    let mut native = Native::new();
    let lib = init(&mut native);
    let home = open_dataset(&mut native, &lib, "tank/home");
    native.enumeration_breaks = Some((2, 1));
    native.slot = slot(ZfsErrorCode::EZFS_IO, "I/O error");
    let mut seen: Vec<Dataset> = Vec::new();
    let result = drive(&mut native, |run, event| home.foreach_snapshot_ordered(run, event), &mut |_, snapshot| {
        seen.push(snapshot)
    });
    assert_eq!(result, Err(Error::Zfs(slot(ZfsErrorCode::EZFS_IO, "I/O error"))));
    // What the callback was given is still open, and the callback's to close.
    assert_eq!(seen.len(), 2);
    assert_eq!(native.count_calls("DatasetClose"), 0);
    assert_eq!(names_of(&mut native, &seen), vec!["tank/home@a", "tank/home@b"]);
    close_all(&mut native, seen);
    assert_eq!(native.open_datasets(), 1);
}

// Pools.

#[test]
fn all_pools_are_listed() {
    let mut native = Native::new();
    let lib = init(&mut native);
    let pools = drive(&mut native, |run, event| lib.get_zpools(run, event), &mut no_callback)
        .expect("the pools");
    assert_eq!(pools.len(), 2);
    let names: Vec<String> = pools.iter().map(|p| native.pool_name(p.handle)).collect();
    assert_eq!(names, vec!["tank", "backup"]);
    for pool in &pools {
        assert_eq!(pool.libzfs, lib.handle);
    }
}

#[test]
fn failed_listing_of_pools_closes_what_it_gathered() {
    let mut native = Native::new();
    let lib = init(&mut native);
    native.enumeration_breaks = Some((1, -1));
    native.slot = slot(ZfsErrorCode::EZFS_PERM, "permission denied");
    let result = drive(&mut native, |run, event| lib.get_zpools(run, event), &mut no_callback);
    assert_eq!(result, Err(Error::Zfs(slot(ZfsErrorCode::EZFS_PERM, "permission denied"))));
    assert_eq!(native.count_calls("PoolClose"), 1);
    assert_eq!(native.open_pools(), 0);
}

#[test]
fn pool_lists_filesystems_and_volumes_only() {
    let mut native = Native::new();
    let lib = init(&mut native);
    let tank = open_pool(&mut native, &lib, "tank");
    let datasets = drive(&mut native, |run, event| tank.get_datasets(run, event), &mut no_callback)
        .expect("the datasets");
    assert_eq!(
        names_of(&mut native, &datasets),
        vec!["tank", "tank/home", "tank/home/alice", "tank/home/bob", "tank/vol"]
    );
    // The four snapshots and the bookmark were closed; what is listed is open.
    assert_eq!(native.count_calls("DatasetClose"), 5);
    assert_eq!(native.open_datasets(), 5);
    // The root was opened as a filesystem, by the pool's name.
    let opened: Vec<&String> = native.log.iter().filter(|l| l.starts_with("DatasetOpen")).collect();
    assert_eq!(opened.len(), 1);
    assert!(opened[0].contains("DatasetTypeMask(1)"));
    close_all(&mut native, datasets);
    assert_eq!(native.open_datasets(), 0);
}

#[test]
fn pool_without_root_filesystem_reports_the_failure() {
    let mut native = Native::new();
    native.pools.push(("ghost", 6));
    let lib = init(&mut native);
    let ghost = open_pool(&mut native, &lib, "ghost");
    native.slot = slot(ZfsErrorCode::EZFS_NOENT, "no such pool or dataset");
    let result = drive(&mut native, |run, event| ghost.get_datasets(run, event), &mut no_callback);
    assert_eq!(result, Err(Error::Zfs(slot(ZfsErrorCode::EZFS_NOENT, "no such pool or dataset"))));
    assert_eq!(native.count_calls("IterDependents"), 0);
    assert_eq!(native.open_datasets(), 0);
}

#[test]
fn failed_listing_of_a_pool_closes_the_root_too() {
    let mut native = Native::new();
    let lib = init(&mut native);
    let tank = open_pool(&mut native, &lib, "tank");
    native.enumeration_breaks = Some((3, 2));
    native.slot = slot(ZfsErrorCode::EZFS_IO, "I/O error");
    let result = drive(&mut native, |run, event| tank.get_datasets(run, event), &mut no_callback);
    assert_eq!(result, Err(Error::Zfs(slot(ZfsErrorCode::EZFS_IO, "I/O error"))));
    assert_eq!(native.count_calls("DatasetClose"), 4);
    assert_eq!(native.count_calls("DatasetType"), 0);
    assert_eq!(native.open_datasets(), 0);
}

// Batches.

#[test]
fn empty_batch_succeeds_without_the_native_call() {
    let mut native = Native::new();
    let lib = init(&mut native);
    let none: Vec<SafeString> = Vec::new();
    let created = drive(&mut native, |run, event| lib.create_snapshots(&none, run, event), &mut no_callback);
    assert_eq!(created, Ok(()));
    let destroyed =
        drive(&mut native, |run, event| lib.destroy_snapshots(&none, run, event), &mut no_callback);
    assert_eq!(destroyed, Ok(()));
    assert!(native.submitted.is_empty());
    assert_eq!(native.count_calls("SnapshotCreate"), 0);
    assert_eq!(native.count_calls("SnapshotDestroy"), 0);
    // Each set was allocated and freed.
    assert_eq!(native.count_calls("NameSetAlloc"), 2);
    assert_eq!(native.count_calls("NameSetFree"), 2);
    assert_eq!(native.open_name_sets(), 0);
}

#[test]
fn batch_creates_the_named_snapshots_in_one_call() {
    let mut native = Native::new();
    let lib = init(&mut native);
    let names = vec![text("a@snap1"), text("a@snap2")];
    let result = drive(&mut native, |run, event| lib.create_snapshots(&names, run, event), &mut no_callback);
    assert_eq!(result, Ok(()));
    assert_eq!(
        native.submitted,
        vec![(String::from("create"), vec![String::from("a@snap1"), String::from("a@snap2")])]
    );
    assert_eq!(native.count_calls("SnapshotCreate"), 1);
    assert_eq!(native.count_calls("NameSetAdd"), 2);
    assert_eq!(native.open_name_sets(), 0);
}

#[test]
fn batch_destroys_the_named_snapshots_in_one_call() {
    let mut native = Native::new();
    let lib = init(&mut native);
    let names = vec![text("a@snap1"), text("a@snap2")];
    let result =
        drive(&mut native, |run, event| lib.destroy_snapshots(&names, run, event), &mut no_callback);
    assert_eq!(result, Ok(()));
    assert_eq!(
        native.submitted,
        vec![(String::from("destroy"), vec![String::from("a@snap1"), String::from("a@snap2")])]
    );
    assert_eq!(native.count_calls("SnapshotDestroy"), 1);
    assert!(native.log.iter().any(|l| l.starts_with("SnapshotDestroy") && l.contains("defer: false")));
    assert_eq!(native.open_name_sets(), 0);
}

#[test]
fn failed_batch_reports_the_library_error_and_frees_the_set() {
    let mut native = Native::new();
    let lib = init(&mut native);
    native.batch_status = 17;
    native.slot = slot(ZfsErrorCode::EZFS_EXISTS, "pool or dataset already exists");
    let names = vec![text("a@snap1"), text("a@snap2")];
    let created = drive(&mut native, |run, event| lib.create_snapshots(&names, run, event), &mut no_callback);
    assert_eq!(created, Err(Error::Zfs(slot(ZfsErrorCode::EZFS_EXISTS, "pool or dataset already exists"))));
    let destroyed =
        drive(&mut native, |run, event| lib.destroy_snapshots(&names, run, event), &mut no_callback);
    assert_eq!(destroyed, Err(Error::Zfs(slot(ZfsErrorCode::EZFS_EXISTS, "pool or dataset already exists"))));
    assert_eq!(native.submitted.len(), 2);
    assert_eq!(native.submitted[0].1, vec![String::from("a@snap1"), String::from("a@snap2")]);
    assert_eq!(native.submitted[1].1, vec![String::from("a@snap1"), String::from("a@snap2")]);
    assert_eq!(native.open_name_sets(), 0);
    // The failure is read right after the call, before the set is freed.
    let tail: Vec<&str> = native.log.iter().rev().take(3).map(|s| s.as_str()).collect();
    assert!(tail[2].starts_with("SnapshotDestroy"));
    assert!(tail[1].starts_with("LibraryError"));
    assert!(tail[0].starts_with("NameSetFree"));
}

#[test]
fn failed_batch_with_unknown_code_reports_the_system_error() {
    let mut native = Native::new();
    let lib = init(&mut native);
    native.batch_status = 1;
    native.slot = slot(ZfsErrorCode::EZFS_UNKNOWN, "unknown error");
    native.system = SysError { code: 1, msg: String::from("Operation not permitted") };
    let names = vec![text("tank/home@new")];
    let result = drive(&mut native, |run, event| lib.create_snapshots(&names, run, event), &mut no_callback);
    assert_eq!(result, Err(Error::Sys(SysError { code: 1, msg: String::from("Operation not permitted") })));
    assert_eq!(native.open_name_sets(), 0);
}

#[test]
fn batch_without_a_set_reports_the_failure() {
    let mut native = Native::new();
    let lib = init(&mut native);
    native.alloc_status = 12;
    native.slot = slot(ZfsErrorCode::EZFS_NOMEM, "out of memory");
    let names = vec![text("a@snap1")];
    let result = drive(&mut native, |run, event| lib.create_snapshots(&names, run, event), &mut no_callback);
    assert_eq!(result, Err(Error::Zfs(slot(ZfsErrorCode::EZFS_NOMEM, "out of memory"))));
    assert!(native.submitted.is_empty());
    assert_eq!(native.count_calls("NameSetAdd"), 0);
    assert_eq!(native.count_calls("NameSetFree"), 0);
}

#[test]
fn name_set_is_built_name_by_name() {
    let mut native = Native::new();
    let lib = init(&mut native);
    let names = vec![text("tank/home@x"), text("tank/vol@x"), text("tank/home@x")];
    let set = drive(&mut native, |run, event| lib.build_nvlist(&names, run, event), &mut no_callback)
        .expect("a name set");
    assert_eq!(native.count_calls("NameSetAdd"), 3);
    assert_eq!(
        native.held(set),
        Open::NameSet(vec![String::from("tank/vol@x"), String::from("tank/home@x")])
    );
}
