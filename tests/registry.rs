use agent_sandbox::commands::SpawnArgs;
use agent_sandbox::registry::{port_outcome, PtyError, PtyManager, PtyPort, PtySession};
use std::cell::RefCell;

struct FakePort {
    input: RefCell<Vec<String>>,
    sizes: RefCell<Vec<(u16, u16)>>,
    broken: bool,
}

impl FakePort {
    fn new() -> FakePort {
        FakePort { input: RefCell::new(Vec::new()), sizes: RefCell::new(Vec::new()), broken: false }
    }

    fn broken() -> FakePort {
        FakePort { input: RefCell::new(Vec::new()), sizes: RefCell::new(Vec::new()), broken: true }
    }
}

impl PtyPort for FakePort {
    fn write_input(&self, data: &str) -> Result<(), String> {
        if self.broken {
            return Err("closed".to_string());
        }
        self.input.borrow_mut().push(data.to_string());
        Ok(())
    }

    fn set_size(&self, cols: u16, rows: u16) -> Result<(), String> {
        if self.broken {
            return Err("closed".to_string());
        }
        self.sizes.borrow_mut().push((cols, rows));
        Ok(())
    }
}

fn args(agent: &str, cols: Option<u16>, rows: Option<u16>) -> SpawnArgs {
    SpawnArgs { agent_id: agent.to_string(), cmd: vec![], cwd: None, cols, rows }
}

#[test]
fn spawn_then_list_has_exactly_one_entry() {
    let mut mgr: PtyManager<FakePort> = PtyManager::new();
    let other = mgr.spawn("other".to_string(), 80, 24, FakePort::new()).unwrap();
    let (cols, rows) = args("agent-1", None, None).geometry();
    let id = mgr.spawn("agent-1".to_string(), cols, rows, FakePort::new()).unwrap();
    assert_ne!(id, other);
    let list = mgr.list();
    assert_eq!(list.len(), 2);
    let mine: Vec<_> = list.iter().filter(|s| s.session_id == id).collect();
    assert_eq!(mine.len(), 1);
    assert_eq!(mine[0].agent_id, "agent-1");
    assert!(mine[0].alive);
    assert_eq!((mine[0].cols, mine[0].rows), (220, 50));
}

#[test]
fn spawn_keeps_requested_geometry() {
    let mut mgr: PtyManager<FakePort> = PtyManager::new();
    let (cols, rows) = args("a", Some(100), Some(30)).geometry();
    let id = mgr.spawn("a".to_string(), cols, rows, FakePort::new()).unwrap();
    let list = mgr.list();
    assert_eq!(list.len(), 1);
    assert_eq!(list[0].session_id, id);
    assert_eq!((list[0].cols, list[0].rows), (100, 30));
}

#[test]
fn session_ids_are_hyphenated_uuids() {
    let mut mgr: PtyManager<FakePort> = PtyManager::new();
    let id = mgr.spawn("a".to_string(), 80, 24, FakePort::new()).unwrap();
    assert_eq!(id.chars().count(), 36);
    assert_eq!(id.matches('-').count(), 4);
}

#[test]
fn write_resize_kill_on_registered_session() {
    let mut mgr: PtyManager<FakePort> = PtyManager::new();
    let id = mgr.spawn("a".to_string(), 80, 24, FakePort::new()).unwrap();
    assert_eq!(mgr.write(&id, "ls\n"), Ok(()));
    assert_eq!(mgr.resize(&id, 120, 40), Ok(()));
    let port = &mgr.get(&id).unwrap().port;
    assert_eq!(*port.input.borrow(), vec!["ls\n".to_string()]);
    assert_eq!(*port.sizes.borrow(), vec![(120, 40)]);
    // resize does not change the recorded geometry
    assert_eq!((mgr.list()[0].cols, mgr.list()[0].rows), (80, 24));
    mgr.kill(&id);
    let after_one = mgr.list();
    assert!(!after_one[0].alive);
    mgr.kill(&id);
    assert_eq!(mgr.list(), after_one);
}

#[test]
fn unknown_session_is_not_found() {
    let mut mgr: PtyManager<FakePort> = PtyManager::new();
    let id = mgr.spawn("a".to_string(), 80, 24, FakePort::new()).unwrap();
    let before = mgr.list();
    assert_eq!(mgr.write("no-such-id", "x"), Err(PtyError::SessionNotFound));
    assert_eq!(mgr.resize("no-such-id", 10, 10), Err(PtyError::SessionNotFound));
    assert!(matches!(mgr.get("no-such-id"), Err(PtyError::SessionNotFound)));
    mgr.kill("no-such-id");
    assert_eq!(mgr.list(), before);
    assert!(mgr.list().iter().all(|s| s.session_id != "no-such-id"));
    assert!(mgr.list().iter().any(|s| s.session_id == id));
}

#[test]
fn empty_registry_lists_nothing() {
    let mgr: PtyManager<FakePort> = PtyManager::new();
    assert!(mgr.list().is_empty());
}

#[test]
fn failing_port_gives_io_failure() {
    let mut mgr: PtyManager<FakePort> = PtyManager::new();
    let id = mgr.spawn("a".to_string(), 80, 24, FakePort::broken()).unwrap();
    assert_eq!(mgr.write(&id, "x"), Err(PtyError::IoFailure));
    assert_eq!(mgr.resize(&id, 1, 1), Err(PtyError::IoFailure));
}

#[test]
fn spawned_ids_are_fresh() {
    let mut mgr: PtyManager<FakePort> = PtyManager::new();
    let mut ids: Vec<String> = Vec::new();
    for _ in 0..20 {
        let id = mgr.spawn("a".to_string(), 80, 24, FakePort::new()).unwrap();
        assert!(!ids.contains(&id));
        assert!(id.chars().all(|c| c == '-' || c.is_ascii_digit() || ('a'..='f').contains(&c)));
        ids.push(id);
    }
    assert_eq!(mgr.list().len(), 20);
}

#[test]
fn killed_session_stays_dead() {
    let mut mgr: PtyManager<FakePort> = PtyManager::new();
    let a = mgr.spawn("a".to_string(), 80, 24, FakePort::new()).unwrap();
    mgr.kill(&a);
    let b = mgr.spawn("b".to_string(), 80, 24, FakePort::new()).unwrap();
    mgr.kill(&b);
    mgr.spawn("c".to_string(), 80, 24, FakePort::new()).unwrap();
    let list = mgr.list();
    assert_eq!(list.len(), 3);
    let mine: Vec<_> = list.iter().filter(|s| s.session_id == a).collect();
    assert_eq!(mine.len(), 1);
    assert!(!mine[0].alive);
}

#[test]
fn port_result_maps_to_library_result() {
    assert_eq!(port_outcome(Ok(())), Ok(()));
    assert_eq!(port_outcome(Err("broken pipe".to_string())), Err(PtyError::IoFailure));
}

#[test]
fn many_writes_and_teardown_leave_consistent_list() {
    let mut mgr: PtyManager<FakePort> = PtyManager::new();
    let a = mgr.spawn("a".to_string(), 80, 24, FakePort::new()).unwrap();
    let b = mgr.spawn("b".to_string(), 80, 24, FakePort::new()).unwrap();
    for i in 0..50 {
        let target = if i % 2 == 0 { &a } else { &b };
        assert_eq!(mgr.write(target, "x"), Ok(()));
        if i == 25 {
            // the reader of `a` reaches end of stream
            mgr.kill(&a);
        }
    }
    mgr.kill(&b);
    let list = mgr.list();
    assert_eq!(list.len(), 2);
    assert_eq!(list.iter().filter(|s| s.session_id == a).count(), 1);
    assert_eq!(list.iter().filter(|s| s.session_id == b).count(), 1);
    assert!(list.iter().all(|s| !s.alive));
    assert_eq!(mgr.get(&a).unwrap().port.input.borrow().len(), 25);
}

#[test]
fn session_kill_flips_alive_only() {
    let mut s = PtySession {
        id: "s".to_string(),
        agent_id: "a".to_string(),
        cols: 10,
        rows: 5,
        alive: true,
        port: FakePort::new(),
    };
    assert_eq!(s.write("hi"), Ok(()));
    assert_eq!(s.resize(3, 4), Ok(()));
    s.kill();
    assert!(!s.alive);
    assert_eq!((s.cols, s.rows), (10, 5));
}
