use std::sync::atomic::{AtomicUsize, Ordering};
use std::sync::Arc;

use wif::modules::{ModuleHost, WifModule};

struct Probe {
    name: &'static str,
    clock: Arc<AtomicUsize>,
    started: Arc<AtomicUsize>,
    stopped: Arc<AtomicUsize>,
    fail_start: bool,
}

impl WifModule for Probe {
    fn name(&self) -> &str {
        self.name
    }

    fn initialize(&self) -> anyhow::Result<()> {
        self.started.store(self.clock.fetch_add(1, Ordering::SeqCst) + 1, Ordering::SeqCst);
        if self.fail_start {
            return Err(anyhow::Error::msg(format!("{} failed", self.name)));
        }
        Ok(())
    }

    fn shutdown(&self) -> anyhow::Result<()> {
        self.stopped.store(self.clock.fetch_add(1, Ordering::SeqCst) + 1, Ordering::SeqCst);
        Ok(())
    }
}

struct Quiet;

impl WifModule for Quiet {
    fn name(&self) -> &str {
        "quiet"
    }
}

fn probe(name: &'static str, clock: &Arc<AtomicUsize>, fail_start: bool) -> (Probe, Arc<AtomicUsize>, Arc<AtomicUsize>) {
    let started = Arc::new(AtomicUsize::new(0));
    let stopped = Arc::new(AtomicUsize::new(0));
    (
        Probe { name, clock: clock.clone(), started: started.clone(), stopped: stopped.clone(), fail_start },
        started,
        stopped,
    )
}

#[test]
fn host_lists_modules_in_registration_order() {
    let mut host: ModuleHost = ModuleHost::new();
    assert!(host.list().is_empty());
    host.register(Box::new(Quiet));
    let clock = Arc::new(AtomicUsize::new(0));
    let (p, _, _) = probe("second", &clock, false);
    host.register(Box::new(p));
    assert_eq!(host.list(), vec!["quiet", "second"]);
}

#[test]
fn host_starts_in_order_and_stops_in_reverse() {
    let clock = Arc::new(AtomicUsize::new(0));
    let (a, a_start, a_stop) = probe("a", &clock, false);
    let (b, b_start, b_stop) = probe("b", &clock, false);
    let mut host: ModuleHost = ModuleHost::default();
    host.register(Box::new(a));
    host.register(Box::new(b));
    host.initialize_all().unwrap();
    host.shutdown_all().unwrap();
    assert_eq!(a_start.load(Ordering::SeqCst), 1);
    assert_eq!(b_start.load(Ordering::SeqCst), 2);
    assert_eq!(b_stop.load(Ordering::SeqCst), 3);
    assert_eq!(a_stop.load(Ordering::SeqCst), 4);
}

#[test]
fn host_stops_starting_at_first_failure() {
    let clock = Arc::new(AtomicUsize::new(0));
    let (a, _, _) = probe("a", &clock, true);
    let (b, b_start, _) = probe("b", &clock, false);
    let mut host: ModuleHost = ModuleHost::new();
    host.register(Box::new(a));
    host.register(Box::new(b));
    let err = host.initialize_all().unwrap_err();
    assert_eq!(err.to_string(), "a failed");
    assert_eq!(b_start.load(Ordering::SeqCst), 0);
}

#[test]
fn empty_host_starts_and_stops() {
    let host: ModuleHost = ModuleHost::new();
    assert!(host.initialize_all().is_ok());
    assert!(host.shutdown_all().is_ok());
}
