use kernel_test::deferred_call::{DeferredCall, DeferredCallClient, Dispatcher};
use kernel_test::output::Transcript;

/// Counts its callbacks, and sets its handle again while `rearm` lasts.
struct Counter {
    handle: DeferredCall,
    calls: usize,
    rearm: usize,
}

impl Counter {
    fn new(dispatcher: &mut Dispatcher) -> Counter {
        let mut counter = Counter { handle: dispatcher.create(), calls: 0, rearm: 0 };
        counter.register(dispatcher);
        counter
    }
}

impl DeferredCallClient for Counter {
    fn handle_deferred_call(&mut self, dispatcher: &mut Dispatcher, out: &mut Transcript) {
        self.calls += 1;
        out.emit(format!("call {}", self.calls));
        if self.rearm > 0 {
            self.rearm -= 1;
            dispatcher.set(&self.handle);
        }
    }

    fn register(&mut self, dispatcher: &mut Dispatcher) {
        dispatcher.register(&self.handle);
    }
}

fn texts(out: &Transcript) -> Vec<String> {
    out.lines().clone()
}

#[test]
fn new_dispatcher_has_nothing_to_do() {
    let dispatcher = Dispatcher::new();
    assert!(!dispatcher.has_tasks());
    assert!(dispatcher.verify_setup());
}

#[test]
fn handles_are_numbered_in_order() {
    let mut dispatcher = Dispatcher::new();
    let a = dispatcher.create();
    let b = dispatcher.create();
    let c = dispatcher.create();
    assert_eq!(a.index(), 0);
    assert_eq!(b.index(), 1);
    assert_eq!(c.index(), 2);
    assert!(dispatcher.is_known(&c));
    assert!(!dispatcher.is_registered(&a));
    assert!(!dispatcher.is_pending(&a));
}

#[test]
fn handle_of_a_larger_dispatcher_is_unknown() {
    let mut large = Dispatcher::new();
    large.create();
    let second = large.create();
    let mut small = Dispatcher::new();
    small.create();
    assert!(!small.is_known(&second));
    assert!(!small.is_registered(&second));
    assert!(!small.is_pending(&second));
    assert!(!small.take(&second));
}

#[test]
fn verify_setup_wants_every_handle_registered() {
    let mut dispatcher = Dispatcher::new();
    let a = dispatcher.create();
    let b = dispatcher.create();
    assert!(!dispatcher.verify_setup());
    dispatcher.register(&a);
    assert!(dispatcher.is_registered(&a));
    assert!(!dispatcher.verify_setup());
    dispatcher.register(&b);
    assert!(dispatcher.verify_setup());
}

#[test]
fn register_keeps_the_pending_mark() {
    let mut dispatcher = Dispatcher::new();
    let a = dispatcher.create();
    dispatcher.register(&a);
    dispatcher.set(&a);
    dispatcher.register(&a);
    assert!(dispatcher.is_pending(&a));
    assert!(dispatcher.is_registered(&a));
}

#[test]
fn set_marks_only_its_own_handle() {
    let mut dispatcher = Dispatcher::new();
    let a = dispatcher.create();
    let b = dispatcher.create();
    dispatcher.register(&a);
    dispatcher.register(&b);
    dispatcher.set(&b);
    assert!(!dispatcher.is_pending(&a));
    assert!(dispatcher.is_pending(&b));
    assert!(dispatcher.has_tasks());
}

#[test]
fn take_clears_the_mark_and_reports_it_once() {
    let mut dispatcher = Dispatcher::new();
    let a = dispatcher.create();
    dispatcher.register(&a);
    assert!(!dispatcher.take(&a));
    dispatcher.set(&a);
    assert!(dispatcher.take(&a));
    assert!(!dispatcher.is_pending(&a));
    assert!(dispatcher.is_registered(&a));
    assert!(!dispatcher.take(&a));
    assert!(!dispatcher.has_tasks());
}

#[test]
fn set_twice_before_service_calls_back_once() {
    let mut dispatcher = Dispatcher::new();
    let mut out = Transcript::new();
    let mut counter = Counter::new(&mut dispatcher);
    let handle = counter.handle;
    dispatcher.set(&handle);
    dispatcher.set(&handle);
    assert!(dispatcher.service(&handle, &mut counter, &mut out));
    assert!(!dispatcher.service(&handle, &mut counter, &mut out));
    assert!(!dispatcher.service(&handle, &mut counter, &mut out));
    assert_eq!(counter.calls, 1);
    assert_eq!(texts(&out), vec!["call 1"]);
    assert!(!dispatcher.has_tasks());
}

#[test]
fn service_without_request_does_not_call_back() {
    let mut dispatcher = Dispatcher::new();
    let mut out = Transcript::new();
    let mut counter = Counter::new(&mut dispatcher);
    let handle = counter.handle;
    assert!(!dispatcher.service(&handle, &mut counter, &mut out));
    assert_eq!(counter.calls, 0);
    assert_eq!(out.len(), 0);
}

#[test]
fn callback_that_sets_itself_again_waits_for_the_next_pass() {
    let mut dispatcher = Dispatcher::new();
    let mut out = Transcript::new();
    let mut counter = Counter::new(&mut dispatcher);
    counter.rearm = 2;
    let handle = counter.handle;
    dispatcher.set(&handle);

    assert!(dispatcher.service(&handle, &mut counter, &mut out));
    assert_eq!(counter.calls, 1);
    assert!(dispatcher.is_pending(&handle));

    assert!(dispatcher.service(&handle, &mut counter, &mut out));
    assert_eq!(counter.calls, 2);
    assert!(dispatcher.is_pending(&handle));

    assert!(dispatcher.service(&handle, &mut counter, &mut out));
    assert_eq!(counter.calls, 3);
    assert!(!dispatcher.is_pending(&handle));
    assert!(!dispatcher.service(&handle, &mut counter, &mut out));
    assert_eq!(counter.calls, 3);
}

#[test]
fn next_pending_walks_a_pass_in_ascending_order() {
    let mut dispatcher = Dispatcher::new();
    let handles: Vec<DeferredCall> = (0..5).map(|_| dispatcher.create()).collect();
    for handle in &handles {
        dispatcher.register(handle);
    }
    dispatcher.set(&handles[3]);
    dispatcher.set(&handles[1]);
    dispatcher.set(&handles[4]);
    dispatcher.set(&handles[1]);

    let mut serviced = Vec::new();
    let mut from = 0;
    while let Some(id) = dispatcher.next_pending(from) {
        serviced.push(id);
        from = id + 1;
    }
    assert_eq!(serviced, vec![1, 3, 4]);
    assert!(!dispatcher.has_tasks());
    assert_eq!(dispatcher.next_pending(0), None);
}

#[test]
fn next_pending_skips_what_lies_before_the_cursor() {
    let mut dispatcher = Dispatcher::new();
    let a = dispatcher.create();
    let b = dispatcher.create();
    dispatcher.register(&a);
    dispatcher.register(&b);
    dispatcher.set(&a);
    assert_eq!(dispatcher.next_pending(1), None);
    assert!(dispatcher.is_pending(&a));
    assert_eq!(dispatcher.next_pending(7), None);
    assert_eq!(dispatcher.next_pending(0), Some(0));
    assert!(!dispatcher.is_pending(&a));
    assert!(!dispatcher.is_pending(&b));
}

#[test]
fn mark_set_behind_the_cursor_is_kept_for_the_next_pass() {
    let mut dispatcher = Dispatcher::new();
    let a = dispatcher.create();
    let b = dispatcher.create();
    dispatcher.register(&a);
    dispatcher.register(&b);
    dispatcher.set(&a);
    assert_eq!(dispatcher.next_pending(0), Some(0));
    dispatcher.set(&a);
    dispatcher.set(&b);
    assert_eq!(dispatcher.next_pending(1), Some(1));
    assert_eq!(dispatcher.next_pending(2), None);
    assert!(dispatcher.has_tasks());
    assert_eq!(dispatcher.next_pending(0), Some(0));
    assert!(!dispatcher.has_tasks());
}
