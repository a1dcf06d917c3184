//! The kernel test runner: walks the registry one test per deferred call.
//!
//! `run_all` announces the suite and asks for the first callback. Each
//! callback runs one test, reports it, moves the cursor on and asks for the
//! next callback; the callback that finds the cursor at the end reports the
//! totals, and the runner is complete. No test is started from inside another
//! test's step, so the stack does not grow with the registry.

use vstd::prelude::*;
use crate::deferred_call::{DeferredCall, DeferredCallClient, Dispatcher};
use crate::mpu::{kernel_tests, Architecture, MpuTest};
use crate::output::{TestOutput, Transcript};

verus! {

/// Result of a test execution.
#[derive(Clone, Copy, Debug, PartialEq, Eq)]
pub enum TestResult {
    Pass,
    /// The test failed; the bytes describe the assertion that did.
    Fail(&'static [u8]),
}

impl TestResult {
    /// Whether this is a failure whose diagnostic spells `text`.
    pub open spec fn fails_with(self, text: Seq<char>) -> bool {
        self matches TestResult::Fail(msg) && msg@ == vstd::utf8::encode_utf8(text)
    }

    /// A failure with `msg` as its diagnostic.
    pub fn fail(msg: &'static str) -> (result: TestResult)
        ensures
            result.fails_with(msg@),
    {
        TestResult::Fail(msg.as_bytes())
    }

    /// A pass if `condition` holds, else a failure with `msg` as its
    /// diagnostic.
    pub fn check(condition: bool, msg: &'static str) -> (result: TestResult)
        ensures
            condition ==> result is Pass,
            !condition ==> result.fails_with(msg@),
    {
        if condition {
            TestResult::Pass
        } else {
            TestResult::fail(msg)
        }
    }
}

/// Something that can be run as a synchronous test: an ordinary computation
/// that returns its result.
pub trait SyncTest {
    /// Whether the test may be run. Always, unless the test says otherwise.
    open spec fn runnable(&self) -> bool {
        true
    }

    /// Whether a run of the test may come back with `result`. With any
    /// result, unless the test says otherwise.
    open spec fn may_return(&self, result: TestResult) -> bool {
        true
    }

    /// Runs the test to completion.
    fn run(&self) -> (result: TestResult)
        requires
            self.runnable(),
        ensures
            self.may_return(result),
    ;
}

/// Every function without arguments that returns a result is a test.
impl<F: Fn() -> TestResult> SyncTest for F {
    open spec fn runnable(&self) -> bool {
        call_requires(*self, ())
    }

    open spec fn may_return(&self, result: TestResult) -> bool {
        call_ensures(*self, (), result)
    }

    fn run(&self) -> (result: TestResult) {
        self()
    }
}

/// The ways in which a test can be run.
pub enum TestFunction<T> {
    /// Run to completion within one step.
    Sync(T),
}

/// Descriptor for a registered test.
pub struct TestDescriptor<T> {
    pub name: &'static str,
    pub test_fn: TestFunction<T>,
}

impl<T: SyncTest> TestDescriptor<T> {
    /// Whether the descriptor's function may be run.
    pub open spec fn runnable(&self) -> bool {
        match self.test_fn {
            TestFunction::Sync(test) => test.runnable(),
        }
    }

    /// Whether a run of the descriptor's function may come back with `result`.
    pub open spec fn may_return(&self, result: TestResult) -> bool {
        match self.test_fn {
            TestFunction::Sync(test) => test.may_return(result),
        }
    }
}

/// Where a runner stands.
pub enum RunnerState {
    /// Not started.
    Idle,
    /// Started; the next callback handles the test at this position, or
    /// closes the suite if the position is the registry's length.
    Dispatching(nat),
    /// The totals are reported. Nothing follows.
    Complete,
}

/// What a runner has counted so far.
pub struct RunnerView {
    pub state: RunnerState,
    pub passed: nat,
    pub failed: nat,
}

/// The line that reports `result` for the test `name`.
pub open spec fn result_line(name: Seq<char>, result: TestResult) -> Seq<char> {
    match result {
        TestResult::Pass => crate::output::test_pass_line(name),
        TestResult::Fail(msg) => crate::output::test_fail_line(name, msg@),
    }
}

/// The runner after the test under its cursor came back with `result`.
pub open spec fn after_result(v: RunnerView, result: TestResult) -> RunnerView {
    RunnerView {
        state: match v.state {
            RunnerState::Dispatching(i) => RunnerState::Dispatching(i + 1),
            other => other,
        },
        passed: if result is Pass { v.passed + 1 } else { v.passed },
        failed: if result is Fail { v.failed + 1 } else { v.failed },
    }
}

/// How many of `results` are passes.
pub open spec fn passes(results: Seq<TestResult>) -> nat
    decreases results.len(),
{
    if results.len() == 0 {
        0
    } else {
        passes(results.drop_last()) + if results.last() is Pass { 1nat } else { 0nat }
    }
}

/// How many of `results` are failures.
pub open spec fn failures(results: Seq<TestResult>) -> nat
    decreases results.len(),
{
    if results.len() == 0 {
        0
    } else {
        failures(results.drop_last()) + if results.last() is Fail { 1nat } else { 0nat }
    }
}

/// The lines of the tests that have come back with `results`, in order: for
/// each its start line, then its result line.
pub open spec fn test_lines(names: Seq<Seq<char>>, results: Seq<TestResult>) -> Seq<Seq<char>>
    decreases results.len(),
{
    if results.len() == 0 {
        Seq::empty()
    } else {
        let i = results.len() - 1;
        test_lines(names, results.drop_last()).push(crate::output::test_start_line(names[i])).push(
            result_line(names[i], results[i]),
        )
    }
}

/// The whole report of a suite whose tests came back with `results`.
pub open spec fn suite_transcript(names: Seq<Seq<char>>, results: Seq<TestResult>) -> Seq<Seq<char>> {
    seq![crate::output::suite_start_line(names.len())] + test_lines(names, results)
        + seq![crate::output::suite_complete_line(passes(results), failures(results))]
}

/// What one callback does to a runner, the dispatcher's flags and the
/// transcript.
///
/// With a test under the cursor: the test is announced and run, and for the
/// result that came back, a line is written, a counter and the cursor go up
/// by one and the runner's handle is pending again. With the cursor at the
/// end: the totals are written and the runner is complete. An idle or
/// complete runner does nothing.
pub open spec fn step_taken<T: SyncTest>(
    before: KernelTestRunner<T>,
    after: KernelTestRunner<T>,
    flags_before: Seq<crate::deferred_call::ClientFlags>,
    flags_after: Seq<crate::deferred_call::ClientFlags>,
    out_before: Seq<Seq<char>>,
    out_after: Seq<Seq<char>>,
) -> bool {
    match before@.state {
        RunnerState::Dispatching(i) => if i < before.tests().len() {
            &&& exists|result: TestResult| #[trigger]
                ran_test(before, after, out_before, out_after, i as int, result)
            &&& flags_after == crate::deferred_call::with_pending(flags_before, before.handle().id())
        } else {
            &&& after@ == (RunnerView { state: RunnerState::Complete, ..before@ })
            &&& out_after == out_before.push(
                crate::output::suite_complete_line(before@.passed, before@.failed),
            )
            &&& flags_after == flags_before
        },
        _ => {
            &&& after@ == before@
            &&& out_after == out_before
            &&& flags_after == flags_before
        },
    }
}

/// The test at position `i` was run and came back with `result`.
pub open spec fn ran_test<T: SyncTest>(
    before: KernelTestRunner<T>,
    after: KernelTestRunner<T>,
    out_before: Seq<Seq<char>>,
    out_after: Seq<Seq<char>>,
    i: int,
    result: TestResult,
) -> bool {
    &&& before.tests()[i].may_return(result)
    &&& after@ == after_result(before@, result)
    &&& out_after == out_before.push(crate::output::test_start_line(before.names()[i])).push(
        result_line(before.names()[i], result),
    )
}

/// The tests of `runner` have all been run and came back with `results`,
/// which the runner's counters sum up.
pub open spec fn suite_ran<T: SyncTest>(runner: KernelTestRunner<T>, results: Seq<TestResult>) -> bool {
    &&& results.len() == runner.tests().len()
    &&& forall|i: int| 0 <= i < results.len() ==> (#[trigger] runner.tests()[i]).may_return(results[i])
    &&& runner@.passed == passes(results)
    &&& runner@.failed == failures(results)
}

enum Phase {
    Idle,
    Running,
    Complete,
}

/// The main test runner.
pub struct KernelTestRunner<T> {
    tests: Vec<TestDescriptor<T>>,
    current_index: usize,
    passed: usize,
    failed: usize,
    deferred_call: DeferredCall,
    phase: Phase,
}

impl<T: SyncTest> View for KernelTestRunner<T> {
    type V = RunnerView;

    closed spec fn view(&self) -> RunnerView {
        RunnerView {
            state: match self.phase {
                Phase::Idle => RunnerState::Idle,
                Phase::Running => RunnerState::Dispatching(self.current_index as nat),
                Phase::Complete => RunnerState::Complete,
            },
            passed: self.passed as nat,
            failed: self.failed as nat,
        }
    }
}

impl<T: SyncTest> KernelTestRunner<T> {
    /// The registry that the runner walks.
    pub closed spec fn tests(&self) -> Seq<TestDescriptor<T>> {
        self.tests@
    }

    /// The names of the registry's tests, in order.
    pub open spec fn names(&self) -> Seq<Seq<char>> {
        self.tests().map_values(|d: TestDescriptor<T>| d.name@)
    }

    /// The handle by which the runner asks for its callbacks.
    pub closed spec fn handle(&self) -> DeferredCall {
        self.deferred_call
    }

    /// How many tests the runner has invoked.
    pub closed spec fn invoked(&self) -> nat {
        self.current_index as nat
    }

    /// The runner's invariant: every test can be run, the cursor is the
    /// number of tests invoked and stays within the registry, each invoked
    /// test counts as exactly one pass or one failure, an idle runner has
    /// invoked nothing and a complete one everything.
    pub open spec fn wf(&self) -> bool {
        &&& forall|i: int| 0 <= i < self.tests().len() ==> (#[trigger] self.tests()[i]).runnable()
        &&& self.invoked() <= self.tests().len()
        &&& self@.passed + self@.failed == self.invoked()
        &&& match self@.state {
            RunnerState::Idle => self.invoked() == 0,
            RunnerState::Dispatching(i) => i == self.invoked(),
            RunnerState::Complete => self.invoked() == self.tests().len(),
        }
    }

    /// A runner over `tests`, idle, with a handle of its own from `dispatcher`.
    pub fn new(tests: Vec<TestDescriptor<T>>, dispatcher: &mut Dispatcher) -> (runner: Self)
        requires
            forall|i: int| 0 <= i < tests@.len() ==> (#[trigger] tests@[i]).runnable(),
        ensures
            runner.wf(),
            runner.tests() == tests@,
            runner@ == (RunnerView { state: RunnerState::Idle, passed: 0, failed: 0 }),
            runner.handle().id() == old(dispatcher)@.len(),
            final(dispatcher)@ == old(dispatcher)@.push(
                crate::deferred_call::ClientFlags { registered: false, pending: false },
            ),
    {
        let deferred_call = dispatcher.create();
        KernelTestRunner {
            tests,
            current_index: 0,
            passed: 0,
            failed: 0,
            deferred_call,
            phase: Phase::Idle,
        }
    }

    /// The number of tests in the registry.
    pub fn test_count(&self) -> (count: usize)
        ensures
            count == self.tests().len(),
    {
        self.tests.len()
    }

    /// The position of the next test to run.
    pub fn current_index(&self) -> (index: usize)
        ensures
            index == self.invoked(),
    {
        self.current_index
    }

    /// The number of tests that passed so far.
    pub fn passed(&self) -> (passed: usize)
        ensures
            passed == self@.passed,
    {
        self.passed
    }

    /// The number of tests that failed so far.
    pub fn failed(&self) -> (failed: usize)
        ensures
            failed == self@.failed,
    {
        self.failed
    }

    /// Whether the suite has not been started.
    pub fn is_idle(&self) -> (idle: bool)
        ensures
            idle == (self@.state is Idle),
    {
        match self.phase {
            Phase::Idle => true,
            _ => false,
        }
    }

    /// Whether the totals have been reported.
    pub fn is_complete(&self) -> (complete: bool)
        ensures
            complete == (self@.state is Complete),
    {
        match self.phase {
            Phase::Complete => true,
            _ => false,
        }
    }

    /// The handle by which the runner asks for its callbacks.
    pub fn deferred_call(&self) -> (handle: &DeferredCall)
        ensures
            *handle == self.handle(),
    {
        &self.deferred_call
    }

    /// Start running all tests: announce the suite and ask for the first
    /// callback. A runner that was started before stays as it is.
    pub fn run_all(&mut self, dispatcher: &mut Dispatcher, out: &mut Transcript)
        requires
            old(self).wf(),
            old(dispatcher).registered(&old(self).handle()),
        ensures
            final(self).wf(),
            final(self).tests() == old(self).tests(),
            final(self).handle() == old(self).handle(),
            final(self).invoked() == old(self).invoked(),
            final(self)@.passed == old(self)@.passed,
            final(self)@.failed == old(self)@.failed,
            old(self)@.state is Idle ==> {
                &&& final(self)@.state == RunnerState::Dispatching(0)
                &&& final(out)@ == old(out)@.push(
                    crate::output::suite_start_line(old(self).tests().len()),
                )
                &&& final(dispatcher)@ == crate::deferred_call::with_pending(
                    old(dispatcher)@,
                    old(self).handle().id(),
                )
            },
            !(old(self)@.state is Idle) ==> {
                &&& final(self)@ == old(self)@
                &&& final(out)@ == old(out)@
                &&& final(dispatcher)@ == old(dispatcher)@
            },
    {
        match self.phase {
            Phase::Idle => {
                out.emit(TestOutput::suite_start(self.tests.len()));
                self.phase = Phase::Running;
                dispatcher.set(&self.deferred_call);
            },
            _ => {},
        }
    }

    /// Run the next test in the sequence, or close the suite when none is
    /// left. An idle or complete runner stays as it is.
    pub fn run_next(&mut self, dispatcher: &mut Dispatcher, out: &mut Transcript)
        requires
            old(self).wf(),
            old(dispatcher).registered(&old(self).handle()),
        ensures
            final(self).wf(),
            final(self).tests() == old(self).tests(),
            final(self).handle() == old(self).handle(),
            step_taken(*old(self), *final(self), old(dispatcher)@, final(dispatcher)@, old(out)@, final(out)@),
    {
        match self.phase {
            Phase::Running => {},
            _ => {
                return ;
            },
        }
        let index = self.current_index;
        if index >= self.tests.len() {
            out.emit(TestOutput::suite_complete(self.passed, self.failed));
            self.phase = Phase::Complete;
            return ;
        }
        let name = self.tests[index].name;
        out.emit(TestOutput::test_start(name));
        assert(self.tests()[index as int].runnable());
        let result = match &self.tests[index].test_fn {
            TestFunction::Sync(test) => test.run(),
        };
        self.handle_test_result(name, result, dispatcher, out);
        assert(ran_test(*old(self), *self, old(out)@, out@, index as int, result));
    }

    /// Reports `result` for the test `name` under the cursor, counts it,
    /// moves the cursor on and asks for the next callback. A failure is
    /// counted and the suite goes on.
    pub fn handle_test_result(
        &mut self,
        name: &str,
        result: TestResult,
        dispatcher: &mut Dispatcher,
        out: &mut Transcript,
    )
        requires
            old(self).wf(),
            old(self)@.state is Dispatching,
            old(self).invoked() < old(self).tests().len(),
            old(dispatcher).registered(&old(self).handle()),
        ensures
            final(self).wf(),
            final(self).tests() == old(self).tests(),
            final(self).handle() == old(self).handle(),
            final(self)@ == after_result(old(self)@, result),
            final(out)@ == old(out)@.push(result_line(name@, result)),
            final(dispatcher)@ == crate::deferred_call::with_pending(
                old(dispatcher)@,
                old(self).handle().id(),
            ),
    {
        let count = self.tests.len();
        assert(self.passed + self.failed < count);
        match result {
            TestResult::Pass => {
                out.emit(TestOutput::test_pass(name));
                self.passed = self.passed + 1;
                self.advance_to_next_test(dispatcher);
            },
            TestResult::Fail(msg) => {
                out.emit(TestOutput::test_fail(name, msg));
                self.failed = self.failed + 1;
                self.advance_to_next_test(dispatcher);
            },
        }
    }

    /// Runs the whole suite as the main loop of a kernel with this one client
    /// does: starts the runner, then services its deferred call for as long
    /// as one is pending. Returns the number of callbacks made: one for each
    /// test and one that closes the suite.
    pub fn run_to_completion(&mut self, dispatcher: &mut Dispatcher, out: &mut Transcript) -> (notifications:
        usize)
        requires
            old(self).wf(),
            old(self)@.state is Idle,
            old(self).tests().len() < usize::MAX,
            old(dispatcher).registered(&old(self).handle()),
        ensures
            final(self).wf(),
            final(self).tests() == old(self).tests(),
            final(self).handle() == old(self).handle(),
            final(self)@.state is Complete,
            notifications == old(self).tests().len() + 1,
            final(dispatcher)@ == crate::deferred_call::without_pending(
                old(dispatcher)@,
                old(self).handle().id(),
            ),
            exists|results: Seq<TestResult>| #[trigger]
                suite_ran(*final(self), results) && final(out)@ == old(out)@ + suite_transcript(
                    old(self).names(),
                    results,
                ),
    {
        let ghost id = self.handle().id();
        let ghost flags = crate::deferred_call::without_pending(dispatcher@, id);
        let ghost names = self.names();
        let ghost head = old(out)@.push(crate::output::suite_start_line(self.tests().len()));
        self.run_all(dispatcher, out);
        assert(dispatcher@ =~= crate::deferred_call::with_pending(flags, id));
        let count = self.tests.len();
        let mut notifications: usize = 0;
        let ghost mut results: Seq<TestResult> = Seq::empty();
        loop
            invariant_except_break
                self@.state == RunnerState::Dispatching(notifications as nat),
                dispatcher@ == crate::deferred_call::with_pending(flags, id),
                out@ == head + test_lines(names, results),
            invariant
                self.wf(),
                self.tests() == old(self).tests(),
                self.handle() == old(self).handle(),
                names == self.names(),
                id == self.handle().id(),
                0 <= id < flags.len(),
                flags[id].registered,
                !flags[id].pending,
                count == self.tests().len(),
                count < usize::MAX,
                notifications <= count + 1,
                results.len() == self.invoked(),
                forall|i: int| 0 <= i < results.len() ==> (#[trigger] self.tests()[i]).may_return(results[i]),
                self@.passed == passes(results),
                self@.failed == failures(results),
            ensures
                self@.state is Complete,
                notifications == count + 1,
                dispatcher@ == flags,
                out@ == head + test_lines(names, results) + seq![
                    crate::output::suite_complete_line(passes(results), failures(results)),
                ],
            decreases count + 1 - notifications,
        {
            let ghost before = *self;
            let ghost out_before = out@;
            assert(crate::deferred_call::without_pending(dispatcher@, id) =~= flags);
            let handle = self.deferred_call;
            let called = dispatcher.service(&handle, self, out);
            assert(called);
            if notifications == count {
                notifications = notifications + 1;
                break ;
            }
            proof {
                let i = notifications as int;
                let result = choose|result: TestResult|
                    ran_test(before, *self, out_before, out@, i, result);
                assert(results.push(result).drop_last() =~= results);
                results = results.push(result);
                assert(out@ =~= head + test_lines(names, results));
            }
            notifications = notifications + 1;
        }
        proof {
            assert(suite_ran(*self, results));
            assert(out@ =~= old(out)@ + suite_transcript(names, results));
        }
        notifications
    }

    fn advance_to_next_test(&mut self, dispatcher: &mut Dispatcher)
        requires
            old(self).current_index < old(self).tests@.len(),
            old(dispatcher).registered(&old(self).deferred_call),
        ensures
            final(self).current_index == old(self).current_index + 1,
            final(self).tests == old(self).tests,
            final(self).passed == old(self).passed,
            final(self).failed == old(self).failed,
            final(self).deferred_call == old(self).deferred_call,
            final(self).phase == old(self).phase,
            final(dispatcher)@ == crate::deferred_call::with_pending(
                old(dispatcher)@,
                old(self).deferred_call.id(),
            ),
    {
        let count = self.tests.len();
        assert(self.current_index < count);
        self.current_index = self.current_index + 1;
        dispatcher.set(&self.deferred_call);
    }
}

impl<T: SyncTest> DeferredCallClient for KernelTestRunner<T> {
    open spec fn registrable(&self, flags: Seq<crate::deferred_call::ClientFlags>) -> bool {
        0 <= self.handle().id() < flags.len()
    }

    open spec fn ready(&self, flags: Seq<crate::deferred_call::ClientFlags>) -> bool {
        &&& self.wf()
        &&& 0 <= self.handle().id() < flags.len()
        &&& flags[self.handle().id()].registered
    }

    open spec fn handled(
        &self,
        after: &Self,
        flags_before: Seq<crate::deferred_call::ClientFlags>,
        flags_after: Seq<crate::deferred_call::ClientFlags>,
        out_before: Seq<Seq<char>>,
        out_after: Seq<Seq<char>>,
    ) -> bool {
        &&& after.wf()
        &&& after.tests() == self.tests()
        &&& after.handle() == self.handle()
        &&& step_taken(*self, *after, flags_before, flags_after, out_before, out_after)
    }

    /// One step of the suite: see [`KernelTestRunner::run_next`].
    fn handle_deferred_call(&mut self, dispatcher: &mut Dispatcher, out: &mut Transcript) {
        self.run_next(dispatcher, out);
    }

    fn register(&mut self, dispatcher: &mut Dispatcher)
        ensures
            *final(self) == *old(self),
            final(dispatcher)@ == crate::deferred_call::with_registered(
                old(dispatcher)@,
                old(self).handle().id(),
            ),
    {
        dispatcher.register(&self.deferred_call);
    }
}

/// The registries of several modules as one sequence: module after module,
/// each module's tests in the order in which it registered them.
pub open spec fn merged<T>(parts: Seq<Vec<TestDescriptor<T>>>) -> Seq<TestDescriptor<T>> {
    parts.map_values(|part: Vec<TestDescriptor<T>>| part@).flatten()
}

/// Merges the registries that modules contribute into one registry.
pub fn merge_tests<T>(parts: Vec<Vec<TestDescriptor<T>>>) -> (tests: Vec<TestDescriptor<T>>)
    ensures
        tests@ == merged(parts@),
{
    let mut parts = parts;
    let mut tests: Vec<TestDescriptor<T>> = Vec::new();
    let ghost all = parts@;
    let mut i: usize = 0;
    while i < parts.len()
        invariant
            i <= parts@.len(),
            parts@.len() == all.len(),
            forall|j: int| i <= j < parts@.len() ==> parts@[j] == all[j],
            tests@ == merged(all.take(i as int)),
        decreases parts@.len() - i,
    {
        let ghost part = parts@[i as int]@;
        tests.append(&mut parts[i]);
        proof {
            let views = all.take(i as int).map_values(|part: Vec<TestDescriptor<T>>| part@);
            assert(all.take(i + 1).map_values(|part: Vec<TestDescriptor<T>>| part@) =~= views.push(part));
            views.lemma_flatten_push(part);
        }
        i += 1;
    }
    assert(all.take(i as int) =~= all);
    tests
}

/// Get all registered kernel tests: the registries of all test modules,
/// merged. The architecture says which kernel the tests are built into.
pub fn get_kernel_tests(arch: Architecture) -> (tests: Vec<TestDescriptor<MpuTest>>)
    ensures
        tests@.len() == crate::mpu::registered_tests(arch).len(),
        forall|i: int|
            0 <= i < tests@.len() ==> {
                &&& (#[trigger] tests@[i]).name@ == crate::mpu::registered_tests(arch)[i].spec_name()
                &&& tests@[i].test_fn == TestFunction::Sync(crate::mpu::registered_tests(arch)[i])
                &&& tests@[i].runnable()
            },
{
    let mut parts: Vec<Vec<TestDescriptor<MpuTest>>> = Vec::new();
    parts.push(kernel_tests(arch));
    proof {
        let views = parts@.map_values(|part: Vec<TestDescriptor<MpuTest>>| part@);
        assert(views =~= seq![parts@[0]@]);
        views.lemma_flatten_singleton();
    }
    merge_tests(parts)
}

/// Every result counts once: as a pass or as a failure.
pub proof fn lemma_counts_cover_results(results: Seq<TestResult>)
    ensures
        passes(results) + failures(results) == results.len(),
    decreases results.len(),
{
    if results.len() > 0 {
        lemma_counts_cover_results(results.drop_last());
    }
}

/// The tests are reported in registry order, two lines each: whatever the
/// results, the start line of every test is there, followed by its result.
pub proof fn lemma_test_lines_in_order(names: Seq<Seq<char>>, results: Seq<TestResult>)
    requires
        results.len() <= names.len(),
    ensures
        test_lines(names, results).len() == 2 * results.len(),
        forall|i: int|
            0 <= i < results.len() ==> {
                &&& #[trigger] test_lines(names, results)[2 * i] == crate::output::test_start_line(names[i])
                &&& test_lines(names, results)[2 * i + 1] == result_line(names[i], results[i])
            },
    decreases results.len(),
{
    if results.len() > 0 {
        lemma_test_lines_in_order(names, results.drop_last());
    }
}

/// A suite without tests reports its start and its totals, both zero, and
/// no line in between.
pub proof fn lemma_empty_suite_transcript(results: Seq<TestResult>)
    requires
        results.len() == 0,
    ensures
        suite_transcript(Seq::empty(), results) == seq![
            crate::output::suite_start_line(0),
            crate::output::suite_complete_line(0, 0),
        ],
{
    assert(suite_transcript(Seq::empty(), results) =~= seq![
        crate::output::suite_start_line(0),
        crate::output::suite_complete_line(0, 0),
    ]);
}

/// A callback with a test under the cursor moves the cursor on by one and
/// counts the test once, whether it passed or failed; the runner is then
/// pending again.
pub proof fn lemma_step_counts_one<T: SyncTest>(
    before: KernelTestRunner<T>,
    after: KernelTestRunner<T>,
    flags_before: Seq<crate::deferred_call::ClientFlags>,
    flags_after: Seq<crate::deferred_call::ClientFlags>,
    out_before: Seq<Seq<char>>,
    out_after: Seq<Seq<char>>,
    i: nat,
)
    requires
        before@.state == RunnerState::Dispatching(i),
        i < before.tests().len(),
        0 <= before.handle().id() < flags_before.len(),
        step_taken(before, after, flags_before, flags_after, out_before, out_after),
    ensures
        after@.state == RunnerState::Dispatching(i + 1),
        after@.passed + after@.failed == before@.passed + before@.failed + 1,
        out_after.len() == out_before.len() + 2,
        out_after[out_before.len() as int] == crate::output::test_start_line(before.names()[i as int]),
        flags_after[before.handle().id()].pending,
{
    let result = choose|result: TestResult| ran_test(before, after, out_before, out_after, i as int, result);
    assert(ran_test(before, after, out_before, out_after, i as int, result));
}

/// The callback that finds the cursor at the end closes the suite: it
/// writes the totals as they stand, the runner is complete, and nothing is
/// pending for it any more.
pub proof fn lemma_last_step_completes<T: SyncTest>(
    before: KernelTestRunner<T>,
    after: KernelTestRunner<T>,
    flags_before: Seq<crate::deferred_call::ClientFlags>,
    flags_after: Seq<crate::deferred_call::ClientFlags>,
    out_before: Seq<Seq<char>>,
    out_after: Seq<Seq<char>>,
)
    requires
        before@.state == RunnerState::Dispatching(before.tests().len()),
        step_taken(before, after, flags_before, flags_after, out_before, out_after),
    ensures
        after@.state is Complete,
        after@.passed == before@.passed,
        after@.failed == before@.failed,
        out_after == out_before.push(crate::output::suite_complete_line(before@.passed, before@.failed)),
        flags_after == flags_before,
{
}

} // verus!
