//! Hardware test framework: tests of peripherals that run directly in the
//! kernel, one after the other, at boot.
//!
//! A test names the boards it applies to. The runner knows the board it runs
//! on and skips, without running it, every test that names boards but not
//! this one.

use vstd::prelude::*;
use crate::output::Transcript;
use crate::text::{push_decimal, str_eq};

verus! {

/// Trait that hardware tests must implement.
pub trait HardwareTest {
    /// Whether the test may be run. Always, unless the test says otherwise.
    open spec fn runnable(&self) -> bool {
        true
    }

    /// Whether a run of the test may leave it as `after` and come back with
    /// `outcome`. Any run may, unless the test says otherwise.
    open spec fn ran(&self, after: &Self, outcome: Result<(), &'static str>) -> bool {
        true
    }

    /// Name of the test for reporting.
    fn name(&self) -> &'static str;

    /// Boards this test supports (empty = all boards).
    fn supported_boards(&self) -> &'static [&'static str] {
        &[]
    }

    /// Run the test, returning Ok(()) on success.
    fn run(&mut self) -> (outcome: Result<(), &'static str>)
        requires
            old(self).runnable(),
        ensures
            old(self).ran(final(self), outcome),
    ;
}

/// A hardware test made of a name, the boards that it supports and the
/// function that does the testing.
pub struct FunctionTest<F> {
    name: &'static str,
    boards: &'static [&'static str],
    test_fn: F,
}

impl<F: Fn() -> Result<(), &'static str>> FunctionTest<F> {
    /// The name that the test was made with.
    pub closed spec fn spec_name(&self) -> Seq<char> {
        self.name@
    }

    /// The boards that the test was made with.
    pub closed spec fn spec_boards(&self) -> Seq<Seq<char>> {
        board_names(self.boards@)
    }

    /// The function that the test was made with.
    pub closed spec fn test_fn(&self) -> F {
        self.test_fn
    }

    /// A test for all boards.
    pub fn new(name: &'static str, test_fn: F) -> (test: Self)
        ensures
            test.spec_name() == name@,
            test.spec_boards() == Seq::<Seq<char>>::empty(),
            test.test_fn() == test_fn,
    {
        let boards: &'static [&'static str] = &[];
        let test = FunctionTest { name, boards, test_fn };
        assert(test.spec_boards() =~= Seq::<Seq<char>>::empty());
        test
    }

    /// A test for the boards named; for all boards if none is named.
    pub fn for_boards(name: &'static str, boards: &'static [&'static str], test_fn: F) -> (test: Self)
        ensures
            test.spec_name() == name@,
            test.spec_boards() == board_names(boards@),
            test.test_fn() == test_fn,
    {
        FunctionTest { name, boards, test_fn }
    }
}

impl<F: Fn() -> Result<(), &'static str>> HardwareTest for FunctionTest<F> {
    open spec fn runnable(&self) -> bool {
        call_requires(self.test_fn(), ())
    }

    open spec fn ran(&self, after: &Self, outcome: Result<(), &'static str>) -> bool {
        *after == *self && call_ensures(self.test_fn(), (), outcome)
    }

    fn name(&self) -> (name: &'static str)
        ensures
            name@ == self.spec_name(),
    {
        self.name
    }

    fn supported_boards(&self) -> (boards: &'static [&'static str])
        ensures
            board_names(boards@) == self.spec_boards(),
    {
        self.boards
    }

    fn run(&mut self) -> (outcome: Result<(), &'static str>) {
        (self.test_fn)()
    }
}

/// Test result reporting.
#[derive(Clone, Copy, Debug, PartialEq, Eq)]
pub enum TestResult {
    Pass,
    Fail(&'static str),
    Skip(&'static str),
}

/// The characters of each board identifier.
pub open spec fn board_names(boards: Seq<&'static str>) -> Seq<Seq<char>> {
    boards.map_values(|board: &'static str| board@)
}

/// Whether a test that names `boards` applies to `board`: it names none, or
/// it names this one.
pub open spec fn board_supported(boards: Seq<Seq<char>>, board: Seq<char>) -> bool {
    boards.len() == 0 || boards.contains(board)
}

/// The result that stands for what a test's run returned.
pub open spec fn classified(outcome: Result<(), &'static str>) -> TestResult {
    match outcome {
        Ok(()) => TestResult::Pass,
        Err(msg) => TestResult::Fail(msg),
    }
}

/// Whether `result` is the skip that the runner gives for a board that a
/// test does not support.
pub open spec fn is_board_skip(result: TestResult) -> bool {
    result matches TestResult::Skip(reason) && reason@ == "Board not supported"@
}

/// The line that announces the test `name`.
pub open spec fn running_line(name: Seq<char>) -> Seq<char> {
    "Running: "@ + name
}

/// The line that reports `result` on the board `board`.
pub open spec fn outcome_line(board: Seq<char>, result: TestResult) -> Seq<char> {
    match result {
        TestResult::Pass => "  PASS"@,
        TestResult::Fail(msg) => "  FAIL: "@ + msg@,
        TestResult::Skip(_) => "  SKIP: Not supported on "@ + board,
    }
}

/// The lines that open a suite of `count` tests on the board `board`.
pub open spec fn suite_header(board: Seq<char>, count: nat) -> Seq<Seq<char>> {
    seq![
        "=== Hardware Test Suite Starting ==="@,
        "Board: "@ + board,
        "Tests: "@ + crate::text::decimal(count),
        ""@,
    ]
}

/// How many of `results` are passes.
pub open spec fn passes(results: Seq<TestResult>) -> nat
    decreases results.len(),
{
    if results.len() == 0 {
        0
    } else {
        passes(results.drop_last()) + if results.last() is Pass { 1nat } else { 0nat }
    }
}

/// How many of `results` are failures.
pub open spec fn failures(results: Seq<TestResult>) -> nat
    decreases results.len(),
{
    if results.len() == 0 {
        0
    } else {
        failures(results.drop_last()) + if results.last() is Fail { 1nat } else { 0nat }
    }
}

/// How many of `results` are skips.
pub open spec fn skips(results: Seq<TestResult>) -> nat
    decreases results.len(),
{
    if results.len() == 0 {
        0
    } else {
        skips(results.drop_last()) + if results.last() is Skip { 1nat } else { 0nat }
    }
}

/// The totals of a suite.
#[derive(Clone, Copy, Debug, PartialEq, Eq)]
pub struct Summary {
    pub passed: usize,
    pub failed: usize,
    pub skipped: usize,
}

impl Summary {
    /// Whether the totals are those of `results`.
    pub open spec fn sums_up(self, results: Seq<TestResult>) -> bool {
        &&& self.passed == passes(results)
        &&& self.failed == failures(results)
        &&& self.skipped == skips(results)
    }

    /// The number of tests counted: skipped ones too.
    pub open spec fn spec_total(self) -> nat {
        (self.passed + self.failed + self.skipped) as nat
    }

    /// Whether the suite as a whole passed: nothing failed. A skipped test
    /// counts neither for nor against.
    pub open spec fn spec_all_passed(self) -> bool {
        self.failed == 0
    }

    /// Whether the suite as a whole passed: nothing failed. A skipped test
    /// counts neither for nor against.
    #[verifier::when_used_as_spec(spec_all_passed)]
    pub fn all_passed(self) -> (verdict: bool)
        ensures
            verdict == self.spec_all_passed(),
    {
        self.failed == 0
    }
}

/// The lines that close a suite of `total` tests with the totals `summary`.
pub open spec fn suite_footer(summary: Summary, total: nat) -> Seq<Seq<char>> {
    seq![
        ""@,
        "=== Test Summary ==="@,
        "Passed:  "@ + crate::text::decimal(summary.passed as nat),
        "Failed:  "@ + crate::text::decimal(summary.failed as nat),
        "Skipped: "@ + crate::text::decimal(summary.skipped as nat),
        "Total:   "@ + crate::text::decimal(total),
        if summary.failed == 0 {
            "=== All tests passed! ==="@
        } else {
            "=== Tests FAILED ==="@
        },
    ]
}

/// What the runner found and did for one test: the name and the boards that
/// the test gave, and the result.
pub struct TestRecord {
    pub name: &'static str,
    pub boards: &'static [&'static str],
    pub result: TestResult,
}

/// The results of `records`, in order.
pub open spec fn results_of(records: Seq<TestRecord>) -> Seq<TestResult> {
    records.map_values(|record: TestRecord| record.result)
}

/// The two lines of one test: its announcement and its outcome.
pub open spec fn record_lines(board: Seq<char>, record: TestRecord) -> Seq<Seq<char>> {
    seq![running_line(record.name@), outcome_line(board, record.result)]
}

/// The lines of the tests of `records`, in order, two lines each.
pub open spec fn test_lines(board: Seq<char>, records: Seq<TestRecord>) -> Seq<Seq<char>>
    decreases records.len(),
{
    if records.len() == 0 {
        Seq::empty()
    } else {
        test_lines(board, records.drop_last()) + record_lines(board, records.last())
    }
}

/// A line made of a label and a number.
fn labelled_count(label: &str, n: usize) -> (line: String)
    ensures
        line@ == label@ + crate::text::decimal(n as nat),
{
    let mut line = String::from_str(label);
    push_decimal(&mut line, n);
    line
}

/// A line made of a label and a text.
fn labelled_text(label: &str, text: &str) -> (line: String)
    ensures
        line@ == label@ + text@,
{
    let mut line = String::from_str(label);
    line.append(text);
    line
}

/// Whether a test that supports `boards` applies to `board`.
pub fn is_supported(boards: &[&'static str], board: &str) -> (supported: bool)
    ensures
        supported == board_supported(board_names(boards@), board@),
{
    if boards.len() == 0 {
        return true;
    }
    let mut i: usize = 0;
    while i < boards.len()
        invariant
            i <= boards@.len(),
            forall|k: int| 0 <= k < i ==> boards@[k]@ != board@,
        decreases boards@.len() - i,
    {
        if str_eq(boards[i], board) {
            assert(board_names(boards@)[i as int] == board@);
            return true;
        }
        i += 1;
    }
    assert(!board_names(boards@).contains(board@)) by {
        if board_names(boards@).contains(board@) {
            let k = choose|k: int| 0 <= k < board_names(boards@).len() && board_names(boards@)[k] == board@;
            assert(boards@[k]@ == board@);
        }
    }
    false
}

/// The result that stands for what a test's run returned.
pub fn classify(outcome: Result<(), &'static str>) -> (result: TestResult)
    ensures
        result == classified(outcome),
{
    match outcome {
        Ok(()) => TestResult::Pass,
        Err(msg) => TestResult::Fail(msg),
    }
}

/// What the runner did with one test.
///
/// The record holds the name and the boards that the test gave. On a board
/// that the test supports the test was run, and the result stands for what
/// the run returned: a pass or a failure. On any other board the test was
/// not run: it is as it was, and the result is the skip for an unsupported
/// board.
pub open spec fn test_recorded<T: HardwareTest>(board: Seq<char>, record: TestRecord, before: T, after: T) -> bool {
    &&& call_ensures(T::name, (&before,), record.name)
    &&& call_ensures(T::supported_boards, (&before,), record.boards)
    &&& if board_supported(board_names(record.boards@), board) {
        exists|outcome: Result<(), &'static str>| #[trigger]
            before.ran(&after, outcome) && record.result == classified(outcome)
    } else {
        is_board_skip(record.result) && after == before
    }
}

/// Hardware test runner that manages test execution.
pub struct HardwareTestRunner<T> {
    tests: Vec<T>,
    current_board: &'static str,
}

impl<T: HardwareTest> HardwareTestRunner<T> {
    /// The tests, in the order in which they run.
    pub closed spec fn tests(&self) -> Seq<T> {
        self.tests@
    }

    /// The board that the runner runs on.
    pub closed spec fn board(&self) -> Seq<char> {
        self.current_board@
    }

    /// A runner for `tests` on the board `board`.
    pub fn new(tests: Vec<T>, board: &'static str) -> (runner: Self)
        ensures
            runner.tests() == tests@,
            runner.board() == board@,
    {
        Self { tests, current_board: board }
    }

    /// The board that the runner runs on.
    pub fn current_board(&self) -> (board: &'static str)
        ensures
            board@ == self.board(),
    {
        self.current_board
    }

    /// The tests, in the order in which they run.
    pub fn tests_ref(&self) -> (tests: &Vec<T>)
        ensures
            tests@ == self.tests(),
    {
        &self.tests
    }

    /// Runs every test that supports the board, in order, skips the others,
    /// and reports each test and the totals.
    pub fn run_all(&mut self, out: &mut Transcript) -> (summary: Summary)
        requires
            forall|i: int| 0 <= i < old(self).tests().len() ==> (#[trigger] old(self).tests()[i]).runnable(),
        ensures
            final(self).board() == old(self).board(),
            final(self).tests().len() == old(self).tests().len(),
            summary.spec_total() == old(self).tests().len(),
            exists|records: Seq<TestRecord>| #[trigger]
                suite_ran(old(self).board(), old(self).tests(), final(self).tests(), records, summary)
                    && final(out)@ == old(out)@ + suite_report(old(self).board(), records, summary),
    {
        let count = self.tests.len();
        let board = self.current_board;
        out.emit(String::from_str("=== Hardware Test Suite Starting ==="));
        out.emit(labelled_text("Board: ", board));
        out.emit(labelled_count("Tests: ", count));
        out.emit(String::from_str(""));

        let mut passed: usize = 0;
        let mut failed: usize = 0;
        let mut skipped: usize = 0;
        let ghost mut records: Seq<TestRecord> = Seq::empty();
        let ghost head = old(out)@ + suite_header(board@, count as nat);
        assert(out@ =~= head);

        let mut i: usize = 0;
        while i < count
            invariant
                i <= count,
                count == self.tests@.len(),
                count == old(self).tests@.len(),
                self.current_board == old(self).current_board,
                board == self.current_board,
                records.len() == i,
                passed == passes(results_of(records)),
                failed == failures(results_of(records)),
                skipped == skips(results_of(records)),
                passed + failed + skipped == i,
                forall|k: int|
                    0 <= k < i ==> test_recorded(
                        board@,
                        #[trigger] records[k],
                        old(self).tests@[k],
                        self.tests@[k],
                    ),
                forall|k: int| i <= k < count ==> self.tests@[k] == old(self).tests@[k],
                forall|k: int| 0 <= k < count ==> (#[trigger] old(self).tests()[k]).runnable(),
                out@ == head + test_lines(board@, records),
            decreases count - i,
        {
            let ghost before = self.tests@[i as int];
            let ghost out_before = out@;
            assert(old(self).tests()[i as int].runnable());
            let result = Self::run_single_test(board, &mut self.tests[i], out);
            proof {
                let record = choose|record: TestRecord|
                    record.result == result && #[trigger] test_recorded(
                        board@,
                        record,
                        before,
                        self.tests@[i as int],
                    ) && out@ == out_before + record_lines(board@, record);
                assert(records.push(record).drop_last() =~= records);
                assert(results_of(records.push(record)).drop_last() =~= results_of(records));
                records = records.push(record);
                assert(out@ =~= head + test_lines(board@, records));
            }
            match result {
                TestResult::Pass => passed += 1,
                TestResult::Fail(_) => failed += 1,
                TestResult::Skip(_) => skipped += 1,
            }
            i += 1;
        }

        let summary = Summary { passed, failed, skipped };
        out.emit(String::from_str(""));
        out.emit(String::from_str("=== Test Summary ==="));
        out.emit(labelled_count("Passed:  ", passed));
        out.emit(labelled_count("Failed:  ", failed));
        out.emit(labelled_count("Skipped: ", skipped));
        out.emit(labelled_count("Total:   ", count));
        if summary.all_passed() {
            out.emit(String::from_str("=== All tests passed! ==="));
        } else {
            out.emit(String::from_str("=== Tests FAILED ==="));
        }
        proof {
            assert(suite_ran(old(self).board(), old(self).tests(), self.tests(), records, summary));
            assert(out@ =~= old(out)@ + suite_report(old(self).board(), records, summary));
        }
        summary
    }

    /// Runs one test on the board `board`, unless the test names boards and
    /// `board` is not among them: then the test is skipped without being
    /// run. Reports the test and its outcome.
    pub fn run_single_test(board: &str, test: &mut T, out: &mut Transcript) -> (result: TestResult)
        requires
            old(test).runnable(),
        ensures
            exists|record: TestRecord|
                record.result == result && #[trigger] test_recorded(board@, record, *old(test), *final(test))
                    && final(out)@ == old(out)@ + record_lines(board@, record),
    {
        let name = test.name();
        out.emit(labelled_text("Running: ", name));

        // Check if test supports this board
        let supported = test.supported_boards();
        if !is_supported(supported, board) {
            out.emit(labelled_text("  SKIP: Not supported on ", board));
            let result = TestResult::Skip("Board not supported");
            proof {
                let record = TestRecord { name, boards: supported, result };
                assert(test_recorded(board@, record, *old(test), *test));
                assert(out@ =~= old(out)@ + record_lines(board@, record));
            }
            return result;
        }
        // Run the test
        let outcome = test.run();
        let result = classify(outcome);
        match result {
            TestResult::Fail(msg) => out.emit(labelled_text("  FAIL: ", msg)),
            _ => out.emit(String::from_str("  PASS")),
        }
        proof {
            let record = TestRecord { name, boards: supported, result };
            assert(old(test).ran(&*test, outcome));
            assert(test_recorded(board@, record, *old(test), *test));
            assert(out@ =~= old(out)@ + record_lines(board@, record));
        }
        result
    }
}

/// What a suite did with its tests.
///
/// There is one record for each test, in order, `summary` counts their
/// results, and each test was run or skipped as its record says.
pub open spec fn suite_ran<T: HardwareTest>(
    board: Seq<char>,
    before: Seq<T>,
    after: Seq<T>,
    records: Seq<TestRecord>,
    summary: Summary,
) -> bool {
    &&& after.len() == before.len()
    &&& records.len() == before.len()
    &&& summary.sums_up(results_of(records))
    &&& forall|i: int| 0 <= i < records.len() ==> test_recorded(board, #[trigger] records[i], before[i], after[i])
}

/// The whole report of a suite on the board `board`.
pub open spec fn suite_report(board: Seq<char>, records: Seq<TestRecord>, summary: Summary) -> Seq<
    Seq<char>,
> {
    suite_header(board, records.len()) + test_lines(board, records) + suite_footer(summary, records.len())
}

/// Every result counts once: as a pass, as a failure or as a skip. So the
/// passes and failures together are the tests that were run.
pub proof fn lemma_counts_cover_results(results: Seq<TestResult>)
    ensures
        passes(results) + failures(results) + skips(results) == results.len(),
    decreases results.len(),
{
    if results.len() > 0 {
        lemma_counts_cover_results(results.drop_last());
    }
}

/// A test that names boards, none of them the runner's, is not run: it is as
/// it was, and its result is a skip, neither a pass nor a failure.
pub proof fn lemma_unsupported_board_skips<T: HardwareTest>(
    board: Seq<char>,
    record: TestRecord,
    before: T,
    after: T,
)
    requires
        test_recorded(board, record, before, after),
        record.boards@.len() > 0,
        !board_names(record.boards@).contains(board),
    ensures
        after == before,
        record.result is Skip,
        is_board_skip(record.result),
{
}

/// A test that supports the runner's board is run, and its result is a pass
/// or a failure, never a skip.
pub proof fn lemma_supported_board_runs<T: HardwareTest>(
    board: Seq<char>,
    record: TestRecord,
    before: T,
    after: T,
)
    requires
        test_recorded(board, record, before, after),
        board_supported(board_names(record.boards@), board),
    ensures
        record.result is Pass || record.result is Fail,
        exists|outcome: Result<(), &'static str>| #[trigger]
            before.ran(&after, outcome) && record.result == classified(outcome),
{
}

} // verus!
