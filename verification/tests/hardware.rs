use kernel_test::hardware::{
    classify, is_supported, FunctionTest, HardwareTest, HardwareTestRunner, Summary, TestResult,
};
use kernel_test::output::Transcript;

/// A test that counts its runs and returns what it was made with.
struct Probe {
    name: &'static str,
    boards: &'static [&'static str],
    outcome: Result<(), &'static str>,
    runs: usize,
}

impl Probe {
    fn new(name: &'static str, boards: &'static [&'static str], outcome: Result<(), &'static str>) -> Probe {
        Probe { name, boards, outcome, runs: 0 }
    }
}

impl HardwareTest for Probe {
    fn name(&self) -> &'static str {
        self.name
    }

    fn supported_boards(&self) -> &'static [&'static str] {
        self.boards
    }

    fn run(&mut self) -> Result<(), &'static str> {
        self.runs += 1;
        self.outcome
    }
}

/// A test that relies on the default: all boards.
struct Everywhere {
    runs: usize,
}

impl HardwareTest for Everywhere {
    fn name(&self) -> &'static str {
        "everywhere"
    }

    fn run(&mut self) -> Result<(), &'static str> {
        self.runs += 1;
        Ok(())
    }
}

fn texts(out: &Transcript) -> Vec<String> {
    out.lines().clone()
}

fn ok() -> Result<(), &'static str> {
    Ok(())
}

fn broken() -> Result<(), &'static str> {
    Err("register reads back wrong")
}

#[test]
fn test_without_boards_is_supported_everywhere() {
    assert!(is_supported(&[], "board-A"));
    assert!(is_supported(&[], ""));
}

#[test]
fn test_with_boards_is_supported_on_those_alone() {
    assert!(is_supported(&["board-A"], "board-A"));
    assert!(!is_supported(&["board-A"], "board-B"));
    assert!(is_supported(&["board-A", "board-B", "board-C"], "board-C"));
    assert!(!is_supported(&["board-A", "board-B", "board-C"], "board-D"));
    assert!(!is_supported(&["board-A"], "board"));
    assert!(!is_supported(&["board-A"], "board-AA"));
    assert!(!is_supported(&["board-A"], ""));
}

#[test]
fn classify_maps_ok_to_pass_and_err_to_fail() {
    assert_eq!(classify(Ok(())), TestResult::Pass);
    assert_eq!(classify(Err("timeout")), TestResult::Fail("timeout"));
}

#[test]
fn default_supported_boards_is_empty() {
    let test = Everywhere { runs: 0 };
    assert!(test.supported_boards().is_empty());
}

#[test]
fn unsupported_board_skips_without_running() {
    let mut test = Probe::new("radio", &["board-A"], Err("must not run"));
    let mut out = Transcript::new();
    let result = HardwareTestRunner::run_single_test("board-B", &mut test, &mut out);
    assert_eq!(result, TestResult::Skip("Board not supported"));
    assert_eq!(test.runs, 0);
    assert_eq!(texts(&out), vec!["Running: radio", "  SKIP: Not supported on board-B"]);
}

#[test]
fn supported_board_runs_and_passes() {
    let mut test = Probe::new("radio", &["board-A", "board-B"], Ok(()));
    let mut out = Transcript::new();
    let result = HardwareTestRunner::run_single_test("board-B", &mut test, &mut out);
    assert_eq!(result, TestResult::Pass);
    assert_eq!(test.runs, 1);
    assert_eq!(texts(&out), vec!["Running: radio", "  PASS"]);
}

#[test]
fn supported_board_runs_and_fails() {
    let mut test = Probe::new("aes", &[], Err("ciphertext differs"));
    let mut out = Transcript::new();
    let result = HardwareTestRunner::run_single_test("board-B", &mut test, &mut out);
    assert_eq!(result, TestResult::Fail("ciphertext differs"));
    assert_eq!(test.runs, 1);
    assert_eq!(texts(&out), vec!["Running: aes", "  FAIL: ciphertext differs"]);
}

#[test]
fn test_for_all_boards_runs_by_default() {
    let mut test = Everywhere { runs: 0 };
    let mut out = Transcript::new();
    let result = HardwareTestRunner::run_single_test("any-board", &mut test, &mut out);
    assert_eq!(result, TestResult::Pass);
    assert_eq!(test.runs, 1);
}

#[test]
fn suite_counts_skips_apart_from_passes_and_failures() {
    let tests = vec![
        Probe::new("uart", &[], Ok(())),
        Probe::new("radio", &["board-A"], Err("must not run")),
        Probe::new("aes", &["board-B"], Err("ciphertext differs")),
        Probe::new("rng", &["board-A", "board-C"], Ok(())),
        Probe::new("timer", &["board-C", "board-B"], Ok(())),
    ];
    let mut runner = HardwareTestRunner::new(tests, "board-B");
    let mut out = Transcript::new();
    let summary = runner.run_all(&mut out);
    assert_eq!(summary, Summary { passed: 2, failed: 1, skipped: 2 });
    assert!(!summary.all_passed());

    let runs: Vec<usize> = runner.tests_ref().iter().map(|t| t.runs).collect();
    assert_eq!(runs, vec![1, 0, 1, 0, 1]);
    let invoked: usize = runs.iter().sum();
    assert_eq!(summary.passed + summary.failed, invoked);

    assert_eq!(
        texts(&out),
        vec![
            "=== Hardware Test Suite Starting ===",
            "Board: board-B",
            "Tests: 5",
            "",
            "Running: uart",
            "  PASS",
            "Running: radio",
            "  SKIP: Not supported on board-B",
            "Running: aes",
            "  FAIL: ciphertext differs",
            "Running: rng",
            "  SKIP: Not supported on board-B",
            "Running: timer",
            "  PASS",
            "",
            "=== Test Summary ===",
            "Passed:  2",
            "Failed:  1",
            "Skipped: 2",
            "Total:   5",
            "=== Tests FAILED ===",
        ]
    );
}

#[test]
fn suite_with_skips_but_no_failure_passes() {
    let tests = vec![Probe::new("uart", &[], Ok(())), Probe::new("radio", &["board-A"], Err("must not run"))];
    let mut runner = HardwareTestRunner::new(tests, "board-B");
    let mut out = Transcript::new();
    let summary = runner.run_all(&mut out);
    assert_eq!(summary, Summary { passed: 1, failed: 0, skipped: 1 });
    assert!(summary.all_passed());
    let lines = texts(&out);
    assert_eq!(lines[lines.len() - 2], "Total:   2");
    assert_eq!(lines[lines.len() - 1], "=== All tests passed! ===");
}

#[test]
fn empty_suite_passes_with_zero_totals() {
    let mut runner = HardwareTestRunner::new(Vec::<Probe>::new(), "board-A");
    assert_eq!(runner.current_board(), "board-A");
    let mut out = Transcript::new();
    let summary = runner.run_all(&mut out);
    assert_eq!(summary, Summary { passed: 0, failed: 0, skipped: 0 });
    assert_eq!(
        texts(&out),
        vec![
            "=== Hardware Test Suite Starting ===",
            "Board: board-A",
            "Tests: 0",
            "",
            "",
            "=== Test Summary ===",
            "Passed:  0",
            "Failed:  0",
            "Skipped: 0",
            "Total:   0",
            "=== All tests passed! ===",
        ]
    );
}

#[test]
fn suite_appends_to_what_was_written_before() {
    let mut runner = HardwareTestRunner::new(vec![Probe::new("uart", &[], Ok(()))], "board-A");
    let mut out = Transcript::new();
    out.emit_str("boot");
    runner.run_all(&mut out);
    let lines = texts(&out);
    assert_eq!(lines[0], "boot");
    assert_eq!(lines[1], "=== Hardware Test Suite Starting ===");
    assert_eq!(lines.len(), 14);
}

#[test]
fn function_test_runs_its_function() {
    let mut passing = FunctionTest::new("gpio", ok as fn() -> Result<(), &'static str>);
    assert_eq!(passing.name(), "gpio");
    assert!(passing.supported_boards().is_empty());
    assert_eq!(passing.run(), Ok(()));

    let mut failing =
        FunctionTest::for_boards("spi", &["board-A"], broken as fn() -> Result<(), &'static str>);
    assert_eq!(failing.name(), "spi");
    assert_eq!(failing.supported_boards(), &["board-A"]);
    assert_eq!(failing.run(), Err("register reads back wrong"));
}

#[test]
fn function_tests_run_in_a_suite() {
    let tests = vec![
        FunctionTest::new("gpio", ok as fn() -> Result<(), &'static str>),
        FunctionTest::for_boards("spi", &["board-A"], broken as fn() -> Result<(), &'static str>),
        FunctionTest::for_boards("i2c", &["board-B"], broken as fn() -> Result<(), &'static str>),
    ];
    let mut runner = HardwareTestRunner::new(tests, "board-A");
    let mut out = Transcript::new();
    let summary = runner.run_all(&mut out);
    assert_eq!(summary, Summary { passed: 1, failed: 1, skipped: 1 });
    let lines = texts(&out);
    assert_eq!(lines[6], "Running: spi");
    assert_eq!(lines[7], "  FAIL: register reads back wrong");
    assert_eq!(lines[9], "  SKIP: Not supported on board-A");
}
