//! Test launcher for kernel tests: announces each test of a fixed list and
//! reports the result that it is handed.

use vstd::prelude::*;
use crate::output::Transcript;
use crate::text::push_decimal;

verus! {

/// Why a capsule test did not succeed.
#[derive(Clone, Copy, Debug, PartialEq, Eq)]
pub enum CapsuleTestError {
    /// The test ran and found a wrong result.
    IncorrectResult,
    /// The test could not run: the kernel's error code.
    ErrorCode(usize),
}

/// The number of tests that the launcher announces.
pub const TEST_COUNT: usize = 8;

/// The name of the test at position `index`.
pub open spec fn spec_test_name(index: int) -> Seq<char> {
    if index == 0 {
        "test_mpu_basic_configuration"@
    } else if index == 1 {
        "test_mpu_region_boundaries"@
    } else if index == 2 {
        "test_mpu_flash_protection"@
    } else if index == 3 {
        "test_mpu_peripheral_isolation"@
    } else if index == 4 {
        "test_mpu_overlapping_regions"@
    } else if index == 5 {
        "test_mpu_null_pointer_protection"@
    } else if index == 6 {
        "test_mpu_fault_handling"@
    } else {
        "test_mpu_process_isolation"@
    }
}

/// The name of the test at position `index`.
pub fn test_name(index: usize) -> (name: &'static str)
    requires
        index < TEST_COUNT,
    ensures
        name@ == spec_test_name(index as int),
{
    match index {
        0 => "test_mpu_basic_configuration",
        1 => "test_mpu_region_boundaries",
        2 => "test_mpu_flash_protection",
        3 => "test_mpu_peripheral_isolation",
        4 => "test_mpu_overlapping_regions",
        5 => "test_mpu_null_pointer_protection",
        6 => "test_mpu_fault_handling",
        _ => "test_mpu_process_isolation",
    }
}

/// The line that announces the test at position `index`, counted from one.
pub open spec fn running_line(index: int) -> Seq<char> {
    "[TEST] Running test "@ + crate::text::decimal((index + 1) as nat) + ": "@ + spec_test_name(index)
}

/// The line that reports how the test at position `index` ended.
pub open spec fn verdict_line(index: int, result: Result<(), CapsuleTestError>) -> Seq<char> {
    "[TEST] "@ + spec_test_name(index) + if result is Ok {
        " - PASSED"@
    } else {
        " - FAILED"@
    }
}

/// What is written from the test at position `index` to the end of the
/// suite: each test is announced and reported as passed, then the suite is
/// closed.
pub open spec fn launch_lines(index: nat) -> Seq<Seq<char>>
    decreases TEST_COUNT - index,
{
    if index >= TEST_COUNT {
        seq!["[TEST] Test suite complete: 8 tests run"@, "[TEST] All tests completed"@]
    } else {
        seq![running_line(index as int), verdict_line(index as int, Ok(()))] + launch_lines(index + 1)
    }
}

/// What is written when the launcher is told that a test is done, with
/// `index` tests announced so far: the report of the last one announced, if
/// there is one, and then all that follows.
pub open spec fn done_lines(index: nat, result: Result<(), CapsuleTestError>) -> Seq<Seq<char>> {
    if 0 < index <= TEST_COUNT {
        seq![verdict_line(index - 1, result)] + launch_lines(index)
    } else {
        launch_lines(index)
    }
}

/// Where the launcher stands once it has run from `index` to the end.
pub open spec fn final_index(index: nat) -> nat {
    if index < TEST_COUNT {
        TEST_COUNT as nat
    } else {
        index
    }
}

/// Test launcher that runs kernel tests sequentially.
pub struct TestLauncher {
    test_index: usize,
}

impl TestLauncher {
    /// The number of tests announced so far.
    pub closed spec fn index(&self) -> nat {
        self.test_index as nat
    }

    pub fn new() -> (launcher: Self)
        ensures
            launcher.index() == 0,
    {
        TestLauncher { test_index: 0 }
    }

    /// The number of tests announced so far.
    pub fn test_index(&self) -> (index: usize)
        ensures
            index == self.index(),
    {
        self.test_index
    }

    /// Announces the suite and runs it from where the launcher stands.
    pub fn start(&mut self, out: &mut Transcript)
        ensures
            final(self).index() == final_index(old(self).index()),
            final(out)@ == old(out)@.push("[TEST] Starting kernel test suite"@) + launch_lines(
                old(self).index(),
            ),
    {
        out.emit_str("[TEST] Starting kernel test suite");
        self.next(out);
    }

    /// Announces the next test and reports it as passed, and so on to the
    /// end of the list; there, closes the suite.
    pub fn next(&mut self, out: &mut Transcript)
        ensures
            final(self).index() == final_index(old(self).index()),
            final(out)@ == old(out)@ + launch_lines(old(self).index()),
        decreases
            if old(self).index() <= TEST_COUNT {
                2 * (TEST_COUNT - old(self).index())
            } else {
                0
            },
    {
        let index = self.test_index;
        if index >= TEST_COUNT {
            out.emit_str("[TEST] Test suite complete: 8 tests run");
            out.emit_str("[TEST] All tests completed");
            assert(out@ =~= old(out)@ + launch_lines(old(self).index()));
            return ;
        }
        let mut line = String::from_str("[TEST] Running test ");
        push_decimal(&mut line, index + 1);
        line.append(": ");
        line.append(test_name(index));
        out.emit(line);
        self.test_index = index + 1;

        // For now, simulate passing tests
        self.done(Ok(()), out);
        assert(out@ =~= old(out)@ + launch_lines(old(self).index()));
    }

    /// Reports how the test announced last ended, then goes on with the
    /// next one.
    pub fn done(&mut self, result: Result<(), CapsuleTestError>, out: &mut Transcript)
        ensures
            final(self).index() == final_index(old(self).index()),
            final(out)@ == old(out)@ + done_lines(old(self).index(), result),
        decreases
            if old(self).index() <= TEST_COUNT {
                2 * (TEST_COUNT - old(self).index()) + 1
            } else {
                1
            },
    {
        let index = self.test_index;
        if index > 0 && index <= TEST_COUNT {
            let mut line = String::from_str("[TEST] ");
            line.append(test_name(index - 1));
            match result {
                Ok(()) => line.append(" - PASSED"),
                Err(_e) => line.append(" - FAILED"),
            }
            out.emit(line);
        }
        self.next(out);
        assert(out@ =~= old(out)@ + done_lines(old(self).index(), result));
    }
}

} // verus!
