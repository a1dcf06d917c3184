//! The line vocabulary of the kernel test report.

use vstd::prelude::*;
use crate::text::{decode_text, push_decimal};

verus! {

/// The line that announces a suite of `count` tests.
pub open spec fn suite_start_line(count: nat) -> Seq<char> {
    "[TEST] Starting kernel test suite ("@ + crate::text::decimal(count) + " tests)"@
}

/// The line that announces the start of the test `name`.
pub open spec fn test_start_line(name: Seq<char>) -> Seq<char> {
    "[TEST] Running "@ + name
}

/// The line that reports that the test `name` passed.
pub open spec fn test_pass_line(name: Seq<char>) -> Seq<char> {
    "[PASS] "@ + name
}

/// How a diagnostic is shown: its text, or a fixed placeholder where the
/// bytes are not valid UTF-8.
pub open spec fn diagnostic_text(msg: Seq<u8>) -> Seq<char> {
    match crate::text::text_of(msg) {
        Some(text) => text,
        None => "(invalid UTF-8)"@,
    }
}

/// The line that reports that the test `name` failed with the diagnostic `msg`.
pub open spec fn test_fail_line(name: Seq<char>, msg: Seq<u8>) -> Seq<char> {
    "[FAIL] "@ + name + ": "@ + diagnostic_text(msg)
}

/// The line that closes a suite with its totals.
pub open spec fn suite_complete_line(passed: nat, failed: nat) -> Seq<char> {
    "[TEST] Test suite complete: "@ + crate::text::decimal(passed) + " passed, "@
        + crate::text::decimal(failed) + " failed"@
}

/// The line-oriented, append-only surface that reports are written to.
pub struct Transcript {
    lines: Vec<String>,
}

impl View for Transcript {
    type V = Seq<Seq<char>>;

    closed spec fn view(&self) -> Seq<Seq<char>> {
        self.lines@.map_values(|line: String| line@)
    }
}

impl Transcript {
    /// A transcript without lines.
    pub fn new() -> (out: Self)
        ensures
            out@ == Seq::<Seq<char>>::empty(),
    {
        let out = Transcript { lines: Vec::new() };
        assert(out@ =~= Seq::<Seq<char>>::empty());
        out
    }

    /// Appends one line.
    pub fn emit(&mut self, line: String)
        ensures
            final(self)@ == old(self)@.push(line@),
    {
        self.lines.push(line);
        assert(self@ =~= old(self)@.push(line@));
    }

    /// Appends a line given as a string slice.
    pub fn emit_str(&mut self, line: &str)
        ensures
            final(self)@ == old(self)@.push(line@),
    {
        self.emit(String::from_str(line));
    }

    /// Appends all lines of `other`, in order.
    pub fn append(&mut self, other: Transcript)
        ensures
            final(self)@ == old(self)@ + other@,
    {
        let ghost added = other@;
        let mut other = other;
        self.lines.append(&mut other.lines);
        assert(self@ =~= old(self)@ + added);
    }

    /// The number of lines written so far.
    pub fn len(&self) -> (n: usize)
        ensures
            n == self@.len(),
    {
        self.lines.len()
    }

    /// The lines written so far, oldest first.
    pub fn lines(&self) -> (lines: &Vec<String>)
        ensures
            lines@.map_values(|line: String| line@) == self@,
    {
        &self.lines
    }
}

/// Formats the lines of the kernel test report.
pub struct TestOutput;

impl TestOutput {
    pub fn test_start(name: &str) -> (line: String)
        ensures
            line@ == test_start_line(name@),
    {
        let mut line = String::from_str("[TEST] Running ");
        line.append(name);
        line
    }

    pub fn test_pass(name: &str) -> (line: String)
        ensures
            line@ == test_pass_line(name@),
    {
        let mut line = String::from_str("[PASS] ");
        line.append(name);
        line
    }

    pub fn test_fail(name: &str, msg: &[u8]) -> (line: String)
        ensures
            line@ == test_fail_line(name@, msg@),
    {
        let mut line = String::from_str("[FAIL] ");
        line.append(name);
        line.append(": ");
        match decode_text(msg) {
            Some(text) => line.append(text),
            None => line.append("(invalid UTF-8)"),
        }
        line
    }

    pub fn suite_start(count: usize) -> (line: String)
        ensures
            line@ == suite_start_line(count as nat),
    {
        let mut line = String::from_str("[TEST] Starting kernel test suite (");
        push_decimal(&mut line, count);
        line.append(" tests)");
        line
    }

    pub fn suite_complete(passed: usize, failed: usize) -> (line: String)
        ensures
            line@ == suite_complete_line(passed as nat, failed as nat),
    {
        let mut line = String::from_str("[TEST] Test suite complete: ");
        push_decimal(&mut line, passed);
        line.append(" passed, ");
        push_decimal(&mut line, failed);
        line.append(" failed");
        line
    }
}

} // verus!
