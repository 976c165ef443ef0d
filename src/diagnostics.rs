use vstd::prelude::*;

verus! {

/// Outcome of one self-check.
#[derive(Debug, Clone)]
pub enum TestResult {
    NotRun,
    Passed,
    Failed(String),
}

impl TestResult {
    pub open spec fn text(&self) -> Seq<char> {
        match self {
            TestResult::NotRun => "Not Run"@,
            TestResult::Passed => "Passed"@,
            TestResult::Failed(reason) => "Failed: "@ + reason@,
        }
    }

    /// `Not Run`, `Passed`, or `Failed: ` followed by the reason.
    pub fn to_text(&self) -> (r: String)
        ensures
            r@ == self.text(),
    {
        match self {
            TestResult::NotRun => String::from_str("Not Run"),
            TestResult::Passed => String::from_str("Passed"),
            TestResult::Failed(reason) => {
                let mut r = String::from_str("Failed: ");
                r.append(reason.as_str());
                r
            },
        }
    }

    pub fn is_passed(&self) -> (r: bool)
        ensures
            r == (self is Passed),
    {
        match self {
            TestResult::Passed => true,
            _ => false,
        }
    }
}

/// Outcomes of the five self-check areas.
#[derive(Debug, Clone)]
pub struct TestResults {
    pub database: TestResult,
    pub agents: TestResult,
    pub system: TestResult,
    pub performance: TestResult,
    pub security: TestResult,
}

/// 1 for a passed check, 0 otherwise.
pub open spec fn passed_as_nat(r: TestResult) -> nat {
    if r is Passed {
        1
    } else {
        0
    }
}

/// The decimal digit for a count of at most 5.
pub open spec fn digit_text(n: nat) -> Seq<char> {
    if n == 0 {
        "0"@
    } else if n == 1 {
        "1"@
    } else if n == 2 {
        "2"@
    } else if n == 3 {
        "3"@
    } else if n == 4 {
        "4"@
    } else {
        "5"@
    }
}

impl TestResults {
    /// How many of the five checks passed.
    pub open spec fn passed_count(&self) -> nat {
        passed_as_nat(self.database) + passed_as_nat(self.agents) + passed_as_nat(self.system)
            + passed_as_nat(self.performance) + passed_as_nat(self.security)
    }

    /// Every check not run yet.
    pub fn new() -> (r: TestResults)
        ensures
            r.database is NotRun,
            r.agents is NotRun,
            r.system is NotRun,
            r.performance is NotRun,
            r.security is NotRun,
    {
        TestResults {
            database: TestResult::NotRun,
            agents: TestResult::NotRun,
            system: TestResult::NotRun,
            performance: TestResult::NotRun,
            security: TestResult::NotRun,
        }
    }

    /// Whether all five checks passed.
    pub fn all_passed(&self) -> (r: bool)
        ensures
            r == (self.passed_count() == 5),
    {
        self.database.is_passed() && self.agents.is_passed() && self.system.is_passed()
            && self.performance.is_passed() && self.security.is_passed()
    }

    /// `Tests: <passed>/5 passed`.
    pub fn summary(&self) -> (r: String)
        ensures
            r@ == "Tests: "@ + digit_text(self.passed_count()) + "/5 passed"@,
    {
        let mut passed: usize = 0;
        if self.database.is_passed() {
            passed = passed + 1;
        }
        if self.agents.is_passed() {
            passed = passed + 1;
        }
        if self.system.is_passed() {
            passed = passed + 1;
        }
        if self.performance.is_passed() {
            passed = passed + 1;
        }
        if self.security.is_passed() {
            passed = passed + 1;
        }
        let digit = match passed {
            0 => "0",
            1 => "1",
            2 => "2",
            3 => "3",
            4 => "4",
            _ => "5",
        };
        let mut r = String::from_str("Tests: ");
        r.append(digit);
        r.append("/5 passed");
        r
    }
}

} // verus!
