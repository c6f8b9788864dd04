//! The conformance test-suite harness: the suite that selects and stores
//! test cases, and the per-file case with its pass/fail bookkeeping.
//!
//! Reading the test files and running the external parser over them belong
//! to outside collaborators; this module holds the decisions: which paths
//! are skipped, whether a case is expected to fail, and how per-unit parse
//! outcomes resolve into a test result.

use vstd::prelude::*;
use vstd::string::StringExecFns;

use crate::order::contains_str;
use crate::order::table_view;
use crate::tables::is_not_supported_error_code;
use crate::tables::not_supported_error_codes_spec;
use crate::text::contains_sub;
use crate::text::str_contains;

verus! {

/// File names of tests that are knowingly skipped: they rely on compiler
/// options this harness does not model.
pub open spec fn unsupported_tests_spec() -> Seq<Seq<char>> {
    seq![
        "functionWithUseStrictAndSimpleParameterList.ts"@,
        "parameterInitializerBeforeDestructuringEmit.ts"@,
        "unicodeExtendedEscapesInRegularExpressions01.ts"@,
        "unicodeExtendedEscapesInRegularExpressions02.ts"@,
        "unicodeExtendedEscapesInRegularExpressions03.ts"@,
        "unicodeExtendedEscapesInRegularExpressions04.ts"@,
        "unicodeExtendedEscapesInRegularExpressions05.ts"@,
        "unicodeExtendedEscapesInRegularExpressions06.ts"@,
        "unicodeExtendedEscapesInRegularExpressions08.ts"@,
        "unicodeExtendedEscapesInRegularExpressions09.ts"@,
        "unicodeExtendedEscapesInRegularExpressions10.ts"@,
        "unicodeExtendedEscapesInRegularExpressions11.ts"@,
        "unicodeExtendedEscapesInRegularExpressions13.ts"@,
        "unicodeExtendedEscapesInRegularExpressions15.ts"@,
        "unicodeExtendedEscapesInRegularExpressions16.ts"@,
        "unicodeExtendedEscapesInRegularExpressions18.ts"@,
    ]
}

/// The executable table of skipped test names.
pub fn unsupported_tests() -> (t: Vec<&'static str>)
    ensures
        table_view(t@) =~= unsupported_tests_spec(),
{
    let mut t: Vec<&'static str> = Vec::new();
    t.push("functionWithUseStrictAndSimpleParameterList.ts");
    t.push("parameterInitializerBeforeDestructuringEmit.ts");
    t.push("unicodeExtendedEscapesInRegularExpressions01.ts");
    t.push("unicodeExtendedEscapesInRegularExpressions02.ts");
    t.push("unicodeExtendedEscapesInRegularExpressions03.ts");
    t.push("unicodeExtendedEscapesInRegularExpressions04.ts");
    t.push("unicodeExtendedEscapesInRegularExpressions05.ts");
    t.push("unicodeExtendedEscapesInRegularExpressions06.ts");
    t.push("unicodeExtendedEscapesInRegularExpressions08.ts");
    t.push("unicodeExtendedEscapesInRegularExpressions09.ts");
    t.push("unicodeExtendedEscapesInRegularExpressions10.ts");
    t.push("unicodeExtendedEscapesInRegularExpressions11.ts");
    t.push("unicodeExtendedEscapesInRegularExpressions13.ts");
    t.push("unicodeExtendedEscapesInRegularExpressions15.ts");
    t.push("unicodeExtendedEscapesInRegularExpressions16.ts");
    t.push("unicodeExtendedEscapesInRegularExpressions18.ts");
    proof {
        assert(table_view(t@) =~= unsupported_tests_spec());
    }
    t
}

/// A path is skipped when it lies outside the supported directories, or
/// names one of the skipped tests.
pub open spec fn skip_path_spec(path: Seq<char>) -> bool {
    ||| !(contains_sub(path, "conformance"@) || contains_sub(path, "compiler"@))
    ||| exists|k: int|
        0 <= k < unsupported_tests_spec().len() && contains_sub(
            path,
            #[trigger] unsupported_tests_spec()[k],
        )
}

/// The per-file unit of a multi-part test file.
#[derive(Debug, Clone)]
pub struct TestUnitData {
    pub content: String,
}

/// The compiler settings a test file declares, as far as the harness reads
/// them.
#[derive(Debug, Clone, Copy, PartialEq, Eq, Structural)]
pub struct CompilerSettings {
    pub always_strict: bool,
}

/// The outcome of one test case.
#[derive(Debug, Clone, Copy, PartialEq, Eq, Structural)]
pub enum TestResult {
    ToBeRun,
    Passed,
    Failed,
}

/// The suite of conformance test cases under one test root.
#[derive(Debug)]
pub struct TypeScriptSuite<T> {
    test_root: String,
    test_cases: Vec<T>,
}

impl<T> TypeScriptSuite<T> {
    /// The directory the suite's cases are discovered under.
    pub closed spec fn spec_test_root(&self) -> String {
        self.test_root
    }

    /// The cases stored so far.
    pub closed spec fn spec_test_cases(&self) -> Seq<T> {
        self.test_cases@
    }

    /// A fresh suite rooted at the conformance case directory, with no
    /// cases stored yet.
    pub fn new() -> (s: Self)
        ensures
            s.spec_test_root()@ == "typescript/tests/cases"@,
            s.spec_test_cases() =~= Seq::<T>::empty(),
    {
        TypeScriptSuite {
            test_root: String::from_str("typescript/tests/cases"),
            test_cases: Vec::new(),
        }
    }

    pub fn get_test_root(&self) -> (root: &String)
        ensures
            root@ == self.spec_test_root()@,
    {
        &self.test_root
    }

    /// Whether discovery must skip the file at `path`.
    pub fn skip_test_path(&self, path: &str) -> (skip: bool)
        ensures
            skip == skip_path_spec(path@),
    {
        let in_conformance = str_contains(path, "conformance");
        let in_compiler = str_contains(path, "compiler");
        if !in_conformance && !in_compiler {
            return true;
        }
        let table = unsupported_tests();
        let mut k: usize = 0;
        while k < table.len()
            invariant
                table_view(table@) =~= unsupported_tests_spec(),
                k <= table@.len(),
                forall|l: int|
                    0 <= l < k ==> !contains_sub(path@, #[trigger] unsupported_tests_spec()[l]),
            decreases table@.len() - k,
        {
            if str_contains(path, table[k]) {
                proof {
                    assert(table@[k as int]@ == table_view(table@)[k as int]);
                    assert(contains_sub(path@, unsupported_tests_spec()[k as int]));
                }
                return true;
            }
            k = k + 1;
        }
        proof {
            if skip_path_spec(path@) {
                let l = choose|l: int|
                    0 <= l < unsupported_tests_spec().len() && contains_sub(
                        path@,
                        #[trigger] unsupported_tests_spec()[l],
                    );
            }
        }
        false
    }

    /// Store the discovered cases.
    pub fn save_test_cases(&mut self, tests: Vec<T>)
        ensures
            final(self).spec_test_cases() == tests@,
            final(self).spec_test_root() == old(self).spec_test_root(),
    {
        self.test_cases = tests;
    }

    pub fn get_test_cases(&self) -> (cases: &Vec<T>)
        ensures
            cases@ == self.spec_test_cases(),
    {
        &self.test_cases
    }

    pub fn get_test_cases_mut(&mut self) -> (cases: &mut Vec<T>)
        ensures
            cases@ == old(self).spec_test_cases(),
            final(self).spec_test_cases() == final(cases)@,
            final(self).spec_test_root() == old(self).spec_test_root(),
    {
        &mut self.test_cases
    }
}

/// One conformance test file, split into units by the external metadata
/// reader, with the error codes its baseline still expects.
#[derive(Debug)]
pub struct TypeScriptCase {
    pub path: String,
    pub code: String,
    pub units: Vec<TestUnitData>,
    pub settings: CompilerSettings,
    pub error_codes: Vec<String>,
    pub result: TestResult,
}

impl TypeScriptCase {
    /// The path of the test file.
    pub open spec fn spec_path(&self) -> String {
        self.path
    }

    /// The expected error codes of the test file's baseline.
    pub open spec fn spec_error_codes(&self) -> Seq<String> {
        self.error_codes@
    }

    /// A case should fail as long as some expected error code is not in the
    /// knowingly-unsupported table.
    pub open spec fn spec_should_fail(&self) -> bool {
        exists|k: int|
            0 <= k < self.spec_error_codes().len() && !contains_str(
                not_supported_error_codes_spec(),
                (#[trigger] self.spec_error_codes()[k])@,
            )
    }

    /// A case from the split parts the external metadata reader produced.
    pub fn from_parts(
        path: String,
        code: String,
        units: Vec<TestUnitData>,
        settings: CompilerSettings,
        error_codes: Vec<String>,
    ) -> (c: Self)
        ensures
            c.spec_path() == path,
            c.code == code,
            c.units@ == units@,
            c.settings == settings,
            c.spec_error_codes() == error_codes@,
            c.result == TestResult::ToBeRun,
    {
        TypeScriptCase { path, code, units, settings, error_codes, result: TestResult::ToBeRun }
    }

    /// A case holding one whole file as a single unit, with no expected
    /// error codes and default settings.
    pub fn new(path: String, code: String) -> (c: Self)
        ensures
            c.spec_path() == path,
            c.code@ == code@,
            c.units@.len() == 1,
            c.units@[0].content@ == code@,
            c.settings == (CompilerSettings { always_strict: false }),
            c.spec_error_codes() =~= Seq::<String>::empty(),
            c.result == TestResult::ToBeRun,
    {
        let mut units: Vec<TestUnitData> = Vec::new();
        units.push(TestUnitData { content: code.clone() });
        TypeScriptCase {
            path,
            code,
            units,
            settings: CompilerSettings { always_strict: false },
            error_codes: Vec::new(),
            result: TestResult::ToBeRun,
        }
    }

    pub fn code(&self) -> (code: &String)
        ensures
            code@ == self.code@,
    {
        &self.code
    }

    pub fn path(&self) -> (path: &String)
        ensures
            path@ == self.spec_path()@,
    {
        &self.path
    }

    pub fn test_result(&self) -> (result: &TestResult)
        ensures
            *result == self.result,
    {
        &self.result
    }

    /// Whether some expected error code is still unsupported, so the case
    /// is expected to fail.
    pub fn should_fail(&self) -> (b: bool)
        ensures
            b == self.spec_should_fail(),
    {
        let mut k: usize = 0;
        while k < self.error_codes.len()
            invariant
                k <= self.spec_error_codes().len(),
                forall|l: int|
                    0 <= l < k ==> contains_str(
                        not_supported_error_codes_spec(),
                        (#[trigger] self.spec_error_codes()[l])@,
                    ),
            decreases self.spec_error_codes().len() - k,
        {
            if !is_not_supported_error_code(self.error_codes[k].as_str()) {
                return true;
            }
            k = k + 1;
        }
        proof {
            if self.spec_should_fail() {
                let l = choose|l: int|
                    0 <= l < self.spec_error_codes().len() && !contains_str(
                        not_supported_error_codes_spec(),
                        (#[trigger] self.spec_error_codes()[l])@,
                    );
            }
        }
        false
    }

    pub fn always_strict(&self) -> (b: bool)
        ensures
            b == self.settings.always_strict,
    {
        self.settings.always_strict
    }

    /// Resolve per-unit parse outcomes into the case's result: it passes
    /// exactly when the presence of a failing unit agrees with the
    /// expectation that the case should fail.
    pub fn run(&mut self, unit_failed: &Vec<bool>)
        requires
            unit_failed@.len() == old(self).units@.len(),
        ensures
            final(self).result == (if any_true(unit_failed@) == old(self).spec_should_fail() {
                TestResult::Passed
            } else {
                TestResult::Failed
            }),
            final(self).spec_path() == old(self).spec_path(),
            final(self).code == old(self).code,
            final(self).units@ == old(self).units@,
            final(self).settings == old(self).settings,
            final(self).spec_error_codes() == old(self).spec_error_codes(),
    {
        let mut failed = false;
        let mut k: usize = 0;
        while k < unit_failed.len()
            invariant
                k <= unit_failed@.len(),
                failed == exists|l: int| 0 <= l < k && unit_failed@[l],
            decreases unit_failed@.len() - k,
        {
            if unit_failed[k] {
                failed = true;
            }
            k = k + 1;
        }
        proof {
            assert(failed == any_true(unit_failed@));
        }
        let expected_to_fail = self.should_fail();
        self.result = if failed == expected_to_fail {
            TestResult::Passed
        } else {
            TestResult::Failed
        };
    }
}

/// Whether some entry of a boolean sequence is set.
pub open spec fn any_true(v: Seq<bool>) -> bool {
    exists|l: int| 0 <= l < v.len() && v[l]
}

} // verus!
