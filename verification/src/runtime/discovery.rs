//! Test discovery: the glob pattern, and the filters on discovered tests.

use crate::models::test::TestDescriptor;
use crate::pattern::{compile_pattern, pattern_is_match, regex_error, regex_matches, CompiledPattern};
use crate::text::{cat2, chars_of};
use vstd::string::StrSliceExecFns;
use crate::text::lemma_push_contains;
use vstd::prelude::*;

verus! {

/// The text without the trailing occurrences of `c`.
pub open spec fn trim_trailing(s: Seq<char>, c: char) -> Seq<char>
    decreases s.len(),
{
    if s.len() > 0 && s.last() == c {
        trim_trailing(s.drop_last(), c)
    } else {
        s
    }
}

/// The glob pattern for a test pattern: a directory stands for all `.toml`
/// files under it, at any depth; any other pattern is a glob already.
pub open spec fn glob_pattern(pattern: Seq<char>, is_dir: bool) -> Seq<char> {
    if is_dir {
        trim_trailing(pattern, '/') + "/**/*.toml"@
    } else {
        pattern
    }
}

/// Test discovery from TOML files using glob patterns.
pub struct TestDiscovery {
    base_dir: std::path::PathBuf,
    pattern: String,
}

/// The length of `s` without its trailing occurrences of `c`.
fn trimmed_len(s: &Vec<char>, c: char) -> (n: usize)
    ensures
        n <= s@.len(),
        s@.subrange(0, n as int) == trim_trailing(s@, c),
{
    let mut n = s.len();
    assert(s@.subrange(0, n as int) =~= s@);
    while n > 0 && s[n - 1] == c
        invariant
            n <= s@.len(),
            trim_trailing(s@.subrange(0, n as int), c) == trim_trailing(s@, c),
        decreases n,
    {
        assert(s@.subrange(0, n as int).drop_last() =~= s@.subrange(0, n - 1));
        n = n - 1;
    }
    n
}

impl TestDiscovery {
    /// The glob pattern of this discovery.
    pub closed spec fn glob(&self) -> Seq<char> {
        self.pattern@
    }

    /// A discovery for a test pattern, run from `base_dir`; `pattern_is_dir`
    /// tells whether the pattern names an existing directory.
    pub fn new(pattern: String, pattern_is_dir: bool, base_dir: std::path::PathBuf) -> (r: Self)
        ensures
            r.glob() == glob_pattern(pattern@, pattern_is_dir),
            r.base() == base_dir,
    {
        if pattern_is_dir {
            let chars = chars_of(pattern.as_str());
            let n = trimmed_len(&chars, '/');
            let kept = pattern.as_str().substring_char(0, n);
            TestDiscovery { base_dir, pattern: cat2(kept, "/**/*.toml") }
        } else {
            TestDiscovery { base_dir, pattern }
        }
    }

    /// The directory the discovery runs from.
    pub closed spec fn base(&self) -> std::path::PathBuf {
        self.base_dir
    }

    /// The glob pattern that finds the test files.
    pub fn pattern(&self) -> (r: &str)
        ensures
            r@ == self.glob(),
    {
        self.pattern.as_str()
    }

    /// The directory the discovery runs from.
    pub fn base_dir(&self) -> (r: &std::path::PathBuf)
        ensures
            *r == self.base(),
    {
        &self.base_dir
    }
}

/// Filter for test discovery.
pub struct TestFilter {
    pub name_regex: Option<CompiledPattern>,
    pub skill: Option<String>,
}

/// A test passes a filter: its skill is the filter's skill, if any, and its
/// name matches the filter's expression, if any.
pub open spec fn filter_admits(filter: TestFilter, skill_name: Seq<char>, test_name: Seq<char>) -> bool {
    &&& filter.skill matches Some(s) ==> s@ == skill_name
    &&& filter.name_regex matches Some(re) ==> regex_matches(re.source(), test_name)
}

impl TestFilter {
    /// A filter that admits every test.
    pub fn new() -> (r: Self)
        ensures
            r.name_regex is None,
            r.skill is None,
    {
        TestFilter { name_regex: None, skill: None }
    }

    /// Set the name filter to a regular expression; an expression that does
    /// not compile is refused with the compiler's error.
    pub fn with_name_regex(self, pattern: &str) -> (r: Result<Self, String>)
        ensures
            r is Ok <==> regex_error(pattern@) is None,
            r matches Ok(f) ==> f.skill == self.skill,
            r matches Ok(f) ==> (f.name_regex matches Some(re) && re.source() == pattern@),
            r matches Err(e) ==> regex_error(pattern@) == Some(e@),
    {
        match compile_pattern(pattern) {
            Ok(re) => Ok(TestFilter { name_regex: Some(re), skill: self.skill }),
            Err(e) => Err(e),
        }
    }

    /// Set the skill filter.
    pub fn with_skill(self, skill: String) -> (r: Self)
        ensures
            r.skill == Some(skill),
            r.name_regex == self.name_regex,
    {
        TestFilter { name_regex: self.name_regex, skill: Some(skill) }
    }

    /// Check if a test matches the filter.
    pub fn matches(&self, test: &TestDescriptor) -> (r: bool)
        ensures
            r == filter_admits(*self, test.skill_name@, test.test_name@),
    {
        match &self.skill {
            Some(skill) => {
                if !crate::text::str_eq(test.skill_name.as_str(), skill.as_str()) {
                    return false;
                }
            },
            None => {},
        }
        match &self.name_regex {
            Some(re) => pattern_is_match(re, test.test_name.as_str()),
            None => true,
        }
    }
}

impl Default for TestFilter {
    fn default() -> (r: Self)
        ensures
            r.name_regex is None,
            r.skill is None,
    {
        Self::new()
    }
}

/// A discovered test is run: it passes the filter and, when only failed
/// tests are rerun, its id is among them.
pub open spec fn test_selected(filter: TestFilter, failed_ids: Option<Seq<Seq<char>>>, test: TestDescriptor) -> bool {
    &&& filter_admits(filter, test.skill_name@, test.test_name@)
    &&& failed_ids matches Some(ids) ==> ids.contains(test.test_id@)
}

/// Whether a discovered test is run.
pub fn is_selected(filter: &TestFilter, failed_ids: Option<&Vec<String>>, test: &TestDescriptor) -> (r: bool)
    ensures
        r == test_selected(*filter, ids_view(failed_ids), *test),
{
    if !filter.matches(test) {
        return false;
    }
    match failed_ids {
        None => true,
        Some(ids) => {
            let ghost views = ids_view(failed_ids).unwrap();
            let mut i: usize = 0;
            while i < ids.len()
                invariant
                    i <= ids@.len(),
                    views == ids_view(failed_ids).unwrap(),
                    views == ids@.map_values(|s: String| s@),
                    filter_admits(*filter, test.skill_name@, test.test_name@),
                    failed_ids == Some(ids),
                    forall|k: int| 0 <= k < i ==> views[k] != test.test_id@,
                decreases ids@.len() - i,
            {
                if crate::text::str_eq(ids[i].as_str(), test.test_id.as_str()) {
                    assert(views[i as int] == test.test_id@);
                    return true;
                }
                i = i + 1;
            }
            false
        },
    }
}

/// The number of distinct skills among tests.
pub fn count_skills(tests: &Vec<TestDescriptor>) -> (n: usize)
    ensures
        n == tests@.map_values(|t: TestDescriptor| t.skill_name@).to_set().len(),
{
    let ghost names = tests@.map_values(|t: TestDescriptor| t.skill_name@);
    let mut seen: Vec<&str> = Vec::new();
    let mut i: usize = 0;
    while i < tests.len()
        invariant
            i <= tests@.len(),
            names == tests@.map_values(|t: TestDescriptor| t.skill_name@),
            seen@.map_values(|s: &str| s@).no_duplicates(),
            seen@.map_values(|s: &str| s@).to_set() == names.take(i as int).to_set(),
            seen@.len() <= i,
        decreases tests@.len() - i,
    {
        let name = tests[i].skill_name.as_str();
        let ghost sv = seen@.map_values(|s: &str| s@);
        let mut found = false;
        let mut j: usize = 0;
        while j < seen.len()
            invariant
                j <= seen@.len(),
                sv == seen@.map_values(|s: &str| s@),
                found == exists|k: int| 0 <= k < j && sv[k] == name@,
            decreases seen@.len() - j,
        {
            assert(sv[j as int] == seen@[j as int]@);
            if crate::text::str_eq(seen[j], name) {
                found = true;
            }
            j = j + 1;
        }
        proof {
            assert(names.take(i + 1) =~= names.take(i as int).push(name@));
            assert forall|a: Seq<char>|
                #[trigger] names.take(i + 1).to_set().contains(a) <==> (names.take(i as int).to_set().contains(a) || a == name@) by {
                lemma_push_contains(names.take(i as int), name@, a);
            }
        }
        if !found {
            seen.push(name);
            proof {
                assert(seen@.map_values(|s: &str| s@) =~= sv.push(name@));
                assert forall|a: Seq<char>|
                    #[trigger] sv.push(name@).to_set().contains(a) <==> (sv.to_set().contains(a) || a == name@) by {
                    lemma_push_contains(sv, name@, a);
                }
                assert(seen@.map_values(|s: &str| s@).to_set() =~= names.take(i + 1).to_set());
            }
        } else {
            proof {
                assert(sv.contains(name@));
                assert(sv.to_set() =~= names.take(i + 1).to_set());
            }
        }
        i = i + 1;
    }
    proof {
        assert(names.take(i as int) =~= names);
        seen@.map_values(|s: &str| s@).unique_seq_to_set();
    }
    seen.len()
}

/// The ids as text.
pub open spec fn ids_view(failed_ids: Option<&Vec<String>>) -> Option<Seq<Seq<char>>> {
    match failed_ids {
        Some(ids) => Some(ids@.map_values(|s: String| s@)),
        None => None,
    }
}

/// The discovered tests that are run, in their order: those that pass the
/// filter and, when only failed tests are rerun, whose ids are among them.
pub fn select_tests(tests: Vec<TestDescriptor>, filter: &TestFilter, failed_ids: Option<&Vec<String>>) -> (r: Vec<
    TestDescriptor,
>)
    ensures
        r@ == tests@.filter(|t: TestDescriptor| test_selected(*filter, ids_view(failed_ids), t)),
{
    let ghost sel = |t: TestDescriptor| test_selected(*filter, ids_view(failed_ids), t);
    let ghost all = tests@;
    let mut rest = tests;
    let mut kept: Vec<TestDescriptor> = Vec::new();
    let ghost mut k: int = 0;
    while rest.len() > 0
        invariant
            0 <= k <= all.len(),
            sel == (|t: TestDescriptor| test_selected(*filter, ids_view(failed_ids), t)),
            rest@ == all.skip(k),
            kept@ == all.take(k).filter(sel),
        decreases rest@.len(),
    {
        let t = rest.remove(0);
        proof {
            reveal(Seq::filter);
            assert(t == all[k]);
            assert(all.take(k + 1).drop_last() =~= all.take(k));
            assert(all.take(k + 1).last() == t);
            assert(rest@ =~= all.skip(k + 1));
        }
        let chosen = is_selected(filter, failed_ids, &t);
        proof {
            assert(chosen == sel(t));
            if chosen {
                assert(all.take(k + 1).filter(sel) =~= all.take(k).filter(sel).push(t));
            } else {
                assert(all.take(k + 1).filter(sel) =~= all.take(k).filter(sel));
            }
            k = k + 1;
        }
        if chosen {
            kept.push(t);
        }
    }
    proof {
        assert(all.take(k) =~= all);
    }
    kept
}

/// Whether a file that the pattern found is a test file: its extension is `toml`.
pub fn is_test_file(extension: Option<&str>) -> (r: bool)
    ensures
        r == (extension matches Some(e) && e@ == "toml"@),
{
    match extension {
        Some(e) => crate::text::str_eq(e, "toml"),
        None => false,
    }
}

}
