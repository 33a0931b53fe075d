//! Window matching: free of any platform API, so it works on plain candidate
//! data. Ambiguity is never resolved by guessing.

use vstd::prelude::*;

use crate::error::{AppError, AppResult};
use crate::model::target::{TitleMatchMode, WindowCandidate, WindowTarget};
use crate::pattern::{compile_pattern, spec_regex_compiles, spec_regex_error, spec_regex_is_match};
use crate::text::{
    chars_of, contains_chars, str_eq, string_from_chars, contains_spec, eq_ignore_ascii_case, eq_ignore_ascii_case_spec,
    spec_to_lowercase, to_lowercase,
};

verus! {

/// The candidate satisfies the process criteria that are set (name, ASCII
/// case-insensitive; process id, exact).
pub open spec fn process_ok(c: WindowCandidate, t: WindowTarget) -> bool {
    &&& (t.process_name matches Some(want) ==> eq_ignore_ascii_case_spec(c.process_name@, want@))
    &&& (t.process_id matches Some(want) ==> c.process_id == want)
}

/// How the title criterion judges a candidate: `Ok` with the verdict, or
/// `Err` with the text of the error of an invalid regular expression.
pub open spec fn title_check(c: WindowCandidate, t: WindowTarget) -> Result<bool, Seq<char>> {
    if t.title_match_mode == TitleMatchMode::Any {
        Ok(true)
    } else {
        match t.title {
            None => Ok(true),
            Some(want) => match t.title_match_mode {
                TitleMatchMode::Exact => Ok(c.title@ == want@),
                TitleMatchMode::Contains => Ok(
                    contains_spec(spec_to_lowercase(c.title@), spec_to_lowercase(want@)),
                ),
                TitleMatchMode::Regex => if spec_regex_compiles(want@) {
                    Ok(spec_regex_is_match(want@, c.title@))
                } else {
                    Err(spec_regex_error(want@))
                },
                TitleMatchMode::Any => Ok(true),
            },
        }
    }
}

/// The candidate satisfies every criterion of the target.
pub open spec fn candidate_matches(c: WindowCandidate, t: WindowTarget) -> bool {
    process_ok(c, t) && title_check(c, t) == Ok::<bool, Seq<char>>(true)
}

/// Scanning candidates in order: the indices of those that match, or the
/// error of the first candidate whose process matches and whose title
/// criterion is an invalid regular expression (titles are only checked for
/// candidates whose process matches).
pub open spec fn scan(cands: Seq<WindowCandidate>, t: WindowTarget) -> Result<Seq<int>, Seq<char>>
    decreases cands.len(),
{
    if cands.len() == 0 {
        Ok(Seq::empty())
    } else {
        let n = cands.len() - 1;
        match scan(cands.drop_last(), t) {
            Err(m) => Err(m),
            Ok(idx) => if process_ok(cands[n], t) {
                match title_check(cands[n], t) {
                    Err(m) => Err(m),
                    Ok(b) => Ok(if b { idx.push(n) } else { idx }),
                }
            } else {
                Ok(idx)
            },
        }
    }
}

/// What resolving a target against candidates gives: exactly one match is
/// the answer; none is `TargetNotFound`; two or more is `TargetAmbiguous`;
/// an invalid title regex is `InvalidTitleRegex`.
pub open spec fn resolution_allows(
    cands: Seq<WindowCandidate>,
    t: WindowTarget,
    r: AppResult<WindowCandidate>,
) -> bool {
    match scan(cands, t) {
        Err(m) => r matches Err(AppError::InvalidTitleRegex(s)) && s@ == m,
        Ok(idx) => if idx.len() == 0 {
            r == Err::<WindowCandidate, AppError>(AppError::TargetNotFound)
        } else if idx.len() == 1 {
            r == Ok::<WindowCandidate, AppError>(cands[idx[0]])
        } else {
            r == Err::<WindowCandidate, AppError>(AppError::TargetAmbiguous)
        },
    }
}

/// Does one candidate satisfy the process criteria (if any are set)?
fn process_matches(candidate: &WindowCandidate, target: &WindowTarget) -> (r: bool)
    ensures
        r == process_ok(*candidate, *target),
{
    let name_ok = match &target.process_name {
        Some(want) => eq_ignore_ascii_case(candidate.process_name.as_str(), want.as_str()),
        None => true,
    };
    let pid_ok = match target.process_id {
        Some(want) => candidate.process_id == want,
        None => true,
    };
    name_ok && pid_ok
}

/// Does one candidate satisfy the title criteria for the given match mode?
fn title_matches(candidate: &WindowCandidate, target: &WindowTarget) -> (r: AppResult<bool>)
    ensures
        match title_check(*candidate, *target) {
            Ok(b) => r == Ok::<bool, AppError>(b),
            Err(m) => r matches Err(AppError::InvalidTitleRegex(s)) && s@ == m,
        },
{
    if target.title_match_mode == TitleMatchMode::Any {
        return Ok(true);
    }
    let want = match &target.title {
        Some(w) => w,
        None => {
            return Ok(true);
        },
    };
    match target.title_match_mode {
        TitleMatchMode::Exact => Ok(str_eq(candidate.title.as_str(), want.as_str())),
        TitleMatchMode::Contains => {
            let hay = to_lowercase(candidate.title.as_str());
            let needle = to_lowercase(want.as_str());
            Ok(contains_chars(&chars_of(hay.as_str()), &chars_of(needle.as_str())))
        },
        TitleMatchMode::Regex => match compile_pattern(want.as_str()) {
            Ok(p) => Ok(p.is_match(candidate.title.as_str())),
            Err(e) => Err(AppError::InvalidTitleRegex(e)),
        },
        TitleMatchMode::Any => Ok(true),
    }
}

/// Resolve exactly one candidate or fail. Multiple matches are
/// `TargetAmbiguous`, never a guess; zero is `TargetNotFound`.
pub fn resolve_target(candidates: &[WindowCandidate], target: &WindowTarget) -> (r: AppResult<
    WindowCandidate,
>)
    ensures
        resolution_allows(candidates@, *target, r),
{
    let ghost all = candidates@;
    let mut matched: Vec<usize> = Vec::new();
    let mut i: usize = 0;
    while i < candidates.len()
        invariant
            all == candidates@,
            i <= candidates.len(),
            scan(all.take(i as int), *target) matches Ok(idx) && idx.len() == matched@.len()
                && forall|k: int| 0 <= k < idx.len() ==> idx[k] == matched@[k] as int && 0
                    <= #[trigger] matched@[k] < i,
        decreases candidates.len() - i,
    {
        proof {
            assert(all.take(i + 1).drop_last() =~= all.take(i as int));
            assert(all.take(i + 1)[i as int] == all[i as int]);
        }
        if process_matches(&candidates[i], target) {
            let ok = match title_matches(&candidates[i], target) {
                Ok(b) => b,
                Err(e) => {
                    proof {
                        lemma_scan_error_persists(all, *target, i as int + 1);
                        assert(all.take(all.len() as int) =~= all);
                    }
                    return Err(e);
                },
            };
            if ok {
                matched.push(i);
            }
        }
        i = i + 1;
    }
    proof {
        assert(all.take(i as int) =~= all);
    }
    if matched.len() == 0 {
        Err(AppError::TargetNotFound)
    } else if matched.len() == 1 {
        Ok(candidates[matched[0]].clone())
    } else {
        Err(AppError::TargetAmbiguous)
    }
}

/// Once the scan of a prefix fails, the scan of every longer prefix fails
/// with the same error.
proof fn lemma_scan_error_persists(all: Seq<WindowCandidate>, t: WindowTarget, j: int)
    requires
        0 <= j <= all.len(),
        scan(all.take(j), t) is Err,
    ensures
        scan(all, t) == scan(all.take(j), t),
    decreases all.len() - j,
{
    if j < all.len() {
        assert(all.take(j + 1).drop_last() =~= all.take(j));
        lemma_scan_error_persists(all, t, j + 1);
    } else {
        assert(all.take(j) =~= all);
    }
}

/// The scan finds exactly the matching candidates: when no title criterion
/// fails to compile, an index is listed iff the candidate at that index
/// satisfies every criterion, in increasing order. So resolution succeeds
/// iff exactly one candidate matches, and reports ambiguity iff two or more do.
pub proof fn scan_lists_exactly_the_matches(cands: Seq<WindowCandidate>, t: WindowTarget)
    requires
        scan(cands, t) is Ok,
    ensures
        ({
            let idx = scan(cands, t)->Ok_0;
            &&& forall|i: int| 0 <= i < cands.len() ==> (idx.contains(i) <==> candidate_matches(
                #[trigger] cands[i],
                t,
            ))
            &&& forall|k: int| 0 <= k < idx.len() ==> 0 <= #[trigger] idx[k] < cands.len()
            &&& forall|k1: int, k2: int| 0 <= k1 < k2 < idx.len() ==> idx[k1] < idx[k2]
        }),
    decreases cands.len(),
{
    if cands.len() > 0 {
        let n = cands.len() - 1;
        let prev = cands.drop_last();
        scan_lists_exactly_the_matches(prev, t);
        let idx0 = scan(prev, t)->Ok_0;
        let idx = scan(cands, t)->Ok_0;
        assert forall|i: int| 0 <= i < cands.len() implies (idx.contains(i) <==> candidate_matches(
            #[trigger] cands[i],
            t,
        )) by {
            if i < n {
                assert(prev[i] == cands[i]);
                if idx.contains(i) {
                    let k = choose|k: int| 0 <= k < idx.len() && idx[k] == i;
                    if k < idx0.len() {
                        assert(idx0[k] == i);
                    }
                } else {
                    if idx0.contains(i) {
                        let k = choose|k: int| 0 <= k < idx0.len() && idx0[k] == i;
                        assert(idx[k] == i);
                    }
                }
            } else {
                if idx.contains(i) {
                    let k = choose|k: int| 0 <= k < idx.len() && idx[k] == i;
                    if k < idx0.len() {
                        assert(idx0[k] == idx[k]);
                    }
                } else if candidate_matches(cands[i], t) {
                    assert(idx[idx.len() - 1] == n);
                }
            }
        }
    }
}

/// The candidates that satisfy every criterion of the target, in order.
pub open spec fn matching(cands: Seq<WindowCandidate>, t: WindowTarget) -> Seq<WindowCandidate> {
    cands.filter(|c: WindowCandidate| candidate_matches(c, t))
}

/// No candidate whose process matches has a title pattern that fails to
/// compile.
pub open spec fn titles_compile(cands: Seq<WindowCandidate>, t: WindowTarget) -> bool {
    forall|i: int| 0 <= i < cands.len() && process_ok(cands[i], t) ==> (#[trigger] title_check(cands[i], t)) is Ok
}

proof fn lemma_scan_is_filter(cands: Seq<WindowCandidate>, t: WindowTarget)
    requires
        titles_compile(cands, t),
    ensures
        scan(cands, t) is Ok,
        scan(cands, t)->Ok_0.len() == matching(cands, t).len(),
        scan(cands, t)->Ok_0.len() > 0 ==> cands[scan(cands, t)->Ok_0[0]] == matching(cands, t)[0],
    decreases cands.len(),
{
    reveal(Seq::filter);
    if cands.len() > 0 {
        let n = cands.len() - 1;
        let prev = cands.drop_last();
        assert forall|i: int| 0 <= i < prev.len() && process_ok(prev[i], t) implies (#[trigger] title_check(
            prev[i],
            t,
        )) is Ok by {
            assert(prev[i] == cands[i]);
        }
        lemma_scan_is_filter(prev, t);
        scan_lists_exactly_the_matches(prev, t);
        assert(process_ok(cands[n], t) ==> title_check(cands[n], t) is Ok);
        let idx0 = scan(prev, t)->Ok_0;
        assert(matching(prev, t) == prev.filter(|c: WindowCandidate| candidate_matches(c, t)));
        if idx0.len() > 0 {
            assert(prev[idx0[0]] == cands[idx0[0]]);
        }
    }
}

/// Resolution follows the list of matching windows: when every title
/// pattern compiles, it succeeds iff exactly one candidate matches, and then
/// with that candidate; it reports `TargetNotFound` iff none matches and
/// `TargetAmbiguous` iff two or more do.
pub proof fn resolution_follows_the_matching_windows(
    cands: Seq<WindowCandidate>,
    t: WindowTarget,
    r: AppResult<WindowCandidate>,
)
    requires
        titles_compile(cands, t),
        resolution_allows(cands, t, r),
    ensures
        r is Ok <==> matching(cands, t).len() == 1,
        r matches Ok(c) ==> c == matching(cands, t)[0],
        r == Err::<WindowCandidate, AppError>(AppError::TargetNotFound) <==> matching(cands, t).len()
            == 0,
        r == Err::<WindowCandidate, AppError>(AppError::TargetAmbiguous) <==> matching(cands, t).len()
            >= 2,
{
    lemma_scan_is_filter(cands, t);
}

/// A path separator of either platform.
pub open spec fn is_separator(c: char) -> bool {
    c == '\\' || c == '/'
}

/// The last component of a path: what follows its last separator (all of
/// it when there is none).
pub open spec fn last_component(path: Seq<char>) -> Seq<char>
    decreases path.len(),
{
    if path.len() == 0 {
        path
    } else if is_separator(path.last()) {
        Seq::empty()
    } else {
        last_component(path.drop_last()).push(path.last())
    }
}

/// The process name shown for a window: the file name of the process image
/// path, such as `WindowsTerminal.exe`.
pub fn image_file_name(path: &str) -> (r: String)
    ensures
        r@ == last_component(path@),
{
    let chars = chars_of(path);
    let mut name: Vec<char> = Vec::new();
    let mut i: usize = 0;
    while i < chars.len()
        invariant
            i <= chars.len(),
            chars@ == path@,
            name@ == last_component(chars@.take(i as int)),
        decreases chars.len() - i,
    {
        proof {
            assert(chars@.take(i + 1).drop_last() =~= chars@.take(i as int));
        }
        let c = chars[i];
        if c == '\\' || c == '/' {
            name = Vec::new();
            proof {
                assert(name@ =~= Seq::<char>::empty());
            }
        } else {
            name.push(c);
        }
        i = i + 1;
    }
    proof {
        assert(chars@.take(chars.len() as int) =~= chars@);
    }
    string_from_chars(name.as_slice())
}

} // verus!
