use vstd::prelude::*;
use crate::config::{Config, all_patterns, protected_patterns};

verus! {

/// What a check found.
#[derive(PartialEq, Eq, Structural, Debug, Clone, Copy)]
pub enum CheckResult {
    UndesiredChangesDetected,
    NoChangesDetected,
}

/// Why a check could not be completed.
#[derive(PartialEq, Eq, Debug, Clone)]
pub enum CheckError {
    /// A pattern of the configuration is not a valid glob pattern.
    InvalidPattern(String),
}

/// The state of one path as the repository reports it: how its index differs
/// from HEAD, and how its working tree differs from the index.
#[derive(PartialEq, Eq, Structural, Debug, Clone, Copy)]
pub struct StatusFlags {
    pub index_new: bool,
    pub index_modified: bool,
    pub index_deleted: bool,
    pub index_renamed: bool,
    pub index_typechange: bool,
    pub wt_new: bool,
    pub wt_modified: bool,
    pub wt_deleted: bool,
    pub wt_renamed: bool,
    pub wt_typechange: bool,
}

/// One entry of the repository status; `path` is absent when the path is not
/// valid text.
pub struct StatusEntry {
    pub path: Option<String>,
    pub flags: StatusFlags,
}

/// The changed paths of a repository, relative to its root.
pub struct ChangeSet {
    /// Paths whose index differs from HEAD.
    pub staged: Vec<String>,
    /// Paths whose working tree differs from the index, untracked ones included.
    pub unstaged: Vec<String>,
}

/// The index of the path differs from HEAD.
pub open spec fn is_staged(f: StatusFlags) -> bool {
    f.index_new || f.index_modified || f.index_deleted || f.index_renamed || f.index_typechange
}

/// The working tree of the path differs from the index, or the path is untracked.
pub open spec fn is_unstaged(f: StatusFlags) -> bool {
    f.wt_new || f.wt_modified || f.wt_deleted || f.wt_renamed || f.wt_typechange
}

/// `p` is one of the paths of `v`.
pub open spec fn has_path(v: Seq<String>, p: Seq<char>) -> bool {
    exists|i: int| 0 <= i < v.len() && (#[trigger] v[i])@ == p
}

/// Some entry with text path `p` reports it as staged (when `staged`) or as
/// unstaged (otherwise).
pub open spec fn reported(entries: Seq<StatusEntry>, p: Seq<char>, staged: bool) -> bool {
    exists|i: int|
        0 <= i < entries.len() && (#[trigger] entries[i]).path.is_some()
            && entries[i].path.unwrap()@ == p && (if staged {
            is_staged(entries[i].flags)
        } else {
            is_unstaged(entries[i].flags)
        })
}

/// `p` is changed in the index or in the working tree.
pub open spec fn is_changed(cs: ChangeSet, p: Seq<char>) -> bool {
    has_path(cs.staged@, p) || has_path(cs.unstaged@, p)
}

/// A matched path as the repository names it: without a leading `./`.
pub open spec fn normalized(p: Seq<char>) -> Seq<char> {
    if p.len() >= 2 && p[0] == '.' && p[1] == '/' {
        p.subrange(2, p.len() as int)
    } else {
        p
    }
}

/// Some path among the expansions is changed.
pub open spec fn any_violation(cs: ChangeSet, expansions: Seq<Vec<String>>) -> bool {
    exists|j: int, k: int|
        0 <= j < expansions.len() && 0 <= k < expansions[j]@.len()
            && is_changed(cs, normalized((#[trigger] expansions[j]@[k])@))
}

/// Whether glob accepts `s` as a pattern.
pub uninterp spec fn glob_pattern_valid(s: Seq<char>) -> bool;

/// Every pattern of `pats` is valid.
pub open spec fn all_valid(pats: Seq<String>) -> bool {
    forall|j: int| 0 <= j < pats.len() ==> glob_pattern_valid((#[trigger] pats[j])@)
}

/// Relies on glob::Pattern::new: it accepts or refuses a pattern by its text
/// alone, and accepts the empty pattern.
#[verifier::external_body]
fn pattern_is_valid(p: &str) -> (r: bool)
    ensures
        r == glob_pattern_valid(p@),
        p@.len() == 0 ==> r,
{
    glob::Pattern::new(p).is_ok()
}

/// `cs` holds exactly the paths that `entries` report as staged, and exactly
/// those they report as unstaged.
pub open spec fn classified(entries: Seq<StatusEntry>, cs: ChangeSet) -> bool {
    &&& forall|p: Seq<char>| has_path(cs.staged@, p) <==> reported(entries, p, true)
    &&& forall|p: Seq<char>| has_path(cs.unstaged@, p) <==> reported(entries, p, false)
}

/// Splits a repository status into the staged and the unstaged paths.
pub fn change_set_from_statuses(entries: &Vec<StatusEntry>) -> (cs: ChangeSet)
    ensures
        classified(entries@, cs),
{
    let mut staged: Vec<String> = Vec::new();
    let mut unstaged: Vec<String> = Vec::new();
    let mut i: usize = 0;
    while i < entries.len()
        invariant
            i <= entries@.len(),
            forall|p: Seq<char>|
                has_path(staged@, p) <==> reported(entries@.subrange(0, i as int), p, true),
            forall|p: Seq<char>|
                has_path(unstaged@, p) <==> reported(entries@.subrange(0, i as int), p, false),
        decreases entries@.len() - i,
    {
        let ghost sub = entries@.subrange(0, i as int);
        let ghost next = entries@.subrange(0, i + 1);
        let ghost old_staged = staged@;
        let ghost old_unstaged = unstaged@;
        assert(forall|p: Seq<char>| has_path(old_staged, p) <==> reported(sub, p, true));
        assert(forall|p: Seq<char>| has_path(old_unstaged, p) <==> reported(sub, p, false));
        let e = &entries[i];
        if let Some(path) = &e.path {
            let f = e.flags;
            if f.index_new || f.index_modified || f.index_deleted || f.index_renamed
                || f.index_typechange {
                staged.push(path.clone());
            }
            if f.wt_new || f.wt_modified || f.wt_deleted || f.wt_renamed || f.wt_typechange {
                unstaged.push(path.clone());
            }
        }
        assert forall|p: Seq<char>| has_path(staged@, p) <==> reported(next, p, true) by {
            if has_path(staged@, p) {
                let q = choose|q: int| 0 <= q < staged@.len() && (#[trigger] staged@[q])@ == p;
                if q < old_staged.len() {
                    assert(has_path(old_staged, p));
                    let w = choose|w: int|
                        0 <= w < sub.len() && (#[trigger] sub[w]).path.is_some()
                            && sub[w].path.unwrap()@ == p && is_staged(sub[w].flags);
                    assert(next[w] == sub[w]);
                } else {
                    assert(next[i as int] == entries@[i as int]);
                }
            }
            if reported(next, p, true) {
                let w = choose|w: int|
                    0 <= w < next.len() && (#[trigger] next[w]).path.is_some()
                        && next[w].path.unwrap()@ == p && is_staged(next[w].flags);
                if w < i {
                    assert(sub[w] == next[w]);
                    assert(reported(sub, p, true));
                    assert(has_path(old_staged, p));
                    let q = choose|q: int|
                        0 <= q < old_staged.len() && (#[trigger] old_staged[q])@ == p;
                    assert(staged@[q] == old_staged[q]);
                } else {
                    assert(staged@[staged@.len() - 1]@ == p);
                }
            }
        }
        assert forall|p: Seq<char>| has_path(unstaged@, p) <==> reported(next, p, false) by {
            if has_path(unstaged@, p) {
                let q = choose|q: int| 0 <= q < unstaged@.len() && (#[trigger] unstaged@[q])@ == p;
                if q < old_unstaged.len() {
                    assert(has_path(old_unstaged, p));
                    let w = choose|w: int|
                        0 <= w < sub.len() && (#[trigger] sub[w]).path.is_some()
                            && sub[w].path.unwrap()@ == p && is_unstaged(sub[w].flags);
                    assert(next[w] == sub[w]);
                } else {
                    assert(next[i as int] == entries@[i as int]);
                }
            }
            if reported(next, p, false) {
                let w = choose|w: int|
                    0 <= w < next.len() && (#[trigger] next[w]).path.is_some()
                        && next[w].path.unwrap()@ == p && is_unstaged(next[w].flags);
                if w < i {
                    assert(sub[w] == next[w]);
                    assert(reported(sub, p, false));
                    assert(has_path(old_unstaged, p));
                    let q = choose|q: int|
                        0 <= q < old_unstaged.len() && (#[trigger] old_unstaged[q])@ == p;
                    assert(unstaged@[q] == old_unstaged[q]);
                } else {
                    assert(unstaged@[unstaged@.len() - 1]@ == p);
                }
            }
        }
        i = i + 1;
    }
    assert(entries@.subrange(0, i as int) =~= entries@);
    ChangeSet { staged, unstaged }
}

/// `j` is the first pattern of `pats` that glob refuses.
pub open spec fn first_invalid(pats: Seq<String>, j: int) -> bool {
    0 <= j < pats.len() && !glob_pattern_valid(pats[j]@) && forall|k: int|
        0 <= k < j ==> glob_pattern_valid((#[trigger] pats[k])@)
}

/// What a check owes: it succeeds exactly when every protected pattern is
/// valid; on success it reports changes exactly when some matched path is
/// changed; on failure it names the first invalid pattern.
pub open spec fn check_holds(
    config: Config,
    changes: ChangeSet,
    expansions: Seq<Vec<String>>,
    r: Result<CheckResult, CheckError>,
) -> bool {
    let pats = all_patterns(config.generators@);
    &&& (r is Ok <==> all_valid(pats))
    &&& (r matches Ok(o) ==> (o == CheckResult::UndesiredChangesDetected <==> any_violation(
        changes,
        expansions,
    )))
    &&& (r matches Err(CheckError::InvalidPattern(s)) ==> exists|j: int|
        first_invalid(pats, j) && s@ == (#[trigger] pats[j])@)
}

/// The exit status of the `check` command for a result: 1 when a protected
/// file was changed, 0 otherwise.
pub open spec fn exit_code_of(o: CheckResult) -> i32 {
    match o {
        CheckResult::UndesiredChangesDetected => 1,
        CheckResult::NoChangesDetected => 0,
    }
}

/// Drops a leading `./` from a matched path, so that it compares with the
/// paths of a change set.
pub fn normalize_path(p: &String) -> (r: String)
    ensures
        r@ == normalized(p@),
{
    let s = p.as_str();
    let n = s.unicode_len();
    if n >= 2 && s.get_char(0) == '.' && s.get_char(1) == '/' {
        s.substring_char(2, n).to_owned()
    } else {
        p.clone()
    }
}

fn contains_path(v: &Vec<String>, p: &String) -> (r: bool)
    ensures
        r == has_path(v@, p@),
{
    let mut i: usize = 0;
    while i < v.len()
        invariant
            i <= v@.len(),
            forall|k: int| 0 <= k < i ==> (#[trigger] v@[k])@ != p@,
        decreases v@.len() - i,
    {
        if v[i] == *p {
            return true;
        }
        i = i + 1;
    }
    false
}

/// Whether `p` is changed in the index or in the working tree.
pub fn is_path_changed(changes: &ChangeSet, p: &String) -> (r: bool)
    ensures
        r == is_changed(*changes, p@),
{
    contains_path(&changes.staged, p) || contains_path(&changes.unstaged, p)
}

/// Decides whether a protected file was changed outside generation.
///
/// `expansions[j]` holds the paths that the `j`-th protected pattern of the
/// configuration matched on disk. Every pattern is first checked to be a valid
/// glob pattern; the first invalid one fails the check. Otherwise changes are
/// detected exactly when some matched path, without a leading `./`, is staged
/// or unstaged.
pub fn run_check(config: &Config, changes: &ChangeSet, expansions: &Vec<Vec<String>>) -> (r: Result<
    CheckResult,
    CheckError,
>)
    requires
        expansions@.len() == all_patterns(config.generators@).len(),
    ensures
        check_holds(*config, *changes, expansions@, r),
{
    let pats = protected_patterns(config);
    let mut j: usize = 0;
    while j < pats.len()
        invariant
            j <= pats@.len(),
            pats@ == all_patterns(config.generators@),
            forall|k: int| 0 <= k < j ==> glob_pattern_valid((#[trigger] pats@[k])@),
        decreases pats@.len() - j,
    {
        if !pattern_is_valid(pats[j].as_str()) {
            assert(first_invalid(pats@, j as int));
            return Err(CheckError::InvalidPattern(pats[j].clone()));
        }
        j = j + 1;
    }
    let mut found = false;
    let mut j: usize = 0;
    while j < expansions.len()
        invariant
            j <= expansions@.len(),
            found <==> exists|a: int, b: int|
                0 <= a < j && 0 <= b < expansions@[a]@.len() && is_changed(
                    *changes,
                    normalized((#[trigger] expansions@[a]@[b])@),
                ),
        decreases expansions@.len() - j,
    {
        let paths = &expansions[j];
        let mut k: usize = 0;
        while k < paths.len()
            invariant
                j < expansions@.len(),
                paths == expansions@[j as int],
                k <= paths@.len(),
                found <==> exists|a: int, b: int|
                    0 <= a < expansions@.len() && 0 <= b < expansions@[a]@.len() && (a < j || (a
                        == j && b < k)) && is_changed(
                        *changes,
                        normalized((#[trigger] expansions@[a]@[b])@),
                    ),
            decreases paths@.len() - k,
        {
            let stripped = normalize_path(&paths[k]);
            if is_path_changed(changes, &stripped) {
                found = true;
            }
            k = k + 1;
        }
        j = j + 1;
    }
    if found {
        Ok(CheckResult::UndesiredChangesDetected)
    } else {
        Ok(CheckResult::NoChangesDetected)
    }
}

/// The exit status of the `check` command for a result.
pub fn check_exit_code(o: CheckResult) -> (r: i32)
    ensures
        r == exit_code_of(o),
{
    match o {
        CheckResult::UndesiredChangesDetected => 1,
        CheckResult::NoChangesDetected => 0,
    }
}

/// A configuration whose generators only protect files, checked against a
/// repository where no matched path is changed, reports no changes.
pub proof fn lemma_unchanged_patterns_pass(
    config: Config,
    changes: ChangeSet,
    expansions: Seq<Vec<String>>,
    r: Result<CheckResult, CheckError>,
)
    requires
        forall|g: int|
            0 <= g < config.generators@.len() ==> (#[trigger] config.generators@[g]).command is None,
        all_valid(all_patterns(config.generators@)),
        forall|j: int, k: int|
            0 <= j < expansions.len() && 0 <= k < expansions[j]@.len() ==> !is_changed(
                changes,
                normalized((#[trigger] expansions[j]@[k])@),
            ),
        check_holds(config, changes, expansions, r),
    ensures
        r == Ok::<CheckResult, CheckError>(CheckResult::NoChangesDetected),
{
}

/// Shared step of the laws below: a matched path that the status reports in
/// the chosen half makes the check report changes.
proof fn lemma_reported_match_fails(
    config: Config,
    entries: Seq<StatusEntry>,
    changes: ChangeSet,
    expansions: Seq<Vec<String>>,
    r: Result<CheckResult, CheckError>,
    staged: bool,
    j: int,
    k: int,
)
    requires
        all_valid(all_patterns(config.generators@)),
        classified(entries, changes),
        0 <= j < expansions.len(),
        0 <= k < expansions[j]@.len(),
        reported(entries, normalized(expansions[j]@[k]@), staged),
        check_holds(config, changes, expansions, r),
    ensures
        r == Ok::<CheckResult, CheckError>(CheckResult::UndesiredChangesDetected),
{
    let p = normalized(expansions[j]@[k]@);
    if staged {
        assert(has_path(changes.staged@, p));
    } else {
        assert(has_path(changes.unstaged@, p));
    }
    assert(is_changed(changes, normalized(expansions[j]@[k]@)));
    assert(any_violation(changes, expansions));
}

/// A tracked file that a protected pattern matches and that was modified and
/// staged makes the check report changes.
pub proof fn lemma_staged_modification_detected(
    config: Config,
    entries: Seq<StatusEntry>,
    changes: ChangeSet,
    expansions: Seq<Vec<String>>,
    r: Result<CheckResult, CheckError>,
    i: int,
    j: int,
    k: int,
)
    requires
        all_valid(all_patterns(config.generators@)),
        classified(entries, changes),
        0 <= i < entries.len(),
        entries[i].flags.index_modified,
        0 <= j < expansions.len(),
        0 <= k < expansions[j]@.len(),
        entries[i].path is Some,
        entries[i].path.unwrap()@ == normalized(expansions[j]@[k]@),
        check_holds(config, changes, expansions, r),
    ensures
        r == Ok::<CheckResult, CheckError>(CheckResult::UndesiredChangesDetected),
{
    assert(entries[i].path is Some);
    lemma_reported_match_fails(config, entries, changes, expansions, r, true, j, k);
}

/// A tracked file that a protected pattern matches and that was modified in
/// the working tree only makes the check report changes.
pub proof fn lemma_unstaged_modification_detected(
    config: Config,
    entries: Seq<StatusEntry>,
    changes: ChangeSet,
    expansions: Seq<Vec<String>>,
    r: Result<CheckResult, CheckError>,
    i: int,
    j: int,
    k: int,
)
    requires
        all_valid(all_patterns(config.generators@)),
        classified(entries, changes),
        0 <= i < entries.len(),
        entries[i].flags.wt_modified,
        0 <= j < expansions.len(),
        0 <= k < expansions[j]@.len(),
        entries[i].path is Some,
        entries[i].path.unwrap()@ == normalized(expansions[j]@[k]@),
        check_holds(config, changes, expansions, r),
    ensures
        r == Ok::<CheckResult, CheckError>(CheckResult::UndesiredChangesDetected),
{
    assert(entries[i].path is Some);
    lemma_reported_match_fails(config, entries, changes, expansions, r, false, j, k);
}

/// A new, untracked file that a protected pattern matches makes the check
/// report changes.
pub proof fn lemma_untracked_file_detected(
    config: Config,
    entries: Seq<StatusEntry>,
    changes: ChangeSet,
    expansions: Seq<Vec<String>>,
    r: Result<CheckResult, CheckError>,
    i: int,
    j: int,
    k: int,
)
    requires
        all_valid(all_patterns(config.generators@)),
        classified(entries, changes),
        0 <= i < entries.len(),
        entries[i].flags.wt_new,
        0 <= j < expansions.len(),
        0 <= k < expansions[j]@.len(),
        entries[i].path is Some,
        entries[i].path.unwrap()@ == normalized(expansions[j]@[k]@),
        check_holds(config, changes, expansions, r),
    ensures
        r == Ok::<CheckResult, CheckError>(CheckResult::UndesiredChangesDetected),
{
    assert(entries[i].path is Some);
    lemma_reported_match_fails(config, entries, changes, expansions, r, false, j, k);
}

} // verus!
