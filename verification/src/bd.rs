//! Decisions of the bd issue import: the destination selector, which source
//! issues are importable, and the order issues are imported in.
use vstd::prelude::*;
use crate::error::CoveyError;
use crate::model::{CompletionPolicy, SubtaskKind, SubtaskLifecycle, SubtaskState};
use crate::status::{default_completion_policy, default_routing_key, SubtaskView};
use crate::validate::{ensure_object_id_len, ensure_title_len, is_too_long_error, title_too_long, too_long, MAX_OBJECT_ID_LEN, MAX_TITLE_LEN};
use crate::text::{
    ascii_lower, chars_of, concat2, eq_ignore_ascii_case, is_blank, lemma_text_lt_irreflexive,
    lemma_text_lt_total, lemma_text_lt_transitive, owned, str_eq, text_lt, usize_decimal,
    nat_digits, vec_is_blank, vec_text_lt,
};

verus! {

// ---------------------------------------------------------------- destination

/// Where imported issues go: an existing meta-task, or a new one made from a
/// prompt.
#[derive(Debug, PartialEq, Eq)]
pub enum ImportBdV1Destination {
    ExistingMetaTask(String),
    NewMetaTask(String),
}

/// Reads the destination selector: exactly one of a meta-task id and a
/// prompt must be given.
pub fn parse_import_bd_v1_destination(meta_task_id: Option<&str>, prompt_text: Option<&str>) -> (r: Result<ImportBdV1Destination, CoveyError>)
    ensures
        r is Ok <==> (meta_task_id is Some) != (prompt_text is Some),
        r matches Ok(ImportBdV1Destination::ExistingMetaTask(m)) ==> meta_task_id matches Some(x) && m@ == x@,
        r matches Ok(ImportBdV1Destination::NewMetaTask(p)) ==> (prompt_text matches Some(x) && p@ == x@),
        r matches Err(e) ==> (e matches CoveyError::InvalidPath { path } && path@ == "bd import destination selector"@),
{
    match (meta_task_id, prompt_text) {
        (Some(m), None) => Ok(ImportBdV1Destination::ExistingMetaTask(owned(m))),
        (None, Some(p)) => Ok(ImportBdV1Destination::NewMetaTask(owned(p))),
        _ => Err(CoveyError::InvalidPath { path: owned("bd import destination selector") }),
    }
}

// ---------------------------------------------------------------- source rows

/// Status of a source issue: open, or any other status as read.
#[derive(Debug)]
pub enum SourceIssueStatus {
    Open,
    Unsupported(String),
}

/// One issue row of a bd database.
#[derive(Debug)]
pub struct SourceIssue {
    pub id: String,
    pub title: String,
    pub status: SourceIssueStatus,
    pub priority: i64,
    pub issue_type: String,
}

/// One dependency row of a bd database.
#[derive(Debug)]
pub struct SourceDependency {
    pub issue_id: String,
    pub depends_on_id: String,
}

/// One label row of a bd database.
#[derive(Debug)]
pub struct SourceLabel {
    pub issue_id: String,
    pub label: String,
}

/// Why a source issue was skipped.
#[derive(Debug)]
pub enum ImportBdV1SkipReason {
    InvalidRow { detail: String },
    DeterministicDuplicate,
}

/// Whether a source issue is imported or skipped.
#[derive(Debug)]
pub enum SourceIssueEligibility {
    Importable,
    Skip(ImportBdV1SkipReason),
}

/// Compares two texts with ASCII letters taken without case.
pub fn str_eq_ignore_ascii_case(a: &str, b: &str) -> (r: bool)
    ensures
        r == eq_ignore_ascii_case(a@, b@),
{
    let x = chars_of(a);
    let y = chars_of(b);
    if x.len() != y.len() {
        return false;
    }
    let mut i: usize = 0;
    while i < x.len()
        invariant
            i <= x@.len(),
            x@.len() == y@.len(),
            x@ == a@,
            y@ == b@,
            forall|k: int| 0 <= k < i ==> ascii_lower(x@[k]) == ascii_lower(y@[k]),
        decreases x@.len() - i,
    {
        if crate::text::char_ascii_lower(x[i]) != crate::text::char_ascii_lower(y[i]) {
            return false;
        }
        i = i + 1;
    }
    true
}

impl SourceIssueStatus {
    /// Reads a status: `open` in any ASCII case, or another status kept as is.
    pub fn parse(value: String) -> (r: Self)
        ensures
            eq_ignore_ascii_case(value@, "open"@) ==> r is Open,
            !eq_ignore_ascii_case(value@, "open"@) ==> r == SourceIssueStatus::Unsupported(value),
    {
        if str_eq_ignore_ascii_case(value.as_str(), "open") {
            SourceIssueStatus::Open
        } else {
            SourceIssueStatus::Unsupported(value)
        }
    }
}

/// Whether an issue type is imported: task, feature or epic, in any ASCII
/// case.
pub open spec fn importable_type(t: Seq<char>) -> bool {
    eq_ignore_ascii_case(t, "task"@) || eq_ignore_ascii_case(t, "feature"@) || eq_ignore_ascii_case(t, "epic"@)
}

/// Whether an issue type is imported.
pub fn is_importable_issue_type(issue_type: &str) -> (r: bool)
    ensures
        r == importable_type(issue_type@),
{
    str_eq_ignore_ascii_case(issue_type, "task") || str_eq_ignore_ascii_case(issue_type, "feature")
        || str_eq_ignore_ascii_case(issue_type, "epic")
}

/// Whether a label marks its issue as not importable: `review` or
/// `import:skip`, in any ASCII case.
pub open spec fn skip_label(label: Seq<char>) -> bool {
    eq_ignore_ascii_case(label, "review"@) || eq_ignore_ascii_case(label, "import:skip"@)
}

/// Whether some label with a skip marking names the issue.
pub open spec fn labeled_for_skip(labels: Seq<SourceLabel>, issue_id: Seq<char>) -> bool {
    exists|k: int| 0 <= k < labels.len() && (#[trigger] labels[k]).issue_id@ == issue_id && skip_label(labels[k].label@)
}

/// The issues that a skip label marks.
pub fn labeled_skip_issue_ids(labels: &Vec<SourceLabel>) -> (r: Vec<String>)
    ensures
        forall|x: Seq<char>| crate::text::views(r@).contains(x) <==> labeled_for_skip(labels@, x),
{
    let mut out: Vec<String> = Vec::new();
    let mut k: usize = 0;
    while k < labels.len()
        invariant
            k <= labels@.len(),
            forall|x: Seq<char>| crate::text::views(out@).contains(x) <==> labeled_for_skip(labels@.take(k as int), x),
        decreases labels@.len() - k,
    {
        let ghost before = crate::text::views(out@);
        let l = &labels[k];
        let skip = str_eq_ignore_ascii_case(l.label.as_str(), "review") || str_eq_ignore_ascii_case(
            l.label.as_str(),
            "import:skip",
        );
        if skip {
            out.push(l.issue_id.clone());
        }
        proof {
            let now = crate::text::views(out@);
            let pre = labels@.take(k as int);
            let nxt = labels@.take(k + 1);
            if skip {
                assert(now =~= before.push(l.issue_id@));
            } else {
                assert(now =~= before);
            }
            assert forall|x: Seq<char>| now.contains(x) <==> labeled_for_skip(nxt, x) by {
                assert(nxt[k as int] == labels@[k as int]);
                if now.contains(x) {
                    let j = choose|j: int| 0 <= j < now.len() && now[j] == x;
                    if j < before.len() {
                        assert(before[j] == x);
                        assert(before.contains(x));
                        let m = choose|m: int| 0 <= m < pre.len() && (#[trigger] pre[m]).issue_id@ == x && skip_label(pre[m].label@);
                        assert(nxt[m] == pre[m]);
                    }
                }
                if labeled_for_skip(nxt, x) {
                    let m = choose|m: int| 0 <= m < nxt.len() && (#[trigger] nxt[m]).issue_id@ == x && skip_label(nxt[m].label@);
                    if m < k {
                        assert(pre[m] == nxt[m]);
                        assert(labeled_for_skip(pre, x));
                        assert(before.contains(x));
                        let j = choose|j: int| 0 <= j < before.len() && before[j] == x;
                        assert(now[j] == x);
                    } else {
                        assert(now[before.len() as int] == x);
                    }
                }
            }
        }
        k = k + 1;
    }
    assert(labels@.take(labels@.len() as int) =~= labels@);
    out
}

/// Whether `x` is one of the texts.
fn has_id(ids: &Vec<String>, x: &str) -> (r: bool)
    ensures
        r == crate::text::views(ids@).contains(x@),
{
    let mut k: usize = 0;
    while k < ids.len()
        invariant
            k <= ids@.len(),
            forall|j: int| 0 <= j < k ==> (#[trigger] ids@[j])@ != x@,
        decreases ids@.len() - k,
    {
        if str_eq(ids[k].as_str(), x) {
            assert(crate::text::views(ids@)[k as int] == x@);
            return true;
        }
        k = k + 1;
    }
    proof {
        if crate::text::views(ids@).contains(x@) {
            let j = choose|j: int| 0 <= j < crate::text::views(ids@).len() && crate::text::views(ids@)[j] == x@;
            assert(ids@[j]@ == x@);
        }
    }
    false
}

/// Why a source issue is skipped, if it is: a blank or overlong id, a blank
/// or overlong title, a status other than open, an unsupported type, or a
/// skip label.
pub open spec fn skip_detail(issue: SourceIssue, skip_ids: Seq<Seq<char>>) -> Option<Seq<char>> {
    if is_blank(issue.id@) {
        Some("missing issue id"@)
    } else if vstd::utf8::encode_utf8(issue.id@).len() > MAX_OBJECT_ID_LEN {
        Some("issue id exceeds max length "@ + nat_digits(MAX_OBJECT_ID_LEN as nat))
    } else if is_blank(issue.title@) {
        Some("missing title"@)
    } else if vstd::utf8::encode_utf8(issue.title@).len() > MAX_TITLE_LEN {
        Some("title exceeds max length "@ + nat_digits(MAX_TITLE_LEN as nat))
    } else if issue.status is Unsupported {
        Some("unsupported status "@ + issue.status->0@)
    } else if !importable_type(issue.issue_type@) {
        Some("unsupported issue_type "@ + issue.issue_type@)
    } else if skip_ids.contains(issue.id@) {
        Some("unsupported labeled issue"@)
    } else {
        None
    }
}

/// Decides whether a source issue is imported.
pub fn assess_source_issue(issue: &SourceIssue, labeled_skip_issue_ids: &Vec<String>) -> (r: SourceIssueEligibility)
    ensures
        r is Importable <==> skip_detail(*issue, crate::text::views(labeled_skip_issue_ids@)) is None,
        r matches SourceIssueEligibility::Skip(reason) ==> (reason matches ImportBdV1SkipReason::InvalidRow { detail }
            && Some(detail@) == skip_detail(*issue, crate::text::views(labeled_skip_issue_ids@))),
{
    let id = chars_of(issue.id.as_str());
    if vec_is_blank(&id) {
        return SourceIssueEligibility::Skip(ImportBdV1SkipReason::InvalidRow { detail: owned("missing issue id") });
    }
    if issue.id.as_str().as_bytes().len() > MAX_OBJECT_ID_LEN {
        let n = usize_decimal(MAX_OBJECT_ID_LEN);
        return SourceIssueEligibility::Skip(
            ImportBdV1SkipReason::InvalidRow { detail: concat2("issue id exceeds max length ", n.as_str()) },
        );
    }
    let title = chars_of(issue.title.as_str());
    if vec_is_blank(&title) {
        return SourceIssueEligibility::Skip(ImportBdV1SkipReason::InvalidRow { detail: owned("missing title") });
    }
    if issue.title.as_str().as_bytes().len() > MAX_TITLE_LEN {
        let n = usize_decimal(MAX_TITLE_LEN);
        return SourceIssueEligibility::Skip(
            ImportBdV1SkipReason::InvalidRow { detail: concat2("title exceeds max length ", n.as_str()) },
        );
    }
    match &issue.status {
        SourceIssueStatus::Open => {},
        SourceIssueStatus::Unsupported(s) => {
            return SourceIssueEligibility::Skip(
                ImportBdV1SkipReason::InvalidRow { detail: concat2("unsupported status ", s.as_str()) },
            );
        },
    }
    if !is_importable_issue_type(issue.issue_type.as_str()) {
        return SourceIssueEligibility::Skip(
            ImportBdV1SkipReason::InvalidRow { detail: concat2("unsupported issue_type ", issue.issue_type.as_str()) },
        );
    }
    if has_id(labeled_skip_issue_ids, issue.id.as_str()) {
        return SourceIssueEligibility::Skip(ImportBdV1SkipReason::InvalidRow { detail: owned("unsupported labeled issue") });
    }
    SourceIssueEligibility::Importable
}

// ---------------------------------------------------------------- import order

/// Dependencies of the named issue.
pub open spec fn depends_pred(issue_id: Seq<char>) -> spec_fn(SourceDependency) -> bool {
    |d: SourceDependency| d.issue_id@ == issue_id
}

/// How many dependencies an issue has.
pub open spec fn dependency_count(deps: Seq<SourceDependency>, issue_id: Seq<char>) -> nat {
    deps.filter(depends_pred(issue_id)).len()
}

/// Counts the dependencies of an issue.
pub fn count_dependencies(deps: &Vec<SourceDependency>, issue_id: &str) -> (r: usize)
    ensures
        r == dependency_count(deps@, issue_id@),
{
    let mut n: usize = 0;
    let mut i: usize = 0;
    assert(deps@.take(0).filter(depends_pred(issue_id@)) =~= Seq::<SourceDependency>::empty()) by {
        reveal(Seq::filter);
    }
    while i < deps.len()
        invariant
            i <= deps@.len(),
            n == deps@.take(i as int).filter(depends_pred(issue_id@)).len(),
            n <= i,
        decreases deps@.len() - i,
    {
        proof {
            assert(deps@.take(i + 1) =~= deps@.take(i as int).push(deps@[i as int]));
            deps@.take(i as int).lemma_filter_push(deps@[i as int], depends_pred(issue_id@));
            deps@.take(i + 1).lemma_filter_len(depends_pred(issue_id@));
        }
        if str_eq(deps[i].issue_id.as_str(), issue_id) {
            n = n + 1;
        }
        i = i + 1;
    }
    assert(deps@.take(deps@.len() as int) =~= deps@);
    n
}

/// The import key of an issue: priority, then dependency count, then id.
pub open spec fn issue_key_lt(issues: Seq<SourceIssue>, deps: Seq<SourceDependency>, a: int, b: int) -> bool {
    let pa = issues[a].priority;
    let pb = issues[b].priority;
    let ca = dependency_count(deps, issues[a].id@);
    let cb = dependency_count(deps, issues[b].id@);
    ||| pa < pb
    ||| pa == pb && ca < cb
    ||| pa == pb && ca == cb && text_lt(issues[a].id@, issues[b].id@)
}

/// The import order of issues: by key, and by position among equal keys.
pub open spec fn import_before(issues: Seq<SourceIssue>, deps: Seq<SourceDependency>, a: int, b: int) -> bool {
    issue_key_lt(issues, deps, a, b) || (!issue_key_lt(issues, deps, b, a) && a < b)
}

proof fn lemma_key_facts(issues: Seq<SourceIssue>, deps: Seq<SourceDependency>, a: int, b: int, c: int)
    ensures
        !issue_key_lt(issues, deps, a, a),
        issue_key_lt(issues, deps, a, b) && issue_key_lt(issues, deps, b, c) ==> issue_key_lt(issues, deps, a, c),
        issue_key_lt(issues, deps, a, b) ==> !issue_key_lt(issues, deps, b, a),
        !issue_key_lt(issues, deps, a, b) && !issue_key_lt(issues, deps, b, a) && issue_key_lt(issues, deps, b, c)
            ==> issue_key_lt(issues, deps, a, c),
        !issue_key_lt(issues, deps, a, b) && !issue_key_lt(issues, deps, b, a) && issue_key_lt(issues, deps, c, b)
            ==> issue_key_lt(issues, deps, c, a),
        !issue_key_lt(issues, deps, a, b) && !issue_key_lt(issues, deps, b, a) && !issue_key_lt(issues, deps, b, c)
            && !issue_key_lt(issues, deps, c, b) ==> !issue_key_lt(issues, deps, a, c) && !issue_key_lt(issues, deps, c, a),
{
    let ia = issues[a].id@;
    let ib = issues[b].id@;
    let ic = issues[c].id@;
    lemma_text_lt_irreflexive(ia);
    lemma_text_lt_total(ia, ib);
    lemma_text_lt_total(ib, ic);
    lemma_text_lt_total(ia, ic);
    if text_lt(ia, ib) && text_lt(ib, ic) {
        lemma_text_lt_transitive(ia, ib, ic);
    }
    if text_lt(ib, ia) && text_lt(ia, ib) {
        lemma_text_lt_transitive(ia, ib, ia);
    }
    if text_lt(ia, ib) && text_lt(ib, ia) {
        lemma_text_lt_transitive(ia, ib, ia);
    }
}

proof fn lemma_before_order(issues: Seq<SourceIssue>, deps: Seq<SourceDependency>, a: int, b: int, c: int)
    ensures
        !import_before(issues, deps, a, a),
        import_before(issues, deps, a, b) && import_before(issues, deps, b, c) ==> import_before(issues, deps, a, c),
        a != b ==> import_before(issues, deps, a, b) || import_before(issues, deps, b, a),
        import_before(issues, deps, a, b) ==> !import_before(issues, deps, b, a),
{
    lemma_key_facts(issues, deps, a, b, c);
    lemma_key_facts(issues, deps, b, c, a);
    lemma_key_facts(issues, deps, c, a, b);
    lemma_key_facts(issues, deps, b, a, c);
    lemma_key_facts(issues, deps, a, c, b);
    lemma_key_facts(issues, deps, c, b, a);
}

/// `order` lists every issue position once, in import order.
pub open spec fn import_order(issues: Seq<SourceIssue>, deps: Seq<SourceDependency>, order: Seq<usize>) -> bool {
    &&& order.len() == issues.len()
    &&& forall|k: int| 0 <= k < order.len() ==> (#[trigger] order[k]) < issues.len()
    &&& forall|x: usize| x < issues.len() ==> #[trigger] order.contains(x)
    &&& forall|i: int, j: int| 0 <= i < j < order.len() ==> import_before(issues, deps, #[trigger] order[i] as int, #[trigger] order[j] as int)
}

fn key_before(issues: &Vec<SourceIssue>, counts: &Vec<usize>, deps: Ghost<Seq<SourceDependency>>, a: usize, b: usize) -> (r: bool)
    requires
        a < issues@.len(),
        b < issues@.len(),
        counts@.len() == issues@.len(),
        forall|k: int| 0 <= k < counts@.len() ==> (#[trigger] counts@[k]) == dependency_count(deps@, issues@[k].id@),
    ensures
        r == issue_key_lt(issues@, deps@, a as int, b as int),
{
    let pa = issues[a].priority;
    let pb = issues[b].priority;
    if pa < pb {
        return true;
    }
    if pa != pb {
        return false;
    }
    let ca = counts[a];
    let cb = counts[b];
    if ca < cb {
        return true;
    }
    if ca != cb {
        return false;
    }
    let ia = chars_of(issues[a].id.as_str());
    let ib = chars_of(issues[b].id.as_str());
    vec_text_lt(&ia, &ib)
}

/// The order issues are imported in: by priority, then by how many
/// dependencies they have, then by id; issues with equal keys keep their
/// order.
pub fn order_source_issues(issues: &Vec<SourceIssue>, deps: &Vec<SourceDependency>) -> (r: Vec<usize>)
    ensures
        import_order(issues@, deps@, r@),
{
    let ghost gd = deps@;
    let mut counts: Vec<usize> = Vec::new();
    let mut i: usize = 0;
    while i < issues.len()
        invariant
            i <= issues@.len(),
            gd == deps@,
            counts@.len() == i,
            forall|k: int| 0 <= k < i ==> (#[trigger] counts@[k]) == dependency_count(deps@, issues@[k].id@),
        decreases issues@.len() - i,
    {
        counts.push(count_dependencies(deps, issues[i].id.as_str()));
        i = i + 1;
    }
    let mut out: Vec<usize> = Vec::new();
    let mut i: usize = 0;
    while i < issues.len()
        invariant
            i <= issues@.len(),
            gd == deps@,
            counts@.len() == issues@.len(),
            forall|k: int| 0 <= k < counts@.len() ==> (#[trigger] counts@[k]) == dependency_count(deps@, issues@[k].id@),
            out@.len() == i,
            forall|k: int| 0 <= k < out@.len() ==> (#[trigger] out@[k]) < i,
            forall|x: usize| x < i ==> #[trigger] out@.contains(x),
            forall|a: int, b: int| 0 <= a < b < out@.len() ==> import_before(issues@, deps@, #[trigger] out@[a] as int, #[trigger] out@[b] as int),
        decreases issues@.len() - i,
    {
        let mut pos: usize = 0;
        while pos < out.len() && !key_before(issues, &counts, Ghost(gd), i, out[pos])
            invariant
                pos <= out@.len(),
                i < issues@.len(),
                out@.len() == i,
                gd == deps@,
                counts@.len() == issues@.len(),
                forall|k: int| 0 <= k < counts@.len() ==> (#[trigger] counts@[k]) == dependency_count(deps@, issues@[k].id@),
                forall|k: int| 0 <= k < out@.len() ==> (#[trigger] out@[k]) < i,
                forall|k: int| 0 <= k < pos ==> import_before(issues@, deps@, #[trigger] out@[k] as int, i as int),
            decreases out@.len() - pos,
        {
            proof {
                let o = out@[pos as int] as int;
                lemma_before_order(issues@, deps@, o, i as int, o);
            }
            pos = pos + 1;
        }
        let ghost before = out@;
        proof {
            if pos < out@.len() {
                let o = out@[pos as int] as int;
                assert(issue_key_lt(issues@, deps@, i as int, o));
                assert(import_before(issues@, deps@, i as int, o));
            }
        }
        out.insert(pos, i);
        proof {
            let after = out@;
            assert(after =~= before.insert(pos as int, i));
            assert forall|a: int, b: int| 0 <= a < b < after.len() implies import_before(
                issues@,
                deps@,
                #[trigger] after[a] as int,
                #[trigger] after[b] as int,
            ) by {
                let ii = i as int;
                if b < pos {
                } else if a < pos && b == pos {
                } else if a < pos && b > pos {
                    if pos < before.len() {
                        lemma_before_order(issues@, deps@, ii, before[pos as int] as int, before[b - 1] as int);
                        if b - 1 > pos {
                            assert(import_before(issues@, deps@, before[pos as int] as int, before[b - 1] as int));
                        }
                    }
                    lemma_before_order(issues@, deps@, before[a] as int, ii, before[b - 1] as int);
                } else if a == pos {
                    lemma_before_order(issues@, deps@, ii, before[pos as int] as int, before[b - 1] as int);
                    if b - 1 > pos {
                        assert(import_before(issues@, deps@, before[pos as int] as int, before[b - 1] as int));
                    }
                } else {
                    assert(after[a] == before[a - 1]);
                    assert(after[b] == before[b - 1]);
                }
            }
            assert forall|x: usize| x < i + 1 implies #[trigger] after.contains(x) by {
                crate::text::lemma_insert_contains(before, pos as int, i, x);
            }
            assert forall|k: int| 0 <= k < after.len() implies (#[trigger] after[k]) < i + 1 by {
                if k < pos {
                    assert(after[k] == before[k]);
                } else if k > pos {
                    assert(after[k] == before[k - 1]);
                }
            }
        }
        i = i + 1;
    }
    out
}

/// The idempotency key under which an importable issue creates its subtask.
pub fn bd_item_idempotency_key(idempotency_key: &str, issue_id: &str) -> (r: String)
    ensures
        r@ == idempotency_key@ + ":"@ + issue_id@,
{
    crate::text::concat3(idempotency_key, ":", issue_id)
}

/// The source issue id reported for a skipped issue: its own id when that is
/// a valid source issue id, otherwise a placeholder numbered by the item's
/// position among the results.
pub fn skipped_source_issue_id(issue_id: &str, id_is_valid: bool, items_before: usize) -> (r: String)
    requires
        items_before < usize::MAX,
    ensures
        id_is_valid ==> r@ == issue_id@,
        !id_is_valid ==> r@ == "invalid-source-issue-"@ + nat_digits((items_before + 1) as nat),
{
    if id_is_valid {
        owned(issue_id)
    } else {
        let n = usize_decimal(items_before + 1);
        concat2("invalid-source-issue-", n.as_str())
    }
}

// ---------------------------------------------------------------- one work subtask

/// Checks the fields of one imported work subtask: the source issue id no
/// longer than an object id, then the title no longer than a title.
pub fn check_work_subtask_fields(source_issue_id: &str, title: &str) -> (r: Result<(), CoveyError>)
    ensures
        r is Ok <==> !too_long(source_issue_id@) && !title_too_long(title@),
        too_long(source_issue_id@) ==> (r matches Err(e) && is_too_long_error(e, "source_issue_id"@)),
        !too_long(source_issue_id@) && title_too_long(title@) ==> (r matches Err(e) && e matches CoveyError::FieldTooLong {
            field: f,
            max,
        } && f@ == "title"@ && max == MAX_TITLE_LEN),
{
    ensure_object_id_len("source_issue_id", source_issue_id)?;
    ensure_title_len("title", title)
}

/// What importing one work subtask does once its destination is known.
#[derive(Debug, Clone, Copy, PartialEq, Eq, Structural)]
pub enum WorkSubtaskImportStep {
    /// The subtask already exists under the destination: its id is returned.
    ReturnExisting,
    /// No subtask has the id yet: it is created.
    Create,
}

/// Decides one work subtask's import from the meta-task that already holds
/// a subtask with its deterministic id, if any: none creates it, the
/// destination returns it, another meta-task is a duplicate id.
pub fn work_subtask_import_step(subtask_id: &str, destination_meta_task_id: &str, existing_meta_task_id: Option<&str>) -> (r:
    Result<WorkSubtaskImportStep, CoveyError>)
    ensures
        existing_meta_task_id is None ==> r == Ok::<WorkSubtaskImportStep, CoveyError>(WorkSubtaskImportStep::Create),
        existing_meta_task_id matches Some(m) && m@ == destination_meta_task_id@ ==> r == Ok::<
            WorkSubtaskImportStep,
            CoveyError,
        >(WorkSubtaskImportStep::ReturnExisting),
        existing_meta_task_id matches Some(m) && m@ != destination_meta_task_id@ ==> (r matches Err(e)
            && e matches CoveyError::DuplicateSubtaskId { subtask_id: s } && s@ == subtask_id@),
{
    match existing_meta_task_id {
        None => Ok(WorkSubtaskImportStep::Create),
        Some(m) => {
            if str_eq(m, destination_meta_task_id) {
                Ok(WorkSubtaskImportStep::ReturnExisting)
            } else {
                Err(CoveyError::DuplicateSubtaskId { subtask_id: owned(subtask_id) })
            }
        },
    }
}

/// Whether an importable issue's subtask existed under the destination
/// before the import: no subtask is `false`, one under the destination is
/// `true`, one under another meta-task is a duplicate import.
pub fn existing_subtask_matches_destination(
    source_issue_id: &str,
    subtask_id: &str,
    destination_meta_task_id: &str,
    existing_meta_task_id: Option<&str>,
) -> (r: Result<bool, CoveyError>)
    ensures
        existing_meta_task_id is None ==> r == Ok::<bool, CoveyError>(false),
        existing_meta_task_id matches Some(m) && m@ == destination_meta_task_id@ ==> r == Ok::<bool, CoveyError>(true),
        existing_meta_task_id matches Some(m) && m@ != destination_meta_task_id@ ==> (r matches Err(e)
            && e matches CoveyError::ImportDuplicate { source_issue_id: i, subtask_id: s } && i@ == source_issue_id@
            && s@ == subtask_id@),
{
    match existing_meta_task_id {
        None => Ok(false),
        Some(m) => {
            if str_eq(m, destination_meta_task_id) {
                Ok(true)
            } else {
                Err(CoveyError::ImportDuplicate { source_issue_id: owned(source_issue_id), subtask_id: owned(subtask_id) })
            }
        },
    }
}

/// The subtask a bd import creates for an issue, at time `now`: a work
/// subtask, available, with no claim, no artifact and no review target, the
/// default completion policy and routing key, created and updated at `now`.
/// The import writes nothing else for the issue: no claim, no review subtask
/// and no dependency edge. A blank or over-long title is refused.
pub fn imported_work_subtask(subtask_id: String, meta_task_id: String, title: String, priority: i64, now: i64) -> (r:
    Result<SubtaskView, String>)
    ensures
        r is Err <==> (is_blank(title@) || title_too_long(title@)),
        r matches Ok(v) ==> {
            &&& v.subtask_id_spec() == subtask_id@
            &&& v.meta_task_id_spec() == meta_task_id@
            &&& v.title_spec() == title@
            &&& v.kind_spec() == SubtaskKind::Work
            &&& v.review_target_spec() is None
            &&& v.lifecycle_spec().state == SubtaskState::Available
            &&& v.lifecycle_spec().active_claim_id is None
            &&& v.lifecycle_spec().artifact_digest is None
            &&& v.priority_spec() == priority
            &&& v.completion_policy_spec() == CompletionPolicy::Direct
            &&& v.routing_key_spec() == "default"@
            &&& v.created_at_spec() == now
            &&& v.updated_at_spec() == now
        },
{
    SubtaskView::from_parts(
        subtask_id,
        meta_task_id,
        title,
        SubtaskKind::Work,
        None,
        SubtaskLifecycle { state: SubtaskState::Available, active_claim_id: None, artifact_digest: None },
        priority,
        default_completion_policy(),
        default_routing_key(),
        now,
        now,
    )
}

/// The result of one issue of a bd import.
#[derive(Debug)]
pub enum ImportBdV1ItemResult {
    Imported { source_issue_id: String, subtask_id: String },
    Skipped { source_issue_id: String, subtask_id: Option<String>, reason: ImportBdV1SkipReason },
}

/// The result of an importable issue: skipped as a deterministic duplicate
/// when its subtask already existed under the destination, imported otherwise.
pub fn importable_item_result(issue_id: &str, subtask_id: String, existed_before: bool) -> (r: ImportBdV1ItemResult)
    ensures
        existed_before ==> (r matches ImportBdV1ItemResult::Skipped { source_issue_id: i, subtask_id: Some(s), reason }
            && i@ == issue_id@ && s == subtask_id && reason is DeterministicDuplicate),
        !existed_before ==> (r matches ImportBdV1ItemResult::Imported { source_issue_id: i, subtask_id: s } && i@
            == issue_id@ && s == subtask_id),
{
    if existed_before {
        ImportBdV1ItemResult::Skipped {
            source_issue_id: owned(issue_id),
            subtask_id: Some(subtask_id),
            reason: ImportBdV1SkipReason::DeterministicDuplicate,
        }
    } else {
        ImportBdV1ItemResult::Imported { source_issue_id: owned(issue_id), subtask_id }
    }
}

/// The result of an issue skipped for `reason`, reported under its own id
/// when valid, else under a placeholder numbered by its position.
pub fn skipped_item_result(issue_id: &str, id_is_valid: bool, items_before: usize, reason: ImportBdV1SkipReason) -> (r:
    ImportBdV1ItemResult)
    requires
        items_before < usize::MAX,
    ensures
        r matches ImportBdV1ItemResult::Skipped { source_issue_id: i, subtask_id: None, reason: why } && why == reason
            && (id_is_valid ==> i@ == issue_id@) && (!id_is_valid ==> i@ == "invalid-source-issue-"@ + nat_digits(
            (items_before + 1) as nat,
        )),
{
    ImportBdV1ItemResult::Skipped {
        source_issue_id: skipped_source_issue_id(issue_id, id_is_valid, items_before),
        subtask_id: None,
        reason,
    }
}

/// The columns a bd issues table must have, in the order they are checked.
pub open spec fn required_issue_columns() -> Seq<Seq<char>> {
    seq!["id"@, "title"@, "status"@, "priority"@, "issue_type"@]
}

/// The first required column missing from an issues table with the given
/// columns, if any.
pub open spec fn first_missing_column(columns: Seq<String>) -> Option<Seq<char>> {
    let req = required_issue_columns();
    if !crate::text::views(columns).contains(req[0]) {
        Some(req[0])
    } else if !crate::text::views(columns).contains(req[1]) {
        Some(req[1])
    } else if !crate::text::views(columns).contains(req[2]) {
        Some(req[2])
    } else if !crate::text::views(columns).contains(req[3]) {
        Some(req[3])
    } else if !crate::text::views(columns).contains(req[4]) {
        Some(req[4])
    } else {
        None
    }
}

fn has_column(columns: &Vec<String>, name: &str) -> (r: bool)
    ensures
        r == crate::text::views(columns@).contains(name@),
{
    let mut i: usize = 0;
    while i < columns.len()
        invariant
            i <= columns@.len(),
            forall|j: int| 0 <= j < i ==> (#[trigger] columns@[j])@ != name@,
        decreases columns@.len() - i,
    {
        if str_eq(columns[i].as_str(), name) {
            assert(crate::text::views(columns@)[i as int] == name@);
            return true;
        }
        i = i + 1;
    }
    assert(!crate::text::views(columns@).contains(name@)) by {
        if crate::text::views(columns@).contains(name@) {
            let k = choose|k: int| 0 <= k < crate::text::views(columns@).len() && crate::text::views(columns@)[k] == name@;
            assert(columns@[k]@ == name@);
        }
    }
    false
}

/// Checks that the issues table of the bd database at `path`, with the
/// given columns, has every required column.
pub fn check_issue_columns(path: &str, columns: &Vec<String>) -> (r: Result<(), CoveyError>)
    ensures
        r is Ok <==> first_missing_column(columns@) is None,
        r is Err ==> (r->Err_0 matches CoveyError::InvalidSourceSchema { path: p, detail } && p@ == path@ && detail@
            == "issues table missing required column "@ + first_missing_column(columns@)->0),
{
    proof {
        reveal_strlit("id");
        reveal_strlit("title");
        reveal_strlit("status");
        reveal_strlit("priority");
        reveal_strlit("issue_type");
    }
    let missing: Option<&str> = if !has_column(columns, "id") {
        Some("id")
    } else if !has_column(columns, "title") {
        Some("title")
    } else if !has_column(columns, "status") {
        Some("status")
    } else if !has_column(columns, "priority") {
        Some("priority")
    } else if !has_column(columns, "issue_type") {
        Some("issue_type")
    } else {
        None
    };
    match missing {
        Some(name) => Err(
            CoveyError::InvalidSourceSchema {
                path: owned(path),
                detail: concat2("issues table missing required column ", name),
            },
        ),
        None => Ok(()),
    }
}

/// The detail of a bd database that lacks table `table`.
pub fn missing_table_detail(table: &str) -> (r: String)
    ensures
        r@ == "missing "@ + table@ + " table"@,
{
    crate::text::concat3("missing ", table, " table")
}

} // verus!
