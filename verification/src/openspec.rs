//! OpenSpec import: the task checklist parser, deterministic Covey ids for
//! imported records, and matching of dependency references to task ids.
use vstd::prelude::*;
use crate::digest::{blake3_digest, prefixed_digest, utf8_bytes};
use crate::error::CoveyError;
use crate::text::{
    char_is_ascii_alnum, concat2, concat4, has_ctrl, is_ascii_alnum, is_ascii_lower, is_blank, str_eq,
    vec_has_control, vec_is_blank, vec_is_trimmed,
    char_is_ascii_digit, chars_of, concat3, contains_char, ends_with, find_char, index_of_from,
    is_ascii_digit, lines_acc, lines_of, nat_digits, owned, seq_eq, slice_of, split, split_lines,
    split_vec, starts_with, string_of, trim, trim_vec, usize_decimal, vec_contains_char,
    vec_starts_with,
};
use vstd::utf8::encode_utf8;

verus! {

/// One task of an OpenSpec change, as the importer sees it.
#[derive(Debug)]
pub struct OpenSpecSourceTask {
    pub task_id: String,
    pub title: String,
    pub source_path: String,
    pub task_digest: String,
    pub task_type: Option<String>,
    pub scenario_refs: Vec<String>,
    pub dependencies: Vec<String>,
}

/// The checklist prefixes that open a task line.
pub open spec fn task_line_rest(t: Seq<char>) -> Option<Seq<char>> {
    if starts_with(t, "- [ ] "@) {
        Some(t.skip("- [ ] "@.len() as int))
    } else if starts_with(t, "- [x] "@) {
        Some(t.skip("- [x] "@.len() as int))
    } else if starts_with(t, "- [X] "@) {
        Some(t.skip("- [X] "@.len() as int))
    } else {
        None
    }
}

/// Why a task id is rejected, if it is: it needs a dot, and every
/// dot-separated segment must be a non-empty run of ASCII digits.
pub open spec fn task_id_error(id: Seq<char>) -> Option<Seq<char>> {
    if !contains_char(id, '.') {
        Some("task id must be hierarchical numeric form"@)
    } else if exists|k: int|
        0 <= k < split(id, '.').len() && !numeric_segment(#[trigger] split(id, '.')[k]) {
        Some("task id must contain only numeric dot-separated segments"@)
    } else {
        None
    }
}

pub open spec fn numeric_segment(seg: Seq<char>) -> bool {
    seg.len() > 0 && forall|i: int| 0 <= i < seg.len() ==> is_ascii_digit(#[trigger] seg[i])
}

/// What one trimmed line of `tasks.md` holds: nothing (`Ok(None)`), a task
/// id and title (`Ok(Some(..))`), or a malformed task (`Err(reason)`).
pub open spec fn classify_task_line(t: Seq<char>) -> Result<Option<(Seq<char>, Seq<char>)>, Seq<char>> {
    match task_line_rest(t) {
        None => if starts_with(t, "- ["@) {
            Err("malformed task checkbox"@)
        } else {
            Ok(None)
        },
        Some(rest) => {
            let k = index_of_from(rest, ' ', 0);
            if k >= rest.len() {
                Err("missing task title"@)
            } else {
                let id = rest.subrange(0, k);
                let title = trim(rest.skip(k + 1));
                match task_id_error(id) {
                    Some(reason) => Err(reason),
                    None => if title.len() == 0 {
                        Err("missing task title"@)
                    } else {
                        Ok(Some((id, title)))
                    },
                }
            }
        },
    }
}

pub open spec fn has_task_id(acc: Seq<(Seq<char>, Seq<char>)>, id: Seq<char>) -> bool {
    exists|k: int| 0 <= k < acc.len() && (#[trigger] acc[k]).0 == id
}

/// Parses lines `i..` of a checklist after the tasks `acc` already found.
/// An error carries the 1-based line number and the reason.
pub open spec fn parse_tasks_from(
    lines: Seq<Seq<char>>,
    i: int,
    acc: Seq<(Seq<char>, Seq<char>)>,
) -> Result<Seq<(Seq<char>, Seq<char>)>, (int, Seq<char>)>
    decreases lines.len() - i,
{
    if i < 0 || i >= lines.len() {
        Ok(acc)
    } else {
        match classify_task_line(trim(lines[i])) {
            Err(reason) => Err((i + 1, reason)),
            Ok(None) => parse_tasks_from(lines, i + 1, acc),
            Ok(Some((id, title))) => if has_task_id(acc, id) {
                Err((i + 1, "duplicate task id"@))
            } else {
                parse_tasks_from(lines, i + 1, acc.push((id, title)))
            },
        }
    }
}

/// The task digest: BLAKE3 over the id, a newline and the title.
pub open spec fn task_digest_spec(id: Seq<char>, title: Seq<char>) -> Seq<char> {
    prefixed_digest(encode_utf8(id) + seq![10u8] + encode_utf8(title))
}

/// Whether `tasks` is exactly the list of parsed `(id, title)` pairs read from `path`.
pub open spec fn tasks_match(
    tasks: Seq<OpenSpecSourceTask>,
    parsed: Seq<(Seq<char>, Seq<char>)>,
    path: Seq<char>,
) -> bool {
    &&& tasks.len() == parsed.len()
    &&& forall|k: int|
        0 <= k < tasks.len() ==> {
            &&& (#[trigger] tasks[k]).task_id@ == parsed[k].0
            &&& tasks[k].title@ == parsed[k].1
            &&& tasks[k].source_path@ == path
            &&& tasks[k].task_digest@ == task_digest_spec(parsed[k].0, parsed[k].1)
            &&& tasks[k].task_type is None
            &&& tasks[k].scenario_refs@.len() == 0
            &&& tasks[k].dependencies@.len() == 0
        }
}

/// The result of parsing an OpenSpec checklist.
pub open spec fn parse_openspec_tasks_result(
    text: Seq<char>,
    path: Seq<char>,
    r: Result<Vec<OpenSpecSourceTask>, CoveyError>,
) -> bool {
    match parse_tasks_from(lines_of(text), 0, Seq::empty()) {
        Err((line, reason)) => r matches Err(CoveyError::InvalidSourceSchema { path: p, detail })
            && p@ == path && detail@ == reason + " at line "@ + nat_digits(line as nat),
        Ok(parsed) => if parsed.len() == 0 {
            r matches Err(CoveyError::InvalidSourceSchema { path: p, detail }) && p@ == path
                && detail@ == "no stable OpenSpec task checklist entries found"@
        } else {
            r matches Ok(tasks) && tasks_match(tasks@, parsed, path)
        },
    }
}

/// Parses the stable `- [ ] N.N title` entries of an OpenSpec `tasks.md`.
/// Checkbox lines must carry a hierarchical numeric id and a title, ids must
/// be unique, and at least one task must be present.
pub fn parse_openspec_tasks(tasks_text: &str, source_path: &str) -> (r: Result<
    Vec<OpenSpecSourceTask>,
    CoveyError,
>)
    requires
        tasks_text@.len() < usize::MAX,
    ensures
        parse_openspec_tasks_result(tasks_text@, source_path@, r),
{
    let text = chars_of(tasks_text);
    let lines = split_lines(&text);
    let ghost line_views = lines_of(tasks_text@);
    let mut tasks: Vec<OpenSpecSourceTask> = Vec::new();
    let mut seen: Vec<Vec<char>> = Vec::new();
    let ghost mut acc: Seq<(Seq<char>, Seq<char>)> = Seq::empty();
    let mut i: usize = 0;
    proof {
        assert(lines@.len() <= tasks_text@.len() + 1) by {
            lemma_lines_len(tasks_text@);
        }
    }
    while i < lines.len()
        invariant
            i <= lines@.len(),
            lines@.len() == line_views.len(),
            lines@.len() <= tasks_text@.len() + 1,
            tasks_text@.len() < usize::MAX,
            forall|k: int| 0 <= k < lines@.len() ==> (#[trigger] lines@[k])@ == line_views[k],
            line_views == lines_of(tasks_text@),
            parse_tasks_from(line_views, 0, Seq::empty()) == parse_tasks_from(
                line_views,
                i as int,
                acc,
            ),
            seen@.len() == acc.len(),
            forall|k: int| 0 <= k < acc.len() ==> (#[trigger] seen@[k])@ == acc[k].0,
            tasks_match(tasks@, acc, source_path@),
        decreases lines@.len() - i,
    {
        let t = trim_vec(&lines[i]);
        proof {
            assert(lines@[i as int]@ == line_views[i as int]);
            assert(t@ == trim(line_views[i as int]));
        }
        match classify_line(&t) {
            Err(reason) => {
                let line_no = usize_decimal(i + 1);
                let detail = concat3(reason, " at line ", line_no.as_str());
                return Err(
                    CoveyError::InvalidSourceSchema { path: owned(source_path), detail: detail },
                );
            },
            Ok(None) => {},
            Ok(Some((id, title))) => {
                if contains_seq(&seen, &id) {
                    let line_no = usize_decimal(i + 1);
                    let detail = concat3("duplicate task id", " at line ", line_no.as_str());
                    return Err(
                        CoveyError::InvalidSourceSchema {
                            path: owned(source_path),
                            detail: detail,
                        },
                    );
                }
                let id_s = string_of(&id);
                let title_s = string_of(&title);
                let digest = task_digest(id_s.as_str(), title_s.as_str());
                let task = OpenSpecSourceTask {
                    task_id: id_s,
                    title: title_s,
                    source_path: owned(source_path),
                    task_digest: digest,
                    task_type: None,
                    scenario_refs: Vec::new(),
                    dependencies: Vec::new(),
                };
                proof {
                    if has_task_id(acc, id@) {
                        let j = choose|j: int| 0 <= j < acc.len() && (#[trigger] acc[j]).0 == id@;
                        assert(seen@[j]@ == id@);
                    }
                    assert(!has_task_id(acc, id@));
                    acc = acc.push((id@, title@));
                }
                tasks.push(task);
                seen.push(id);
            },
        }
        i = i + 1;
    }
    if tasks.len() == 0 {
        return Err(
            CoveyError::InvalidSourceSchema {
                path: owned(source_path),
                detail: owned("no stable OpenSpec task checklist entries found"),
            },
        );
    }
    Ok(tasks)
}

proof fn lemma_lines_len(s: Seq<char>)
    ensures
        lines_of(s).len() <= s.len() + 1,
{
    lemma_lines_acc_len(s, 0, Seq::empty(), Seq::empty());
}

proof fn lemma_lines_acc_len(s: Seq<char>, i: int, cur: Seq<char>, acc: Seq<Seq<char>>)
    requires
        0 <= i <= s.len(),
        acc.len() <= i,
    ensures
        lines_acc(s, i, cur, acc).len() <= s.len() + 1,
    decreases s.len() - i,
{
    if i < s.len() {
        if s[i] == '\n' {
            lemma_lines_acc_len(s, i + 1, Seq::empty(), acc.push(cur));
        } else {
            lemma_lines_acc_len(s, i + 1, cur.push(s[i]), acc);
        }
    }
}

/// Whether `seen` holds a sequence equal to `x`.
fn contains_seq(seen: &Vec<Vec<char>>, x: &Vec<char>) -> (r: bool)
    ensures
        r == exists|k: int| 0 <= k < seen@.len() && (#[trigger] seen@[k])@ == x@,
{
    let mut k: usize = 0;
    while k < seen.len()
        invariant
            k <= seen@.len(),
            forall|j: int| 0 <= j < k ==> (#[trigger] seen@[j])@ != x@,
        decreases seen@.len() - k,
    {
        if seq_eq(&seen[k], x) {
            return true;
        }
        k = k + 1;
    }
    false
}

/// The digest of one task: `blake3:` plus the hex BLAKE3 of `id\ntitle`.
pub fn task_digest(task_id: &str, title: &str) -> (r: String)
    ensures
        r@ == task_digest_spec(task_id@, title@),
{
    let mut bytes = utf8_bytes(task_id);
    bytes.push(10u8);
    let tail = utf8_bytes(title);
    let ghost head = bytes@;
    assert(head =~= encode_utf8(task_id@) + seq![10u8]);
    let mut k: usize = 0;
    while k < tail.len()
        invariant
            k <= tail@.len(),
            bytes@ == head + tail@.take(k as int),
        decreases tail@.len() - k,
    {
        bytes.push(tail[k]);
        assert(head + tail@.take(k as int).push(tail@[k as int]) =~= head + tail@.take(k + 1));
        k = k + 1;
    }
    assert(tail@.take(tail@.len() as int) =~= tail@);
    let sl = bytes.as_slice();
    assert(sl@ == encode_utf8(task_id@) + seq![10u8] + encode_utf8(title@));
    blake3_digest(sl)
}

/// Classifies one trimmed checklist line.
fn classify_line(t: &Vec<char>) -> (r: Result<Option<(Vec<char>, Vec<char>)>, &'static str>)
    ensures
        match (r, classify_task_line(t@)) {
            (Err(a), Err(b)) => a@ == b,
            (Ok(None), Ok(None)) => true,
            (Ok(Some((id, title))), Ok(Some((sid, stitle)))) => id@ == sid && title@ == stitle,
            _ => false,
        },
{
    let rest = if vec_starts_with(t, "- [ ] ") {
        let n = chars_of("- [ ] ").len();
        slice_of(t, n, t.len())
    } else if vec_starts_with(t, "- [x] ") {
        let n = chars_of("- [x] ").len();
        slice_of(t, n, t.len())
    } else if vec_starts_with(t, "- [X] ") {
        let n = chars_of("- [X] ").len();
        slice_of(t, n, t.len())
    } else {
        if vec_starts_with(t, "- [") {
            return Err("malformed task checkbox");
        }
        return Ok(None);
    };
    assert(task_line_rest(t@) == Some(rest@));
    match find_char(&rest, ' ') {
        None => Err("missing task title"),
        Some(k) => {
            let id = slice_of(&rest, 0, k);
            let after = slice_of(&rest, k + 1, rest.len());
            assert(after@ =~= rest@.skip(k + 1));
            let title = trim_vec(&after);
            match task_id_problem(&id) {
                Some(reason) => Err(reason),
                None => {
                    if title.len() == 0 {
                        Err("missing task title")
                    } else {
                        Ok(Some((id, title)))
                    }
                },
            }
        },
    }
}

/// Why a task id is rejected, if it is.
fn task_id_problem(id: &Vec<char>) -> (r: Option<&'static str>)
    ensures
        match (r, task_id_error(id@)) {
            (None, None) => true,
            (Some(a), Some(b)) => a@ == b,
            _ => false,
        },
{
    if !vec_contains_char(id, '.') {
        return Some("task id must be hierarchical numeric form");
    }
    let segments = split_vec(id, '.');
    let mut k: usize = 0;
    while k < segments.len()
        invariant
            k <= segments@.len(),
            contains_char(id@, '.'),
            segments@.len() == split(id@, '.').len(),
            forall|j: int| 0 <= j < segments@.len() ==> (#[trigger] segments@[j])@ == split(id@, '.')[j],
            forall|j: int| 0 <= j < k ==> numeric_segment(#[trigger] split(id@, '.')[j]),
        decreases segments@.len() - k,
    {
        let seg = &segments[k];
        let mut ok = seg.len() > 0;
        let mut c: usize = 0;
        while c < seg.len()
            invariant
                c <= seg@.len(),
                ok == (seg@.len() > 0 && forall|m: int| 0 <= m < c ==> is_ascii_digit(#[trigger] seg@[m])),
            decreases seg@.len() - c,
        {
            if !char_is_ascii_digit(seg[c]) {
                ok = false;
            }
            c = c + 1;
        }
        if !ok {
            assert(seg@ == split(id@, '.')[k as int]);
            assert(!numeric_segment(split(id@, '.')[k as int]));
            assert(exists|j: int|
                0 <= j < split(id@, '.').len() && !numeric_segment(#[trigger] split(id@, '.')[j]));
            assert(contains_char(id@, '.'));
            assert(task_id_error(id@) == Some(
                "task id must contain only numeric dot-separated segments"@,
            ));
            return Some("task id must contain only numeric dot-separated segments");
        }
        k = k + 1;
    }
    None
}

/// Whether a dependency token names `task_id`: either exactly, or as a
/// hyphen-prefixed suffix such as `TASK-MAG0-3.1` for `3.1`.
pub open spec fn dependency_token_matches_spec(token: Seq<char>, task_id: Seq<char>) -> bool {
    token == task_id || (ends_with(token, task_id) && token.len() > task_id.len() && token[token.len()
        - task_id.len() - 1] == '-')
}

/// Whether a dependency token names `task_id`.
pub fn dependency_token_matches(token: &str, task_id: &str) -> (r: bool)
    ensures
        r == dependency_token_matches_spec(token@, task_id@),
{
    let t = chars_of(token);
    let id = chars_of(task_id);
    if seq_eq(&t, &id) {
        return true;
    }
    if t.len() <= id.len() {
        return false;
    }
    let start = t.len() - id.len();
    let suffix = slice_of(&t, start, t.len());
    let same = seq_eq(&suffix, &id);
    same && t[start - 1] == '-'
}


/// A kebab-case ASCII change id: lowercase letters, digits and inner hyphens.
pub open spec fn is_kebab_change_id(id: Seq<char>) -> bool {
    &&& id.len() > 0
    &&& id[0] != '-'
    &&& id[id.len() - 1] != '-'
    &&& forall|i: int|
        0 <= i < id.len() ==> is_ascii_lower(#[trigger] id[i]) || is_ascii_digit(id[i]) || id[i]
            == '-'
}

/// Accepts a kebab-case ASCII OpenSpec change id.
pub fn validate_openspec_change_id(change_id: &str) -> (r: Result<(), CoveyError>)
    ensures
        r is Ok <==> is_kebab_change_id(change_id@),
        r matches Err(CoveyError::InvalidImportDestination { reason }) ==> reason@
            == "change id must be kebab-case ASCII"@,
        r is Err ==> r matches Err(CoveyError::InvalidImportDestination { .. }),
{
    let c = chars_of(change_id);
    let mut ok = c.len() > 0 && c[0] != '-' && c[c.len() - 1] != '-';
    let mut i: usize = 0;
    while i < c.len()
        invariant
            i <= c@.len(),
            c@ == change_id@,
            ok == (c@.len() > 0 && c@[0] != '-' && c@[c@.len() - 1] != '-' && forall|k: int|
                0 <= k < i ==> is_ascii_lower(#[trigger] c@[k]) || is_ascii_digit(c@[k]) || c@[k]
                    == '-'),
        decreases c@.len() - i,
    {
        let ch = c[i];
        if !(('a' <= ch && ch <= 'z') || ('0' <= ch && ch <= '9') || ch == '-') {
            ok = false;
        }
        i = i + 1;
    }
    if ok {
        Ok(())
    } else {
        Err(CoveyError::InvalidImportDestination { reason: owned("change id must be kebab-case ASCII") })
    }
}

/// Characters allowed in a deterministic Covey id.
pub open spec fn is_covey_id_char(c: char) -> bool {
    is_ascii_alnum(c) || c == ':' || c == '-' || c == '_' || c == '.'
}

/// Accepts a deterministic id no longer than an object id may be, non-empty,
/// and made of ASCII letters, digits and `:-_.`.
pub fn validate_deterministic_covey_id(field: &str, id: &str) -> (r: Result<(), CoveyError>)
    ensures
        crate::validate::too_long(id@) ==> r is Err && crate::validate::is_too_long_error(r->Err_0, field@),
        !crate::validate::too_long(id@) ==> (r is Ok <==> (id@.len() > 0 && forall|i: int|
            0 <= i < id@.len() ==> is_covey_id_char(#[trigger] id@[i]))),
        !crate::validate::too_long(id@) && r is Err ==> (r matches Err(CoveyError::InvalidImportDestination { reason })
            && reason@ == field@ + " contains unsupported characters"@),
{
    crate::validate::ensure_object_id_len(field, id)?;
    let c = chars_of(id);
    let mut ok = c.len() > 0;
    let mut i: usize = 0;
    while i < c.len()
        invariant
            i <= c@.len(),
            c@ == id@,
            ok == (c@.len() > 0 && forall|k: int| 0 <= k < i ==> is_covey_id_char(#[trigger] c@[k])),
        decreases c@.len() - i,
    {
        let ch = c[i];
        if !(char_is_ascii_alnum(ch) || ch == ':' || ch == '-' || ch == '_' || ch == '.') {
            ok = false;
        }
        i = i + 1;
    }
    if ok {
        Ok(())
    } else {
        Err(CoveyError::InvalidImportDestination { reason: concat2(field, " contains unsupported characters") })
    }
}

/// The meta-task id of an imported OpenSpec change.
pub fn openspec_meta_task_id(change_id: &str) -> (r: String)
    ensures
        r@ == "openspec:"@ + change_id@,
{
    concat2("openspec:", change_id)
}

/// The subtask id of one imported OpenSpec task.
pub fn openspec_subtask_id(change_id: &str, task_id: &str) -> (r: String)
    ensures
        r@ == "openspec:"@ + change_id@ + ":"@ + task_id@,
{
    concat4("openspec:", change_id, ":", task_id)
}

/// The prompt text of an imported OpenSpec meta-task.
pub fn openspec_meta_prompt(change_id: &str, change_path: &str) -> (r: String)
    ensures
        r@ == "OpenSpec change "@ + change_id@ + "\n\nImported from "@ + change_path@,
{
    concat4("OpenSpec change ", change_id, "\n\nImported from ", change_path)
}

/// Text that is not blank, not padded, and free of control characters.
pub open spec fn is_normalized_text(v: Seq<char>) -> bool {
    !is_blank(v) && trim(v) == v && !has_ctrl(v)
}

/// Accepts a normalized text field of a compiled mission.
pub fn validate_normalized_import_text(field: &str, value: String) -> (r: Result<String, CoveyError>)
    ensures
        r matches Ok(v) ==> v == value,
        r is Ok <==> is_normalized_text(value@),
        is_blank(value@) ==> (r matches Err(CoveyError::InvalidSourceSchema { path, detail })
            && path@ == "compiled Better Droid mission"@ && detail@ == field@ + " must not be empty"@),
        !is_blank(value@) && trim(value@) != value@ ==> (r matches Err(CoveyError::InvalidSourceSchema { path, detail })
            && path@ == "compiled Better Droid mission"@ && detail@ == field@ + " must not include leading or trailing whitespace"@),
        !is_blank(value@) && trim(value@) == value@ && has_ctrl(value@) ==> (r matches Err(CoveyError::InvalidSourceSchema { path, detail })
            && path@ == "compiled Better Droid mission"@ && detail@ == field@ + " must not contain control characters"@),
{
    let c = chars_of(value.as_str());
    if vec_is_blank(&c) {
        return Err(CoveyError::InvalidSourceSchema {
            path: owned("compiled Better Droid mission"),
            detail: concat2(field, " must not be empty"),
        });
    }
    if !vec_is_trimmed(&c) {
        return Err(CoveyError::InvalidSourceSchema {
            path: owned("compiled Better Droid mission"),
            detail: concat2(field, " must not include leading or trailing whitespace"),
        });
    }
    if vec_has_control(&c) {
        return Err(CoveyError::InvalidSourceSchema {
            path: owned("compiled Better Droid mission"),
            detail: concat2(field, " must not contain control characters"),
        });
    }
    Ok(value)
}

/// Why a normalized text field is rejected, if it is.
pub open spec fn normalized_text_error(field: Seq<char>, v: Seq<char>) -> Option<Seq<char>> {
    if is_blank(v) {
        Some(field + " must not be empty"@)
    } else if trim(v) != v {
        Some(field + " must not include leading or trailing whitespace"@)
    } else if has_ctrl(v) {
        Some(field + " must not contain control characters"@)
    } else {
        None
    }
}

/// The first rejection among a list of normalized text fields, in order.
pub open spec fn first_text_error(field: Seq<char>, vs: Seq<String>) -> Option<Seq<char>>
    decreases vs.len(),
{
    if vs.len() == 0 {
        None
    } else if normalized_text_error(field, vs[0]@) is Some {
        normalized_text_error(field, vs[0]@)
    } else {
        first_text_error(field, vs.drop_first())
    }
}

/// Why the raw parts of a task are rejected, if they are: its task type,
/// then each scenario reference, then each dependency must be normalized text.
pub open spec fn source_task_error(task_type: Option<String>, scenario_refs: Seq<String>, dependencies: Seq<String>) -> Option<
    Seq<char>,
> {
    if task_type is Some && normalized_text_error("task_type"@, task_type->0@) is Some {
        normalized_text_error("task_type"@, task_type->0@)
    } else if first_text_error("scenario_ref"@, scenario_refs) is Some {
        first_text_error("scenario_ref"@, scenario_refs)
    } else {
        first_text_error("dependency"@, dependencies)
    }
}

fn check_texts(field: &str, vs: &Vec<String>) -> (r: Result<(), CoveyError>)
    ensures
        r is Err <==> first_text_error(field@, vs@) is Some,
        r matches Err(e) ==> (e matches CoveyError::InvalidSourceSchema { path, detail } && path@
            == "compiled Better Droid mission"@ && Some(detail@) == first_text_error(field@, vs@)),
{
    let mut i: usize = 0;
    assert(vs@.skip(0) =~= vs@);
    while i < vs.len()
        invariant
            i <= vs@.len(),
            first_text_error(field@, vs@) == first_text_error(field@, vs@.skip(i as int)),
        decreases vs@.len() - i,
    {
        assert(vs@.skip(i as int)[0] == vs@[i as int]);
        assert(vs@.skip(i as int).drop_first() =~= vs@.skip(i + 1));
        match validate_normalized_import_text(field, vs[i].clone()) {
            Err(e) => {
                return Err(e);
            },
            Ok(_) => {},
        }
        i = i + 1;
    }
    assert(vs@.skip(i as int).len() == 0);
    Ok(())
}

impl OpenSpecSourceTask {
    /// Builds a task from its raw parts, rejecting a task type, scenario
    /// reference or dependency that is not normalized text.
    pub fn try_from_raw_parts(
        task_id: String,
        title: String,
        source_path: String,
        task_digest: String,
        task_type: Option<String>,
        scenario_refs: Vec<String>,
        dependencies: Vec<String>,
    ) -> (r: Result<Self, CoveyError>)
        ensures
            r is Err <==> source_task_error(task_type, scenario_refs@, dependencies@) is Some,
            r matches Err(e) ==> (e matches CoveyError::InvalidSourceSchema { path, detail } && path@
                == "compiled Better Droid mission"@ && Some(detail@) == source_task_error(
                task_type,
                scenario_refs@,
                dependencies@,
            )),
            r matches Ok(t) ==> t.task_id == task_id && t.title == title && t.source_path == source_path
                && t.task_digest == task_digest && t.task_type == task_type && t.scenario_refs == scenario_refs
                && t.dependencies == dependencies,
    {
        match &task_type {
            Some(t) => {
                validate_normalized_import_text("task_type", t.clone())?;
            },
            None => {},
        }
        check_texts("scenario_ref", &scenario_refs)?;
        check_texts("dependency", &dependencies)?;
        Ok(OpenSpecSourceTask { task_id, title, source_path, task_digest, task_type, scenario_refs, dependencies })
    }
}

/// One `(path, digest)` binding of a source or artifact file.
#[derive(Debug)]
pub struct OpenSpecSourceDigest {
    pub path: String,
    pub digest: String,
}

/// The repository-relative directory of an OpenSpec change.
pub open spec fn change_path_spec(change_id: Seq<char>) -> Seq<char> {
    "openspec/changes/"@ + change_id
}

/// The repository-relative directory of an OpenSpec change.
pub fn openspec_change_path(change_id: &str) -> (r: String)
    ensures
        r@ == change_path_spec(change_id@),
{
    concat2("openspec/changes/", change_id)
}

/// Whether `b` binds file `file` of change `change_id` to the digest of `text`.
pub open spec fn binds_file(b: OpenSpecSourceDigest, change_id: Seq<char>, file: Seq<char>, text: Seq<char>) -> bool {
    b.path@ == change_path_spec(change_id) + "/"@ + file && b.digest@ == prefixed_digest(encode_utf8(text))
}

fn file_binding(change_id: &str, file: &str, text: &str) -> (r: OpenSpecSourceDigest)
    ensures
        binds_file(r, change_id@, file@, text@),
{
    let dir = openspec_change_path(change_id);
    let path = concat3(dir.as_str(), "/", file);
    let digest = blake3_digest(text.as_bytes());
    OpenSpecSourceDigest { path, digest }
}

/// The bindings of a change's proposal, design and tasks files to the
/// digests of their texts, in that order.
pub fn required_source_digests(change_id: &str, proposal: &str, design: &str, tasks: &str) -> (r: Vec<
    OpenSpecSourceDigest,
>)
    ensures
        r@.len() == 3,
        binds_file(r@[0], change_id@, "proposal.md"@, proposal@),
        binds_file(r@[1], change_id@, "design.md"@, design@),
        binds_file(r@[2], change_id@, "tasks.md"@, tasks@),
{
    let mut r: Vec<OpenSpecSourceDigest> = Vec::new();
    r.push(file_binding(change_id, "proposal.md", proposal));
    r.push(file_binding(change_id, "design.md", design));
    r.push(file_binding(change_id, "tasks.md", tasks));
    r
}

/// The bindings of a change's spec files, given each file's
/// repository-relative path and bytes in path order; a change without spec
/// files is refused, naming its specs directory `specs_root`.
pub fn spec_source_digests(specs_root: &str, files: &Vec<(String, Vec<u8>)>) -> (r: Result<Vec<OpenSpecSourceDigest>, CoveyError>)
    ensures
        r is Err <==> files@.len() == 0,
        r matches Err(e) ==> (e matches CoveyError::InvalidSourceSchema { path, detail } && path@ == specs_root@
            && detail@ == "missing capability specs"@),
        r matches Ok(d) ==> d@.len() == files@.len() && forall|i: int|
            0 <= i < files@.len() ==> (#[trigger] d@[i]).path@ == files@[i].0@ && d@[i].digest@ == prefixed_digest(
                files@[i].1@,
            ),
{
    if files.len() == 0 {
        return Err(
            CoveyError::InvalidSourceSchema {
                path: owned(specs_root),
                detail: owned("missing capability specs"),
            },
        );
    }
    let mut d: Vec<OpenSpecSourceDigest> = Vec::new();
    let mut i: usize = 0;
    while i < files.len()
        invariant
            i <= files@.len(),
            d@.len() == i,
            forall|j: int|
                0 <= j < i ==> (#[trigger] d@[j]).path@ == files@[j].0@ && d@[j].digest@ == prefixed_digest(
                    files@[j].1@,
                ),
        decreases files@.len() - i,
    {
        let (path, bytes) = &files[i];
        let digest = blake3_digest(bytes.as_slice());
        d.push(OpenSpecSourceDigest { path: path.clone(), digest });
        i = i + 1;
    }
    Ok(d)
}

/// Index of the first binding for `path` in `compiled` (or its length).
pub open spec fn binding_index(compiled: Seq<OpenSpecSourceDigest>, path: Seq<char>, i: int) -> int
    decreases compiled.len() - i,
{
    if i < 0 || i >= compiled.len() {
        compiled.len() as int
    } else if compiled[i].path@ == path {
        i
    } else {
        binding_index(compiled, path, i + 1)
    }
}

/// Whether one expected binding is present, with the same digest, in `compiled`.
pub open spec fn binding_ok(compiled: Seq<OpenSpecSourceDigest>, expected: OpenSpecSourceDigest) -> bool {
    let k = binding_index(compiled, expected.path@, 0);
    k < compiled.len() && compiled[k].digest@ == expected.digest@
}

/// Checks that a compiled mission binds every required source file to the
/// digest computed from the source, in the order `required` then `spec_digests`.
pub fn validate_source_digest_binding(
    compiled: &Vec<OpenSpecSourceDigest>,
    required: &Vec<OpenSpecSourceDigest>,
    spec_digests: &Vec<OpenSpecSourceDigest>,
) -> (r: Result<(), CoveyError>)
    ensures
        r is Ok <==> (forall|k: int| 0 <= k < required@.len() ==> binding_ok(compiled@, #[trigger] required@[k]))
            && (forall|k: int| 0 <= k < spec_digests@.len() ==> binding_ok(compiled@, #[trigger] spec_digests@[k])),
        r matches Err(e) ==> if exists|k: int| 0 <= k < required@.len() && !binding_ok(compiled@, #[trigger] required@[k]) {
            first_binding_error(compiled@, required@, e)
        } else {
            first_binding_error(compiled@, spec_digests@, e)
        },
{
    let r1 = check_bindings(compiled, required);
    if r1.is_err() {
        return r1;
    }
    check_bindings(compiled, spec_digests)
}

/// The error for expected binding `want` that `compiled` fails: its path, and
/// whether the binding is missing or its digest stale.
pub open spec fn binding_error(compiled: Seq<OpenSpecSourceDigest>, want: OpenSpecSourceDigest, e: CoveyError) -> bool {
    e matches CoveyError::InvalidSourceSchema { path, detail } && path@ == want.path@ && detail@ == if binding_index(
        compiled,
        want.path@,
        0,
    ) == compiled.len() {
        "compiled mission missing source digest binding"@
    } else {
        "compiled mission source digest is stale"@
    }
}

/// `e` is the error of the first binding of `expected` that `compiled` fails.
pub open spec fn first_binding_error(compiled: Seq<OpenSpecSourceDigest>, expected: Seq<OpenSpecSourceDigest>, e: CoveyError) -> bool {
    exists|k: int|
        0 <= k < expected.len() && !binding_ok(compiled, #[trigger] expected[k]) && (forall|j: int|
            0 <= j < k ==> binding_ok(compiled, #[trigger] expected[j])) && binding_error(compiled, expected[k], e)
}

fn check_bindings(compiled: &Vec<OpenSpecSourceDigest>, expected: &Vec<OpenSpecSourceDigest>) -> (r: Result<(), CoveyError>)
    ensures
        r is Ok <==> forall|k: int| 0 <= k < expected@.len() ==> binding_ok(compiled@, #[trigger] expected@[k]),
        r matches Err(e) ==> first_binding_error(compiled@, expected@, e),
{
    let mut k: usize = 0;
    while k < expected.len()
        invariant
            k <= expected@.len(),
            forall|j: int| 0 <= j < k ==> binding_ok(compiled@, #[trigger] expected@[j]),
        decreases expected@.len() - k,
    {
        let want = &expected[k];
        let mut i: usize = 0;
        while i < compiled.len() && !str_eq(compiled[i].path.as_str(), want.path.as_str())
            invariant
                i <= compiled@.len(),
                binding_index(compiled@, want.path@, 0) == binding_index(compiled@, want.path@, i as int),
            decreases compiled@.len() - i,
        {
            i = i + 1;
        }
        if i == compiled.len() {
            return Err(CoveyError::InvalidSourceSchema {
                path: want.path.clone(),
                detail: owned("compiled mission missing source digest binding"),
            });
        }
        if !str_eq(compiled[i].digest.as_str(), want.digest.as_str()) {
            return Err(CoveyError::InvalidSourceSchema {
                path: want.path.clone(),
                detail: owned("compiled mission source digest is stale"),
            });
        }
        k = k + 1;
    }
    Ok(())
}

/// What an OpenSpec import does with one record.
#[derive(Debug, Clone, Copy, PartialEq, Eq, Structural)]
pub enum ImportOpenSpecAction {
    Created,
    Updated,
    Unchanged,
    Conflict,
}

/// Why an imported task conflicts with existing Covey state.
#[derive(Debug, Clone, Copy, PartialEq, Eq, Structural)]
pub enum ImportOpenSpecConflictReason {
    ExistingSubtaskDifferentMetaTask,
    ActiveClaimChangedSource,
}

/// Facts about the subtask already stored under an imported task's id.
#[derive(Debug)]
pub struct ExistingSubtaskFacts {
    pub meta_task_id: String,
    pub title: String,
    pub has_active_claim: bool,
}

/// The import action for one OpenSpec task, given what is already stored
/// under its deterministic subtask id: a subtask of another meta-task, or one
/// whose source changed under an active claim, conflicts; otherwise a changed
/// task is updated and an unchanged one left alone.
pub open spec fn subtask_import_action_spec(
    existing: Option<ExistingSubtaskFacts>,
    meta_task_id: Seq<char>,
    title: Seq<char>,
    provenance_equivalent: bool,
) -> (ImportOpenSpecAction, Option<ImportOpenSpecConflictReason>) {
    match existing {
        None => (ImportOpenSpecAction::Created, None),
        Some(e) => if e.meta_task_id@ != meta_task_id {
            (ImportOpenSpecAction::Conflict, Some(ImportOpenSpecConflictReason::ExistingSubtaskDifferentMetaTask))
        } else {
            let changed = e.title@ != title || !provenance_equivalent;
            if changed && e.has_active_claim {
                (ImportOpenSpecAction::Conflict, Some(ImportOpenSpecConflictReason::ActiveClaimChangedSource))
            } else if changed {
                (ImportOpenSpecAction::Updated, None)
            } else {
                (ImportOpenSpecAction::Unchanged, None)
            }
        },
    }
}

/// Decides the import action for one OpenSpec task.
pub fn subtask_import_action(
    existing: &Option<ExistingSubtaskFacts>,
    meta_task_id: &str,
    title: &str,
    provenance_equivalent: bool,
) -> (r: (ImportOpenSpecAction, Option<ImportOpenSpecConflictReason>))
    ensures
        r == subtask_import_action_spec(*existing, meta_task_id@, title@, provenance_equivalent),
{
    match existing {
        None => (ImportOpenSpecAction::Created, None),
        Some(e) => {
            if !str_eq(e.meta_task_id.as_str(), meta_task_id) {
                return (ImportOpenSpecAction::Conflict, Some(ImportOpenSpecConflictReason::ExistingSubtaskDifferentMetaTask));
            }
            let changed = !str_eq(e.title.as_str(), title) || !provenance_equivalent;
            if changed && e.has_active_claim {
                (ImportOpenSpecAction::Conflict, Some(ImportOpenSpecConflictReason::ActiveClaimChangedSource))
            } else if changed {
                (ImportOpenSpecAction::Updated, None)
            } else {
                (ImportOpenSpecAction::Unchanged, None)
            }
        },
    }
}

/// Counts of created, updated and unchanged records of an import.
#[derive(Debug, Clone, Copy, PartialEq, Eq, Structural)]
pub struct ImportActionCounts {
    pub created: usize,
    pub updated: usize,
    pub unchanged: usize,
}

/// Adds one action to the counts; conflicts are not counted.
pub fn count_action(action: ImportOpenSpecAction, counts: &mut ImportActionCounts)
    requires
        old(counts).created < usize::MAX,
        old(counts).updated < usize::MAX,
        old(counts).unchanged < usize::MAX,
    ensures
        final(counts).created == old(counts).created + if action == ImportOpenSpecAction::Created { 1int } else { 0int },
        final(counts).updated == old(counts).updated + if action == ImportOpenSpecAction::Updated { 1int } else { 0int },
        final(counts).unchanged == old(counts).unchanged + if action == ImportOpenSpecAction::Unchanged { 1int } else { 0int },
{
    match action {
        ImportOpenSpecAction::Created => counts.created = counts.created + 1,
        ImportOpenSpecAction::Updated => counts.updated = counts.updated + 1,
        ImportOpenSpecAction::Unchanged => counts.unchanged = counts.unchanged + 1,
        ImportOpenSpecAction::Conflict => {},
    }
}

// ---------------------------------------------------------------- dependency resolution

/// Whether a character belongs to a dependency token.
pub open spec fn is_token_char(c: char) -> bool {
    is_ascii_alnum(c) || c == '.' || c == '-' || c == '_'
}

/// A dependency text with every separator character read as a space.
pub open spec fn token_text(raw: Seq<char>) -> Seq<char> {
    Seq::new(raw.len(), |i: int| if is_token_char(raw[i]) { raw[i] } else { ' ' })
}

/// The tokens of a dependency text: the pieces between separators.
pub open spec fn dependency_tokens(raw: Seq<char>) -> Seq<Seq<char>> {
    split(token_text(raw), ' ')
}

/// Whether some token of a dependency text names the task.
pub open spec fn names_task(raw: Seq<char>, task_id: Seq<char>) -> bool {
    exists|k: int| 0 <= k < dependency_tokens(raw).len() && dependency_token_matches_spec(
        #[trigger] dependency_tokens(raw)[k],
        task_id,
    )
}

/// The subtasks of the tasks one dependency text names, in the order of
/// the task table.
pub open spec fn resolved_for(raw: Seq<char>) -> spec_fn((String, String)) -> Option<Seq<char>> {
    |p: (String, String)| if names_task(raw, p.0@) { Some(p.1@) } else { None }
}

/// The subtasks a record depends on: for each dependency text other than
/// `none`, in order, the subtasks of the tasks it names.
pub open spec fn resolved_ids_spec(deps: Seq<String>, table: Seq<(String, String)>) -> Seq<Seq<char>>
    decreases deps.len(),
{
    if deps.len() == 0 {
        Seq::empty()
    } else {
        resolved_ids_spec(deps.drop_last(), table) + if deps.last()@ == "none"@ {
            Seq::empty()
        } else {
            table.filter_map(resolved_for(deps.last()@))
        }
    }
}

fn names_task_exec(raw: &str, task_id: &str) -> (r: bool)
    ensures
        r == names_task(raw@, task_id@),
{
    let c = chars_of(raw);
    let mut mapped: Vec<char> = Vec::new();
    let mut i: usize = 0;
    while i < c.len()
        invariant
            i <= c@.len(),
            c@ == raw@,
            mapped@ == token_text(raw@).take(i as int),
        decreases c@.len() - i,
    {
        let ch = c[i];
        if char_is_ascii_alnum(ch) || ch == '.' || ch == '-' || ch == '_' {
            mapped.push(ch);
        } else {
            mapped.push(' ');
        }
        assert(token_text(raw@).take(i + 1) =~= token_text(raw@).take(i as int).push(token_text(raw@)[i as int]));
        i = i + 1;
    }
    assert(token_text(raw@).take(c@.len() as int) =~= token_text(raw@));
    let tokens = split_vec(&mapped, ' ');
    let mut k: usize = 0;
    while k < tokens.len()
        invariant
            k <= tokens@.len(),
            mapped@ == token_text(raw@),
            tokens@.len() == dependency_tokens(raw@).len(),
            forall|j: int| 0 <= j < tokens@.len() ==> (#[trigger] tokens@[j])@ == dependency_tokens(raw@)[j],
            forall|j: int| 0 <= j < k ==> !dependency_token_matches_spec(#[trigger] dependency_tokens(raw@)[j], task_id@),
        decreases tokens@.len() - k,
    {
        let token = string_of(&tokens[k]);
        if dependency_token_matches(token.as_str(), task_id) {
            assert(dependency_token_matches_spec(dependency_tokens(raw@)[k as int], task_id@));
            return true;
        }
        k = k + 1;
    }
    false
}

/// The subtasks a record depends on, given the table from task ids to
/// subtask ids in task id order.
pub fn resolved_dependency_ids(dependencies: &Vec<String>, task_to_subtask: &Vec<(String, String)>) -> (r: Vec<String>)
    ensures
        crate::text::views(r@) == resolved_ids_spec(dependencies@, task_to_subtask@),
{
    let mut out: Vec<String> = Vec::new();
    let mut i: usize = 0;
    assert(dependencies@.take(0) =~= Seq::<String>::empty());
    while i < dependencies.len()
        invariant
            i <= dependencies@.len(),
            crate::text::views(out@) == resolved_ids_spec(dependencies@.take(i as int), task_to_subtask@),
        decreases dependencies@.len() - i,
    {
        let ghost start = crate::text::views(out@);
        let raw = &dependencies[i];
        let ghost f = resolved_for(raw@);
        if !str_eq(raw.as_str(), "none") {
            let mut j: usize = 0;
            while j < task_to_subtask.len()
                invariant
                    j <= task_to_subtask@.len(),
                    f == resolved_for(raw@),
                    crate::text::views(out@) == start + task_to_subtask@.take(j as int).filter_map(f),
                decreases task_to_subtask@.len() - j,
            {
                let ghost before = crate::text::views(out@);
                let (task_id, subtask_id) = &task_to_subtask[j];
                if names_task_exec(raw.as_str(), task_id.as_str()) {
                    let x = subtask_id.clone();
                    proof {
                        assert(crate::text::views(out@.push(x)) =~= crate::text::views(out@).push(x@));
                    }
                    out.push(x);
                }
                proof {
                    task_to_subtask@.lemma_filter_map_take_succ(f, j as int);
                    assert(crate::text::views(out@) =~= start + task_to_subtask@.take(j + 1).filter_map(f));
                }
                j = j + 1;
            }
            assert(task_to_subtask@.take(task_to_subtask@.len() as int) =~= task_to_subtask@);
        }
        proof {
            let pre = dependencies@.take(i as int);
            let nxt = dependencies@.take(i + 1);
            assert(nxt.drop_last() =~= pre);
            assert(nxt.last() == dependencies@[i as int]);
            if raw@ == "none"@ {
                assert(crate::text::views(out@) =~= resolved_ids_spec(nxt, task_to_subtask@));
            } else {
                assert(crate::text::views(out@) =~= resolved_ids_spec(nxt, task_to_subtask@));
            }
        }
        i = i + 1;
    }
    assert(dependencies@.take(dependencies@.len() as int) =~= dependencies@);
    out
}

/// A checklist is accepted only with at least one task: whatever the text,
/// an accepted parse holds one task or more, so a text without task entries
/// is refused.
pub proof fn lemma_accepted_checklist_is_nonempty(text: Seq<char>, path: Seq<char>, r: Result<Vec<OpenSpecSourceTask>, CoveyError>)
    requires
        parse_openspec_tasks_result(text, path, r),
    ensures
        r matches Ok(tasks) ==> tasks@.len() > 0,
{
}

} // verus!
