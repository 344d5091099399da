//! Repo-ops preflight facts: repo-relative path normalization, reservation
//! scopes, scope patterns of a subtask, and the lock facts over requested paths.
use vstd::prelude::*;
use crate::authority::{
    lock_fact_error, LockFactView, RepoopsAuthorityClaimStatus, RepoopsAuthorityLockFact,
    RepoopsAuthorityLockStatus,
};
use crate::digest::blake3_hex;
use crate::model::{Claim, Reservation, ScopeClass, Session, SubtaskState};
use crate::text::{
    chars_of, concat2, contains_char, join, join_vec, lemma_text_lt_asymmetric,
    lemma_text_lt_irreflexive, lemma_text_lt_total, lemma_text_lt_transitive, seq_eq,
    sort_dedup_strings, split, split_acc, split_vec, starts_with, str_eq, string_of,
    strictly_sorted, text_lt, trim, trim_vec, vec_contains_char, vec_starts_with,
    vec_text_lt, views,
};
use crate::validate::{has_dot_or_empty_piece, is_dot_or_empty, piece_is_dot_or_empty};

verus! {

/// The claim status reported for a subtask state: in progress only while
/// the subtask is in progress, open otherwise.
pub open spec fn claim_status_for_state(state: SubtaskState) -> RepoopsAuthorityClaimStatus {
    if state == SubtaskState::InProgress {
        RepoopsAuthorityClaimStatus::InProgress
    } else {
        RepoopsAuthorityClaimStatus::Open
    }
}

/// Maps a subtask state to the repoops claim status.
pub fn repoops_claim_status_for_subtask(state: SubtaskState) -> (r: RepoopsAuthorityClaimStatus)
    ensures
        r == claim_status_for_state(state),
{
    match state {
        SubtaskState::InProgress => RepoopsAuthorityClaimStatus::InProgress,
        SubtaskState::Available
        | SubtaskState::Blocked
        | SubtaskState::Claimed
        | SubtaskState::ArtifactPublished
        | SubtaskState::ReviewPending
        | SubtaskState::ChangesRequested
        | SubtaskState::Approved
        | SubtaskState::Decided
        | SubtaskState::ReadyForApply
        | SubtaskState::Applied
        | SubtaskState::Completed
        | SubtaskState::Failed
        | SubtaskState::Abandoned => RepoopsAuthorityClaimStatus::Open,
    }
}

/// The ownership token reference of a session token: a fixed prefix and the
/// BLAKE3 hex of the token's UTF-8 bytes.
pub open spec fn ownership_token_ref_spec(session_token: Seq<char>) -> Seq<char> {
    "covey-session-token-blake3:"@ + blake3_hex(vstd::utf8::encode_utf8(session_token))
}

/// Derives the token reference that stands for a session token in authority facts.
pub fn ownership_token_ref(session_token: &str) -> (r: String)
    ensures
        r@ == ownership_token_ref_spec(session_token@),
{
    let bytes = crate::digest::utf8_bytes(session_token);
    let hex = crate::digest::blake3_hex_of_bytes(bytes.as_slice());
    concat2("covey-session-token-blake3:", hex.as_str())
}

/// Requested paths, sorted and without repeats.
pub fn normalize_requested_paths(paths: &Vec<String>) -> (r: Vec<String>)
    ensures
        strictly_sorted(views(r@)),
        forall|x: Seq<char>| views(r@).contains(x) <==> views(paths@).contains(x),
        paths@.len() == 1 ==> views(r@) == views(paths@),
{
    if paths.len() == 1 {
        let mut r: Vec<String> = Vec::new();
        r.push(paths[0].clone());
        proof {
            assert(views(r@) =~= views(paths@));
            assert(views(r@).contains(paths@[0]@) ==> true);
        }
        return r;
    }
    let mut r = crate::model::clone_strings(paths);
    sort_dedup_strings(&mut r);
    r
}

// ---------------------------------------------------------------- normalization

/// Backslashes read as forward slashes.
pub open spec fn slashes(s: Seq<char>) -> Seq<char> {
    Seq::new(s.len(), |i: int| if s[i] == '\\' { '/' } else { s[i] })
}

/// Whether a piece is dropped by normalization (empty or `.`).
pub open spec fn dropped_piece(p: Seq<char>) -> bool {
    p.len() == 0 || p == seq!['.']
}

/// The pieces that survive normalization, in order.
pub open spec fn kept(parts: Seq<Seq<char>>) -> Seq<Seq<char>>
    decreases parts.len(),
{
    if parts.len() == 0 {
        Seq::empty()
    } else if dropped_piece(parts.last()) {
        kept(parts.drop_last())
    } else {
        kept(parts.drop_last()).push(parts.last())
    }
}

/// A path normalized to repo-relative form: trimmed, with `\` read as `/`,
/// empty and `.` pieces dropped; `..` or nothing left gives no path.
pub open spec fn normalize_path_spec(raw: Seq<char>) -> Option<Seq<char>> {
    let t = trim(raw);
    if t.len() == 0 {
        None
    } else {
        let parts = split(slashes(t), '/');
        if exists|k: int| 0 <= k < parts.len() && #[trigger] parts[k] == seq!['.', '.'] {
            None
        } else if kept(parts).len() == 0 {
            None
        } else {
            Some(join(kept(parts), '/'))
        }
    }
}

/// A path already in normalized repo-relative form.
pub open spec fn is_normalized_path(p: Seq<char>) -> bool {
    &&& !contains_char(p, '\\')
    &&& !starts_with(p, seq!['/'])
    &&& !starts_with(p, seq!['.', '/'])
    &&& forall|k: int| 0 <= k < split(p, '/').len() ==> !is_dot_or_empty(#[trigger] split(p, '/')[k])
}

/// Whether a path is already normalized.
pub fn repo_relative_path_is_normalized(path: &str) -> (r: bool)
    ensures
        r == is_normalized_path(path@),
{
    let c = chars_of(path);
    is_normalized_vec(&c)
}

fn is_normalized_vec(c: &Vec<char>) -> (r: bool)
    ensures
        r == is_normalized_path(c@),
{
    let r = !vec_contains_char(c, '\\') && !vec_starts_with(c, "/") && !vec_starts_with(c, "./")
        && !has_dot_or_empty_piece(c);
    proof {
        reveal_strlit("/");
        reveal_strlit("./");
        assert("/"@ =~= seq!['/']);
        assert("./"@ =~= seq!['.', '/']);
    }
    r
}

proof fn lemma_join_push(acc: Seq<Seq<char>>, x: Seq<char>, c: char)
    ensures
        join(acc.push(x), c) == if acc.len() == 0 {
            x
        } else {
            join(acc, c).push(c) + x
        },
{
    assert(acc.push(x).drop_last() =~= acc);
    assert(acc.push(x).last() == x);
    if acc.len() == 0 {
        assert(acc.push(x).len() == 1);
        assert(acc.push(x)[0] == x);
    }
}

proof fn lemma_join_split_acc(s: Seq<char>, c: char, i: int, cur: Seq<char>, acc: Seq<Seq<char>>)
    requires
        0 <= i <= s.len(),
    ensures
        join(split_acc(s, c, i, cur, acc), c) == join(acc.push(cur), c) + s.skip(i),
    decreases s.len() - i,
{
    if i >= s.len() {
        assert(s.skip(i) =~= Seq::<char>::empty());
        assert(join(acc.push(cur), c) + s.skip(i) =~= join(acc.push(cur), c));
    } else if s[i] == c {
        lemma_join_split_acc(s, c, i + 1, Seq::empty(), acc.push(cur));
        lemma_join_push(acc.push(cur), Seq::empty(), c);
        assert(s.skip(i) =~= seq![c] + s.skip(i + 1));
        assert(join(acc.push(cur), c).push(c) + Seq::<char>::empty() + s.skip(i + 1) =~= join(
            acc.push(cur),
            c,
        ) + s.skip(i));
    } else {
        lemma_join_split_acc(s, c, i + 1, cur.push(s[i]), acc);
        lemma_join_push(acc, cur.push(s[i]), c);
        lemma_join_push(acc, cur, c);
        assert(s.skip(i) =~= seq![s[i]] + s.skip(i + 1));
        if acc.len() == 0 {
            assert(cur.push(s[i]) + s.skip(i + 1) =~= cur + s.skip(i));
        } else {
            assert(join(acc, c).push(c) + cur.push(s[i]) + s.skip(i + 1) =~= join(acc, c).push(c)
                + cur + s.skip(i));
        }
    }
}

/// Splitting on a separator and joining again gives the text back.
pub proof fn lemma_join_split(s: Seq<char>, c: char)
    ensures
        join(split(s, c), c) == s,
{
    lemma_join_split_acc(s, c, 0, Seq::empty(), Seq::empty());
    lemma_join_push(Seq::empty(), Seq::empty(), c);
    assert(s.skip(0) =~= s);
    assert(Seq::<char>::empty() + s =~= s);
}

proof fn lemma_split_acc_len(s: Seq<char>, c: char, i: int, cur: Seq<char>, acc: Seq<Seq<char>>)
    requires
        0 <= i <= s.len(),
    ensures
        split_acc(s, c, i, cur, acc).len() >= acc.len() + 1,
    decreases s.len() - i,
{
    if i < s.len() {
        if s[i] == c {
            lemma_split_acc_len(s, c, i + 1, Seq::empty(), acc.push(cur));
        } else {
            lemma_split_acc_len(s, c, i + 1, cur.push(s[i]), acc);
        }
    }
}

proof fn lemma_kept_all(parts: Seq<Seq<char>>)
    requires
        forall|k: int| 0 <= k < parts.len() ==> !dropped_piece(#[trigger] parts[k]),
    ensures
        kept(parts) == parts,
    decreases parts.len(),
{
    if parts.len() > 0 {
        lemma_kept_all(parts.drop_last());
        assert(parts.drop_last().push(parts.last()) =~= parts);
    }
}

/// A path already in normalized form is its own normalization.
pub proof fn lemma_normalized_is_fixed_point(p: Seq<char>)
    requires
        is_normalized_path(p),
        trim(p) == p,
        p.len() > 0,
    ensures
        normalize_path_spec(p) == Some(p),
{
    assert(slashes(p) =~= p) by {
        assert forall|i: int| 0 <= i < p.len() implies slashes(p)[i] == p[i] by {
            if p[i] == '\\' {
                assert(contains_char(p, '\\'));
            }
        }
    }
    let parts = split(p, '/');
    assert forall|k: int| 0 <= k < parts.len() implies !dropped_piece(#[trigger] parts[k]) by {
        assert(!is_dot_or_empty(parts[k]));
    }
    assert(!exists|k: int| 0 <= k < parts.len() && #[trigger] parts[k] == seq!['.', '.']) by {
        if exists|k: int| 0 <= k < parts.len() && #[trigger] parts[k] == seq!['.', '.'] {
            let k = choose|k: int| 0 <= k < parts.len() && #[trigger] parts[k] == seq!['.', '.'];
            assert(is_dot_or_empty(parts[k]));
        }
    }
    lemma_kept_all(parts);
    lemma_split_acc_len(p, '/', 0, Seq::empty(), Seq::empty());
    lemma_join_split(p, '/');
}

/// Pieces of `kept` after the first `n` parts.
fn kept_pieces(parts: &Vec<Vec<char>>) -> (r: Option<Vec<Vec<char>>>)
    ensures
        (exists|k: int| 0 <= k < parts@.len() && (#[trigger] parts@[k])@ == seq!['.', '.']) ==> r is None,
        (forall|k: int| 0 <= k < parts@.len() ==> (#[trigger] parts@[k])@ != seq!['.', '.']) ==> (r matches Some(v)
            && v@.map_values(|x: Vec<char>| x@) == kept(parts@.map_values(|x: Vec<char>| x@))),
{
    let ghost pv = parts@.map_values(|x: Vec<char>| x@);
    let mut out: Vec<Vec<char>> = Vec::new();
    let mut i: usize = 0;
    assert(out@.map_values(|x: Vec<char>| x@) =~= kept(pv.take(0)));
    while i < parts.len()
        invariant
            i <= parts@.len(),
            pv == parts@.map_values(|x: Vec<char>| x@),
            forall|k: int| 0 <= k < i ==> (#[trigger] parts@[k])@ != seq!['.', '.'],
            out@.map_values(|x: Vec<char>| x@) == kept(pv.take(i as int)),
        decreases parts@.len() - i,
    {
        let p = &parts[i];
        let dotdot = p.len() == 2 && p[0] == '.' && p[1] == '.';
        if dotdot {
            assert(p@ =~= seq!['.', '.']);
            return None;
        }
        assert(p@ != seq!['.', '.']) by {
            if p@ == seq!['.', '.'] {
                assert(p@.len() == 2 && p@[0] == '.' && p@[1] == '.');
            }
        }
        assert(pv.take(i + 1).drop_last() =~= pv.take(i as int));
        assert(pv.take(i + 1).last() == p@);
        let drop = p.len() == 0 || (p.len() == 1 && p[0] == '.');
        assert(drop == dropped_piece(p@)) by {
            if p@ == seq!['.'] {
                assert(p@.len() == 1 && p@[0] == '.');
            }
            if p.len() == 1 && p[0] == '.' {
                assert(p@ =~= seq!['.']);
            }
        }
        if !drop {
            let ghost before = out@;
            out.push(p.clone());
            assert(out@.map_values(|x: Vec<char>| x@) =~= before.map_values(|x: Vec<char>| x@).push(p@));
        }
        i = i + 1;
    }
    assert(pv.take(parts@.len() as int) =~= pv);
    Some(out)
}

/// Normalizes a reservation or request path to repo-relative form, or `None`
/// when nothing usable is left or the path climbs out with `..`.
pub fn normalize_repo_relative_path(raw: &str) -> (r: Option<String>)
    ensures
        match (r, normalize_path_spec(raw@)) {
            (Some(a), Some(b)) => a@ == b,
            (None, None) => true,
            _ => false,
        },
{
    let c = chars_of(raw);
    let t = trim_vec(&c);
    if t.len() == 0 {
        return None;
    }
    if is_normalized_vec(&t) {
        proof {
            assert(trim(t@) == t@) by {
                lemma_trim_idempotent(raw@);
            }
            lemma_normalized_is_fixed_point(t@);
        }
        return Some(string_of(&t));
    }
    let mut s: Vec<char> = Vec::new();
    let mut i: usize = 0;
    while i < t.len()
        invariant
            i <= t@.len(),
            s@ == slashes(t@).take(i as int),
        decreases t@.len() - i,
    {
        let ch = if t[i] == '\\' {
            '/'
        } else {
            t[i]
        };
        s.push(ch);
        assert(slashes(t@).take(i + 1) =~= slashes(t@).take(i as int).push(ch));
        i = i + 1;
    }
    assert(slashes(t@).take(t@.len() as int) =~= slashes(t@));
    let parts = split_vec(&s, '/');
    let ghost pv = parts@.map_values(|x: Vec<char>| x@);
    assert(pv =~= split(slashes(t@), '/'));
    match kept_pieces(&parts) {
        None => {
            proof {
                let k = choose|k: int| 0 <= k < parts@.len() && (#[trigger] parts@[k])@ == seq!['.', '.'];
                assert(split(slashes(t@), '/')[k] == seq!['.', '.']);
            }
            None
        },
        Some(kp) => {
            proof {
                assert(!exists|k: int| 0 <= k < pv.len() && #[trigger] pv[k] == seq!['.', '.']) by {
                    if exists|k: int| 0 <= k < pv.len() && #[trigger] pv[k] == seq!['.', '.'] {
                        let k = choose|k: int| 0 <= k < pv.len() && #[trigger] pv[k] == seq!['.', '.'];
                        assert(parts@[k]@ == seq!['.', '.']);
                    }
                }
            }
            if kp.len() == 0 {
                return None;
            }
            let joined = join_vec(&kp, '/');
            Some(string_of(&joined))
        },
    }
}

/// Trimming twice changes nothing.
pub proof fn lemma_trim_idempotent(s: Seq<char>)
    ensures
        trim(trim(s)) == trim(s),
{
    let t = trim(s);
    let a = crate::text::first_non_ws(s, 0);
    let b = crate::text::last_non_ws_end(s, s.len() as int);
    lemma_first_non_ws_props(s, 0);
    lemma_last_non_ws_props(s, s.len() as int);
    if a < b {
        assert(!crate::text::is_ws(t[0]));
        assert(!crate::text::is_ws(t[t.len() - 1]));
        lemma_first_non_ws_at(t, 0);
        lemma_last_non_ws_at(t, t.len() as int);
        assert(t.subrange(0, t.len() as int) =~= t);
    } else {
        assert(t.len() == 0);
        assert(trim(t) =~= t);
    }
}

proof fn lemma_first_non_ws_props(s: Seq<char>, i: int)
    requires
        0 <= i <= s.len(),
    ensures
        i <= crate::text::first_non_ws(s, i) <= s.len(),
        crate::text::first_non_ws(s, i) < s.len() ==> !crate::text::is_ws(s[crate::text::first_non_ws(s, i)]),
    decreases s.len() - i,
{
    if i < s.len() && crate::text::is_ws(s[i]) {
        lemma_first_non_ws_props(s, i + 1);
    }
}

proof fn lemma_last_non_ws_props(s: Seq<char>, j: int)
    requires
        0 <= j <= s.len(),
    ensures
        0 <= crate::text::last_non_ws_end(s, j) <= j,
        crate::text::last_non_ws_end(s, j) > 0 ==> !crate::text::is_ws(s[crate::text::last_non_ws_end(s, j) - 1]),
    decreases j,
{
    if j > 0 && crate::text::is_ws(s[j - 1]) {
        lemma_last_non_ws_props(s, j - 1);
    }
}

proof fn lemma_first_non_ws_at(s: Seq<char>, i: int)
    requires
        0 <= i < s.len(),
        !crate::text::is_ws(s[i]),
    ensures
        crate::text::first_non_ws(s, i) == i,
{
}

proof fn lemma_last_non_ws_at(s: Seq<char>, j: int)
    requires
        0 < j <= s.len(),
        !crate::text::is_ws(s[j - 1]),
    ensures
        crate::text::last_non_ws_end(s, j) == j,
{
}


// ---------------------------------------------------------------- reservation scopes

/// A subtree scope: its base path and the base followed by `/`.
#[derive(Debug)]
pub struct PreparedSubtreeScope {
    pub base: String,
    pub child_prefix: String,
}

/// A reservation scope with its paths normalized once.
#[derive(Debug)]
pub enum PreparedScope {
    RepoGlobal,
    ExactPath(Option<String>),
    Subtree(Option<PreparedSubtreeScope>),
    GeneratedSet(Vec<String>),
}

/// One reservation together with its prepared scope.
#[derive(Debug)]
pub struct PreparedReservation {
    pub owner_subtask_id: String,
    pub scope: PreparedScope,
}

/// Whether an optional text holds the normalization of `raw`.
pub open spec fn opt_is_normalization(o: Option<String>, raw: Seq<char>) -> bool {
    match (o, normalize_path_spec(raw)) {
        (Some(a), Some(b)) => a@ == b,
        (None, None) => true,
        _ => false,
    }
}

/// Whether `p` is the prepared form of a reservation.
pub open spec fn prepared_from(r: Reservation, p: PreparedScope) -> bool {
    match r.scope_class {
        ScopeClass::RepoGlobal => p is RepoGlobal,
        ScopeClass::ExactPath => p matches PreparedScope::ExactPath(o) && opt_is_normalization(o, r.scope_key@),
        ScopeClass::Subtree => p matches PreparedScope::Subtree(o) && match (o, normalize_path_spec(r.scope_key@)) {
            (Some(s), Some(b)) => s.base@ == b && s.child_prefix@ == b.push('/'),
            (None, None) => true,
            _ => false,
        },
        ScopeClass::GeneratedSet => p matches PreparedScope::GeneratedSet(ms)
            && strictly_sorted(views(ms@))
            && forall|x: Seq<char>| views(ms@).contains(x) <==> exists|k: int|
                0 <= k < r.generated_members@.len() && normalize_path_spec(#[trigger] r.generated_members@[k]@) == Some(x),
    }
}

/// Whether a prepared scope covers a normalized path.
pub open spec fn covers(p: PreparedScope, path: Seq<char>) -> bool {
    match p {
        PreparedScope::RepoGlobal => true,
        PreparedScope::ExactPath(o) => o matches Some(x) && x@ == path,
        PreparedScope::Subtree(o) => o matches Some(s) && (path == s.base@ || starts_with(path, s.child_prefix@)),
        PreparedScope::GeneratedSet(ms) => views(ms@).contains(path),
    }
}

/// The scope patterns one prepared scope stands for.
pub open spec fn scope_patterns_of(p: PreparedScope) -> Seq<Seq<char>> {
    match p {
        PreparedScope::RepoGlobal => seq!["**"@],
        PreparedScope::ExactPath(o) => match o {
            Some(x) => seq![x@],
            None => Seq::empty(),
        },
        PreparedScope::Subtree(o) => match o {
            Some(s) => seq![s.base@ + "/**"@],
            None => Seq::empty(),
        },
        PreparedScope::GeneratedSet(ms) => views(ms@),
    }
}

/// Normalizes one reservation's paths.
pub fn prepare_scope(reservation: &Reservation) -> (r: PreparedScope)
    ensures
        prepared_from(*reservation, r),
{
    match reservation.scope_class {
        ScopeClass::RepoGlobal => PreparedScope::RepoGlobal,
        ScopeClass::ExactPath => PreparedScope::ExactPath(normalize_repo_relative_path(reservation.scope_key.as_str())),
        ScopeClass::Subtree => {
            match normalize_repo_relative_path(reservation.scope_key.as_str()) {
                Some(base) => {
                    let child_prefix = concat2(base.as_str(), "/");
                    proof {
                        reveal_strlit("/");
                        assert(child_prefix@ =~= base@.push('/'));
                    }
                    PreparedScope::Subtree(Some(PreparedSubtreeScope { base, child_prefix }))
                },
                None => PreparedScope::Subtree(None),
            }
        },
        ScopeClass::GeneratedSet => {
            let ms = &reservation.generated_members;
            let mut members: Vec<String> = Vec::new();
            let mut i: usize = 0;
            while i < ms.len()
                invariant
                    i <= ms@.len(),
                    forall|x: Seq<char>| views(members@).contains(x) <==> exists|k: int|
                        0 <= k < i && normalize_path_spec(#[trigger] ms@[k]@) == Some(x),
                decreases ms@.len() - i,
            {
                let ghost before = members@;
                match normalize_repo_relative_path(ms[i].as_str()) {
                    Some(m) => {
                        let ghost mv = m@;
                        members.push(m);
                        proof {
                            assert(views(members@) =~= views(before).push(mv));
                            assert forall|x: Seq<char>| views(members@).contains(x) <==> exists|k: int|
                                0 <= k < i + 1 && normalize_path_spec(#[trigger] ms@[k]@) == Some(x) by {
                                if views(members@).contains(x) {
                                    let j = choose|j: int| 0 <= j < views(members@).len() && views(members@)[j] == x;
                                    if j < views(before).len() {
                                        assert(views(before)[j] == x);
                                        assert(views(before).contains(x));
                                    }
                                }
                                if exists|k: int| 0 <= k < i + 1 && normalize_path_spec(#[trigger] ms@[k]@) == Some(x) {
                                    let k = choose|k: int| 0 <= k < i + 1 && normalize_path_spec(#[trigger] ms@[k]@) == Some(x);
                                    if k < i {
                                        assert(views(before).contains(x));
                                        let j = choose|j: int| 0 <= j < views(before).len() && views(before)[j] == x;
                                        assert(views(members@)[j] == x);
                                    } else {
                                        assert(views(members@)[views(before).len() as int] == x);
                                    }
                                }
                            }
                        }
                    },
                    None => {
                        proof {
                            assert forall|x: Seq<char>| views(members@).contains(x) <==> exists|k: int|
                                0 <= k < i + 1 && normalize_path_spec(#[trigger] ms@[k]@) == Some(x) by {
                                if exists|k: int| 0 <= k < i + 1 && normalize_path_spec(#[trigger] ms@[k]@) == Some(x) {
                                    let k = choose|k: int| 0 <= k < i + 1 && normalize_path_spec(#[trigger] ms@[k]@) == Some(x);
                                    assert(k < i);
                                }
                            }
                        }
                    },
                }
                i = i + 1;
            }
            sort_dedup_strings(&mut members);
            PreparedScope::GeneratedSet(members)
        },
    }
}

/// Whether `prepared` holds each reservation, in order, with its prepared scope.
pub open spec fn prepared_all(reservations: Seq<Reservation>, prepared: Seq<PreparedReservation>) -> bool {
    &&& prepared.len() == reservations.len()
    &&& forall|k: int| 0 <= k < prepared.len() ==> (#[trigger] prepared[k]).owner_subtask_id@ == reservations[k].owner_subtask_id@
        && prepared_from(reservations[k], prepared[k].scope)
}

/// Prepares every reservation, in order.
pub fn prepare_reservations(reservations: &Vec<Reservation>) -> (r: Vec<PreparedReservation>)
    ensures
        prepared_all(reservations@, r@),
{
    let mut r: Vec<PreparedReservation> = Vec::new();
    let mut i: usize = 0;
    while i < reservations.len()
        invariant
            i <= reservations@.len(),
            r@.len() == i,
            forall|k: int| 0 <= k < i ==> (#[trigger] r@[k]).owner_subtask_id@ == reservations@[k].owner_subtask_id@
                && prepared_from(reservations@[k], r@[k].scope),
        decreases reservations@.len() - i,
    {
        let res = &reservations[i];
        r.push(PreparedReservation { owner_subtask_id: res.owner_subtask_id.clone(), scope: prepare_scope(res) });
        i = i + 1;
    }
    r
}

/// Whether a prepared scope covers a path.
pub fn covers_path(p: &PreparedScope, path: &str) -> (r: bool)
    ensures
        r == covers(*p, path@),
{
    match p {
        PreparedScope::RepoGlobal => true,
        PreparedScope::ExactPath(o) => match o {
            Some(x) => str_eq(x.as_str(), path),
            None => false,
        },
        PreparedScope::Subtree(o) => match o {
            Some(s) => subtree_covers(s, path),
            None => false,
        },
        PreparedScope::GeneratedSet(ms) => {
            let mut k: usize = 0;
            while k < ms.len()
                invariant
                    k <= ms@.len(),
                    covers(*p, path@) == views(ms@).contains(path@),
                    forall|j: int| 0 <= j < k ==> (#[trigger] ms@[j])@ != path@,
                decreases ms@.len() - k,
            {
                if str_eq(ms[k].as_str(), path) {
                    assert(views(ms@)[k as int] == path@);
                    assert(views(ms@).contains(path@));
                    return true;
                }
                k = k + 1;
            }
            proof {
                if views(ms@).contains(path@) {
                    let j = choose|j: int| 0 <= j < views(ms@).len() && views(ms@)[j] == path@;
                    assert(ms@[j]@ == path@);
                }
            }
            false
        },
    }
}

fn subtree_covers(s: &PreparedSubtreeScope, path: &str) -> (r: bool)
    ensures
        r == (path@ == s.base@ || starts_with(path@, s.child_prefix@)),
{
    if str_eq(path, s.base.as_str()) {
        return true;
    }
    let pc = chars_of(path);
    vec_starts_with(&pc, s.child_prefix.as_str())
}

/// Appends the scope patterns of one prepared scope.
pub fn append_scope_patterns(p: &PreparedScope, patterns: &mut Vec<String>)
    ensures
        views(final(patterns)@) == views(old(patterns)@) + scope_patterns_of(*p),
{
    let ghost before = views(patterns@);
    match p {
        PreparedScope::RepoGlobal => {
            patterns.push(crate::text::owned("**"));
            assert(views(patterns@) =~= before + seq!["**"@]);
        },
        PreparedScope::ExactPath(o) => match o {
            Some(x) => {
                patterns.push(x.clone());
                assert(views(patterns@) =~= before + seq![x@]);
            },
            None => {
                assert(views(patterns@) =~= before + Seq::<Seq<char>>::empty());
            },
        },
        PreparedScope::Subtree(o) => match o {
            Some(s) => {
                let pat = concat2(s.base.as_str(), "/**");
                patterns.push(pat);
                assert(views(patterns@) =~= before + seq![s.base@ + "/**"@]);
            },
            None => {
                assert(views(patterns@) =~= before + Seq::<Seq<char>>::empty());
            },
        },
        PreparedScope::GeneratedSet(ms) => {
            let mut k: usize = 0;
            while k < ms.len()
                invariant
                    k <= ms@.len(),
                    views(patterns@) == before + views(ms@).take(k as int),
                decreases ms@.len() - k,
            {
                let ghost mid = views(patterns@);
                let c = ms[k].clone();
                assert(c@ == views(ms@)[k as int]);
                patterns.push(c);
                assert(views(patterns@) =~= mid.push(c@));
                assert(views(ms@).take(k + 1) =~= views(ms@).take(k as int).push(views(ms@)[k as int]));
                assert(views(patterns@) =~= before + views(ms@).take(k + 1));
                k = k + 1;
            }
            assert(views(ms@).take(ms@.len() as int) =~= views(ms@));
        },
    }
}

/// The scope patterns of one reservation.
pub fn scope_patterns_for_reservation(reservation: &Reservation) -> (r: Vec<String>)
    ensures
        exists|p: PreparedScope| prepared_from(*reservation, p) && views(r@) == scope_patterns_of(p),
{
    let p = prepare_scope(reservation);
    let mut patterns: Vec<String> = Vec::new();
    append_scope_patterns(&p, &mut patterns);
    assert(views(patterns@) =~= scope_patterns_of(p));
    patterns
}

/// Whether `x` is a scope pattern of some reservation owned by `subtask_id`.
pub open spec fn owned_pattern(prepared: Seq<PreparedReservation>, subtask_id: Seq<char>, x: Seq<char>) -> bool {
    exists|j: int|
        0 <= j < prepared.len() && (#[trigger] prepared[j]).owner_subtask_id@ == subtask_id
            && scope_patterns_of(prepared[j].scope).contains(x)
}

/// The scope patterns of the reservations owned by `subtask_id`, sorted and
/// without repeats.
pub fn scope_patterns_for_subtask(prepared: &Vec<PreparedReservation>, subtask_id: &str) -> (r: Vec<String>)
    ensures
        strictly_sorted(views(r@)),
        forall|x: Seq<char>| views(r@).contains(x) <==> owned_pattern(prepared@, subtask_id@, x),
{
    let mut patterns: Vec<String> = Vec::new();
    let mut j: usize = 0;
    while j < prepared.len()
        invariant
            j <= prepared@.len(),
            forall|x: Seq<char>| views(patterns@).contains(x) <==> owned_pattern(prepared@.take(j as int), subtask_id@, x),
        decreases prepared@.len() - j,
    {
        let ghost before = views(patterns@);
        let owner = str_eq(prepared[j].owner_subtask_id.as_str(), subtask_id);
        if owner {
            append_scope_patterns(&prepared[j].scope, &mut patterns);
        }
        proof {
            let pre = prepared@.take(j as int);
            let nxt = prepared@.take(j + 1);
            let sp = scope_patterns_of(prepared@[j as int].scope);
            let now = views(patterns@);
            if owner {
                assert(now == before + sp);
            } else {
                assert(now == before);
            }
            assert forall|x: Seq<char>| now.contains(x) <==> owned_pattern(nxt, subtask_id@, x) by {
                assert(nxt[j as int] == prepared@[j as int]);
                if now.contains(x) {
                    let k = choose|k: int| 0 <= k < now.len() && now[k] == x;
                    if k < before.len() {
                        assert(before[k] == x);
                        assert(before.contains(x));
                        let m = choose|m: int| 0 <= m < pre.len() && (#[trigger] pre[m]).owner_subtask_id@ == subtask_id@
                            && scope_patterns_of(pre[m].scope).contains(x);
                        assert(nxt[m] == pre[m]);
                    } else {
                        assert(owner);
                        assert(sp[k - before.len()] == x);
                        assert(sp.contains(x));
                    }
                }
                if owned_pattern(nxt, subtask_id@, x) {
                    let m = choose|m: int| 0 <= m < nxt.len() && (#[trigger] nxt[m]).owner_subtask_id@ == subtask_id@
                        && scope_patterns_of(nxt[m].scope).contains(x);
                    if m < j {
                        assert(pre[m] == nxt[m]);
                        assert(owned_pattern(pre, subtask_id@, x));
                        assert(before.contains(x));
                        let k = choose|k: int| 0 <= k < before.len() && before[k] == x;
                        assert(now[k] == x);
                    } else {
                        assert(owner);
                        let k = choose|k: int| 0 <= k < sp.len() && sp[k] == x;
                        assert(now[before.len() + k] == x);
                    }
                }
            }
        }
        j = j + 1;
    }
    proof {
        assert(prepared@.take(prepared@.len() as int) =~= prepared@);
    }
    let ghost unsorted = views(patterns@);
    sort_dedup_strings(&mut patterns);
    patterns
}

// ---------------------------------------------------------------- lock facts

/// Owned locks come before foreign ones when everything else is equal.
pub open spec fn status_rank(s: RepoopsAuthorityLockStatus) -> int {
    match s {
        RepoopsAuthorityLockStatus::Owned => 0,
        RepoopsAuthorityLockStatus::ForeignOwner => 1,
    }
}

/// The order of lock facts: by path, then owner, then claim reference, then
/// status.
pub open spec fn fact_lt(a: LockFactView, b: LockFactView) -> bool {
    ||| text_lt(a.path, b.path)
    ||| a.path == b.path && text_lt(a.owner, b.owner)
    ||| a.path == b.path && a.owner == b.owner && text_lt(a.claim_id, b.claim_id)
    ||| a.path == b.path && a.owner == b.owner && a.claim_id == b.claim_id && status_rank(a.status)
        < status_rank(b.status)
}

/// Strictly increasing in the lock fact order.
pub open spec fn facts_sorted(s: Seq<LockFactView>) -> bool {
    forall|i: int, j: int| 0 <= i < j < s.len() ==> fact_lt(#[trigger] s[i], #[trigger] s[j])
}

/// The contents of a list of lock facts.
pub open spec fn fact_views(s: Seq<RepoopsAuthorityLockFact>) -> Seq<LockFactView> {
    s.map_values(|f: RepoopsAuthorityLockFact| f@)
}

/// The lock fact order is irreflexive.
pub proof fn lemma_fact_lt_irreflexive(a: LockFactView)
    ensures
        !fact_lt(a, a),
{
    lemma_text_lt_irreflexive(a.path);
    lemma_text_lt_irreflexive(a.owner);
    lemma_text_lt_irreflexive(a.claim_id);
}

/// The lock fact order is transitive.
pub proof fn lemma_fact_lt_transitive(a: LockFactView, b: LockFactView, c: LockFactView)
    requires
        fact_lt(a, b),
        fact_lt(b, c),
    ensures
        fact_lt(a, c),
{
    if text_lt(a.path, b.path) && text_lt(b.path, c.path) {
        lemma_text_lt_transitive(a.path, b.path, c.path);
    }
    if text_lt(a.owner, b.owner) && text_lt(b.owner, c.owner) {
        lemma_text_lt_transitive(a.owner, b.owner, c.owner);
    }
    if text_lt(a.claim_id, b.claim_id) && text_lt(b.claim_id, c.claim_id) {
        lemma_text_lt_transitive(a.claim_id, b.claim_id, c.claim_id);
    }
}

/// Two distinct lock facts are ordered one way or the other.
pub proof fn lemma_fact_lt_total(a: LockFactView, b: LockFactView)
    ensures
        a == b || fact_lt(a, b) || fact_lt(b, a),
{
    lemma_text_lt_total(a.path, b.path);
    lemma_text_lt_total(a.owner, b.owner);
    lemma_text_lt_total(a.claim_id, b.claim_id);
}

/// Two strictly sorted lists of lock facts with the same members are equal.
pub proof fn lemma_sorted_facts_unique(a: Seq<LockFactView>, b: Seq<LockFactView>)
    requires
        facts_sorted(a),
        facts_sorted(b),
        forall|f: LockFactView| a.contains(f) <==> b.contains(f),
    ensures
        a == b,
    decreases a.len(),
{
    if a.len() == 0 {
        if b.len() > 0 {
            assert(b.contains(b[0]));
        }
        assert(a =~= b);
    } else {
        assert(a.contains(a[0]));
        assert(b.len() > 0);
        assert(b.contains(b[0]));
        let k = choose|k: int| 0 <= k < b.len() && b[k] == a[0];
        let m = choose|m: int| 0 <= m < a.len() && a[m] == b[0];
        if k > 0 {
            assert(fact_lt(b[0], b[k]));
            if m > 0 {
                assert(fact_lt(a[0], a[m]));
                lemma_fact_lt_transitive(a[0], b[0], a[0]);
                lemma_fact_lt_irreflexive(a[0]);
            } else {
                lemma_fact_lt_irreflexive(a[0]);
            }
        }
        assert(a[0] == b[0]);
        let a1 = a.drop_first();
        let b1 = b.drop_first();
        assert forall|f: LockFactView| a1.contains(f) <==> b1.contains(f) by {
            if a1.contains(f) {
                let p = choose|p: int| 0 <= p < a1.len() && a1[p] == f;
                assert(a[p + 1] == f);
                assert(fact_lt(a[0], a[p + 1]));
                lemma_fact_lt_irreflexive(f);
                assert(a.contains(f));
                let q = choose|q: int| 0 <= q < b.len() && b[q] == f;
                assert(q != 0);
                assert(b1[q - 1] == f);
            }
            if b1.contains(f) {
                let p = choose|p: int| 0 <= p < b1.len() && b1[p] == f;
                assert(b[p + 1] == f);
                assert(fact_lt(b[0], b[p + 1]));
                lemma_fact_lt_irreflexive(f);
                assert(b.contains(f));
                let q = choose|q: int| 0 <= q < a.len() && a[q] == f;
                assert(q != 0);
                assert(a1[q - 1] == f);
            }
        }
        assert(facts_sorted(a1)) by {
            assert forall|i: int, j: int| 0 <= i < j < a1.len() implies fact_lt(#[trigger] a1[i], #[trigger] a1[j]) by {
                assert(a1[i] == a[i + 1]);
                assert(a1[j] == a[j + 1]);
            }
        }
        assert(facts_sorted(b1)) by {
            assert forall|i: int, j: int| 0 <= i < j < b1.len() implies fact_lt(#[trigger] b1[i], #[trigger] b1[j]) by {
                assert(b1[i] == b[i + 1]);
                assert(b1[j] == b[j + 1]);
            }
        }
        lemma_sorted_facts_unique(a1, b1);
        assert(a =~= b) by {
            assert forall|i: int| 0 <= i < a.len() implies a[i] == b[i] by {
                if i > 0 {
                    assert(a[i] == a1[i - 1]);
                    assert(b[i] == b1[i - 1]);
                }
            }
        }
    }
}

/// Exact comparison of two lock facts in the lock fact order.
fn fact_less(a: &RepoopsAuthorityLockFact, b: &RepoopsAuthorityLockFact) -> (r: bool)
    ensures
        r == fact_lt(a@, b@),
{
    let ap = chars_of(a.path());
    let bp = chars_of(b.path());
    if vec_text_lt(&ap, &bp) {
        return true;
    }
    if !seq_eq(&ap, &bp) {
        return false;
    }
    let ao = chars_of(a.owner());
    let bo = chars_of(b.owner());
    if vec_text_lt(&ao, &bo) {
        return true;
    }
    if !seq_eq(&ao, &bo) {
        return false;
    }
    let ac = chars_of(a.claim_id());
    let bc = chars_of(b.claim_id());
    if vec_text_lt(&ac, &bc) {
        return true;
    }
    if !seq_eq(&ac, &bc) {
        return false;
    }
    match (a.status(), b.status()) {
        (RepoopsAuthorityLockStatus::Owned, RepoopsAuthorityLockStatus::ForeignOwner) => true,
        _ => false,
    }
}

/// Whether two lock facts hold the same content.
fn fact_same(a: &RepoopsAuthorityLockFact, b: &RepoopsAuthorityLockFact) -> (r: bool)
    ensures
        r == (a@ == b@),
{
    let same = str_eq(a.path(), b.path()) && str_eq(a.owner(), b.owner()) && str_eq(
        a.claim_id(),
        b.claim_id(),
    ) && a.status() == b.status();
    proof {
        if a@ == b@ {
            assert(a@.path == b@.path);
        }
    }
    same
}

/// Adds a lock fact to a sorted list unless an equal one is there.
fn insert_fact(out: &mut Vec<RepoopsAuthorityLockFact>, f: RepoopsAuthorityLockFact)
    requires
        facts_sorted(fact_views(old(out)@)),
    ensures
        facts_sorted(fact_views(final(out)@)),
        forall|x: LockFactView|
            fact_views(final(out)@).contains(x) <==> (fact_views(old(out)@).contains(x) || x == f@),
{
    let ghost before = fact_views(out@);
    let mut pos: usize = 0;
    while pos < out.len() && fact_less(&out[pos], &f)
        invariant
            pos <= out@.len(),
            before == fact_views(out@),
            forall|k: int| 0 <= k < pos ==> fact_lt(#[trigger] before[k], f@),
        decreases out@.len() - pos,
    {
        assert(before[pos as int] == out@[pos as int]@);
        pos = pos + 1;
    }
    let dup = pos < out.len() && fact_same(&out[pos], &f);
    proof {
        if pos < out@.len() {
            assert(before[pos as int] == out@[pos as int]@);
            lemma_fact_lt_total(before[pos as int], f@);
        }
    }
    if !dup {
        let ghost fv = f@;
        out.insert(pos, f);
        proof {
            let after = fact_views(out@);
            assert(after =~= before.insert(pos as int, fv));
            assert forall|a: int, b: int| 0 <= a < b < after.len() implies fact_lt(
                #[trigger] after[a],
                #[trigger] after[b],
            ) by {
                if b < pos {
                } else if a < pos && b == pos {
                } else if a < pos && b > pos {
                    if pos < before.len() {
                        if b - 1 > pos {
                            lemma_fact_lt_transitive(fv, before[pos as int], before[b - 1]);
                        }
                    }
                    lemma_fact_lt_transitive(before[a], fv, before[b - 1]);
                } else if a == pos {
                    if b - 1 > pos {
                        lemma_fact_lt_transitive(fv, before[pos as int], before[b - 1]);
                    }
                } else {
                }
            }
            assert forall|x: LockFactView| after.contains(x) <==> (before.contains(x) || x == fv) by {
                crate::text::lemma_insert_contains(before, pos as int, fv, x);
            }
        }
    } else {
        proof {
            assert(before[pos as int] == f@);
            assert(before.contains(f@));
        }
    }
}

/// The lock fact that a reservation owned by `owner_subtask` gives over
/// `path`: owned by the session's agent under the claim when the claim's
/// subtask owns the reservation, otherwise owned by the other subtask.
pub open spec fn candidate_fact(path: Seq<char>, owner_subtask: Seq<char>, claim: Claim, session: Session) -> LockFactView {
    if owner_subtask == claim.subtask_id@ {
        LockFactView {
            path,
            owner: session.agent_principal_id@,
            claim_id: claim.claim_id@,
            status: RepoopsAuthorityLockStatus::Owned,
        }
    } else {
        LockFactView {
            path,
            owner: "subtask:"@ + owner_subtask,
            claim_id: "unknown:"@ + owner_subtask,
            status: RepoopsAuthorityLockStatus::ForeignOwner,
        }
    }
}

/// Whether requested path `i` falls under prepared reservation `j`.
pub open spec fn path_covered(paths: Seq<String>, prepared: Seq<PreparedReservation>, i: int, j: int) -> bool {
    0 <= i < paths.len() && 0 <= j < prepared.len() && covers(prepared[j].scope, paths[i]@)
}

/// The lock fact for requested path `i` under reservation `j`.
pub open spec fn pair_fact(
    paths: Seq<String>,
    prepared: Seq<PreparedReservation>,
    claim: Claim,
    session: Session,
    i: int,
    j: int,
) -> LockFactView {
    candidate_fact(paths[i]@, prepared[j].owner_subtask_id@, claim, session)
}

/// Whether path `i` falls under reservation `j` and the lock fact it gives is
/// rejected.
pub open spec fn pair_rejected(
    paths: Seq<String>,
    prepared: Seq<PreparedReservation>,
    claim: Claim,
    session: Session,
    i: int,
    j: int,
) -> bool {
    &&& path_covered(paths, prepared, i, j)
    &&& lock_fact_error(
        pair_fact(paths, prepared, claim, session, i, j).path,
        pair_fact(paths, prepared, claim, session, i, j).owner,
    ) is Some
}

/// `out` is the set of lock facts over the requested paths, sorted and
/// without repeats.
pub open spec fn lock_facts_exact(
    paths: Seq<String>,
    prepared: Seq<PreparedReservation>,
    claim: Claim,
    session: Session,
    out: Seq<LockFactView>,
) -> bool {
    &&& facts_sorted(out)
    &&& forall|f: LockFactView|
        out.contains(f) <==> exists|i: int, j: int|
            #[trigger] path_covered(paths, prepared, i, j) && f == pair_fact(paths, prepared, claim, session, i, j)
}

/// Builds the lock fact that reservation owner `owner_subtask` gives over
/// `path`.
fn make_fact(path: &String, owner_subtask: &String, claim: &Claim, session: &Session) -> (r: Result<RepoopsAuthorityLockFact, String>)
    ensures
        r is Err <==> lock_fact_error(
            candidate_fact(path@, owner_subtask@, *claim, *session).path,
            candidate_fact(path@, owner_subtask@, *claim, *session).owner,
        ) is Some,
        r matches Err(e) ==> Some(e@) == lock_fact_error(
            candidate_fact(path@, owner_subtask@, *claim, *session).path,
            candidate_fact(path@, owner_subtask@, *claim, *session).owner,
        ),
        r matches Ok(f) ==> f@ == candidate_fact(path@, owner_subtask@, *claim, *session),
{
    if str_eq(owner_subtask.as_str(), claim.subtask_id.as_str()) {
        RepoopsAuthorityLockFact::owned(path.clone(), session.agent_principal_id.clone(), claim.claim_id.clone())
    } else {
        RepoopsAuthorityLockFact::foreign_owner(
            path.clone(),
            concat2("subtask:", owner_subtask.as_str()),
            concat2("unknown:", owner_subtask.as_str()),
        )
    }
}

/// One accepted pair enlarges the lock facts by its own fact and nothing else.
proof fn lemma_fact_step(
    paths: Seq<String>,
    prepared: Seq<PreparedReservation>,
    claim: Claim,
    session: Session,
    old_out: Seq<LockFactView>,
    new_out: Seq<LockFactView>,
    i: int,
    j: int,
)
    requires
        path_covered(paths, prepared, i, j),
        forall|x: LockFactView| new_out.contains(x) <==> (old_out.contains(x) || x == pair_fact(paths, prepared, claim, session, i, j)),
        forall|f: LockFactView| old_out.contains(f) ==> exists|i2: int, j2: int|
            #[trigger] path_covered(paths, prepared, i2, j2) && i2 <= i && f == pair_fact(paths, prepared, claim, session, i2, j2),
    ensures
        forall|f: LockFactView| new_out.contains(f) ==> exists|i2: int, j2: int|
            #[trigger] path_covered(paths, prepared, i2, j2) && i2 <= i && f == pair_fact(paths, prepared, claim, session, i2, j2),
        forall|x: LockFactView| old_out.contains(x) ==> new_out.contains(x),
        new_out.contains(pair_fact(paths, prepared, claim, session, i, j)),
{
    assert forall|f: LockFactView| new_out.contains(f) implies exists|i2: int, j2: int|
        #[trigger] path_covered(paths, prepared, i2, j2) && i2 <= i && f == pair_fact(paths, prepared, claim, session, i2, j2) by {
        if !old_out.contains(f) {
            assert(path_covered(paths, prepared, i, j));
        }
    }
}

/// The lock facts over requested paths, by looking at every reservation for
/// every path.
pub fn lock_facts_for_prepared_paths_nested(
    paths: &Vec<String>,
    prepared: &Vec<PreparedReservation>,
    claim: &Claim,
    session: &Session,
) -> (r: Result<Vec<RepoopsAuthorityLockFact>, String>)
    ensures
        r is Err <==> exists|i: int, j: int| #[trigger] pair_rejected(paths@, prepared@, *claim, *session, i, j),
        r matches Err(e) ==> exists|i: int, j: int|
            #[trigger] pair_rejected(paths@, prepared@, *claim, *session, i, j) && Some(e@) == lock_fact_error(
                pair_fact(paths@, prepared@, *claim, *session, i, j).path,
                pair_fact(paths@, prepared@, *claim, *session, i, j).owner,
            ),
        r matches Ok(v) ==> lock_facts_exact(paths@, prepared@, *claim, *session, fact_views(v@)),
{
    let ghost ps = paths@;
    let ghost pr = prepared@;
    let mut locks: Vec<RepoopsAuthorityLockFact> = Vec::new();
    let mut i: usize = 0;
    while i < paths.len()
        invariant
            i <= ps.len(),
            ps == paths@,
            pr == prepared@,
            facts_sorted(fact_views(locks@)),
            forall|f: LockFactView| fact_views(locks@).contains(f) ==> exists|i2: int, j2: int|
                #[trigger] path_covered(ps, pr, i2, j2) && i2 < i && f == pair_fact(ps, pr, *claim, *session, i2, j2),
            forall|i2: int, j2: int| #[trigger] path_covered(ps, pr, i2, j2) && i2 < i ==>
                !pair_rejected(ps, pr, *claim, *session, i2, j2)
                && fact_views(locks@).contains(pair_fact(ps, pr, *claim, *session, i2, j2)),
        decreases ps.len() - i,
    {
        let mut j: usize = 0;
        while j < prepared.len()
            invariant
                i < ps.len(),
                j <= pr.len(),
                ps == paths@,
                pr == prepared@,
                facts_sorted(fact_views(locks@)),
                forall|f: LockFactView| fact_views(locks@).contains(f) ==> exists|i2: int, j2: int|
                    #[trigger] path_covered(ps, pr, i2, j2) && i2 <= i && f == pair_fact(ps, pr, *claim, *session, i2, j2),
                forall|i2: int, j2: int| #[trigger] path_covered(ps, pr, i2, j2) && (i2 < i || (i2 == i && j2 < j)) ==>
                    !pair_rejected(ps, pr, *claim, *session, i2, j2)
                    && fact_views(locks@).contains(pair_fact(ps, pr, *claim, *session, i2, j2)),
            decreases pr.len() - j,
        {
            if covers_path(&prepared[j].scope, paths[i].as_str()) {
                assert(path_covered(ps, pr, i as int, j as int));
                match make_fact(&paths[i], &prepared[j].owner_subtask_id, claim, session) {
                    Ok(f) => {
                        let ghost old_out = fact_views(locks@);
                        insert_fact(&mut locks, f);
                        proof {
                            lemma_fact_step(ps, pr, *claim, *session, old_out, fact_views(locks@), i as int, j as int);
                        }
                    },
                    Err(e) => {
                        assert(pair_rejected(ps, pr, *claim, *session, i as int, j as int));
                        return Err(e);
                    },
                }
            }
            j = j + 1;
        }
        i = i + 1;
    }
    proof {
        assert forall|i2: int, j2: int| !#[trigger] pair_rejected(ps, pr, *claim, *session, i2, j2) by {
            if pair_rejected(ps, pr, *claim, *session, i2, j2) {
                assert(path_covered(ps, pr, i2, j2));
            }
        }
        assert forall|f: LockFactView| (exists|i2: int, j2: int|
            #[trigger] path_covered(ps, pr, i2, j2) && f == pair_fact(ps, pr, *claim, *session, i2, j2))
            implies fact_views(locks@).contains(f) by {
            let (i2, j2) = choose|i2: int, j2: int| #[trigger] path_covered(ps, pr, i2, j2) && f == pair_fact(ps, pr, *claim, *session, i2, j2);
            assert(path_covered(ps, pr, i2, j2));
        }
    }
    Ok(locks)
}

/// Reservations grouped by how a path is matched against them: repo-global
/// ones, `(path, reservation)` pairs for exact paths and generated members,
/// and subtrees.
struct ReservationIndex {
    repo_global: Vec<usize>,
    exact_keys: Vec<String>,
    exact_owners: Vec<usize>,
    subtrees: Vec<usize>,
}

/// Whether a scope covers `path` by naming it exactly.
spec fn exact_covers(p: PreparedScope, path: Seq<char>) -> bool {
    match p {
        PreparedScope::ExactPath(o) => o matches Some(x) && x@ == path,
        PreparedScope::GeneratedSet(ms) => views(ms@).contains(path),
        _ => false,
    }
}

/// Whether a scope is a subtree with a usable base.
spec fn is_subtree(p: PreparedScope) -> bool {
    p matches PreparedScope::Subtree(o) && o is Some
}

/// The index lists exactly the reservations of each group.
spec fn index_wf(ix: ReservationIndex, prepared: Seq<PreparedReservation>) -> bool {
    &&& forall|k: int| 0 <= k < ix.repo_global@.len() ==> (#[trigger] ix.repo_global@[k]) < prepared.len()
        && prepared[ix.repo_global@[k] as int].scope is RepoGlobal
    &&& forall|j: int| 0 <= j < prepared.len() && (#[trigger] prepared[j]).scope is RepoGlobal
        ==> exists|k: int| 0 <= k < ix.repo_global@.len() && ix.repo_global@[k] == j
    &&& ix.exact_keys@.len() == ix.exact_owners@.len()
    &&& forall|k: int| 0 <= k < ix.exact_owners@.len() ==> (#[trigger] ix.exact_owners@[k]) < prepared.len()
        && exact_covers(prepared[ix.exact_owners@[k] as int].scope, ix.exact_keys@[k]@)
    &&& forall|j: int, p: Seq<char>| 0 <= j < prepared.len() && #[trigger] exact_covers(prepared[j].scope, p)
        ==> exists|k: int| 0 <= k < ix.exact_owners@.len() && ix.exact_owners@[k] == j && ix.exact_keys@[k]@ == p
    &&& forall|k: int| 0 <= k < ix.subtrees@.len() ==> (#[trigger] ix.subtrees@[k]) < prepared.len()
        && is_subtree(prepared[ix.subtrees@[k] as int].scope)
    &&& forall|j: int| 0 <= j < prepared.len() && is_subtree(#[trigger] prepared[j].scope)
        ==> exists|k: int| 0 <= k < ix.subtrees@.len() && ix.subtrees@[k] == j
}

/// Builds the index of the prepared reservations.
fn build_index(prepared: &Vec<PreparedReservation>) -> (ix: ReservationIndex)
    ensures
        index_wf(ix, prepared@),
{
    let ghost pr = prepared@;
    let mut repo_global: Vec<usize> = Vec::new();
    let mut subtrees: Vec<usize> = Vec::new();
    let mut j: usize = 0;
    while j < prepared.len()
        invariant
            j <= pr.len(),
            pr == prepared@,
            forall|k: int| 0 <= k < repo_global@.len() ==> (#[trigger] repo_global@[k]) < j
                && pr[repo_global@[k] as int].scope is RepoGlobal,
            forall|j2: int| 0 <= j2 < j && (#[trigger] pr[j2]).scope is RepoGlobal
                ==> exists|k: int| 0 <= k < repo_global@.len() && repo_global@[k] == j2,
            forall|k: int| 0 <= k < subtrees@.len() ==> (#[trigger] subtrees@[k]) < j
                && is_subtree(pr[subtrees@[k] as int].scope),
            forall|j2: int| 0 <= j2 < j && is_subtree(#[trigger] pr[j2].scope)
                ==> exists|k: int| 0 <= k < subtrees@.len() && subtrees@[k] == j2,
        decreases pr.len() - j,
    {
        let ghost old_rg = repo_global@;
        let ghost old_st = subtrees@;
        let global = match &prepared[j].scope {
            PreparedScope::RepoGlobal => true,
            _ => false,
        };
        let subtree = match &prepared[j].scope {
            PreparedScope::Subtree(o) => o.is_some(),
            _ => false,
        };
        if global {
            repo_global.push(j);
        }
        if subtree {
            subtrees.push(j);
        }
        proof {
            assert(global == pr[j as int].scope is RepoGlobal);
            assert(subtree == is_subtree(pr[j as int].scope));
            assert forall|k: int| 0 <= k < old_rg.len() implies repo_global@[k] == old_rg[k] by {}
            assert forall|k: int| 0 <= k < old_st.len() implies subtrees@[k] == old_st[k] by {}
            assert forall|j2: int| 0 <= j2 < j + 1 && (#[trigger] pr[j2]).scope is RepoGlobal implies exists|k: int|
                0 <= k < repo_global@.len() && repo_global@[k] == j2 by {
                if j2 < j {
                    let k = choose|k: int| 0 <= k < old_rg.len() && old_rg[k] == j2;
                    assert(repo_global@[k] == j2);
                } else {
                    assert(repo_global@[old_rg.len() as int] == j2);
                }
            }
            assert forall|j2: int| 0 <= j2 < j + 1 && is_subtree(#[trigger] pr[j2].scope) implies exists|k: int|
                0 <= k < subtrees@.len() && subtrees@[k] == j2 by {
                if j2 < j {
                    let k = choose|k: int| 0 <= k < old_st.len() && old_st[k] == j2;
                    assert(subtrees@[k] == j2);
                } else {
                    assert(subtrees@[old_st.len() as int] == j2);
                }
            }
        }
        j = j + 1;
    }
    let mut exact_keys: Vec<String> = Vec::new();
    let mut exact_owners: Vec<usize> = Vec::new();
    let mut j: usize = 0;
    while j < prepared.len()
        invariant
            j <= pr.len(),
            pr == prepared@,
            exact_keys@.len() == exact_owners@.len(),
            forall|k: int| 0 <= k < exact_owners@.len() ==> (#[trigger] exact_owners@[k]) < j
                && exact_covers(pr[exact_owners@[k] as int].scope, exact_keys@[k]@),
            forall|j2: int, p: Seq<char>| 0 <= j2 < j && #[trigger] exact_covers(pr[j2].scope, p)
                ==> exists|k: int| 0 <= k < exact_owners@.len() && exact_owners@[k] == j2 && exact_keys@[k]@ == p,
        decreases pr.len() - j,
    {
        let ghost start = exact_owners@.len();
        let ghost keys0 = exact_keys@;
        let ghost owners0 = exact_owners@;
        match &prepared[j].scope {
            PreparedScope::ExactPath(o) => {
                match o {
                    Some(x) => {
                        exact_keys.push(x.clone());
                        exact_owners.push(j);
                        proof {
                            assert(exact_owners@[start as int] == j);
                            assert(exact_keys@[start as int]@ == x@);
                            assert forall|k: int| 0 <= k < start implies exact_owners@[k] == owners0[k]
                                && exact_keys@[k] == keys0[k] by {}
                            assert forall|j2: int, p: Seq<char>| 0 <= j2 < j + 1 && #[trigger] exact_covers(pr[j2].scope, p)
                                implies exists|k: int| 0 <= k < exact_owners@.len() && exact_owners@[k] == j2 && exact_keys@[k]@ == p by {
                                if j2 < j {
                                    let k = choose|k: int| 0 <= k < owners0.len() && owners0[k] == j2 && keys0[k]@ == p;
                                    assert(exact_owners@[k] == j2);
                                } else {
                                    assert(exact_owners@[start as int] == j2);
                                }
                            }
                        }
                    },
                    None => {
                        proof {
                            assert forall|j2: int, p: Seq<char>| 0 <= j2 < j + 1 && #[trigger] exact_covers(pr[j2].scope, p)
                                implies exists|k: int| 0 <= k < exact_owners@.len() && exact_owners@[k] == j2 && exact_keys@[k]@ == p by {
                                assert(j2 < j);
                            }
                        }
                    },
                }
            },
            PreparedScope::GeneratedSet(ms) => {
                let mut m: usize = 0;
                while m < ms.len()
                    invariant
                        m <= ms@.len(),
                        start <= exact_owners@.len(),
                        pr == prepared@,
                        j < pr.len(),
                        pr[j as int].scope == PreparedScope::GeneratedSet(*ms),
                        exact_keys@.len() == exact_owners@.len(),
                        forall|k: int| 0 <= k < start ==> exact_owners@[k] == owners0[k] && exact_keys@[k] == keys0[k],
                        forall|k: int| start <= k < exact_owners@.len() ==> (#[trigger] exact_owners@[k]) == j
                            && exact_covers(pr[j as int].scope, exact_keys@[k]@),
                        forall|p: Seq<char>| #[trigger] views(ms@).take(m as int).contains(p)
                            ==> exists|k: int| start <= k < exact_owners@.len() && exact_owners@[k] == j && exact_keys@[k]@ == p,
                    decreases ms@.len() - m,
                {
                    let ghost before_keys = exact_keys@;
                    let ghost before_owners = exact_owners@;
                    exact_keys.push(ms[m].clone());
                    exact_owners.push(j);
                    proof {
                        let n = before_owners.len() as int;
                        assert(exact_owners@[n] == j);
                        assert(exact_keys@[n]@ == ms@[m as int]@);
                        assert(views(ms@)[m as int] == ms@[m as int]@);
                        assert(views(ms@).contains(ms@[m as int]@));
                        assert forall|k: int| 0 <= k < n implies exact_owners@[k] == before_owners[k]
                            && exact_keys@[k] == before_keys[k] by {}
                        assert forall|p: Seq<char>| #[trigger] views(ms@).take(m + 1).contains(p) implies exists|k: int|
                            start <= k < exact_owners@.len() && exact_owners@[k] == j && exact_keys@[k]@ == p by {
                            crate::text::lemma_take_next_contains(views(ms@), m as int, p);
                            if views(ms@).take(m as int).contains(p) {
                                let k = choose|k: int| start <= k < before_owners.len() && before_owners[k] == j && before_keys[k]@ == p;
                                assert(exact_owners@[k] == j);
                            }
                        }
                    }
                    m = m + 1;
                }
                proof {
                    assert(views(ms@).take(ms@.len() as int) =~= views(ms@));
                    assert forall|k: int| 0 <= k < exact_owners@.len() implies (#[trigger] exact_owners@[k]) < j + 1
                        && exact_covers(pr[exact_owners@[k] as int].scope, exact_keys@[k]@) by {
                        if k < start {
                            assert(exact_owners@[k] == owners0[k]);
                            assert(exact_keys@[k] == keys0[k]);
                        }
                    }
                    assert forall|j2: int, p: Seq<char>| 0 <= j2 < j + 1 && #[trigger] exact_covers(pr[j2].scope, p)
                        implies exists|k: int| 0 <= k < exact_owners@.len() && exact_owners@[k] == j2 && exact_keys@[k]@ == p by {
                        if j2 < j {
                            let k = choose|k: int| 0 <= k < owners0.len() && owners0[k] == j2 && keys0[k]@ == p;
                            assert(exact_owners@[k] == j2);
                        } else {
                            assert(views(ms@).take(ms@.len() as int).contains(p));
                        }
                    }
                }
            },
            _ => {
                proof {
                    assert forall|j2: int, p: Seq<char>| 0 <= j2 < j + 1 && #[trigger] exact_covers(pr[j2].scope, p)
                        implies exists|k: int| 0 <= k < exact_owners@.len() && exact_owners@[k] == j2 && exact_keys@[k]@ == p by {
                        assert(j2 < j);
                    }
                }
            },
        }
        j = j + 1;
    }
    ReservationIndex { repo_global, exact_keys, exact_owners, subtrees }
}

/// The lock facts over requested paths, looking up for each path the
/// repo-global reservations, the exact paths and generated members equal to
/// it, and the subtrees that cover it.
pub fn lock_facts_for_prepared_paths(
    paths: &Vec<String>,
    prepared: &Vec<PreparedReservation>,
    claim: &Claim,
    session: &Session,
) -> (r: Result<Vec<RepoopsAuthorityLockFact>, String>)
    ensures
        r is Err <==> exists|i: int, j: int| #[trigger] pair_rejected(paths@, prepared@, *claim, *session, i, j),
        r matches Err(e) ==> exists|i: int, j: int|
            #[trigger] pair_rejected(paths@, prepared@, *claim, *session, i, j) && Some(e@) == lock_fact_error(
                pair_fact(paths@, prepared@, *claim, *session, i, j).path,
                pair_fact(paths@, prepared@, *claim, *session, i, j).owner,
            ),
        r matches Ok(v) ==> lock_facts_exact(paths@, prepared@, *claim, *session, fact_views(v@)),
{
    let ghost ps = paths@;
    let ghost pr = prepared@;
    let ix = build_index(prepared);
    let mut locks: Vec<RepoopsAuthorityLockFact> = Vec::new();
    let mut i: usize = 0;
    while i < paths.len()
        invariant
            i <= ps.len(),
            ps == paths@,
            pr == prepared@,
            index_wf(ix, pr),
            facts_sorted(fact_views(locks@)),
            forall|f: LockFactView| fact_views(locks@).contains(f) ==> exists|i2: int, j2: int|
                #[trigger] path_covered(ps, pr, i2, j2) && i2 < i && f == pair_fact(ps, pr, *claim, *session, i2, j2),
            forall|i2: int, j2: int| #[trigger] path_covered(ps, pr, i2, j2) && i2 < i ==>
                !pair_rejected(ps, pr, *claim, *session, i2, j2)
                && fact_views(locks@).contains(pair_fact(ps, pr, *claim, *session, i2, j2)),
        decreases ps.len() - i,
    {
        let path = &paths[i];
        let mut k: usize = 0;
        while k < ix.repo_global.len()
            invariant
                i < ps.len(),
                k <= ix.repo_global@.len(),
                ps == paths@,
                pr == prepared@,
                *path == ps[i as int],
                index_wf(ix, pr),
                facts_sorted(fact_views(locks@)),
                forall|f: LockFactView| fact_views(locks@).contains(f) ==> exists|i2: int, j2: int|
                    #[trigger] path_covered(ps, pr, i2, j2) && i2 <= i && f == pair_fact(ps, pr, *claim, *session, i2, j2),
                forall|i2: int, j2: int| #[trigger] path_covered(ps, pr, i2, j2) && i2 < i ==>
                    !pair_rejected(ps, pr, *claim, *session, i2, j2)
                    && fact_views(locks@).contains(pair_fact(ps, pr, *claim, *session, i2, j2)),
                forall|k2: int| 0 <= k2 < k ==> !pair_rejected(ps, pr, *claim, *session, i as int, #[trigger] ix.repo_global@[k2] as int)
                    && fact_views(locks@).contains(pair_fact(ps, pr, *claim, *session, i as int, ix.repo_global@[k2] as int)),
            decreases ix.repo_global@.len() - k,
        {
            let j = ix.repo_global[k];
            assert(path_covered(ps, pr, i as int, j as int));
            match make_fact(path, &prepared[j].owner_subtask_id, claim, session) {
                Ok(f) => {
                    let ghost old_out = fact_views(locks@);
                    insert_fact(&mut locks, f);
                    proof {
                        lemma_fact_step(ps, pr, *claim, *session, old_out, fact_views(locks@), i as int, j as int);
                    }
                },
                Err(e) => {
                    assert(pair_rejected(ps, pr, *claim, *session, i as int, j as int));
                    return Err(e);
                },
            }
            k = k + 1;
        }
        let mut k: usize = 0;
        while k < ix.exact_owners.len()
            invariant
                i < ps.len(),
                k <= ix.exact_owners@.len(),
                ps == paths@,
                pr == prepared@,
                *path == ps[i as int],
                index_wf(ix, pr),
                facts_sorted(fact_views(locks@)),
                forall|f: LockFactView| fact_views(locks@).contains(f) ==> exists|i2: int, j2: int|
                    #[trigger] path_covered(ps, pr, i2, j2) && i2 <= i && f == pair_fact(ps, pr, *claim, *session, i2, j2),
                forall|i2: int, j2: int| #[trigger] path_covered(ps, pr, i2, j2) && i2 < i ==>
                    !pair_rejected(ps, pr, *claim, *session, i2, j2)
                    && fact_views(locks@).contains(pair_fact(ps, pr, *claim, *session, i2, j2)),
                forall|k2: int| 0 <= k2 < ix.repo_global@.len() ==> !pair_rejected(ps, pr, *claim, *session, i as int, #[trigger] ix.repo_global@[k2] as int)
                    && fact_views(locks@).contains(pair_fact(ps, pr, *claim, *session, i as int, ix.repo_global@[k2] as int)),
                forall|k2: int| 0 <= k2 < k && ix.exact_keys@[k2]@ == path@ ==>
                    !pair_rejected(ps, pr, *claim, *session, i as int, #[trigger] ix.exact_owners@[k2] as int)
                    && fact_views(locks@).contains(pair_fact(ps, pr, *claim, *session, i as int, ix.exact_owners@[k2] as int)),
            decreases ix.exact_owners@.len() - k,
        {
            if str_eq(ix.exact_keys[k].as_str(), path.as_str()) {
                let j = ix.exact_owners[k];
                assert(exact_covers(pr[j as int].scope, ix.exact_keys@[k as int]@));
                assert(path_covered(ps, pr, i as int, j as int));
                match make_fact(path, &prepared[j].owner_subtask_id, claim, session) {
                    Ok(f) => {
                        let ghost old_out = fact_views(locks@);
                        insert_fact(&mut locks, f);
                        proof {
                            lemma_fact_step(ps, pr, *claim, *session, old_out, fact_views(locks@), i as int, j as int);
                        }
                    },
                    Err(e) => {
                        assert(pair_rejected(ps, pr, *claim, *session, i as int, j as int));
                        return Err(e);
                    },
                }
            }
            k = k + 1;
        }
        let mut k: usize = 0;
        while k < ix.subtrees.len()
            invariant
                i < ps.len(),
                k <= ix.subtrees@.len(),
                ps == paths@,
                pr == prepared@,
                *path == ps[i as int],
                index_wf(ix, pr),
                facts_sorted(fact_views(locks@)),
                forall|f: LockFactView| fact_views(locks@).contains(f) ==> exists|i2: int, j2: int|
                    #[trigger] path_covered(ps, pr, i2, j2) && i2 <= i && f == pair_fact(ps, pr, *claim, *session, i2, j2),
                forall|i2: int, j2: int| #[trigger] path_covered(ps, pr, i2, j2) && i2 < i ==>
                    !pair_rejected(ps, pr, *claim, *session, i2, j2)
                    && fact_views(locks@).contains(pair_fact(ps, pr, *claim, *session, i2, j2)),
                forall|k2: int| 0 <= k2 < ix.repo_global@.len() ==> !pair_rejected(ps, pr, *claim, *session, i as int, #[trigger] ix.repo_global@[k2] as int)
                    && fact_views(locks@).contains(pair_fact(ps, pr, *claim, *session, i as int, ix.repo_global@[k2] as int)),
                forall|k2: int| 0 <= k2 < ix.exact_owners@.len() && ix.exact_keys@[k2]@ == path@ ==>
                    !pair_rejected(ps, pr, *claim, *session, i as int, #[trigger] ix.exact_owners@[k2] as int)
                    && fact_views(locks@).contains(pair_fact(ps, pr, *claim, *session, i as int, ix.exact_owners@[k2] as int)),
                forall|k2: int| 0 <= k2 < k && covers(pr[ix.subtrees@[k2] as int].scope, path@) ==>
                    !pair_rejected(ps, pr, *claim, *session, i as int, #[trigger] ix.subtrees@[k2] as int)
                    && fact_views(locks@).contains(pair_fact(ps, pr, *claim, *session, i as int, ix.subtrees@[k2] as int)),
            decreases ix.subtrees@.len() - k,
        {
            let j = ix.subtrees[k];
            if covers_path(&prepared[j].scope, path.as_str()) {
                assert(path_covered(ps, pr, i as int, j as int));
                match make_fact(path, &prepared[j].owner_subtask_id, claim, session) {
                    Ok(f) => {
                        let ghost old_out = fact_views(locks@);
                        insert_fact(&mut locks, f);
                        proof {
                            lemma_fact_step(ps, pr, *claim, *session, old_out, fact_views(locks@), i as int, j as int);
                        }
                    },
                    Err(e) => {
                        assert(pair_rejected(ps, pr, *claim, *session, i as int, j as int));
                        return Err(e);
                    },
                }
            }
            k = k + 1;
        }
        proof {
            assert forall|i2: int, j2: int| #[trigger] path_covered(ps, pr, i2, j2) && i2 < i + 1 implies
                !pair_rejected(ps, pr, *claim, *session, i2, j2)
                && fact_views(locks@).contains(pair_fact(ps, pr, *claim, *session, i2, j2)) by {
                if i2 == i {
                    let sc = pr[j2].scope;
                    if sc is RepoGlobal {
                        assert(pr[j2].scope is RepoGlobal);
                        let k2 = choose|k2: int| 0 <= k2 < ix.repo_global@.len() && ix.repo_global@[k2] == j2;
                        assert(ix.repo_global@[k2] as int == j2);
                    } else if exact_covers(sc, path@) {
                        let k2 = choose|k2: int| 0 <= k2 < ix.exact_owners@.len() && ix.exact_owners@[k2] == j2 && ix.exact_keys@[k2]@ == path@;
                        assert(ix.exact_owners@[k2] as int == j2);
                    } else {
                        assert(is_subtree(pr[j2].scope));
                        let k2 = choose|k2: int| 0 <= k2 < ix.subtrees@.len() && ix.subtrees@[k2] == j2;
                        assert(ix.subtrees@[k2] as int == j2);
                    }
                }
            }
        }
        i = i + 1;
    }
    proof {
        assert forall|i2: int, j2: int| !#[trigger] pair_rejected(ps, pr, *claim, *session, i2, j2) by {
            if pair_rejected(ps, pr, *claim, *session, i2, j2) {
                assert(path_covered(ps, pr, i2, j2));
            }
        }
        assert forall|f: LockFactView| (exists|i2: int, j2: int|
            #[trigger] path_covered(ps, pr, i2, j2) && f == pair_fact(ps, pr, *claim, *session, i2, j2))
            implies fact_views(locks@).contains(f) by {
            let (i2, j2) = choose|i2: int, j2: int| #[trigger] path_covered(ps, pr, i2, j2) && f == pair_fact(ps, pr, *claim, *session, i2, j2);
            assert(path_covered(ps, pr, i2, j2));
        }
    }
    Ok(locks)
}

/// The lock facts over requested paths under the given reservations.
pub fn lock_facts_for_paths(
    paths: &Vec<String>,
    reservations: &Vec<Reservation>,
    claim: &Claim,
    session: &Session,
) -> (r: Result<Vec<RepoopsAuthorityLockFact>, String>)
    ensures
        exists|prepared: Seq<PreparedReservation>| {
            &&& #[trigger] prepared_all(reservations@, prepared)
            &&& (r is Err <==> exists|i: int, j: int| #[trigger] pair_rejected(paths@, prepared, *claim, *session, i, j))
            &&& (r matches Ok(v) ==> lock_facts_exact(paths@, prepared, *claim, *session, fact_views(v@)))
        },
{
    let prepared = prepare_reservations(reservations);
    let r = lock_facts_for_prepared_paths(paths, &prepared, claim, session);
    assert(prepared_all(reservations@, prepared@));
    r
}

/// Whatever way the lock facts are gathered, the sorted result is the same:
/// two results that both list exactly the lock facts over the requested
/// paths are equal.
pub proof fn lemma_lock_facts_agree(
    paths: Seq<String>,
    prepared: Seq<PreparedReservation>,
    claim: Claim,
    session: Session,
    a: Seq<LockFactView>,
    b: Seq<LockFactView>,
)
    requires
        lock_facts_exact(paths, prepared, claim, session, a),
        lock_facts_exact(paths, prepared, claim, session, b),
    ensures
        a == b,
{
    lemma_sorted_facts_unique(a, b);
}

} // verus!
