//! The enumeration engine: a depth-bounded exhaustive walk of the legal-move
//! tree from the starting position, pruning every branch whose last ply
//! violates its constraint token and gathering the complete sequences that
//! reach the depth frontier.

use vstd::prelude::*;

use crate::board::Ply;
use crate::board::Position;
use crate::board::legal_after;
use crate::eval::ply_facts;
use crate::eval::ply_satisfies;
use crate::eval::token_holds;
use crate::pattern::InvalidChar;
use crate::pattern::Token;
use crate::pattern::compile;
use crate::pattern::spec_token_of;

verus! {

/// Whether the move `m`, played from the position reached by `path`,
/// passes the constraint gate of its ply.
pub open spec fn gate_passes(pattern: Seq<Token>, path: Seq<Ply>, m: Ply) -> bool {
    token_holds(pattern[path.len() as int], ply_facts(path, m))
}

/// The matching complete move sequences found below the node at `path`, in
/// exploration order: the node itself at the frontier, and at inner nodes
/// the matches under each legal move whose ply passes its token.
pub open spec fn matches_from(pattern: Seq<Token>, path: Seq<Ply>) -> Seq<Seq<Ply>>
    decreases pattern.len() - path.len(), legal_after(path).len() + 1,
{
    if path.len() >= pattern.len() {
        seq![path]
    } else {
        matches_over(pattern, path, legal_after(path))
    }
}

/// The matches gathered by extending `path` with each move of `moves` in
/// turn, gating each extension by its constraint token.
pub open spec fn matches_over(pattern: Seq<Token>, path: Seq<Ply>, moves: Seq<Ply>) -> Seq<
    Seq<Ply>,
>
    decreases pattern.len() - path.len(), moves.len(),
{
    if path.len() >= pattern.len() || moves.len() == 0 {
        Seq::empty()
    } else {
        (if gate_passes(pattern, path, moves[0]) {
            matches_from(pattern, path.push(moves[0]))
        } else {
            Seq::empty()
        }) + matches_over(pattern, path, moves.drop_first())
    }
}

/// Appending one move to the explored prefix adds exactly that move's
/// contribution to the gathered matches.
proof fn lemma_matches_over_push(pattern: Seq<Token>, path: Seq<Ply>, moves: Seq<Ply>, m: Ply)
    requires
        path.len() < pattern.len(),
    ensures
        matches_over(pattern, path, moves.push(m)) == matches_over(pattern, path, moves) + (
        if gate_passes(pattern, path, m) {
            matches_from(pattern, path.push(m))
        } else {
            Seq::<Seq<Ply>>::empty()
        }),
    decreases moves.len(),
{
    let added = if gate_passes(pattern, path, m) {
        matches_from(pattern, path.push(m))
    } else {
        Seq::<Seq<Ply>>::empty()
    };
    if moves.len() == 0 {
        assert(moves.push(m)[0] == m);
        let rest = moves.push(m).drop_first();
        assert(rest =~= Seq::<Ply>::empty());
        assert(matches_over(pattern, path, rest) == Seq::<Seq<Ply>>::empty());
        assert(matches_over(pattern, path, moves) == Seq::<Seq<Ply>>::empty());
        assert(matches_over(pattern, path, moves.push(m)) == added + matches_over(
            pattern,
            path,
            rest,
        ));
        assert(added + Seq::<Seq<Ply>>::empty() =~= added);
        assert(Seq::<Seq<Ply>>::empty() + added =~= added);
    } else {
        assert(moves.push(m)[0] == moves[0]);
        assert(moves.push(m).drop_first() =~= moves.drop_first().push(m));
        lemma_matches_over_push(pattern, path, moves.drop_first(), m);
        let head = if gate_passes(pattern, path, moves[0]) {
            matches_from(pattern, path.push(moves[0]))
        } else {
            Seq::<Seq<Ply>>::empty()
        };
        assert(matches_over(pattern, path, moves.push(m)) == head + (matches_over(
            pattern,
            path,
            moves.drop_first(),
        ) + added));
        assert(head + (matches_over(pattern, path, moves.drop_first()) + added) =~= (head
            + matches_over(pattern, path, moves.drop_first())) + added);
    }
}

/// The view of each gathered path.
pub open spec fn views_of(s: Seq<Vec<Ply>>) -> Seq<Seq<Ply>> {
    s.map_values(|v: Vec<Ply>| v@)
}

proof fn lemma_views_push(s: Seq<Vec<Ply>>, v: Vec<Ply>)
    ensures
        views_of(s.push(v)) == views_of(s).push(v@),
{
    assert(views_of(s.push(v)) =~= views_of(s).push(v@));
}

/// Copy a path so the record is independent of the search's working state.
fn clone_path(path: &Vec<Ply>) -> (r: Vec<Ply>)
    ensures
        r@ == path@,
{
    let mut r: Vec<Ply> = Vec::new();
    let n = path.len();
    let mut i: usize = 0;
    while i < n
        invariant
            n == path@.len(),
            i <= n,
            r@ == path@.take(i as int),
        decreases n - i,
    {
        r.push(path[i]);
        assert(path@.take(i + 1 as int) =~= path@.take(i as int).push(path@[i as int]));
        i = i + 1;
    }
    assert(path@.take(n as int) =~= path@);
    r
}

/// One node of the search: record the path if it reached the frontier,
/// otherwise fan out over the legal moves, gate each child ply by its
/// token, and recurse into the children that pass.
fn search_from(pos: &Position, pattern: &Vec<Token>, path: &mut Vec<Ply>, out: &mut Vec<Vec<Ply>>)
    requires
        pos.path() == old(path)@,
        old(path)@.len() <= pattern@.len(),
    ensures
        final(path)@ == old(path)@,
        views_of(final(out)@) == views_of(old(out)@) + matches_from(pattern@, old(path)@),
    decreases pattern@.len() - pos.path().len(),
{
    let ghost path0 = path@;
    let ghost out0 = out@;
    if path.len() == pattern.len() {
        let record = clone_path(path);
        out.push(record);
        proof {
            lemma_views_push(out0, record);
            assert(views_of(out0) + matches_from(pattern@, path0) =~= views_of(out0).push(path0));
        }
        return ;
    }
    let moves = pos.legal_moves();
    let n = moves.len();
    let mut i: usize = 0;
    while i < n
        invariant
            pos.path() == path0,
            path@ == path0,
            path0.len() < pattern@.len(),
            moves@ == legal_after(path0),
            forall|j: int| 0 <= j < moves@.len() ==> (#[trigger] moves@[j]).wf(),
            n == moves@.len(),
            i <= n,
            views_of(out@) == views_of(out0) + matches_over(pattern@, path0, moves@.take(i as int)),
        decreases n - i,
    {
        let m = moves[i];
        proof {
            assert(legal_after(path0)[i as int] == m);
            assert(legal_after(path0).contains(m));
            assert(moves@.take(i + 1 as int) =~= moves@.take(i as int).push(m));
            lemma_matches_over_push(pattern@, path0, moves@.take(i as int), m);
        }
        let child = pos.apply(&m);
        let t = pattern[path.len()];
        if ply_satisfies(&t, pos, &child, &m) {
            path.push(m);
            search_from(&child, pattern, path, out);
            path.pop();
            proof {
                assert(path0.push(m).subrange(0, path0.push(m).len() - 1) =~= path0);
            }
        }
        i = i + 1;
    }
    proof {
        assert(moves@.take(n as int) =~= moves@);
    }
}

/// Enumerate every move sequence from the starting position that matches
/// the pattern, one ply per token, in exploration order.
pub fn enumerate(pattern: &Vec<Token>) -> (r: Vec<Vec<Ply>>)
    ensures
        views_of(r@) == matches_from(pattern@, Seq::<Ply>::empty()),
{
    let start = Position::start();
    let mut path: Vec<Ply> = Vec::new();
    let mut out: Vec<Vec<Ply>> = Vec::new();
    search_from(&start, pattern, &mut path, &mut out);
    proof {
        assert(views_of(Seq::<Vec<Ply>>::empty()) + matches_from(pattern@, Seq::<Ply>::empty())
            =~= matches_from(pattern@, Seq::<Ply>::empty()));
    }
    out
}

/// A count held to the range of the counter: the exact value below the
/// counter's maximum, the maximum from there on.
pub open spec fn clamped(n: int) -> int {
    if n < u64::MAX as int {
        n
    } else {
        u64::MAX as int
    }
}

proof fn lemma_clamped_add(a: int, b: int)
    requires
        0 <= a,
        0 <= b,
    ensures
        clamped(clamped(a) + b) == clamped(a + b),
{
}

/// One node of the counting search: count the path if it reached the
/// frontier, saturating at the counter's maximum, otherwise fan out as the
/// gathering search does.
fn count_from(pos: &Position, pattern: &Vec<Token>, path: &mut Vec<Ply>, acc: &mut u64)
    requires
        pos.path() == old(path)@,
        old(path)@.len() <= pattern@.len(),
    ensures
        final(path)@ == old(path)@,
        *final(acc) as int == clamped(*old(acc) + matches_from(pattern@, old(path)@).len()),
    decreases pattern@.len() - pos.path().len(),
{
    let ghost path0 = path@;
    let ghost acc0 = *acc;
    if path.len() == pattern.len() {
        if *acc < u64::MAX {
            *acc = *acc + 1;
        }
        return ;
    }
    let moves = pos.legal_moves();
    let n = moves.len();
    let mut i: usize = 0;
    while i < n
        invariant
            pos.path() == path0,
            path@ == path0,
            path0.len() < pattern@.len(),
            moves@ == legal_after(path0),
            forall|j: int| 0 <= j < moves@.len() ==> (#[trigger] moves@[j]).wf(),
            n == moves@.len(),
            i <= n,
            *acc as int == clamped(acc0 + matches_over(pattern@, path0, moves@.take(i as int)).len()),
        decreases n - i,
    {
        let m = moves[i];
        proof {
            assert(legal_after(path0)[i as int] == m);
            assert(legal_after(path0).contains(m));
            assert(moves@.take(i + 1 as int) =~= moves@.take(i as int).push(m));
            lemma_matches_over_push(pattern@, path0, moves@.take(i as int), m);
        }
        let child = pos.apply(&m);
        let t = pattern[path.len()];
        if ply_satisfies(&t, pos, &child, &m) {
            path.push(m);
            count_from(&child, pattern, path, acc);
            path.pop();
            proof {
                assert(path0.push(m).subrange(0, path0.push(m).len() - 1) =~= path0);
                lemma_clamped_add(
                    acc0 + matches_over(pattern@, path0, moves@.take(i as int)).len(),
                    matches_from(pattern@, path0.push(m)).len() as int,
                );
            }
        }
        i = i + 1;
    }
    proof {
        assert(moves@.take(n as int) =~= moves@);
    }
}

/// Count the move sequences from the starting position that match the
/// pattern, saturating at the counter's maximum.
pub fn count_matching(pattern: &Vec<Token>) -> (r: u64)
    ensures
        r as int == clamped(matches_from(pattern@, Seq::<Ply>::empty()).len() as int),
{
    let start = Position::start();
    let mut path: Vec<Ply> = Vec::new();
    let mut acc: u64 = 0;
    count_from(&start, pattern, &mut path, &mut acc);
    acc
}

/// Compile a steno string and count its matching move sequences: the whole
/// run in counting mode. A malformed pattern is rejected before any search,
/// with the offending character reported.
pub fn solve_count(steno: &str) -> (r: Result<u64, InvalidChar>)
    ensures
        match r {
            Ok(c) => (forall|i: int| 0 <= i < steno@.len() ==> spec_token_of(#[trigger] steno@[i]) is Some)
                && exists|p: Seq<Token>|
                {
                    &&& p.len() == steno@.len()
                    &&& (forall|i: int| 0 <= i < steno@.len() ==> Some(p[i]) == spec_token_of(#[trigger] steno@[i]))
                    &&& c as int == clamped(matches_from(p, Seq::<Ply>::empty()).len() as int)
                },
            Err(e) => exists|i: int|
                0 <= i < steno@.len() && spec_token_of(#[trigger] steno@[i]) is None && e.ch
                    == steno@[i],
        },
{
    match compile(steno) {
        Ok(pattern) => {
            let c = count_matching(&pattern);
            Ok(c)
        },
        Err(e) => Err(e),
    }
}

/// Compile a steno string and enumerate its matching move sequences: the
/// whole run in gathering mode. A malformed pattern is rejected before any
/// search, with the offending character reported.
pub fn solve_enumerate(steno: &str) -> (r: Result<Vec<Vec<Ply>>, InvalidChar>)
    ensures
        match r {
            Ok(v) => exists|p: Seq<Token>|
                {
                    &&& p.len() == steno@.len()
                    &&& (forall|i: int| 0 <= i < steno@.len() ==> Some(p[i]) == spec_token_of(#[trigger] steno@[i]))
                    &&& views_of(v@) == matches_from(p, Seq::<Ply>::empty())
                },
            Err(e) => exists|i: int|
                0 <= i < steno@.len() && spec_token_of(#[trigger] steno@[i]) is None && e.ch
                    == steno@[i],
        },
{
    match compile(steno) {
        Ok(pattern) => {
            let v = enumerate(&pattern);
            proof {
                let p = pattern@;
                assert(p.len() == steno@.len() && (forall|i: int|
                    0 <= i < steno@.len() ==> Some(p[i]) == spec_token_of(#[trigger] steno@[i]))
                    && views_of(v@) == matches_from(p, Seq::<Ply>::empty()));
            }
            Ok(v)
        },
        Err(e) => Err(e),
    }
}

/// An empty pattern matches exactly once, with the empty move sequence:
/// the search reports the starting position itself and expands nothing.
pub proof fn lemma_empty_pattern_one_match(pattern: Seq<Token>)
    requires
        pattern.len() == 0,
    ensures
        matches_from(pattern, Seq::<Ply>::empty()).len() == 1,
        matches_from(pattern, Seq::<Ply>::empty())[0] == Seq::<Ply>::empty(),
{
}

/// The number of legal move sequences of length `depth` playable from the
/// position reached by `path`.
pub open spec fn sequence_count(path: Seq<Ply>, depth: nat) -> nat
    decreases depth, legal_after(path).len() + 1,
{
    if depth == 0 {
        1
    } else {
        sequence_count_over(path, depth, legal_after(path))
    }
}

/// The legal move sequences of length `depth` that begin with one of
/// `moves`, counted move by move.
pub open spec fn sequence_count_over(path: Seq<Ply>, depth: nat, moves: Seq<Ply>) -> nat
    decreases depth, moves.len(),
{
    if depth == 0 || moves.len() == 0 {
        0
    } else {
        sequence_count(path.push(moves[0]), (depth - 1) as nat) + sequence_count_over(
            path,
            depth,
            moves.drop_first(),
        )
    }
}

proof fn lemma_wildcard_over(pattern: Seq<Token>, path: Seq<Ply>, moves: Seq<Ply>)
    requires
        forall|i: int| 0 <= i < pattern.len() ==> pattern[i] == Token::Wildcard,
        path.len() < pattern.len(),
    ensures
        matches_over(pattern, path, moves).len() == sequence_count_over(
            path,
            (pattern.len() - path.len()) as nat,
            moves,
        ),
    decreases pattern.len() - path.len(), moves.len(),
{
    if moves.len() == 0 {
    } else {
        assert(gate_passes(pattern, path, moves[0]));
        lemma_wildcard_from(pattern, path.push(moves[0]));
        lemma_wildcard_over(pattern, path, moves.drop_first());
    }
}

/// Below a node, a pattern of wildcards only matches every legal sequence
/// that reaches the frontier: no branch is pruned.
pub proof fn lemma_wildcard_from(pattern: Seq<Token>, path: Seq<Ply>)
    requires
        forall|i: int| 0 <= i < pattern.len() ==> pattern[i] == Token::Wildcard,
        path.len() <= pattern.len(),
    ensures
        matches_from(pattern, path).len() == sequence_count(
            path,
            (pattern.len() - path.len()) as nat,
        ),
    decreases pattern.len() - path.len(), legal_after(path).len() + 1,
{
    if path.len() >= pattern.len() {
    } else {
        lemma_wildcard_over(pattern, path, legal_after(path));
    }
}

/// A pattern of wildcards only, repeated `depth` times, matches exactly the
/// legal move sequences of that length from the starting position.
pub proof fn lemma_wildcard_counts_all(pattern: Seq<Token>)
    requires
        forall|i: int| 0 <= i < pattern.len() ==> pattern[i] == Token::Wildcard,
    ensures
        matches_from(pattern, Seq::<Ply>::empty()).len() == sequence_count(
            Seq::<Ply>::empty(),
            pattern.len(),
        ),
{
    lemma_wildcard_from(pattern, Seq::<Ply>::empty());
}

/// Idempotence of the search: two runs on the same pattern yield the same
/// count and the same set of matching sequences, since the matches are a
/// function of the pattern alone.
pub proof fn lemma_search_deterministic(
    pattern: Seq<Token>,
    r1: Seq<Seq<Ply>>,
    r2: Seq<Seq<Ply>>,
)
    requires
        r1 == matches_from(pattern, Seq::<Ply>::empty()),
        r2 == matches_from(pattern, Seq::<Ply>::empty()),
    ensures
        r1 == r2,
        r1.len() == r2.len(),
        r1.to_set() == r2.to_set(),
{
}

} // verus!
