//! The per-ply constraint evaluator: given one constraint token and the
//! facts of one ply, decide whether the ply satisfies the token.

use vstd::prelude::*;

use crate::board::GameStatus;
use crate::board::PieceKind;
use crate::board::Ply;
use crate::board::Position;
use crate::board::in_check_after;
use crate::board::piece_after;
use crate::board::status_after;
use crate::pattern::Token;

verus! {

/// Everything the evaluator reads about one ply: the move itself, the piece
/// that moved, the piece that stood on the destination square before the
/// move (absent for en passant), and the check state and status of the
/// position after the move.
#[derive(Clone, Copy, Debug, PartialEq, Eq)]
pub struct PlyFacts {
    pub mv: Ply,
    pub moved: Option<PieceKind>,
    pub captured: Option<PieceKind>,
    pub in_check: bool,
    pub status: GameStatus,
}

/// An en-passant capture as the evaluator detects it: a pawn moved
/// diagonally into a square that was empty before the move.
pub open spec fn en_passant_shape(f: PlyFacts) -> bool {
    f.moved == Some(PieceKind::Pawn) && f.mv.src_file != f.mv.dst_file && f.captured is None
}

/// A kingside castle: the king went from e1 to g1 or from e8 to g8.
pub open spec fn kingside_castle_shape(m: Ply) -> bool {
    m.src_file == 4 && m.dst_file == 6 && ((m.src_rank == 0 && m.dst_rank == 0) || (m.src_rank == 7
        && m.dst_rank == 7))
}

/// A queenside castle: the king went from e1 to c1 or from e8 to c8.
pub open spec fn queenside_castle_shape(m: Ply) -> bool {
    m.src_file == 4 && m.dst_file == 2 && ((m.src_rank == 0 && m.dst_rank == 0) || (m.src_rank == 7
        && m.dst_rank == 7))
}

/// What each constraint token requires of one ply.
pub open spec fn token_holds(t: Token, f: PlyFacts) -> bool {
    match t {
        Token::Wildcard => true,
        Token::TargetRank(r) => f.mv.dst_rank == r,
        Token::TargetFile(c) => f.mv.dst_file == c,
        Token::GivesCheck => f.in_check,
        Token::IsCheckmate => f.status == GameStatus::Checkmate,
        Token::IsStalemate => f.status == GameStatus::Stalemate,
        Token::MovedPiece(k) => f.moved == Some(k),
        Token::IsCapture => f.captured is Some || en_passant_shape(f),
        Token::IsEnPassant => en_passant_shape(f),
        Token::CastleKingside => f.moved == Some(PieceKind::King) && kingside_castle_shape(f.mv),
        Token::CastleQueenside => f.moved == Some(PieceKind::King) && queenside_castle_shape(f.mv),
        Token::PromotedTo(k) => f.mv.promo == Some(k),
    }
}

/// Whether the moved piece is `k`.
fn moved_is(f: &PlyFacts, k: PieceKind) -> (r: bool)
    ensures
        r == (f.moved == Some(k)),
{
    match f.moved {
        Some(p) => p == k,
        None => false,
    }
}

/// Decide whether one ply satisfies one constraint token.
pub fn satisfies(t: &Token, f: &PlyFacts) -> (r: bool)
    ensures
        r == token_holds(*t, *f),
{
    match t {
        Token::Wildcard => true,
        Token::TargetRank(r) => f.mv.dst_rank == *r,
        Token::TargetFile(c) => f.mv.dst_file == *c,
        Token::GivesCheck => f.in_check,
        Token::IsCheckmate => f.status == GameStatus::Checkmate,
        Token::IsStalemate => f.status == GameStatus::Stalemate,
        Token::MovedPiece(k) => moved_is(f, *k),
        Token::IsCapture => f.captured.is_some() || (moved_is(f, PieceKind::Pawn) && f.mv.src_file
            != f.mv.dst_file && f.captured.is_none()),
        Token::IsEnPassant => moved_is(f, PieceKind::Pawn) && f.mv.src_file != f.mv.dst_file
            && f.captured.is_none(),
        Token::CastleKingside => moved_is(f, PieceKind::King) && f.mv.src_file == 4 && f.mv.dst_file
            == 6 && ((f.mv.src_rank == 0 && f.mv.dst_rank == 0) || (f.mv.src_rank == 7
            && f.mv.dst_rank == 7)),
        Token::CastleQueenside => moved_is(f, PieceKind::King) && f.mv.src_file == 4
            && f.mv.dst_file == 2 && ((f.mv.src_rank == 0 && f.mv.dst_rank == 0) || (f.mv.src_rank
            == 7 && f.mv.dst_rank == 7)),
        Token::PromotedTo(k) => match f.mv.promo {
            Some(p) => p == *k,
            None => false,
        },
    }
}

/// The facts of playing `m` in the position reached by `path`, phrased over
/// the collaborator's named results.
pub open spec fn ply_facts(path: Seq<Ply>, m: Ply) -> PlyFacts {
    PlyFacts {
        mv: m,
        moved: piece_after(path, m.src_file, m.src_rank),
        captured: piece_after(path, m.dst_file, m.dst_rank),
        in_check: in_check_after(path.push(m)),
        status: status_after(path.push(m)),
    }
}

/// Decide whether the ply that took `before` to `after` by playing `m`
/// satisfies `t`, querying the collaborator only for what `t` asks about.
pub fn ply_satisfies(t: &Token, before: &Position, after: &Position, m: &Ply) -> (r: bool)
    requires
        m.wf(),
        after.path() == before.path().push(*m),
    ensures
        r == token_holds(*t, ply_facts(before.path(), *m)),
{
    match t {
        Token::Wildcard => true,
        Token::TargetRank(r) => m.dst_rank == *r,
        Token::TargetFile(c) => m.dst_file == *c,
        Token::GivesCheck => after.in_check(),
        Token::IsCheckmate => after.status() == GameStatus::Checkmate,
        Token::IsStalemate => after.status() == GameStatus::Stalemate,
        Token::MovedPiece(k) => match before.piece_on(m.src_file, m.src_rank) {
            Some(p) => p == *k,
            None => false,
        },
        Token::IsCapture => {
            let captured = before.piece_on(m.dst_file, m.dst_rank);
            if captured.is_some() {
                true
            } else {
                let moved = before.piece_on(m.src_file, m.src_rank);
                matches!(moved, Some(PieceKind::Pawn)) && m.src_file != m.dst_file
            }
        },
        Token::IsEnPassant => {
            let captured = before.piece_on(m.dst_file, m.dst_rank);
            let moved = before.piece_on(m.src_file, m.src_rank);
            matches!(moved, Some(PieceKind::Pawn)) && m.src_file != m.dst_file && captured.is_none()
        },
        Token::CastleKingside => {
            let moved = before.piece_on(m.src_file, m.src_rank);
            matches!(moved, Some(PieceKind::King)) && m.src_file == 4 && m.dst_file == 6 && ((m.src_rank
                == 0 && m.dst_rank == 0) || (m.src_rank == 7 && m.dst_rank == 7))
        },
        Token::CastleQueenside => {
            let moved = before.piece_on(m.src_file, m.src_rank);
            matches!(moved, Some(PieceKind::King)) && m.src_file == 4 && m.dst_file == 2 && ((m.src_rank
                == 0 && m.dst_rank == 0) || (m.src_rank == 7 && m.dst_rank == 7))
        },
        Token::PromotedTo(k) => match m.promo {
            Some(p) => p == *k,
            None => false,
        },
    }
}

/// Collect the full facts of the ply that took `before` to `after` by
/// playing `m`.
pub fn gather_facts(before: &Position, after: &Position, m: &Ply) -> (r: PlyFacts)
    requires
        m.wf(),
        after.path() == before.path().push(*m),
    ensures
        r == ply_facts(before.path(), *m),
{
    PlyFacts {
        mv: *m,
        moved: before.piece_on(m.src_file, m.src_rank),
        captured: before.piece_on(m.dst_file, m.dst_rank),
        in_check: after.in_check(),
        status: after.status(),
    }
}

/// The en-passant distinction: a diagonal pawn move into a square that was
/// empty before the move satisfies both the capture token and the
/// en-passant token, while a capture of a piece standing on the destination
/// square satisfies the capture token but never the en-passant token.
pub proof fn lemma_en_passant_distinction(f: PlyFacts)
    ensures
        en_passant_shape(f) ==> token_holds(Token::IsCapture, f) && token_holds(
            Token::IsEnPassant,
            f,
        ),
        f.captured is Some ==> token_holds(Token::IsCapture, f) && !token_holds(
            Token::IsEnPassant,
            f,
        ),
{
}

} // verus!
