//! The pattern compiler: it validates a raw steno string against the fixed
//! alphabet and turns each character into one per-ply constraint token.

use vstd::prelude::*;

use crate::board::PieceKind;

verus! {

/// One compiled constraint, restricting one ply. Ranks and files are stored
/// as indices: 0 = rank 1 / file a .. 7 = rank 8 / file h.
#[derive(Clone, Copy, Debug, PartialEq, Eq, Structural)]
pub enum Token {
    /// `~`: any ply.
    Wildcard,
    /// `1`..`8`: the move's destination square lies on this rank.
    TargetRank(u8),
    /// `a`..`h`: the move's destination square lies on this file.
    TargetFile(u8),
    /// `x`: the ply captures, en passant included.
    IsCapture,
    /// `%`: the ply is an en-passant capture.
    IsEnPassant,
    /// `+`: the ply leaves the opponent in check.
    GivesCheck,
    /// `#`: the ply delivers checkmate.
    IsCheckmate,
    /// `=`: the ply delivers stalemate.
    IsStalemate,
    /// `L`/`N`/`R`/`Q`/`K`/`P`: the piece that moved.
    MovedPiece(PieceKind),
    /// `o`: the ply castles kingside.
    CastleKingside,
    /// `0`: the ply castles queenside.
    CastleQueenside,
    /// `r`/`n`/`l`/`q`: the ply promotes to this piece.
    PromotedTo(PieceKind),
}

/// The token a pattern character compiles to, or `None` for a character
/// outside the alphabet.
pub open spec fn spec_token_of(c: char) -> Option<Token> {
    match c {
        '~' => Some(Token::Wildcard),
        '1' => Some(Token::TargetRank(0)),
        '2' => Some(Token::TargetRank(1)),
        '3' => Some(Token::TargetRank(2)),
        '4' => Some(Token::TargetRank(3)),
        '5' => Some(Token::TargetRank(4)),
        '6' => Some(Token::TargetRank(5)),
        '7' => Some(Token::TargetRank(6)),
        '8' => Some(Token::TargetRank(7)),
        'a' => Some(Token::TargetFile(0)),
        'b' => Some(Token::TargetFile(1)),
        'c' => Some(Token::TargetFile(2)),
        'd' => Some(Token::TargetFile(3)),
        'e' => Some(Token::TargetFile(4)),
        'f' => Some(Token::TargetFile(5)),
        'g' => Some(Token::TargetFile(6)),
        'h' => Some(Token::TargetFile(7)),
        'x' => Some(Token::IsCapture),
        '%' => Some(Token::IsEnPassant),
        '+' => Some(Token::GivesCheck),
        '#' => Some(Token::IsCheckmate),
        '=' => Some(Token::IsStalemate),
        'L' => Some(Token::MovedPiece(PieceKind::Bishop)),
        'N' => Some(Token::MovedPiece(PieceKind::Knight)),
        'R' => Some(Token::MovedPiece(PieceKind::Rook)),
        'Q' => Some(Token::MovedPiece(PieceKind::Queen)),
        'K' => Some(Token::MovedPiece(PieceKind::King)),
        'P' => Some(Token::MovedPiece(PieceKind::Pawn)),
        'o' => Some(Token::CastleKingside),
        '0' => Some(Token::CastleQueenside),
        'r' => Some(Token::PromotedTo(PieceKind::Rook)),
        'n' => Some(Token::PromotedTo(PieceKind::Knight)),
        'l' => Some(Token::PromotedTo(PieceKind::Bishop)),
        'q' => Some(Token::PromotedTo(PieceKind::Queen)),
        _ => None,
    }
}

/// Compile one pattern character.
pub fn token_of(c: char) -> (r: Option<Token>)
    ensures
        r == spec_token_of(c),
{
    match c {
        '~' => Some(Token::Wildcard),
        '1' => Some(Token::TargetRank(0)),
        '2' => Some(Token::TargetRank(1)),
        '3' => Some(Token::TargetRank(2)),
        '4' => Some(Token::TargetRank(3)),
        '5' => Some(Token::TargetRank(4)),
        '6' => Some(Token::TargetRank(5)),
        '7' => Some(Token::TargetRank(6)),
        '8' => Some(Token::TargetRank(7)),
        'a' => Some(Token::TargetFile(0)),
        'b' => Some(Token::TargetFile(1)),
        'c' => Some(Token::TargetFile(2)),
        'd' => Some(Token::TargetFile(3)),
        'e' => Some(Token::TargetFile(4)),
        'f' => Some(Token::TargetFile(5)),
        'g' => Some(Token::TargetFile(6)),
        'h' => Some(Token::TargetFile(7)),
        'x' => Some(Token::IsCapture),
        '%' => Some(Token::IsEnPassant),
        '+' => Some(Token::GivesCheck),
        '#' => Some(Token::IsCheckmate),
        '=' => Some(Token::IsStalemate),
        'L' => Some(Token::MovedPiece(PieceKind::Bishop)),
        'N' => Some(Token::MovedPiece(PieceKind::Knight)),
        'R' => Some(Token::MovedPiece(PieceKind::Rook)),
        'Q' => Some(Token::MovedPiece(PieceKind::Queen)),
        'K' => Some(Token::MovedPiece(PieceKind::King)),
        'P' => Some(Token::MovedPiece(PieceKind::Pawn)),
        'o' => Some(Token::CastleKingside),
        '0' => Some(Token::CastleQueenside),
        'r' => Some(Token::PromotedTo(PieceKind::Rook)),
        'n' => Some(Token::PromotedTo(PieceKind::Knight)),
        'l' => Some(Token::PromotedTo(PieceKind::Bishop)),
        'q' => Some(Token::PromotedTo(PieceKind::Queen)),
        _ => None,
    }
}

/// The rejection of a pattern: the first character outside the alphabet.
#[derive(Clone, Copy, Debug, PartialEq, Eq, Structural)]
pub struct InvalidChar {
    pub ch: char,
}

/// Compile a raw steno string into its token sequence, or reject it on the
/// first character outside the alphabet, reporting that character.
pub fn compile(steno: &str) -> (r: Result<Vec<Token>, InvalidChar>)
    ensures
        match r {
            Ok(p) => p@.len() == steno@.len() && forall|i: int|
                0 <= i < steno@.len() ==> Some(p@[i]) == spec_token_of(#[trigger] steno@[i]),
            Err(e) => exists|i: int|
                0 <= i < steno@.len() && spec_token_of(#[trigger] steno@[i]) is None && e.ch
                    == steno@[i] && (forall|j: int|
                    0 <= j < i ==> spec_token_of(#[trigger] steno@[j]) is Some),
        },
{
    let n = steno.unicode_len();
    let mut tokens: Vec<Token> = Vec::new();
    let mut i: usize = 0;
    while i < n
        invariant
            n == steno@.len(),
            i <= n,
            tokens@.len() == i,
            forall|k: int| 0 <= k < i ==> Some(tokens@[k]) == spec_token_of(#[trigger] steno@[k]),
        decreases n - i,
    {
        let c = steno.get_char(i);
        match token_of(c) {
            Some(t) => tokens.push(t),
            None => {
                return Err(InvalidChar { ch: c });
            },
        }
        i = i + 1;
    }
    Ok(tokens)
}

} // verus!
