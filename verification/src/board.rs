//! The boundary to the chess-rules collaborator: plain-value models of moves,
//! piece kinds and game status, an opaque position type, and the trusted
//! wrappers through which the engine asks the collaborator for legal moves,
//! move application and position status.

use vstd::prelude::*;

verus! {

/// The kind of a chess piece, as the pattern language distinguishes them.
#[derive(Clone, Copy, Debug, PartialEq, Eq, Structural)]
pub enum PieceKind {
    Pawn,
    Knight,
    Bishop,
    Rook,
    Queen,
    King,
}

/// The piece kind at a given index in the collaborator's fixed ordering
/// (pawn 0, knight 1, bishop 2, rook 3, queen 4, king 5).
pub open spec fn kind_of_index(i: int) -> PieceKind {
    if i == 0 {
        PieceKind::Pawn
    } else if i == 1 {
        PieceKind::Knight
    } else if i == 2 {
        PieceKind::Bishop
    } else if i == 3 {
        PieceKind::Rook
    } else if i == 4 {
        PieceKind::Queen
    } else {
        PieceKind::King
    }
}

/// Decode a piece kind from its index in the collaborator's ordering.
pub fn piece_kind_from_index(i: u8) -> (r: PieceKind)
    ensures
        r == kind_of_index(i as int),
{
    match i {
        0 => PieceKind::Pawn,
        1 => PieceKind::Knight,
        2 => PieceKind::Bishop,
        3 => PieceKind::Rook,
        4 => PieceKind::Queen,
        _ => PieceKind::King,
    }
}

/// The index of a piece kind in the collaborator's ordering.
pub fn piece_kind_index(k: PieceKind) -> (r: u8)
    ensures
        r < 6,
        kind_of_index(r as int) == k,
{
    match k {
        PieceKind::Pawn => 0,
        PieceKind::Knight => 1,
        PieceKind::Bishop => 2,
        PieceKind::Rook => 3,
        PieceKind::Queen => 4,
        PieceKind::King => 5,
    }
}

/// The status of a position, as the collaborator reports it.
#[derive(Clone, Copy, Debug, PartialEq, Eq, Structural)]
pub enum GameStatus {
    Ongoing,
    Stalemate,
    Checkmate,
}

/// One ply as plain coordinates: source and destination square, each given
/// as a file index (0 = file a .. 7 = file h) and a rank index (0 = rank 1
/// .. 7 = rank 8), plus the promotion piece if the move promotes.
#[derive(Clone, Copy, Debug, PartialEq, Eq)]
pub struct Ply {
    pub src_file: u8,
    pub src_rank: u8,
    pub dst_file: u8,
    pub dst_rank: u8,
    pub promo: Option<PieceKind>,
}

impl Ply {
    /// Both coordinate pairs denote squares of the board.
    pub open spec fn wf(self) -> bool {
        self.src_file < 8 && self.src_rank < 8 && self.dst_file < 8 && self.dst_rank < 8
    }
}

/// Whether two plies are the same move.
pub fn ply_eq(a: &Ply, b: &Ply) -> (r: bool)
    ensures
        r == (*a == *b),
{
    let promo_same = match (a.promo, b.promo) {
        (None, None) => true,
        (Some(x), Some(y)) => x == y,
        _ => false,
    };
    promo_same && a.src_file == b.src_file && a.src_rank == b.src_rank && a.dst_file == b.dst_file
        && a.dst_rank == b.dst_rank
}

#[verifier::external_type_specification]
#[verifier::external_body]
pub struct ExBoard(chess::Board);

/// A board position reached from the standard starting position by the moves
/// of `path`. The board itself comes from the chess-rules collaborator and is
/// opaque; the ghost path identifies the position in contracts, and the named
/// results below say what the collaborator answers about it.
///
/// The fields are private, and the only constructors are `Position::start`
/// and `Position::apply`, so in every value the board is the one the
/// collaborator reaches by playing the ghost path from its starting board;
/// the contracts of the reading wrappers below rely on that correspondence.
pub struct Position {
    board: chess::Board,
    path: Ghost<Seq<Ply>>,
}

/// The legal moves of the position reached by playing `path` from the
/// starting position, in the order the collaborator's generator yields them.
pub uninterp spec fn legal_after(path: Seq<Ply>) -> Seq<Ply>;

/// The status the collaborator reports for the position reached by `path`:
/// checkmate or stalemate when no legal move exists, ongoing otherwise.
pub uninterp spec fn status_after(path: Seq<Ply>) -> GameStatus;

/// How many enemy pieces give check to the side to move in the position
/// reached by `path`.
pub uninterp spec fn checkers_after(path: Seq<Ply>) -> u32;

/// The piece standing on the square `(file, rank)` in the position reached
/// by `path`, if any.
pub uninterp spec fn piece_after(path: Seq<Ply>, file: u8, rank: u8) -> Option<PieceKind>;

/// Whether the side to move is in check in the position reached by `path`.
pub open spec fn in_check_after(path: Seq<Ply>) -> bool {
    checkers_after(path) > 0
}

/// Relies on chess::Board::default, which builds the standard starting
/// position.
#[verifier::external_body]
fn collab_default_board() -> chess::Board {
    chess::Board::default()
}

/// Relies on chess::MoveGen::new_legal, which yields exactly the legal moves
/// of a board, each a source square, a destination square and an optional
/// promotion piece; squares convert through File/Rank::to_index (0..7) and
/// pieces through Piece::to_index (pawn 0 .. king 5).
#[verifier::external_body]
fn collab_legal_moves(p: &Position) -> (r: Vec<Ply>)
    ensures
        r@ == legal_after(p.path()),
        forall|i: int| 0 <= i < r@.len() ==> (#[trigger] r@[i]).wf(),
{
    let mut v: Vec<Ply> = Vec::new();
    for m in chess::MoveGen::new_legal(&p.board) {
        v.push(Ply {
            src_file: m.get_source().get_file().to_index() as u8,
            src_rank: m.get_source().get_rank().to_index() as u8,
            dst_file: m.get_dest().get_file().to_index() as u8,
            dst_rank: m.get_dest().get_rank().to_index() as u8,
            promo: m.get_promotion().map(|q| piece_kind_from_index(q.to_index() as u8)),
        });
    }
    v
}

/// Relies on chess::Board::make_move_new, which applies a legal move to a
/// board and returns the resulting board without touching its input, and on
/// ChessMove being exactly a source square, a destination square and an
/// optional promotion piece (chess::ALL_PIECES lists pieces by index).
#[verifier::external_body]
fn collab_make_move(p: &Position, m: &Ply) -> chess::Board
    requires
        legal_after(p.path()).contains(*m),
        m.wf(),
{
    let cm = chess::ChessMove::new(
        chess::Square::make_square(
            chess::Rank::from_index(m.src_rank as usize),
            chess::File::from_index(m.src_file as usize),
        ),
        chess::Square::make_square(
            chess::Rank::from_index(m.dst_rank as usize),
            chess::File::from_index(m.dst_file as usize),
        ),
        m.promo.map(|k| chess::ALL_PIECES[piece_kind_index(k) as usize]),
    );
    p.board.make_move_new(cm)
}

/// Relies on chess::Board::status, which reports checkmate or stalemate when
/// the board has no legal moves (by whether the king is in check), and
/// ongoing otherwise.
#[verifier::external_body]
fn collab_status(p: &Position) -> (r: GameStatus)
    ensures
        r == status_after(p.path()),
{
    match p.board.status() {
        chess::BoardStatus::Ongoing => GameStatus::Ongoing,
        chess::BoardStatus::Stalemate => GameStatus::Stalemate,
        chess::BoardStatus::Checkmate => GameStatus::Checkmate,
    }
}

/// Relies on chess::Board::checkers, the set of pieces that currently give
/// check to the side to move, counted by BitBoard::popcnt.
#[verifier::external_body]
fn collab_checkers_count(p: &Position) -> (r: u32)
    ensures
        r == checkers_after(p.path()),
{
    p.board.checkers().popcnt()
}

/// Relies on chess::Board::piece_on, which returns the piece standing on a
/// square, if any; squares build from file/rank indices (0..7) and pieces
/// convert through Piece::to_index (pawn 0 .. king 5).
#[verifier::external_body]
fn collab_piece_on(p: &Position, file: u8, rank: u8) -> (r: Option<PieceKind>)
    requires
        file < 8,
        rank < 8,
    ensures
        r == piece_after(p.path(), file, rank),
{
    let sq = chess::Square::make_square(
        chess::Rank::from_index(rank as usize),
        chess::File::from_index(file as usize),
    );
    p.board.piece_on(sq).map(|q| piece_kind_from_index(q.to_index() as u8))
}

impl Position {
    /// The moves played from the starting position to reach this one.
    pub closed spec fn path(self) -> Seq<Ply> {
        self.path@
    }

    /// The standard starting position.
    pub fn start() -> (r: Position)
        ensures
            r.path() == Seq::<Ply>::empty(),
    {
        Position { board: collab_default_board(), path: Ghost(Seq::empty()) }
    }

    /// All legal moves of this position.
    pub fn legal_moves(&self) -> (r: Vec<Ply>)
        ensures
            r@ == legal_after(self.path()),
            forall|i: int| 0 <= i < r@.len() ==> (#[trigger] r@[i]).wf(),
    {
        collab_legal_moves(self)
    }

    /// The position after playing the legal move `m` here.
    pub(crate) fn apply(&self, m: &Ply) -> (r: Position)
        requires
            legal_after(self.path()).contains(*m),
            m.wf(),
        ensures
            r.path() == self.path().push(*m),
    {
        Position { board: collab_make_move(self, m), path: Ghost(self.path().push(*m)) }
    }

    /// Play `m` if it is legal here; report an illegal move as `None`.
    pub fn play(&self, m: &Ply) -> (r: Option<Position>)
        ensures
            match r {
                Some(q) => legal_after(self.path()).contains(*m) && q.path() == self.path().push(
                    *m,
                ),
                None => !legal_after(self.path()).contains(*m),
            },
    {
        let moves = self.legal_moves();
        let n = moves.len();
        let mut i: usize = 0;
        while i < n
            invariant
                n == moves@.len(),
                moves@ == legal_after(self.path()),
                forall|j: int| 0 <= j < moves@.len() ==> (#[trigger] moves@[j]).wf(),
                forall|j: int| 0 <= j < i ==> moves@[j] != *m,
            decreases n - i,
        {
            if ply_eq(&moves[i], m) {
                assert(legal_after(self.path()).contains(*m));
                return Some(self.apply(m));
            }
            i = i + 1;
        }
        assert(!legal_after(self.path()).contains(*m));
        None
    }

    /// The collaborator's status of this position.
    pub fn status(&self) -> (r: GameStatus)
        ensures
            r == status_after(self.path()),
    {
        collab_status(self)
    }

    /// Whether the side to move is in check here.
    pub fn in_check(&self) -> (r: bool)
        ensures
            r == in_check_after(self.path()),
    {
        collab_checkers_count(self) > 0
    }

    /// The piece standing on the square `(file, rank)` here, if any.
    pub fn piece_on(&self, file: u8, rank: u8) -> (r: Option<PieceKind>)
        requires
            file < 8,
            rank < 8,
        ensures
            r == piece_after(self.path(), file, rank),
    {
        collab_piece_on(self, file, rank)
    }
}

} // verus!
