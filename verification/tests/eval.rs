use chess_steno::board::GameStatus;
use chess_steno::board::PieceKind;
use chess_steno::board::Ply;
use chess_steno::board::Position;
use chess_steno::eval::PlyFacts;
use chess_steno::eval::gather_facts;
use chess_steno::eval::satisfies;
use chess_steno::pattern::Token;

fn mv(sf: u8, sr: u8, df: u8, dr: u8) -> Ply {
    Ply { src_file: sf, src_rank: sr, dst_file: df, dst_rank: dr, promo: None }
}

fn quiet_facts(m: Ply) -> PlyFacts {
    PlyFacts {
        mv: m,
        moved: Some(PieceKind::Knight),
        captured: None,
        in_check: false,
        status: GameStatus::Ongoing,
    }
}

#[test]
fn wildcard_always_matches() {
    let f = quiet_facts(mv(6, 0, 5, 2));
    assert!(satisfies(&Token::Wildcard, &f));
    let g = PlyFacts { in_check: true, status: GameStatus::Checkmate, ..f };
    assert!(satisfies(&Token::Wildcard, &g));
}

#[test]
fn target_rank_and_file_check_destination() {
    let f = quiet_facts(mv(6, 0, 5, 2));
    assert!(satisfies(&Token::TargetRank(2), &f));
    assert!(!satisfies(&Token::TargetRank(3), &f));
    assert!(satisfies(&Token::TargetFile(5), &f));
    assert!(!satisfies(&Token::TargetFile(6), &f));
}

#[test]
fn plain_capture_satisfies_capture_but_not_en_passant() {
    let mut f = quiet_facts(mv(4, 3, 3, 4));
    f.moved = Some(PieceKind::Pawn);
    f.captured = Some(PieceKind::Pawn);
    assert!(satisfies(&Token::IsCapture, &f));
    assert!(!satisfies(&Token::IsEnPassant, &f));
}

#[test]
fn en_passant_shape_satisfies_both_capture_tokens() {
    let mut f = quiet_facts(mv(4, 4, 3, 5));
    f.moved = Some(PieceKind::Pawn);
    f.captured = None;
    assert!(satisfies(&Token::IsCapture, &f));
    assert!(satisfies(&Token::IsEnPassant, &f));
}

#[test]
fn quiet_pawn_push_is_no_capture() {
    let mut f = quiet_facts(mv(4, 1, 4, 3));
    f.moved = Some(PieceKind::Pawn);
    assert!(!satisfies(&Token::IsCapture, &f));
    assert!(!satisfies(&Token::IsEnPassant, &f));
}

#[test]
fn diagonal_non_pawn_to_empty_square_is_no_capture() {
    let mut f = quiet_facts(mv(2, 0, 6, 4));
    f.moved = Some(PieceKind::Bishop);
    assert!(!satisfies(&Token::IsCapture, &f));
    assert!(!satisfies(&Token::IsEnPassant, &f));
}

#[test]
fn check_mate_and_stalemate_tokens_read_status() {
    let mut f = quiet_facts(mv(3, 7, 7, 3));
    f.in_check = true;
    f.status = GameStatus::Checkmate;
    assert!(satisfies(&Token::GivesCheck, &f));
    assert!(satisfies(&Token::IsCheckmate, &f));
    assert!(!satisfies(&Token::IsStalemate, &f));
    f.in_check = false;
    f.status = GameStatus::Stalemate;
    assert!(!satisfies(&Token::GivesCheck, &f));
    assert!(!satisfies(&Token::IsCheckmate, &f));
    assert!(satisfies(&Token::IsStalemate, &f));
}

#[test]
fn moved_piece_token_compares_kinds() {
    let mut f = quiet_facts(mv(3, 0, 3, 3));
    f.moved = Some(PieceKind::Queen);
    assert!(satisfies(&Token::MovedPiece(PieceKind::Queen), &f));
    assert!(!satisfies(&Token::MovedPiece(PieceKind::King), &f));
    f.moved = None;
    assert!(!satisfies(&Token::MovedPiece(PieceKind::Queen), &f));
}

#[test]
fn castle_tokens_need_king_on_canonical_squares() {
    let mut f = quiet_facts(mv(4, 0, 6, 0));
    f.moved = Some(PieceKind::King);
    assert!(satisfies(&Token::CastleKingside, &f));
    assert!(!satisfies(&Token::CastleQueenside, &f));

    let mut g = quiet_facts(mv(4, 7, 2, 7));
    g.moved = Some(PieceKind::King);
    assert!(satisfies(&Token::CastleQueenside, &g));
    assert!(!satisfies(&Token::CastleKingside, &g));

    let mut h = quiet_facts(mv(4, 0, 6, 0));
    h.moved = Some(PieceKind::Rook);
    assert!(!satisfies(&Token::CastleKingside, &h));

    let mut k = quiet_facts(mv(4, 1, 6, 1));
    k.moved = Some(PieceKind::King);
    assert!(!satisfies(&Token::CastleKingside, &k));
}

#[test]
fn promotion_token_compares_promoted_kind() {
    let mut m = mv(0, 6, 0, 7);
    m.promo = Some(PieceKind::Queen);
    let mut f = quiet_facts(m);
    f.moved = Some(PieceKind::Pawn);
    assert!(satisfies(&Token::PromotedTo(PieceKind::Queen), &f));
    assert!(!satisfies(&Token::PromotedTo(PieceKind::Rook), &f));
    f.mv.promo = None;
    assert!(!satisfies(&Token::PromotedTo(PieceKind::Queen), &f));
}

#[test]
fn start_position_answers_basic_queries() {
    let p = Position::start();
    assert_eq!(p.legal_moves().len(), 20);
    assert_eq!(p.piece_on(4, 0), Some(PieceKind::King));
    assert_eq!(p.piece_on(3, 0), Some(PieceKind::Queen));
    assert_eq!(p.piece_on(0, 1), Some(PieceKind::Pawn));
    assert_eq!(p.piece_on(4, 3), None);
    assert!(!p.in_check());
    assert_eq!(p.status(), GameStatus::Ongoing);
}

#[test]
fn play_applies_legal_moves_and_rejects_illegal_ones() {
    let p = Position::start();
    let after = p.play(&mv(4, 1, 4, 3)).unwrap();
    assert_eq!(after.piece_on(4, 3), Some(PieceKind::Pawn));
    assert_eq!(after.piece_on(4, 1), None);
    assert!(p.play(&mv(0, 0, 7, 7)).is_none());
    assert!(p.play(&mv(4, 1, 4, 4)).is_none());
}

#[test]
fn live_en_passant_is_the_only_en_passant_ply() {
    // 1. e4 a6 2. e5 d5 reaches a position where exd6 en passant is legal.
    let p0 = Position::start();
    let p1 = p0.play(&mv(4, 1, 4, 3)).unwrap();
    let p2 = p1.play(&mv(0, 6, 0, 5)).unwrap();
    let p3 = p2.play(&mv(4, 3, 4, 4)).unwrap();
    let p4 = p3.play(&mv(3, 6, 3, 4)).unwrap();

    let ep = mv(4, 4, 3, 5);
    let mut saw_ep = false;
    for m in p4.legal_moves() {
        let after = p4.play(&m).unwrap();
        let facts = gather_facts(&p4, &after, &m);
        let is_ep = satisfies(&Token::IsEnPassant, &facts);
        assert_eq!(is_ep, m == ep);
        if is_ep {
            saw_ep = true;
            assert!(satisfies(&Token::IsCapture, &facts));
        }
    }
    assert!(saw_ep);
}

#[test]
fn live_plain_capture_satisfies_capture_only() {
    // 1. e4 d5 2. exd5 is an ordinary capture.
    let p0 = Position::start();
    let p1 = p0.play(&mv(4, 1, 4, 3)).unwrap();
    let p2 = p1.play(&mv(3, 6, 3, 4)).unwrap();
    let take = mv(4, 3, 3, 4);
    let p3 = p2.play(&take).unwrap();
    let facts = gather_facts(&p2, &p3, &take);
    assert_eq!(facts.captured, Some(PieceKind::Pawn));
    assert!(satisfies(&Token::IsCapture, &facts));
    assert!(!satisfies(&Token::IsEnPassant, &facts));
}

#[test]
fn live_promotion_satisfies_promotion_token() {
    // 1. h4 g5 2. hxg5 Bg7 3. g6 Be5 4. gxh7 Nc6 leaves hxg8 promoting.
    let moves = [
        mv(7, 1, 7, 3),
        mv(6, 6, 6, 4),
        mv(7, 3, 6, 4),
        mv(5, 7, 6, 6),
        mv(6, 4, 6, 5),
        mv(6, 6, 4, 4),
        mv(6, 5, 7, 6),
        mv(1, 7, 2, 5),
    ];
    let mut pos = Position::start();
    for m in &moves {
        pos = pos.play(m).expect("the prepared line is legal");
    }
    let mut promote = mv(7, 6, 6, 7);
    promote.promo = Some(PieceKind::Queen);
    let after = pos.play(&promote).expect("the capture-promotion is legal");
    let facts = gather_facts(&pos, &after, &promote);
    assert!(satisfies(&Token::PromotedTo(PieceKind::Queen), &facts));
    assert!(!satisfies(&Token::PromotedTo(PieceKind::Rook), &facts));
    assert!(satisfies(&Token::IsCapture, &facts));
    assert!(!satisfies(&Token::IsEnPassant, &facts));

    let mut under = mv(7, 6, 6, 7);
    under.promo = Some(PieceKind::Rook);
    let after_rook = pos.play(&under).expect("underpromotion is a separate legal move");
    let rook_facts = gather_facts(&pos, &after_rook, &under);
    assert!(satisfies(&Token::PromotedTo(PieceKind::Rook), &rook_facts));
    assert!(!satisfies(&Token::PromotedTo(PieceKind::Queen), &rook_facts));
}

#[test]
fn live_queenside_castle_satisfies_castle_token() {
    // 1. d4 a6 2. Bf4 a5 3. Nc3 a4 4. Qd2 Ra5 clears the queenside.
    let moves = [
        mv(3, 1, 3, 3),
        mv(0, 6, 0, 5),
        mv(2, 0, 5, 3),
        mv(0, 5, 0, 4),
        mv(1, 0, 2, 2),
        mv(0, 4, 0, 3),
        mv(3, 0, 3, 1),
        mv(0, 7, 0, 4),
    ];
    let mut pos = Position::start();
    for m in &moves {
        pos = pos.play(m).expect("the prepared line is legal");
    }
    let castle = mv(4, 0, 2, 0);
    let after = pos.play(&castle).expect("queenside castling is legal here");
    let facts = gather_facts(&pos, &after, &castle);
    assert!(satisfies(&Token::CastleQueenside, &facts));
    assert!(!satisfies(&Token::CastleKingside, &facts));
    assert!(satisfies(&Token::MovedPiece(PieceKind::King), &facts));
}

#[test]
fn live_fastest_stalemate_satisfies_stalemate_token() {
    // The ten-move stalemate: 1. e3 a5 2. Qh5 Ra6 3. Qxa5 h5 4. Qxc7 Rah6
    // 5. h4 f6 6. Qxd7+ Kf7 7. Qxb7 Qd3 8. Qxb8 Qh7 9. Qxc8 Kg6 10. Qe6.
    let moves = [
        mv(4, 1, 4, 2),
        mv(0, 6, 0, 4),
        mv(3, 0, 7, 4),
        mv(0, 7, 0, 5),
        mv(7, 4, 0, 4),
        mv(7, 6, 7, 4),
        mv(0, 4, 2, 6),
        mv(0, 5, 7, 5),
        mv(7, 1, 7, 3),
        mv(5, 6, 5, 5),
        mv(2, 6, 3, 6),
        mv(4, 7, 5, 6),
        mv(3, 6, 1, 6),
        mv(3, 7, 3, 2),
        mv(1, 6, 1, 7),
        mv(3, 2, 7, 6),
        mv(1, 7, 2, 7),
        mv(5, 6, 6, 5),
    ];
    let mut pos = Position::start();
    for m in &moves {
        pos = pos.play(m).expect("the prepared line is legal");
    }
    let last = mv(2, 7, 4, 5);
    let after = pos.play(&last).expect("the stalemating move is legal");
    assert_eq!(after.status(), GameStatus::Stalemate);
    assert!(!after.in_check());
    let facts = gather_facts(&pos, &after, &last);
    assert!(satisfies(&Token::IsStalemate, &facts));
    assert!(!satisfies(&Token::IsCheckmate, &facts));
}

#[test]
fn live_fools_mate_is_checkmate() {
    // 1. f3 e5 2. g4 Qh4# is the fastest mate.
    let p0 = Position::start();
    let p1 = p0.play(&mv(5, 1, 5, 2)).unwrap();
    let p2 = p1.play(&mv(4, 6, 4, 4)).unwrap();
    let p3 = p2.play(&mv(6, 1, 6, 3)).unwrap();
    let mate = mv(3, 7, 7, 3);
    let p4 = p3.play(&mate).unwrap();
    assert_eq!(p4.status(), GameStatus::Checkmate);
    assert!(p4.in_check());
    let facts = gather_facts(&p3, &p4, &mate);
    assert!(satisfies(&Token::IsCheckmate, &facts));
    assert!(satisfies(&Token::GivesCheck, &facts));
    assert!(satisfies(&Token::MovedPiece(PieceKind::Queen), &facts));
}
