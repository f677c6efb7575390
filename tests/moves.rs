use chess_moves::{find_moves, rule_set, Piece, Vector};

#[test]
fn rule_set_contains_kings_moves() {
    let _rules = rule_set();
    assert!(_rules.contains_key(&Piece::King));
}

#[test]
fn pawn_moves_one_forward() {
    let possible_moves = find_moves(Piece::Pawn, &Vector { x: 3, y: 3 });
    println!("{:?}", possible_moves);
    assert!(possible_moves == vec![Vector { x: 3, y: 4 }]);
}

#[test]
fn second_rank_pawn_can_make_two_moves() {
    let possible_moves = find_moves(Piece::Pawn, &Vector { x: 7, y: 2 });
    println!("{:?}", possible_moves);
    assert!(possible_moves == vec![Vector { x: 7, y: 4 }, Vector { x: 7, y: 3 }]);
}

#[test]
fn knight() {
    let possible_moves = find_moves(Piece::Knight, &Vector { x: 5, y: 3 });
    println!("{:?}", possible_moves);
    assert!(
        possible_moves
            == vec![
                Vector { x: 6, y: 5 },
                Vector { x: 7, y: 2 },
                Vector { x: 4, y: 1 },
                Vector { x: 3, y: 4 },
                Vector { x: 7, y: 4 },
                Vector { x: 6, y: 1 },
                Vector { x: 3, y: 2 },
                Vector { x: 4, y: 5 }
            ]
    );
}

#[test]
fn king() {
    let possible_moves = find_moves(Piece::King, &Vector { x: 1, y: 1 });
    println!("{:?}", possible_moves);
    assert!(
        possible_moves
            == vec![
                Vector { x: 1, y: 2 },
                Vector { x: 2, y: 1 },
                Vector { x: 1, y: 0 },
                Vector { x: 0, y: 1 },
                Vector { x: 2, y: 2 },
                Vector { x: 2, y: 0 },
                Vector { x: 0, y: 0 },
                Vector { x: 0, y: 2 }
            ]
    );
}

#[test]
fn castle() {
    let possible_moves = find_moves(Piece::Castle, &Vector { x: 3, y: 2 });
    println!("{:?}", possible_moves);
    assert!(possible_moves.contains(&Vector { x: 3, y: 3 }));
    assert!(possible_moves.contains(&Vector { x: 3, y: 7 }));
    assert!(possible_moves.contains(&Vector { x: 4, y: 2 }));
    assert!(possible_moves.contains(&Vector { x: 7, y: 2 }));
    assert!(possible_moves.contains(&Vector { x: 3, y: 1 }));
    assert!(possible_moves.contains(&Vector { x: 3, y: 0 }));
    assert!(possible_moves.contains(&Vector { x: 2, y: 2 }));
    assert!(possible_moves.contains(&Vector { x: 0, y: 2 }));
}

#[test]
fn moves_beyond_lower_bounds_of_board_not_returned() {
    let possible_moves = find_moves(Piece::Castle, &Vector { x: 3, y: 2 });
    println!("{:?}", possible_moves);
    assert!(!possible_moves.contains(&Vector { x: -1, y: 2 }));
    assert!(!possible_moves.contains(&Vector { x: 3, y: -1 }));
}

#[test]
fn moves_beyond_upper_bounds_of_board_not_returned() {
    let possible_moves = find_moves(Piece::Castle, &Vector { x: 5, y: 5 });
    println!("{:?}", possible_moves);
    assert!(!possible_moves.contains(&Vector { x: 5, y: 8 }));
    assert!(!possible_moves.contains(&Vector { x: 8, y: 5 }));
}
