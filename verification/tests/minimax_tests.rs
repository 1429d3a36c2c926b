use std::cell::Cell;
use std::time::{Duration, Instant};

use spelldawn_rules::error::GameError;
use spelldawn_rules::minimax::{
    deadline_exceeded, run_internal, search_with, GameTreeEdge, GameTreeNode, MinimaxAlgorithm, ScoredAction,
};
use spelldawn_rules::primitives::Side;

fn leaf(overlord: i64, champion: i64) -> GameTreeNode {
    GameTreeNode { current_turn: None, overlord_value: overlord, champion_value: champion, children: vec![] }
}

fn node(turn: Side, children: Vec<(u64, GameTreeNode)>) -> GameTreeNode {
    GameTreeNode {
        current_turn: Some(turn),
        overlord_value: 0,
        champion_value: 0,
        children: children.into_iter().map(|(action, node)| GameTreeEdge { action, node }).collect(),
    }
}

fn far() -> Instant {
    Instant::now() + Duration::from_secs(600)
}

#[test]
fn picks_best_action_for_player() {
    let tree = node(Side::Champion, vec![(1, leaf(0, 3)), (2, leaf(0, 7)), (3, leaf(0, 5))]);
    let (result, complete) = run_internal(&far(), &tree, 1, Side::Champion);
    assert!(complete);
    assert_eq!(result.score, 7);
    assert_eq!(result.action, Some(2));
    let algorithm = MinimaxAlgorithm { search_depth: 1 };
    assert_eq!(algorithm.pick_action(&far(), &tree, Side::Champion), Ok(2));
}

#[test]
fn opponent_minimizes() {
    let tree = node(
        Side::Champion,
        vec![
            (1, node(Side::Overlord, vec![(10, leaf(0, 9)), (11, leaf(0, 1))])),
            (2, node(Side::Overlord, vec![(20, leaf(0, 4)), (21, leaf(0, 6))])),
        ],
    );
    let (result, complete) = run_internal(&far(), &tree, 2, Side::Champion);
    assert!(complete);
    assert_eq!(result.score, 4);
    assert_eq!(result.action, Some(2));
}

#[test]
fn depth_zero_evaluates() {
    let tree = node(Side::Champion, vec![(1, leaf(0, 3))]);
    let (result, complete) = run_internal(&far(), &tree, 0, Side::Champion);
    assert!(complete);
    assert_eq!(result.action, None);
    let algorithm = MinimaxAlgorithm { search_depth: 0 };
    assert_eq!(algorithm.pick_action(&far(), &tree, Side::Champion), Err(GameError::NoActionSelected));
}

#[test]
fn no_children_no_action() {
    let tree = node(Side::Overlord, vec![]);
    let algorithm = MinimaxAlgorithm { search_depth: 3 };
    assert_eq!(algorithm.pick_action(&far(), &tree, Side::Overlord), Err(GameError::NoActionSelected));
}

#[test]
fn scored_action_keeps_best() {
    let mut s = ScoredAction::new(i64::MIN);
    s.insert_max(1, 5);
    s.insert_max(2, 3);
    assert_eq!(s.score(), 5);
    assert_eq!(s.action(), Ok(1));
    let mut m = ScoredAction::new(i64::MAX).with_fallback_action(9);
    assert_eq!(m.action(), Ok(9));
    m.insert_min(4, 2);
    m.insert_min(5, 8);
    assert_eq!(m.score(), 2);
    assert_eq!(m.action(), Ok(4));
    assert_eq!(ScoredAction::new(0).action(), Err(GameError::NoActionSelected));
}

fn three_ply() -> GameTreeNode {
    node(
        Side::Champion,
        vec![
            (1, node(Side::Overlord, vec![(10, node(Side::Champion, vec![(100, leaf(0, 9)), (101, leaf(0, 2))])), (11, leaf(0, 1))])),
            (2, node(Side::Overlord, vec![(20, node(Side::Champion, vec![(200, leaf(0, 3)), (201, leaf(0, 5))])), (21, leaf(0, 6))])),
        ],
    )
}

#[test]
fn search_without_deadline_completes_deep() {
    let (result, complete) = search_with(10, &|| 10u128, &three_ply(), 3, Side::Champion);
    assert!(complete);
    assert_eq!(result.score, 5);
    assert_eq!(result.action, Some(2));
    let algorithm = MinimaxAlgorithm { search_depth: 3 };
    assert_eq!(algorithm.pick_action_with(10, &|| 0u128, &three_ply(), Side::Champion), Ok(2));
}

#[test]
fn search_stops_when_deadline_passed() {
    let (result, complete) = search_with(10, &|| 11u128, &three_ply(), 3, Side::Champion);
    assert!(!complete);
    assert_eq!(result, ScoredAction { score: i64::MIN, action: Some(1) });
}

#[test]
fn cut_short_search_keeps_best_so_far() {
    // The clock passes the deadline after four readings: the first child is
    // searched completely, and the search of the second is cut short before
    // its first child, so its partial score (the opponent's starting value)
    // is counted.
    let reads = Cell::new(0u32);
    let clock = || {
        reads.set(reads.get() + 1);
        if reads.get() > 4 { 100u128 } else { 0u128 }
    };
    let (result, complete) = search_with(50, &clock, &three_ply(), 3, Side::Champion);
    assert!(!complete);
    assert_eq!(result, ScoredAction { score: i64::MAX, action: Some(2) });
}

#[test]
fn deadline_is_checked_high_in_the_tree_only() {
    assert!(deadline_exceeded(5, 6, 2));
    assert!(!deadline_exceeded(5, 5, 2));
    assert!(!deadline_exceeded(5, 4, 3));
    assert!(!deadline_exceeded(5, 6, 1));
}
