//! The Minimax search algorithm, one of the simplest tree search algorithms,
//! over an explicit game tree.

use vstd::prelude::*;

use std::time::Instant;

use crate::error::GameError;
use crate::primitives::Side;

verus! {

/// The clock type of std.
#[verifier::external_type_specification]
#[verifier::external_body]
pub struct ExInstant(std::time::Instant);

/// Calls `Instant::now`. Promises nothing of the reading, which depends on
/// the machine's clock.
#[verifier::external_body]
fn instant_now() -> Instant {
    Instant::now()
}

/// Calls `Instant::checked_duration_since` on `later` and `earlier`, and
/// gives the duration found, if any, in nanoseconds. No property of the
/// answer is stated: an instant has no value that the contracts can see.
#[verifier::external_body]
fn duration_past(later: &Instant, earlier: &Instant) -> Option<u128> {
    match later.checked_duration_since(*earlier) {
        Some(d) => Some(d.as_nanos()),
        None => None,
    }
}

/// How far the clock is past `deadline` now, in nanoseconds: 0 while the
/// deadline is still ahead or has just been reached. Measured this way the
/// deadline itself is 0, and it has passed exactly when the reading is
/// greater than 0.
fn clock_past(deadline: &Instant) -> u128 {
    match duration_past(&instant_now(), deadline) {
        Some(n) => n,
        None => 0,
    }
}

/// A state of a game as the search sees it: whose turn it is (none once the
/// game is over), what the state is worth to each player, and the state which
/// each legal action leads to.
pub struct GameTreeNode {
    pub current_turn: Option<Side>,
    pub overlord_value: i64,
    pub champion_value: i64,
    pub children: Vec<GameTreeEdge>,
}

/// A legal action and the state it leads to.
pub struct GameTreeEdge {
    pub action: u64,
    pub node: GameTreeNode,
}

/// What `node` is worth to `player`.
pub open spec fn evaluation(node: GameTreeNode, player: Side) -> i64 {
    match player {
        Side::Overlord => node.overlord_value,
        Side::Champion => node.champion_value,
    }
}

/// The minimax value of `node` for `player`, searching `depth` moves ahead:
/// the evaluation at the search horizon or at the end of the game; otherwise
/// the best child value for `player` on their own turn and the worst one on
/// their opponent's. A node without children is worth the least value on
/// `player`'s turn and the greatest on the opponent's.
pub open spec fn minimax_value(node: GameTreeNode, depth: nat, player: Side) -> int
    decreases depth, 0int, 0int,
{
    if depth == 0 || node.current_turn is None {
        evaluation(node, player) as int
    } else if node.current_turn == Some(player) {
        max_child_value(node.children@, (depth - 1) as nat, player)
    } else {
        min_child_value(node.children@, (depth - 1) as nat, player)
    }
}

/// The greatest minimax value among `children`, or the least `i64` when
/// there are none.
pub open spec fn max_child_value(children: Seq<GameTreeEdge>, depth: nat, player: Side) -> int
    decreases depth, 1int, children.len(),
{
    if children.len() == 0 {
        i64::MIN as int
    } else {
        let rest = max_child_value(children.drop_last(), depth, player);
        let last = minimax_value(children.last().node, depth, player);
        if last > rest {
            last
        } else {
            rest
        }
    }
}

/// The least minimax value among `children`, or the greatest `i64` when
/// there are none.
pub open spec fn min_child_value(children: Seq<GameTreeEdge>, depth: nat, player: Side) -> int
    decreases depth, 1int, children.len(),
{
    if children.len() == 0 {
        i64::MAX as int
    } else {
        let rest = min_child_value(children.drop_last(), depth, player);
        let last = minimax_value(children.last().node, depth, player);
        if last < rest {
            last
        } else {
            rest
        }
    }
}

/// Every minimax value lies within the range of `i64`.
pub proof fn lemma_minimax_in_range(node: GameTreeNode, depth: nat, player: Side)
    ensures
        i64::MIN <= minimax_value(node, depth, player) <= i64::MAX,
    decreases depth, 0int, 0int,
{
    if depth == 0 || node.current_turn is None {
    } else if node.current_turn == Some(player) {
        lemma_children_in_range(node.children@, (depth - 1) as nat, player);
    } else {
        lemma_children_in_range(node.children@, (depth - 1) as nat, player);
    }
}

/// The extreme child values lie within the range of `i64`.
pub proof fn lemma_children_in_range(children: Seq<GameTreeEdge>, depth: nat, player: Side)
    ensures
        i64::MIN <= max_child_value(children, depth, player) <= i64::MAX,
        i64::MIN <= min_child_value(children, depth, player) <= i64::MAX,
    decreases depth, 1int, children.len(),
{
    if children.len() > 0 {
        lemma_children_in_range(children.drop_last(), depth, player);
        lemma_minimax_in_range(children.last().node, depth, player);
    }
}

/// A score, and the action which achieves it once one has been chosen.
#[derive(Debug, Clone, Copy, PartialEq, Eq, Structural)]
pub struct ScoredAction {
    pub score: i64,
    pub action: Option<u64>,
}

impl ScoredAction {
    pub fn new(score: i64) -> (r: ScoredAction)
        ensures
            r.score == score,
            r.action is None,
    {
        ScoredAction { score, action: None }
    }

    /// This result, with `action` as its action when none was chosen.
    pub fn with_fallback_action(self, action: u64) -> (r: ScoredAction)
        ensures
            r.score == self.score,
            r.action == match self.action {
                Some(a) => Some(a),
                None => Some(action),
            },
    {
        match self.action {
            Some(_) => self,
            None => ScoredAction { score: self.score, action: Some(action) },
        }
    }

    /// Takes `action` with `score` when no action was chosen yet or when it
    /// scores higher.
    pub fn insert_max(&mut self, action: u64, score: i64)
        ensures
            if old(self).action is None || score > old(self).score {
                *final(self) == (ScoredAction { score, action: Some(action) })
            } else {
                *final(self) == *old(self)
            },
    {
        if self.action.is_none() || score > self.score {
            self.score = score;
            self.action = Some(action);
        }
    }

    /// Takes `action` with `score` when no action was chosen yet or when it
    /// scores lower.
    pub fn insert_min(&mut self, action: u64, score: i64)
        ensures
            if old(self).action is None || score < old(self).score {
                *final(self) == (ScoredAction { score, action: Some(action) })
            } else {
                *final(self) == *old(self)
            },
    {
        if self.action.is_none() || score < self.score {
            self.score = score;
            self.action = Some(action);
        }
    }

    pub fn score(&self) -> (r: i64)
        ensures
            r == self.score,
    {
        self.score
    }

    /// The chosen action, or an error when none was chosen.
    pub fn action(&self) -> (r: Result<u64, GameError>)
        ensures
            match self.action {
                Some(a) => r == Ok::<u64, GameError>(a),
                None => r == Err::<u64, GameError>(GameError::NoActionSelected),
            },
    {
        match self.action {
            Some(a) => Ok(a),
            None => Err(GameError::NoActionSelected),
        }
    }
}

/// Whether the search should stop at `depth`, the clock reading `now`:
/// only the higher parts of the tree look at the clock, and only once
/// `deadline` is before `now`.
pub fn deadline_exceeded(deadline: u128, now: u128, depth: u32) -> (r: bool)
    ensures
        r == (depth > 1 && deadline < now),
{
    depth > 1 && deadline < now
}

/// `action` is the action of one of `children` whose value is `score`.
pub open spec fn achieved_by(children: Seq<GameTreeEdge>, action: u64, score: int, depth: nat, player: Side) -> bool {
    exists|i: int|
        0 <= i < children.len() && #[trigger] children[i].action == action && minimax_value(
            children[i].node,
            depth,
            player,
        ) == score
}

/// `action` is the action of one of `children`.
pub open spec fn is_child_action(children: Seq<GameTreeEdge>, action: u64) -> bool {
    exists|i: int| 0 <= i < children.len() && #[trigger] children[i].action == action
}

/// No reading of `clock` is past `deadline`.
pub open spec fn never_past<F: Fn() -> u128>(deadline: u128, clock: &F) -> bool {
    forall|t: u128| #[trigger] clock.ensures((), t) ==> t <= deadline
}

/// The result a node starts from before any child is searched: the least
/// score when `player` maximizes, the greatest otherwise, and no action.
pub open spec fn initial_result(maximize: bool) -> ScoredAction {
    ScoredAction { score: if maximize { i64::MIN } else { i64::MAX }, action: None }
}

/// `acc` once the child reached by `action`, worth `score`, was considered:
/// it is taken when no action was chosen yet or when it scores better.
pub open spec fn with_choice(acc: ScoredAction, action: u64, score: i64, maximize: bool) -> ScoredAction {
    if acc.action is None || (maximize && score > acc.score) || (!maximize && score < acc.score) {
        ScoredAction { score, action: Some(action) }
    } else {
        acc
    }
}

/// `acc`, with `action` as its action when none was chosen.
pub open spec fn with_fallback(acc: ScoredAction, action: u64) -> ScoredAction {
    match acc.action {
        Some(_) => acc,
        None => ScoredAction { score: acc.score, action: Some(action) },
    }
}

/// The result once the first `k` of `children` were searched completely,
/// `depth` moves ahead, in order.
pub open spec fn best_of_prefix(
    children: Seq<GameTreeEdge>,
    k: nat,
    depth: nat,
    player: Side,
    maximize: bool,
) -> ScoredAction
    decreases k,
{
    if k == 0 {
        initial_result(maximize)
    } else {
        with_choice(
            best_of_prefix(children, (k - 1) as nat, depth, player, maximize),
            children[k - 1].action,
            minimax_value(children[k - 1].node, depth, player) as i64,
            maximize,
        )
    }
}

/// What a search of `node`, `depth` moves ahead, returns when it is cut
/// short along `trail`: at this node the children before child `trail[0]`
/// were searched completely; then, when `trail` ends here, the deadline had
/// passed before that child, more than one move above the horizon, and the
/// result is the best found so far or else that child's action; otherwise
/// the search of that child was cut short along the rest of `trail` and
/// its partial score was counted. `None` when `trail` is no such path.
pub open spec fn cut_result(node: GameTreeNode, depth: nat, player: Side, trail: Seq<nat>) -> Option<
    ScoredAction,
>
    decreases depth,
{
    if depth == 0 || node.current_turn is None || trail.len() == 0 || trail[0]
        >= node.children@.len() {
        None
    } else {
        let maximize = node.current_turn == Some(player);
        let d = (depth - 1) as nat;
        let k = trail[0];
        let edge = node.children@[k as int];
        let acc = best_of_prefix(node.children@, k, d, player, maximize);
        if trail.len() == 1 {
            if depth > 1 {
                Some(with_fallback(acc, edge.action))
            } else {
                None
            }
        } else {
            match cut_result(edge.node, d, player, trail.drop_first()) {
                Some(c) => Some(with_choice(acc, edge.action, c.score, maximize)),
                None => None,
            }
        }
    }
}

/// `r` is what a search of `node`, `depth` moves ahead, returns when it is
/// cut short along some path of children ([cut_result]).
pub open spec fn cut_short(node: GameTreeNode, depth: nat, player: Side, r: ScoredAction) -> bool {
    exists|trail: Seq<nat>| #[trigger] cut_result(node, depth, player, trail) == Some(r)
}

/// Searches `node` for the best action of `player`, `depth` moves ahead.
/// Before each child of a node more than one move above the horizon, the
/// search reads `clock` and stops if the reading is past `deadline`
/// ([deadline_exceeded]). Returns the result, and whether the search
/// completed. A completed search returns the minimax value and an action
/// which achieves it; a search cut short returns the best result found so
/// far, as [cut_short] says; a search stops only on a reading past the
/// deadline, so one whose readings never pass it completes.
pub fn search_with<F: Fn() -> u128>(deadline: u128, clock: &F, node: &GameTreeNode, depth: u32, player: Side) -> (r: (
    ScoredAction,
    bool,
))
    requires
        clock.requires(()),
    ensures
        r.0.action matches Some(a) ==> is_child_action(node.children@, a),
        depth > 0 && node.current_turn is Some && node.children@.len() > 0 ==> r.0.action is Some,
        depth == 0 || node.current_turn is None ==> r.1 && r.0.action is None,
        node.children@.len() == 0 ==> r.0.action is None,
        r.1 ==> r.0.score == minimax_value(*node, depth as nat, player),
        r.1 && depth > 0 && node.current_turn is Some && node.children@.len() > 0 ==> achieved_by(
            node.children@,
            r.0.action->0,
            r.0.score as int,
            (depth - 1) as nat,
            player,
        ),
        !r.1 ==> cut_short(*node, depth as nat, player, r.0),
        !r.1 ==> exists|t: u128| #[trigger] clock.ensures((), t) && deadline < t,
        depth <= 1 ==> r.1,
        never_past(deadline, clock) ==> r.1,
    decreases depth,
{
    if depth == 0 {
        let value = match player {
            Side::Overlord => node.overlord_value,
            Side::Champion => node.champion_value,
        };
        return (ScoredAction::new(value), true);
    }
    let current = match node.current_turn {
        Some(c) => c,
        None => {
            let value = match player {
                Side::Overlord => node.overlord_value,
                Side::Champion => node.champion_value,
            };
            return (ScoredAction::new(value), true);
        },
    };
    let maximize = current == player;
    let mut result = if maximize {
        ScoredAction::new(i64::MIN)
    } else {
        ScoredAction::new(i64::MAX)
    };
    let ghost children = node.children@;
    let ghost d = (depth - 1) as nat;
    let mut i: usize = 0;
    while i < node.children.len()
        invariant
            i <= node.children.len(),
            children == node.children@,
            d == depth - 1,
            depth > 0,
            node.current_turn is Some,
            maximize == (node.current_turn == Some(player)),
            clock.requires(()),
            result == best_of_prefix(children, i as nat, d, player, maximize),
            result.score == if maximize {
                max_child_value(children.subrange(0, i as int), d, player)
            } else {
                min_child_value(children.subrange(0, i as int), d, player)
            },
            i == 0 <==> result.action is None,
            result.action matches Some(a) ==> achieved_by(
                children.subrange(0, i as int),
                a,
                result.score as int,
                d,
                player,
            ),
        decreases node.children.len() - i,
    {
        let edge = &node.children[i];
        if depth > 1 {
            let now = clock();
            if deadline_exceeded(deadline, now, depth) {
                proof {
                    if let Some(a) = result.action {
                        let k = choose|k: int|
                            0 <= k < i && #[trigger] children.subrange(0, i as int)[k].action == a
                                && minimax_value(children.subrange(0, i as int)[k].node, d, player)
                                == result.score;
                        assert(children[k].action == a);
                    } else {
                        assert(children[i as int].action == edge.action);
                    }
                    assert(best_of_prefix(children, i as nat, d, player, maximize) == result);
                    assert(node.children@[i as int] == *edge);
                    assert(cut_result(*node, depth as nat, player, seq![i as nat]) == Some(
                        with_fallback(result, edge.action),
                    ));
                }
                return (result.with_fallback_action(edge.action), false);
            }
        }
        let (child, complete) = search_with(deadline, clock, &edge.node, depth - 1, player);
        let ghost prefix = children.subrange(0, i as int);
        let ghost next = children.subrange(0, i + 1);
        proof {
            assert(next.drop_last() == prefix);
            assert(next.last() == *edge);
            lemma_minimax_in_range(edge.node, d, player);
        }
        if !complete {
            let partial = if maximize {
                let mut r = result;
                r.insert_max(edge.action, child.score());
                r
            } else {
                let mut r = result;
                r.insert_min(edge.action, child.score());
                r
            };
            proof {
                if let Some(a) = partial.action {
                    if let Some(b) = result.action {
                        if a == b {
                            let k = choose|k: int|
                                0 <= k < i && #[trigger] prefix[k].action == b && minimax_value(
                                    prefix[k].node,
                                    d,
                                    player,
                                ) == result.score;
                            assert(children[k].action == a);
                        } else {
                            assert(children[i as int].action == a);
                        }
                    } else {
                        assert(children[i as int].action == a);
                    }
                }
                assert(children[i as int] == *edge);
                assert(partial == with_choice(result, edge.action, child.score, maximize));
                assert(cut_short(edge.node, d, player, child));
                let k: nat = i as nat;
                let acc = best_of_prefix(node.children@, k, d, player, maximize);
                assert(acc == result);
                assert(node.children@[k as int] == *edge);
                let t = choose|t: Seq<nat>| #[trigger] cut_result(edge.node, d, player, t) == Some(child);
                let trail = seq![k].add(t);
                assert(trail.drop_first() =~= t);
                assert(cut_result(*node, depth as nat, player, trail) == Some(partial));
            }
            return (partial, false);
        }
        let ghost old_result = result;
        if maximize {
            result.insert_max(edge.action, child.score());
        } else {
            result.insert_min(edge.action, child.score());
        }
        proof {
            if let Some(a) = result.action {
                if result == old_result {
                    let k = choose|k: int|
                        0 <= k < i && #[trigger] prefix[k].action == a && minimax_value(
                            prefix[k].node,
                            d,
                            player,
                        ) == result.score;
                    assert(next[k] == prefix[k]);
                } else {
                    assert(next[i as int] == *edge);
                }
            }
            if i == 0 {
                assert(prefix.len() == 0);
            }
        }
        i = i + 1;
    }
    proof {
        assert(children.subrange(0, children.len() as int) == children);
        if children.len() > 0 {
            let a = result.action->0;
            let k = choose|k: int|
                0 <= k < children.len() && #[trigger] children.subrange(0, children.len() as int)[k].action == a
                    && minimax_value(children.subrange(0, children.len() as int)[k].node, d, player) == result.score;
            assert(children[k].action == a);
        }
    }
    (result, true)
}

/// Searches `node` for the best action of `player`, `depth` moves ahead,
/// until `deadline`: [search_with], with the deadline at 0 and the clock
/// read as how far it is past the deadline ([clock_past]). Returns the
/// result, and whether the search completed.
pub fn run_internal(deadline: &Instant, node: &GameTreeNode, depth: u32, player: Side) -> (r: (
    ScoredAction,
    bool,
))
    ensures
        r.0.action matches Some(a) ==> is_child_action(node.children@, a),
        depth > 0 && node.current_turn is Some && node.children@.len() > 0 ==> r.0.action is Some,
        depth == 0 || node.current_turn is None ==> r.1 && r.0.action is None,
        node.children@.len() == 0 ==> r.0.action is None,
        r.1 ==> r.0.score == minimax_value(*node, depth as nat, player),
        r.1 && depth > 0 && node.current_turn is Some && node.children@.len() > 0 ==> achieved_by(
            node.children@,
            r.0.action->0,
            r.0.score as int,
            (depth - 1) as nat,
            player,
        ),
        !r.1 ==> cut_short(*node, depth as nat, player, r.0),
        depth <= 1 ==> r.1,
{
    let clock = || clock_past(deadline);
    search_with(0, &clock, node, depth, player)
}

/// The Minimax search algorithm.
pub struct MinimaxAlgorithm {
    pub search_depth: u32,
}

impl MinimaxAlgorithm {
    /// Picks the action of `player` in `node`, searching `search_depth` moves
    /// ahead until `deadline`. Fails when there is no action to pick: the
    /// search depth is zero, the game is over, or no action is legal.
    pub fn pick_action(&self, deadline: &Instant, node: &GameTreeNode, player: Side) -> (r: Result<
        u64,
        GameError,
    >)
        ensures
            r is Ok <==> self.search_depth > 0 && node.current_turn is Some
                && node.children@.len() > 0,
            r matches Err(e) ==> e == GameError::NoActionSelected,
            r matches Ok(a) ==> is_child_action(node.children@, a),
            r is Ok && self.search_depth <= 1 ==> achieved_by(
                node.children@,
                r->Ok_0,
                minimax_value(*node, self.search_depth as nat, player),
                (self.search_depth - 1) as nat,
                player,
            ),
    {
        let (result, _complete) = run_internal(deadline, node, self.search_depth, player);
        result.action()
    }

    /// Picks the action of `player` in `node`, searching `search_depth` moves
    /// ahead with [search_with] until `deadline`, read on `clock`. Fails when
    /// there is no action to pick. When no reading passes the deadline, the
    /// action achieves the minimax value.
    pub fn pick_action_with<F: Fn() -> u128>(&self, deadline: u128, clock: &F, node: &GameTreeNode, player: Side) -> (r: Result<
        u64,
        GameError,
    >)
        requires
            clock.requires(()),
        ensures
            r is Ok <==> self.search_depth > 0 && node.current_turn is Some
                && node.children@.len() > 0,
            r matches Err(e) ==> e == GameError::NoActionSelected,
            r matches Ok(a) ==> is_child_action(node.children@, a),
            r is Ok && (self.search_depth <= 1 || never_past(deadline, clock)) ==> achieved_by(
                node.children@,
                r->Ok_0,
                minimax_value(*node, self.search_depth as nat, player),
                (self.search_depth - 1) as nat,
                player,
            ),
    {
        let (result, _complete) = search_with(deadline, clock, node, self.search_depth, player);
        result.action()
    }
}

} // verus!
