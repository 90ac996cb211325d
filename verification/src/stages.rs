//! The five stages of one simulation tick, in their mandated order:
//! input capture, movement, eating, growth, round lifecycle.

use vstd::prelude::*;

use crate::geometry::{in_bounds, in_bounds_spec, step, step_spec, Direction, Position};
use crate::state::{GameState, SnakeHead};

verus! {

/// The candidate heading named by the held keys, priority Left over
/// Right over Up over Down; with no key held the prior intent stands.
pub open spec fn candidate_direction(
    current: Direction,
    left: bool,
    right: bool,
    up: bool,
    down: bool,
) -> Direction {
    if left {
        Direction::Left
    } else if right {
        Direction::Right
    } else if up {
        Direction::Up
    } else if down {
        Direction::Down
    } else {
        current
    }
}

/// What input capture leaves as the accepted intent: the candidate,
/// unless it points straight back against the most recent movement
/// heading, in which case the prior intent stands.
pub open spec fn captured_direction(
    head: SnakeHead,
    left: bool,
    right: bool,
    up: bool,
    down: bool,
) -> Direction {
    let candidate = candidate_direction(head.input_direction, left, right, up, down);
    if candidate == head.movement_direction.opposite_spec() {
        head.input_direction
    } else {
        candidate
    }
}

/// Input capture: reads the held-key state once and updates the head's
/// accepted intent, rejecting an illegal reversal.
pub fn snake_movement_input(state: &mut GameState, left: bool, right: bool, up: bool, down: bool)
    ensures
        final(state).head.input_direction == captured_direction(
            old(state).head,
            left,
            right,
            up,
            down,
        ),
        final(state).head.movement_direction == old(state).head.movement_direction,
        final(state).chain() == old(state).chain(),
        final(state).foods@ == old(state).foods@,
        final(state).last_tail_position.0 == old(state).last_tail_position.0,
        final(state).width == old(state).width,
        final(state).height == old(state).height,
{
    let new_direction = if left {
        Direction::Left
    } else if right {
        Direction::Right
    } else if up {
        Direction::Up
    } else if down {
        Direction::Down
    } else {
        state.head.input_direction
    };
    if new_direction != state.head.movement_direction.opposite() {
        state.head.input_direction = new_direction;
    }
}

/// No-reversal: as long as the prior intent was itself no reversal,
/// input capture never accepts an intent pointing straight back
/// against the most recent movement heading.
pub proof fn lemma_no_reversal(head: SnakeHead, left: bool, right: bool, up: bool, down: bool)
    requires
        head.input_direction != head.movement_direction.opposite_spec(),
    ensures
        captured_direction(head, left, right, up, down)
            != head.movement_direction.opposite_spec(),
{
}

/// The chain after one movement shift of `snapshot` (the pre-step cells,
/// head first) along `d`: the head advances one cell, and every later
/// segment adopts the cell its predecessor occupied before anyone moved.
pub open spec fn moved_chain(snapshot: Seq<Position>, d: Direction) -> Seq<Position> {
    Seq::new(
        snapshot.len(),
        |i: int|
            if i == 0 {
                step_spec(snapshot[0], d)
            } else {
                snapshot[i - 1]
            },
    )
}

/// The movement stage's game-over test, evaluated against the stepped
/// head and the pre-step snapshot: the new head cell left the arena, or
/// it equals some cell a segment occupied before the shift.
pub open spec fn movement_game_over(
    snapshot: Seq<Position>,
    d: Direction,
    width: u32,
    height: u32,
) -> bool {
    let new_head = step_spec(snapshot[0], d);
    !in_bounds_spec(new_head, width, height) || snapshot.contains(new_head)
}

/// Follow invariant: after a movement shift, every segment but the head
/// sits exactly where its predecessor sat before that shift.
pub proof fn lemma_follow_invariant(snapshot: Seq<Position>, d: Direction)
    ensures
        forall|i: int|
            1 <= i < moved_chain(snapshot, d).len() ==> #[trigger] moved_chain(snapshot, d)[i]
                == snapshot[i - 1],
{
}

/// Movement stage: snapshots every segment cell, advances the head one
/// cell along the accepted intent, raises game over on a wall exit or on
/// a collision with the pre-step snapshot, shifts each body segment into
/// its predecessor's prior cell, and records the cell the tail vacated.
pub fn snake_movement(state: &mut GameState) -> (game_over_event: bool)
    requires
        old(state).wf(),
        old(state).pos_in_bounds(old(state).head_position()),
    ensures
        final(state).chain() == moved_chain(old(state).chain(), old(state).head.input_direction),
        final(state).head.input_direction == old(state).head.input_direction,
        final(state).head.movement_direction == old(state).head.input_direction,
        final(state).last_tail_position.0 == Some(old(state).chain().last()),
        game_over_event == movement_game_over(
            old(state).chain(),
            old(state).head.input_direction,
            old(state).width,
            old(state).height,
        ),
        final(state).foods@ == old(state).foods@,
        final(state).width == old(state).width,
        final(state).height == old(state).height,
{
    let ghost old_chain: Seq<Position> = state.segments.0@;
    let n = state.segments.0.len();

    let mut snapshot: Vec<Position> = Vec::new();
    let mut i: usize = 0;
    while i < n
        invariant
            n == state.segments.0@.len(),
            i <= n,
            snapshot@ == state.segments.0@.take(i as int),
        decreases n - i,
    {
        snapshot.push(state.segments.0[i]);
        proof {
            assert(state.segments.0@.take(i + 1) =~= state.segments.0@.take(i as int).push(
                state.segments.0@[i as int],
            ));
        }
        i += 1;
    }
    proof {
        assert(snapshot@ =~= old_chain);
    }

    let d = state.head.input_direction;
    let new_head = step(snapshot[0], d);
    state.segments.0.set(0, new_head);
    state.head.movement_direction = d;

    let out_of_arena = !in_bounds(new_head, state.width, state.height);
    let self_collision = crate::state::contains_position(&snapshot, new_head);
    let game_over_event = out_of_arena || self_collision;

    let mut j: usize = 1;
    while j < n
        invariant
            n == state.segments.0@.len(),
            n == snapshot@.len(),
            1 <= j <= n,
            state.segments.0@[0] == new_head,
            forall|k: int| 1 <= k < j ==> state.segments.0@[k] == snapshot@[k - 1],
            state.head.input_direction == d,
            state.head.movement_direction == d,
            state.foods@ == old(state).foods@,
            state.width == old(state).width,
            state.height == old(state).height,
            state.last_tail_position.0 == old(state).last_tail_position.0,
        decreases n - j,
    {
        state.segments.0.set(j, snapshot[j - 1]);
        j += 1;
    }

    state.last_tail_position = crate::state::LastTailPosition(Some(snapshot[n - 1]));
    proof {
        assert(state.segments.0@ =~= moved_chain(old_chain, d));
    }
    game_over_event
}

/// The food cells that survive a visit of the head to `head`: those not
/// equal to it, in unchanged order.
pub open spec fn surviving_food(foods: Seq<Position>, head: Position) -> Seq<Position>
    decreases foods.len(),
{
    if foods.len() == 0 {
        Seq::empty()
    } else {
        surviving_food(foods.drop_last(), head) + (if foods.last() == head {
            Seq::<Position>::empty()
        } else {
            seq![foods.last()]
        })
    }
}

/// How many food cells equal `head`: one growth signal is raised per
/// such coincidence.
pub open spec fn eaten_count(foods: Seq<Position>, head: Position) -> nat
    decreases foods.len(),
{
    if foods.len() == 0 {
        0
    } else {
        eaten_count(foods.drop_last(), head) + (if foods.last() == head {
            1nat
        } else {
            0nat
        })
    }
}

/// Every surviving food cell was a food cell before the eating stage.
pub proof fn lemma_surviving_food_membership(foods: Seq<Position>, head: Position, p: Position)
    requires
        surviving_food(foods, head).contains(p),
    ensures
        foods.contains(p),
    decreases foods.len(),
{
    if foods.len() > 0 {
        let prior = surviving_food(foods.drop_last(), head);
        if prior.contains(p) {
            lemma_surviving_food_membership(foods.drop_last(), head, p);
            let i = choose|i: int| 0 <= i < foods.drop_last().len() && foods.drop_last()[i] == p;
            assert(foods[i] == p);
        } else {
            assert(p == foods.last());
        }
    }
}

/// Tail-gap-free growth: the segment the growth stage appends sits
/// exactly on the cell the tail occupied before this tick's movement
/// shift — the cell the movement stage records — so no gap ever opens
/// between the shifted chain and the new tail.
pub proof fn lemma_tail_gap_free(snapshot: Seq<Position>, d: Direction)
    requires
        snapshot.len() >= 1,
    ensures
        ({
            let grown = moved_chain(snapshot, d).push(snapshot.last());
            &&& grown.len() == snapshot.len() + 1
            &&& grown.last() == snapshot.last()
        }),
{
}

/// Eating stage: destroys every food on the head's cell and returns how
/// many growth signals that raised.
pub fn snake_eating(state: &mut GameState) -> (growth_events: usize)
    requires
        old(state).wf(),
    ensures
        final(state).foods@ == surviving_food(old(state).foods@, old(state).head_position()),
        growth_events == eaten_count(old(state).foods@, old(state).head_position()),
        final(state).chain() == old(state).chain(),
        final(state).head == old(state).head,
        final(state).last_tail_position.0 == old(state).last_tail_position.0,
        final(state).width == old(state).width,
        final(state).height == old(state).height,
{
    let head_position = state.segments.0[0];
    let n = state.foods.len();
    let mut remaining: Vec<Position> = Vec::new();
    let mut events: usize = 0;
    let mut i: usize = 0;
    while i < n
        invariant
            n == state.foods@.len(),
            i <= n,
            events <= i,
            head_position == state.chain()[0],
            remaining@ == surviving_food(state.foods@.take(i as int), head_position),
            events == eaten_count(state.foods@.take(i as int), head_position),
        decreases n - i,
    {
        let f = state.foods[i];
        proof {
            assert(state.foods@.take(i + 1).drop_last() =~= state.foods@.take(i as int));
            assert(state.foods@.take(i + 1).last() == f);
        }
        if f == head_position {
            events = events + 1;
        } else {
            remaining.push(f);
        }
        i += 1;
    }
    proof {
        assert(state.foods@.take(n as int) =~= state.foods@);
    }
    state.foods = remaining;
    events
}

/// Growth stage: if at least one growth signal is pending, appends
/// exactly one segment on the cell the tail vacated this tick.  At most
/// one segment grows per tick however many signals fired; the reference
/// behaviour is kept deliberately.
pub fn snake_growth(state: &mut GameState, growth_events: usize)
    requires
        growth_events >= 1 ==> old(state).last_tail_position.0.is_some(),
    ensures
        growth_events >= 1 ==> final(state).chain() == old(state).chain().push(
            old(state).last_tail_position.0.unwrap(),
        ),
        growth_events == 0 ==> final(state).chain() == old(state).chain(),
        final(state).head == old(state).head,
        final(state).foods@ == old(state).foods@,
        final(state).last_tail_position.0 == old(state).last_tail_position.0,
        final(state).width == old(state).width,
        final(state).height == old(state).height,
{
    if growth_events >= 1 {
        let p = state.last_tail_position.0.unwrap();
        crate::state::spawn_segment(&mut state.segments, p);
    }
}

/// Round lifecycle: on a pending game-over signal, destroys every food
/// and every segment and rebuilds the initial two-segment snake; with no
/// signal pending the state passes through untouched.
pub fn game_over(state: &mut GameState, game_over_event: bool)
    ensures
        game_over_event ==> final(state).chain() == crate::state::initial_chain(),
        game_over_event ==> final(state).head == crate::state::initial_head(),
        game_over_event ==> final(state).foods@ == Seq::<Position>::empty(),
        !game_over_event ==> final(state).chain() == old(state).chain(),
        !game_over_event ==> final(state).head == old(state).head,
        !game_over_event ==> final(state).foods@ == old(state).foods@,
        final(state).last_tail_position.0 == old(state).last_tail_position.0,
        final(state).width == old(state).width,
        final(state).height == old(state).height,
{
    if game_over_event {
        state.foods = Vec::new();
        crate::state::spawn_snake(state);
        proof {
            assert(state.foods@ =~= Seq::<Position>::empty());
        }
    }
}

/// The ephemeral signals one tick leaves behind: how many growth
/// signals the eating stage raised, and whether game over fired.
#[derive(Clone, Copy, Debug, PartialEq, Eq, Structural)]
pub struct TickOutcome {
    pub growth_events: usize,
    pub game_over_event: bool,
}

/// One full simulation step: input capture, movement, eating, growth
/// and round lifecycle, in exactly that order.
///
/// The contract pins every stage's effect: which heading is accepted,
/// where every segment ends up, which foods are eaten, whether game
/// over fired and, on game over, the fully reset state.  It also shows
/// the standing invariants: the state stays well formed, every occupant
/// is back inside the arena once the tick settles, and the accepted
/// intent never points straight back against the applied heading.
pub fn tick(state: &mut GameState, left: bool, right: bool, up: bool, down: bool) -> (outcome:
    TickOutcome)
    requires
        old(state).wf(),
        old(state).settled(),
    ensures
        final(state).wf(),
        final(state).settled(),
        final(state).no_reversal(),
        final(state).width == old(state).width,
        final(state).height == old(state).height,
        outcome.game_over_event == movement_game_over(
            old(state).chain(),
            captured_direction(old(state).head, left, right, up, down),
            old(state).width,
            old(state).height,
        ),
        outcome.growth_events == eaten_count(
            old(state).foods@,
            step_spec(
                old(state).head_position(),
                captured_direction(old(state).head, left, right, up, down),
            ),
        ),
        outcome.game_over_event ==> final(state).chain() == crate::state::initial_chain(),
        outcome.game_over_event ==> final(state).head == crate::state::initial_head(),
        outcome.game_over_event ==> final(state).foods@.len() == 0,
        outcome.game_over_event ==> final(state).chain().len() == 2,
        !outcome.game_over_event ==> final(state).head.input_direction == captured_direction(
            old(state).head,
            left,
            right,
            up,
            down,
        ),
        !outcome.game_over_event ==> final(state).head.movement_direction == captured_direction(
            old(state).head,
            left,
            right,
            up,
            down,
        ),
        !outcome.game_over_event && outcome.growth_events >= 1 ==> final(state).chain().len()
            == old(state).chain().len() + 1,
        !outcome.game_over_event && outcome.growth_events == 0 ==> final(state).chain().len()
            == old(state).chain().len(),
        !outcome.game_over_event ==> final(state).chain()[0] == step_spec(
            old(state).head_position(),
            captured_direction(old(state).head, left, right, up, down),
        ),
        !outcome.game_over_event ==> forall|i: int|
            1 <= i < final(state).chain().len() ==> #[trigger] final(state).chain()[i] == old(
                state,
            ).chain()[i - 1],
        !outcome.game_over_event ==> final(state).foods@ == surviving_food(
            old(state).foods@,
            step_spec(
                old(state).head_position(),
                captured_direction(old(state).head, left, right, up, down),
            ),
        ),
        !outcome.game_over_event ==> final(state).last_tail_position.0 == Some(
            old(state).chain().last(),
        ),
{
    let ghost snapshot: Seq<Position> = old(state).chain();
    let ghost old_foods: Seq<Position> = old(state).foods@;
    let ghost d: Direction = captured_direction(old(state).head, left, right, up, down);

    snake_movement_input(state, left, right, up, down);
    proof {
        assert(state.pos_in_bounds(state.chain()[0]));
    }
    let game_over_event = snake_movement(state);
    let ghost new_head: Position = step_spec(snapshot[0], d);
    let growth_events = snake_eating(state);
    snake_growth(state, growth_events);
    game_over(state, game_over_event);

    proof {
        crate::geometry::lemma_opposite_involution(d);
        if game_over_event {
            assert forall|i: int|
                0 <= i < state.chain().len() implies state.pos_in_bounds(
                #[trigger] state.chain()[i],
            ) by {
                if i == 0 {
                    assert(state.chain()[0] == crate::state::initial_head_position());
                } else {
                    assert(state.chain()[1] == crate::state::initial_tail_position());
                }
            }
        } else {
            assert(in_bounds_spec(new_head, state.width, state.height));
            assert forall|i: int|
                0 <= i < state.chain().len() implies state.pos_in_bounds(
                #[trigger] state.chain()[i],
            ) by {
                if i == 0 {
                } else if i < snapshot.len() {
                    assert(state.chain()[i] == snapshot[i - 1]);
                    assert(old(state).pos_in_bounds(snapshot[i - 1]));
                } else {
                    assert(state.chain()[i] == snapshot[snapshot.len() - 1]);
                    assert(old(state).pos_in_bounds(snapshot[snapshot.len() - 1]));
                }
            }
            assert forall|i: int|
                0 <= i < state.foods@.len() implies state.pos_in_bounds(
                #[trigger] state.foods@[i],
            ) by {
                let p = state.foods@[i];
                assert(surviving_food(old_foods, new_head).contains(p));
                lemma_surviving_food_membership(old_foods, new_head, p);
                let k = choose|k: int| 0 <= k < old_foods.len() && old_foods[k] == p;
                assert(old(state).pos_in_bounds(old(state).foods@[k]));
            }
        }
    }
    TickOutcome { growth_events, game_over_event }
}

} // verus!
