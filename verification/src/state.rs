//! The simulation state: head directions, segment chain, food and the
//! vacated tail cell, held together as one plain value.

use vstd::prelude::*;

use crate::geometry::{in_bounds_spec, Direction, Position};

verus! {

/// Direction state of the snake's head: the latest accepted intent and
/// the heading actually applied on the most recent move.
#[derive(Clone, Copy, Debug, PartialEq, Eq, Structural)]
pub struct SnakeHead {
    pub input_direction: Direction,
    pub movement_direction: Direction,
}

/// The chain: the position of every body segment, head first.  This
/// order — not spatial adjacency — is the single source of truth for
/// who follows whom.
pub struct SnakeSegments(pub Vec<Position>);

/// The cell the tail occupied before the most recent movement shift;
/// the growth stage places a new segment exactly there.
pub struct LastTailPosition(pub Option<Position>);

/// The whole simulation state, owned as one value and handed by
/// reference to each stage.
pub struct GameState {
    /// Arena extent along x, injected as configuration.
    pub width: u32,
    /// Arena extent along y, injected as configuration.
    pub height: u32,
    /// Direction state of the single head.
    pub head: SnakeHead,
    /// The segment chain, head first; never empty during active play.
    pub segments: SnakeSegments,
    /// Positions of the live food entities.
    pub foods: Vec<Position>,
    /// The cell vacated by the tail on the most recent movement.
    pub last_tail_position: LastTailPosition,
}

/// The fixed cell the head starts on after a spawn.
pub open spec fn initial_head_position() -> Position {
    Position { x: 3, y: 3 }
}

/// The fixed cell of the one body segment behind the freshly spawned head.
pub open spec fn initial_tail_position() -> Position {
    Position { x: 3, y: 2 }
}

/// The two-segment chain a spawn installs.
pub open spec fn initial_chain() -> Seq<Position> {
    seq![initial_head_position(), initial_tail_position()]
}

/// The head state a spawn installs: both directions Up.
pub open spec fn initial_head() -> SnakeHead {
    SnakeHead { input_direction: Direction::Up, movement_direction: Direction::Up }
}

impl GameState {
    /// The chain as a sequence of cells, head first.
    pub open spec fn chain(self) -> Seq<Position> {
        self.segments.0@
    }

    /// The cell the head currently occupies.
    pub open spec fn head_position(self) -> Position {
        self.chain()[0]
    }

    /// Whether `p` lies inside this state's arena.
    pub open spec fn pos_in_bounds(self, p: Position) -> bool {
        in_bounds_spec(p, self.width, self.height)
    }

    /// Structural well-formedness: the arena is large enough to hold the
    /// fixed spawn cells and small enough for single-step coordinate
    /// arithmetic, and the chain is never empty during active play.
    pub open spec fn wf(self) -> bool {
        &&& 4 <= self.width <= 0x7fff_ffff
        &&& 4 <= self.height <= 0x7fff_ffff
        &&& self.chain().len() >= 1
    }

    /// Every live occupant — segment or food — sits inside the arena.
    /// This holds whenever a tick has fully settled; a head that has
    /// just left the arena violates it and is what the game-over check
    /// detects.
    pub open spec fn settled(self) -> bool {
        &&& forall|i: int|
            0 <= i < self.chain().len() ==> self.pos_in_bounds(#[trigger] self.chain()[i])
        &&& forall|i: int|
            0 <= i < self.foods@.len() ==> self.pos_in_bounds(#[trigger] self.foods@[i])
    }

    /// The accepted intent never points straight back against the most
    /// recent movement heading.
    pub open spec fn no_reversal(self) -> bool {
        self.head.input_direction != self.head.movement_direction.opposite_spec()
    }
}

/// Builds the state the game starts in: the initial two-segment snake
/// in an empty arena of the given extent, with no food and no recorded
/// tail cell yet.
pub fn new_game(width: u32, height: u32) -> (state: GameState)
    requires
        4 <= width <= 0x7fff_ffff,
        4 <= height <= 0x7fff_ffff,
    ensures
        state.wf(),
        state.settled(),
        state.no_reversal(),
        state.width == width,
        state.height == height,
        state.head == initial_head(),
        state.chain() == initial_chain(),
        state.foods@.len() == 0,
        state.last_tail_position.0 is None,
{
    let mut chain: Vec<Position> = Vec::new();
    chain.push(Position { x: 3, y: 3 });
    chain.push(Position { x: 3, y: 2 });
    let state = GameState {
        width,
        height,
        head: SnakeHead { input_direction: Direction::Up, movement_direction: Direction::Up },
        segments: SnakeSegments(chain),
        foods: Vec::new(),
        last_tail_position: LastTailPosition(None),
    };
    proof {
        assert(state.chain() =~= initial_chain());
        assert forall|i: int| 0 <= i < state.chain().len() implies state.pos_in_bounds(
            #[trigger] state.chain()[i],
        ) by {
            if i == 0 {
                assert(state.chain()[0] == initial_head_position());
            } else {
                assert(state.chain()[1] == initial_tail_position());
            }
        }
    }
    state
}

/// Appends one segment at `position`, making it the new tail.
pub fn spawn_segment(segments: &mut SnakeSegments, position: Position)
    ensures
        final(segments).0@ == old(segments).0@.push(position),
{
    segments.0.push(position);
}

/// Rebuilds the snake as program start does: a head on the fixed start
/// cell with both directions Up, and one body segment directly behind
/// it.  Nothing else in the state is touched.
pub fn spawn_snake(state: &mut GameState)
    ensures
        final(state).head == initial_head(),
        final(state).chain() == initial_chain(),
        final(state).foods@ == old(state).foods@,
        final(state).width == old(state).width,
        final(state).height == old(state).height,
        final(state).last_tail_position.0 == old(state).last_tail_position.0,
{
    let mut chain: Vec<Position> = Vec::new();
    chain.push(Position { x: 3, y: 3 });
    chain.push(Position { x: 3, y: 2 });
    state.head = SnakeHead { input_direction: Direction::Up, movement_direction: Direction::Up };
    state.segments = SnakeSegments(chain);
    proof {
        assert(state.segments.0@ =~= initial_chain());
    }
}

/// Returns the index of `p` in `v`, or the length of `v` if absent; so
/// the result is below the length exactly when some element equals `p`.
pub fn find_position(v: &Vec<Position>, p: Position) -> (r: usize)
    ensures
        r <= v@.len(),
        r < v@.len() ==> v@[r as int] == p,
        r == v@.len() ==> !v@.contains(p),
{
    let mut i: usize = 0;
    while i < v.len()
        invariant
            i <= v@.len(),
            forall|j: int| 0 <= j < i ==> v@[j] != p,
        decreases v@.len() - i,
    {
        if v[i] == p {
            return i;
        }
        i += 1;
    }
    i
}

/// Returns whether some element of `v` equals `p`.
pub fn contains_position(v: &Vec<Position>, p: Position) -> (r: bool)
    ensures
        r == v@.contains(p),
{
    let i = find_position(v, p);
    if i < v.len() {
        proof {
            assert(v@.contains(p)) by {
                assert(v@[i as int] == p);
            }
        }
        true
    } else {
        false
    }
}

/// Whether a food-spawn candidate cell is acceptable: no live food and
/// no segment occupies it.  The random choice of candidates is the
/// external spawn policy's business; this is the acceptance test it
/// must apply.
pub fn position_is_free(state: &GameState, p: Position) -> (r: bool)
    ensures
        r == (!state.foods@.contains(p) && !state.chain().contains(p)),
{
    !contains_position(&state.foods, p) && !contains_position(&state.segments.0, p)
}

/// Installs a food entity on `p`, as the external spawn policy directs.
pub fn spawn_food(state: &mut GameState, p: Position)
    requires
        old(state).pos_in_bounds(p),
    ensures
        final(state).foods@ == old(state).foods@.push(p),
        final(state).chain() == old(state).chain(),
        final(state).head == old(state).head,
        final(state).width == old(state).width,
        final(state).height == old(state).height,
        final(state).last_tail_position.0 == old(state).last_tail_position.0,
{
    state.foods.push(p);
}

} // verus!
