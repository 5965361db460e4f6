//! The world state and the per-tick resolvers: food spawning, input
//! handling, growth, and motion with self-collision.

use crate::geometry::{
    Direction, Location, Screen, new_tail_spec, next_head, next_head_spec, opposite,
};
use crate::rng::random_range_u16;
use vstd::prelude::*;

verus! {

/// The lifecycle state of the simulation: Alive at creation, Dead exactly
/// once (self-collision or quit), and Dead is terminal.
#[derive(Copy, Clone, PartialEq, Eq, Structural, Debug)]
pub enum Status {
    Dead,
    Alive,
}

/// A keyboard event as the simulation sees it: a directional key, a
/// character key, or anything else (ignored).
#[derive(Copy, Clone, PartialEq, Eq, Structural, Debug)]
pub enum Key {
    Up,
    Down,
    Left,
    Right,
    Char(char),
    Other,
}

/// The mathematical model of a world: what every contract in this module
/// speaks about.
#[verifier::ext_equal]
pub ghost struct Model {
    pub screen: Screen,
    pub snake: Seq<Location>,
    pub food: Seq<Location>,
    pub status: Status,
    pub direction: Direction,
}

/// The whole game state: grid bounds, the snake body (head at index 0),
/// the food cells on the grid, the lifecycle status, and the current
/// direction of motion.
pub struct World {
    pub screen: Screen,
    pub snake: Vec<Location>,
    pub food: Vec<Location>,
    pub status: Status,
    pub direction: Direction,
}

impl View for World {
    type V = Model;

    open spec fn view(&self) -> Model {
        Model {
            screen: self.screen,
            snake: self.snake@,
            food: self.food@,
            status: self.status,
            direction: self.direction,
        }
    }
}

impl World {
    /// The snake is never empty.
    pub open spec fn wf(self) -> bool {
        self.snake@.len() > 0
    }
}

/// Whether some food cell equals `c`.
pub open spec fn has_food_at(food: Seq<Location>, c: Location) -> bool {
    exists|i: int| 0 <= i < food.len() && food[i] == c
}

/// The index of the first food cell equal to `c`, or -1 if there is none.
pub open spec fn first_match_index(food: Seq<Location>, c: Location) -> int
    decreases food.len(),
{
    if food.len() == 0 {
        -1
    } else if food[0] == c {
        0
    } else if first_match_index(food.drop_first(), c) < 0 {
        -1
    } else {
        first_match_index(food.drop_first(), c) + 1
    }
}

/// A spawn outcome either leaves the world alone or appends one food cell.
pub open spec fn spawn_step(m: Model, spawn: Option<Location>) -> Model {
    match spawn {
        Option::None => m,
        Option::Some(l) => Model { food: m.food.push(l), ..m },
    }
}

/// A spawned cell lies strictly inside the bounds, never on the far edges.
pub open spec fn spawn_in_bounds(spawn: Option<Location>, screen: Screen) -> bool {
    match spawn {
        Option::None => true,
        Option::Some(l) => l.column < screen.max_column - 1 && l.row < screen.max_row - 1,
    }
}

/// The direction after a key is handled: a directional key is accepted
/// unless the current direction is its geometric opposite; any other key
/// leaves the direction alone.
pub open spec fn direction_after(cur: Direction, k: Key) -> Direction {
    match k {
        Key::Up => if cur == Direction::Down { cur } else { Direction::Up },
        Key::Down => if cur == Direction::Up { cur } else { Direction::Down },
        Key::Left => if cur == Direction::Right { cur } else { Direction::Left },
        Key::Right => if cur == Direction::Left { cur } else { Direction::Right },
        Key::Char(_) => cur,
        Key::Other => cur,
    }
}

/// Handling one key: 'q' quits (status becomes Dead); a directional key
/// steers subject to the no-reversal rule; anything else is ignored.
pub open spec fn key_step_one(m: Model, k: Key) -> Model {
    match k {
        Key::Char(c) => if c == 'q' {
            Model { status: Status::Dead, ..m }
        } else {
            m
        },
        _ => Model { direction: direction_after(m.direction, k), ..m },
    }
}

/// Handling an optional key: no event leaves the world alone.
pub open spec fn key_step(m: Model, key: Option<Key>) -> Model {
    match key {
        Option::None => m,
        Option::Some(k) => key_step_one(m, k),
    }
}

/// The growth resolver: if some food cell equals the head, the first such
/// cell is removed and a new tail segment is appended one step behind the
/// tail in the current direction; otherwise nothing changes.
pub open spec fn grow_step(m: Model) -> Model {
    if m.snake.len() > 0 && has_food_at(m.food, m.snake[0]) {
        Model {
            food: m.food.remove(first_match_index(m.food, m.snake[0])),
            snake: m.snake.push(new_tail_spec(m.snake.last(), m.direction)),
            ..m
        }
    } else {
        m
    }
}

/// The motion/collision resolver: the head advances one wrapped step; if
/// the candidate head is already anywhere in the body, the world dies with
/// the body unchanged, else the new head is prepended and the tail dropped.
pub open spec fn physics_step(m: Model) -> Model {
    if m.snake.len() > 0 {
        let nh = next_head_spec(m.snake[0], m.direction, m.screen);
        if m.snake.contains(nh) {
            Model { status: Status::Dead, ..m }
        } else {
            Model { snake: seq![nh] + m.snake.drop_last(), ..m }
        }
    } else {
        m
    }
}

/// One whole tick: nothing happens in a Dead world; in a live one, food
/// spawning, input handling, growth, and motion run in that order.
pub open spec fn tick_step(m: Model, spawn: Option<Location>, key: Option<Key>) -> Model {
    if m.status == Status::Dead {
        m
    } else {
        physics_step(grow_step(key_step(spawn_step(m, spawn), key)))
    }
}

/// The growth step's tail arithmetic stays within u16: growing while moving
/// Up adds one to the tail's row, growing while moving Left adds one to its
/// column.
pub open spec fn grow_safe(m: Model) -> bool {
    m.snake.len() > 0 && has_food_at(m.food, m.snake[0]) ==> match m.direction {
        Direction::Up => m.snake.last().row < 65535,
        Direction::Left => m.snake.last().column < 65535,
        _ => true,
    }
}

/// As `grow_safe`, but for a tick whose spawn outcome is not yet known: the
/// direction the tick will grow in is bounded whatever is spawned.
pub open spec fn tick_key_safe(m: Model, key: Option<Key>) -> bool {
    ({
        let d1 = match key {
            Option::None => m.direction,
            Option::Some(k) => direction_after(m.direction, k),
        };
        &&& (d1 == Direction::Up ==> m.snake.last().row < 65535)
        &&& (d1 == Direction::Left ==> m.snake.last().column < 65535)
    })
}

/// The directional key that asks for direction `d`.
pub open spec fn key_for(d: Direction) -> Key {
    match d {
        Direction::Up => Key::Up,
        Direction::Down => Key::Down,
        Direction::Left => Key::Left,
        Direction::Right => Key::Right,
    }
}

/// No-reversal law: a directional key for the opposite of the current
/// direction is rejected, and a directional key for any other direction is
/// accepted.
pub proof fn lemma_no_reversal(cur: Direction, target: Direction)
    ensures
        target == opposite(cur) ==> direction_after(cur, key_for(target)) == cur,
        target != opposite(cur) ==> direction_after(cur, key_for(target)) == target,
{
}

impl World {
    /// A fresh world: a single-segment snake at a random position strictly
    /// inside the bounds, no food, moving Right, Alive.
    pub fn new(screen: Screen) -> (r: World)
        requires
            screen.max_column >= 2,
            screen.max_row >= 2,
        ensures
            r.wf(),
            r@.screen == screen,
            r@.snake.len() == 1,
            r@.snake[0].column < screen.max_column - 1,
            r@.snake[0].row < screen.max_row - 1,
            r@.food == Seq::<Location>::empty(),
            r@.status == Status::Alive,
            r@.direction == Direction::Right,
    {
        let head_column = random_range_u16(0, screen.max_column - 1);
        let head_row = random_range_u16(0, screen.max_row - 1);
        let mut snake: Vec<Location> = Vec::new();
        snake.push(Location { column: head_column, row: head_row });
        World {
            screen,
            snake,
            food: Vec::new(),
            status: Status::Alive,
            direction: Direction::Right,
        }
    }
}

/// The spawn decision: a draw strictly above 950, out of 0..1000, adds food.
pub fn food_spawn_triggered(draw: u16) -> (r: bool)
    ensures
        r == (draw > 950),
{
    draw > 950
}

/// Applies a known spawn outcome to the food set.
pub fn spawn_food(world: &mut World, spawn: Option<Location>)
    ensures
        final(world)@ == spawn_step(old(world)@, spawn),
{
    match spawn {
        Option::None => {},
        Option::Some(l) => {
            world.food.push(l);
        },
    }
    proof {
        assert(world@ =~= spawn_step(old(world)@, spawn));
    }
}

/// Handles one keyboard event: steering subject to the no-reversal rule,
/// 'q' to quit, anything else ignored.
pub fn apply_key(world: &mut World, key: Key)
    ensures
        final(world)@ == key_step_one(old(world)@, key),
{
    match key {
        Key::Up => {
            if world.direction != Direction::Down {
                world.direction = Direction::Up;
            }
        },
        Key::Down => {
            if world.direction != Direction::Up {
                world.direction = Direction::Down;
            }
        },
        Key::Left => {
            if world.direction != Direction::Right {
                world.direction = Direction::Left;
            }
        },
        Key::Right => {
            if world.direction != Direction::Left {
                world.direction = Direction::Right;
            }
        },
        Key::Char(c) => {
            if c == 'q' {
                world.status = Status::Dead;
            }
        },
        Key::Other => {},
    }
    proof {
        assert(world@ =~= key_step_one(old(world)@, key));
    }
}

/// `first_match_index` agrees with `has_food_at`: it is non-negative
/// exactly when a match exists, and then points at the first match.
proof fn lemma_first_match_index(food: Seq<Location>, c: Location)
    ensures
        first_match_index(food, c) >= 0 <==> has_food_at(food, c),
        has_food_at(food, c) ==> ({
            let i = first_match_index(food, c);
            &&& 0 <= i < food.len()
            &&& food[i] == c
            &&& forall|j: int| 0 <= j < i ==> food[j] != c
        }),
    decreases food.len(),
{
    if food.len() == 0 {
    } else if food[0] == c {
        assert(has_food_at(food, c));
    } else {
        let rest = food.drop_first();
        lemma_first_match_index(rest, c);
        assert(forall|j: int| 0 <= j < rest.len() ==> rest[j] == food[j + 1]);
        if has_food_at(food, c) {
            let w = choose|i: int| 0 <= i < food.len() && food[i] == c;
            assert(rest[w - 1] == c);
            assert(has_food_at(rest, c));
        }
        if has_food_at(rest, c) {
            let w = choose|i: int| 0 <= i < rest.len() && rest[i] == c;
            assert(food[w + 1] == c);
            assert(has_food_at(food, c));
        }
        if first_match_index(rest, c) >= 0 {
            let i = first_match_index(rest, c);
            assert(first_match_index(food, c) == i + 1);
            assert(food[i + 1] == c);
            assert forall|j: int| 0 <= j < i + 1 implies food[j] != c by {
                if j > 0 {
                    assert(rest[j - 1] == food[j]);
                }
            }
        }
    }
}

/// The growth resolver: consumes the first food cell equal to the head, if
/// any, and then appends a new tail segment one step behind the tail in the
/// current direction.
pub fn grow_snake(world: &mut World)
    requires
        old(world).wf(),
        grow_safe(old(world)@),
    ensures
        final(world)@ == grow_step(old(world)@),
        final(world).wf(),
{
    let head: Location = world.snake[0];
    let tail: Location = world.snake[world.snake.len() - 1];

    let mut i: usize = 0;
    let mut found: bool = false;
    let mut found_idx: usize = 0;
    while i < world.food.len()
        invariant
            world@ == old(world)@,
            head == world@.snake[0],
            tail == world@.snake.last(),
            world@.snake.len() > 0,
            i <= world@.food.len(),
            !found ==> forall|j: int| 0 <= j < i ==> world@.food[j] != head,
            found ==> found_idx < world@.food.len() && world@.food[found_idx as int] == head
                && (forall|j: int| 0 <= j < found_idx ==> world@.food[j] != head),
        decreases world@.food.len() - i,
    {
        if !found && world.food[i] == head {
            found = true;
            found_idx = i;
        }
        i += 1;
    }

    if found {
        proof {
            assert(has_food_at(world@.food, head));
            lemma_first_match_index(old(world)@.food, head);
            let fmi = first_match_index(old(world)@.food, head);
            assert(fmi >= found_idx);
            assert(fmi <= found_idx);
        }
        world.food.remove(found_idx);
        let new_tail: Location = match world.direction {
            Direction::Up => Location { column: tail.column, row: tail.row + 1 },
            Direction::Down => Location {
                column: tail.column,
                row: if tail.row > 0 { tail.row - 1 } else { 0 },
            },
            Direction::Left => Location { column: tail.column + 1, row: tail.row },
            Direction::Right => Location {
                column: if tail.column > 0 { tail.column - 1 } else { 0 },
                row: tail.row,
            },
        };
        world.snake.push(new_tail);
        proof {
            assert(world@ =~= grow_step(old(world)@));
        }
    } else {
        proof {
            assert(!has_food_at(old(world)@.food, head));
            assert(world@ =~= grow_step(old(world)@));
        }
    }
}

/// The motion/collision resolver: advances the head one wrapped step,
/// dying on self-collision with the body left unchanged, otherwise
/// prepending the new head and dropping the tail.
pub fn physics(world: &mut World)
    requires
        old(world).wf(),
    ensures
        final(world)@ == physics_step(old(world)@),
        final(world).wf(),
{
    let head: Location = world.snake[0];
    let nh: Location = next_head(head, world.direction, world.screen);

    let mut i: usize = 0;
    let mut hit: bool = false;
    while i < world.snake.len()
        invariant
            world@ == old(world)@,
            i <= world@.snake.len(),
            hit <==> exists|j: int| 0 <= j < i && world@.snake[j] == nh,
        decreases world@.snake.len() - i,
    {
        if world.snake[i] == nh {
            hit = true;
        }
        i += 1;
    }
    proof {
        assert(hit <==> world@.snake.contains(nh));
    }

    if hit {
        world.status = Status::Dead;
        proof {
            assert(world@ =~= physics_step(old(world)@));
        }
    } else {
        world.snake.insert(0, nh);
        world.snake.pop();
        proof {
            let target = seq![nh] + old(world)@.snake.drop_last();
            assert forall|k: int| 0 <= k < world@.snake.len() implies world@.snake[k] == target[k] by {
                if k > 0 {
                    assert(world@.snake[k] == old(world)@.snake.insert(0, nh)[k]);
                }
            }
            assert(world@.snake =~= target);
            assert(world@ =~= physics_step(old(world)@));
        }
    }
}

/// Draws the per-tick spawn outcome: a draw in 0..1000 decides whether a
/// food cell appears, and if so its position is drawn strictly inside the
/// bounds.
fn roll_spawn(screen: Screen) -> (r: Option<Location>)
    requires
        screen.max_column >= 2,
        screen.max_row >= 2,
    ensures
        spawn_in_bounds(r, screen),
{
    let draw = random_range_u16(0, 1000);
    if food_spawn_triggered(draw) {
        Option::Some(
            Location::new(
                random_range_u16(0, screen.max_column - 1),
                random_range_u16(0, screen.max_row - 1),
            ),
        )
    } else {
        Option::None
    }
}

/// The food spawner: with probability 49 in 1000 per tick, appends one food
/// cell at a random position strictly inside the bounds. Touches only the
/// food set.
pub fn add_food(world: &mut World)
    requires
        old(world).screen.max_column >= 2,
        old(world).screen.max_row >= 2,
    ensures
        exists|s: Option<Location>|
            spawn_in_bounds(s, old(world)@.screen) && final(world)@ == spawn_step(
                old(world)@,
                s,
            ),
{
    let spawn = roll_spawn(world.screen);
    spawn_food(world, spawn);
    proof {
        assert(spawn_in_bounds(spawn, old(world)@.screen) && world@ == spawn_step(
            old(world)@,
            spawn,
        ));
    }
}

/// One tick with the spawn outcome and the key event given: in a Dead world
/// nothing happens; in a live one, spawning, input handling, growth, and
/// motion run in order.
pub fn tick_with(world: &mut World, spawn: Option<Location>, key: Option<Key>)
    requires
        old(world).wf(),
        old(world)@.status == Status::Alive ==> grow_safe(
            key_step(spawn_step(old(world)@, spawn), key),
        ),
    ensures
        final(world)@ == tick_step(old(world)@, spawn, key),
        final(world).wf(),
        final(world)@.snake.len() >= old(world)@.snake.len(),
{
    if world.status == Status::Dead {
        return ;
    }
    spawn_food(world, spawn);
    match key {
        Option::None => {},
        Option::Some(k) => {
            apply_key(world, k);
        },
    }
    proof {
        assert(world@ == key_step(spawn_step(old(world)@, spawn), key));
    }
    grow_snake(world);
    physics(world);
}

/// One whole tick against the real randomness source: nothing happens in a
/// Dead world (the terminal state is idempotent); in a live one, some spawn
/// outcome strictly inside the bounds is drawn and the tick runs on it.
pub fn tick(world: &mut World, key: Option<Key>)
    requires
        old(world).wf(),
        old(world).screen.max_column >= 2,
        old(world).screen.max_row >= 2,
        old(world)@.status == Status::Alive ==> tick_key_safe(old(world)@, key),
    ensures
        old(world)@.status == Status::Dead ==> final(world)@ == old(world)@,
        old(world)@.status == Status::Alive ==> exists|s: Option<Location>|
            spawn_in_bounds(s, old(world)@.screen) && final(world)@ == tick_step(
                old(world)@,
                s,
                key,
            ),
        final(world).wf(),
        final(world)@.snake.len() >= old(world)@.snake.len(),
{
    if world.status == Status::Dead {
        return ;
    }
    let spawn = roll_spawn(world.screen);
    proof {
        let m = old(world)@;
        let m1 = key_step(spawn_step(m, spawn), key);
        assert(m1.snake == m.snake);
        assert(grow_safe(m1));
    }
    tick_with(world, spawn, key);
    proof {
        assert(spawn_in_bounds(spawn, old(world)@.screen) && world@ == tick_step(
            old(world)@,
            spawn,
            key,
        ));
    }
}

/// Delay policy: vertical motion waits the grid's max column in
/// milliseconds, horizontal motion its max row.
pub fn game_speed(d: Direction, screen: Screen) -> (r: u16)
    ensures
        (d == Direction::Up || d == Direction::Down) ==> r == screen.max_column,
        (d == Direction::Left || d == Direction::Right) ==> r == screen.max_row,
{
    match d {
        Direction::Up => screen.max_column,
        Direction::Down => screen.max_column,
        Direction::Left => screen.max_row,
        Direction::Right => screen.max_row,
    }
}

} // verus!
