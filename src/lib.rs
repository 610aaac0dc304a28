//! A two-player turn-based fighting game: a fixed table resolves each pair
//! of moves into health deltas, and a round tracks two clamped health bars.

use rand::Rng;
use vstd::prelude::*;

verus! {

/// One of the six actions a fighter can take in a tick.
#[derive(Clone, Copy, Debug, PartialEq, Eq, Structural)]
pub enum Move {
    Kick,
    Punch,
    Sweep,
    Crouch,
    Block,
    Jump,
}

/// The named category of a move pairing; each names one pair of deltas.
#[derive(Clone, Copy, Debug, PartialEq, Eq, Structural)]
pub enum Outcome {
    Win,
    Trade,
    Lose,
    Chip,
    Ouch,
    Dodge,
    Miss,
    Draw,
}

/// The (left, right) health deltas that an outcome stands for.
pub open spec fn outcome_deltas(o: Outcome) -> (int, int) {
    match o {
        Outcome::Win => (0, -2),
        Outcome::Trade => (-1, -1),
        Outcome::Lose => (-2, 0),
        Outcome::Chip => (0, -1),
        Outcome::Ouch => (-1, 0),
        Outcome::Dodge => (1, 0),
        Outcome::Miss => (0, 1),
        Outcome::Draw => (0, 0),
    }
}

/// The resolution table: the (left, right) health deltas of every ordered
/// pair of moves, row by left move, column by right move.
pub open spec fn resolve(left: Move, right: Move) -> (int, int) {
    match (left, right) {
        (Move::Kick, Move::Kick) => (-1, -1),
        (Move::Kick, Move::Punch) => (0, -2),
        (Move::Kick, Move::Sweep) => (-2, 0),
        (Move::Kick, Move::Crouch) => (0, 1),
        (Move::Kick, Move::Block) => (0, 0),
        (Move::Kick, Move::Jump) => (0, -1),

        (Move::Punch, Move::Kick) => (-2, 0),
        (Move::Punch, Move::Punch) => (-1, -1),
        (Move::Punch, Move::Sweep) => (0, -2),
        (Move::Punch, Move::Crouch) => (0, -1),
        (Move::Punch, Move::Block) => (0, 1),
        (Move::Punch, Move::Jump) => (0, 0),

        (Move::Sweep, Move::Kick) => (0, -2),
        (Move::Sweep, Move::Punch) => (-2, 0),
        (Move::Sweep, Move::Sweep) => (-1, -1),
        (Move::Sweep, Move::Crouch) => (0, 0),
        (Move::Sweep, Move::Block) => (0, -1),
        (Move::Sweep, Move::Jump) => (0, 1),

        (Move::Crouch, Move::Kick) => (1, 0),
        (Move::Crouch, Move::Punch) => (-1, 0),
        (Move::Crouch, _) => (0, 0),

        (Move::Block, Move::Punch) => (1, 0),
        (Move::Block, Move::Sweep) => (-1, 0),
        (Move::Block, _) => (0, 0),

        (Move::Jump, Move::Kick) => (-1, 0),
        (Move::Jump, Move::Sweep) => (1, 0),
        (Move::Jump, _) => (0, 0),
    }
}

impl Outcome {
    /// The (left, right) health deltas of this outcome.
    pub fn value(&self) -> (r: (i32, i32))
        ensures
            r.0 == outcome_deltas(*self).0,
            r.1 == outcome_deltas(*self).1,
    {
        match *self {
            Outcome::Win => (0, -2),
            Outcome::Trade => (-1, -1),
            Outcome::Lose => (-2, 0),
            Outcome::Chip => (0, -1),
            Outcome::Ouch => (-1, 0),
            Outcome::Dodge => (1, 0),
            Outcome::Miss => (0, 1),
            Outcome::Draw => (0, 0),
        }
    }
}

/// Resolves one tick: the (left, right) health deltas when `left` meets `right`.
pub fn turn(left: &Move, right: &Move) -> (r: (i32, i32))
    ensures
        r.0 == resolve(*left, *right).0,
        r.1 == resolve(*left, *right).1,
{
    let outcome = match left {
        Move::Kick => match right {
            Move::Kick => Outcome::Trade,
            Move::Punch => Outcome::Win,
            Move::Sweep => Outcome::Lose,
            Move::Crouch => Outcome::Miss,
            Move::Block => Outcome::Draw,
            Move::Jump => Outcome::Chip,
        },
        Move::Punch => match right {
            Move::Kick => Outcome::Lose,
            Move::Punch => Outcome::Trade,
            Move::Sweep => Outcome::Win,
            Move::Crouch => Outcome::Chip,
            Move::Block => Outcome::Miss,
            Move::Jump => Outcome::Draw,
        },
        Move::Sweep => match right {
            Move::Kick => Outcome::Win,
            Move::Punch => Outcome::Lose,
            Move::Sweep => Outcome::Trade,
            Move::Crouch => Outcome::Draw,
            Move::Block => Outcome::Chip,
            Move::Jump => Outcome::Miss,
        },
        Move::Crouch => match right {
            Move::Kick => Outcome::Dodge,
            Move::Punch => Outcome::Ouch,
            _ => Outcome::Draw,
        },
        Move::Block => match right {
            Move::Punch => Outcome::Dodge,
            Move::Sweep => Outcome::Ouch,
            _ => Outcome::Draw,
        },
        Move::Jump => match right {
            Move::Kick => Outcome::Ouch,
            Move::Sweep => Outcome::Dodge,
            _ => Outcome::Draw,
        },
    };
    outcome.value()
}


/// The highest a health bar goes; each round starts there.
pub const MAX_HEALTH: i32 = 10;

/// A health value after a delta: held within [0, MAX_HEALTH].
pub open spec fn clamp_health(x: int) -> int {
    if x < 0 {
        0
    } else if x > MAX_HEALTH {
        MAX_HEALTH as int
    } else {
        x
    }
}

/// Adds `delta` to `health` and clamps the sum to [0, MAX_HEALTH].
pub fn apply_delta(health: i32, delta: i32) -> (r: i32)
    ensures
        r == clamp_health(health + delta),
        0 <= r <= MAX_HEALTH,
{
    let sum: i64 = health as i64 + delta as i64;
    if sum < 0 {
        0
    } else if sum > MAX_HEALTH as i64 {
        MAX_HEALTH
    } else {
        sum as i32
    }
}

/// Who took the round, by comparing the final health bars.
#[derive(Clone, Copy, Debug, PartialEq, Eq, Structural)]
pub enum Winner {
    Left,
    Right,
    Draw,
}

/// The two health bars of one game, `bars.0` for the left fighter and
/// `bars.1` for the right one.
#[derive(Clone, Copy, Debug)]
pub struct Round {
    pub bars: (i32, i32),
}

impl Round {
    /// Both bars lie within [0, MAX_HEALTH].
    pub open spec fn wf(&self) -> bool {
        0 <= self.bars.0 <= MAX_HEALTH && 0 <= self.bars.1 <= MAX_HEALTH
    }

    /// The round is over once either bar is used up.
    pub open spec fn finished(&self) -> bool {
        self.bars.0 <= 0 || self.bars.1 <= 0
    }

    /// The winner by the bars: the side with more health left.
    pub open spec fn winner_of(&self) -> Winner {
        if self.bars.0 > self.bars.1 {
            Winner::Left
        } else if self.bars.0 < self.bars.1 {
            Winner::Right
        } else {
            Winner::Draw
        }
    }

    /// The round after one tick in which `left` meets `right`: each bar
    /// takes its own delta from the table and is clamped on its own.
    pub open spec fn after(&self, left: Move, right: Move) -> Round {
        Round {
            bars: (
                clamp_health(self.bars.0 + resolve(left, right).0) as i32,
                clamp_health(self.bars.1 + resolve(left, right).1) as i32,
            ),
        }
    }

    /// A fresh round, both bars full.
    pub fn new() -> (r: Round)
        ensures
            r.bars == (MAX_HEALTH, MAX_HEALTH),
            r.wf(),
            !r.finished(),
    {
        Round { bars: (MAX_HEALTH, MAX_HEALTH) }
    }

    /// Whether either bar is used up.
    pub fn is_finished(&self) -> (r: bool)
        ensures
            r == self.finished(),
    {
        self.bars.0 <= 0 || self.bars.1 <= 0
    }

    /// Plays one tick: resolves the pair of moves and applies both deltas,
    /// each clamped to [0, MAX_HEALTH] from the bar's value before the tick.
    pub fn apply(&mut self, left: &Move, right: &Move)
        ensures
            *final(self) == old(self).after(*left, *right),
            final(self).wf(),
    {
        let deltas = turn(left, right);
        let l = apply_delta(self.bars.0, deltas.0);
        let r = apply_delta(self.bars.1, deltas.1);
        self.bars = (l, r);
    }

    /// The side with more health left wins; equal bars are a double KO.
    pub fn winner(&self) -> (r: Winner)
        ensures
            r == self.winner_of(),
    {
        if self.bars.0 > self.bars.1 {
            Winner::Left
        } else if self.bars.0 < self.bars.1 {
            Winner::Right
        } else {
            Winner::Draw
        }
    }
}


/// Kick, Punch and Sweep: the moves that attack.
pub open spec fn is_aggressive(m: Move) -> bool {
    m == Move::Kick || m == Move::Punch || m == Move::Sweep
}

/// Among the attacking moves, swapping the sides swaps the deltas: whatever
/// the left side takes when `left` meets `right`, the right side takes when
/// the two moves change places.
pub proof fn lemma_aggressive_swap(left: Move, right: Move)
    requires
        is_aggressive(left),
        is_aggressive(right),
    ensures
        resolve(right, left).0 == resolve(left, right).1,
        resolve(right, left).1 == resolve(left, right).0,
{
}

/// A bar that is empty stays empty under a delta that is not positive, and a
/// full bar stays full under a delta that is not negative.
pub proof fn lemma_clamp_at_bounds(delta: int)
    ensures
        delta <= 0 ==> clamp_health(0 + delta) == 0,
        delta >= 0 ==> clamp_health(MAX_HEALTH + delta) == MAX_HEALTH,
{
}

/// For bars within [0, MAX_HEALTH], a round is finished exactly when one
/// of the bars is at zero.
pub proof fn lemma_finished_iff_empty_bar(round: Round)
    requires
        round.wf(),
    ensures
        round.finished() <==> (round.bars.0 == 0 || round.bars.1 == 0),
{
}


/// The move that a number drawn from [0, 6) stands for; any larger number
/// stands for Jump.
pub open spec fn move_of_index(n: int) -> Move {
    if n == 0 {
        Move::Kick
    } else if n == 1 {
        Move::Punch
    } else if n == 2 {
        Move::Sweep
    } else if n == 3 {
        Move::Crouch
    } else if n == 4 {
        Move::Block
    } else {
        Move::Jump
    }
}

/// The move that a key selects: the first letter of its name.
pub open spec fn move_of_key(c: char) -> Option<Move> {
    if c == 'k' {
        Some(Move::Kick)
    } else if c == 'p' {
        Some(Move::Punch)
    } else if c == 's' {
        Some(Move::Sweep)
    } else if c == 'c' {
        Some(Move::Crouch)
    } else if c == 'b' {
        Some(Move::Block)
    } else if c == 'j' {
        Some(Move::Jump)
    } else {
        None
    }
}

/// The display label of a move: its name.
pub open spec fn move_label(m: Move) -> Seq<char> {
    match m {
        Move::Kick => "Kick"@,
        Move::Punch => "Punch"@,
        Move::Sweep => "Sweep"@,
        Move::Crouch => "Crouch"@,
        Move::Block => "Block"@,
        Move::Jump => "Jump"@,
    }
}

impl Move {
    /// The move numbered `n` in declaration order; numbers past the last
    /// move give Jump.
    pub fn from_index(n: u32) -> (r: Move)
        ensures
            r == move_of_index(n as int),
    {
        match n {
            0 => Move::Kick,
            1 => Move::Punch,
            2 => Move::Sweep,
            3 => Move::Crouch,
            4 => Move::Block,
            _ => Move::Jump,
        }
    }

    /// The move selected by a key press, or `None` for a key that selects
    /// no move.
    pub fn from_key(c: char) -> (r: Option<Move>)
        ensures
            r == move_of_key(c),
    {
        match c {
            'k' => Some(Move::Kick),
            'p' => Some(Move::Punch),
            's' => Some(Move::Sweep),
            'c' => Some(Move::Crouch),
            'b' => Some(Move::Block),
            'j' => Some(Move::Jump),
            _ => None,
        }
    }

    /// The move's name, for display.
    pub fn label(&self) -> (r: &'static str)
        ensures
            r@ == move_label(*self),
    {
        match *self {
            Move::Kick => "Kick",
            Move::Punch => "Punch",
            Move::Sweep => "Sweep",
            Move::Crouch => "Crouch",
            Move::Block => "Block",
            Move::Jump => "Jump",
        }
    }
}

/// Relies on rand::thread_rng and rand::Rng::gen_range, which returns a
/// value in [low, high): here a number below 6, drawn uniformly.
#[verifier::external_body]
fn draw_below_six() -> (r: u32)
    ensures
        r < 6,
{
    rand::thread_rng().gen_range(0u32, 6u32)
}

/// A move drawn uniformly at random, independently of earlier draws.
pub fn random_move() -> (r: Move)
    ensures
        exists|n: int| 0 <= n < 6 && r == move_of_index(n),
{
    let n = draw_below_six();
    Move::from_index(n)
}


/// The left fighter's bar: it fills from the right edge inward, one '#' for
/// each point of health, '-' for each point lost.
pub open spec fn left_bar(health: int) -> Seq<char> {
    Seq::new(MAX_HEALTH as nat, |i: int| if i < MAX_HEALTH - health { '-' } else { '#' })
}

/// The right fighter's bar: it fills from the left edge inward.
pub open spec fn right_bar(health: int) -> Seq<char> {
    Seq::new(MAX_HEALTH as nat, |i: int| if i < health { '#' } else { '-' })
}

/// The line that shows both bars of a round.
pub open spec fn bars_text(round: Round) -> Seq<char> {
    "YOU "@ + left_bar(round.bars.0 as int) + " VS "@ + right_bar(round.bars.1 as int) + " CPU\n"@
}

/// Renders both health bars of `round` as one line of text.
pub fn render_bars(round: &Round) -> (r: String)
    ensures
        r@ == bars_text(*round),
{
    let ghost start: Seq<char> = "YOU "@;
    let mut text = String::from_str("YOU ");
    let lost: i64 = MAX_HEALTH as i64 - round.bars.0 as i64;
    let mut index: i32 = 0;
    while index < MAX_HEALTH
        invariant
            0 <= index <= MAX_HEALTH,
            lost == MAX_HEALTH - round.bars.0,
            text@ == start + left_bar(round.bars.0 as int).take(index as int),
        decreases MAX_HEALTH - index,
    {
        let ghost before: Seq<char> = text@;
        proof {
            reveal_strlit("-");
            reveal_strlit("#");
        }
        if (index as i64) < lost {
            text.append("-");
        } else {
            text.append("#");
        }
        assert(text@ =~= before.push(left_bar(round.bars.0 as int)[index as int]));
        assert(left_bar(round.bars.0 as int).take(index + 1) =~= left_bar(
            round.bars.0 as int,
        ).take(index as int).push(left_bar(round.bars.0 as int)[index as int]));
        index += 1;
    }
    assert(left_bar(round.bars.0 as int).take(MAX_HEALTH as int) =~= left_bar(round.bars.0 as int));
    text.append(" VS ");
    let ghost middle: Seq<char> = text@;
    let mut index: i32 = 0;
    while index < MAX_HEALTH
        invariant
            0 <= index <= MAX_HEALTH,
            text@ == middle + right_bar(round.bars.1 as int).take(index as int),
        decreases MAX_HEALTH - index,
    {
        let ghost before: Seq<char> = text@;
        proof {
            reveal_strlit("-");
            reveal_strlit("#");
        }
        if index < round.bars.1 {
            text.append("#");
        } else {
            text.append("-");
        }
        assert(text@ =~= before.push(right_bar(round.bars.1 as int)[index as int]));
        assert(right_bar(round.bars.1 as int).take(index + 1) =~= right_bar(
            round.bars.1 as int,
        ).take(index as int).push(right_bar(round.bars.1 as int)[index as int]));
        index += 1;
    }
    assert(right_bar(round.bars.1 as int).take(MAX_HEALTH as int) =~= right_bar(round.bars.1 as int));
    text.append(" CPU\n");
    text
}

/// The closing message of a round for the player on the left.
pub open spec fn winner_message(w: Winner) -> Seq<char> {
    match w {
        Winner::Left => "You win!"@,
        Winner::Right => "You lose!"@,
        Winner::Draw => "Double KO!"@,
    }
}

impl Winner {
    /// The closing message, as the player on the left reads it.
    pub fn message(&self) -> (r: &'static str)
        ensures
            r@ == winner_message(*self),
    {
        match *self {
            Winner::Left => "You win!",
            Winner::Right => "You lose!",
            Winner::Draw => "Double KO!",
        }
    }
}

} // verus!
