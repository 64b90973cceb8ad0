//! The game engine: the playfield, the falling piece, the action queue,
//! gravity timing, scoring and leveling, and the per-tick state transition.

use vstd::prelude::*;

use crate::field::{
    Cell, PlayField, PLAY_FIELD_HEIGHT, PLAY_FIELD_WIDTH, cleared_count, compacted, empty_field,
    empty_row, field_wf, grid_rows, grid_width, kept_row_indices, kept_rows, row_complete,
    row_filled,
};
use crate::tetromino::{PieceView, Tetromino, TetrominoType, spawn_pos};

verus! {

/// The highest level the engine will advance to.
pub const MAX_LEVEL: u32 = 21;

/// Nanoseconds per frame at 60 frames per second.
pub const NANOS_PER_FRAME: u64 = 16666666;

/// A player (or gravity) action on the falling piece.
#[derive(Clone, Copy, Debug, PartialEq, Eq, Structural)]
pub enum GameAction {
    Rotate,
    MoveDown,
    MoveRight,
    MoveLeft,
}

/// An event handed to the engine by the input collaborator.
#[derive(Debug)]
pub enum InputEvent {
    Quit,
    TakeAction(GameAction),
}

/// The engine's per-tick outcome: keep running, or the game is over.
#[derive(Clone, Copy, Debug, PartialEq, Eq, Structural)]
pub enum OutputEvent {
    NoOp,
    Exit,
}

/// The duration of the given number of frames, in nanoseconds.
pub fn from_frames(frames: u64) -> (r: u64)
    requires
        frames * NANOS_PER_FRAME <= u64::MAX,
    ensures
        r == frames * NANOS_PER_FRAME,
{
    frames * NANOS_PER_FRAME
}

/// The classic stepped gravity curve: how many frames pass between automatic
/// descents at the given level.  Levels past the end of the table keep the
/// fastest value.
pub open spec fn spec_drop_frames(level: int) -> int {
    if level == 0 {
        53
    } else if level == 1 {
        49
    } else if level == 2 {
        45
    } else if level == 3 {
        41
    } else if level == 4 {
        37
    } else if level == 5 {
        33
    } else if level == 6 {
        28
    } else if level == 7 {
        22
    } else if level == 8 {
        17
    } else if level == 9 {
        11
    } else if level == 10 {
        10
    } else if level == 11 {
        9
    } else if level == 12 {
        8
    } else if level == 13 {
        7
    } else if level == 14 {
        6
    } else if level == 15 {
        6
    } else if level == 16 {
        5
    } else if level == 17 {
        5
    } else if level == 18 {
        4
    } else if level == 19 {
        4
    } else {
        3
    }
}

/// The drop interval for the given level, in nanoseconds.
pub open spec fn spec_drop_interval_nanos(level: int) -> int {
    spec_drop_frames(level) * NANOS_PER_FRAME
}

/// The time between automatic one-row descents at the given level.
pub fn drop_interval_nanos(level: u32) -> (r: u64)
    ensures
        r == spec_drop_interval_nanos(level as int),
{
    let frames: u64 = if level == 0 {
        53
    } else if level == 1 {
        49
    } else if level == 2 {
        45
    } else if level == 3 {
        41
    } else if level == 4 {
        37
    } else if level == 5 {
        33
    } else if level == 6 {
        28
    } else if level == 7 {
        22
    } else if level == 8 {
        17
    } else if level == 9 {
        11
    } else if level == 10 {
        10
    } else if level == 11 {
        9
    } else if level == 12 {
        8
    } else if level == 13 {
        7
    } else if level == 14 {
        6
    } else if level == 15 {
        6
    } else if level == 16 {
        5
    } else if level == 17 {
        5
    } else if level == 18 {
        4
    } else if level == 19 {
        4
    } else {
        3
    };
    from_frames(frames)
}

/// The mathematical state of the engine.
pub ghost struct GameState {
    pub level: int,
    pub score: int,
    pub lines_to_clear: int,
    pub field: Seq<Seq<Cell>>,
    pub piece: PieceView,
    pub should_exit: bool,
    pub queue: Seq<GameAction>,
    pub nanos_since_drop: int,
}

/// The falling piece is valid against the field: its rotation state index is
/// in range, its anchor sits inside the columns and at or below the spawn
/// row, and each of its absolute cells has a column inside the field and a
/// non-negative row.
pub open spec fn piece_ok(p: PieceView) -> bool {
    &&& p.wf()
    &&& 0 <= p.pos.0 < PLAY_FIELD_WIDTH
    &&& 0 <= p.pos.1 <= spawn_pos().1
    &&& forall|i: int|
        0 <= i < p.cells().len() ==> {
            &&& 0 <= (#[trigger] p.cells()[i]).0 < PLAY_FIELD_WIDTH
            &&& 0 <= p.cells()[i].1
        }
}

/// Every structural bound the engine maintains: the field has its fixed
/// dimensions, the piece is valid, and the counters are in their machine
/// ranges.
pub open spec fn state_wf(s: GameState) -> bool {
    &&& field_wf(s.field)
    &&& piece_ok(s.piece)
    &&& 0 <= s.level <= MAX_LEVEL
    &&& 0 <= s.score <= u32::MAX
    &&& 0 <= s.lines_to_clear <= u32::MAX
    &&& 0 <= s.nanos_since_drop <= u64::MAX
}

/// The tentative piece an action asks for, before any legality check.
pub open spec fn spec_move(p: PieceView, a: GameAction) -> PieceView {
    match a {
        GameAction::Rotate => p.spec_rotate(),
        GameAction::MoveDown => PieceView { pos: (p.pos.0, p.pos.1 - 1), ..p },
        GameAction::MoveRight => PieceView { pos: (p.pos.0 + 1, p.pos.1), ..p },
        GameAction::MoveLeft => PieceView { pos: (p.pos.0 - 1, p.pos.1), ..p },
    }
}

/// One absolute piece cell is acceptable: inside the columns, not below the
/// floor, and not overlapping a locked block (cells at or above the field's
/// top are acceptable while the piece falls in).
pub open spec fn cell_ok(f: Seq<Seq<Cell>>, c: (int, int)) -> bool {
    &&& 0 <= c.0 < PLAY_FIELD_WIDTH
    &&& 0 <= c.1
    &&& (c.1 < PLAY_FIELD_HEIGHT ==> !f[c.1][c.0].spec_is_block())
}

/// The piece may stand where it is: every one of its cells is acceptable.
pub open spec fn legal_placement(f: Seq<Seq<Cell>>, p: PieceView) -> bool {
    forall|i: int| 0 <= i < p.cells().len() ==> cell_ok(f, #[trigger] p.cells()[i])
}

/// Addition on a `u32` quantity that stops at the type's maximum.
pub open spec fn sat_add_u32(a: int, b: int) -> int {
    if a + b <= u32::MAX {
        a + b
    } else {
        u32::MAX as int
    }
}

/// Addition on a `u64` quantity that stops at the type's maximum.
pub open spec fn sat_add_u64(a: int, b: int) -> int {
    if a + b <= u64::MAX {
        a + b
    } else {
        u64::MAX as int
    }
}

/// The points one simultaneous clear of `n` rows is worth, before the level
/// multiplier.
pub open spec fn line_points(n: int) -> int {
    if n == 1 {
        40
    } else if n == 2 {
        100
    } else if n == 3 {
        300
    } else if n == 4 {
        1200
    } else {
        0
    }
}

/// The field after the first `k` cells of the piece are frozen into it.
pub open spec fn committed_prefix(f: Seq<Seq<Cell>>, p: PieceView, k: int) -> Seq<Seq<Cell>> {
    Seq::new(
        f.len(),
        |y: int|
            Seq::new(
                f[y].len(),
                |x: int|
                    if exists|i: int| 0 <= i < k && p.cells()[i] == (x, y) {
                        Cell::Block(p.kind)
                    } else {
                        f[y][x]
                    },
            ),
    )
}

/// The field after every cell of the piece is frozen into it.
pub open spec fn committed_field(f: Seq<Seq<Cell>>, p: PieceView) -> Seq<Seq<Cell>> {
    committed_prefix(f, p, p.cells().len() as int)
}

/// Some cell of the piece lies at or above the field's top row.
pub open spec fn above_ceiling(p: PieceView) -> bool {
    exists|i: int| 0 <= i < p.cells().len() && (#[trigger] p.cells()[i]).1 >= PLAY_FIELD_HEIGHT
}

/// A freshly spawned piece: rotation state 0 at the spawn anchor, of some
/// kind.
pub open spec fn spawned_piece(p: PieceView) -> bool {
    &&& p.rotation == 0
    &&& p.pos == spawn_pos()
    &&& p.wf()
}

/// How a line-clear pass changes the state: the field is compacted, the
/// score grows by the count's worth times `level + 1` (stopping at the
/// `u32` maximum), and the level advances exactly when the cleared count
/// strictly exceeds the lines remaining (capped at the maximum level, and
/// the remaining count resets to 10); otherwise the remaining count drops by
/// the cleared count.  Nothing else changes.
pub open spec fn clear_rel(pre: GameState, post: GameState) -> bool {
    let n = cleared_count(pre.field);
    &&& post.field == compacted(pre.field)
    &&& post.score == sat_add_u32(pre.score, line_points(n) * (pre.level + 1))
    &&& (if n > pre.lines_to_clear {
        &&& post.lines_to_clear == 10
        &&& post.level == (if pre.level < MAX_LEVEL {
            pre.level + 1
        } else {
            pre.level
        })
    } else {
        &&& post.lines_to_clear == pre.lines_to_clear - n
        &&& post.level == pre.level
    })
    &&& post.piece == pre.piece
    &&& post.should_exit == pre.should_exit
    &&& post.queue == pre.queue
    &&& post.nanos_since_drop == pre.nanos_since_drop
}

/// How a commit changes the state.  A piece with a cell at or above the
/// field's top ends the game: Exit, with the state untouched.  Otherwise the
/// piece's cells are frozen into the field, a fresh piece of some kind
/// spawns, and a line-clear pass runs over the frozen field.
pub open spec fn commit_rel(pre: GameState, post: GameState, r: OutputEvent) -> bool {
    if above_ceiling(pre.piece) {
        &&& r is Exit
        &&& post == pre
    } else {
        &&& r is NoOp
        &&& spawned_piece(post.piece)
        &&& clear_rel(
            GameState { field: committed_field(pre.field, pre.piece), piece: post.piece, ..pre },
            post,
        )
    }
}

/// How one action changes the state.  The tentative piece stands if its
/// placement is legal; an illegal rotation or horizontal move is rolled back
/// with no other effect; an illegal downward move commits the piece.
pub open spec fn take_action_rel(
    pre: GameState,
    a: GameAction,
    post: GameState,
    r: OutputEvent,
) -> bool {
    let moved = spec_move(pre.piece, a);
    if legal_placement(pre.field, moved) {
        &&& post == GameState { piece: moved, ..pre }
        &&& r is NoOp
    } else if !(a is MoveDown) {
        &&& post == pre
        &&& r is NoOp
    } else {
        commit_rel(pre, post, r)
    }
}

/// Applying a sequence of actions in order, stopping at the first Exit: an
/// empty sequence leaves the state unchanged with NoOp; otherwise the first
/// action relates the state to some middle state, and an Exit there is
/// propagated at once while a NoOp continues with the remaining actions.
pub open spec fn run_actions_rel(
    pre: GameState,
    actions: Seq<GameAction>,
    post: GameState,
    r: OutputEvent,
) -> bool
    decreases actions.len(),
{
    if actions.len() == 0 {
        &&& post == pre
        &&& r is NoOp
    } else {
        exists|mid: GameState, r0: OutputEvent|
            {
                &&& #[trigger] take_action_rel(pre, actions[0], mid, r0)
                &&& if r0 is Exit {
                    post == mid && r is Exit
                } else {
                    run_actions_rel(mid, actions.drop_first(), post, r)
                }
            }
    }
}

/// The gravity step at the end of a tick: the elapsed time is added to the
/// accumulator (stopping at the `u64` maximum); once it exceeds the level's
/// drop interval, the accumulator resets and an automatic downward move is
/// applied; otherwise only the accumulator changes.
pub open spec fn gravity_rel(mid: GameState, elapsed: int, post: GameState, r: OutputEvent) -> bool {
    let acc = sat_add_u64(mid.nanos_since_drop, elapsed);
    if acc > spec_drop_interval_nanos(mid.level) {
        take_action_rel(
            GameState { nanos_since_drop: 0, ..mid },
            GameAction::MoveDown,
            post,
            r,
        )
    } else {
        &&& post == (GameState { nanos_since_drop: acc, ..mid })
        &&& r is NoOp
    }
}

/// One tick: a set exit flag returns Exit with nothing changed; otherwise
/// the queue is drained up front and its actions applied in arrival order,
/// an Exit is propagated at once, and otherwise the gravity step runs.
pub open spec fn tick_rel(pre: GameState, elapsed: int, post: GameState, r: OutputEvent) -> bool {
    if pre.should_exit {
        &&& post == pre
        &&& r is Exit
    } else {
        let drained = GameState { queue: Seq::empty(), ..pre };
        exists|mid: GameState, r0: OutputEvent|
            {
                &&& #[trigger] run_actions_rel(drained, pre.queue, mid, r0)
                &&& if r0 is Exit {
                    post == mid && r is Exit
                } else {
                    gravity_rel(mid, elapsed, post, r)
                }
            }
    }
}

/// The engine.
pub struct Tetris {
    level: u32,
    score: u32,
    lines_to_clear_before_next_level: u32,
    play_field: PlayField,
    current_tetromino: Tetromino,
    should_exit: bool,
    action_queue: Vec<GameAction>,
    nanos_since_last_move: u64,
}

impl View for Tetris {
    type V = GameState;

    closed spec fn view(&self) -> GameState {
        GameState {
            level: self.level as int,
            score: self.score as int,
            lines_to_clear: self.lines_to_clear_before_next_level as int,
            field: grid_rows(self.play_field),
            piece: self.current_tetromino@,
            should_exit: self.should_exit,
            queue: self.action_queue@,
            nanos_since_drop: self.nanos_since_last_move as int,
        }
    }
}

impl Tetris {
    /// The engine's internal invariant: the grid really is the fixed size
    /// and the state is well formed.
    pub closed spec fn wf(&self) -> bool {
        &&& grid_width(self.play_field) == PLAY_FIELD_WIDTH as int
        &&& state_wf(self@)
    }

    /// Law: every well-formed engine satisfies the open structural bounds;
    /// in particular every absolute cell of the falling piece has a column
    /// in `[0, PLAY_FIELD_WIDTH)`, and the field holds exactly its fixed
    /// rows and columns.
    pub proof fn lemma_wf_state(&self)
        requires
            self.wf(),
        ensures
            state_wf(self@),
    {
    }

    /// A fresh game at the given starting level: an empty field, a random
    /// piece at the spawn anchor, score 0, and `level * 10 + 10` lines to
    /// clear before the first level-up.
    pub fn new(level: u32) -> (t: Self)
        requires
            level <= MAX_LEVEL,
        ensures
            t.wf(),
            t@.level == level,
            t@.score == 0,
            t@.lines_to_clear == level * 10 + 10,
            t@.field == empty_field(),
            spawned_piece(t@.piece),
            t@.should_exit == false,
            t@.queue == Seq::<GameAction>::empty(),
            t@.nanos_since_drop == 0,
    {
        let play_field = PlayField::new_filled(PLAY_FIELD_WIDTH, PLAY_FIELD_HEIGHT, Cell::Empty);
        let current_tetromino = Tetromino::random();
        let t = Tetris {
            level,
            score: 0,
            lines_to_clear_before_next_level: (level * 10) + 10,
            play_field,
            current_tetromino,
            should_exit: false,
            action_queue: Vec::<GameAction>::new(),
            nanos_since_last_move: 0,
        };
        proof {
            assert(t@.field =~~= empty_field());
            lemma_spawned_piece_ok(t@.piece);
            assert(t@.queue =~= Seq::<GameAction>::empty());
        }
        t
    }

    /// Record an input event: a quit signal sets the exit flag; an action is
    /// appended to the queue, to be applied on the next tick.
    pub fn recieve_event(&mut self, input_event: InputEvent)
        requires
            old(self).wf(),
        ensures
            final(self).wf(),
            match input_event {
                InputEvent::Quit => final(self)@ == (GameState {
                    should_exit: true,
                    ..old(self)@
                }),
                InputEvent::TakeAction(a) => final(self)@ == (GameState {
                    queue: old(self)@.queue.push(a),
                    ..old(self)@
                }),
            },
    {
        match input_event {
            InputEvent::Quit => {
                self.should_exit = true;
            },
            InputEvent::TakeAction(action) => {
                self.action_queue.push(action);
            },
        }
    }

    /// The falling piece, read-only.
    pub fn get_current_tetromino(&self) -> (t: &Tetromino)
        ensures
            t@ == self@.piece,
    {
        &self.current_tetromino
    }

    /// The current score.
    pub fn get_score(&self) -> (s: u32)
        ensures
            s == self@.score,
    {
        self.score
    }

    /// The current level.
    pub fn get_level(&self) -> (l: u32)
        ensures
            l == self@.level,
    {
        self.level
    }

    /// How many more cleared lines the next level-up needs.
    pub fn get_lines_to_clear_before_next_level(&self) -> (n: u32)
        ensures
            n == self@.lines_to_clear,
    {
        self.lines_to_clear_before_next_level
    }

    /// The playfield cell at column `x`, row `y` (row 0 at the bottom).
    pub fn get_cell(&self, x: usize, y: usize) -> (c: Cell)
        requires
            self.wf(),
            x < PLAY_FIELD_WIDTH,
            y < PLAY_FIELD_HEIGHT,
        ensures
            c == self@.field[y as int][x as int],
    {
        self.play_field.get(x, y)
    }

    /// Write a cell value directly into the playfield, e.g. to set up a
    /// position.
    pub fn set_cell(&mut self, x: usize, y: usize, c: Cell)
        requires
            old(self).wf(),
            x < PLAY_FIELD_WIDTH,
            y < PLAY_FIELD_HEIGHT,
        ensures
            final(self).wf(),
            final(self)@ == (GameState {
                field: old(self)@.field.update(
                    y as int,
                    old(self)@.field[y as int].update(x as int, c),
                ),
                ..old(self)@
            }),
    {
        self.play_field.set(x, y, c);
    }

    /// Replace the falling piece, e.g. to set up a position.
    pub fn set_current_tetromino(&mut self, t: Tetromino)
        requires
            old(self).wf(),
            piece_ok(t@),
        ensures
            final(self).wf(),
            final(self)@ == (GameState { piece: t@, ..old(self)@ }),
    {
        self.current_tetromino = t;
    }
}

/// Law (line clear correctness): when exactly rows 3 and 7 of the field are
/// complete and every other row is not, a line-clear pass removes those two
/// rows, shifts the rows above each of them down to fill the gaps in their
/// original order, appends two empty rows at the top, and awards
/// `100 * (level + 1)` points (stated where the award stays below the
/// score's machine maximum; past it the score saturates there).
pub proof fn lemma_line_clear_rows_three_and_seven(pre: GameState, post: GameState)
    requires
        clear_rel(pre, post),
        field_wf(pre.field),
        row_complete(pre.field[3]),
        row_complete(pre.field[7]),
        forall|y: int|
            0 <= y < PLAY_FIELD_HEIGHT && y != 3 && y != 7 ==> !row_complete(
                #[trigger] pre.field[y],
            ),
        pre.score + 100 * (pre.level + 1) <= u32::MAX,
    ensures
        post.score == pre.score + 100 * (pre.level + 1),
        post.field.len() == PLAY_FIELD_HEIGHT,
        forall|y: int| 0 <= y < 3 ==> #[trigger] post.field[y] == pre.field[y],
        forall|y: int| 3 <= y < 6 ==> #[trigger] post.field[y] == pre.field[y + 1],
        forall|y: int| 6 <= y < 18 ==> #[trigger] post.field[y] == pre.field[y + 2],
        forall|y: int| 18 <= y < 20 ==> #[trigger] post.field[y] == empty_row(),
{
    let f = pre.field;
    crate::field::lemma_kept_rows_are_indexed_rows(f, 20);
    assert(f.take(20) =~= f);
    let idx = kept_row_indices(f, 20);
    assert(idx =~= seq![0int, 1, 2, 4, 5, 6, 8, 9, 10, 11, 12, 13, 14, 15, 16, 17, 18, 19]) by {
        reveal_with_fuel(kept_row_indices, 21);
    }
    assert(kept_rows(f).len() == 18);
    assert(cleared_count(f) == 2);
}

/// Law (level-up boundary): a clear of four rows against a remaining-lines
/// counter of three strictly exceeds it, so the level advances by exactly
/// one (capped at the maximum level), the counter resets to 10, and the
/// clear is worth `1200 * (level + 1)` points (stated where the award stays
/// below the score's machine maximum; past it the score saturates there).
pub proof fn lemma_level_up_boundary(pre: GameState, post: GameState)
    requires
        clear_rel(pre, post),
        pre.lines_to_clear == 3,
        cleared_count(pre.field) == 4,
        pre.score + 1200 * (pre.level + 1) <= u32::MAX,
    ensures
        post.level == (if pre.level < MAX_LEVEL {
            pre.level + 1
        } else {
            pre.level
        }),
        post.lines_to_clear == 10,
        post.score == pre.score + 1200 * (pre.level + 1),
{
}

/// The score and the level never decrease across one action.
proof fn lemma_action_monotonic(pre: GameState, a: GameAction, post: GameState, r: OutputEvent)
    requires
        take_action_rel(pre, a, post, r),
        0 <= pre.score <= u32::MAX,
        0 <= pre.level,
    ensures
        pre.score <= post.score <= u32::MAX,
        pre.level <= post.level,
        0 <= post.level,
{
    let moved = spec_move(pre.piece, a);
    if !legal_placement(pre.field, moved) && a is MoveDown && !above_ceiling(pre.piece) {
        let n = cleared_count(committed_field(pre.field, pre.piece));
        vstd::arithmetic::mul::lemma_mul_nonnegative(line_points(n), pre.level + 1);
    }
}

/// The score and the level never decrease across a drained action queue.
proof fn lemma_run_monotonic(
    pre: GameState,
    actions: Seq<GameAction>,
    post: GameState,
    r: OutputEvent,
)
    requires
        run_actions_rel(pre, actions, post, r),
        0 <= pre.score <= u32::MAX,
        0 <= pre.level,
    ensures
        pre.score <= post.score <= u32::MAX,
        pre.level <= post.level,
        0 <= post.level,
    decreases actions.len(),
{
    if actions.len() > 0 {
        let (mid, r0) = choose|mid: GameState, r0: OutputEvent|
            {
                &&& #[trigger] take_action_rel(pre, actions[0], mid, r0)
                &&& if r0 is Exit {
                    post == mid && r is Exit
                } else {
                    run_actions_rel(mid, actions.drop_first(), post, r)
                }
            };
        lemma_action_monotonic(pre, actions[0], mid, r0);
        if !(r0 is Exit) {
            lemma_run_monotonic(mid, actions.drop_first(), post, r);
        }
    }
}

/// Law: the score and the level never decrease: across any tick, whatever
/// actions were queued and whatever the gravity step did, the score and the
/// level after the tick are at least what they were before it.
pub proof fn lemma_tick_monotonic(pre: GameState, elapsed: int, post: GameState, r: OutputEvent)
    requires
        tick_rel(pre, elapsed, post, r),
        0 <= pre.score <= u32::MAX,
        0 <= pre.level,
    ensures
        pre.score <= post.score <= u32::MAX,
        pre.level <= post.level,
{
    if !pre.should_exit {
        let drained = GameState { queue: Seq::empty(), ..pre };
        let (mid, r0) = choose|mid: GameState, r0: OutputEvent|
            {
                &&& #[trigger] run_actions_rel(drained, pre.queue, mid, r0)
                &&& if r0 is Exit {
                    post == mid && r is Exit
                } else {
                    gravity_rel(mid, elapsed, post, r)
                }
            };
        lemma_run_monotonic(drained, pre.queue, mid, r0);
        if !(r0 is Exit) {
            let acc = sat_add_u64(mid.nanos_since_drop, elapsed);
            if acc > spec_drop_interval_nanos(mid.level) {
                lemma_action_monotonic(
                    GameState { nanos_since_drop: 0, ..mid },
                    GameAction::MoveDown,
                    post,
                    r,
                );
            }
        }
    }
}

/// A piece at the spawn anchor is valid for the field: its cells sit in
/// columns 4..=7 and at rows 18 and above.
pub proof fn lemma_spawned_piece_ok(p: PieceView)
    requires
        spawned_piece(p),
    ensures
        piece_ok(p),
{
    crate::tetromino::lemma_offsets_bounded(p.kind, p.rotation);
}

/// A legally placed piece whose anchor is not above the spawn row is valid:
/// the anchor itself is one of the piece's cells, so its bounds follow from
/// the cells' bounds.
proof fn lemma_legal_piece_ok(f: Seq<Seq<Cell>>, p: PieceView)
    requires
        p.wf(),
        legal_placement(f, p),
        p.pos.1 <= spawn_pos().1,
    ensures
        piece_ok(p),
{
    crate::tetromino::lemma_anchor_cell(p.kind, p.rotation);
    let i = choose|i: int|
        0 <= i < p.offsets().len() && p.offsets()[i] == (0i32, 0i32);
    assert(p.cells()[i] == p.pos);
    assert(cell_ok(f, p.cells()[i]));
}

impl Tetris {
    /// Whether the falling piece's current placement is legal: every cell in
    /// the columns, none below the floor, none overlapping a locked block.
    fn piece_fits(&self) -> (r: bool)
        requires
            grid_width(self.play_field) == PLAY_FIELD_WIDTH as int,
            field_wf(self@.field),
            self@.piece.wf(),
            -1 <= self@.piece.pos.0 <= PLAY_FIELD_WIDTH as int,
            -1 <= self@.piece.pos.1 <= spawn_pos().1,
        ensures
            r == legal_placement(self@.field, self@.piece),
    {
        let ghost p = self@.piece;
        let ghost f = self@.field;
        let positions = self.current_tetromino.get_positions();
        let (x_origin, y_origin) = self.current_tetromino.position;
        proof {
            crate::tetromino::lemma_offsets_bounded(p.kind, p.rotation);
        }
        let mut i: usize = 0;
        while i < 4
            invariant
                i <= 4,
                p == self@.piece,
                f == self@.field,
                field_wf(f),
                positions@ == p.offsets(),
                p.cells().len() == 4,
                x_origin as int == p.pos.0,
                y_origin as int == p.pos.1,
                -1 <= p.pos.0 <= PLAY_FIELD_WIDTH as int,
                -1 <= p.pos.1 <= spawn_pos().1,
                forall|j: int|
                    0 <= j < p.offsets().len() ==> {
                        &&& -1 <= (#[trigger] p.offsets()[j]).0 <= 2
                        &&& -1 <= p.offsets()[j].1 <= 2
                    },
                forall|j: int| 0 <= j < i ==> cell_ok(f, #[trigger] p.cells()[j]),
            decreases 4 - i,
        {
            let (x_offset, y_offset) = positions[i];
            let x = x_origin + x_offset;
            let y = y_origin + y_offset;
            proof {
                assert(p.cells()[i as int] == (x as int, y as int));
            }
            if x < 0 || x >= PLAY_FIELD_WIDTH as i32 {
                assert(!cell_ok(f, p.cells()[i as int]));
                return false;
            }
            if y < 0 {
                assert(!cell_ok(f, p.cells()[i as int]));
                return false;
            }
            if y < PLAY_FIELD_HEIGHT as i32 {
                if self.play_field.get(x as usize, y as usize).is_block() {
                    assert(!cell_ok(f, p.cells()[i as int]));
                    return false;
                }
            }
            assert(cell_ok(f, p.cells()[i as int]));
            i += 1;
        }
        true
    }

    /// Apply one action to the falling piece, with collision checking and
    /// rollback; a downward move that cannot happen commits the piece.
    pub fn take_action(&mut self, action: GameAction) -> (r: OutputEvent)
        requires
            old(self).wf(),
        ensures
            final(self).wf(),
            take_action_rel(old(self)@, action, final(self)@, r),
    {
        let ghost pre = old(self)@;
        let tetronimo_backup = self.current_tetromino;
        match action {
            GameAction::Rotate => {
                self.current_tetromino.rotate();
            },
            GameAction::MoveDown => {
                let (x, y) = self.current_tetromino.position;
                self.current_tetromino.position = (x, y - 1);
            },
            GameAction::MoveRight => {
                let (x, y) = self.current_tetromino.position;
                self.current_tetromino.position = (x + 1, y);
            },
            GameAction::MoveLeft => {
                let (x, y) = self.current_tetromino.position;
                self.current_tetromino.position = (x - 1, y);
            },
        }
        proof {
            assert(self@.piece == spec_move(pre.piece, action));
            assert(self@ == (GameState { piece: spec_move(pre.piece, action), ..pre }));
        }
        let legal_move = self.piece_fits();

        if !legal_move {
            self.current_tetromino = tetronimo_backup;
            proof {
                assert(self@ == pre);
            }
            match action {
                GameAction::MoveDown => {
                    return self.commit_current_tetromino();
                },
                _ => {
                    return OutputEvent::NoOp;
                },
            }
        }
        proof {
            lemma_legal_piece_ok(pre.field, self@.piece);
        }
        OutputEvent::NoOp
    }

    /// Freeze the falling piece into the field, spawn a fresh piece and run
    /// a line-clear pass; a piece with a cell at or above the field's top
    /// ends the game instead, leaving the state untouched.
    pub fn commit_current_tetromino(&mut self) -> (r: OutputEvent)
        requires
            old(self).wf(),
        ensures
            final(self).wf(),
            commit_rel(old(self)@, final(self)@, r),
    {
        let ghost pre = old(self)@;
        let ghost p = pre.piece;
        let positions = self.current_tetromino.get_positions();
        let (x_origin, y_origin) = self.current_tetromino.position;

        let mut i: usize = 0;
        while i < 4
            invariant
                i <= 4,
                self == old(self),
                self.wf(),
                pre == self@,
                p == pre.piece,
                positions@ == p.offsets(),
                p.cells().len() == 4,
                x_origin as int == p.pos.0,
                y_origin as int == p.pos.1,
                forall|j: int| 0 <= j < i ==> (#[trigger] p.cells()[j]).1 < PLAY_FIELD_HEIGHT,
            decreases 4 - i,
        {
            proof {
                crate::tetromino::lemma_offsets_bounded(p.kind, p.rotation);
            }
            let (x_offset, y_offset) = positions[i];
            let y = y_origin + y_offset;
            proof {
                assert(p.cells()[i as int].1 == y as int);
            }
            if y >= PLAY_FIELD_HEIGHT as i32 {
                proof {
                    assert(above_ceiling(p)) by {
                        assert(p.cells()[i as int].1 >= PLAY_FIELD_HEIGHT);
                    }
                }
                return OutputEvent::Exit;
            }
            i += 1;
        }
        assert(!above_ceiling(p));

        let kind = self.current_tetromino.tetromino_type;
        proof {
            assert(committed_prefix(pre.field, p, 0) =~~= pre.field);
        }
        let mut i: usize = 0;
        while i < 4
            invariant
                i <= 4,
                p == pre.piece,
                piece_ok(p),
                kind == p.kind,
                positions@ == p.offsets(),
                p.cells().len() == 4,
                x_origin as int == p.pos.0,
                y_origin as int == p.pos.1,
                forall|j: int| 0 <= j < 4 ==> (#[trigger] p.cells()[j]).1 < PLAY_FIELD_HEIGHT,
                field_wf(pre.field),
                grid_width(self.play_field) == PLAY_FIELD_WIDTH as int,
                self@ == (GameState { field: committed_prefix(pre.field, p, i as int), ..pre }),
                state_wf(pre),
            decreases 4 - i,
        {
            proof {
                crate::tetromino::lemma_offsets_bounded(p.kind, p.rotation);
            }
            let (x_offset, y_offset) = positions[i];
            let x = x_origin + x_offset;
            let y = y_origin + y_offset;
            proof {
                assert(p.cells()[i as int] == (x as int, y as int));
                assert(0 <= p.cells()[i as int].0 < PLAY_FIELD_WIDTH);
                assert(0 <= p.cells()[i as int].1 < PLAY_FIELD_HEIGHT);
                assert(committed_prefix(pre.field, p, i as int)[y as int].len()
                    == PLAY_FIELD_WIDTH);
            }
            self.play_field.set(x as usize, y as usize, Cell::Block(kind));
            proof {
                assert(grid_rows(self.play_field) =~~= committed_prefix(
                    pre.field,
                    p,
                    i as int + 1,
                ));
            }
            i += 1;
        }
        proof {
            assert(grid_rows(self.play_field) == committed_field(pre.field, p));
        }

        self.current_tetromino = Tetromino::random();
        proof {
            lemma_spawned_piece_ok(self@.piece);
            assert(field_wf(self@.field));
        }
        let ghost mid = self@;
        assert(mid == (GameState { field: committed_field(pre.field, p), piece: mid.piece, ..pre }));

        self.clear_lines();
        OutputEvent::NoOp
    }

    /// One tick of the state machine.  If the quit flag is set the game is
    /// over.  Otherwise the action queue is drained and applied in arrival
    /// order (an Exit from a commit ends the tick at once), and then, if the
    /// accumulated elapsed time exceeds the level's drop interval, an
    /// automatic downward move is applied and the accumulator resets.
    pub fn game_tick(&mut self, elapsed_nanos: u64) -> (r: OutputEvent)
        requires
            old(self).wf(),
        ensures
            final(self).wf(),
            tick_rel(old(self)@, elapsed_nanos as int, final(self)@, r),
    {
        let ghost pre = old(self)@;
        if self.should_exit {
            return OutputEvent::Exit;
        }

        let mut actions: Vec<GameAction> = Vec::new();
        core::mem::swap(&mut actions, &mut self.action_queue);
        let ghost drained = GameState { queue: Seq::empty(), ..pre };
        proof {
            assert(self@.queue =~= drained.queue);
            assert(self@ == drained);
            assert(actions@ == pre.queue);
            assert(actions@.skip(0) =~= actions@);
        }

        let mut i: usize = 0;
        while i < actions.len()
            invariant
                i <= actions@.len(),
                self.wf(),
                pre == old(self)@,
                !pre.should_exit,
                actions@ == pre.queue,
                drained == (GameState { queue: Seq::<GameAction>::empty(), ..pre }),
                forall|post: GameState, rr: OutputEvent|
                    #[trigger] run_actions_rel(self@, actions@.skip(i as int), post, rr)
                        ==> run_actions_rel(drained, actions@, post, rr),
            decreases actions@.len() - i,
        {
            let a = actions[i];
            let ghost s_before = self@;
            let ghost remaining = actions@.skip(i as int);
            proof {
                assert(remaining[0] == a);
                assert(remaining.drop_first() =~= actions@.skip(i as int + 1));
            }
            let out = self.take_action(a);

            if let OutputEvent::Exit = out {
                proof {
                    assert(run_actions_rel(s_before, remaining, self@, OutputEvent::Exit)) by {
                        assert(take_action_rel(s_before, remaining[0], self@, out));
                    }
                    assert(run_actions_rel(drained, pre.queue, self@, OutputEvent::Exit));
                    assert(tick_rel(pre, elapsed_nanos as int, self@, OutputEvent::Exit)) by {
                        assert(run_actions_rel(
                            GameState { queue: Seq::empty(), ..pre },
                            pre.queue,
                            self@,
                            OutputEvent::Exit,
                        ));
                    }
                }
                return OutputEvent::Exit;
            }
            proof {
                assert forall|post: GameState, rr: OutputEvent|
                    #[trigger] run_actions_rel(self@, actions@.skip(i as int + 1), post, rr)
                        implies run_actions_rel(drained, actions@, post, rr) by {
                    assert(run_actions_rel(s_before, remaining, post, rr)) by {
                        assert(take_action_rel(s_before, remaining[0], self@, out));
                        assert(run_actions_rel(self@, remaining.drop_first(), post, rr));
                    }
                }
            }
            i += 1;
        }
        proof {
            assert(actions@.skip(i as int) =~= Seq::<GameAction>::empty());
            assert(run_actions_rel(self@, actions@.skip(i as int), self@, OutputEvent::NoOp));
            assert(run_actions_rel(drained, pre.queue, self@, OutputEvent::NoOp));
        }
        let ghost mid = self@;

        let acc = if self.nanos_since_last_move <= u64::MAX - elapsed_nanos {
            self.nanos_since_last_move + elapsed_nanos
        } else {
            u64::MAX
        };
        assert(acc as int == sat_add_u64(mid.nanos_since_drop, elapsed_nanos as int));
        let interval = drop_interval_nanos(self.level);
        if acc > interval {
            self.nanos_since_last_move = 0;
            proof {
                assert(self@ == (GameState { nanos_since_drop: 0, ..mid }));
            }
            let out = self.take_action(GameAction::MoveDown);
            proof {
                assert(gravity_rel(mid, elapsed_nanos as int, self@, out));
            }
            out
        } else {
            self.nanos_since_last_move = acc;
            proof {
                assert(self@ == (GameState { nanos_since_drop: acc as int, ..mid }));
                assert(gravity_rel(mid, elapsed_nanos as int, self@, OutputEvent::NoOp));
            }
            OutputEvent::NoOp
        }
    }

    /// Detect and remove every complete row, award the score for the count
    /// cleared, advance the level when the count exceeds the lines remaining,
    /// and compact the field.
    pub fn clear_lines(&mut self)
        requires
            old(self).wf(),
        ensures
            final(self).wf(),
            clear_rel(old(self)@, final(self)@),
    {
        let ghost pre = old(self)@;
        let ghost f = pre.field;
        let mut keep: Vec<usize> = Vec::new();
        let mut y: usize = 0;
        while y < PLAY_FIELD_HEIGHT
            invariant
                y <= PLAY_FIELD_HEIGHT,
                self == old(self),
                self.wf(),
                pre == self@,
                f == pre.field,
                field_wf(f),
                keep@.len() <= y,
                forall|j: int| 0 <= j < keep@.len() ==> #[trigger] keep@[j] < y,
                Seq::new(keep@.len() as nat, |j: int| f[keep@[j] as int]) == kept_rows(
                    f.take(y as int),
                ),
            decreases PLAY_FIELD_HEIGHT - y,
        {
            let ghost mapped = Seq::new(keep@.len() as nat, |j: int| f[keep@[j] as int]);
            let complete = row_filled(&self.play_field, y);
            proof {
                crate::field::lemma_kept_rows_push(f.take(y as int), f[y as int]);
                assert(f.take(y as int + 1) =~= f.take(y as int).push(f[y as int]));
            }
            if !complete {
                keep.push(y);
                proof {
                    assert(Seq::new(keep@.len() as nat, |j: int| f[keep@[j] as int]) =~= mapped.push(
                        f[y as int],
                    ));
                }
            }
            y += 1;
        }
        proof {
            assert(f.take(PLAY_FIELD_HEIGHT as int) =~= f);
        }
        let ghost n = cleared_count(f);

        let kept_count = keep.len();
        let cleared = PLAY_FIELD_HEIGHT - kept_count;
        assert(cleared as int == n);

        let points: u32 = if cleared == 1 {
            40
        } else if cleared == 2 {
            100
        } else if cleared == 3 {
            300
        } else if cleared == 4 {
            1200
        } else {
            0
        };
        assert(points == line_points(n));
        let bonus = points * (self.level + 1);
        self.score = if self.score <= u32::MAX - bonus {
            self.score + bonus
        } else {
            u32::MAX
        };

        if (cleared as u32) > self.lines_to_clear_before_next_level {
            self.lines_to_clear_before_next_level = 10;
            if self.level < MAX_LEVEL {
                self.level = self.level + 1;
            }
        } else {
            self.lines_to_clear_before_next_level = self.lines_to_clear_before_next_level - (
            cleared as u32);
        }

        let kept_grid = self.play_field.select_rows(&keep);
        let empty_grid = PlayField::new_filled(PLAY_FIELD_WIDTH, cleared, Cell::Empty);
        self.play_field = kept_grid.concat_rows(&empty_grid);
        proof {
            assert(grid_rows(self.play_field) =~~= compacted(f));
            assert(field_wf(self@.field)) by {
                assert(forall|yy: int|
                    0 <= yy < grid_rows(self.play_field).len() ==> (#[trigger] grid_rows(
                        self.play_field,
                    )[yy]).len() == PLAY_FIELD_WIDTH);
            }
        }
    }
}

} // verus!
