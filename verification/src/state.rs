//! The shared simulation state: the current board, pacing values and a
//! per-cell color overlay, held behind one lock so that a stepping
//! thread and any number of observers never see it half-updated.

use std::sync::Arc;
use vstd::prelude::*;
use vstd::rwlock::{RwLock, RwLockPredicate, WriteHandle};

use crate::life::Board;

verus! {

/// An RGBA overlay color for one cell, with 8-bit channels.
#[derive(Clone, Copy, PartialEq, Eq, Structural, Debug)]
pub struct Color {
    pub red: u8,
    pub green: u8,
    pub blue: u8,
    pub alpha: u8,
}

/// The complete mutable simulation state that collaborators observe.
pub struct State {
    /// The simulated clock in microseconds; it advances only while the
    /// animation is unpaused.
    pub time_micros: u64,
    /// The speed factor in thousandths: 1000 is normal speed, 2000
    /// twice as fast, 500 half speed. Always positive.
    pub speed_permille: u64,
    /// Whether the animation is paused.
    pub paused: bool,
    /// The current board.
    pub board: Board,
    /// One overlay color per board cell, index-aligned with `board`.
    pub colors: Vec<Color>,
}

impl State {
    /// Well-formedness: the board is well formed, the overlay carries
    /// exactly one color per cell, and the speed factor is positive.
    pub open spec fn wf(&self) -> bool {
        &&& self.board.wf()
        &&& self.colors@.len() == self.board.cells@.len()
        &&& self.speed_permille > 0
    }
}

/// The lock predicate of a shared handle: only well-formed states can
/// be stored, so only well-formed states can ever be observed.
pub struct StatePred;

impl RwLockPredicate<State> for StatePred {
    open spec fn inv(self, s: State) -> bool {
        s.wf()
    }
}

/// A reference-counted handle to one `State` behind a lock. Clones of
/// the handle share the same state; a writer holds the lock alone, so
/// no reader ever sees a half-written state. A holder should keep the
/// lock for as short a time as possible — copy small values out,
/// release, and only then sleep or compute.
#[derive(Clone)]
pub struct SharedState(pub Arc<RwLock<State, StatePred>>);

/// Law: readers never observe tearing between the board and its color
/// overlay. Every state a shared handle's lock can store — hence every
/// state any holder observes, through any acquisition, at any time —
/// carries exactly one color per board cell.
pub proof fn lemma_no_observable_tearing(lock: RwLock<State, StatePred>, s: State)
    requires
        lock.inv(s),
    ensures
        s.colors@.len() == s.board.cells@.len(),
{
}

impl SharedState {
    /// Wraps an initial, well-formed state for multi-thread sharing.
    pub fn new(state: State) -> SharedState
        requires
            state.wf(),
    {
        SharedState(Arc::new(RwLock::new(state, Ghost(StatePred))))
    }

    /// Acquires the exclusive lock, yielding the current state — which
    /// is always well formed — and the handle that pins the lock until
    /// a (well formed) state is given back with `release_write`.
    pub fn get(&self) -> (ret: (State, WriteHandle<'_, State, StatePred>))
        ensures
            ret.0.wf(),
    {
        self.0.acquire_write()
    }

    /// The speed factor in thousandths, read under a short-lived lock.
    /// Whatever state the lock held, the value is positive.
    pub fn speed_permille(&self) -> (s: u64)
        ensures
            s > 0,
    {
        let read = self.0.acquire_read();
        let s = read.borrow().speed_permille;
        read.release_read();
        s
    }

    /// Whether the animation is paused, read under a short-lived lock.
    pub fn is_paused(&self) -> bool {
        let read = self.0.acquire_read();
        let p = read.borrow().paused;
        read.release_read();
        p
    }

    /// The cell count of the current board, under a short-lived lock.
    pub fn board_len(&self) -> usize {
        let read = self.0.acquire_read();
        let n = read.borrow().board.len();
        read.release_read();
        n
    }

    /// The stepping thread's read path: one short lock acquisition
    /// copies out the current board and the speed factor, so the
    /// expensive generation step can run without holding the lock.
    pub fn stepping_snapshot(&self) -> (snap: (Board, u64))
        ensures
            snap.0.wf(),
            snap.1 > 0,
    {
        let read = self.0.acquire_read();
        let state = read.borrow();
        let board = state.board.duplicate();
        let speed = state.speed_permille;
        read.release_read();
        (board, speed)
    }

    /// The presentation read path: one lock acquisition yields the
    /// board and the color overlay as they stand together, one color
    /// per cell — no cross-field tearing is observable.
    pub fn render_snapshot(&self) -> (snap: (Board, Vec<Color>))
        ensures
            snap.0.wf(),
            snap.1@.len() == snap.0.cells@.len(),
    {
        let read = self.0.acquire_read();
        let state = read.borrow();
        let board = state.board.duplicate();
        let colors = copy_colors(&state.colors);
        read.release_read();
        (board, colors)
    }

    /// The stepping thread's write path: replaces the board and its
    /// overlay in one lock acquisition, so no reader can see the one
    /// without the other. The overlay must carry one color per cell.
    pub fn set_board(&self, board: Board, colors: Vec<Color>)
        requires
            board.wf(),
            colors@.len() == board.cells@.len(),
    {
        let (mut state, handle) = self.0.acquire_write();
        state.board = board;
        state.colors = colors;
        handle.release_write(state);
    }

    /// Pauses or resumes the animation.
    pub fn set_paused(&self, paused: bool) {
        let (mut state, handle) = self.0.acquire_write();
        state.paused = paused;
        handle.release_write(state);
    }

    /// Sets the speed factor in thousandths; it must stay positive.
    pub fn set_speed_permille(&self, speed_permille: u64)
        requires
            speed_permille > 0,
    {
        let (mut state, handle) = self.0.acquire_write();
        state.speed_permille = speed_permille;
        handle.release_write(state);
    }

    /// Advances the simulated clock by `dt_micros`, unless the
    /// animation is paused; the clock saturates rather than wraps.
    pub fn advance_time(&self, dt_micros: u64) {
        let (mut state, handle) = self.0.acquire_write();
        if !state.paused {
            if state.time_micros <= u64::MAX - dt_micros {
                state.time_micros = state.time_micros + dt_micros;
            } else {
                state.time_micros = u64::MAX;
            }
        }
        handle.release_write(state);
    }

    /// The simulated clock in microseconds, under a short-lived lock.
    pub fn time_micros(&self) -> u64 {
        let read = self.0.acquire_read();
        let t = read.borrow().time_micros;
        read.release_read();
        t
    }

    /// The input layer's write path for one cell: sets its state and
    /// its overlay color in one lock acquisition. Returns whether
    /// `cell` was in range; an out-of-range index changes nothing.
    pub fn set_cell(&self, cell: usize, alive: bool, color: Color) -> bool {
        let (mut state, handle) = self.0.acquire_write();
        let n = state.board.len();
        let ok = cell < n;
        if ok {
            state.board.cells[cell] = alive;
            state.colors[cell] = color;
        }
        handle.release_write(state);
        ok
    }
}

/// Builds a ready-to-drive shared state: an all-dead board of the
/// given dimensions under the standard rules, an overlay that paints
/// every cell `background`, an unpaused animation, a clock at zero and
/// the given (positive) speed factor in thousandths.
pub fn initial_shared_state(
    rows: usize,
    cols: usize,
    speed_permille: u64,
    background: Color,
) -> SharedState
    requires
        speed_permille > 0,
        rows * cols <= usize::MAX,
{
    let board = Board::new(rows, cols);
    let n = board.len();
    let mut colors: Vec<Color> = Vec::new();
    while colors.len() < n
        invariant
            colors@.len() <= n,
        decreases n - colors@.len(),
    {
        colors.push(background);
    }
    SharedState::new(
        State { time_micros: 0, speed_permille, paused: false, board, colors },
    )
}

/// An overlay that paints live cells one color and dead cells another.
pub fn overlay_colors(board: &Board, alive: Color, dead: Color) -> (colors: Vec<Color>)
    requires
        board.wf(),
    ensures
        colors@.len() == board.cells@.len(),
        forall|i: int|
            0 <= i < colors@.len() ==> colors@[i] == if board.cells@[i] {
                alive
            } else {
                dead
            },
{
    let n = board.cells.len();
    let mut colors: Vec<Color> = Vec::new();
    while colors.len() < n
        invariant
            n == board.cells@.len(),
            colors@.len() <= n,
            forall|i: int|
                0 <= i < colors@.len() ==> colors@[i] == if board.cells@[i] {
                    alive
                } else {
                    dead
                },
        decreases n - colors@.len(),
    {
        let i = colors.len();
        if board.cells[i] {
            colors.push(alive);
        } else {
            colors.push(dead);
        }
    }
    colors
}

/// One Stepping transition of the driving loop: copies the board out
/// under a short-lived lock, computes the next generation with no lock
/// held, then writes it back — together with a freshly painted,
/// length-matching overlay — and advances the simulated clock by
/// `dt_micros`. The caller waits between transitions, with no lock
/// held, for the delay the pacing controller computes.
pub fn step_once(shared: &SharedState, alive: Color, dead: Color, dt_micros: u64) {
    let (board, _speed) = shared.stepping_snapshot();
    let next = board.next_generation();
    let colors = overlay_colors(&next, alive, dead);
    shared.set_board(next, colors);
    shared.advance_time(dt_micros);
}

/// An element-wise copy of a color overlay.
fn copy_colors(colors: &Vec<Color>) -> (r: Vec<Color>)
    ensures
        r@ == colors@,
{
    let mut copy: Vec<Color> = Vec::new();
    let n = colors.len();
    while copy.len() < n
        invariant
            n == colors@.len(),
            copy@.len() <= n,
            forall|i: int| 0 <= i < copy@.len() ==> copy@[i] == colors@[i],
        decreases n - copy@.len(),
    {
        let i = copy.len();
        copy.push(colors[i]);
    }
    proof {
        assert(copy@ =~= colors@);
    }
    copy
}

} // verus!
