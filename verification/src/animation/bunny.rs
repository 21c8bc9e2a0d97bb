use crate::animation::random::{coin_flip, random_u16_between};
use crate::animation::sprite::{clipped_sprite_cells, sprite_cells, Cell, SpriteKind};
use crate::scene::{lawn_bounds, spec_lawn_bounds, LawnBounds};
use rand::rngs::StdRng;
use vstd::prelude::*;

verus! {

/// Frames between two hop poses.
pub const HOP_FRAME_STEP: u8 = 6;

pub const INITIAL_SPAWN_MIN: u16 = 1;

pub const INITIAL_SPAWN_MAX: u16 = 45;

pub const BETWEEN_RUNS_MIN: u16 = 450;

pub const BETWEEN_RUNS_MAX: u16 = 1200;

pub const SPRITE_WIDTH: u16 = 9;

pub const SPRITE_HEIGHT: u16 = 3;

/// Half-cell position of a sprite whose right edge touches the left screen
/// edge: minus the sprite width, in half cells.
pub const SPAWN_LEFT_HALF: i32 = -18;

/// The two hop frames of the right-facing bunny, each row nine cells wide.
pub fn bunny_frames() -> (f: [[&'static str; 3]; 2])
    ensures
        f@[0]@[0]@ == "  /\\_/\\\\ "@,
        f@[0]@[1]@ == " (o.o)>  "@,
        f@[0]@[2]@ == "  /\\ /\\  "@,
        f@[1]@[0]@ == "  /\\_/\\\\ "@,
        f@[1]@[1]@ == "  (o.o)> "@,
        f@[1]@[2]@ == " /\\  /\\  "@,
        forall|k: int, r: int| 0 <= k < 2 && 0 <= r < 3 ==> #[trigger] f@[k]@[r]@.len() == 9,
{
    proof {
        reveal_strlit("  (o.o)> ");
        reveal_strlit("  /\\ /\\  ");
        reveal_strlit("  /\\_/\\\\ ");
        reveal_strlit(" (o.o)>  ");
        reveal_strlit(" /\\  /\\  ");
    }
    [
        ["  /\\_/\\\\ ", " (o.o)>  ", "  /\\ /\\  "],
        ["  /\\_/\\\\ ", "  (o.o)> ", " /\\  /\\  "],
    ]
}


/// The rows of hop pose `k` of the right-facing bunny.
pub open spec fn spec_bunny_frame(k: int) -> Seq<Seq<char>> {
    if k == 0 {
        seq!["  /\\_/\\\\ "@, " (o.o)>  "@, "  /\\ /\\  "@]
    } else {
        seq!["  /\\_/\\\\ "@, "  (o.o)> "@, " /\\  /\\  "@]
    }
}

/// Whether the bunny is off screen between runs or hopping across.
#[derive(Clone, Copy, Debug, PartialEq, Eq, Structural)]
pub enum BunnyActivity {
    Waiting,
    Hopping,
}

/// The row on which the bunny's sprite is anchored.
#[derive(Clone, Copy, Debug, PartialEq, Eq, Structural)]
pub struct BunnyBounds {
    pub anchor_y: u16,
}

impl BunnyBounds {
    /// The sprite sits on the bottom rows of the lawn; a lawn too small for
    /// the whole sprite has no place for the bunny.
    pub open spec fn spec_from_lawn(lawn: LawnBounds) -> Option<BunnyBounds> {
        if lawn.spec_width() < SPRITE_WIDTH || lawn.spec_height() < SPRITE_HEIGHT {
            None
        } else {
            Some(BunnyBounds {
                anchor_y: if lawn.bottom >= SPRITE_HEIGHT - 1 { (lawn.bottom - (SPRITE_HEIGHT - 1)) as u16 } else { 0 },
            })
        }
    }

    pub fn from_lawn(lawn: LawnBounds) -> (b: Option<Self>)
        ensures
            b == Self::spec_from_lawn(lawn),
    {
        if lawn.width() < SPRITE_WIDTH || lawn.height() < SPRITE_HEIGHT {
            return None;
        }
        Some(BunnyBounds { anchor_y: lawn.bottom.saturating_sub(SPRITE_HEIGHT - 1) })
    }
}

/// The bunny that now and then hops across the lawn.
///
/// Its horizontal position is kept in half cells (`x_half`): the bunny
/// moves half a cell per frame, so every position it takes is a multiple
/// of one half.
#[derive(Clone, Copy, Debug)]
pub struct Bunny {
    pub x_half: i32,
    pub y: u16,
    pub direction: i8,
    pub activity: BunnyActivity,
    pub wait_timer: u16,
    pub initial_delay_selected: bool,
    pub hop_frame: usize,
    pub hop_tick: u8,
}

impl Bunny {
    /// The bunny's state is in range: it faces left or right, its hop
    /// counters are below their periods, and while hopping it is on or just
    /// off the screen on the side it walks towards.
    pub open spec fn wf(self) -> bool {
        &&& self.direction == 1 || self.direction == -1
        &&& self.hop_frame < 2
        &&& self.hop_tick < HOP_FRAME_STEP
        &&& -18 <= self.x_half <= 131071
        &&& self.activity == BunnyActivity::Hopping ==> {
            &&& self.x_half <= 131070
            &&& self.direction == -1 ==> self.x_half >= -17
        }
    }

    /// The spawn position: just off the left edge when heading right, at the
    /// right edge when heading left (in half cells).
    pub open spec fn spawn_x_half(direction: i8, terminal_width: u16) -> int {
        if direction > 0 { -18 } else { 2 * terminal_width }
    }

    /// The sprite has fully left the `terminal_width` columns.
    pub open spec fn off_screen(x_half: int, terminal_width: u16) -> bool {
        x_half <= -18 || x_half >= 2 * terminal_width
    }

    pub fn new() -> (b: Self)
        ensures
            b.wf(),
            b.x_half == 0 && b.y == 0 && b.direction == 1,
            b.activity == BunnyActivity::Waiting,
            b.wait_timer == 0 && !b.initial_delay_selected,
            b.hop_frame == 0 && b.hop_tick == 0,
    {
        Bunny {
            x_half: 0,
            y: 0,
            direction: 1,
            activity: BunnyActivity::Waiting,
            wait_timer: 0,
            initial_delay_selected: false,
            hop_frame: 0,
            hop_tick: 0,
        }
    }

    /// Start a run from a random edge of the screen.
    pub fn spawn(&mut self, terminal_width: u16, bounds: BunnyBounds, rng: &mut StdRng)
        requires
            old(self).wf(),
        ensures
            final(self).wf(),
            final(self).direction == 1 || final(self).direction == -1,
            final(self).x_half == Self::spawn_x_half(final(self).direction, terminal_width),
            final(self).y == bounds.anchor_y,
            final(self).activity == BunnyActivity::Hopping,
            final(self).hop_frame == 0 && final(self).hop_tick == 0,
            final(self).wait_timer == old(self).wait_timer,
            final(self).initial_delay_selected == old(self).initial_delay_selected,
    {
        self.direction = if coin_flip(rng) { 1 } else { -1 };
        self.x_half = if self.direction > 0 {
            SPAWN_LEFT_HALF
        } else {
            2 * (terminal_width as i32)
        };
        self.y = bounds.anchor_y;
        self.activity = BunnyActivity::Hopping;
        self.hop_frame = 0;
        self.hop_tick = 0;
    }

    /// End a run and wait a random while before the next one.
    pub fn finish_run(&mut self, rng: &mut StdRng)
        requires
            (Bunny { activity: BunnyActivity::Waiting, ..*old(self) }).wf(),
        ensures
            final(self).wf(),
            final(self).activity == BunnyActivity::Waiting,
            BETWEEN_RUNS_MIN <= final(self).wait_timer <= BETWEEN_RUNS_MAX,
            final(self).hop_frame == 0 && final(self).hop_tick == 0,
            final(self).x_half == old(self).x_half,
            final(self).y == old(self).y,
            final(self).direction == old(self).direction,
            final(self).initial_delay_selected == old(self).initial_delay_selected,
    {
        self.activity = BunnyActivity::Waiting;
        self.wait_timer = random_u16_between(rng, BETWEEN_RUNS_MIN, BETWEEN_RUNS_MAX);
        self.hop_frame = 0;
        self.hop_tick = 0;
    }

    /// One frame of the bunny, as a relation between the state before (`o`)
    /// and after (`n`); the random delays and the direction are free within
    /// their ranges.
    pub open spec fn spec_advance(o: Bunny, n: Bunny, terminal_width: u16, bounds: BunnyBounds) -> bool {
        if o.activity == BunnyActivity::Waiting {
            if o.wait_timer > 0 {
                n == Bunny { y: bounds.anchor_y, wait_timer: (o.wait_timer - 1) as u16, ..o }
            } else if !o.initial_delay_selected {
                &&& INITIAL_SPAWN_MIN <= n.wait_timer <= INITIAL_SPAWN_MAX
                &&& n == Bunny { y: bounds.anchor_y, wait_timer: n.wait_timer, initial_delay_selected: true, ..o }
            } else {
                &&& n.direction == 1 || n.direction == -1
                &&& n == Bunny {
                    x_half: Self::spawn_x_half(n.direction, terminal_width) as i32,
                    y: bounds.anchor_y,
                    direction: n.direction,
                    activity: BunnyActivity::Hopping,
                    hop_frame: 0,
                    hop_tick: 0,
                    ..o
                }
            }
        } else {
            let x = o.x_half + o.direction;
            let tick = o.hop_tick + 1;
            if Self::off_screen(x, terminal_width) {
                &&& BETWEEN_RUNS_MIN <= n.wait_timer <= BETWEEN_RUNS_MAX
                &&& n == Bunny {
                    x_half: x as i32,
                    y: bounds.anchor_y,
                    activity: BunnyActivity::Waiting,
                    wait_timer: n.wait_timer,
                    hop_frame: 0,
                    hop_tick: 0,
                    ..o
                }
            } else {
                n == Bunny {
                    x_half: x as i32,
                    y: bounds.anchor_y,
                    hop_frame: if tick >= HOP_FRAME_STEP { ((o.hop_frame + 1) % 2) as usize } else { o.hop_frame },
                    hop_tick: if tick >= HOP_FRAME_STEP { 0 } else { tick as u8 },
                    ..o
                }
            }
        }
    }

    /// One frame of the bunny: count down while waiting (choosing a short
    /// first delay once), spawn when the wait is over, and while hopping move
    /// half a cell, advance the hop pose every six frames and stop waiting
    /// for the next run once the sprite has left the screen.
    pub fn advance(&mut self, terminal_width: u16, bounds: BunnyBounds, rng: &mut StdRng)
        requires
            old(self).wf(),
        ensures
            final(self).wf(),
            final(self).y == bounds.anchor_y,
            Self::spec_advance(*old(self), *final(self), terminal_width, bounds),
    {
        self.y = bounds.anchor_y;

        if self.activity == BunnyActivity::Waiting {
            if self.wait_timer > 0 {
                self.wait_timer = self.wait_timer - 1;
                return;
            }
            // The first delay is chosen lazily so construction stays
            // deterministic while the first appearance comes soon.
            if !self.initial_delay_selected {
                self.initial_delay_selected = true;
                self.wait_timer = random_u16_between(rng, INITIAL_SPAWN_MIN, INITIAL_SPAWN_MAX);
                return;
            }
            self.spawn(terminal_width, bounds, rng);
            return;
        }

        self.x_half = self.x_half + self.direction as i32;
        self.hop_tick = self.hop_tick + 1;
        if self.hop_tick >= HOP_FRAME_STEP {
            self.hop_frame = (self.hop_frame + 1) % 2;
            self.hop_tick = 0;
        }

        let fully_off_left = self.x_half <= SPAWN_LEFT_HALF;
        let fully_off_right = self.x_half >= 2 * (terminal_width as i32);
        if fully_off_left || fully_off_right {
            self.finish_run(rng);
        }
    }
}

/// Column of the cell the sprite's left edge is in: the floor of the
/// position in cells.
pub fn anchor_column(x_half: i32) -> (c: i32)
    requires
        x_half > i32::MIN,
    ensures
        c == x_half as int / 2,
{
    if x_half >= 0 {
        x_half / 2
    } else {
        (x_half - 1) / 2
    }
}

/// Where the bunny's sprite is anchored on the lawn, as (half-cell column,
/// row): only while it hops on the bottom rows of a lawn large enough for it.
pub open spec fn spec_render_anchor(lawn: LawnBounds, bunny: Bunny) -> Option<(i32, u16)> {
    match BunnyBounds::spec_from_lawn(lawn) {
        None => None,
        Some(bounds) => if bunny.activity != BunnyActivity::Hopping || bunny.y != bounds.anchor_y {
            None
        } else {
            Some((bunny.x_half, bunny.y))
        },
    }
}

pub fn render_anchor(lawn: LawnBounds, bunny: &Bunny) -> (r: Option<(i32, u16)>)
    ensures
        r == spec_render_anchor(lawn, *bunny),
{
    let bounds = match BunnyBounds::from_lawn(lawn) {
        Some(b) => b,
        None => return None,
    };
    if bunny.activity != BunnyActivity::Hopping || bunny.y != bounds.anchor_y {
        return None;
    }
    Some((bunny.x_half, bunny.y))
}

/// The bunny animation of the foreground layer.
pub struct BunnySystem {
    pub bunny: Bunny,
    pub terminal_width: u16,
}

impl BunnySystem {
    pub open spec fn wf(self) -> bool {
        self.bunny.wf()
    }

    pub fn new(terminal_width: u16, _terminal_height: u16) -> (s: Self)
        ensures
            s.wf(),
            s.terminal_width == terminal_width,
            s.bunny.x_half == 0 && s.bunny.y == 0 && s.bunny.direction == 1,
            s.bunny.activity == BunnyActivity::Waiting,
            s.bunny.wait_timer == 0 && !s.bunny.initial_delay_selected,
            s.bunny.hop_frame == 0 && s.bunny.hop_tick == 0,
    {
        BunnySystem { bunny: Bunny::new(), terminal_width }
    }

    pub fn id(&self) -> (s: &'static str)
        ensures
            s@ == "bunny"@,
    {
        "bunny"
    }

    pub fn on_resize(&mut self, width: u16, _height: u16)
        ensures
            final(self).terminal_width == width,
            final(self).bunny == old(self).bunny,
    {
        self.terminal_width = width;
    }

    /// One frame: the bunny moves only when the lawn below `horizon_y` has
    /// room for its sprite.
    pub fn update(&mut self, width: u16, height: u16, horizon_y: u16, rng: &mut StdRng)
        requires
            old(self).wf(),
        ensures
            final(self).wf(),
            final(self).terminal_width == width,
            match spec_lawn_bounds(width, height, horizon_y) {
                Some(lawn) => match BunnyBounds::spec_from_lawn(lawn) {
                    Some(bounds) => Bunny::spec_advance(old(self).bunny, final(self).bunny, width, bounds),
                    None => final(self).bunny == old(self).bunny,
                },
                None => final(self).bunny == old(self).bunny,
            },
    {
        self.terminal_width = width;
        let lawn = match lawn_bounds(width, height, horizon_y) {
            Some(lawn) => lawn,
            None => return,
        };
        let bounds = match BunnyBounds::from_lawn(lawn) {
            Some(b) => b,
            None => return,
        };
        self.bunny.advance(width, bounds, rng);
    }

    /// The cells of the bunny's sprite for this frame (none while it waits).
    pub fn cells(&self, width: u16, height: u16, horizon_y: u16) -> (cells: Vec<Cell>)
        requires
            self.wf(),
        ensures
            ({
                match spec_lawn_bounds(width, height, horizon_y) {
                    None => cells@.len() == 0,
                    Some(lawn) => match spec_render_anchor(lawn, self.bunny) {
                        None => cells@.len() == 0,
                        Some((x_half, y)) => cells@ == sprite_cells(
                            spec_bunny_frame((self.bunny.hop_frame % 2) as int),
                            3,
                            x_half as int / 2,
                            y as int,
                            self.bunny.direction as int,
                            width as int,
                            height as int,
                            SpriteKind::Bunny,
                        ),
                    },
                }
            }),
    {
        let lawn = match lawn_bounds(width, height, horizon_y) {
            Some(lawn) => lawn,
            None => return Vec::new(),
        };
        let (x_half, y) = match render_anchor(lawn, &self.bunny) {
            Some(anchor) => anchor,
            None => return Vec::new(),
        };
        let frames = bunny_frames();
        let frame = &frames[self.bunny.hop_frame % 2];
        clipped_sprite_cells(frame, anchor_column(x_half), y as i32, self.bunny.direction, width, height, SpriteKind::Bunny)
    }
}

/// Half cells a hopping bunny still has to cover before its sprite has
/// left the screen on the side it walks towards.
pub open spec fn run_remaining(b: Bunny, terminal_width: u16) -> int {
    if b.direction > 0 { 2 * terminal_width - b.x_half } else { b.x_half + 18 }
}

/// Every run ends: while the bunny hops across a screen of fixed width,
/// each frame brings it one half cell closer to leaving, and a bunny that
/// leaves starts waiting 450 to 1200 frames before the next run.
pub proof fn lemma_run_progress(o: Bunny, n: Bunny, terminal_width: u16, bounds: BunnyBounds)
    requires
        o.wf(),
        o.activity == BunnyActivity::Hopping,
        Bunny::spec_advance(o, n, terminal_width, bounds),
    ensures
        n.activity == BunnyActivity::Hopping ==> 0 < run_remaining(n, terminal_width) == run_remaining(o, terminal_width) - 1,
        n.activity == BunnyActivity::Waiting ==> BETWEEN_RUNS_MIN <= n.wait_timer <= BETWEEN_RUNS_MAX,
        n.direction == o.direction,
{
}

/// A waiting bunny counts its delay down by one each frame and stays off
/// screen; when the delay is over it either picks its first short delay or
/// starts a run at the screen edge.
pub proof fn lemma_waiting_counts_down(o: Bunny, n: Bunny, terminal_width: u16, bounds: BunnyBounds)
    requires
        o.activity == BunnyActivity::Waiting,
        Bunny::spec_advance(o, n, terminal_width, bounds),
    ensures
        o.wait_timer > 0 ==> n.activity == BunnyActivity::Waiting && n.wait_timer == o.wait_timer - 1,
        o.wait_timer == 0 && !o.initial_delay_selected ==> n.activity == BunnyActivity::Waiting
            && n.initial_delay_selected && n.wait_timer >= 1,
        o.wait_timer == 0 && o.initial_delay_selected ==> n.activity == BunnyActivity::Hopping
            && n.x_half == Bunny::spawn_x_half(n.direction, terminal_width)
            && run_remaining(n, terminal_width) == 2 * terminal_width + 18,
{
}

/// A hopping bunny that stays on screen alternates its two hop poses: it
/// keeps its pose for HOP_FRAME_STEP frames, then switches to the other one,
/// so after twice that many frames it is back in the pose it started in.
pub proof fn lemma_hop_poses_alternate(o: Bunny, n: Bunny, terminal_width: u16, bounds: BunnyBounds)
    requires
        o.wf(),
        o.activity == BunnyActivity::Hopping,
        !Bunny::off_screen(o.x_half + o.direction, terminal_width),
        Bunny::spec_advance(o, n, terminal_width, bounds),
    ensures
        n.activity == BunnyActivity::Hopping,
        n.hop_frame == 0 || n.hop_frame == 1,
        o.hop_tick + 1 < HOP_FRAME_STEP ==> n.hop_frame == o.hop_frame && n.hop_tick == o.hop_tick + 1,
        o.hop_tick + 1 >= HOP_FRAME_STEP ==> n.hop_frame != o.hop_frame && n.hop_tick == 0,
{
}

} // verus!
