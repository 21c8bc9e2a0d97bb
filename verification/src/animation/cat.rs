use crate::animation::sprite::frame_rows;
use crate::animation::random::{coin_flip, random_u16_between, random_u8_below};
use crate::scene::LawnBounds;
use crate::weather::WeatherConditions;
use rand::rngs::StdRng;
use vstd::prelude::*;

verus! {

pub const SPRITE_WIDTH: u16 = 9;

pub const SPRITE_HEIGHT: u16 = 3;

/// Frames between two walking poses.
pub const FRAME_STEP: u8 = 15;

pub const SLEEP_MIN: u16 = 180;

pub const SLEEP_MAX: u16 = 420;

pub const WALK_MIN: u16 = 90;

pub const WALK_MAX: u16 = 180;

pub const RETURN_TIMEOUT: u16 = 600;

pub const WAKE_CHANCE_PERCENT: u8 = 32;

pub const HUNT_CHANCE_PERCENT: u8 = 20;

/// The walking frames of the right-facing cat.
pub fn cat_walk_frames() -> (f: [[&'static str; 3]; 4])
    ensures
        f@[0]@[0]@ == " /\\_/\\\\  "@,
        f@[0]@[1]@ == "( o.o )__"@,
        f@[0]@[2]@ == "  / \\    "@,
        f@[1]@[0]@ == " /\\_/\\\\  "@,
        f@[1]@[1]@ == "( o.o )_/"@,
        f@[1]@[2]@ == "   /\\    "@,
        f@[2]@[0]@ == " /\\_/\\\\  "@,
        f@[2]@[1]@ == "( -.- )__"@,
        f@[2]@[2]@ == "  \\ /    "@,
        f@[3]@[0]@ == " /\\_/\\\\  "@,
        f@[3]@[1]@ == "( o.o )\\_"@,
        f@[3]@[2]@ == "  /  \\   "@,
        forall|k: int, r: int| 0 <= k < 4 && 0 <= r < 3 ==> #[trigger] f@[k]@[r]@.len() == 9,
{
    proof {
        reveal_strlit("   /\\    ");
        reveal_strlit("  /  \\   ");
        reveal_strlit("  / \\    ");
        reveal_strlit("  \\ /    ");
        reveal_strlit(" /\\_/\\\\  ");
        reveal_strlit("( -.- )__");
        reveal_strlit("( o.o )\\_");
        reveal_strlit("( o.o )_/");
        reveal_strlit("( o.o )__");
    }
    [
        [" /\\_/\\\\  ", "( o.o )__", "  / \\    "],
        [" /\\_/\\\\  ", "( o.o )_/", "   /\\    "],
        [" /\\_/\\\\  ", "( -.- )__", "  \\ /    "],
        [" /\\_/\\\\  ", "( o.o )\\_", "  /  \\   "],
    ]
}

/// Walking pose `k` (of four), row by row.
pub open spec fn spec_cat_walk_frame(k: nat) -> Seq<Seq<char>> {
    if k == 0 {
        seq![" /\\_/\\\\  "@, "( o.o )__"@, "  / \\    "@]
    } else if k == 1 {
        seq![" /\\_/\\\\  "@, "( o.o )_/"@, "   /\\    "@]
    } else if k == 2 {
        seq![" /\\_/\\\\  "@, "( -.- )__"@, "  \\ /    "@]
    } else {
        seq![" /\\_/\\\\  "@, "( o.o )\\_"@, "  /  \\   "@]
    }
}

/// Sleeping pose `k` (of three), row by row.
pub open spec fn spec_cat_sleep_frame(k: nat) -> Seq<Seq<char>> {
    if k == 1 {
        seq![" /\\_/\\\\  "@, "( -.- )__"@, "   ^ ^   "@]
    } else {
        seq![" /\\_/\\\\  "@, "( -.- )__"@, "  > ^ <  "@]
    }
}

/// The sleeping frames of the cat: its eyes stay closed.
pub fn cat_sleep_frames() -> (f: [[&'static str; 3]; 3])
    ensures
        f@[0]@[0]@ == " /\\_/\\\\  "@,
        f@[0]@[1]@ == "( -.- )__"@,
        f@[0]@[2]@ == "  > ^ <  "@,
        f@[1]@[0]@ == " /\\_/\\\\  "@,
        f@[1]@[1]@ == "( -.- )__"@,
        f@[1]@[2]@ == "   ^ ^   "@,
        f@[2]@[0]@ == " /\\_/\\\\  "@,
        f@[2]@[1]@ == "( -.- )__"@,
        f@[2]@[2]@ == "  > ^ <  "@,
        forall|k: int, r: int| 0 <= k < 3 && 0 <= r < 3 ==> #[trigger] f@[k]@[r]@.len() == 9,
{
    proof {
        reveal_strlit("   ^ ^   ");
        reveal_strlit("  > ^ <  ");
        reveal_strlit(" /\\_/\\\\  ");
        reveal_strlit("( -.- )__");
    }
    [
        [" /\\_/\\\\  ", "( -.- )__", "  > ^ <  "],
        [" /\\_/\\\\  ", "( -.- )__", "   ^ ^   "],
        [" /\\_/\\\\  ", "( -.- )__", "  > ^ <  "],
    ]
}


/// What the cat is doing.
#[derive(Clone, Copy, Debug, PartialEq, Eq, Structural)]
pub enum CatActivity {
    Sleeping,
    Wandering,
    Hunting,
    Returning,
}

/// The cells the house covers, as far as the cat's sleeping spot needs them.
#[derive(Clone, Copy, Debug, PartialEq, Eq, Structural)]
pub struct HouseBounds {
    pub left: u16,
    pub right: u16,
    pub bottom: u16,
}

/// The positions the cat sprite's top-left corner may take on the lawn.
#[derive(Clone, Copy, Debug, PartialEq, Eq, Structural)]
pub struct AnchorBounds {
    pub left: u16,
    pub right: u16,
    pub top: u16,
    pub bottom: u16,
}

pub open spec fn sat_sub16(a: u16, b: u16) -> u16 {
    if a >= b { (a - b) as u16 } else { 0 }
}

pub open spec fn clamp_int(v: int, lo: int, hi: int) -> int {
    if v < lo { lo } else if v > hi { hi } else { v }
}

impl AnchorBounds {
    /// The lawn shrunk by the sprite's size, so that an anchor inside keeps
    /// the whole sprite on the lawn; none for a lawn smaller than the sprite.
    pub open spec fn spec_from_lawn(lawn: LawnBounds) -> Option<AnchorBounds> {
        if lawn.spec_width() < SPRITE_WIDTH || lawn.spec_height() < SPRITE_HEIGHT {
            None
        } else {
            Some(AnchorBounds {
                left: lawn.left,
                right: sat_sub16(lawn.right, (SPRITE_WIDTH - 1) as u16),
                top: lawn.top,
                bottom: sat_sub16(lawn.bottom, (SPRITE_HEIGHT - 1) as u16),
            })
        }
    }

    pub fn from_lawn(lawn: LawnBounds) -> (b: Option<Self>)
        ensures
            b == Self::spec_from_lawn(lawn),
            b matches Some(a) ==> a.left <= a.right && a.top <= a.bottom,
    {
        if lawn.width() < SPRITE_WIDTH || lawn.height() < SPRITE_HEIGHT {
            return None;
        }
        Some(AnchorBounds {
            left: lawn.left,
            right: lawn.right.saturating_sub(SPRITE_WIDTH - 1),
            top: lawn.top,
            bottom: lawn.bottom.saturating_sub(SPRITE_HEIGHT - 1),
        })
    }

    pub fn clamp_column(self, x: u16) -> (c: u16)
        requires
            self.left <= self.right,
        ensures
            c == clamp_int(x as int, self.left as int, self.right as int),
    {
        if x < self.left {
            self.left
        } else if x > self.right {
            self.right
        } else {
            x
        }
    }

    pub fn clamp_row(self, y: u16) -> (c: u16)
        requires
            self.top <= self.bottom,
        ensures
            c == clamp_int(y as int, self.top as int, self.bottom as int),
    {
        if y < self.top {
            self.top
        } else if y > self.bottom {
            self.bottom
        } else {
            y
        }
    }
}

/// The cat's sleeping spot beside the house: right of it when the whole
/// sprite fits there, otherwise left of it, on the row below the house,
/// always clamped to the anchor bounds.
pub open spec fn spec_sleep_spot(bounds: AnchorBounds, house: HouseBounds) -> (u16, u16) {
    let right_clearance = sat_sub16(bounds.right, house.right);
    let x = if right_clearance >= SPRITE_WIDTH {
        clamp_int(if house.right + 1 > u16::MAX { u16::MAX as int } else { house.right + 1 }, bounds.left as int, bounds.right as int)
    } else {
        clamp_int(sat_sub16(house.left, SPRITE_WIDTH) as int, bounds.left as int, bounds.right as int)
    };
    let y = clamp_int(if house.bottom + 1 > u16::MAX { u16::MAX as int } else { house.bottom + 1 }, bounds.top as int, bounds.bottom as int);
    (x as u16, y as u16)
}

/// Where the cat sleeps next to the house.
pub fn sleep_spot(bounds: AnchorBounds, house: HouseBounds) -> (spot: (u16, u16))
    requires
        bounds.left <= bounds.right,
        bounds.top <= bounds.bottom,
    ensures
        spot == spec_sleep_spot(bounds, house),
        bounds.left <= spot.0 <= bounds.right,
        bounds.top <= spot.1 <= bounds.bottom,
{
    let right_clearance = bounds.right.saturating_sub(house.right);
    let x = if right_clearance >= SPRITE_WIDTH {
        bounds.clamp_column(house.right.saturating_add(1))
    } else {
        bounds.clamp_column(house.left.saturating_sub(SPRITE_WIDTH))
    };
    let y = bounds.clamp_row(house.bottom.saturating_add(1));
    (x, y)
}

/// The cat may be outside only in daylight without rain, snow or thunder.
pub fn outdoor_allowed(conditions: &WeatherConditions) -> (b: bool)
    ensures
        b == (conditions.is_day && !conditions.is_raining && !conditions.is_snowing
            && !conditions.is_thunderstorm),
{
    conditions.is_day && !conditions.is_raining && !conditions.is_snowing && !conditions.is_thunderstorm
}

/// What the cat's body does in the present frame; the body keeps the
/// fractional position, the mind decides.
#[derive(Clone, Copy, Debug, PartialEq, Eq, Structural)]
pub enum CatMotion {
    /// Lie on the sleeping spot.
    Rest,
    /// Take one step towards the target; report whether it was reached.
    Walk,
    /// Take one running step in the facing direction; report whether the
    /// cat has left the screen.
    Run,
    /// Stand still: the frame's decision is already taken.
    Hold,
}

/// A change of target that the mind hands to the body.
#[derive(Clone, Copy, Debug, PartialEq, Eq, Structural)]
pub enum CatOrder {
    /// Keep the present target.
    Keep,
    /// Make the sleeping spot the target and face it.
    HeadHome,
    /// Make this anchor position the target.
    WalkTo(u16, u16),
    /// Lie down on the sleeping spot.
    LieDown,
}

/// The random draws one frame of the cat may use, each in its own range.
#[derive(Clone, Copy, Debug, PartialEq, Eq, Structural)]
pub struct CatDraws {
    pub wake_roll: u8,
    pub hunt_roll: u8,
    pub hunt_left: bool,
    pub walk_time: u16,
    pub target_x: u16,
    pub target_y: u16,
    pub sleep_time: u16,
}

impl CatDraws {
    pub open spec fn valid(self, bounds: AnchorBounds) -> bool {
        &&& self.wake_roll < 100
        &&& self.hunt_roll < 100
        &&& WALK_MIN <= self.walk_time <= WALK_MAX
        &&& bounds.left <= self.target_x <= bounds.right
        &&& bounds.top <= self.target_y <= bounds.bottom
        &&& SLEEP_MIN <= self.sleep_time <= SLEEP_MAX
    }
}

/// The cat's state apart from its position: activity, timer, facing,
/// animation frame and whether it has woken before.
#[derive(Clone, Copy, Debug, PartialEq, Eq, Structural)]
pub struct CatMind {
    pub state: CatActivity,
    pub state_timer: u16,
    pub direction: i8,
    pub frame_index: usize,
    pub frame_tick: u8,
    pub has_woken: bool,
}

pub open spec fn spec_start_hunting(m: CatMind, left: bool) -> CatMind {
    CatMind {
        state: CatActivity::Hunting,
        direction: if left { -1i8 } else { 1i8 },
        state_timer: RETURN_TIMEOUT,
        frame_index: 0,
        frame_tick: 0,
        ..m
    }
}

pub open spec fn spec_start_returning(m: CatMind) -> CatMind {
    CatMind { state: CatActivity::Returning, state_timer: RETURN_TIMEOUT, frame_index: 0, frame_tick: 0, ..m }
}

/// Start wandering towards `(tx, _)` from the sleeping spot's column `home_x`,
/// facing the target.
pub open spec fn spec_start_wandering(m: CatMind, walk_time: u16, tx: u16, home_x: u16) -> CatMind {
    CatMind {
        state: CatActivity::Wandering,
        state_timer: walk_time,
        direction: if tx > home_x { 1i8 } else if tx < home_x { -1i8 } else { m.direction },
        frame_index: 0,
        frame_tick: 0,
        ..m
    }
}

/// A finished walk ends in a hunt one time in five, else in the way home.
pub open spec fn spec_end_of_walk(m: CatMind, d: CatDraws) -> (CatMind, CatOrder) {
    if d.hunt_roll < HUNT_CHANCE_PERCENT {
        (spec_start_hunting(m, d.hunt_left), CatOrder::Keep)
    } else {
        (spec_start_returning(m), CatOrder::HeadHome)
    }
}

/// Asleep on the spot again, facing right, for a fresh sleeping time.
pub open spec fn spec_finish_return(m: CatMind, sleep_time: u16) -> CatMind {
    CatMind {
        state: CatActivity::Sleeping,
        direction: 1,
        state_timer: sleep_time,
        frame_index: 0,
        frame_tick: 0,
        ..m
    }
}

/// The first half of a frame: outside daylight and fair weather the cat
/// turns home, then the sleeping cat counts down and wakes (always the first
/// time, else one time in three), a walk whose time is up ends, and the
/// body is told how to move.
pub open spec fn spec_begin(m: CatMind, outdoor: bool, home_x: u16, d: CatDraws) -> (CatMind, CatMotion, CatOrder) {
    let forced = !outdoor && (m.state == CatActivity::Wandering || m.state == CatActivity::Hunting);
    let m1 = if forced { spec_start_returning(m) } else { m };
    match m1.state {
        CatActivity::Sleeping => {
            if !outdoor {
                (m1, CatMotion::Rest, CatOrder::Keep)
            } else if m1.state_timer == 0 {
                let first = !m1.has_woken;
                if first || d.wake_roll < WAKE_CHANCE_PERCENT {
                    let m2 = CatMind { has_woken: true, ..m1 };
                    if !first && d.hunt_roll < HUNT_CHANCE_PERCENT {
                        (spec_start_hunting(m2, d.hunt_left), CatMotion::Rest, CatOrder::Keep)
                    } else {
                        (
                            spec_start_wandering(m2, d.walk_time, d.target_x, home_x),
                            CatMotion::Rest,
                            CatOrder::WalkTo(d.target_x, d.target_y),
                        )
                    }
                } else {
                    (CatMind { state_timer: d.sleep_time, ..m1 }, CatMotion::Rest, CatOrder::Keep)
                }
            } else {
                (CatMind { state_timer: (m1.state_timer - 1) as u16, ..m1 }, CatMotion::Rest, CatOrder::Keep)
            }
        },
        CatActivity::Wandering => {
            if m1.state_timer == 0 {
                let (m2, order) = spec_end_of_walk(m1, d);
                (m2, CatMotion::Hold, order)
            } else {
                (m1, CatMotion::Walk, CatOrder::Keep)
            }
        },
        CatActivity::Hunting => (m1, CatMotion::Run, CatOrder::Keep),
        CatActivity::Returning => (m1, CatMotion::Walk, if forced { CatOrder::HeadHome } else { CatOrder::Keep }),
    }
}

/// One animation tick: a new pose every fifteen frames.
pub open spec fn spec_tick_frame(m: CatMind) -> CatMind {
    let t = if m.frame_tick + 1 > u8::MAX { u8::MAX as int } else { m.frame_tick + 1 };
    if t >= FRAME_STEP {
        CatMind {
            frame_index: (if m.frame_index + 1 > usize::MAX { usize::MAX as int } else { m.frame_index + 1 }) as usize,
            frame_tick: 0,
            ..m
        }
    } else {
        CatMind { frame_tick: t as u8, ..m }
    }
}

/// The second half of a frame, after the body moved as told: `outcome` is
/// whether a walk reached its target or a run left the screen. A walk that
/// arrived ends; a run ends off screen, when its time is up or outside
/// daylight and fair weather; a return that arrived puts the cat to sleep,
/// and an overdue return gets a new time window instead of a jump home.
pub open spec fn spec_end(m: CatMind, motion: CatMotion, outcome: bool, outdoor: bool, d: CatDraws) -> (CatMind, CatOrder) {
    let t = if m.state_timer >= 1 { (m.state_timer - 1) as u16 } else { 0u16 };
    let (m1, order) = match (motion, m.state) {
        (CatMotion::Walk, CatActivity::Wandering) => if outcome {
            spec_end_of_walk(m, d)
        } else {
            (CatMind { state_timer: t, ..m }, CatOrder::Keep)
        },
        (CatMotion::Walk, CatActivity::Returning) => if outcome {
            (spec_finish_return(m, d.sleep_time), CatOrder::LieDown)
        } else {
            (CatMind { state_timer: if t == 0 { RETURN_TIMEOUT } else { t }, ..m }, CatOrder::Keep)
        },
        (CatMotion::Run, CatActivity::Hunting) => if outcome || t == 0 || !outdoor {
            (spec_start_returning(CatMind { state_timer: t, ..m }), CatOrder::HeadHome)
        } else {
            (CatMind { state_timer: t, ..m }, CatOrder::Keep)
        },
        _ => (m, CatOrder::Keep),
    };
    (spec_tick_frame(m1), order)
}

impl CatMind {
    /// A cat that has never woken, asleep for the shortest sleeping time.
    pub fn new() -> (m: Self)
        ensures
            m == (CatMind {
                state: CatActivity::Sleeping,
                state_timer: SLEEP_MIN,
                direction: 1,
                frame_index: 0,
                frame_tick: 0,
                has_woken: false,
            }),
    {
        CatMind {
            state: CatActivity::Sleeping,
            state_timer: SLEEP_MIN,
            direction: 1,
            frame_index: 0,
            frame_tick: 0,
            has_woken: false,
        }
    }

    /// Face the way the body found its target: right for a positive sign,
    /// left for a negative one, unchanged for zero.
    pub fn face(&mut self, sign: i8)
        ensures
            *final(self) == (CatMind {
                direction: if sign > 0 { 1i8 } else if sign < 0 { -1i8 } else { old(self).direction },
                ..*old(self)
            }),
    {
        if sign > 0 {
            self.direction = 1;
        } else if sign < 0 {
            self.direction = -1;
        }
    }

    fn start_hunting(&mut self, left: bool)
        ensures
            *final(self) == spec_start_hunting(*old(self), left),
    {
        self.state = CatActivity::Hunting;
        self.direction = if left { -1 } else { 1 };
        self.state_timer = RETURN_TIMEOUT;
        self.frame_index = 0;
        self.frame_tick = 0;
    }

    fn start_returning(&mut self)
        ensures
            *final(self) == spec_start_returning(*old(self)),
    {
        self.state = CatActivity::Returning;
        self.state_timer = RETURN_TIMEOUT;
        self.frame_index = 0;
        self.frame_tick = 0;
    }

    fn end_of_walk(&mut self, d: CatDraws) -> (order: CatOrder)
        ensures
            (*final(self), order) == spec_end_of_walk(*old(self), d),
    {
        if d.hunt_roll < HUNT_CHANCE_PERCENT {
            self.start_hunting(d.hunt_left);
            CatOrder::Keep
        } else {
            self.start_returning();
            CatOrder::HeadHome
        }
    }

    fn tick_frame(&mut self)
        ensures
            *final(self) == spec_tick_frame(*old(self)),
    {
        let t = self.frame_tick.saturating_add(1);
        if t >= FRAME_STEP {
            self.frame_index = self.frame_index.saturating_add(1);
            self.frame_tick = 0;
        } else {
            self.frame_tick = t;
        }
    }

    /// The first half of a frame (see `spec_begin`) for the given draws;
    /// `home_x` is the sleeping spot's column.
    pub fn decide(m: CatMind, outdoor: bool, home_x: u16, d: CatDraws) -> (r: (CatMind, CatMotion, CatOrder))
        ensures
            r == spec_begin(m, outdoor, home_x, d),
    {
        let mut mind = m;
        let forced = !outdoor && (mind.state == CatActivity::Wandering || mind.state == CatActivity::Hunting);
        if forced {
            mind.start_returning();
        }
        let (motion, order) = match mind.state {
            CatActivity::Sleeping => {
                if !outdoor {
                    (CatMotion::Rest, CatOrder::Keep)
                } else if mind.state_timer == 0 {
                    let first_wake = !mind.has_woken;
                    if first_wake || d.wake_roll < WAKE_CHANCE_PERCENT {
                        mind.has_woken = true;
                        if !first_wake && d.hunt_roll < HUNT_CHANCE_PERCENT {
                            mind.start_hunting(d.hunt_left);
                            (CatMotion::Rest, CatOrder::Keep)
                        } else {
                            mind.state = CatActivity::Wandering;
                            mind.state_timer = d.walk_time;
                            if d.target_x > home_x {
                                mind.direction = 1;
                            } else if d.target_x < home_x {
                                mind.direction = -1;
                            }
                            mind.frame_index = 0;
                            mind.frame_tick = 0;
                            (CatMotion::Rest, CatOrder::WalkTo(d.target_x, d.target_y))
                        }
                    } else {
                        mind.state_timer = d.sleep_time;
                        (CatMotion::Rest, CatOrder::Keep)
                    }
                } else {
                    mind.state_timer = mind.state_timer - 1;
                    (CatMotion::Rest, CatOrder::Keep)
                }
            },
            CatActivity::Wandering => {
                if mind.state_timer == 0 {
                    let order = mind.end_of_walk(d);
                    (CatMotion::Hold, order)
                } else {
                    (CatMotion::Walk, CatOrder::Keep)
                }
            },
            CatActivity::Hunting => (CatMotion::Run, CatOrder::Keep),
            CatActivity::Returning => (CatMotion::Walk, if forced { CatOrder::HeadHome } else { CatOrder::Keep }),
        };
        (mind, motion, order)
    }

    /// The second half of a frame (see `spec_end`) for the given draws, after
    /// the body carried out `motion` with `outcome`.
    pub fn settle(m: CatMind, motion: CatMotion, outcome: bool, outdoor: bool, d: CatDraws) -> (r: (CatMind, CatOrder))
        ensures
            r == spec_end(m, motion, outcome, outdoor, d),
    {
        let mut mind = m;
        let t = mind.state_timer.saturating_sub(1);
        let order = match (motion, mind.state) {
            (CatMotion::Walk, CatActivity::Wandering) => {
                if outcome {
                    mind.end_of_walk(d)
                } else {
                    mind.state_timer = t;
                    CatOrder::Keep
                }
            },
            (CatMotion::Walk, CatActivity::Returning) => {
                if outcome {
                    mind.state = CatActivity::Sleeping;
                    mind.direction = 1;
                    mind.state_timer = d.sleep_time;
                    mind.frame_index = 0;
                    mind.frame_tick = 0;
                    CatOrder::LieDown
                } else {
                    mind.state_timer = if t == 0 { RETURN_TIMEOUT } else { t };
                    CatOrder::Keep
                }
            },
            (CatMotion::Run, CatActivity::Hunting) => {
                mind.state_timer = t;
                if outcome || t == 0 || !outdoor {
                    mind.start_returning();
                    CatOrder::HeadHome
                } else {
                    CatOrder::Keep
                }
            },
            _ => CatOrder::Keep,
        };
        mind.tick_frame();
        (mind, order)
    }

    /// Draw every value a frame may use, each in its own range. Each draw is
    /// independent and uniform over its range, so drawing them all gives
    /// every decision the same chances as drawing only the ones it reads.
    fn draw(bounds: AnchorBounds, rng: &mut StdRng) -> (d: CatDraws)
        requires
            bounds.left <= bounds.right,
            bounds.top <= bounds.bottom,
        ensures
            d.valid(bounds),
    {
        let wake_roll = random_u8_below(rng, 100);
        let hunt_roll = random_u8_below(rng, 100);
        let hunt_left = coin_flip(rng);
        let walk_time = random_u16_between(rng, WALK_MIN, WALK_MAX);
        let target_x = random_u16_between(rng, bounds.left, bounds.right);
        let target_y = random_u16_between(rng, bounds.top, bounds.bottom);
        let sleep_time = random_u16_between(rng, SLEEP_MIN, SLEEP_MAX);
        CatDraws { wake_roll, hunt_roll, hunt_left, walk_time, target_x, target_y, sleep_time }
    }

    /// The first half of a frame: draw, then `decide`. Whatever the draws,
    /// the result is `spec_begin` of some draws in range.
    pub fn begin(&mut self, outdoor: bool, bounds: AnchorBounds, home_x: u16, rng: &mut StdRng) -> (r: (CatMotion, CatOrder))
        requires
            bounds.left <= bounds.right,
            bounds.top <= bounds.bottom,
        ensures
            exists|d: CatDraws| #![auto]
                d.valid(bounds) && (*final(self), r.0, r.1) == spec_begin(*old(self), outdoor, home_x, d),
    {
        let d = Self::draw(bounds, rng);
        let (mind, motion, order) = Self::decide(*self, outdoor, home_x, d);
        *self = mind;
        (motion, order)
    }

    /// The second half of a frame: draw, then `settle`. Whatever the draws,
    /// the result is `spec_end` of some draws in range.
    pub fn end(&mut self, motion: CatMotion, outcome: bool, outdoor: bool, bounds: AnchorBounds, rng: &mut StdRng) -> (order: CatOrder)
        requires
            bounds.left <= bounds.right,
            bounds.top <= bounds.bottom,
        ensures
            exists|d: CatDraws| #![auto]
                d.valid(bounds) && (*final(self), order) == spec_end(*old(self), motion, outcome, outdoor, d),
    {
        let d = Self::draw(bounds, rng);
        let (mind, order) = Self::settle(*self, motion, outcome, outdoor, d);
        *self = mind;
        order
    }

    /// The pose to draw: a sleeping pose while asleep, else a walking one,
    /// cycling with the animation frame.
    pub fn frame(&self) -> (f: [&'static str; 3])
        ensures
            frame_rows(&f) == (if self.state == CatActivity::Sleeping {
                spec_cat_sleep_frame((self.frame_index % 3) as nat)
            } else {
                spec_cat_walk_frame((self.frame_index % 4) as nat)
            }),
    {
        if self.state == CatActivity::Sleeping {
            let frames = cat_sleep_frames();
            frames[self.frame_index % 3]
        } else {
            let frames = cat_walk_frames();
            frames[self.frame_index % 4]
        }
    }
}

/// Outside daylight and fair weather the cat neither wanders nor hunts:
/// after either half of a frame it is asleep or on its way home.
pub proof fn lemma_cat_stays_home_when_not_allowed_out(
    m: CatMind,
    home_x: u16,
    d: CatDraws,
    outcome: bool,
    e: CatDraws,
)
    ensures
        ({
            let (m1, motion, _) = spec_begin(m, false, home_x, d);
            let (m2, _) = spec_end(m1, motion, outcome, false, e);
            &&& (m1.state == CatActivity::Sleeping || m1.state == CatActivity::Returning)
            &&& (m2.state == CatActivity::Sleeping || m2.state == CatActivity::Returning)
        }),
{
}

/// The first time the cat's sleep runs out in daylight and fair weather,
/// it always wakes up and wanders to the drawn spot.
pub proof fn lemma_first_wake_wanders(m: CatMind, home_x: u16, d: CatDraws)
    requires
        m.state == CatActivity::Sleeping,
        m.state_timer == 0,
        !m.has_woken,
    ensures
        ({
            let (m1, motion, order) = spec_begin(m, true, home_x, d);
            &&& m1.state == CatActivity::Wandering
            &&& m1.has_woken
            &&& m1.state_timer == d.walk_time
            &&& motion == CatMotion::Rest
            &&& order == CatOrder::WalkTo(d.target_x, d.target_y)
        }),
{
}

/// A sleeping cat with time left does not decide anything: it stays asleep
/// and its timer counts down by one frame.
pub proof fn lemma_sleep_counts_down(m: CatMind, outdoor: bool, home_x: u16, d: CatDraws)
    requires
        m.state == CatActivity::Sleeping,
        m.state_timer > 0,
    ensures
        ({
            let (m1, motion, order) = spec_begin(m, outdoor, home_x, d);
            &&& m1.state == CatActivity::Sleeping
            &&& m1.state_timer == (if outdoor { m.state_timer - 1 } else { m.state_timer as int })
            &&& motion == CatMotion::Rest
            &&& order == CatOrder::Keep
        }),
{
}

/// The cat never jumps home: only a return walk that reached the sleeping
/// spot lies down, and an unfinished return stays a return with time left.
pub proof fn lemma_no_teleport_home(m: CatMind, motion: CatMotion, outcome: bool, outdoor: bool, d: CatDraws)
    ensures
        ({
            let (m1, order) = spec_end(m, motion, outcome, outdoor, d);
            &&& (order == CatOrder::LieDown) == (motion == CatMotion::Walk && m.state == CatActivity::Returning && outcome)
            &&& (motion == CatMotion::Walk && m.state == CatActivity::Returning && !outcome) ==> (
                m1.state == CatActivity::Returning && m1.state_timer >= 1
            )
        }),
{
}

} // verus!