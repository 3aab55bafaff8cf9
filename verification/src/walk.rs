//! The random walk: on every update each entity makes one unit move, chosen
//! by an integer draw.

use vstd::prelude::*;

verus! {

/// Lowest value a draw can take.
pub const DRAW_LOW: i32 = 1;

/// Bound just above the highest value a draw can take.
pub const DRAW_HIGH: i32 = 5;

/// One unit move along one axis of the plane.
#[derive(Clone, Copy, Debug, PartialEq, Eq, Structural)]
pub enum Step {
    /// One unit towards smaller `x`.
    XMinus,
    /// One unit towards larger `x`.
    XPlus,
    /// One unit towards smaller `y`.
    YMinus,
    /// One unit towards larger `y`.
    YPlus,
}

/// The step that a draw selects: 1, 2 and 3 pick the first three moves, every
/// other value picks the last.
pub open spec fn step_of_draw(draw: int) -> Step {
    if draw == 1 {
        Step::XMinus
    } else if draw == 2 {
        Step::XPlus
    } else if draw == 3 {
        Step::YMinus
    } else {
        Step::YPlus
    }
}

impl Step {
    /// Change of the `x` coordinate under this step.
    pub open spec fn dx(self) -> int {
        match self {
            Step::XMinus => -1,
            Step::XPlus => 1,
            Step::YMinus => 0,
            Step::YPlus => 0,
        }
    }

    /// Change of the `y` coordinate under this step.
    pub open spec fn dy(self) -> int {
        match self {
            Step::XMinus => 0,
            Step::XPlus => 0,
            Step::YMinus => -1,
            Step::YPlus => 1,
        }
    }

    /// The step selected by `draw`.
    pub fn from_draw(draw: i32) -> (step: Step)
        ensures
            step == step_of_draw(draw as int),
    {
        if draw == 1 {
            Step::XMinus
        } else if draw == 2 {
            Step::XPlus
        } else if draw == 3 {
            Step::YMinus
        } else {
            Step::YPlus
        }
    }

    /// The change of `(x, y)` under this step.
    pub fn offset(self) -> (d: (i32, i32))
        ensures
            d.0 == self.dx(),
            d.1 == self.dy(),
    {
        match self {
            Step::XMinus => (-1, 0),
            Step::XPlus => (1, 0),
            Step::YMinus => (0, -1),
            Step::YPlus => (0, 1),
        }
    }
}

/// Calls `macroquad::rand::gen_range` on two `i32` bounds.
///
/// Not proved: that the result lies in `low..high`. The outside function
/// scales a 32-bit random number into the range in `f64` and truncates; for
/// bounds between 0 and 2^20 every intermediate value is exact and
/// non-negative, so the truncation cannot land on `high`. Nothing is claimed
/// about which value of the range comes back.
#[verifier::external_body]
fn gen_range(low: i32, high: i32) -> (draw: i32)
    requires
        0 <= low < high <= 0x10_0000,
    ensures
        low <= draw < high,
{
    macroquad::rand::gen_range(low, high)
}

/// Draws once and returns the step for that draw.
pub fn draw_step() -> (step: Step)
    ensures
        exists|draw: int| DRAW_LOW <= draw < DRAW_HIGH && step == #[trigger] step_of_draw(draw),
{
    let draw: i32 = gen_range(DRAW_LOW, DRAW_HIGH);
    Step::from_draw(draw)
}

/// Draws one step for each of `count` entities, in entity order.
pub fn draw_steps(count: usize) -> (steps: Vec<Step>)
    ensures
        steps@.len() == count,
{
    let mut steps: Vec<Step> = Vec::new();
    let mut i: usize = 0;
    while i < count
        invariant
            i <= count,
            steps@.len() == i,
        decreases count - i,
    {
        steps.push(draw_step());
        i += 1;
    }
    steps
}

/// Every step moves by exactly one unit along exactly one axis.
pub proof fn lemma_step_is_unit(step: Step)
    ensures
        (step.dx() == 0) != (step.dy() == 0),
        -1 <= step.dx() <= 1,
        -1 <= step.dy() <= 1,
{
}

/// Each of the four steps is selected by a draw within the range.
pub proof fn lemma_every_step_is_drawn(step: Step)
    ensures
        exists|draw: int| DRAW_LOW <= draw < DRAW_HIGH && step == #[trigger] step_of_draw(draw),
{
    match step {
        Step::XMinus => assert(step == step_of_draw(1)),
        Step::XPlus => assert(step == step_of_draw(2)),
        Step::YMinus => assert(step == step_of_draw(3)),
        Step::YPlus => assert(step == step_of_draw(4)),
    }
}

/// Within the range, different draws select different steps, so a uniform
/// draw makes the four steps equally likely.
pub proof fn lemma_draws_select_distinct_steps(a: int, b: int)
    requires
        DRAW_LOW <= a < DRAW_HIGH,
        DRAW_LOW <= b < DRAW_HIGH,
        step_of_draw(a) == step_of_draw(b),
    ensures
        a == b,
{
}

} // verus!
