use vstd::prelude::*;
use microbit_bsp::display::Frame;

verus! {

#[verifier::external_type_specification]
#[verifier::external_body]
pub struct ExFrame<const XSIZE: usize, const YSIZE: usize>(Frame<XSIZE, YSIZE>);

/// Columns of the display matrix.
pub const FRAME_WIDTH: usize = 5;

/// Rows of the display matrix.
pub const FRAME_HEIGHT: usize = 5;

/// Column of the pixel that blinks.
pub const BLINK_X: usize = 0;

/// Row of the pixel that blinks.
pub const BLINK_Y: usize = 0;

/// How long each phase of the blink is held, in milliseconds.
pub const BLINK_HALF_PERIOD_MS: u64 = 500;

/// The lit pixels of a frame, as (column, row) pairs.
pub uninterp spec fn lit_pixels(f: Frame<5, 5>) -> Set<(int, int)>;

/// Every row bitmap of the frame is five bits wide, so each pixel of the
/// 5 x 5 grid can be set, cleared and tested.
pub uninterp spec fn rows_full(f: Frame<5, 5>) -> bool;

/// Relies on `Frame::default`, which is `Frame::empty`: every row bitmap is
/// empty and five bits wide, so no pixel is lit.
#[verifier::external_body]
fn frame_empty() -> (r: Frame<5, 5>)
    ensures
        lit_pixels(r) == Set::<(int, int)>::empty(),
        rows_full(r),
{
    Frame::default()
}

/// Relies on `Frame::set`: it sets bit `x` of row `y` and touches no other
/// bit and no row's width. It asserts `x` below the row's width and indexes
/// row `y`.
#[verifier::external_body]
fn frame_set(f: &mut Frame<5, 5>, x: usize, y: usize)
    requires
        rows_full(*old(f)),
        x < 5,
        y < 5,
    ensures
        rows_full(*final(f)),
        lit_pixels(*final(f)) == lit_pixels(*old(f)).insert((x as int, y as int)),
{
    f.set(x, y)
}

/// Relies on `Frame::unset`: it clears bit `x` of row `y` and touches no
/// other bit and no row's width. It asserts `x` below the row's width and
/// indexes row `y`.
#[verifier::external_body]
fn frame_unset(f: &mut Frame<5, 5>, x: usize, y: usize)
    requires
        rows_full(*old(f)),
        x < 5,
        y < 5,
    ensures
        rows_full(*final(f)),
        lit_pixels(*final(f)) == lit_pixels(*old(f)).remove((x as int, y as int)),
{
    f.unset(x, y)
}

/// Relies on `Frame::is_set`: it tests bit `x` of row `y`. It asserts `x`
/// below the row's width and indexes row `y`.
#[verifier::external_body]
fn frame_is_set(f: &Frame<5, 5>, x: usize, y: usize) -> (r: bool)
    requires
        rows_full(*f),
        x < 5,
        y < 5,
    ensures
        r == lit_pixels(*f).contains((x as int, y as int)),
{
    f.is_set(x, y)
}

/// The pixels lit while the blink is in its on phase (`on`) or off phase.
pub open spec fn blink_pixels(on: bool) -> Set<(int, int)> {
    if on {
        set![(BLINK_X as int, BLINK_Y as int)]
    } else {
        Set::empty()
    }
}

/// The phase shown by the `k`-th render, when the first one shows `first`.
pub open spec fn phase_after(first: bool, k: nat) -> bool
    decreases k,
{
    if k == 0 {
        first
    } else {
        !phase_after(first, (k - 1) as nat)
    }
}

/// Blinks one pixel of its own frame: each step sets or clears the pixel and
/// hands out the frame to render for one half-period. The ghost count is
/// the number of frames handed out so far.
pub struct DisplayActuator {
    frame: Frame<5, 5>,
    on: bool,
    renders: Ghost<nat>,
}

impl DisplayActuator {
    /// Whether the next render shows the pixel lit.
    pub closed spec fn next_on(&self) -> bool {
        self.on
    }

    /// The pixels lit in the actuator's frame.
    pub closed spec fn pixels(&self) -> Set<(int, int)> {
        lit_pixels(self.frame)
    }

    /// The number of frames handed out so far.
    pub closed spec fn renders_done(&self) -> nat {
        self.renders@
    }

    /// The frame's rows are full width, it is dark before the first render
    /// and shows the last rendered phase after it, and the next phase follows
    /// the strict alternation.
    pub closed spec fn wf(&self) -> bool {
        &&& rows_full(self.frame)
        &&& self.renders@ == 0 ==> lit_pixels(self.frame) == Set::<(int, int)>::empty()
        &&& self.renders@ > 0 ==> lit_pixels(self.frame) == blink_pixels(!self.on)
        &&& self.on == phase_after(true, self.renders@)
    }

    /// An actuator with a dark frame whose first render shows the pixel lit.
    pub fn new() -> (r: DisplayActuator)
        ensures
            r.wf(),
            r.next_on(),
            r.renders_done() == 0,
            r.pixels() == Set::<(int, int)>::empty(),
    {
        DisplayActuator { frame: frame_empty(), on: true, renders: Ghost(0) }
    }

    /// Whether the next render shows the pixel lit.
    pub fn shows_on_next(&self) -> (r: bool)
        ensures
            r == self.next_on(),
    {
        self.on
    }

    /// Sets the pixel for the coming phase and returns the frame to render
    /// for `BLINK_HALF_PERIOD_MS`; the next step shows the other phase.
    pub fn step(&mut self) -> (r: Frame<5, 5>)
        requires
            old(self).wf(),
        ensures
            final(self).wf(),
            lit_pixels(r) == blink_pixels(old(self).next_on()),
            final(self).pixels() == lit_pixels(r),
            final(self).next_on() == !old(self).next_on(),
            final(self).renders_done() == old(self).renders_done() + 1,
            old(self).next_on() == phase_after(true, old(self).renders_done()),
    {
        if self.on {
            frame_set(&mut self.frame, BLINK_X, BLINK_Y);
        } else {
            frame_unset(&mut self.frame, BLINK_X, BLINK_Y);
        }
        assert(lit_pixels(self.frame) =~= blink_pixels(self.on));
        self.on = !self.on;
        self.renders = Ghost(self.renders@ + 1);
        self.frame
    }

    /// Whether the blinking pixel is lit in the actuator's frame.
    pub fn pixel_lit(&self) -> (r: bool)
        requires
            self.wf(),
        ensures
            r == self.pixels().contains((BLINK_X as int, BLINK_Y as int)),
    {
        frame_is_set(&self.frame, BLINK_X, BLINK_Y)
    }
}

/// The blink alternates strictly: the renders of a fresh actuator show on,
/// off, on, off, ..., so two consecutive renders never show the same phase
/// and every second render shows the pixel lit.
pub proof fn lemma_blink_alternates(k: nat)
    ensures
        phase_after(true, k) == (k % 2 == 0),
        phase_after(true, k + 1) != phase_after(true, k),
        phase_after(true, k + 2) == phase_after(true, k),
    decreases k,
{
    if k > 0 {
        lemma_blink_alternates((k - 1) as nat);
    }
    assert(phase_after(true, k + 1) == !phase_after(true, k));
    assert(phase_after(true, k + 2) == !phase_after(true, k + 1));
}

/// A fresh actuator's renders alternate strictly: after `n` steps the next
/// render shows the pixel lit exactly when `n` is even, and the last one
/// shown lit exactly when `n` is odd.
pub proof fn lemma_actuator_alternates(d: DisplayActuator)
    requires
        d.wf(),
    ensures
        d.next_on() == (d.renders_done() % 2 == 0),
        d.renders_done() > 0 ==> d.pixels() == blink_pixels(d.renders_done() % 2 == 1),
        d.renders_done() == 0 ==> d.pixels() == Set::<(int, int)>::empty(),
{
    lemma_blink_alternates(d.renders_done());
    if d.renders_done() > 0 {
        lemma_blink_alternates((d.renders_done() - 1) as nat);
    }
}

} // verus!
