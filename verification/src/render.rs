//! The steps of making a text bitmap, between the host's measuring and
//! drawing calls.
//!
//! The host owns the font and the drawing routines. The caller starts with a
//! fresh `RenderState`, hands each host result to `make_text_bitmap` as a
//! `HostEvent`, and performs the `RenderAction` that comes back, until the
//! action is `Finish` or `Fail`.

use crate::convert::{pixels_to_rgba_par, rgba_bytes};
use vstd::prelude::*;

verus! {

/// The colour that a fresh canvas is filled with: white, with alpha 0.
pub const BLANK_PIXEL: u32 = 0x00FF_FFFF;

/// Why no bitmap was made.
#[derive(Clone, Copy, Debug, PartialEq, Eq)]
pub enum RasterError {
    /// The host measured the text as zero pixels wide.
    ZeroWidth,
    /// The event does not answer the action that was last handed out.
    UnexpectedEvent,
}

impl RasterError {
    /// The words that describe this error.
    pub open spec fn text(self) -> Seq<char> {
        match self {
            RasterError::ZeroWidth => "empty or unmeasurable text"@,
            RasterError::UnexpectedEvent => "event does not answer the last action"@,
        }
    }

    /// A description of the error, for the caller to show or log.
    pub fn message(&self) -> (s: &'static str)
        ensures
            s@ == self.text(),
    {
        match self {
            RasterError::ZeroWidth => "empty or unmeasurable text",
            RasterError::UnexpectedEvent => "event does not answer the last action",
        }
    }
}

/// How far the making of a bitmap has come.
#[derive(Clone, Copy, Debug, PartialEq, Eq)]
pub enum Phase {
    /// Nothing was asked of the host yet.
    Idle,
    /// The host was asked for the width of the text.
    AwaitingWidth,
    /// The width is known; the host was asked for the height.
    AwaitingHeight,
    /// The canvas was handed out for drawing.
    AwaitingDraw,
    /// The bitmap was handed out, or its making has failed.
    Done,
}

/// What the host reports back.
#[derive(Debug, PartialEq, Eq)]
pub enum HostEvent {
    /// The caller wants a bitmap of a text.
    Begin,
    /// The measured width of the text, in pixels.
    Width(usize),
    /// The measured height of the text, in pixels.
    Height(usize),
    /// The canvas, after the host drew the text into it.
    Drawn(Vec<u32>),
}

/// What the caller does next.
#[derive(Debug, PartialEq, Eq)]
pub enum RenderAction {
    /// Measure the width of the text, and report `HostEvent::Width`.
    MeasureWidth,
    /// Measure the height of the text, and report `HostEvent::Height`.
    MeasureHeight,
    /// Draw the text at the origin of this canvas of `width` by `height`
    /// pixels, and report `HostEvent::Drawn` with the canvas.
    Draw { pixels: Vec<u32>, width: usize, height: usize },
    /// The bitmap: `bytes` holds R, G, B, A for each pixel, row after row.
    Finish { bytes: Vec<u8>, width: usize, height: usize },
    /// No bitmap can be made.
    Fail(RasterError),
}

/// The progress of one bitmap. Its fields are set only by `new` and
/// `make_text_bitmap`.
#[derive(Debug)]
pub struct RenderState {
    phase: Phase,
    width: usize,
    height: usize,
}

/// A `RenderState` as mathematical values.
pub struct StateModel {
    pub phase: Phase,
    pub width: nat,
    pub height: nat,
}

/// A `HostEvent` as mathematical values.
pub enum EventModel {
    Begin,
    Width(nat),
    Height(nat),
    Drawn(Seq<u32>),
}

/// A `RenderAction` as mathematical values.
pub enum ActionModel {
    MeasureWidth,
    MeasureHeight,
    Draw { pixels: Seq<u32>, width: nat, height: nat },
    Finish { bytes: Seq<u8>, width: nat, height: nat },
    Fail(RasterError),
}

impl View for HostEvent {
    type V = EventModel;

    open spec fn view(&self) -> EventModel {
        match *self {
            HostEvent::Begin => EventModel::Begin,
            HostEvent::Width(w) => EventModel::Width(w as nat),
            HostEvent::Height(h) => EventModel::Height(h as nat),
            HostEvent::Drawn(pixels) => EventModel::Drawn(pixels@),
        }
    }
}

impl View for RenderAction {
    type V = ActionModel;

    open spec fn view(&self) -> ActionModel {
        match *self {
            RenderAction::MeasureWidth => ActionModel::MeasureWidth,
            RenderAction::MeasureHeight => ActionModel::MeasureHeight,
            RenderAction::Draw { pixels, width, height } => ActionModel::Draw {
                pixels: pixels@,
                width: width as nat,
                height: height as nat,
            },
            RenderAction::Finish { bytes, width, height } => ActionModel::Finish {
                bytes: bytes@,
                width: width as nat,
                height: height as nat,
            },
            RenderAction::Fail(e) => ActionModel::Fail(e),
        }
    }
}

impl View for RenderState {
    type V = StateModel;

    closed spec fn view(&self) -> StateModel {
        StateModel { phase: self.phase, width: self.width as nat, height: self.height as nat }
    }
}

/// The state before anything was asked of the host.
pub open spec fn initial() -> StateModel {
    StateModel { phase: Phase::Idle, width: 0, height: 0 }
}

/// The state after the bitmap was handed out or its making has failed.
pub open spec fn finished() -> StateModel {
    StateModel { phase: Phase::Done, width: 0, height: 0 }
}

/// A canvas of `n` pixels that nothing was drawn into.
pub open spec fn blank_canvas(n: nat) -> Seq<u32> {
    Seq::new(n, |i: int| BLANK_PIXEL)
}

/// The states that `new` and `make_text_bitmap` produce: a width is kept
/// only once it was measured as positive, a height only once the canvas of
/// that size was handed out.
pub open spec fn state_wf(s: StateModel) -> bool {
    match s.phase {
        Phase::Idle | Phase::AwaitingWidth | Phase::Done => s.width == 0 && s.height == 0,
        Phase::AwaitingHeight => 0 < s.width && s.height == 0,
        Phase::AwaitingDraw => 0 < s.width && s.width * s.height <= usize::MAX,
    }
}

/// The number of pixels of the canvas fits the machine: asked of a measured
/// height, for the width measured before it.
pub open spec fn canvas_fits(s: StateModel, e: EventModel) -> bool {
    s.phase == Phase::AwaitingHeight ==> (e matches EventModel::Height(h) ==> s.width * h
        <= usize::MAX)
}

/// The next state and the action, for each state and event.
///
/// - `Begin` in `Idle` asks for the width.
/// - A width of zero fails with `ZeroWidth`; any other asks for the height.
/// - A height hands out a blank canvas of width times height pixels.
/// - A drawn canvas of that many pixels gives the bitmap: its bytes, with
///   the width and height that were measured.
/// - Any other event, in any state, fails with `UnexpectedEvent`.
pub open spec fn transition(s: StateModel, e: EventModel) -> (StateModel, ActionModel) {
    match (s.phase, e) {
        (Phase::Idle, EventModel::Begin) => (
            StateModel { phase: Phase::AwaitingWidth, width: 0, height: 0 },
            ActionModel::MeasureWidth,
        ),
        (Phase::AwaitingWidth, EventModel::Width(w)) => if w == 0 {
            (finished(), ActionModel::Fail(RasterError::ZeroWidth))
        } else {
            (
                StateModel { phase: Phase::AwaitingHeight, width: w, height: 0 },
                ActionModel::MeasureHeight,
            )
        },
        (Phase::AwaitingHeight, EventModel::Height(h)) => (
            StateModel { phase: Phase::AwaitingDraw, width: s.width, height: h },
            ActionModel::Draw { pixels: blank_canvas(s.width * h), width: s.width, height: h },
        ),
        (Phase::AwaitingDraw, EventModel::Drawn(pixels)) => if pixels.len() == s.width
            * s.height {
            (
                finished(),
                ActionModel::Finish {
                    bytes: rgba_bytes(pixels),
                    width: s.width,
                    height: s.height,
                },
            )
        } else {
            (finished(), ActionModel::Fail(RasterError::UnexpectedEvent))
        },
        _ => (finished(), ActionModel::Fail(RasterError::UnexpectedEvent)),
    }
}

impl RenderState {
    /// Whether this state is one that `new` and `make_text_bitmap` produce.
    pub open spec fn wf(self) -> bool {
        state_wf(self@)
    }

    /// The state in which nothing was asked of the host yet.
    pub fn new() -> (s: Self)
        ensures
            s@ == initial(),
            s.wf(),
    {
        RenderState { phase: Phase::Idle, width: 0, height: 0 }
    }

    /// How far the making of the bitmap has come.
    pub fn phase(&self) -> (p: Phase)
        ensures
            p == self@.phase,
    {
        self.phase
    }

    /// Whether `make_text_bitmap` may be called with this event: false only
    /// for a measured height that, with the width measured before it, gives
    /// more pixels than the machine can count.
    pub fn accepts(&self, event: &HostEvent) -> (ok: bool)
        ensures
            ok == canvas_fits(self@, event@),
    {
        match self.phase {
            Phase::AwaitingHeight => match event {
                HostEvent::Height(height) => self.width.checked_mul(*height).is_some(),
                _ => true,
            },
            _ => true,
        }
    }

    /// The state after the end, in either way.
    fn done() -> (s: Self)
        ensures
            s@ == finished(),
            s.wf(),
    {
        RenderState { phase: Phase::Done, width: 0, height: 0 }
    }
}

/// The answer to an event that the state did not wait for.
fn reject() -> (out: (RenderState, RenderAction))
    ensures
        out.0@ == finished(),
        out.0.wf(),
        out.1@ == ActionModel::Fail(RasterError::UnexpectedEvent),
{
    (RenderState::done(), RenderAction::Fail(RasterError::UnexpectedEvent))
}

/// Takes the making of a text bitmap one step further: given the state and
/// what the host reported, returns the next state and what to do next, as
/// `transition` says. A bitmap that comes out holds four bytes for each
/// pixel of a canvas that is at least one pixel wide.
pub fn make_text_bitmap(state: RenderState, event: HostEvent) -> (out: (
    RenderState,
    RenderAction,
))
    requires
        state.wf(),
        canvas_fits(state@, event@),
    ensures
        out.0.wf(),
        out.0@ == transition(state@, event@).0,
        out.1@ == transition(state@, event@).1,
        out.1 matches RenderAction::Finish { bytes, width, height } ==> bytes@.len() == 4
            * width * height && width > 0,
{
    match state.phase {
        Phase::Idle => match event {
            HostEvent::Begin => (
                RenderState { phase: Phase::AwaitingWidth, width: 0, height: 0 },
                RenderAction::MeasureWidth,
            ),
            _ => reject(),
        },
        Phase::AwaitingWidth => match event {
            HostEvent::Width(width) => if width == 0 {
                (RenderState::done(), RenderAction::Fail(RasterError::ZeroWidth))
            } else {
                (
                    RenderState { phase: Phase::AwaitingHeight, width, height: 0 },
                    RenderAction::MeasureHeight,
                )
            },
            _ => reject(),
        },
        Phase::AwaitingHeight => match event {
            HostEvent::Height(height) => {
                let width = state.width;
                let pixels = vec![BLANK_PIXEL; width * height];
                assert(pixels@ =~= blank_canvas((width * height) as nat));
                (
                    RenderState { phase: Phase::AwaitingDraw, width, height },
                    RenderAction::Draw { pixels, width, height },
                )
            },
            _ => reject(),
        },
        Phase::AwaitingDraw => match event {
            HostEvent::Drawn(pixels) => {
                let width = state.width;
                let height = state.height;
                if pixels.len() == width * height {
                    let bytes = pixels_to_rgba_par(&pixels);
                    assert(4 * (width * height) == 4 * width * height) by (nonlinear_arith);
                    (RenderState::done(), RenderAction::Finish { bytes, width, height })
                } else {
                    reject()
                }
            },
            _ => reject(),
        },
        Phase::Done => reject(),
    }
}

/// The final action of a whole run: `Begin`, a measured width and height,
/// and the canvas as the host left it.
pub open spec fn run_outcome(width: nat, height: nat, drawn: Seq<u32>) -> ActionModel {
    let asked = transition(initial(), EventModel::Begin).0;
    let wide = transition(asked, EventModel::Width(width)).0;
    let handed = transition(wide, EventModel::Height(height)).0;
    transition(handed, EventModel::Drawn(drawn)).1
}

/// A step from a well-formed state, with a canvas that fits the machine,
/// leads to a well-formed state.
pub proof fn lemma_transition_keeps_wf(s: StateModel, e: EventModel)
    requires
        state_wf(s),
        canvas_fits(s, e),
    ensures
        state_wf(transition(s, e).0),
{
}

/// A bitmap that a step hands out has the width and height that the state
/// held, a positive width, and exactly four bytes for each of its width
/// times height pixels.
pub proof fn lemma_finish_size(s: StateModel, e: EventModel)
    requires
        state_wf(s),
    ensures
        transition(s, e).1 matches ActionModel::Finish { bytes, width, height } ==> {
            &&& bytes.len() == 4 * width * height
            &&& width > 0
            &&& width == s.width
            &&& height == s.height
        },
{
    assert(4 * (s.width * s.height) == 4 * s.width * s.height) by (nonlinear_arith);
}

/// A text that the host measures as zero pixels wide fails with
/// `ZeroWidth`, and no canvas is handed out for it, then or later: the state
/// is `Done`, where every event is answered with a failure.
pub proof fn lemma_zero_width_fails(s: StateModel, later: EventModel)
    requires
        s.phase == Phase::AwaitingWidth,
    ensures
        transition(s, EventModel::Width(0)) == (
            finished(),
            ActionModel::Fail(RasterError::ZeroWidth),
        ),
        transition(finished(), later) == (
            finished(),
            ActionModel::Fail(RasterError::UnexpectedEvent),
        ),
{
}

/// A run with a positive measured width ends in a bitmap of the measured
/// width and height, whose bytes are those of the canvas that the host drew
/// into, four for each pixel. On the way the host is asked for the width,
/// then for the height, then handed a blank canvas of width times height
/// pixels.
pub proof fn lemma_run_gives_bitmap(width: nat, height: nat, drawn: Seq<u32>)
    requires
        width > 0,
        drawn.len() == width * height,
    ensures
        run_outcome(width, height, drawn) == (ActionModel::Finish {
            bytes: rgba_bytes(drawn),
            width,
            height,
        }),
        rgba_bytes(drawn).len() == 4 * width * height,
        transition(initial(), EventModel::Begin).1 == ActionModel::MeasureWidth,
        transition(
            StateModel { phase: Phase::AwaitingWidth, width: 0, height: 0 },
            EventModel::Width(width),
        ).1 == ActionModel::MeasureHeight,
        transition(
            StateModel { phase: Phase::AwaitingHeight, width, height: 0 },
            EventModel::Height(height),
        ).1 == (ActionModel::Draw { pixels: blank_canvas(width * height), width, height }),
{
    assert(4 * (width * height) == 4 * width * height) by (nonlinear_arith);
}

/// A run with a measured width of zero fails with `ZeroWidth`, whatever is
/// reported after the width.
pub proof fn lemma_run_zero_width(height: nat, drawn: Seq<u32>)
    ensures
        transition(
            transition(initial(), EventModel::Begin).0,
            EventModel::Width(0),
        ).1 == ActionModel::Fail(RasterError::ZeroWidth),
        run_outcome(0, height, drawn) == ActionModel::Fail(RasterError::UnexpectedEvent),
{
}

/// A canvas that nothing was drawn into converts to the bytes 255, 255, 255,
/// 0 for each pixel.
pub proof fn lemma_blank_canvas_bytes(n: nat)
    ensures
        rgba_bytes(blank_canvas(n)) == Seq::new(
            4 * n,
            |j: int| if j % 4 == 3 { 0u8 } else { 255u8 },
        ),
{
    let c = BLANK_PIXEL;
    assert(((c >> 16) & 0xFF) as u8 == 255u8 && ((c >> 8) & 0xFF) as u8 == 255u8 && (c
        & 0xFF) as u8 == 255u8 && ((c >> 24) & 0xFF) as u8 == 0u8) by (bit_vector)
        requires
            c == 0x00FF_FFFFu32,
    ;
    assert(rgba_bytes(blank_canvas(n)) =~= Seq::new(
        4 * n,
        |j: int| if j % 4 == 3 { 0u8 } else { 255u8 },
    ));
}

} // verus!
