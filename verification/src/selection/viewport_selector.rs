use vstd::prelude::*;

verus! {

/// The viewport selector type.
#[derive(Debug, Clone, Copy, PartialEq, Eq, Structural)]
pub enum ViewportSelectorType {
    /// Rectangle selection.
    Rectangle,
    /// Brush selection.
    Brush,
}

impl Default for ViewportSelectorType {
    /// Rectangle selection.
    fn default() -> (r: Self)
        ensures
            r == ViewportSelectorType::Rectangle,
    {
        ViewportSelectorType::Rectangle
    }
}

/// The interaction state of a viewport selector.
///
/// `P` is the type of a viewport position and `R` that of the brush radius.
/// Each method reflects a user action: [`start`](Self::start) when the user
/// starts a selection (mouse button down), [`update`](Self::update) when the
/// user moves it (mouse move with the button held). Both return the values that
/// the selector's position buffers must receive.
#[derive(Debug, Clone, Copy, PartialEq, Eq)]
pub struct ViewportSelectorState<P, R> {
    /// The start position of the selection.
    ///
    /// - In rectangle, this is the top left corner.
    /// - In brush, this is the previous brush position.
    pub start_pos: Option<P>,
    /// The end position of the selection.
    ///
    /// - In rectangle, this is the bottom right corner.
    /// - In brush, this is the current brush position.
    pub end_pos: Option<P>,
    /// The radius of the brush selection.
    pub brush_radius: R,
    /// The selector type.
    pub selector_type: ViewportSelectorType,
}

/// The values to write to a selector's position buffers after an action.
#[derive(Debug, Clone, Copy, PartialEq, Eq)]
pub struct ViewportSelectorWrites<P> {
    /// The value for the start position buffer, if it is written.
    pub start: Option<P>,
    /// The value for the end position buffer, which is always written.
    pub end: P,
}

/// The state after the user starts a selection at `pos`.
pub open spec fn state_after_start<P, R>(s: ViewportSelectorState<P, R>, pos: P) -> ViewportSelectorState<P, R> {
    ViewportSelectorState { start_pos: Some(pos), end_pos: Some(pos), ..s }
}

/// The state after the user moves the selection to `pos`: a rectangle keeps its
/// start corner; a brush moves on, its previous position becoming the start of
/// the new stroke segment.
pub open spec fn state_after_update<P, R>(s: ViewportSelectorState<P, R>, pos: P) -> ViewportSelectorState<P, R> {
    match s.selector_type {
        ViewportSelectorType::Rectangle => ViewportSelectorState { end_pos: Some(pos), ..s },
        ViewportSelectorType::Brush => ViewportSelectorState {
            start_pos: s.end_pos,
            end_pos: Some(pos),
            ..s
        },
    }
}

/// The buffer writes of an update to `pos` from state `s`. A brush with no
/// previous position starts its segment at `pos` itself.
pub open spec fn writes_on_update<P, R>(s: ViewportSelectorState<P, R>, pos: P) -> ViewportSelectorWrites<P> {
    match s.selector_type {
        ViewportSelectorType::Rectangle => ViewportSelectorWrites { start: None, end: pos },
        ViewportSelectorType::Brush => ViewportSelectorWrites {
            start: Some(
                match s.end_pos {
                    Some(e) => e,
                    None => pos,
                },
            ),
            end: pos,
        },
    }
}

/// The contents of the start and end position buffers after `w` is written to
/// buffers holding `buffers` (`None` for a buffer never written).
pub open spec fn buffers_after_writes<P>(buffers: (Option<P>, Option<P>), w: ViewportSelectorWrites<P>) -> (
    Option<P>,
    Option<P>,
) {
    (
        match w.start {
            Some(p) => Some(p),
            None => buffers.0,
        },
        Some(w.end),
    )
}

/// Whether the position buffers hold every position that the state holds.
pub open spec fn buffers_mirror_state<P, R>(
    s: ViewportSelectorState<P, R>,
    buffers: (Option<P>, Option<P>),
) -> bool {
    &&& s.start_pos is Some ==> buffers.0 == s.start_pos
    &&& s.end_pos is Some ==> buffers.1 == s.end_pos
}

/// The state after a run of updates to the positions of `moves`, in order.
pub open spec fn state_after_updates<P, R>(s: ViewportSelectorState<P, R>, moves: Seq<P>) -> ViewportSelectorState<P, R>
    decreases moves.len(),
{
    if moves.len() == 0 {
        s
    } else {
        state_after_update(state_after_updates(s, moves.drop_last()), moves.last())
    }
}

/// The position buffers always hold what the selector holds: a selector that
/// starts with empty buffers, and whose buffers receive the writes that
/// [`ViewportSelectorState::start`] and [`ViewportSelectorState::update`]
/// return, never holds a position that its buffers lack.
pub proof fn lemma_buffers_mirror_state<P, R>(
    s: ViewportSelectorState<P, R>,
    buffers: (Option<P>, Option<P>),
    pos: P,
)
    requires
        buffers_mirror_state(s, buffers),
    ensures
        buffers_mirror_state(
            state_after_start(s, pos),
            buffers_after_writes(buffers, ViewportSelectorWrites { start: Some(pos), end: pos }),
        ),
        buffers_mirror_state(
            state_after_update(s, pos),
            buffers_after_writes(buffers, writes_on_update(s, pos)),
        ),
{
}

/// A fresh selector's empty buffers mirror its empty state.
pub proof fn lemma_new_selector_mirrored<P, R>(s: ViewportSelectorState<P, R>)
    requires
        s.start_pos is None,
        s.end_pos is None,
    ensures
        buffers_mirror_state(s, (None::<P>, None::<P>)),
{
}

/// Starting a selection at `pos`, in either selector mode and from any state,
/// sets both the start and the end position to `pos`, writes `pos` to both
/// position buffers, and keeps the brush radius and the selector type.
pub proof fn lemma_start_sets_both_positions<P, R>(s: ViewportSelectorState<P, R>, pos: P)
    ensures
        state_after_start(s, pos).start_pos == Some(pos),
        state_after_start(s, pos).end_pos == Some(pos),
        state_after_start(s, pos).brush_radius == s.brush_radius,
        state_after_start(s, pos).selector_type == s.selector_type,
        buffers_after_writes((None::<P>, None::<P>), ViewportSelectorWrites { start: Some(pos), end: pos })
            == (Some(pos), Some(pos)),
{
}

/// Moving a selection to `pos` always makes `pos` the end position; a rectangle
/// keeps its start corner, while a brush's new start is its previous end.
pub proof fn lemma_update_moves_end<P, R>(s: ViewportSelectorState<P, R>, pos: P)
    ensures
        state_after_update(s, pos).end_pos == Some(pos),
        writes_on_update(s, pos).end == pos,
        state_after_update(s, pos).selector_type == s.selector_type,
        state_after_update(s, pos).brush_radius == s.brush_radius,
        s.selector_type == ViewportSelectorType::Rectangle ==> state_after_update(s, pos).start_pos
            == s.start_pos && writes_on_update(s, pos).start is None,
        s.selector_type == ViewportSelectorType::Brush ==> state_after_update(s, pos).start_pos
            == s.end_pos,
        s.selector_type == ViewportSelectorType::Brush && s.end_pos is Some ==> writes_on_update(
            s,
            pos,
        ).start == s.end_pos,
        s.selector_type == ViewportSelectorType::Brush && s.end_pos is None ==> writes_on_update(
            s,
            pos,
        ).start == Some(pos),
{
}

/// A rectangle drag spans from where it started to where it was last moved:
/// after starting at `from` and moving through `moves` in rectangle mode, the
/// start corner is `from` and the end corner the last move.
pub proof fn lemma_rectangle_drag<P, R>(s: ViewportSelectorState<P, R>, from: P, moves: Seq<P>)
    requires
        s.selector_type == ViewportSelectorType::Rectangle,
    ensures
        ({
            let t = state_after_updates(state_after_start(s, from), moves);
            &&& t.selector_type == ViewportSelectorType::Rectangle
            &&& t.start_pos == Some(from)
            &&& t.end_pos == Some(if moves.len() == 0 { from } else { moves.last() })
        }),
    decreases moves.len(),
{
    if moves.len() > 0 {
        lemma_rectangle_drag(s, from, moves.drop_last());
    }
}

/// A brush stroke is a chain of segments: after starting at `from` and moving
/// through a non-empty `moves` in brush mode, the current segment runs from the
/// second-to-last point of the stroke to the last one, and the start buffer of
/// every update receives the previous point (never the fallback).
pub proof fn lemma_brush_stroke<P, R>(s: ViewportSelectorState<P, R>, from: P, moves: Seq<P>)
    requires
        s.selector_type == ViewportSelectorType::Brush,
        moves.len() > 0,
    ensures
        ({
            let stroke = seq![from] + moves;
            let before = state_after_updates(state_after_start(s, from), moves.drop_last());
            let t = state_after_updates(state_after_start(s, from), moves);
            &&& t.selector_type == ViewportSelectorType::Brush
            &&& t.start_pos == Some(stroke[stroke.len() - 2])
            &&& t.end_pos == Some(stroke[stroke.len() - 1])
            &&& writes_on_update(before, moves.last()) == (ViewportSelectorWrites {
                start: Some(stroke[stroke.len() - 2]),
                end: moves.last(),
            })
        }),
    decreases moves.len(),
{
    let stroke = seq![from] + moves;
    if moves.len() > 1 {
        lemma_brush_stroke(s, from, moves.drop_last());
        let shorter = seq![from] + moves.drop_last();
        assert(shorter[shorter.len() - 1] == stroke[stroke.len() - 2]);
    } else {
        assert(moves.drop_last().len() == 0);
    }
}

impl<P: Copy, R> ViewportSelectorState<P, R> {
    /// A selector with no selection yet, in rectangle mode.
    pub fn new(brush_radius: R) -> (r: Self)
        ensures
            r.start_pos is None,
            r.end_pos is None,
            r.brush_radius == brush_radius,
            r.selector_type == ViewportSelectorType::Rectangle,
    {
        ViewportSelectorState {
            start_pos: None,
            end_pos: None,
            brush_radius,
            selector_type: ViewportSelectorType::default(),
        }
    }

    /// Start the selection at the given position; both position buffers
    /// receive `pos`.
    pub fn start(&mut self, pos: P) -> (w: ViewportSelectorWrites<P>)
        ensures
            *final(self) == state_after_start(*old(self), pos),
            final(self).start_pos == Some(pos),
            final(self).end_pos == Some(pos),
            final(self).brush_radius == old(self).brush_radius,
            final(self).selector_type == old(self).selector_type,
            w == (ViewportSelectorWrites { start: Some(pos), end: pos }),
    {
        self.start_pos = Some(pos);
        self.end_pos = Some(pos);
        ViewportSelectorWrites { start: Some(pos), end: pos }
    }

    /// Update the end position of the selection.
    pub fn update(&mut self, pos: P) -> (w: ViewportSelectorWrites<P>)
        ensures
            *final(self) == state_after_update(*old(self), pos),
            w == writes_on_update(*old(self), pos),
            final(self).end_pos == Some(pos),
            final(self).brush_radius == old(self).brush_radius,
            final(self).selector_type == old(self).selector_type,
            w.end == pos,
            old(self).selector_type == ViewportSelectorType::Rectangle ==> {
                &&& final(self).start_pos == old(self).start_pos
                &&& w.start is None
            },
            old(self).selector_type == ViewportSelectorType::Brush ==> {
                &&& final(self).start_pos == old(self).end_pos
                &&& old(self).end_pos is Some ==> w.start == old(self).end_pos
                &&& old(self).end_pos is None ==> w.start == Some(pos)
            },
    {
        match self.selector_type {
            ViewportSelectorType::Rectangle => {
                self.end_pos = Some(pos);
                ViewportSelectorWrites { start: None, end: pos }
            },
            ViewportSelectorType::Brush => {
                self.start_pos = self.end_pos;
                let start = match self.start_pos {
                    Some(p) => p,
                    None => pos,
                };
                self.end_pos = Some(pos);
                ViewportSelectorWrites { start: Some(start), end: pos }
            },
        }
    }

    /// Set the brush radius.
    pub fn set_brush_radius(&mut self, radius: R)
        ensures
            *final(self) == (ViewportSelectorState { brush_radius: radius, ..*old(self) }),
    {
        self.brush_radius = radius;
    }
}

} // verus!
