//! The event-loop host: what it does on each frame of the widget toolkit.
use vstd::prelude::*;

verus! {

/// Identifier of an application plugin.
#[derive(Clone, Copy, Debug, Hash, PartialEq, Eq, Structural)]
pub struct PluginId(pub usize);

/// One operation on the widget toolkit's runner.
#[derive(Clone, Copy, Debug, PartialEq, Eq, Structural, Hash)]
pub enum FrameOp {
    /// Redraw everything.
    Refresh,
    /// Deliver a refresh event, which runs the application's tick hook.
    RefreshEvent,
    /// Run one frame: input, layout, draw.
    Step,
}

/// What the host does on one iteration of its loop.
#[derive(Clone, Copy, Debug, PartialEq, Eq, Structural, Hash)]
pub enum FrameAction {
    /// Leave the loop.
    Exit,
    /// Run one frame.
    Step,
    /// A redraw was asked for: run the forced redraw cycle.
    Relayout,
}

/// The decision for one iteration: leave once the toolkit stops or the exit
/// signal is raised; otherwise redraw if asked to, by the backend after a
/// resize or by the application.
pub open spec fn frame_action(
    running: bool,
    exit_requested: bool,
    relayout_requested: bool,
    refresh_requested: bool,
) -> FrameAction {
    if !running || exit_requested {
        FrameAction::Exit
    } else if relayout_requested || refresh_requested {
        FrameAction::Relayout
    } else {
        FrameAction::Step
    }
}

/// The runner operations of an action. A forced redraw brackets one frame
/// with two refreshes, as one refresh after a size change does not redraw
/// every layer.
pub open spec fn frame_ops_of(a: FrameAction) -> Seq<FrameOp> {
    match a {
        FrameAction::Exit => Seq::empty(),
        FrameAction::Step => seq![FrameOp::Step],
        FrameAction::Relayout => seq![
            FrameOp::Refresh,
            FrameOp::RefreshEvent,
            FrameOp::Step,
            FrameOp::Refresh,
            FrameOp::RefreshEvent,
        ],
    }
}

/// The runner operations before the first iteration.
pub open spec fn start_ops_of() -> Seq<FrameOp> {
    seq![FrameOp::Refresh, FrameOp::RefreshEvent]
}

/// Decides one iteration of the host's loop.
pub fn next_frame(
    running: bool,
    exit_requested: bool,
    relayout_requested: bool,
    refresh_requested: bool,
) -> (r: FrameAction)
    ensures
        r == frame_action(running, exit_requested, relayout_requested, refresh_requested),
{
    if !running || exit_requested {
        FrameAction::Exit
    } else if relayout_requested || refresh_requested {
        FrameAction::Relayout
    } else {
        FrameAction::Step
    }
}

/// The runner operations of an action, in order.
pub fn frame_ops(a: FrameAction) -> (r: Vec<FrameOp>)
    ensures
        r@ == frame_ops_of(a),
{
    let mut ops: Vec<FrameOp> = Vec::new();
    match a {
        FrameAction::Exit => {},
        FrameAction::Step => {
            ops.push(FrameOp::Step);
        },
        FrameAction::Relayout => {
            ops.push(FrameOp::Refresh);
            ops.push(FrameOp::RefreshEvent);
            ops.push(FrameOp::Step);
            ops.push(FrameOp::Refresh);
            ops.push(FrameOp::RefreshEvent);
        },
    }
    assert(ops@ =~= frame_ops_of(a));
    ops
}

/// The runner operations before the first iteration: one refresh and one
/// refresh event.
pub fn start_ops() -> (r: Vec<FrameOp>)
    ensures
        r@ == start_ops_of(),
{
    let mut ops: Vec<FrameOp> = Vec::new();
    ops.push(FrameOp::Refresh);
    ops.push(FrameOp::RefreshEvent);
    assert(ops@ =~= start_ops_of());
    ops
}

/// Once the exit signal is raised, the next iteration leaves the loop and
/// runs no further frame.
pub proof fn lemma_exit_signal_stops_loop(running: bool, relayout_requested: bool, refresh_requested: bool)
    ensures
        frame_action(running, true, relayout_requested, refresh_requested) == FrameAction::Exit,
        frame_ops_of(frame_action(running, true, relayout_requested, refresh_requested)).len() == 0,
{
}

} // verus!
