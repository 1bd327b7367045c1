//! Session bookkeeping: handles, the decisions of the input pump (client to
//! terminal) and of the output pump (terminal to client), and the lifecycle
//! of one session.
use vstd::prelude::*;

use crate::backend::{size_after_poll, CursiveOutput, OutputModel};
use crate::handler::resize_update;
use crate::event::Vec2;
use crate::SessionHandle;

verus! {

/// Capacity of the queue from the render backend to the SSH side.
pub const OUTPUT_QUEUE_CAPACITY: usize = 100000;

/// Capacity of the queue from a connection handler to its session.
pub const SESSION_UPDATE_QUEUE_CAPACITY: usize = 100;

/// Capacity of the queue of screen sizes to the render backend.
pub const RESIZE_QUEUE_CAPACITY: usize = 100;

/// Capacity of the queue of redraw requests to the event loop.
pub const RELAYOUT_QUEUE_CAPACITY: usize = 100;

/// Capacity of the redraw-request queue handed to the application.
pub const FORCE_REFRESH_QUEUE_CAPACITY: usize = 10;

/// What the connection handler posts to the session of its channel.
#[derive(Debug, Clone, PartialEq, Eq, Hash)]
pub enum SshSessionUpdate {
    /// Bytes the client typed or pasted.
    Data(Vec<u8>),
    /// The client's terminal is `cols` columns by `rows` rows.
    WindowResize(usize, usize),
    /// The channel was closed.
    Close,
}

/// What an [`SshSessionUpdate`] denotes.
pub enum UpdateModel {
    Data(Seq<u8>),
    WindowResize(usize, usize),
    Close,
}

impl View for SshSessionUpdate {
    type V = UpdateModel;

    open spec fn view(&self) -> UpdateModel {
        match self {
            SshSessionUpdate::Data(d) => UpdateModel::Data(d@),
            SshSessionUpdate::WindowResize(w, h) => UpdateModel::WindowResize(*w, *h),
            SshSessionUpdate::Close => UpdateModel::Close,
        }
    }
}

/// Where a session stands.
#[derive(Clone, Copy, Debug, PartialEq, Eq, Structural, Hash)]
pub enum SessionPhase {
    /// The channel is open; no terminal size has come yet, so no event loop runs.
    AwaitingPty,
    /// The event loop runs.
    Running,
    /// The channel closed and the session's resources are released.
    Released,
}

/// What the input pump does with one update.
#[derive(Debug, Clone, PartialEq, Eq, Hash)]
pub enum InputAction {
    /// Nothing.
    Ignore,
    /// Write the bytes to the terminal side of the session and flush.
    WritePty(Vec<u8>),
    /// First terminal size: start the event loop, then hand it the size.
    StartLoop(Vec2),
    /// Hand the running event loop a new terminal size.
    Resize(Vec2),
    /// The channel closed: raise the exit signal, stop the output pump, join
    /// the event loop if one was started, and release the resources.
    Shutdown { loop_started: bool },
}

/// What an [`InputAction`] denotes.
pub enum InputModel {
    Ignore,
    WritePty(Seq<u8>),
    StartLoop(Vec2),
    Resize(Vec2),
    Shutdown { loop_started: bool },
}

impl View for InputAction {
    type V = InputModel;

    open spec fn view(&self) -> InputModel {
        match self {
            InputAction::Ignore => InputModel::Ignore,
            InputAction::WritePty(d) => InputModel::WritePty(d@),
            InputAction::StartLoop(s) => InputModel::StartLoop(*s),
            InputAction::Resize(s) => InputModel::Resize(*s),
            InputAction::Shutdown { loop_started } => InputModel::Shutdown { loop_started: *loop_started },
        }
    }
}

/// One step of the input pump: the next phase and the action.
pub open spec fn input_step(phase: SessionPhase, u: UpdateModel) -> (SessionPhase, InputModel) {
    if phase == SessionPhase::Released {
        (phase, InputModel::Ignore)
    } else {
        match u {
            UpdateModel::Data(b) => (phase, if b.len() == 0 {
                InputModel::Ignore
            } else {
                InputModel::WritePty(b)
            }),
            UpdateModel::WindowResize(w, h) => if phase == SessionPhase::AwaitingPty {
                (SessionPhase::Running, InputModel::StartLoop(Vec2 { x: w, y: h }))
            } else {
                (phase, InputModel::Resize(Vec2 { x: w, y: h }))
            },
            UpdateModel::Close => (
                SessionPhase::Released,
                InputModel::Shutdown { loop_started: phase == SessionPhase::Running },
            ),
        }
    }
}

/// The actions of the input pump over a stream of updates; it stops after the
/// session is released.
pub open spec fn input_run(phase: SessionPhase, us: Seq<UpdateModel>) -> Seq<InputModel>
    decreases us.len(),
{
    if us.len() == 0 || phase == SessionPhase::Released {
        Seq::empty()
    } else {
        seq![input_step(phase, us[0]).1] + input_run(input_step(phase, us[0]).0, us.drop_first())
    }
}

/// The state of one session.
pub struct SessionState {
    pub handle: SessionHandle,
    pub phase: SessionPhase,
}

impl SessionState {
    /// A session whose channel just opened.
    pub fn new(handle: SessionHandle) -> (r: SessionState)
        ensures
            r.handle == handle,
            r.phase == SessionPhase::AwaitingPty,
    {
        SessionState { handle, phase: SessionPhase::AwaitingPty }
    }

    /// Decides what the input pump does with one update.
    pub fn input(&mut self, update: SshSessionUpdate) -> (r: InputAction)
        requires
            old(self).phase != SessionPhase::Released,
        ensures
            (final(self).phase, r@) == input_step(old(self).phase, update@),
            final(self).handle == old(self).handle,
    {
        match update {
            SshSessionUpdate::Data(d) => {
                if d.len() == 0 {
                    InputAction::Ignore
                } else {
                    InputAction::WritePty(d)
                }
            },
            SshSessionUpdate::WindowResize(w, h) => {
                if self.phase == SessionPhase::AwaitingPty {
                    self.phase = SessionPhase::Running;
                    InputAction::StartLoop(Vec2 { x: w, y: h })
                } else {
                    InputAction::Resize(Vec2 { x: w, y: h })
                }
            },
            SshSessionUpdate::Close => {
                let loop_started = self.phase == SessionPhase::Running;
                self.phase = SessionPhase::Released;
                InputAction::Shutdown { loop_started }
            },
        }
    }
}

/// What the output pump does with one item of the render output.
#[derive(Debug, Clone, PartialEq, Eq, Hash)]
pub enum OutputAction {
    /// Nothing.
    Ignore,
    /// Send the bytes as one data frame on the channel.
    Send(Vec<u8>),
    /// Close the channel and stop.
    CloseChannel,
}

/// What an [`OutputAction`] denotes.
pub enum OutputActionModel {
    Ignore,
    Send(Seq<u8>),
    CloseChannel,
}

impl View for OutputAction {
    type V = OutputActionModel;

    open spec fn view(&self) -> OutputActionModel {
        match self {
            OutputAction::Ignore => OutputActionModel::Ignore,
            OutputAction::Send(d) => OutputActionModel::Send(d@),
            OutputAction::CloseChannel => OutputActionModel::CloseChannel,
        }
    }
}

pub open spec fn output_step(o: OutputModel) -> OutputActionModel {
    match o {
        OutputModel::Data(b) => if b.len() == 0 {
            OutputActionModel::Ignore
        } else {
            OutputActionModel::Send(b)
        },
        OutputModel::Close => OutputActionModel::CloseChannel,
    }
}

/// The actions of the output pump over a stream of render output; it stops
/// after closing the channel.
pub open spec fn output_run(outs: Seq<OutputModel>) -> Seq<OutputActionModel>
    decreases outs.len(),
{
    if outs.len() == 0 {
        Seq::empty()
    } else if outs[0] is Close {
        seq![OutputActionModel::CloseChannel]
    } else {
        seq![output_step(outs[0])] + output_run(outs.drop_first())
    }
}

/// Decides what the output pump does with one item of render output.
pub fn route_output(output: CursiveOutput) -> (r: OutputAction)
    ensures
        r@ == output_step(output@),
{
    match output {
        CursiveOutput::Data(d) => {
            if d.len() == 0 {
                OutputAction::Ignore
            } else {
                OutputAction::Send(d)
            }
        },
        CursiveOutput::Close => OutputAction::CloseChannel,
    }
}

/// Why a session could not be set up.
#[derive(Clone, Copy, Debug, PartialEq, Eq, Structural, Hash)]
pub enum SessionError {
    /// Every handle value has been handed out.
    HandlesExhausted,
}

/// Hands out session handles, in strictly increasing order from 1.
pub struct SessionManager {
    next_handle: u64,
}

/// `after` is `before` once it has handed out `h`.
pub open spec fn minted(before: u64, after: u64, h: SessionHandle) -> bool {
    h.0 == before && after == before + 1
}

impl View for SessionManager {
    type V = u64;

    /// The next handle to be handed out.
    closed spec fn view(&self) -> u64 {
        self.next_handle
    }
}

impl SessionManager {
    pub fn new() -> (r: SessionManager)
        ensures
            r@ == 1,
    {
        SessionManager { next_handle: 1 }
    }

    /// Hands out the next handle for a newly opened channel.
    pub fn mint(&mut self) -> (r: Result<SessionHandle, SessionError>)
        ensures
            old(self)@ < u64::MAX <==> r.is_ok(),
            r.is_ok() ==> minted(old(self)@, final(self)@, r.unwrap()),
            r.is_err() ==> final(self)@ == old(self)@ && r == Err::<SessionHandle, SessionError>(
                SessionError::HandlesExhausted,
            ),
    {
        if self.next_handle == u64::MAX {
            Err(SessionError::HandlesExhausted)
        } else {
            let h = SessionHandle(self.next_handle);
            self.next_handle = self.next_handle + 1;
            Ok(h)
        }
    }

    /// Accepts a newly opened channel: a fresh handle and a session awaiting
    /// its terminal size.
    pub fn open_session(&mut self) -> (r: Result<SessionState, SessionError>)
        ensures
            old(self)@ < u64::MAX <==> r.is_ok(),
            r.is_ok() ==> minted(old(self)@, final(self)@, r.unwrap().handle) && r.unwrap().phase
                == SessionPhase::AwaitingPty,
            r.is_err() ==> final(self)@ == old(self)@,
    {
        match self.mint() {
            Ok(h) => Ok(SessionState::new(h)),
            Err(e) => Err(e),
        }
    }
}

} // verus!

verus! {

/// Whether a stream of updates holds a close.
pub open spec fn closes(us: Seq<UpdateModel>) -> bool
    decreases us.len(),
{
    us.len() > 0 && (us[0] is Close || closes(us.drop_first()))
}

/// Whether a terminal size comes before the first close.
pub open spec fn sized_before_close(us: Seq<UpdateModel>) -> bool
    decreases us.len(),
{
    us.len() > 0 && !(us[0] is Close) && (us[0] is WindowResize || sized_before_close(
        us.drop_first(),
    ))
}

/// The bytes of the data updates before the first close, in order.
pub open spec fn typed_bytes(us: Seq<UpdateModel>) -> Seq<u8>
    decreases us.len(),
{
    if us.len() == 0 {
        Seq::empty()
    } else {
        match us[0] {
            UpdateModel::Close => Seq::empty(),
            UpdateModel::Data(b) => b + typed_bytes(us.drop_first()),
            UpdateModel::WindowResize(_, _) => typed_bytes(us.drop_first()),
        }
    }
}

/// How many times the actions start an event loop.
pub open spec fn loop_starts(acts: Seq<InputModel>) -> nat
    decreases acts.len(),
{
    if acts.len() == 0 {
        0
    } else {
        (if acts[0] is StartLoop {
            1nat
        } else {
            0nat
        }) + loop_starts(acts.drop_first())
    }
}

/// How many times the actions release the session.
pub open spec fn shutdowns(acts: Seq<InputModel>) -> nat
    decreases acts.len(),
{
    if acts.len() == 0 {
        0
    } else {
        (if acts[0] is Shutdown {
            1nat
        } else {
            0nat
        }) + shutdowns(acts.drop_first())
    }
}

/// The bytes the actions write to the terminal side, in order.
pub open spec fn pty_bytes(acts: Seq<InputModel>) -> Seq<u8>
    decreases acts.len(),
{
    if acts.len() == 0 {
        Seq::empty()
    } else {
        (match acts[0] {
            InputModel::WritePty(b) => b,
            _ => Seq::empty(),
        }) + pty_bytes(acts.drop_first())
    }
}

/// The terminal size an action hands the event loop, if any.
pub open spec fn forwarded_size(a: InputModel) -> Option<Vec2> {
    match a {
        InputModel::StartLoop(s) => Some(s),
        InputModel::Resize(s) => Some(s),
        _ => None,
    }
}

proof fn lemma_run_running(us: Seq<UpdateModel>)
    ensures
        loop_starts(input_run(SessionPhase::Running, us)) == 0,
        shutdowns(input_run(SessionPhase::Running, us)) == if closes(us) {
            1nat
        } else {
            0nat
        },
        closes(us) ==> input_run(SessionPhase::Running, us).len() > 0 && input_run(
            SessionPhase::Running,
            us,
        ).last() == (InputModel::Shutdown { loop_started: true }),
        pty_bytes(input_run(SessionPhase::Running, us)) == typed_bytes(us),
    decreases us.len(),
{
    if us.len() > 0 {
        let p = input_step(SessionPhase::Running, us[0]).0;
        let a = input_step(SessionPhase::Running, us[0]).1;
        let rest = us.drop_first();
        let acts = input_run(SessionPhase::Running, us);
        let tail = input_run(p, rest);
        assert(acts == seq![a] + tail);
        assert(acts[0] == a);
        assert(acts.drop_first() =~= tail);
        assert(loop_starts(Seq::<InputModel>::empty()) == 0);
        assert(shutdowns(Seq::<InputModel>::empty()) == 0);
        if us[0] is Close {
            assert(tail == Seq::<InputModel>::empty());
            assert(pty_bytes(tail) == Seq::<u8>::empty());
            assert(pty_bytes(acts) =~= typed_bytes(us));
        } else {
            lemma_run_running(rest);
            if closes(us) {
                assert(acts.last() == tail.last());
            }
            match us[0] {
                UpdateModel::Data(b) => {
                    if b.len() == 0 {
                        assert(b =~= Seq::<u8>::empty());
                    }
                    assert(pty_bytes(acts) =~= typed_bytes(us));
                },
                _ => {
                    assert(pty_bytes(acts) =~= typed_bytes(us));
                },
            }
        }
    }
}

proof fn lemma_run_awaiting(us: Seq<UpdateModel>)
    ensures
        loop_starts(input_run(SessionPhase::AwaitingPty, us)) == if sized_before_close(us) {
            1nat
        } else {
            0nat
        },
        shutdowns(input_run(SessionPhase::AwaitingPty, us)) == if closes(us) {
            1nat
        } else {
            0nat
        },
        closes(us) ==> input_run(SessionPhase::AwaitingPty, us).len() > 0 && input_run(
            SessionPhase::AwaitingPty,
            us,
        ).last() == (InputModel::Shutdown { loop_started: sized_before_close(us) }),
        pty_bytes(input_run(SessionPhase::AwaitingPty, us)) == typed_bytes(us),
    decreases us.len(),
{
    if us.len() > 0 {
        let p = input_step(SessionPhase::AwaitingPty, us[0]).0;
        let a = input_step(SessionPhase::AwaitingPty, us[0]).1;
        let rest = us.drop_first();
        let acts = input_run(SessionPhase::AwaitingPty, us);
        let tail = input_run(p, rest);
        assert(acts == seq![a] + tail);
        assert(acts[0] == a);
        assert(acts.drop_first() =~= tail);
        assert(loop_starts(Seq::<InputModel>::empty()) == 0);
        assert(shutdowns(Seq::<InputModel>::empty()) == 0);
        match us[0] {
            UpdateModel::Close => {
                assert(tail == Seq::<InputModel>::empty());
                assert(pty_bytes(tail) == Seq::<u8>::empty());
                assert(pty_bytes(acts) =~= typed_bytes(us));
            },
            UpdateModel::WindowResize(_, _) => {
                lemma_run_running(rest);
                if closes(us) {
                    assert(acts.last() == tail.last());
                }
                assert(pty_bytes(acts) =~= typed_bytes(us));
            },
            UpdateModel::Data(b) => {
                lemma_run_awaiting(rest);
                if closes(us) {
                    assert(acts.last() == tail.last());
                }
                if b.len() == 0 {
                    assert(b =~= Seq::<u8>::empty());
                }
                assert(pty_bytes(acts) =~= typed_bytes(us));
            },
        }
    }
}

proof fn lemma_unsized(us: Seq<UpdateModel>)
    requires
        forall|i: int| 0 <= i < us.len() ==> !(#[trigger] us[i] is WindowResize),
    ensures
        !sized_before_close(us),
    decreases us.len(),
{
    if us.len() > 0 {
        assert(!(us[0] is WindowResize));
        let rest = us.drop_first();
        assert forall|i: int| 0 <= i < rest.len() implies !(#[trigger] rest[i] is WindowResize) by {
            assert(rest[i] == us[i + 1]);
        }
        lemma_unsized(rest);
    }
}

/// Every session enters its event loop at most once, and exactly once when a
/// terminal size comes before the channel closes; a session whose channel
/// closes is released exactly once, by the last action of its input pump,
/// which joins the event loop exactly when one was started.
pub proof fn lemma_one_loop_one_release(us: Seq<UpdateModel>)
    ensures
        loop_starts(input_run(SessionPhase::AwaitingPty, us)) == if sized_before_close(us) {
            1nat
        } else {
            0nat
        },
        shutdowns(input_run(SessionPhase::AwaitingPty, us)) == if closes(us) {
            1nat
        } else {
            0nat
        },
        closes(us) ==> input_run(SessionPhase::AwaitingPty, us).last() == (InputModel::Shutdown {
            loop_started: sized_before_close(us),
        }),
{
    lemma_run_awaiting(us);
}

/// A client that never sends a terminal size never gets an event loop.
pub proof fn lemma_no_pty_no_loop(us: Seq<UpdateModel>)
    requires
        forall|i: int| 0 <= i < us.len() ==> !(#[trigger] us[i] is WindowResize),
    ensures
        loop_starts(input_run(SessionPhase::AwaitingPty, us)) == 0,
{
    lemma_unsized(us);
    lemma_run_awaiting(us);
}

/// The bytes the client sends reach the terminal side in the order sent,
/// each once, up to the close.
pub proof fn lemma_input_in_order(us: Seq<UpdateModel>)
    ensures
        pty_bytes(input_run(SessionPhase::AwaitingPty, us)) == typed_bytes(us),
{
    lemma_run_awaiting(us);
}

/// Empty data is a no-op in both directions.
pub proof fn lemma_empty_data_is_no_op(p: SessionPhase)
    ensures
        input_step(p, UpdateModel::Data(Seq::empty())) == (p, InputModel::Ignore),
        output_step(OutputModel::Data(Seq::empty())) == OutputActionModel::Ignore,
{
}

/// Handle values never repeat: a handle handed out before another, by a
/// manager whose next value never goes back, is smaller.
pub proof fn lemma_handles_never_repeat(
    a0: u64,
    a1: u64,
    h1: SessionHandle,
    b0: u64,
    b1: u64,
    h2: SessionHandle,
)
    requires
        minted(a0, a1, h1),
        a1 <= b0,
        minted(b0, b1, h2),
    ensures
        h1.0 < h2.0,
        h1 != h2,
{
}

/// A terminal size from the client is the screen size the backend reports
/// after its next poll.
pub proof fn lemma_resize_reaches_screen(p: SessionPhase, cols: u32, rows: u32, size: Vec2)
    requires
        p != SessionPhase::Released,
    ensures
        forwarded_size(input_step(p, resize_update(cols, rows)).1) == Some(
            Vec2 { x: cols as usize, y: rows as usize },
        ),
        size_after_poll(size, forwarded_size(input_step(p, resize_update(cols, rows)).1)) == (Vec2 {
            x: cols as usize,
            y: rows as usize,
        }),
{
}

/// Whether a stream of render output holds a close.
pub open spec fn closes_output(outs: Seq<OutputModel>) -> bool
    decreases outs.len(),
{
    outs.len() > 0 && (outs[0] is Close || closes_output(outs.drop_first()))
}

/// The bytes of the render output before the first close, in order.
pub open spec fn rendered_bytes(outs: Seq<OutputModel>) -> Seq<u8>
    decreases outs.len(),
{
    if outs.len() == 0 {
        Seq::empty()
    } else {
        match outs[0] {
            OutputModel::Close => Seq::empty(),
            OutputModel::Data(b) => b + rendered_bytes(outs.drop_first()),
        }
    }
}

/// The bytes the output pump sends on the channel, in order.
pub open spec fn sent_bytes(acts: Seq<OutputActionModel>) -> Seq<u8>
    decreases acts.len(),
{
    if acts.len() == 0 {
        Seq::empty()
    } else {
        (match acts[0] {
            OutputActionModel::Send(b) => b,
            _ => Seq::empty(),
        }) + sent_bytes(acts.drop_first())
    }
}

/// How many times the output pump closes the channel.
pub open spec fn channel_closes(acts: Seq<OutputActionModel>) -> nat
    decreases acts.len(),
{
    if acts.len() == 0 {
        0
    } else {
        (if acts[0] is CloseChannel {
            1nat
        } else {
            0nat
        }) + channel_closes(acts.drop_first())
    }
}

/// Render output reaches the channel in the order produced, each byte once,
/// before the close; the channel is closed once when the output holds a
/// close, and nothing is sent after it.
pub proof fn lemma_output_in_order(outs: Seq<OutputModel>)
    ensures
        sent_bytes(output_run(outs)) == rendered_bytes(outs),
        channel_closes(output_run(outs)) == if closes_output(outs) {
            1nat
        } else {
            0nat
        },
        closes_output(outs) ==> output_run(outs).len() > 0 && output_run(outs).last()
            == OutputActionModel::CloseChannel,
    decreases outs.len(),
{
    if outs.len() > 0 {
        let acts = output_run(outs);
        let rest = outs.drop_first();
        match outs[0] {
            OutputModel::Close => {
                assert(acts.drop_first() =~= Seq::<OutputActionModel>::empty());
                assert(channel_closes(Seq::<OutputActionModel>::empty()) == 0);
                assert(sent_bytes(Seq::<OutputActionModel>::empty()) == Seq::<u8>::empty());
                assert(sent_bytes(acts) =~= rendered_bytes(outs));
            },
            OutputModel::Data(b) => {
                lemma_output_in_order(rest);
                let tail = output_run(rest);
                assert(acts == seq![output_step(outs[0])] + tail);
                assert(acts[0] == output_step(outs[0]));
                assert(acts.drop_first() =~= tail);
                if closes_output(outs) {
                    assert(acts.last() == tail.last());
                }
                if b.len() == 0 {
                    assert(b =~= Seq::<u8>::empty());
                }
                assert(sent_bytes(acts) =~= rendered_bytes(outs));
            },
        }
    }
}

} // verus!
