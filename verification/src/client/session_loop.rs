//! Decisions of the client's session loop.
//!
//! The loop waits on several sources at once (user commands, a cursor timer,
//! the host's media pipeline, the relay connection). Each thing that happens is
//! an event handed to [`SessionLoop::step`], which updates the loop's state and
//! answers with the actions to perform, in order. Performing an action may
//! produce a new event (a polled cursor, a failed send, a failed start).

use vstd::prelude::*;
use vstd::string::*;

use crate::client::commands::{is_control, is_control_message};
use crate::client::handshake::{input_failure_text, map_input_error};
use crate::client::state::{
    apply_signal, host_should_stream, peer_connected, peer_present, signal_outcome,
    streams_as_host, SessionState, SessionStateModel,
};
use crate::cursor::tracker::{
    after_remote, local_outcome, pose_plan_at, CursorSync, CursorSyncModel, PosePlan,
};
use crate::input::error::InputError;
use crate::protocol::ids::CursorId;
use crate::protocol::messages::{Message, Role, VideoCodec};
use crate::text::owned;
use crate::transport::{transport_describes, TransportError};

verus! {

/// Something that happened while the session runs.
pub enum LoopEvent {
    /// The user left, or the command channel closed.
    Leave,
    /// The user interface sends a control message.
    Control(Message),
    /// The local cursor moved (`f32` bit patterns of the normalized position).
    LocalCursor { x: u32, y: u32, now_ms: u64 },
    /// The cursor timer ticked; `poll_due` says whether the last poll of the
    /// host's cursor is at least 50 ms old.
    Tick { now_ms: u64, poll_due: bool },
    /// The host's cursor was polled: its normalized position (`f32` bits), or
    /// `None` when the poll failed.
    HostCursor { pos: Option<(u32, u32)>, now_ms: u64 },
    /// The capture pipeline produced a video message.
    MediaFrame(Message),
    /// The capture pipeline failed for good, with the text to show.
    MediaFatal(String),
    /// Sending a video message failed.
    VideoSendFailed(TransportError),
    /// A message arrived from the relay.
    Incoming { message: Message, now_ms: u64 },
    /// Receiving from the relay failed.
    RecvFailed(TransportError),
    /// Injecting a control message failed.
    InjectFailed(InputError),
    /// Starting the host's injector failed, with the text to show.
    MediaStartFailed(String),
}

/// Something the session loop does.
pub enum LoopAction {
    /// Send the message to the relay; a failure is only logged.
    Send(Message),
    /// Send the video message to the relay; a failure is reported as
    /// [`LoopEvent::VideoSendFailed`].
    SendVideo(Message),
    /// Close the connection.
    Close,
    /// Show this state to the user.
    Emit(SessionState),
    /// Show the remote cursor, whose pose follows the plan.
    ShowRemoteCursor(CursorId, PosePlan),
    /// Poll the host's cursor and report [`LoopEvent::HostCursor`].
    PollHostCursor,
    /// Decode an H264 frame and show it.
    Decode { frame_id: u64, timestamp_ms: u64, data: Vec<u8> },
    /// Inject the control message; a failure is reported as
    /// [`LoopEvent::InjectFailed`].
    Inject(Message),
    /// Start the injector (a failure is reported as
    /// [`LoopEvent::MediaStartFailed`]), then restart the screen capture.
    StartMedia,
    /// Stop the screen capture and the injector.
    StopMedia,
    /// Stop the screen capture.
    StopCapture,
    /// End the loop, releasing capture, decoder and injector.
    Finish,
}

/// [`LoopAction`] with the shown state by its view.
pub enum ActionModel {
    Send(Message),
    SendVideo(Message),
    Close,
    Emit(SessionStateModel),
    ShowRemoteCursor(CursorId, PosePlan),
    PollHostCursor,
    Decode { frame_id: u64, timestamp_ms: u64, data: Seq<u8> },
    Inject(Message),
    StartMedia,
    StopMedia,
    StopCapture,
    Finish,
}

impl View for LoopAction {
    type V = ActionModel;

    open spec fn view(&self) -> ActionModel {
        match self {
            LoopAction::Send(m) => ActionModel::Send(*m),
            LoopAction::SendVideo(m) => ActionModel::SendVideo(*m),
            LoopAction::Close => ActionModel::Close,
            LoopAction::Emit(s) => ActionModel::Emit(s@),
            LoopAction::ShowRemoteCursor(id, p) => ActionModel::ShowRemoteCursor(*id, *p),
            LoopAction::PollHostCursor => ActionModel::PollHostCursor,
            LoopAction::Decode { frame_id, timestamp_ms, data } => ActionModel::Decode {
                frame_id: *frame_id,
                timestamp_ms: *timestamp_ms,
                data: data@,
            },
            LoopAction::Inject(m) => ActionModel::Inject(*m),
            LoopAction::StartMedia => ActionModel::StartMedia,
            LoopAction::StopMedia => ActionModel::StopMedia,
            LoopAction::StopCapture => ActionModel::StopCapture,
            LoopAction::Finish => ActionModel::Finish,
        }
    }
}

/// The views of a list of actions.
pub open spec fn actions_view(a: Seq<LoopAction>) -> Seq<ActionModel> {
    a.map_values(|x: LoopAction| x@)
}

/// State of the session loop.
pub struct SessionLoop {
    role: Role,
    state: SessionState,
    cursor: CursorSync,
}

/// Abstract state of the session loop.
pub struct LoopModel {
    /// Local role.
    pub role: Role,
    /// State last shown to the user.
    pub state: SessionStateModel,
    /// Cursor synchronizer.
    pub cursor: CursorSyncModel,
}

impl View for SessionLoop {
    type V = LoopModel;

    closed spec fn view(&self) -> LoopModel {
        LoopModel { role: self.role, state: self.state@, cursor: self.cursor@ }
    }
}

/// Stop the capture, show an error with this text, and end the loop.
pub open spec fn fail_with(text: Seq<char>) -> Seq<ActionModel> {
    seq![
        ActionModel::StopCapture,
        ActionModel::Emit(SessionStateModel::Error { message: text }),
        ActionModel::Finish,
    ]
}

/// Show the remote cursor at `now`, if one is known.
pub open spec fn show_pose(c: CursorSyncModel, now: u64) -> Seq<ActionModel> {
    match pose_plan_at(c, now) {
        Some((id, plan)) => seq![ActionModel::ShowRemoteCursor(id, plan)],
        None => Seq::empty(),
    }
}

/// Send the message, if there is one.
pub open spec fn send_opt(m: Option<Message>) -> Seq<ActionModel> {
    match m {
        Some(msg) => seq![ActionModel::Send(msg)],
        None => Seq::empty(),
    }
}

/// Prefix of the error after a failed video send.
pub open spec fn video_send_prefix() -> Seq<char> {
    "envoi vidéo: "@
}

/// Prefix of the error after the connection is lost.
pub open spec fn lost_prefix() -> Seq<char> {
    "connexion perdue: "@
}

/// The error text after a transport failure, made of `prefix` and the
/// description of the failure.
pub open spec fn failure_text(prefix: Seq<char>, e: TransportError, t: Seq<char>) -> bool {
    prefix.is_prefix_of(t) && transport_describes(e, t.skip(prefix.len() as int))
}

/// The actions at the start of the loop: a host whose peer is already there
/// starts its media at once.
pub open spec fn start_actions(m: LoopModel) -> Seq<ActionModel> {
    if m.role == Role::Host && streams_as_host(m.state) {
        seq![ActionModel::StartMedia]
    } else {
        Seq::empty()
    }
}

/// What a signaling message does: the new state is shown when it differs,
/// and a host starts its media when it starts streaming, stops it when it
/// stops.
pub open spec fn signal_actions(m: LoopModel, msg: Message) -> Seq<ActionModel> {
    let next = signal_outcome(m.state, msg);
    let shown = if next != m.state {
        seq![ActionModel::Emit(next)]
    } else {
        Seq::empty()
    };
    let was = streams_as_host(m.state);
    let now = streams_as_host(next);
    let media = if m.role == Role::Host && !was && now {
        seq![ActionModel::StartMedia]
    } else if m.role == Role::Host && was && !now {
        seq![ActionModel::StopMedia]
    } else {
        Seq::empty()
    };
    shown + media
}

/// How the loop handles a message from the relay, apart from its effect on
/// the state: a guest decodes H264 frames (other video is dropped), a host
/// injects control input, a `CursorMove` updates and shows the remote cursor,
/// anything else is signaling.
pub open spec fn incoming_actions(m: LoopModel, msg: Message, now: u64) -> Seq<ActionModel> {
    match msg {
        Message::VideoFrame { frame_id, timestamp_ms, codec, data, .. } => if m.role == Role::Guest
            && codec == VideoCodec::H264 {
            seq![ActionModel::Decode { frame_id, timestamp_ms, data: data@ }]
        } else {
            Seq::empty()
        },
        _ => if m.role == Role::Host && is_control(msg) {
            seq![ActionModel::Inject(msg)]
        } else if msg is CursorMove {
            show_pose(after_remote(m.cursor, msg), now)
        } else {
            signal_actions(m, msg)
        },
    }
}

/// The state after a message from the relay.
pub open spec fn incoming_model(m: LoopModel, msg: Message) -> LoopModel {
    if msg is VideoFrame || (m.role == Role::Host && is_control(msg)) {
        m
    } else if msg is CursorMove {
        LoopModel { cursor: after_remote(m.cursor, msg), ..m }
    } else {
        LoopModel { state: signal_outcome(m.state, msg), ..m }
    }
}

/// Every step, except those whose actions depend on a text that is built
/// from a transport failure (see [`SessionLoop::step`]): the next state and
/// the actions.
pub open spec fn loop_step(m: LoopModel, e: LoopEvent) -> (LoopModel, Seq<ActionModel>) {
    match e {
        LoopEvent::Leave => (
            m,
            seq![
                ActionModel::StopCapture,
                ActionModel::Send(Message::LeaveSession),
                ActionModel::Close,
                ActionModel::Emit(SessionStateModel::Idle),
                ActionModel::Finish,
            ],
        ),
        LoopEvent::Control(msg) => (
            m,
            if m.role == Role::Guest && is_control(msg) {
                seq![ActionModel::Send(msg)]
            } else {
                Seq::empty()
            },
        ),
        LoopEvent::LocalCursor { x, y, now_ms } => if m.role == Role::Guest && peer_present(
            m.state,
        ) {
            let (c, sent) = local_outcome(m.cursor, x, y, now_ms);
            (LoopModel { cursor: c, ..m }, send_opt(sent))
        } else {
            (m, Seq::empty())
        },
        LoopEvent::Tick { now_ms, poll_due } => (
            m,
            if m.role == Role::Host && peer_present(m.state) && poll_due {
                seq![ActionModel::PollHostCursor]
            } else {
                show_pose(m.cursor, now_ms)
            },
        ),
        LoopEvent::HostCursor { pos, now_ms } => match pos {
            Some((x, y)) => {
                let (c, sent) = local_outcome(m.cursor, x, y, now_ms);
                (LoopModel { cursor: c, ..m }, send_opt(sent) + show_pose(c, now_ms))
            },
            None => (m, show_pose(m.cursor, now_ms)),
        },
        LoopEvent::MediaFrame(msg) => (
            m,
            if m.role == Role::Host {
                seq![ActionModel::SendVideo(msg)]
            } else {
                Seq::empty()
            },
        ),
        LoopEvent::MediaFatal(text) => (
            m,
            if m.role == Role::Host {
                fail_with(text@)
            } else {
                Seq::empty()
            },
        ),
        LoopEvent::Incoming { message, now_ms } => (
            incoming_model(m, message),
            incoming_actions(m, message, now_ms),
        ),
        LoopEvent::InjectFailed(err) => (
            m,
            if err is PermissionDenied {
                fail_with(input_failure_text(err))
            } else {
                Seq::empty()
            },
        ),
        LoopEvent::MediaStartFailed(text) => (m, fail_with(text@)),
        LoopEvent::VideoSendFailed(_) | LoopEvent::RecvFailed(_) => (m, Seq::empty()),
    }
}

/// The actions end the loop with an error whose text is `prefix` and the
/// description of `e`.
pub open spec fn fails_after_transport(a: Seq<ActionModel>, prefix: Seq<char>, e: TransportError) -> bool {
    &&& a.len() == 3
    &&& a[0] == ActionModel::StopCapture
    &&& a[1] matches ActionModel::Emit(SessionStateModel::Error { message }) && failure_text(
        prefix,
        e,
        message,
    )
    &&& a[2] == ActionModel::Finish
}

/// Appends the view-preserving push of one action.
fn push_action(v: &mut Vec<LoopAction>, a: LoopAction)
    ensures
        actions_view(final(v)@) == actions_view(old(v)@).push(a@),
{
    let ghost before = v@;
    v.push(a);
    proof {
        assert(actions_view(v@) =~= actions_view(before).push(a@));
    }
}

/// Stop the capture, show the error, end the loop.
fn fail_actions(text: String) -> (r: Vec<LoopAction>)
    ensures
        actions_view(r@) == fail_with(text@),
{
    let mut v: Vec<LoopAction> = Vec::new();
    proof {
        assert(actions_view(v@) =~= Seq::<ActionModel>::empty());
    }
    push_action(&mut v, LoopAction::StopCapture);
    push_action(&mut v, LoopAction::Emit(SessionState::Error { message: text }));
    push_action(&mut v, LoopAction::Finish);
    proof {
        assert(actions_view(v@) =~= fail_with(text@));
    }
    v
}

/// The error text `prefix` followed by the description of `e`.
fn transport_failure(prefix: &str, e: &TransportError) -> (r: String)
    ensures
        failure_text(prefix@, *e, r@),
{
    let head = owned(prefix);
    let d = e.to_string();
    let r = head.concat(d.as_str());
    assert(prefix@.is_prefix_of(r@) && r@.skip(prefix@.len() as int) =~= d@) by {
        assert(r@.subrange(0, head@.len() as int) =~= head@);
    }
    r
}

impl SessionLoop {
    /// A loop for `role`, showing `initial`, with a cursor synchronizer.
    pub fn new(role: Role, initial: SessionState, cursor: CursorSync) -> (r: Self)
        ensures
            r@ == (LoopModel { role, state: initial@, cursor: cursor@ }),
    {
        SessionLoop { role, state: initial, cursor }
    }

    /// The state last shown to the user.
    pub fn state(&self) -> (r: &SessionState)
        ensures
            r@ == self@.state,
    {
        &self.state
    }

    /// The actions when the loop starts.
    pub fn start(&self) -> (r: Vec<LoopAction>)
        ensures
            actions_view(r@) == start_actions(self@),
    {
        let mut v: Vec<LoopAction> = Vec::new();
        proof {
            assert(actions_view(v@) =~= Seq::<ActionModel>::empty());
        }
        if self.role == Role::Host && host_should_stream(&self.state) {
            push_action(&mut v, LoopAction::StartMedia);
            proof {
                assert(actions_view(v@) =~= seq![ActionModel::StartMedia]);
            }
        }
        v
    }

    /// Shows the remote cursor at `now`, if one is known.
    fn push_pose(&self, v: &mut Vec<LoopAction>, now_ms: u64)
        ensures
            actions_view(final(v)@) == actions_view(old(v)@) + show_pose(self@.cursor, now_ms),
    {
        let ghost before = actions_view(v@);
        match self.cursor.remote_pose_plan(now_ms) {
            Some((id, plan)) => {
                push_action(v, LoopAction::ShowRemoteCursor(id, plan));
                proof {
                    assert(actions_view(v@) =~= before + show_pose(self@.cursor, now_ms));
                }
            },
            None => {
                proof {
                    assert(actions_view(v@) =~= before + show_pose(self@.cursor, now_ms));
                }
            },
        }
    }

    /// Handles a signaling message.
    fn on_signal(&mut self, msg: &Message) -> (r: Vec<LoopAction>)
        ensures
            final(self)@ == (LoopModel { state: signal_outcome(old(self)@.state, *msg), ..old(self)@ }),
            actions_view(r@) == signal_actions(old(self)@, *msg),
    {
        let ghost m0 = self@;
        let mut v: Vec<LoopAction> = Vec::new();
        proof {
            assert(actions_view(v@) =~= Seq::<ActionModel>::empty());
        }
        let was = host_should_stream(&self.state);
        let next = apply_signal(self.state.clone(), msg);
        if !next.same_as(&self.state) {
            self.state = next.clone();
            push_action(&mut v, LoopAction::Emit(next));
        } else {
            self.state = next;
        }
        if self.role == Role::Host {
            let now = host_should_stream(&self.state);
            if !was && now {
                push_action(&mut v, LoopAction::StartMedia);
            } else if was && !now {
                push_action(&mut v, LoopAction::StopMedia);
            }
        }
        proof {
            assert(actions_view(v@) =~= signal_actions(m0, *msg));
        }
        v
    }

    /// Handles a message from the relay.
    fn on_incoming(&mut self, message: Message, now_ms: u64) -> (r: Vec<LoopAction>)
        ensures
            final(self)@ == incoming_model(old(self)@, message),
            actions_view(r@) == incoming_actions(old(self)@, message, now_ms),
    {
        let ghost m0 = self@;
        let mut v: Vec<LoopAction> = Vec::new();
        proof {
            assert(actions_view(v@) =~= Seq::<ActionModel>::empty());
        }
        if let Message::VideoFrame { frame_id, timestamp_ms, codec, data, .. } = message {
            if self.role == Role::Guest && codec == VideoCodec::H264 {
                push_action(&mut v, LoopAction::Decode { frame_id, timestamp_ms, data });
                proof {
                    assert(actions_view(v@) =~= incoming_actions(m0, message, now_ms));
                }
            }
            return v;
        }
        if self.role == Role::Host && is_control_message(&message) {
            push_action(&mut v, LoopAction::Inject(message));
            proof {
                assert(actions_view(v@) =~= incoming_actions(m0, message, now_ms));
            }
            return v;
        }
        if let Message::CursorMove { .. } = message {
            self.cursor.on_remote(&message);
            self.push_pose(&mut v, now_ms);
            proof {
                assert(actions_view(v@) =~= incoming_actions(m0, message, now_ms));
            }
            return v;
        }
        self.on_signal(&message)
    }

    /// Handles one event: updates the state and returns the actions to
    /// perform, in order (see [`loop_step`]). After a failed video send the
    /// loop ends with an error made of `"envoi vidéo: "` and the description
    /// of the failure; after a failed receive, of `"connexion perdue: "` and
    /// the description.
    #[verifier::spinoff_prover]
    pub fn step(&mut self, event: LoopEvent) -> (r: Vec<LoopAction>)
        ensures
            !(event is VideoSendFailed || event is RecvFailed) ==> (final(self)@, actions_view(r@))
                == loop_step(old(self)@, event),
            event matches LoopEvent::VideoSendFailed(e) ==> final(self)@ == old(self)@
                && fails_after_transport(actions_view(r@), video_send_prefix(), e),
            event matches LoopEvent::RecvFailed(e) ==> final(self)@ == old(self)@
                && fails_after_transport(actions_view(r@), lost_prefix(), e),
    {
        let ghost m0 = self@;
        let mut v: Vec<LoopAction> = Vec::new();
        proof {
            assert(actions_view(v@) =~= Seq::<ActionModel>::empty());
        }
        match event {
            LoopEvent::Leave => {
                push_action(&mut v, LoopAction::StopCapture);
                push_action(&mut v, LoopAction::Send(Message::LeaveSession));
                push_action(&mut v, LoopAction::Close);
                push_action(&mut v, LoopAction::Emit(SessionState::Idle));
                push_action(&mut v, LoopAction::Finish);
                proof {
                    assert(actions_view(v@) =~= loop_step(m0, LoopEvent::Leave).1);
                }
                v
            },
            LoopEvent::Control(msg) => {
                let ghost e = LoopEvent::Control(msg);
                if self.role == Role::Guest && is_control_message(&msg) {
                    push_action(&mut v, LoopAction::Send(msg));
                }
                proof {
                    assert(actions_view(v@) =~= loop_step(m0, e).1);
                }
                v
            },
            LoopEvent::LocalCursor { x, y, now_ms } => {
                if self.role == Role::Guest && peer_connected(&self.state) {
                    if let Some(msg) = self.cursor.push_local(x, y, now_ms) {
                        push_action(&mut v, LoopAction::Send(msg));
                    }
                }
                proof {
                    assert(actions_view(v@) =~= loop_step(
                        m0,
                        LoopEvent::LocalCursor { x, y, now_ms },
                    ).1);
                }
                v
            },
            LoopEvent::Tick { now_ms, poll_due } => {
                if self.role == Role::Host && peer_connected(&self.state) && poll_due {
                    push_action(&mut v, LoopAction::PollHostCursor);
                } else {
                    self.push_pose(&mut v, now_ms);
                }
                proof {
                    assert(actions_view(v@) =~= loop_step(m0, LoopEvent::Tick { now_ms, poll_due }).1);
                }
                v
            },
            LoopEvent::HostCursor { pos, now_ms } => {
                if let Some((x, y)) = pos {
                    if let Some(msg) = self.cursor.push_local(x, y, now_ms) {
                        push_action(&mut v, LoopAction::Send(msg));
                    }
                }
                self.push_pose(&mut v, now_ms);
                proof {
                    assert(actions_view(v@) =~= loop_step(m0, LoopEvent::HostCursor { pos, now_ms }).1);
                }
                v
            },
            LoopEvent::MediaFrame(msg) => {
                let ghost e = LoopEvent::MediaFrame(msg);
                if self.role == Role::Host {
                    push_action(&mut v, LoopAction::SendVideo(msg));
                }
                proof {
                    assert(actions_view(v@) =~= loop_step(m0, e).1);
                }
                v
            },
            LoopEvent::MediaFatal(text) => {
                if self.role == Role::Host {
                    fail_actions(text)
                } else {
                    v
                }
            },
            LoopEvent::VideoSendFailed(e) => fail_actions(transport_failure("envoi vidéo: ", &e)),
            LoopEvent::Incoming { message, now_ms } => self.on_incoming(message, now_ms),
            LoopEvent::RecvFailed(e) => fail_actions(transport_failure("connexion perdue: ", &e)),
            LoopEvent::InjectFailed(err) => {
                if let InputError::PermissionDenied = err {
                    fail_actions(map_input_error(err))
                } else {
                    v
                }
            },
            LoopEvent::MediaStartFailed(text) => fail_actions(text),
        }
    }
}

/// The role of the loop never changes.
pub proof fn lemma_role_is_fixed(m: LoopModel, e: LoopEvent)
    ensures
        loop_step(m, e).0.role == m.role,
{
}

/// A guest never injects input, never polls the host's cursor and never runs
/// the host's media; a host never decodes video.
pub proof fn lemma_role_separation(m: LoopModel, e: LoopEvent)
    ensures
        m.role == Role::Guest ==> forall|i: int|
            0 <= i < loop_step(m, e).1.len() ==> !(#[trigger] loop_step(m, e).1[i] is Inject
                || loop_step(m, e).1[i] is StartMedia || loop_step(m, e).1[i] is StopMedia
                || loop_step(m, e).1[i] is PollHostCursor || loop_step(m, e).1[i] is SendVideo),
        m.role == Role::Host ==> forall|i: int|
            0 <= i < loop_step(m, e).1.len() ==> !(#[trigger] loop_step(m, e).1[i] is Decode),
{
    let a = loop_step(m, e).1;
    match e {
        LoopEvent::Incoming { message, now_ms } => {
            if let Message::VideoFrame { .. } = message {
            } else if m.role == Role::Host && is_control(message) {
            } else if message is CursorMove {
            } else {
                assert(m.role == Role::Guest ==> forall|i: int|
                    0 <= i < a.len() ==> a[i] is Emit);
            }
        },
        _ => {},
    }
}

/// Only remote-control input from the user interface reaches the relay, and
/// only from a guest.
pub proof fn lemma_only_guest_control_is_sent(m: LoopModel, msg: Message)
    ensures
        loop_step(m, LoopEvent::Control(msg)).1.len() > 0 <==> (m.role == Role::Guest && is_control(
            msg,
        )),
{
}

/// Leaving always sends `LeaveSession`, closes, shows `Idle` and ends the
/// loop; a fatal media failure, a failed start and a refused injection end it
/// with an error.
pub proof fn lemma_endings(m: LoopModel, e: LoopEvent)
    ensures
        e is Leave ==> loop_step(m, e).1.last() == ActionModel::Finish && loop_step(m, e).1[1]
            == ActionModel::Send(Message::LeaveSession) && loop_step(m, e).1[3] == ActionModel::Emit(
            SessionStateModel::Idle,
        ),
        (e is MediaStartFailed || (e is MediaFatal && m.role == Role::Host) || (
        e matches LoopEvent::InjectFailed(err) && err is PermissionDenied)) ==> (loop_step(m, e).1.len()
            == 3 && loop_step(m, e).1[1] is Emit && loop_step(m, e).1[2] == ActionModel::Finish),
{
}

/// A host's media run exactly while it streams: whatever a message from the
/// relay does, the media that ran before (when it streamed) and were neither
/// started nor stopped by the step are running after it exactly when it still
/// streams; a step starts them only when streaming begins and stops them only
/// when it ends.
pub proof fn lemma_media_follow_streaming(m: LoopModel, message: Message, now_ms: u64)
    requires
        m.role == Role::Host,
    ensures
        ({
            let (m1, a) = loop_step(m, LoopEvent::Incoming { message, now_ms });
            let started = a.contains(ActionModel::StartMedia);
            let stopped = a.contains(ActionModel::StopMedia);
            &&& streams_as_host(m1.state) == ((streams_as_host(m.state) && !stopped) || started)
            &&& started ==> !streams_as_host(m.state)
            &&& stopped ==> !streams_as_host(m1.state)
            &&& !(started && stopped)
        }),
{
    let (m1, a) = loop_step(m, LoopEvent::Incoming { message, now_ms });
    if message is VideoFrame || is_control(message) || message is CursorMove {
        assert(!a.contains(ActionModel::StartMedia));
        assert(!a.contains(ActionModel::StopMedia));
    } else {
        let next = signal_outcome(m.state, message);
        let shown: Seq<ActionModel> = if next != m.state {
            seq![ActionModel::Emit(next)]
        } else {
            Seq::empty()
        };
        assert(forall|i: int| 0 <= i < shown.len() ==> shown[i] is Emit);
        if a.contains(ActionModel::StartMedia) {
            let i = choose|i: int| 0 <= i < a.len() && a[i] == ActionModel::StartMedia;
            assert(i >= shown.len());
        }
        if a.contains(ActionModel::StopMedia) {
            let i = choose|i: int| 0 <= i < a.len() && a[i] == ActionModel::StopMedia;
            assert(i >= shown.len());
        }
        if !streams_as_host(m.state) && streams_as_host(next) {
            assert(a[shown.len() as int] == ActionModel::StartMedia);
        }
        if streams_as_host(m.state) && !streams_as_host(next) {
            assert(a[shown.len() as int] == ActionModel::StopMedia);
        }
    }
}

/// A frame that the host's capture produced is sent to the relay as it is,
/// and nothing else happens; a guest, which captures nothing, does nothing
/// with one.
pub proof fn lemma_host_sends_captured_frames(m: LoopModel, msg: Message)
    ensures
        m.role == Role::Host ==> loop_step(m, LoopEvent::MediaFrame(msg)).1 == seq![
            ActionModel::SendVideo(msg),
        ],
        m.role == Role::Guest ==> loop_step(m, LoopEvent::MediaFrame(msg)).1.len() == 0,
        loop_step(m, LoopEvent::MediaFrame(msg)).0 == m,
{
}

/// What each side does with media and input from its peer: a guest decodes
/// every H264 frame it gets, as received; a host injects every mouse move,
/// button, scroll and key event it gets, and ignores video; none of these
/// changes the loop's state.
pub proof fn lemma_peer_media_and_input(m: LoopModel, msg: Message, now_ms: u64)
    ensures
        msg matches Message::VideoFrame { frame_id, timestamp_ms, codec, data, .. } ==> (m.role
            == Role::Guest && codec == VideoCodec::H264 ==> loop_step(
            m,
            LoopEvent::Incoming { message: msg, now_ms },
        ) == (m, seq![ActionModel::Decode { frame_id, timestamp_ms, data: data@ }])),
        m.role == Role::Host && (msg is MouseMove || msg is MouseButton || msg is MouseScroll
            || msg is KeyEvent) ==> loop_step(m, LoopEvent::Incoming { message: msg, now_ms }) == (
        m,
        seq![ActionModel::Inject(msg)],
        ),
        m.role == Role::Host && msg is VideoFrame ==> loop_step(
            m,
            LoopEvent::Incoming { message: msg, now_ms },
        ) == (m, Seq::<ActionModel>::empty()),
{
}

/// On each timer tick a host with its peer present polls its own cursor when
/// the last poll is old enough.
pub proof fn lemma_host_polls_cursor(m: LoopModel, now_ms: u64)
    ensures
        m.role == Role::Host && peer_present(m.state) ==> loop_step(
            m,
            LoopEvent::Tick { now_ms, poll_due: true },
        ) == (m, seq![ActionModel::PollHostCursor]),
{
}

/// A local cursor move counts only for a guest whose host is present: it is
/// recorded and, when the throttle allows, sent as the cursor tracker says;
/// otherwise it changes nothing and does nothing.
pub proof fn lemma_local_cursor_only_from_guest(m: LoopModel, x: u32, y: u32, now_ms: u64)
    ensures
        m.role == Role::Guest && peer_present(m.state) ==> ({
            let (c, sent) = local_outcome(m.cursor, x, y, now_ms);
            loop_step(m, LoopEvent::LocalCursor { x, y, now_ms }) == (
                LoopModel { cursor: c, ..m },
                match sent {
                    Some(msg) => seq![ActionModel::Send(msg)],
                    None => Seq::<ActionModel>::empty(),
                },
            )
        }),
        !(m.role == Role::Guest && peer_present(m.state)) ==> loop_step(
            m,
            LoopEvent::LocalCursor { x, y, now_ms },
        ) == (m, Seq::<ActionModel>::empty()),
{
}

} // verus!
