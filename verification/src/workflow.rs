//! The run, as the decisions between one request to the backend and the
//! next. The caller makes each request and hands back what came of it;
//! [`advance`] says what to ask for then, or how the run has ended.

use vstd::prelude::*;
use vstd::string::*;
use crate::error::{
    is_fatal, ProcessingFault, SnapshotError, SnapshotErrorView, StateFailure,
};
use crate::frame::{sample_fault, Frame, FrameView, RawSample, RawSampleView};
use crate::pipeline::{description_of, pipeline_description, SINK_NAME};
use crate::position::{
    lemma_offset_within_duration, offset_at, position_at, PlaybackPosition,
};
use crate::request::{Request, RequestView};

verus! {

/// Seconds that the graph is given to reach the paused state.
pub const SETTLE_TIMEOUT_SECONDS: u64 = 5;

/// The format in which the image is encoded.
pub const IMAGE_FORMAT: &'static str = "jpeg";

/// What the run is waiting for.
#[derive(Debug, Clone, Copy, PartialEq, Eq, Structural)]
pub enum Phase {
    /// The graph is being built.
    Building,
    /// The graph was asked to pause.
    Pausing,
    /// The change of state is being waited for.
    Settling,
    /// The duration was asked for.
    Measuring,
    /// The seek was issued.
    Seeking,
    /// The sink is being looked up.
    Locating,
    /// The frame is being pulled from the sink.
    Pulling,
    /// The image is being written.
    Writing,
}

/// What came of a request.
#[derive(Debug, Clone, PartialEq, Eq)]
pub enum Reply {
    /// It was done, and there is nothing to tell.
    Completed,
    /// A processing stage of this name is not available.
    Missing(String),
    /// It was not done.
    Failed,
    /// The medium lasts this many nanoseconds.
    Duration(u64),
    /// The sink handed out this sample.
    Sample(RawSample),
}

/// [`Reply`] over sequences.
pub enum ReplyView {
    Completed,
    Missing(Seq<char>),
    Failed,
    Duration(u64),
    Sample(RawSampleView),
}

impl View for Reply {
    type V = ReplyView;

    open spec fn view(&self) -> ReplyView {
        match *self {
            Reply::Completed => ReplyView::Completed,
            Reply::Missing(name) => ReplyView::Missing(name@),
            Reply::Failed => ReplyView::Failed,
            Reply::Duration(duration_ns) => ReplyView::Duration(duration_ns),
            Reply::Sample(raw) => ReplyView::Sample(raw@),
        }
    }
}

/// A request to the backend.
#[derive(Debug, Clone, PartialEq, Eq)]
pub enum Action {
    /// Start the backend and build the graph that is described.
    Build { description: String },
    /// Ask the graph to pause, so that the first frame reaches the sink and
    /// no more is decoded than that.
    Pause,
    /// Wait until the graph has changed state, this many seconds at most.
    Settle { timeout_seconds: u64 },
    /// Ask how long the medium lasts.
    QueryDuration,
    /// Seek to the position; `flush` drops what is buffered, `key_unit` lets
    /// the backend land on the nearest point from which it can decode.
    Seek { position: PlaybackPosition, flush: bool, key_unit: bool },
    /// Look up the sink under its name.
    LocateSink { name: &'static str },
    /// Pull the one frame that pausing and seeking have made ready.
    PullPreroll,
    /// Encode the frame in the format and write it to the output.
    Write { frame: Frame, format: &'static str, output: String },
}

/// [`Action`] over sequences.
pub enum ActionView {
    Build { description: Seq<char> },
    Pause,
    Settle { timeout_seconds: u64 },
    QueryDuration,
    Seek { position: PlaybackPosition, flush: bool, key_unit: bool },
    LocateSink { name: Seq<char> },
    PullPreroll,
    Write { frame: FrameView, format: Seq<char>, output: Seq<char> },
}

impl View for Action {
    type V = ActionView;

    open spec fn view(&self) -> ActionView {
        match *self {
            Action::Build { description } => ActionView::Build { description: description@ },
            Action::Pause => ActionView::Pause,
            Action::Settle { timeout_seconds } => ActionView::Settle { timeout_seconds },
            Action::QueryDuration => ActionView::QueryDuration,
            Action::Seek { position, flush, key_unit } => ActionView::Seek {
                position,
                flush,
                key_unit,
            },
            Action::LocateSink { name } => ActionView::LocateSink { name: name@ },
            Action::PullPreroll => ActionView::PullPreroll,
            Action::Write { frame, format, output } => ActionView::Write {
                frame: frame@,
                format: format@,
                output: output@,
            },
        }
    }
}

/// How a run ended.
#[derive(Debug, Clone, PartialEq, Eq)]
pub enum Outcome {
    /// The image was written.
    Saved,
    /// It was not, for this reason.
    Failed(SnapshotError),
}

/// [`Outcome`] over sequences.
pub enum OutcomeView {
    Saved,
    Failed(SnapshotErrorView),
}

impl View for Outcome {
    type V = OutcomeView;

    open spec fn view(&self) -> OutcomeView {
        match *self {
            Outcome::Saved => OutcomeView::Saved,
            Outcome::Failed(error) => OutcomeView::Failed(error@),
        }
    }
}

/// What follows a reply: the next request, or the end of the run.
#[derive(Debug, Clone, PartialEq, Eq)]
pub enum Transition {
    Proceed { phase: Phase, action: Action },
    Finish(Outcome),
}

/// [`Transition`] over sequences.
pub enum TransitionView {
    Proceed { phase: Phase, action: ActionView },
    Finish(OutcomeView),
}

impl View for Transition {
    type V = TransitionView;

    open spec fn view(&self) -> TransitionView {
        match *self {
            Transition::Proceed { phase, action } => TransitionView::Proceed {
                phase,
                action: action@,
            },
            Transition::Finish(outcome) => TransitionView::Finish(outcome@),
        }
    }
}

/// The phase that follows `phase` where nothing fails. Writing is the last.
pub open spec fn successor(phase: Phase) -> Option<Phase> {
    match phase {
        Phase::Building => Some(Phase::Pausing),
        Phase::Pausing => Some(Phase::Settling),
        Phase::Settling => Some(Phase::Measuring),
        Phase::Measuring => Some(Phase::Seeking),
        Phase::Seeking => Some(Phase::Locating),
        Phase::Locating => Some(Phase::Pulling),
        Phase::Pulling => Some(Phase::Writing),
        Phase::Writing => None,
    }
}

/// Replies that a run in `phase` still takes at most.
pub open spec fn steps_left(phase: Phase) -> nat {
    match phase {
        Phase::Building => 8,
        Phase::Pausing => 7,
        Phase::Settling => 6,
        Phase::Measuring => 5,
        Phase::Seeking => 4,
        Phase::Locating => 3,
        Phase::Pulling => 2,
        Phase::Writing => 1,
    }
}

/// The duration that a reply tells. Any reply but a duration leaves it
/// unknown.
pub open spec fn duration_in(reply: ReplyView) -> Option<u64> {
    match reply {
        ReplyView::Duration(duration_ns) => Some(duration_ns),
        _ => None,
    }
}

/// The frame that a sample holds, where [`sample_fault`] finds none in it.
pub open spec fn frame_in(reply: ReplyView) -> FrameView {
    match reply {
        ReplyView::Sample(RawSampleView { caps: Some((width, height)), buffer: Some(data) }) =>
            FrameView { width, height, data },
        _ => FrameView { width: 0, height: 0, data: Seq::empty() },
    }
}

/// The error that `reply` means in `phase`, if it means one.
///
/// Every phase but one takes a single reply for success and any other for
/// its failure. The exception is the duration: a run goes on without one, and
/// fails there only where the position asked for is one that cannot be given.
pub open spec fn failure(phase: Phase, reply: ReplyView, request: RequestView) -> Option<
    SnapshotErrorView,
> {
    match phase {
        Phase::Building => match reply {
            ReplyView::Completed => None,
            ReplyView::Missing(name) => Some(SnapshotErrorView::MissingElement(name)),
            _ => Some(SnapshotErrorView::Parse),
        },
        Phase::Pausing => match reply {
            ReplyView::Completed => None,
            _ => Some(SnapshotErrorView::StateChange(StateFailure::Refused)),
        },
        Phase::Settling => match reply {
            ReplyView::Completed => None,
            _ => Some(SnapshotErrorView::StateChange(StateFailure::Unsettled)),
        },
        Phase::Measuring => match position_at(duration_in(reply), request.percent) {
            Some(_) => None,
            None => Some(SnapshotErrorView::Seek),
        },
        Phase::Seeking => match reply {
            ReplyView::Completed => None,
            _ => Some(SnapshotErrorView::Seek),
        },
        Phase::Locating => match reply {
            ReplyView::Completed => None,
            _ => Some(SnapshotErrorView::MissingElement(SINK_NAME@)),
        },
        Phase::Pulling => match reply {
            ReplyView::Sample(raw) => match sample_fault(raw) {
                Some(fault) => Some(SnapshotErrorView::Processing(fault)),
                None => None,
            },
            _ => Some(SnapshotErrorView::Processing(ProcessingFault::Sample)),
        },
        Phase::Writing => match reply {
            ReplyView::Completed => None,
            _ => Some(SnapshotErrorView::Write),
        },
    }
}

/// The request with which a run enters `phase`, after `reply` to the request
/// before it.
pub open spec fn request_for(phase: Phase, reply: ReplyView, request: RequestView) -> ActionView {
    match phase {
        Phase::Building => ActionView::Build { description: description_of(request.uri) },
        Phase::Pausing => ActionView::Pause,
        Phase::Settling => ActionView::Settle { timeout_seconds: SETTLE_TIMEOUT_SECONDS },
        Phase::Measuring => ActionView::QueryDuration,
        Phase::Seeking => ActionView::Seek {
            position: position_at(duration_in(reply), request.percent)->0,
            flush: true,
            key_unit: true,
        },
        Phase::Locating => ActionView::LocateSink { name: SINK_NAME@ },
        Phase::Pulling => ActionView::PullPreroll,
        Phase::Writing => ActionView::Write {
            frame: frame_in(reply),
            format: IMAGE_FORMAT@,
            output: request.output,
        },
    }
}

/// What follows `reply` in `phase`: the error it means ends the run; without
/// one the run enters the next phase, or has written its image.
pub open spec fn transition(phase: Phase, reply: ReplyView, request: RequestView) -> TransitionView {
    match failure(phase, reply, request) {
        Some(error) => TransitionView::Finish(OutcomeView::Failed(error)),
        None => match successor(phase) {
            Some(next) => TransitionView::Proceed {
                phase: next,
                action: request_for(next, reply, request),
            },
            None => TransitionView::Finish(OutcomeView::Saved),
        },
    }
}

/// With a percentage up to the whole, whatever is told of the duration lets
/// the run go on, and the seek that follows stays within the medium.
pub proof fn lemma_seek_stays_within_medium(reply: ReplyView, request: RequestView)
    requires
        request.percent <= 100,
    ensures
        failure(Phase::Measuring, reply, request) is None,
        transition(Phase::Measuring, reply, request) matches TransitionView::Proceed {
            phase: Phase::Seeking,
            action: ActionView::Seek { position, flush: true, key_unit: true },
        } && position.offset_ns <= position.duration_ns && position.offset_ns == offset_at(
            position.duration_ns as nat,
            request.percent as nat,
        ),
{
    let duration: u64 = match duration_in(reply) {
        Some(known) => known,
        None => 0,
    };
    lemma_offset_within_duration(duration as nat, request.percent as nat);
}

/// The phase that a run reaches from `phase` with `steps` replies of which
/// none means an error. After the last phase there is no other.
pub open spec fn phase_after(phase: Phase, steps: nat) -> Phase
    decreases steps,
{
    if steps == 0 {
        phase
    } else {
        match successor(phase) {
            Some(next) => phase_after(next, (steps - 1) as nat),
            None => phase,
        }
    }
}

/// The requests that a run makes from `phase` on, as `replies` come back one
/// after the other. The request that `phase` itself waits for is not among
/// them.
pub open spec fn requests_after(
    phase: Phase,
    replies: Seq<ReplyView>,
    request: RequestView,
) -> Seq<ActionView>
    decreases replies.len(),
{
    if replies.len() == 0 {
        Seq::empty()
    } else {
        match transition(phase, replies[0], request) {
            TransitionView::Proceed { phase: next, action } => seq![action] + requests_after(
                next,
                replies.drop_first(),
                request,
            ),
            TransitionView::Finish(_) => Seq::empty(),
        }
    }
}

/// How a run from `phase` on ends as `replies` come back one after the
/// other, if they bring it to its end.
pub open spec fn outcome_after(
    phase: Phase,
    replies: Seq<ReplyView>,
    request: RequestView,
) -> Option<OutcomeView>
    decreases replies.len(),
{
    if replies.len() == 0 {
        None
    } else {
        match transition(phase, replies[0], request) {
            TransitionView::Proceed { phase: next, .. } => outcome_after(
                next,
                replies.drop_first(),
                request,
            ),
            TransitionView::Finish(outcome) => Some(outcome),
        }
    }
}

/// Whether the first `count` of `replies` let a run from `phase` go on.
pub open spec fn clean_until(
    phase: Phase,
    replies: Seq<ReplyView>,
    request: RequestView,
    count: int,
) -> bool {
    forall|k: int|
        0 <= k < count ==> (#[trigger] failure(phase_after(phase, k as nat), replies[k], request))
            is None
}

/// Phases follow one another in one order, and each step leaves one fewer to
/// take.
pub proof fn lemma_phases_in_order(phase: Phase, steps: nat)
    ensures
        steps_left(phase_after(phase, steps)) == if steps < steps_left(phase) {
            (steps_left(phase) - steps) as nat
        } else {
            1
        },
        successor(phase) matches Some(next) ==> phase_after(phase, steps + 1) == phase_after(
            next,
            steps,
        ),
    decreases steps,
{
    if steps > 0 {
        match successor(phase) {
            Some(next) => lemma_phases_in_order(next, (steps - 1) as nat),
            None => {},
        }
    }
}

/// The first reply that means an error ends the run with that error. Up to
/// there the run has made, in order, the request of each phase that it
/// entered, and no other.
pub proof fn lemma_first_failure_ends_run(
    phase: Phase,
    replies: Seq<ReplyView>,
    request: RequestView,
    at: int,
)
    requires
        0 <= at < replies.len(),
        at < steps_left(phase),
        clean_until(phase, replies, request, at),
        failure(phase_after(phase, at as nat), replies[at], request) is Some,
    ensures
        outcome_after(phase, replies, request) == Some(
            OutcomeView::Failed(failure(phase_after(phase, at as nat), replies[at], request)->0),
        ),
        requests_after(phase, replies, request).len() == at,
        forall|j: int|
            0 <= j < at ==> #[trigger] requests_after(phase, replies, request)[j] == request_for(
                phase_after(phase, (j + 1) as nat),
                replies[j],
                request,
            ),
    decreases at,
{
    if at > 0 {
        let rest = replies.drop_first();
        assert(failure(phase_after(phase, 0), replies[0], request) is None);
        let next = successor(phase)->0;
        assert forall|k: int| 0 <= k < at - 1 implies (#[trigger] failure(
            phase_after(next, k as nat),
            rest[k],
            request,
        )) is None by {
            lemma_phases_in_order(phase, k as nat);
            assert(failure(phase_after(phase, (k + 1) as nat), replies[k + 1], request) is None);
        }
        lemma_phases_in_order(phase, (at - 1) as nat);
        lemma_first_failure_ends_run(next, rest, request, at - 1);
        let made = requests_after(phase, replies, request);
        assert(made =~= seq![request_for(next, replies[0], request)] + requests_after(
            next,
            rest,
            request,
        ));
        assert forall|j: int| 0 <= j < at implies #[trigger] made[j] == request_for(
            phase_after(phase, (j + 1) as nat),
            replies[j],
            request,
        ) by {
            lemma_phases_in_order(phase, j as nat);
            if j > 0 {
                assert(made[j] == requests_after(next, rest, request)[j - 1]);
            }
        }
    }
}

/// Replies of which none means an error bring the run to its end with the
/// image written, by way of every phase.
pub proof fn lemma_clean_run_saves(phase: Phase, replies: Seq<ReplyView>, request: RequestView)
    requires
        replies.len() >= steps_left(phase),
        clean_until(phase, replies, request, steps_left(phase) as int),
    ensures
        outcome_after(phase, replies, request) == Some(OutcomeView::Saved),
        requests_after(phase, replies, request).len() == steps_left(phase) - 1,
        forall|j: int|
            0 <= j < steps_left(phase) - 1 ==> #[trigger] requests_after(phase, replies, request)[j]
                == request_for(phase_after(phase, (j + 1) as nat), replies[j], request),
    decreases steps_left(phase),
{
    assert(failure(phase_after(phase, 0), replies[0], request) is None);
    match successor(phase) {
        Some(next) => {
            let rest = replies.drop_first();
            assert forall|k: int| 0 <= k < steps_left(next) implies (#[trigger] failure(
                phase_after(next, k as nat),
                rest[k],
                request,
            )) is None by {
                lemma_phases_in_order(phase, k as nat);
                assert(failure(phase_after(phase, (k + 1) as nat), replies[k + 1], request)
                    is None);
            }
            lemma_clean_run_saves(next, rest, request);
            let made = requests_after(phase, replies, request);
            assert(made =~= seq![request_for(next, replies[0], request)] + requests_after(
                next,
                rest,
                request,
            ));
            assert forall|j: int| 0 <= j < steps_left(phase) - 1 implies #[trigger] made[j]
                == request_for(phase_after(phase, (j + 1) as nat), replies[j], request) by {
                lemma_phases_in_order(phase, j as nat);
                if j > 0 {
                    assert(made[j] == requests_after(next, rest, request)[j - 1]);
                }
            }
        },
        None => {},
    }
}

/// No run goes on for ever: from `phase` it makes fewer requests than
/// [`steps_left`] tells, and as many replies as that bring it to its end.
pub proof fn lemma_run_is_bounded(phase: Phase, replies: Seq<ReplyView>, request: RequestView)
    ensures
        requests_after(phase, replies, request).len() < steps_left(phase),
        replies.len() >= steps_left(phase) ==> outcome_after(phase, replies, request) is Some,
    decreases replies.len(),
{
    if replies.len() > 0 {
        match transition(phase, replies[0], request) {
            TransitionView::Proceed { phase: next, .. } => {
                lemma_run_is_bounded(next, replies.drop_first(), request);
            },
            TransitionView::Finish(_) => {},
        }
    }
}

/// A run that fails before it writes ends with an error that is fatal, and
/// has not asked for anything to be written. So where the graph cannot be
/// built, or does not come to pause, no image is made.
pub proof fn lemma_early_failure_writes_nothing(
    phase: Phase,
    replies: Seq<ReplyView>,
    request: RequestView,
    at: int,
)
    requires
        0 <= at < replies.len(),
        at < steps_left(phase),
        clean_until(phase, replies, request, at),
        failure(phase_after(phase, at as nat), replies[at], request) is Some,
        phase_after(phase, at as nat) != Phase::Writing,
    ensures
        outcome_after(phase, replies, request) matches Some(OutcomeView::Failed(error))
            && is_fatal(error),
        forall|j: int|
            0 <= j < requests_after(phase, replies, request).len() ==> !(#[trigger] requests_after(
                phase,
                replies,
                request,
            )[j] is Write),
{
    lemma_first_failure_ends_run(phase, replies, request, at);
    let made = requests_after(phase, replies, request);
    assert forall|j: int| 0 <= j < made.len() implies !(#[trigger] made[j] is Write) by {
        lemma_phases_in_order(phase, (j + 1) as nat);
        lemma_phases_in_order(phase, at as nat);
    }
}

/// Where the graph cannot be built, is refused the pause or does not come to
/// rest, the run ends with the fatal error of that phase, and no image has
/// been asked for.
pub proof fn lemma_no_image_without_paused_graph(
    replies: Seq<ReplyView>,
    request: RequestView,
    at: int,
)
    requires
        0 <= at < replies.len(),
        at < 3,
        clean_until(Phase::Building, replies, request, at),
        failure(phase_after(Phase::Building, at as nat), replies[at], request) is Some,
    ensures
        outcome_after(Phase::Building, replies, request) matches Some(OutcomeView::Failed(error))
            && is_fatal(error) && (error is MissingElement || error is Parse
            || error is StateChange),
        forall|j: int|
            0 <= j < requests_after(Phase::Building, replies, request).len() ==> !(
            #[trigger] requests_after(Phase::Building, replies, request)[j] is Write),
{
    reveal_with_fuel(phase_after, 3);
    lemma_early_failure_writes_nothing(Phase::Building, replies, request, at);
    lemma_first_failure_ends_run(Phase::Building, replies, request, at);
}

/// A failed write is the one error that is not fatal, and it comes only
/// after every other phase has passed.
pub proof fn lemma_failed_write_is_not_fatal(
    phase: Phase,
    replies: Seq<ReplyView>,
    request: RequestView,
    at: int,
)
    requires
        0 <= at < replies.len(),
        at < steps_left(phase),
        clean_until(phase, replies, request, at),
        failure(phase_after(phase, at as nat), replies[at], request) is Some,
        phase_after(phase, at as nat) == Phase::Writing,
    ensures
        outcome_after(phase, replies, request) == Some(
            OutcomeView::Failed(SnapshotErrorView::Write),
        ),
        !is_fatal(SnapshotErrorView::Write),
        at + 1 == steps_left(phase),
{
    lemma_first_failure_ends_run(phase, replies, request, at);
    lemma_phases_in_order(phase, at as nat);
}

/// Begins a run: the graph for the request's URI is to be built.
pub fn start(request: &Request) -> (first: (Phase, Action))
    ensures
        first.0 == Phase::Building,
        first.1@ == request_for(Phase::Building, ReplyView::Completed, request@),
        first.1@ == (ActionView::Build { description: description_of(request@.uri) }),
{
    (Phase::Building, Action::Build { description: pipeline_description(request.uri.as_str()) })
}

fn abort(error: SnapshotError) -> (end: Transition)
    ensures
        end@ == TransitionView::Finish(OutcomeView::Failed(error@)),
{
    Transition::Finish(Outcome::Failed(error))
}

/// Takes the reply to the request that `phase` waits for, and says what
/// follows.
pub fn advance(phase: Phase, reply: Reply, request: &Request) -> (next: Transition)
    ensures
        next@ == transition(phase, reply@, request@),
        next matches Transition::Proceed { phase: entered, .. } ==> steps_left(entered) + 1
            == steps_left(phase),
{
    match phase {
        Phase::Building => match reply {
            Reply::Completed => Transition::Proceed { phase: Phase::Pausing, action: Action::Pause },
            Reply::Missing(name) => abort(SnapshotError::MissingElement(name)),
            _ => abort(SnapshotError::Parse),
        },
        Phase::Pausing => match reply {
            Reply::Completed => Transition::Proceed {
                phase: Phase::Settling,
                action: Action::Settle { timeout_seconds: SETTLE_TIMEOUT_SECONDS },
            },
            _ => abort(SnapshotError::StateChange(StateFailure::Refused)),
        },
        Phase::Settling => match reply {
            Reply::Completed => Transition::Proceed {
                phase: Phase::Measuring,
                action: Action::QueryDuration,
            },
            _ => abort(SnapshotError::StateChange(StateFailure::Unsettled)),
        },
        Phase::Measuring => {
            let duration_ns = match reply {
                Reply::Duration(duration_ns) => Some(duration_ns),
                _ => None,
            };
            match PlaybackPosition::locate(duration_ns, request.percent) {
                Some(position) => Transition::Proceed {
                    phase: Phase::Seeking,
                    action: Action::Seek { position, flush: true, key_unit: true },
                },
                None => abort(SnapshotError::Seek),
            }
        },
        Phase::Seeking => match reply {
            Reply::Completed => Transition::Proceed {
                phase: Phase::Locating,
                action: Action::LocateSink { name: SINK_NAME },
            },
            _ => abort(SnapshotError::Seek),
        },
        Phase::Locating => match reply {
            Reply::Completed => Transition::Proceed {
                phase: Phase::Pulling,
                action: Action::PullPreroll,
            },
            _ => abort(SnapshotError::MissingElement(String::from_str(SINK_NAME))),
        },
        Phase::Pulling => match reply {
            Reply::Sample(raw) => match Frame::from_sample(raw) {
                Ok(frame) => Transition::Proceed {
                    phase: Phase::Writing,
                    action: Action::Write {
                        frame,
                        format: IMAGE_FORMAT,
                        output: request.output.clone(),
                    },
                },
                Err(fault) => abort(SnapshotError::Processing(fault)),
            },
            _ => abort(SnapshotError::Processing(ProcessingFault::Sample)),
        },
        Phase::Writing => match reply {
            Reply::Completed => Transition::Finish(Outcome::Saved),
            _ => abort(SnapshotError::Write),
        },
    }
}

} // verus!
