//! The log viewer's session: the order in which it takes the terminal,
//! waits for keys, repaints its region in place and gives the terminal
//! back, whatever happens on the way.

use crate::keys::{classify, command_of, Command, Event};
use crate::view::{
    commanded, counted, frame, frame_of, initial_view, Frame, FrameView, ViewState, ViewStateView,
};
use vstd::prelude::*;
use vstd::string::*;

verus! {

/// Where a session of the viewer stands. Each phase waits for the terminal
/// to do one thing.
#[derive(Debug, Clone, Copy, PartialEq, Eq, Structural)]
pub enum Phase {
    /// Taking the terminal: the cursor is being hidden and the input mode
    /// made raw.
    Entering,
    /// Blocked until one input event arrives.
    Waiting,
    /// The region is being repainted.
    Painting,
    /// Giving the terminal back: the cursor is being shown again and the
    /// input mode made what it was.
    Leaving,
    /// The session is over.
    Stopped,
}

/// What the terminal came back with.
#[derive(Debug, PartialEq, Eq)]
pub enum Reply {
    /// What was asked for is done.
    Done,
    /// This event arrived.
    Event(Event),
    /// The terminal failed; the text says how.
    Failed(String),
}

/// What a `Reply` holds.
pub enum ReplyView {
    Done,
    Event(Event),
    Failed(Seq<char>),
}

impl View for Reply {
    type V = ReplyView;

    open spec fn view(&self) -> ReplyView {
        match *self {
            Reply::Done => ReplyView::Done,
            Reply::Event(event) => ReplyView::Event(event),
            Reply::Failed(detail) => ReplyView::Failed(detail@),
        }
    }
}

/// What a session asks of the terminal.
#[derive(Debug, PartialEq, Eq)]
pub enum Request {
    /// Hide the cursor and make the input mode raw.
    Enter,
    /// Wait for one input event.
    Read,
    /// Repaint the region in place.
    Paint(Frame),
    /// Give the terminal back: clear the last line of the region where
    /// that is asked for, show the cursor, restore the input mode.
    Leave { clear_status: bool },
    /// Nothing more: the session ended, well or with this message.
    Finish(Result<(), String>),
}

/// What a `Request` holds.
pub enum RequestView {
    Enter,
    Read,
    Paint(FrameView),
    Leave { clear_status: bool },
    Finish(Result<(), Seq<char>>),
}

impl View for Request {
    type V = RequestView;

    open spec fn view(&self) -> RequestView {
        match *self {
            Request::Enter => RequestView::Enter,
            Request::Read => RequestView::Read,
            Request::Paint(frame) => RequestView::Paint(frame@),
            Request::Leave { clear_status } => RequestView::Leave { clear_status },
            Request::Finish(Ok(())) => RequestView::Finish(Ok(())),
            Request::Finish(Err(message)) => RequestView::Finish(Err(message@)),
        }
    }
}

/// What a `Session` holds.
pub struct SessionView {
    pub phase: Phase,
    pub view: ViewStateView,
    pub failure: Option<Seq<char>>,
}

/// The session as it begins: about to take the terminal.
pub open spec fn initial_session() -> SessionView {
    SessionView { phase: Phase::Entering, view: initial_view(), failure: None }
}

/// What a reply asks of a waiting viewer: what its event asks for, and a
/// repaint where it brought no event.
pub open spec fn reply_command(reply: ReplyView) -> Command {
    match reply {
        ReplyView::Event(event) => command_of(event),
        _ => Command::Refresh,
    }
}

/// The session after the terminal failed while it was held: the viewer
/// stops, the failure is kept, and the terminal is to be given back.
pub open spec fn failing(session: SessionView, detail: Seq<char>) -> SessionView {
    SessionView {
        phase: Phase::Leaving,
        view: commanded(session.view, Command::Stop),
        failure: Some(detail),
    }
}

/// The session after `reply`.
///
/// Once the terminal is taken the session waits for an event. An interrupt
/// makes it leave; any other event changes the view as the event asks and
/// has the region repainted, after which the line counter goes up and the
/// session waits again. A failure of the terminal in any of these phases
/// makes it leave at once. From leaving it always stops, whatever the
/// reply; the first failure is the one kept. Once stopped it stays as it
/// is.
pub open spec fn advanced(session: SessionView, reply: ReplyView) -> SessionView {
    match session.phase {
        Phase::Entering => match reply {
            ReplyView::Failed(detail) => failing(session, detail),
            _ => SessionView { phase: Phase::Waiting, ..session },
        },
        Phase::Waiting => match reply {
            ReplyView::Failed(detail) => failing(session, detail),
            _ => SessionView {
                phase: if reply_command(reply) == Command::Stop {
                    Phase::Leaving
                } else {
                    Phase::Painting
                },
                view: commanded(session.view, reply_command(reply)),
                ..session
            },
        },
        Phase::Painting => match reply {
            ReplyView::Failed(detail) => failing(session, detail),
            _ => SessionView { phase: Phase::Waiting, view: counted(session.view), ..session },
        },
        Phase::Leaving => match reply {
            ReplyView::Failed(detail) => SessionView {
                phase: Phase::Stopped,
                failure: if session.failure is Some {
                    session.failure
                } else {
                    Some(detail)
                },
                ..session
            },
            _ => SessionView { phase: Phase::Stopped, ..session },
        },
        Phase::Stopped => session,
    }
}

/// How a session with this failure, or with none, ended.
pub open spec fn outcome_of(failure: Option<Seq<char>>) -> Result<(), Seq<char>> {
    match failure {
        None => Ok(()),
        Some(detail) => Err("An error occurred during log: "@ + detail),
    }
}

/// What `session` asks of the terminal. Only a session that leaves without
/// a failure has the last line of the region cleared.
pub open spec fn request_of(session: SessionView) -> RequestView {
    match session.phase {
        Phase::Entering => RequestView::Enter,
        Phase::Waiting => RequestView::Read,
        Phase::Painting => RequestView::Paint(frame_of(session.view)),
        Phase::Leaving => RequestView::Leave { clear_status: session.failure is None },
        Phase::Stopped => RequestView::Finish(outcome_of(session.failure)),
    }
}

/// One run of the viewer: where it stands, its view, and the first failure
/// of the terminal, if there was one.
#[derive(Debug, PartialEq, Eq)]
pub struct Session {
    pub phase: Phase,
    pub view: ViewState,
    pub failure: Option<String>,
}

impl View for Session {
    type V = SessionView;

    open spec fn view(&self) -> SessionView {
        SessionView {
            phase: self.phase,
            view: self.view@,
            failure: match self.failure {
                Some(detail) => Some(detail@),
                None => None,
            },
        }
    }
}

impl Session {
    /// The session as it begins.
    pub fn start() -> (r: Self)
        ensures
            r@ == initial_session(),
    {
        Session { phase: Phase::Entering, view: ViewState::new(), failure: None }
    }

    /// What this session asks of the terminal.
    pub fn request(&self) -> (r: Request)
        ensures
            r@ == request_of(self@),
    {
        match self.phase {
            Phase::Entering => Request::Enter,
            Phase::Waiting => Request::Read,
            Phase::Painting => Request::Paint(frame(&self.view)),
            Phase::Leaving => Request::Leave { clear_status: self.failure.is_none() },
            Phase::Stopped => match &self.failure {
                None => Request::Finish(Ok(())),
                Some(detail) => {
                    let mut message = String::from_str("An error occurred during log: ");
                    message.append(detail.as_str());
                    Request::Finish(Err(message))
                },
            },
        }
    }

    /// This session after the terminal failed while it was held.
    fn fail(self, detail: &String) -> (r: Self)
        ensures
            r@ == failing(self@, detail@),
    {
        Session {
            phase: Phase::Leaving,
            view: self.view.apply(Command::Stop),
            failure: Some(detail.clone()),
        }
    }

    /// This session after `reply`.
    pub fn advance(self, reply: &Reply) -> (r: Self)
        ensures
            r@ == advanced(self@, reply@),
    {
        match self.phase {
            Phase::Entering => match reply {
                Reply::Failed(detail) => self.fail(detail),
                _ => Session { phase: Phase::Waiting, ..self },
            },
            Phase::Waiting => match reply {
                Reply::Failed(detail) => self.fail(detail),
                Reply::Event(event) => {
                    let command = classify(*event);
                    let phase = match command {
                        Command::Stop => Phase::Leaving,
                        _ => Phase::Painting,
                    };
                    Session { phase, view: self.view.apply(command), failure: self.failure }
                },
                Reply::Done => Session {
                    phase: Phase::Painting,
                    view: self.view.apply(Command::Refresh),
                    failure: self.failure,
                },
            },
            Phase::Painting => match reply {
                Reply::Failed(detail) => self.fail(detail),
                _ => Session {
                    phase: Phase::Waiting,
                    view: self.view.count(),
                    failure: self.failure,
                },
            },
            Phase::Leaving => match reply {
                Reply::Failed(detail) => {
                    let failure = match self.failure {
                        Some(first) => Some(first),
                        None => Some(detail.clone()),
                    };
                    Session { phase: Phase::Stopped, view: self.view, failure }
                },
                _ => Session { phase: Phase::Stopped, ..self },
            },
            Phase::Stopped => self,
        }
    }
}

/// The session that `session` becomes by taking the replies of `script`
/// one after the other, until it has stopped or they have run out.
pub open spec fn run(session: SessionView, script: Seq<ReplyView>) -> SessionView
    decreases script.len(),
{
    if script.len() == 0 || session.phase == Phase::Stopped {
        session
    } else {
        run(advanced(session, script[0]), script.skip(1))
    }
}

/// What `session` asks of the terminal while it takes the replies of
/// `script`: one request after each reply taken.
pub open spec fn requests_during(session: SessionView, script: Seq<ReplyView>) -> Seq<RequestView>
    decreases script.len(),
{
    if script.len() == 0 || session.phase == Phase::Stopped {
        Seq::empty()
    } else {
        let next = advanced(session, script[0]);
        seq![request_of(next)] + requests_during(next, script.skip(1))
    }
}

/// Everything a session asks of the terminal, from its beginning, when the
/// terminal answers with the replies of `script`.
pub open spec fn transcript(script: Seq<ReplyView>) -> Seq<RequestView> {
    seq![request_of(initial_session())] + requests_during(initial_session(), script)
}

/// How many times `requests` ask to give the terminal back.
pub open spec fn restorations(requests: Seq<RequestView>) -> nat
    decreases requests.len(),
{
    if requests.len() == 0 {
        0
    } else {
        let first: nat = if requests[0] is Leave {
            1
        } else {
            0
        };
        first + restorations(requests.drop_first())
    }
}

/// Tells whether a session in this phase has asked to give the terminal
/// back.
pub open spec fn released(phase: Phase) -> bool {
    phase == Phase::Leaving || phase == Phase::Stopped
}

/// The views of the replies of `v`, in order.
pub open spec fn reply_views(v: Seq<Reply>) -> Seq<ReplyView> {
    v.map_values(|reply: Reply| reply@)
}

/// The views of the requests of `v`, in order.
pub open spec fn request_views(v: Seq<Request>) -> Seq<RequestView> {
    v.map_values(|request: Request| request@)
}

/// While it takes replies, a session asks to give the terminal back once
/// if it comes to leave, and not at all if it had left before or does not
/// come to leave. A session that has left never holds the terminal again.
pub proof fn lemma_restorations_during(session: SessionView, script: Seq<ReplyView>)
    ensures
        released(session.phase) ==> released(run(session, script).phase),
        restorations(requests_during(session, script)) == (if released(
            run(session, script).phase,
        ) && !released(session.phase) {
            1nat
        } else {
            0nat
        }),
    decreases script.len(),
{
    if script.len() == 0 || session.phase == Phase::Stopped {
    } else {
        let next = advanced(session, script[0]);
        let rest = requests_during(next, script.skip(1));
        lemma_restorations_during(next, script.skip(1));
        assert((seq![request_of(next)] + rest).drop_first() =~= rest);
    }
}

/// The terminal is given back exactly once in every session that ends,
/// whatever the terminal answered on the way, failures included; and in no
/// session more than once.
pub proof fn lemma_terminal_restored_once(script: Seq<ReplyView>)
    ensures
        restorations(transcript(script)) <= 1,
        restorations(transcript(script)) == 1 <==> released(run(initial_session(), script).phase),
        run(initial_session(), script).phase == Phase::Stopped ==> restorations(transcript(script))
            == 1,
{
    let during = requests_during(initial_session(), script);
    lemma_restorations_during(initial_session(), script);
    assert(transcript(script).drop_first() =~= during);
}

/// A failure of the terminal while a session holds it makes the session
/// give the terminal back next, and whatever comes of that, the session
/// then ends with that failure in its message.
pub proof fn lemma_failure_ends_session(session: SessionView, detail: Seq<char>, reply: ReplyView)
    requires
        !released(session.phase),
    ensures
        request_of(advanced(session, ReplyView::Failed(detail))) == (RequestView::Leave {
            clear_status: false,
        }),
        request_of(advanced(advanced(session, ReplyView::Failed(detail)), reply))
            == RequestView::Finish(Err("An error occurred during log: "@ + detail)),
{
}

/// What a scripted run of the viewer came to.
#[derive(Debug, PartialEq, Eq)]
pub struct LogRun {
    /// Everything that was asked of the terminal, in order.
    pub requests: Vec<Request>,
    /// The session as the script left it.
    pub session: Session,
}

/// Runs the viewer against a terminal that answers with the replies of
/// `script`, in order: the first reply answers the request to take the
/// terminal, each further one the request before it. The run is over when
/// the session has stopped or the script has run out.
pub fn run_log(script: &Vec<Reply>) -> (r: LogRun)
    ensures
        request_views(r.requests@) == transcript(reply_views(script@)),
        r.session@ == run(initial_session(), reply_views(script@)),
{
    let ghost replies = reply_views(script@);
    let mut session = Session::start();
    let mut requests: Vec<Request> = Vec::new();
    let first = session.request();
    assert(request_views(requests@.push(first)) =~= seq![request_of(initial_session())]);
    requests.push(first);
    let mut i: usize = 0;
    assert(replies.skip(0) =~= replies);
    while i < script.len() && !is_stopped(&session)
        invariant
            i <= script.len(),
            replies == reply_views(script@),
            run(initial_session(), replies) == run(session@, replies.skip(i as int)),
            transcript(replies) == request_views(requests@) + requests_during(
                session@,
                replies.skip(i as int),
            ),
        decreases script.len() - i,
    {
        let ghost before = session@;
        let ghost asked = request_views(requests@);
        session = session.advance(&script[i]);
        let request = session.request();
        proof {
            let rest = replies.skip(i as int);
            assert(rest[0] == script@[i as int]@);
            assert(rest.skip(1) =~= replies.skip(i + 1));
            assert(request_views(requests@.push(request)) =~= asked.push(request@));
            assert(asked + (seq![request@] + requests_during(session@, rest.skip(1)))
                =~= asked.push(request@) + requests_during(session@, rest.skip(1)));
        }
        requests.push(request);
        i += 1;
    }
    proof {
        let rest = replies.skip(i as int);
        assert(requests_during(session@, rest) =~= Seq::<RequestView>::empty());
        assert(request_views(requests@) + Seq::<RequestView>::empty() =~= request_views(
            requests@,
        ));
    }
    LogRun { requests, session }
}

/// Tells whether `session` is over.
fn is_stopped(session: &Session) -> (r: bool)
    ensures
        r == (session@.phase == Phase::Stopped),
{
    match session.phase {
        Phase::Stopped => true,
        _ => false,
    }
}

} // verus!
