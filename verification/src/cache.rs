use vstd::prelude::*;
use crate::codec::{outcome_view, render, rendering};
use crate::fault::Fault;
use crate::identity::{fresh_token, is_identity};
use crate::names::{
    derivative_path, derivative_path_of, original_path, original_path_of, staging_path,
    staging_path_of,
};

verus! {

/// What the host is asked to do next for a request.
#[derive(Debug, PartialEq, Eq)]
pub enum Action {
    /// Read the derivative at `path`, if there is one.
    Lookup { path: String },
    /// Read the original at `path`, if there is one.
    LoadOriginal { path: String },
    /// Write `bytes` in full to `staging`, flush them, then move `staging` to
    /// `target` in one step.
    Publish { staging: String, target: String, bytes: Vec<u8> },
    /// Hand `result` to the caller; the request is over.
    Done { result: Result<Vec<u8>, Fault> },
}

/// An action over plain sequences.
pub enum ActionView {
    Lookup { path: Seq<char> },
    LoadOriginal { path: Seq<char> },
    Publish { staging: Seq<char>, target: Seq<char>, bytes: Seq<u8> },
    Done { result: Result<Seq<u8>, Fault> },
}

impl View for Action {
    type V = ActionView;

    open spec fn view(&self) -> ActionView {
        match *self {
            Action::Lookup { path } => ActionView::Lookup { path: path@ },
            Action::LoadOriginal { path } => ActionView::LoadOriginal { path: path@ },
            Action::Publish { staging, target, bytes } => ActionView::Publish {
                staging: staging@,
                target: target@,
                bytes: bytes@,
            },
            Action::Done { result } => ActionView::Done { result: outcome_view(result) },
        }
    }
}

/// What the host reports of the action it was asked for.
#[derive(Debug, PartialEq, Eq)]
pub enum Event {
    /// The object exists and these are its bytes, in full.
    Found { bytes: Vec<u8> },
    /// No object exists at the path.
    Absent,
    /// The bytes were written, flushed and moved to their place.
    Published,
    /// Reading or writing failed.
    Failed,
}

/// A report over plain sequences.
pub enum EventView {
    Found { bytes: Seq<u8> },
    Absent,
    Published,
    Failed,
}

impl View for Event {
    type V = EventView;

    open spec fn view(&self) -> EventView {
        match *self {
            Event::Found { bytes } => EventView::Found { bytes: bytes@ },
            Event::Absent => EventView::Absent,
            Event::Published => EventView::Published,
            Event::Failed => EventView::Failed,
        }
    }
}

/// How far a request has come.
#[derive(Clone, Copy, Debug, PartialEq, Eq, Structural)]
pub enum Phase {
    /// The derivative was asked for; the answer is awaited.
    Looking,
    /// The derivative is missing and the original was asked for.
    Loading,
    /// The derivative was made and handed over for publishing.
    Publishing,
    /// The result was handed out.
    Finished,
}

/// One request for the derivative of (`project`, `identity`) at `width` by
/// `height`, and the encoding it made, once it has made one.
#[derive(Debug, PartialEq, Eq)]
pub struct Request {
    pub project: String,
    pub identity: String,
    pub width: u32,
    pub height: u32,
    pub phase: Phase,
    pub rendered: Vec<u8>,
}

/// A request over plain sequences.
pub struct RequestView {
    pub project: Seq<char>,
    pub identity: Seq<char>,
    pub width: u32,
    pub height: u32,
    pub phase: Phase,
    pub rendered: Seq<u8>,
}

impl View for Request {
    type V = RequestView;

    open spec fn view(&self) -> RequestView {
        RequestView {
            project: self.project@,
            identity: self.identity@,
            width: self.width,
            height: self.height,
            phase: self.phase,
            rendered: self.rendered@,
        }
    }
}

impl RequestView {
    /// The same request in another phase.
    pub open spec fn at(self, phase: Phase) -> RequestView {
        RequestView {
            project: self.project,
            identity: self.identity,
            width: self.width,
            height: self.height,
            phase,
            rendered: self.rendered,
        }
    }

    /// The same request, holding the encoding it made.
    pub open spec fn holding(self, rendered: Seq<u8>) -> RequestView {
        RequestView {
            project: self.project,
            identity: self.identity,
            width: self.width,
            height: self.height,
            phase: self.phase,
            rendered,
        }
    }

    /// Where the derivative that the request asks for is stored.
    pub open spec fn target(self) -> Seq<char> {
        derivative_path_of(self.project, self.identity, self.width, self.height)
    }
}

/// The request ends with `result`.
pub open spec fn finished(req: RequestView, result: Result<Seq<u8>, Fault>) -> (
    RequestView,
    ActionView,
) {
    (req.at(Phase::Finished), ActionView::Done { result })
}

/// How a request starts: a zero side ends it at once with `InvalidSize`;
/// otherwise the derivative is looked up.
pub open spec fn begin_of(project: Seq<char>, identity: Seq<char>, width: u32, height: u32) -> (
    RequestView,
    ActionView,
) {
    let req = RequestView {
        project,
        identity,
        width,
        height,
        phase: Phase::Looking,
        rendered: Seq::<u8>::empty(),
    };
    if width == 0 || height == 0 {
        finished(req, Err(Fault::InvalidSize))
    } else {
        (req, ActionView::Lookup { path: req.target() })
    }
}

/// What follows the rendering of a loaded original: an encoding is kept and
/// published from a staging path named by `token` to the derivative's place;
/// a failure ends the request.
pub open spec fn after_render(req: RequestView, rendered: Result<Seq<u8>, Fault>, token: Seq<char>)
    -> (RequestView, ActionView) {
    match rendered {
        Ok(bytes) => (
            req.holding(bytes).at(Phase::Publishing),
            ActionView::Publish {
                staging: staging_path_of(token),
                target: req.target(),
                bytes,
            },
        ),
        Err(e) => finished(req, Err(e)),
    }
}

/// The bytes that a report found, if it found any.
pub open spec fn found(event: EventView) -> Seq<u8> {
    match event {
        EventView::Found { bytes } => bytes,
        _ => Seq::<u8>::empty(),
    }
}

/// The next state and action for each state and event, but for a loaded
/// original, whose rendering is the codec's to decide.
pub open spec fn step_of(req: RequestView, event: EventView) -> Option<(RequestView, ActionView)> {
    match req.phase {
        Phase::Looking => match event {
            EventView::Found { bytes } => Some(finished(req, Ok(bytes))),
            EventView::Absent => Some(
                (
                    req.at(Phase::Loading),
                    ActionView::LoadOriginal {
                        path: original_path_of(req.project, req.identity),
                    },
                ),
            ),
            _ => Some(finished(req, Err(Fault::StorageError))),
        },
        Phase::Loading => match event {
            EventView::Found { bytes } => None,
            EventView::Absent => Some(finished(req, Err(Fault::SourceMissing))),
            _ => Some(finished(req, Err(Fault::StorageError))),
        },
        Phase::Publishing => match event {
            EventView::Published => Some(finished(req, Ok(req.rendered))),
            _ => Some(finished(req, Err(Fault::StorageError))),
        },
        Phase::Finished => Some(finished(req, Err(Fault::StorageError))),
    }
}

/// A copy of `bytes`.
pub(crate) fn copy_bytes(bytes: &Vec<u8>) -> (r: Vec<u8>)
    ensures
        r@ == bytes@,
{
    let mut r: Vec<u8> = Vec::new();
    let mut i: usize = 0;
    while i < bytes.len()
        invariant
            i <= bytes.len(),
            r@ == bytes@.subrange(0, i as int),
        decreases bytes.len() - i,
    {
        r.push(bytes[i]);
        i += 1;
        assert(r@ =~= bytes@.subrange(0, i as int));
    }
    assert(r@ =~= bytes@);
    r
}

impl Request {
    /// Starts a request. A zero width or height ends it at once with
    /// `InvalidSize`, before the host is asked for anything.
    pub fn begin(project: String, identity: String, width: u32, height: u32) -> (r: (
        Request,
        Action,
    ))
        ensures
            (r.0@, r.1@) == begin_of(project@, identity@, width, height),
    {
        if width == 0 || height == 0 {
            let req = Request {
                project,
                identity,
                width,
                height,
                phase: Phase::Finished,
                rendered: Vec::new(),
            };
            (req, Action::Done { result: Err(Fault::InvalidSize) })
        } else {
            let path = derivative_path(project.as_str(), identity.as_str(), width, height);
            let req = Request {
                project,
                identity,
                width,
                height,
                phase: Phase::Looking,
                rendered: Vec::new(),
            };
            (req, Action::Lookup { path })
        }
    }

    fn finish(&mut self, result: Result<Vec<u8>, Fault>) -> (action: Action)
        ensures
            (final(self)@, action@) == finished(old(self)@, outcome_view(result)),
    {
        self.phase = Phase::Finished;
        Action::Done { result }
    }

    /// Takes the rendering of the loaded original: keeps an encoding and asks
    /// for it to be published under a staging name made of `token`; ends the
    /// request on a failure.
    pub fn publish(&mut self, rendered: Result<Vec<u8>, Fault>, token: &str) -> (action: Action)
        ensures
            (final(self)@, action@) == after_render(old(self)@, outcome_view(rendered), token@),
    {
        match rendered {
            Ok(bytes) => {
                let staging = staging_path(token);
                let target = derivative_path(
                    self.project.as_str(),
                    self.identity.as_str(),
                    self.width,
                    self.height,
                );
                self.rendered = copy_bytes(&bytes);
                self.phase = Phase::Publishing;
                Action::Publish { staging, target, bytes }
            },
            Err(e) => self.finish(Err(e)),
        }
    }

    /// Takes the host's report of the last action and says what to do next.
    ///
    /// A derivative that was found is returned as it is, and the original is
    /// not asked for. A missing derivative has the original loaded; a missing
    /// original ends the request with `SourceMissing`. A loaded original is
    /// rendered, the very bytes that the host found, and the encoding
    /// published under a fresh staging name; once published, the encoding is
    /// returned from memory. A failed read or write, or a report that does
    /// not answer the last action, ends the request with `StorageError`.
    pub fn advance(&mut self, event: Event) -> (action: Action)
        ensures
            step_of(old(self)@, event@) matches Some(next) ==> final(self)@ == next.0 && action@
                == next.1,
            step_of(old(self)@, event@) is None ==> exists|
                rendered: Result<Seq<u8>, Fault>,
                token: Seq<char>,
            |
                rendering(found(event@), old(self).width, old(self).height, rendered)
                    && is_identity(token) && (
                    final(self)@,
                    action@,
                ) == #[trigger] after_render(old(self)@, rendered, token),
    {
        match self.phase {
            Phase::Looking => match event {
                Event::Found { bytes } => self.finish(Ok(bytes)),
                Event::Absent => {
                    let path = original_path(self.project.as_str(), self.identity.as_str());
                    self.phase = Phase::Loading;
                    Action::LoadOriginal { path }
                },
                _ => self.finish(Err(Fault::StorageError)),
            },
            Phase::Loading => match event {
                Event::Found { bytes } => {
                    match render(bytes.as_slice(), self.width, self.height) {
                        Ok(encoding) => {
                            let token = fresh_token();
                            let ghost outcome = Ok::<Seq<u8>, Fault>(encoding@);
                            let action = self.publish(Ok(encoding), token.as_str());
                            proof {
                                assert((self@, action@) == after_render(
                                    old(self)@,
                                    outcome,
                                    token@,
                                ));
                            }
                            action
                        },
                        Err(e) => {
                            let action = self.finish(Err(e));
                            proof {
                                let token = Seq::new(36, |i: int| '0');
                                assert(is_identity(token));
                                assert((self@, action@) == after_render(
                                    old(self)@,
                                    Err::<Seq<u8>, Fault>(e),
                                    token,
                                ));
                            }
                            action
                        },
                    }
                },
                Event::Absent => self.finish(Err(Fault::SourceMissing)),
                _ => self.finish(Err(Fault::StorageError)),
            },
            Phase::Publishing => match event {
                Event::Published => {
                    let bytes = copy_bytes(&self.rendered);
                    self.finish(Ok(bytes))
                },
                _ => self.finish(Err(Fault::StorageError)),
            },
            Phase::Finished => self.finish(Err(Fault::StorageError)),
        }
    }
}

} // verus!
