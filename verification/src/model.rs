use vstd::prelude::*;
use crate::cache::{after_render, begin_of, finished, step_of, ActionView, EventView, Phase, RequestView};
use crate::codec::{depicts, encodable, image_sides, rendering};
use crate::fault::Fault;
use crate::names::{derivative_path_of, original_path_of, staging_path_of};

verus! {

/// What a host that never fails reports of an action, given what is stored:
/// an object is found exactly where one is stored, and with its stored bytes.
pub open spec fn reply_of(stored: Map<Seq<char>, Seq<u8>>, action: ActionView) -> EventView {
    match action {
        ActionView::Lookup { path } => if stored.contains_key(path) {
            EventView::Found { bytes: stored[path] }
        } else {
            EventView::Absent
        },
        ActionView::LoadOriginal { path } => if stored.contains_key(path) {
            EventView::Found { bytes: stored[path] }
        } else {
            EventView::Absent
        },
        ActionView::Publish { staging, target, bytes } => EventView::Published,
        ActionView::Done { result } => EventView::Failed,
    }
}

/// What is stored after the host has carried out an action. Only publishing
/// changes it, and only at the target: the staging name is gone with the move.
pub open spec fn stored_after(stored: Map<Seq<char>, Seq<u8>>, action: ActionView) -> Map<
    Seq<char>,
    Seq<u8>,
> {
    match action {
        ActionView::Publish { staging, target, bytes } => stored.insert(target, bytes),
        _ => stored,
    }
}

/// A request with a zero side ends with `InvalidSize` as its first and only
/// action, and leaves what is stored as it was.
pub proof fn invalid_size_writes_nothing(
    stored: Map<Seq<char>, Seq<u8>>,
    project: Seq<char>,
    identity: Seq<char>,
    width: u32,
    height: u32,
)
    requires
        width == 0 || height == 0,
    ensures
        begin_of(project, identity, width, height).1 == (ActionView::Done {
            result: Err(Fault::InvalidSize),
        }),
        begin_of(project, identity, width, height).0.phase == Phase::Finished,
        stored_after(stored, begin_of(project, identity, width, height).1) == stored,
{
}

/// A derivative that is stored is returned as it is stored, in one step and
/// without a look at the original, whatever the original holds by now.
pub proof fn stored_derivative_is_returned(
    stored: Map<Seq<char>, Seq<u8>>,
    project: Seq<char>,
    identity: Seq<char>,
    width: u32,
    height: u32,
)
    requires
        width > 0,
        height > 0,
        stored.contains_key(derivative_path_of(project, identity, width, height)),
    ensures
        ({
            let (req, lookup) = begin_of(project, identity, width, height);
            step_of(req, reply_of(stored, lookup)) == Some(
                finished(
                    req,
                    Ok(stored[derivative_path_of(project, identity, width, height)]),
                ),
            )
        }),
{
}

/// The encoding that a request makes on a miss is what it returns once it is
/// published, and what every later request for the same key returns while it
/// stays stored.
pub proof fn published_derivative_is_served_again(
    stored: Map<Seq<char>, Seq<u8>>,
    req: RequestView,
    bytes: Seq<u8>,
    token: Seq<char>,
)
    requires
        req.width > 0,
        req.height > 0,
    ensures
        ({
            let (publishing, publish) = after_render(req, Ok(bytes), token);
            let (again, lookup) = begin_of(req.project, req.identity, req.width, req.height);
            &&& step_of(publishing, reply_of(stored, publish)) == Some(
                finished(publishing, Ok(bytes)),
            )
            &&& step_of(again, reply_of(stored_after(stored, publish), lookup)) == Some(
                finished(again, Ok(bytes)),
            )
        }),
{
}

/// A request for a derivative that is not stored, of an original that is not
/// stored either, ends with `SourceMissing`, and nothing is written.
pub proof fn missing_original_is_source_missing(
    stored: Map<Seq<char>, Seq<u8>>,
    project: Seq<char>,
    identity: Seq<char>,
    width: u32,
    height: u32,
)
    requires
        width > 0,
        height > 0,
        !stored.contains_key(derivative_path_of(project, identity, width, height)),
        !stored.contains_key(original_path_of(project, identity)),
    ensures
        ({
            let (req, lookup) = begin_of(project, identity, width, height);
            let (loading, load) = step_of(req, reply_of(stored, lookup)).unwrap();
            &&& step_of(req, reply_of(stored, lookup)) is Some
            &&& stored_after(stored, lookup) == stored
            &&& stored_after(stored, load) == stored
            &&& step_of(loading, reply_of(stored, load)) == Some(
                finished(loading, Err(Fault::SourceMissing)),
            )
        }),
{
}

/// Whatever a request returns of its own making is a whole encoding: what it
/// rendered is not empty, is published as it is, and is returned as it is.
pub proof fn own_encoding_is_whole(
    stored: Map<Seq<char>, Seq<u8>>,
    req: RequestView,
    original: Seq<u8>,
    rendered: Result<Seq<u8>, Fault>,
    token: Seq<char>,
)
    requires
        rendering(original, req.width, req.height, rendered),
        rendered is Ok,
    ensures
        ({
            let (publishing, publish) = after_render(req, rendered, token);
            &&& publish matches ActionView::Publish { staging, target, bytes }
            &&& bytes.len() > 0
            &&& target == req.target()
            &&& stored_after(stored, publish)[req.target()] == bytes
            &&& step_of(publishing, EventView::Published) == Some(finished(publishing, Ok(bytes)))
        }),
{
}

/// A rendering that failed ends the request with its error and publishes
/// nothing: what is stored stays as it was.
pub proof fn failed_rendering_publishes_nothing(
    stored: Map<Seq<char>, Seq<u8>>,
    req: RequestView,
    fault: Fault,
    token: Seq<char>,
)
    ensures
        after_render(req, Err(fault), token) == finished(req, Err(fault)),
        stored_after(stored, after_render(req, Err(fault), token).1) == stored,
{
}

/// Nothing but a rendering is ever published: no report of the host makes a
/// request write, so a request writes at most once, and then its own
/// derivative.
pub proof fn only_a_rendering_is_published(
    stored: Map<Seq<char>, Seq<u8>>,
    req: RequestView,
    event: EventView,
)
    requires
        step_of(req, event) is Some,
    ensures
        !(step_of(req, event).unwrap().1 is Publish),
        stored_after(stored, step_of(req, event).unwrap().1) == stored,
{
}

/// How far a phase is from the start of a request.
pub open spec fn progress(phase: Phase) -> nat {
    match phase {
        Phase::Looking => 0,
        Phase::Loading => 1,
        Phase::Publishing => 2,
        Phase::Finished => 3,
    }
}

/// Every step brings a request nearer to its end, and a request that has
/// ended stays ended: no request asks the host for more than three actions.
pub proof fn every_step_advances(
    req: RequestView,
    event: EventView,
    rendered: Result<Seq<u8>, Fault>,
    token: Seq<char>,
)
    ensures
        step_of(req, event) matches Some(next) ==> (progress(next.0.phase) > progress(req.phase)
            || (req.phase == Phase::Finished && next.0.phase == Phase::Finished)),
        step_of(req, event) is None ==> req.phase == Phase::Loading && progress(
            after_render(req, rendered, token).0.phase,
        ) > progress(req.phase),
        step_of(req, event) matches Some(next) ==> (next.0.phase == Phase::Finished <==> next.1 is Done),
        after_render(req, rendered, token).0.phase == Phase::Finished <==> after_render(
            req,
            rendered,
            token,
        ).1 is Done,
{
}

/// A miss on an original that is an image, at a size that can be encoded,
/// succeeds: the rendering is an encoding of an image of exactly the size
/// asked for, it is published at the derivative's place and nowhere else,
/// and it is what the request returns once it is published.
pub proof fn decodable_original_is_published(
    stored: Map<Seq<char>, Seq<u8>>,
    req: RequestView,
    original: Seq<u8>,
    rendered: Result<Seq<u8>, Fault>,
    token: Seq<char>,
)
    requires
        encodable(req.width, req.height),
        image_sides(original) is Some,
        rendering(original, req.width, req.height, rendered),
    ensures
        rendered is Ok,
        depicts(rendered.unwrap(), req.width, req.height),
        ({
            let (publishing, publish) = after_render(req, rendered, token);
            &&& publish == (ActionView::Publish {
                staging: staging_path_of(token),
                target: req.target(),
                bytes: rendered.unwrap(),
            })
            &&& stored_after(stored, publish) == stored.insert(req.target(), rendered.unwrap())
            &&& step_of(publishing, reply_of(stored, publish)) == Some(
                finished(publishing, Ok(rendered.unwrap())),
            )
        }),
{
}

/// An original that is no image ends the request with `DecodeError`, and
/// nothing is published: what is stored stays as it was.
pub proof fn undecodable_original_is_a_decode_error(
    stored: Map<Seq<char>, Seq<u8>>,
    req: RequestView,
    original: Seq<u8>,
    rendered: Result<Seq<u8>, Fault>,
    token: Seq<char>,
)
    requires
        req.width > 0,
        req.height > 0,
        image_sides(original) is None,
        rendering(original, req.width, req.height, rendered),
    ensures
        rendered == Err::<Seq<u8>, Fault>(Fault::DecodeError),
        after_render(req, rendered, token) == finished(req, Err(Fault::DecodeError)),
        stored_after(stored, after_render(req, rendered, token).1) == stored,
{
}

/// Bytes that are a whole derivative: not empty, and the stored form of an
/// image of some size.
pub open spec fn whole(bytes: Seq<u8>) -> bool {
    bytes.len() > 0 && exists|width: u32, height: u32| #[trigger] depicts(bytes, width, height)
}

/// Whatever is stored at the place of a derivative is a whole derivative.
pub open spec fn derivatives_whole(stored: Map<Seq<char>, Seq<u8>>) -> bool {
    forall|project: Seq<char>, identity: Seq<char>, width: u32, height: u32|
        stored.contains_key(#[trigger] derivative_path_of(project, identity, width, height))
            ==> whole(stored[derivative_path_of(project, identity, width, height)])
}

/// No action of any request, at any point of any other request, puts
/// anything but a whole derivative at the place of a derivative: however
/// the steps of requests for one key or for several follow each other, what
/// is stored there stays whole.
pub proof fn every_action_keeps_derivatives_whole(
    stored: Map<Seq<char>, Seq<u8>>,
    req: RequestView,
    event: EventView,
    original: Seq<u8>,
    rendered: Result<Seq<u8>, Fault>,
    token: Seq<char>,
)
    requires
        derivatives_whole(stored),
        rendering(original, req.width, req.height, rendered),
    ensures
        step_of(req, event) matches Some(next) ==> derivatives_whole(
            stored_after(stored, next.1),
        ),
        derivatives_whole(stored_after(stored, after_render(req, rendered, token).1)),
{
    let after = stored_after(stored, after_render(req, rendered, token).1);
    assert forall|project: Seq<char>, identity: Seq<char>, width: u32, height: u32|
        after.contains_key(
            #[trigger] derivative_path_of(project, identity, width, height),
        ) implies whole(after[derivative_path_of(project, identity, width, height)]) by {
        let path = derivative_path_of(project, identity, width, height);
        if rendered is Ok && path == req.target() {
            assert(depicts(rendered.unwrap(), req.width, req.height));
        } else {
            assert(stored.contains_key(path));
        }
    }
}

/// While what is stored at the places of derivatives is whole, a request
/// that finds its derivative returns a whole one, at whatever point of other
/// requests it looks: never an empty or a cut one.
pub proof fn a_found_derivative_is_whole(
    stored: Map<Seq<char>, Seq<u8>>,
    project: Seq<char>,
    identity: Seq<char>,
    width: u32,
    height: u32,
)
    requires
        derivatives_whole(stored),
        width > 0,
        height > 0,
        stored.contains_key(derivative_path_of(project, identity, width, height)),
    ensures
        ({
            let (req, lookup) = begin_of(project, identity, width, height);
            step_of(req, reply_of(stored, lookup)) matches Some(next) && next.1
                matches ActionView::Done { result: Ok(bytes) } && whole(bytes)
        }),
{
}

} // verus!
