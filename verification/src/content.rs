use vstd::prelude::*;
use crate::cache::{copy_bytes, Action, ActionView, Event, EventView};
use crate::codec::outcome_view;
use crate::fault::Fault;
use crate::identity::{fresh_token, is_identity};
use crate::model::reply_of;
use crate::names::{original_path, original_path_of};

verus! {

/// One original on its way into the store: the identity it was given, the
/// path to write it to, and its bytes. The host writes the bytes in full,
/// flushes them, and only then reports the upload as stored.
#[derive(Debug, PartialEq, Eq)]
pub struct Upload {
    pub identity: String,
    pub path: String,
    pub bytes: Vec<u8>,
}

/// The upload of `blob` into `project` under `identity`.
pub open spec fn placed(project: Seq<char>, identity: Seq<char>, blob: Seq<u8>, upload: Upload)
    -> bool {
    &&& upload.identity@ == identity
    &&& upload.path@ == original_path_of(project, identity)
    &&& upload.bytes@ == blob
}

/// Places an original under an identity that was chosen for it.
pub fn place(project: &str, identity: String, bytes: Vec<u8>) -> (r: Upload)
    ensures
        placed(project@, identity@, bytes@, r),
{
    let path = original_path(project, identity.as_str());
    Upload { identity, path, bytes }
}

/// Gives an original a fresh identity and places it under it. The bytes are
/// stored as they came.
pub fn put(project: &str, bytes: Vec<u8>) -> (r: Upload)
    ensures
        is_identity(r.identity@),
        placed(project@, r.identity@, bytes@, r),
{
    let identity = fresh_token();
    place(project, identity, bytes)
}

/// Places each blob of an upload, in the order in which they came, each under
/// a fresh identity of its own.
pub fn ingest(project: &str, blobs: &Vec<Vec<u8>>) -> (r: Vec<Upload>)
    ensures
        r@.len() == blobs@.len(),
        forall|i: int|
            0 <= i < blobs@.len() ==> is_identity((#[trigger] r@[i]).identity@) && placed(
                project@,
                r@[i].identity@,
                blobs@[i]@,
                r@[i],
            ),
{
    let mut r: Vec<Upload> = Vec::new();
    let mut i: usize = 0;
    while i < blobs.len()
        invariant
            i <= blobs@.len(),
            r@.len() == i,
            forall|k: int|
                0 <= k < i ==> is_identity((#[trigger] r@[k]).identity@) && placed(
                    project@,
                    r@[k].identity@,
                    blobs@[k]@,
                    r@[k],
                ),
        decreases blobs@.len() - i,
    {
        let upload = put(project, copy_bytes(&blobs[i]));
        r.push(upload);
        i += 1;
    }
    r
}

/// Whether every upload of a batch was stored: as many reports as uploads,
/// each of them `Published`.
pub open spec fn all_stored(uploads: Seq<Upload>, reports: Seq<Event>) -> bool {
    reports.len() == uploads.len() && forall|i: int|
        0 <= i < reports.len() ==> (#[trigger] reports[i])@ is Published
}

/// The identities of a batch, in order.
pub open spec fn identities(uploads: Seq<Upload>) -> Seq<Seq<char>> {
    uploads.map_values(|u: Upload| u.identity@)
}

/// The result of an upload, from the host's reports of its writes, one for
/// each upload and in the same order. The upload counts as a whole: the
/// identities are handed out, in order, only where every write was stored;
/// otherwise it fails with `StorageError` and no identity is to be relied on.
pub fn ingested(uploads: &Vec<Upload>, reports: &Vec<Event>) -> (r: Result<Vec<String>, Fault>)
    ensures
        r is Ok <==> all_stored(uploads@, reports@),
        r matches Ok(ids) ==> ids@.map_values(|s: String| s@) == identities(uploads@),
        r matches Err(e) ==> e == Fault::StorageError,
{
    if reports.len() != uploads.len() {
        return Err(Fault::StorageError);
    }
    let mut ids: Vec<String> = Vec::new();
    let mut i: usize = 0;
    while i < uploads.len()
        invariant
            reports@.len() == uploads@.len(),
            i <= uploads@.len(),
            ids@.len() == i,
            forall|k: int| 0 <= k < i ==> (#[trigger] reports@[k])@ is Published,
            forall|k: int| 0 <= k < i ==> (#[trigger] ids@[k])@ == uploads@[k].identity@,
        decreases uploads@.len() - i,
    {
        match reports[i] {
            Event::Published => {},
            _ => {
                return Err(Fault::StorageError);
            },
        }
        ids.push(uploads[i].identity.clone());
        i += 1;
    }
    proof {
        assert(ids@.map_values(|s: String| s@) =~= identities(uploads@));
    }
    Ok(ids)
}

/// The action that reads the original of `identity` in `project`.
pub fn get(project: &str, identity: &str) -> (action: Action)
    ensures
        action@ == (ActionView::LoadOriginal { path: original_path_of(project@, identity@) }),
{
    Action::LoadOriginal { path: original_path(project, identity) }
}

/// What a reader of an original gets from the host's report.
pub open spec fn fetched_of(report: EventView) -> Result<Seq<u8>, Fault> {
    match report {
        EventView::Found { bytes } => Ok(bytes),
        EventView::Absent => Err(Fault::NotFound),
        _ => Err(Fault::StorageError),
    }
}

/// The bytes of an original from the host's report of the read: the stored
/// bytes as they are, `NotFound` where nothing is stored, `StorageError`
/// where the read failed.
pub fn fetched(report: Event) -> (r: Result<Vec<u8>, Fault>)
    ensures
        outcome_view(r) == fetched_of(report@),
{
    match report {
        Event::Found { bytes } => Ok(bytes),
        Event::Absent => Err(Fault::NotFound),
        _ => Err(Fault::StorageError),
    }
}

/// An original that was stored is read back byte for byte: once an upload
/// placed for (`project`, `identity`) is written, reading that identity in
/// that project gives the uploaded bytes.
pub proof fn stored_original_is_read_back(
    stored: Map<Seq<char>, Seq<u8>>,
    project: Seq<char>,
    identity: Seq<char>,
    blob: Seq<u8>,
    upload: Upload,
)
    requires
        placed(project, identity, blob, upload),
    ensures
        fetched_of(
            reply_of(
                stored.insert(upload.path@, upload.bytes@),
                ActionView::LoadOriginal { path: original_path_of(project, identity) },
            ),
        ) == Ok::<Seq<u8>, Fault>(blob),
{
}

} // verus!
