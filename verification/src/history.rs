use vstd::prelude::*;
use vstd::string::*;
use vstd::utf8::{decode_utf8, encode_utf8, valid_utf8};
use crate::cache::{Action, ActionView, Event, EventView};
use crate::codec::outcome_view;
use crate::fault::Fault;
use crate::identity::{fresh_token, is_identity};
use crate::json::{json_list, json_text, parse_list, records, text_of, write_list};
use crate::names::{
    history_path, history_path_of, history_staging_path, history_staging_path_of,
};

verus! {

/// The log that stored bytes stand for. No stored bytes stand for the empty
/// log; bytes that are not UTF-8, or not a JSON array of strings, stand for
/// none.
pub open spec fn stored_log(persisted: Option<Seq<u8>>) -> Result<Seq<Seq<char>>, Fault> {
    match persisted {
        None => Ok(Seq::<Seq<char>>::empty()),
        Some(bytes) => if !valid_utf8(bytes) {
            Err(Fault::DecodeError)
        } else {
            match json_list(decode_utf8(bytes)) {
                Some(list) => Ok(list),
                None => Err(Fault::DecodeError),
            }
        },
    }
}

/// The bytes under which a log is stored: its JSON text in UTF-8.
pub open spec fn log_bytes(list: Seq<Seq<char>>) -> Seq<u8> {
    encode_utf8(json_text(list))
}

/// The bytes to store after `record` is appended to what is stored now.
pub open spec fn appended(persisted: Option<Seq<u8>>, record: Seq<char>) -> Result<
    Seq<u8>,
    Fault,
> {
    match stored_log(persisted) {
        Ok(list) => Ok(log_bytes(list.push(record))),
        Err(e) => Err(e),
    }
}

/// A log after each of `payloads` was appended to it, one after the other.
pub open spec fn log_after(base: Seq<Seq<char>>, payloads: Seq<Seq<char>>) -> Seq<Seq<char>>
    decreases payloads.len(),
{
    if payloads.len() == 0 {
        base
    } else {
        log_after(base.push(payloads[0]), payloads.drop_first())
    }
}

/// What is stored for a project, over plain sequences.
pub open spec fn bytes_view(persisted: Option<Vec<u8>>) -> Option<Seq<u8>> {
    match persisted {
        Some(bytes) => Some(bytes@),
        None => None,
    }
}

/// The outcome of reading a log, over plain sequences.
pub open spec fn log_view(r: Result<Vec<String>, Fault>) -> Result<Seq<Seq<char>>, Fault> {
    match r {
        Ok(log) => Ok(records(log@)),
        Err(e) => Err(e),
    }
}

/// Reads the log of a project from what is stored for it: `None` where
/// nothing was ever stored, which is the empty log. Stored bytes that are not
/// a log give `DecodeError`.
pub fn read(persisted: Option<Vec<u8>>) -> (r: Result<Vec<String>, Fault>)
    ensures
        log_view(r) == stored_log(bytes_view(persisted)),
{
    match persisted {
        None => {
            let log: Vec<String> = Vec::new();
            proof {
                assert(records(log@) =~= Seq::<Seq<char>>::empty());
            }
            Ok(log)
        },
        Some(bytes) => match text_of(bytes) {
            None => Err(Fault::DecodeError),
            Some(text) => match parse_list(text.as_str()) {
                Ok(log) => Ok(log),
                Err(_) => Err(Fault::DecodeError),
            },
        },
    }
}

/// Appends one record at the end of a log.
pub fn extend(log: Vec<String>, record: String) -> (r: Vec<String>)
    ensures
        records(r@) == records(log@).push(record@),
{
    let mut r = log;
    r.push(record);
    proof {
        assert(records(r@) =~= records(log@).push(record@));
    }
    r
}

/// The bytes under which a log is stored. Every log has them.
pub fn store(log: &Vec<String>) -> (r: Result<Vec<u8>, Fault>)
    ensures
        outcome_view(r) == Ok::<Seq<u8>, Fault>(log_bytes(records(log@))),
{
    match write_list(log) {
        Ok(text) => Ok(text.as_str().as_bytes_vec()),
        Err(_) => Err(Fault::StorageError),
    }
}

/// Appends `record` to the log that is stored now and gives the bytes to
/// store in its place. What is stored is never reset: bytes that are not a
/// log give `DecodeError`, and nothing to store.
pub fn append(persisted: Option<Vec<u8>>, record: String) -> (r: Result<Vec<u8>, Fault>)
    ensures
        outcome_view(r) == appended(bytes_view(persisted), record@),
{
    match read(persisted) {
        Err(e) => Err(e),
        Ok(log) => {
            let longer = extend(log, record);
            store(&longer)
        },
    }
}

/// The action that reads the stored log of `project`.
pub fn lookup(project: &str) -> (action: Action)
    ensures
        action@ == (ActionView::Lookup { path: history_path_of(project@) }),
{
    Action::Lookup { path: history_path(project) }
}

/// What a reader gets from the host's report of a lookup.
pub open spec fn read_of(report: EventView) -> Result<Seq<Seq<char>>, Fault> {
    match report {
        EventView::Found { bytes } => stored_log(Some(bytes)),
        EventView::Absent => stored_log(None),
        _ => Err(Fault::StorageError),
    }
}

/// Reads the log from the host's report of a lookup. A log that was never
/// stored is empty; a failed read gives `StorageError`.
pub fn read_report(report: Event) -> (r: Result<Vec<String>, Fault>)
    ensures
        log_view(r) == read_of(report@),
{
    match report {
        Event::Found { bytes } => read(Some(bytes)),
        Event::Absent => read(None),
        _ => Err(Fault::StorageError),
    }
}

/// What an append does after the lookup of the stored log was reported: it
/// publishes the longer log from a staging path named by `token`, or ends
/// with the error.
pub open spec fn append_of(
    project: Seq<char>,
    report: EventView,
    record: Seq<char>,
    token: Seq<char>,
) -> ActionView {
    let next = match report {
        EventView::Found { bytes } => appended(Some(bytes), record),
        EventView::Absent => appended(None, record),
        _ => Err(Fault::StorageError),
    };
    match next {
        Ok(bytes) => ActionView::Publish {
            staging: history_staging_path_of(token),
            target: history_path_of(project),
            bytes,
        },
        Err(e) => ActionView::Done { result: Err(e) },
    }
}

/// Takes the host's report of the lookup and a name for the staging file, and
/// gives the action that completes the append. The caller holds the project's
/// lock from the lookup until the action is carried out.
pub fn append_with(project: &str, report: Event, record: String, token: &str) -> (action: Action)
    ensures
        action@ == append_of(project@, report@, record@, token@),
{
    let next = match report {
        Event::Found { bytes } => append(Some(bytes), record),
        Event::Absent => append(None, record),
        _ => Err(Fault::StorageError),
    };
    match next {
        Ok(bytes) => Action::Publish {
            staging: history_staging_path(token),
            target: history_path(project),
            bytes,
        },
        Err(e) => Action::Done { result: Err(e) },
    }
}

/// As `append_with`, under a staging name drawn at random.
pub fn append_report(project: &str, report: Event, record: String) -> (action: Action)
    ensures
        exists|token: Seq<char>|
            is_identity(token) && action@ == #[trigger] append_of(
                project@,
                report@,
                record@,
                token,
            ),
{
    let token = fresh_token();
    append_with(project, report, record, token.as_str())
}

/// Whether the append was stored, from the host's report of the publishing.
pub fn append_result(report: Event) -> (r: Result<(), Fault>)
    ensures
        r is Ok <==> report@ is Published,
        r is Err ==> r == Err::<(), Fault>(Fault::StorageError),
{
    match report {
        Event::Published => Ok(()),
        _ => Err(Fault::StorageError),
    }
}

/// Appends made one after the other lose nothing: the log keeps what it
/// held, in place, and after it holds every payload, in the order in which
/// they were appended.
pub proof fn serial_appends_lose_nothing(base: Seq<Seq<char>>, payloads: Seq<Seq<char>>)
    ensures
        log_after(base, payloads) == base + payloads,
        forall|i: int|
            0 <= i < payloads.len() ==> log_after(base, payloads).contains(#[trigger] payloads[i]),
    decreases payloads.len(),
{
    if payloads.len() == 0 {
        assert(base + payloads =~= base);
    } else {
        serial_appends_lose_nothing(base.push(payloads[0]), payloads.drop_first());
        assert(base.push(payloads[0]) + payloads.drop_first() =~= base + payloads);
    }
    assert forall|i: int| 0 <= i < payloads.len() implies (base + payloads).contains(
        #[trigger] payloads[i],
    ) by {
        assert((base + payloads)[base.len() + i] == payloads[i]);
    }
}

/// Appends that exclude each other take place in some order, one after the
/// other. Whatever that order is, the log keeps what it held, in place, and
/// after it holds the payloads and nothing else: each as often as it was
/// appended, none lost and none doubled.
pub proof fn appends_in_any_order_lose_nothing(
    base: Seq<Seq<char>>,
    payloads: Seq<Seq<char>>,
    order: Seq<Seq<char>>,
)
    requires
        order.to_multiset() == payloads.to_multiset(),
    ensures
        log_after(base, order).len() == base.len() + payloads.len(),
        log_after(base, order).subrange(0, base.len() as int) == base,
        log_after(base, order).to_multiset() == base.to_multiset().add(payloads.to_multiset()),
        forall|i: int|
            0 <= i < payloads.len() ==> log_after(base, order).contains(#[trigger] payloads[i]),
{
    serial_appends_lose_nothing(base, order);
    vstd::seq_lib::lemma_multiset_commutative(base, order);
    order.to_multiset_ensures();
    payloads.to_multiset_ensures();
    assert((base + order).subrange(0, base.len() as int) =~= base);
    assert forall|i: int| 0 <= i < payloads.len() implies (base + order).contains(
        #[trigger] payloads[i],
    ) by {
        assert(payloads.contains(payloads[i]));
        assert(order.to_multiset().count(payloads[i]) > 0);
        assert(order.contains(payloads[i]));
        let j = choose|j: int| 0 <= j < order.len() && order[j] == payloads[i];
        assert((base + order)[base.len() + j] == payloads[i]);
    }
}

} // verus!
