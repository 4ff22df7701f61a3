//! Laws of the registry, stated and proved over its mathematical model.
//!
//! Each law quantifies over every registry state and input its premises
//! allow; the operations' own contracts tie the model to the executable
//! code.

use vstd::prelude::*;

use crate::pallet::DispatchError;
use crate::pallet::Error;
use crate::pallet::RegistryV;
use crate::pallet::SchemaError;
use crate::streams::BlockNumberOf;
use crate::streams::CordAccountOf;
use crate::streams::HashOf;
use crate::streams::IdOf;
use crate::streams::StatusOf;
use crate::streams::StreamCommitV;
use crate::streams::entries_for;

verus! {

/// A status change repeated with the same value is refused: after an
/// admitted status change, the same request — by any caller — fails with
/// `StatusChangeNotRequired`.
pub proof fn lemma_set_status_idempotent_rejecting(
    s: RegistryV,
    controller: CordAccountOf,
    second_controller: CordAccountOf,
    identifier: IdOf,
    status: StatusOf,
    block: BlockNumberOf,
)
    requires
        s.set_status_err(controller, identifier, status) is None,
    ensures
        s.set_status_post(controller, identifier, status, block).set_status_err(
            second_controller,
            identifier,
            status,
        ) == Some(DispatchError::Stream(Error::StatusChangeNotRequired)),
{
}

/// Authorization is ownership alone: an update by a caller other than the
/// record's controller is never admitted, and once every check ahead of the
/// ownership check passes, it fails precisely with `UnauthorizedOperation`.
pub proof fn lemma_update_authorization(
    s: RegistryV,
    controller: CordAccountOf,
    identifier: IdOf,
    hash: HashOf,
    cid: Option<Seq<u8>>,
    cid_ok: bool,
)
    requires
        s.streams.contains_key(identifier),
        s.streams[identifier].controller != controller,
    ensures
        s.update_err(controller, identifier, hash, cid, cid_ok) is Some,
        (hash != identifier && !(cid is Some && s.streams[identifier].cid == cid) && (cid is Some
            ==> cid_ok) && !s.streams[identifier].revoked) ==> s.update_err(
            controller,
            identifier,
            hash,
            cid,
            cid_ok,
        ) == Some(DispatchError::Stream(Error::UnauthorizedOperation)),
{
}

/// Authorization is ownership alone: a status change by a caller other than
/// the record's controller is never admitted, and once the record exists
/// and the requested status differs from the current one, it fails
/// precisely with `UnauthorizedOperation`.
pub proof fn lemma_set_status_authorization(
    s: RegistryV,
    controller: CordAccountOf,
    identifier: IdOf,
    status: StatusOf,
)
    requires
        s.streams.contains_key(identifier),
        s.streams[identifier].controller != controller,
    ensures
        s.set_status_err(controller, identifier, status) is Some,
        s.streams[identifier].revoked != status ==> s.set_status_err(
            controller,
            identifier,
            status,
        ) == Some(DispatchError::Stream(Error::UnauthorizedOperation)),
{
}

/// A link against a revoked target is always refused: a create whose link
/// names a revoked record fails with `StreamLinkRevoked` once the checks
/// made ahead of the link check pass; the operation's contract adds that a
/// refused create leaves every store unchanged.
pub proof fn lemma_create_link_revoked_rejected(
    s: RegistryV,
    identifier: IdOf,
    hash: HashOf,
    cid: Option<Seq<u8>>,
    cid_ok: bool,
    schema: Option<IdOf>,
    schema_check: Result<(), SchemaError>,
    target: IdOf,
)
    requires
        s.streams.contains_key(target),
        s.streams[target].revoked,
        hash != identifier,
        cid is Some ==> cid_ok,
        !s.streams.contains_key(identifier),
        schema is Some ==> schema_check is Ok,
    ensures
        s.create_err(identifier, hash, cid, cid_ok, schema, schema_check, Some(target)) == Some(
            DispatchError::Stream(Error::StreamLinkRevoked),
        ),
{
}

/// The entries one key selects from a sequence-ordered log are themselves
/// ordered, and bounded by the log's last sequence number.
proof fn lemma_entries_ordered(log: Seq<(IdOf, StreamCommitV)>, identifier: IdOf)
    requires
        forall|i: int, j: int|
            0 <= i <= j < log.len() ==> (#[trigger] log[i]).1.block <= (#[trigger] log[j]).1.block,
    ensures
        forall|i: int, j: int|
            0 <= i <= j < entries_for(log, identifier).len() ==> (#[trigger] entries_for(
                log,
                identifier,
            )[i]).block <= (#[trigger] entries_for(log, identifier)[j]).block,
        entries_for(log, identifier).len() > 0 ==> log.len() > 0 && entries_for(
            log,
            identifier,
        ).last().block <= log.last().1.block,
    decreases log.len(),
{
    if log.len() > 0 {
        let shorter = log.drop_last();
        assert forall|i: int, j: int|
            0 <= i <= j < shorter.len() implies (#[trigger] shorter[i]).1.block
            <= (#[trigger] shorter[j]).1.block by {
            assert((log[i]).1.block <= (log[j]).1.block);
        }
        lemma_entries_ordered(shorter, identifier);
        if shorter.len() > 0 {
            assert((log[log.len() - 2]).1.block <= (log[log.len() - 1]).1.block);
        }
    }
}

/// The history of every record is ordered by sequence number: commits are
/// never reordered, and a later mutation never carries an earlier sequence.
pub proof fn lemma_history_ordered(s: RegistryV, identifier: IdOf)
    requires
        s.wf(),
    ensures
        forall|i: int, j: int|
            0 <= i <= j < s.history(identifier).len() ==> (#[trigger] s.history(
                identifier,
            )[i]).block <= (#[trigger] s.history(identifier)[j]).block,
{
    lemma_entries_ordered(s.commits, identifier);
}

} // verus!
