//! The registry state machine: the four stores — record store, commit log,
//! link table and hash index — and the three operations that mutate them.

use vstd::prelude::*;

use crate::streams::BlockNumberOf;
use crate::streams::CordAccountOf;
use crate::streams::HashOf;
use crate::streams::IdOf;
use crate::streams::IdentifierOf;
use crate::streams::StatusOf;
use crate::streams::StreamCommit;
use crate::streams::StreamCommitOf;
use crate::streams::StreamCommitV;
use crate::streams::StreamDetails;
use crate::streams::StreamDetailsV;
use crate::streams::StreamLink;
use crate::streams::cid_clone;
use crate::streams::cid_eq;
use crate::streams::cid_value;
use crate::streams::entries_for;
use crate::streams::lemma_entries_for_push;
use std::collections::HashMap;

verus! {

broadcast use {vstd::std_specs::hash::group_hash_axioms, lemma_entries_for_push};

/// Failure of one registry operation.
#[derive(Clone, Copy, PartialEq, Eq, Structural, Debug)]
pub enum Error {
    /// Invalid request.
    InvalidRequest,
    /// Hash and identifier are the same.
    SameIdentifierAndHash,
    /// The identifier is already anchored.
    StreamAlreadyAnchored,
    /// The identifier was not found.
    StreamNotFound,
    /// The record is marked inactive.
    StreamRevoked,
    /// The locator encoding is invalid.
    InvalidCidEncoding,
    /// The locator equals the record's current locator.
    CidAlreadyAnchored,
    /// The requested status equals the current one.
    StatusChangeNotRequired,
    /// The caller is not the controller of the record.
    UnauthorizedOperation,
    /// The link target does not exist.
    StreamLinkNotFound,
    /// The link target is revoked.
    StreamLinkRevoked,
}

/// Verdict of the external schema validator, surfaced unmodified.
#[derive(Clone, Copy, PartialEq, Eq, Structural, Debug)]
pub struct SchemaError {
    pub code: u64,
}

/// What an operation reports to its caller on failure: either one of the
/// registry's own errors, or a delegated schema-validator error.
#[derive(Clone, Copy, PartialEq, Eq, Structural, Debug)]
pub enum DispatchError {
    Stream(Error),
    Schema(SchemaError),
}

/// Notification of a completed operation, handed back to the host for the
/// notification sink.
#[derive(Clone, Copy, PartialEq, Eq, Structural, Debug)]
pub enum Event {
    /// A record was created: identifier, hash, controller.
    TxAdd(IdOf, HashOf, CordAccountOf),
    /// A record was updated: identifier, hash, controller.
    TxUpdate(IdOf, HashOf, CordAccountOf),
    /// A record's status changed: identifier, controller.
    TxStatus(IdOf, CordAccountOf),
}

/// Mathematical value of the whole registry: the four stores.
#[verifier::ext_equal]
pub struct RegistryV {
    /// Record store: identifier to the record's current state.
    pub streams: Map<IdOf, StreamDetailsV>,
    /// Commit log: every history entry, in the order it was appended.
    pub commits: Seq<(IdOf, StreamCommitV)>,
    /// Link table: every declared link, keyed by the target record.
    pub links: Seq<(IdOf, StreamLink)>,
    /// Hash index: content hash to the record that last anchored it.
    pub hashes: Map<HashOf, IdOf>,
}

impl RegistryV {
    /// History of one record: its commits, oldest first.
    pub open spec fn history(self, identifier: IdOf) -> Seq<StreamCommitV> {
        entries_for(self.commits, identifier)
    }

    /// Links declared against one target record, oldest first.
    pub open spec fn links_of(self, identifier: IdOf) -> Seq<StreamLink> {
        entries_for(self.links, identifier)
    }

    /// Sequence number of the newest commit, or 0 when there is none.
    pub open spec fn last_block(self) -> BlockNumberOf {
        if self.commits.len() == 0 {
            0
        } else {
            self.commits.last().1.block
        }
    }

    /// The error a create with these inputs is refused with, following the
    /// order in which the checks are made, or `None` when it is admitted.
    ///
    /// `cid_ok` is the verdict of the external locator validator on `cid`,
    /// and `schema_check` the verdict of the external schema validator on
    /// `schema` and the caller's controller; each is consulted only when the
    /// input it judges was given.
    pub open spec fn create_err(
        self,
        identifier: IdOf,
        hash: HashOf,
        cid: Option<Seq<u8>>,
        cid_ok: bool,
        schema: Option<IdOf>,
        schema_check: Result<(), SchemaError>,
        link: Option<IdOf>,
    ) -> Option<DispatchError> {
        if hash == identifier {
            Some(DispatchError::Stream(Error::SameIdentifierAndHash))
        } else if cid is Some && !cid_ok {
            Some(DispatchError::Stream(Error::InvalidCidEncoding))
        } else if self.streams.contains_key(identifier) {
            Some(DispatchError::Stream(Error::StreamAlreadyAnchored))
        } else if schema is Some && schema_check is Err {
            Some(DispatchError::Schema(schema_check->Err_0))
        } else if link is Some && !self.streams.contains_key(link->0) {
            Some(DispatchError::Stream(Error::StreamLinkNotFound))
        } else if link is Some && self.streams[link->0].revoked {
            Some(DispatchError::Stream(Error::StreamLinkRevoked))
        } else {
            None
        }
    }

    /// The registry after an admitted create: the new record enters the
    /// record store unrevoked, a `Genesis` commit is appended, the hash is
    /// indexed, and a link entry is declared under the target when a link
    /// was given.
    pub open spec fn create_post(
        self,
        controller: CordAccountOf,
        identifier: IdOf,
        hash: HashOf,
        cid: Option<Seq<u8>>,
        schema: Option<IdOf>,
        link: Option<IdOf>,
        block: BlockNumberOf,
    ) -> RegistryV {
        RegistryV {
            streams: self.streams.insert(
                identifier,
                (StreamDetailsV {
                    hash,
                    cid,
                    parent_cid: None,
                    schema,
                    link,
                    controller,
                    block,
                    revoked: false,
                }),
            ),
            commits: self.commits.push(
                (identifier, (StreamCommitV { hash, cid, block, commit: StreamCommitOf::Genesis })),
            ),
            links: (match link {
                Some(l) => self.links.push((l, (StreamLink { identifier, controller }))),
                None => self.links,
            }),
            hashes: self.hashes.insert(hash, identifier),
        }
    }

    /// The error an update with these inputs is refused with, following the
    /// order in which the checks are made, or `None` when it is admitted.
    ///
    /// `cid_ok` is the verdict of the external locator validator on `cid`,
    /// consulted only when a locator was given.
    pub open spec fn update_err(
        self,
        controller: CordAccountOf,
        identifier: IdOf,
        hash: HashOf,
        cid: Option<Seq<u8>>,
        cid_ok: bool,
    ) -> Option<DispatchError> {
        if hash == identifier {
            Some(DispatchError::Stream(Error::SameIdentifierAndHash))
        } else if !self.streams.contains_key(identifier) {
            Some(DispatchError::Stream(Error::StreamNotFound))
        } else if cid is Some && self.streams[identifier].cid == cid {
            Some(DispatchError::Stream(Error::CidAlreadyAnchored))
        } else if cid is Some && !cid_ok {
            Some(DispatchError::Stream(Error::InvalidCidEncoding))
        } else if self.streams[identifier].revoked {
            Some(DispatchError::Stream(Error::StreamRevoked))
        } else if self.streams[identifier].controller != controller {
            Some(DispatchError::Stream(Error::UnauthorizedOperation))
        } else {
            None
        }
    }

    /// The registry after an admitted update: the record carries the new
    /// hash and locator, its previous locator becomes `parent_cid`, the
    /// updater becomes its controller, an `Update` commit is appended and
    /// the new hash is indexed; schema, link and status are preserved.
    pub open spec fn update_post(
        self,
        controller: CordAccountOf,
        identifier: IdOf,
        hash: HashOf,
        cid: Option<Seq<u8>>,
        block: BlockNumberOf,
    ) -> RegistryV {
        RegistryV {
            streams: self.streams.insert(
                identifier,
                (StreamDetailsV {
                    hash,
                    cid,
                    parent_cid: self.streams[identifier].cid,
                    schema: self.streams[identifier].schema,
                    link: self.streams[identifier].link,
                    controller,
                    block,
                    revoked: self.streams[identifier].revoked,
                }),
            ),
            commits: self.commits.push(
                (identifier, (StreamCommitV { hash, cid, block, commit: StreamCommitOf::Update })),
            ),
            links: self.links,
            hashes: self.hashes.insert(hash, identifier),
        }
    }

    /// The error a status change with these inputs is refused with,
    /// following the order in which the checks are made, or `None` when it
    /// is admitted.
    pub open spec fn set_status_err(
        self,
        controller: CordAccountOf,
        identifier: IdOf,
        status: StatusOf,
    ) -> Option<DispatchError> {
        if !self.streams.contains_key(identifier) {
            Some(DispatchError::Stream(Error::StreamNotFound))
        } else if self.streams[identifier].revoked == status {
            Some(DispatchError::Stream(Error::StatusChangeNotRequired))
        } else if self.streams[identifier].controller != controller {
            Some(DispatchError::Stream(Error::UnauthorizedOperation))
        } else {
            None
        }
    }

    /// The registry after an admitted status change: the record's `revoked`
    /// flag flips in place and its sequence number is bumped, a
    /// `StatusChange` commit reusing the record's current hash and locator
    /// is appended; every other field, the hash index and the link table are
    /// untouched.
    pub open spec fn set_status_post(
        self,
        controller: CordAccountOf,
        identifier: IdOf,
        status: StatusOf,
        block: BlockNumberOf,
    ) -> RegistryV {
        RegistryV {
            streams: self.streams.insert(
                identifier,
                (StreamDetailsV {
                    hash: self.streams[identifier].hash,
                    cid: self.streams[identifier].cid,
                    parent_cid: self.streams[identifier].parent_cid,
                    schema: self.streams[identifier].schema,
                    link: self.streams[identifier].link,
                    controller: self.streams[identifier].controller,
                    block,
                    revoked: status,
                }),
            ),
            commits: self.commits.push(
                (
                    identifier,
                    (StreamCommitV {
                        hash: self.streams[identifier].hash,
                        cid: self.streams[identifier].cid,
                        block,
                        commit: StreamCommitOf::StatusChange,
                    }),
                ),
            ),
            links: self.links,
            hashes: self.hashes,
        }
    }

    /// The registry's invariants.
    ///
    /// A stored record's hash never equals its identifier; a record exists
    /// exactly when it has history; every history starts with `Genesis` and
    /// holds `Genesis` nowhere else; the commit log is ordered by sequence
    /// number; and every link was declared against an existing record.
    pub open spec fn wf(self) -> bool {
        &&& forall|identifier: IdOf|
            self.streams.contains_key(identifier) ==> (#[trigger] self.streams[identifier]).hash
                != identifier
        &&& forall|identifier: IdOf|
            #![trigger self.streams.contains_key(identifier)]
            #![trigger self.history(identifier)]
            self.streams.contains_key(identifier) <==> self.history(identifier).len() > 0
        &&& forall|identifier: IdOf|
            #[trigger] self.history(identifier).len() > 0 ==> self.history(identifier)[0].commit
                == StreamCommitOf::Genesis
        &&& forall|identifier: IdOf, i: int|
            0 < i < self.history(identifier).len() ==> (#[trigger] self.history(
                identifier,
            )[i]).commit != StreamCommitOf::Genesis
        &&& forall|i: int, j: int|
            0 <= i <= j < self.commits.len() ==> (#[trigger] self.commits[i]).1.block
                <= (#[trigger] self.commits[j]).1.block
        &&& forall|i: int|
            0 <= i < self.links.len() ==> self.streams.contains_key(
                (#[trigger] self.links[i]).0,
            )
    }
}

/// Invariants are preserved when a fresh record enters the store together
/// with its `Genesis` commit and, when a link was given, one link entry
/// under an existing target; the new record's history is that one commit.
proof fn lemma_wf_after_create(
    pre: RegistryV,
    post: RegistryV,
    identifier: IdOf,
    d: StreamDetailsV,
    c: StreamCommitV,
    link: Option<IdOf>,
    le: StreamLink,
    block: BlockNumberOf,
)
    requires
        pre.wf(),
        !pre.streams.contains_key(identifier),
        d.hash != identifier,
        c.commit == StreamCommitOf::Genesis,
        c.block == block,
        block >= pre.last_block(),
        link is Some ==> pre.streams.contains_key(link->0),
        post.streams == pre.streams.insert(identifier, d),
        post.commits == pre.commits.push((identifier, c)),
        post.links == (match link {
            Some(l) => pre.links.push((l, le)),
            None => pre.links,
        }),
    ensures
        post.wf(),
        post.history(identifier) == seq![c],
{
    assert(pre.history(identifier).len() == 0);
    assert(post.history(identifier) =~= seq![c]) by {
        assert(post.history(identifier) == entries_for(pre.commits.push((identifier, c)), identifier));
    }
    assert forall|id: IdOf|
        post.streams.contains_key(id) ==> (#[trigger] post.streams[id]).hash != id by {
        if post.streams.contains_key(id) && id != identifier {
            assert(pre.streams[id].hash != id);
        }
    }
    assert forall|id: IdOf|
        post.streams.contains_key(id) <==> #[trigger] post.history(id).len() > 0 by {
        assert(post.history(id) == entries_for(pre.commits.push((identifier, c)), id));
        if id != identifier {
            assert(post.history(id) == pre.history(id));
            assert(pre.streams.contains_key(id) <==> pre.history(id).len() > 0);
        }
    }
    assert forall|id: IdOf|
        #[trigger] post.history(id).len() > 0 implies post.history(id)[0].commit
        == StreamCommitOf::Genesis by {
        assert(post.history(id) == entries_for(pre.commits.push((identifier, c)), id));
        if id != identifier && pre.history(id).len() > 0 {
            assert(pre.history(id)[0].commit == StreamCommitOf::Genesis);
        }
    }
    assert forall|id: IdOf, i: int|
        0 < i < post.history(id).len() implies (#[trigger] post.history(id)[i]).commit
        != StreamCommitOf::Genesis by {
        assert(post.history(id) == entries_for(pre.commits.push((identifier, c)), id));
        if id != identifier {
            if 0 < i < pre.history(id).len() {
                assert(pre.history(id)[i].commit != StreamCommitOf::Genesis);
            }
        } else {
            if 0 < i < pre.history(id).len() {
                assert(pre.history(id)[i].commit != StreamCommitOf::Genesis);
            }
            if pre.history(id).len() > 0 {
                assert(pre.streams.contains_key(id));
            }
        }
    }
    assert forall|i: int, j: int|
        0 <= i <= j < post.commits.len() implies (#[trigger] post.commits[i]).1.block
        <= (#[trigger] post.commits[j]).1.block by {
        if j < pre.commits.len() {
            assert((pre.commits[i]).1.block <= (pre.commits[j]).1.block);
        } else if i < pre.commits.len() {
            assert((pre.commits[i]).1.block <= (pre.commits[pre.commits.len() - 1]).1.block);
        }
    }
    assert forall|i: int|
        0 <= i < post.links.len() implies post.streams.contains_key(
        (#[trigger] post.links[i]).0,
    ) by {
        if i < pre.links.len() {
            assert(pre.streams.contains_key((pre.links[i]).0));
        }
    }
}

/// Invariants are preserved when an existing record is replaced in the store
/// and a commit other than `Genesis` is appended for it, links untouched;
/// the record's history is extended by exactly that commit.
proof fn lemma_wf_after_touch(
    pre: RegistryV,
    post: RegistryV,
    identifier: IdOf,
    d: StreamDetailsV,
    c: StreamCommitV,
    block: BlockNumberOf,
)
    requires
        pre.wf(),
        pre.streams.contains_key(identifier),
        d.hash != identifier,
        c.commit != StreamCommitOf::Genesis,
        c.block == block,
        block >= pre.last_block(),
        post.streams == pre.streams.insert(identifier, d),
        post.commits == pre.commits.push((identifier, c)),
        post.links == pre.links,
    ensures
        post.wf(),
        post.history(identifier) == pre.history(identifier).push(c),
{
    assert(post.history(identifier) == entries_for(pre.commits.push((identifier, c)), identifier));
    assert forall|id: IdOf|
        post.streams.contains_key(id) ==> (#[trigger] post.streams[id]).hash != id by {
        if post.streams.contains_key(id) && id != identifier {
            assert(pre.streams[id].hash != id);
        }
    }
    assert forall|id: IdOf|
        post.streams.contains_key(id) <==> #[trigger] post.history(id).len() > 0 by {
        assert(post.history(id) == entries_for(pre.commits.push((identifier, c)), id));
        assert(pre.streams.contains_key(id) <==> pre.history(id).len() > 0);
    }
    assert forall|id: IdOf|
        #[trigger] post.history(id).len() > 0 implies post.history(id)[0].commit
        == StreamCommitOf::Genesis by {
        assert(post.history(id) == entries_for(pre.commits.push((identifier, c)), id));
        if id == identifier {
            assert(pre.history(id).len() > 0);
            assert(pre.history(id)[0].commit == StreamCommitOf::Genesis);
        } else if pre.history(id).len() > 0 {
            assert(pre.history(id)[0].commit == StreamCommitOf::Genesis);
        }
    }
    assert forall|id: IdOf, i: int|
        0 < i < post.history(id).len() implies (#[trigger] post.history(id)[i]).commit
        != StreamCommitOf::Genesis by {
        assert(post.history(id) == entries_for(pre.commits.push((identifier, c)), id));
        if 0 < i < pre.history(id).len() {
            assert(pre.history(id)[i].commit != StreamCommitOf::Genesis);
        }
    }
    assert forall|i: int, j: int|
        0 <= i <= j < post.commits.len() implies (#[trigger] post.commits[i]).1.block
        <= (#[trigger] post.commits[j]).1.block by {
        if j < pre.commits.len() {
            assert((pre.commits[i]).1.block <= (pre.commits[j]).1.block);
        } else if i < pre.commits.len() {
            assert((pre.commits[i]).1.block <= (pre.commits[pre.commits.len() - 1]).1.block);
        }
    }
    assert forall|i: int|
        0 <= i < post.links.len() implies post.streams.contains_key(
        (#[trigger] post.links[i]).0,
    ) by {
        assert(pre.streams.contains_key((pre.links[i]).0));
    }
}

/// The registry: orchestrates create, update and status changes against the
/// record store, commit log, link table and hash index, which it exclusively
/// owns.
pub struct Pallet {
    streams: HashMap<IdOf, StreamDetails>,
    commits: Vec<(IdOf, StreamCommit)>,
    links: Vec<(IdOf, StreamLink)>,
    hashes: HashMap<HashOf, IdOf>,
}

impl View for Pallet {
    type V = RegistryV;

    closed spec fn view(&self) -> RegistryV {
        RegistryV {
            streams: self.streams@.map_values(|d: StreamDetails| d@),
            commits: self.commits@.map_values(|p: (IdOf, StreamCommit)| (p.0, p.1@)),
            links: self.links@,
            hashes: self.hashes@,
        }
    }
}

impl Pallet {
    /// An empty registry: no records, no history, no links, no hashes.
    pub fn new() -> (r: Pallet)
        ensures
            r@.streams == Map::<IdOf, StreamDetailsV>::empty(),
            r@.commits == Seq::<(IdOf, StreamCommitV)>::empty(),
            r@.links == Seq::<(IdOf, StreamLink)>::empty(),
            r@.hashes == Map::<HashOf, IdOf>::empty(),
            r@.wf(),
            r@.last_block() == 0,
    {
        let r = Pallet {
            streams: HashMap::new(),
            commits: Vec::new(),
            links: Vec::new(),
            hashes: HashMap::new(),
        };
        proof {
            assert(r@.streams =~= Map::<IdOf, StreamDetailsV>::empty());
            assert(r@.commits =~= Seq::<(IdOf, StreamCommitV)>::empty());
            assert forall|identifier: IdOf| #[trigger]
                r@.history(identifier).len() == 0 by {
                assert(r@.commits.len() == 0);
            }
        }
        r
    }

    /// Current state of one record, or `None` when the identifier is not
    /// anchored.
    pub fn streams(&self, identifier: IdOf) -> (r: Option<&StreamDetails>)
        ensures
            match r {
                Some(d) => self@.streams.contains_key(identifier) && d@ == self@.streams[identifier],
                None => !self@.streams.contains_key(identifier),
            },
    {
        self.streams.get(&identifier)
    }

    /// Record that currently anchors a content hash, or `None` when the hash
    /// was never anchored.
    pub fn lookup(&self, hash: HashOf) -> (r: Option<IdOf>)
        ensures
            match r {
                Some(identifier) => self@.hashes.contains_key(hash) && self@.hashes[hash]
                    == identifier,
                None => !self@.hashes.contains_key(hash),
            },
    {
        match self.hashes.get(&hash) {
            Some(v) => Some(*v),
            None => None,
        }
    }

    /// History of one record: its commits, oldest first.
    pub fn history(&self, identifier: IdOf) -> (r: Vec<StreamCommit>)
        ensures
            r@.map_values(|c: StreamCommit| c@) == self@.history(identifier),
    {
        let mut out: Vec<StreamCommit> = Vec::new();
        let mut i: usize = 0;
        while i < self.commits.len()
            invariant
                i <= self.commits.len(),
                out@.map_values(|c: StreamCommit| c@) =~= entries_for(
                    self@.commits.take(i as int),
                    identifier,
                ),
            decreases self.commits.len() - i,
        {
            let pair: &(IdOf, StreamCommit) = &self.commits[i];
            if pair.0 == identifier {
                out.push(pair.1.duplicate());
            }
            i += 1;
            proof {
                assert(self@.commits.take(i as int) =~= self@.commits.take(i - 1).push(
                    self@.commits[i - 1],
                ));
            }
        }
        proof {
            assert(self@.commits.take(self.commits@.len() as int) =~= self@.commits);
        }
        out
    }

    /// Links declared against one target record, oldest first.
    pub fn links_of(&self, identifier: IdOf) -> (r: Vec<StreamLink>)
        ensures
            r@ == self@.links_of(identifier),
    {
        let mut out: Vec<StreamLink> = Vec::new();
        let mut i: usize = 0;
        while i < self.links.len()
            invariant
                i <= self.links.len(),
                out@ =~= entries_for(self@.links.take(i as int), identifier),
            decreases self.links.len() - i,
        {
            let pair: &(IdOf, StreamLink) = &self.links[i];
            if pair.0 == identifier {
                out.push(pair.1);
            }
            i += 1;
            proof {
                assert(self@.links.take(i as int) =~= self@.links.take(i - 1).push(
                    self@.links[i - 1],
                ));
            }
        }
        proof {
            assert(self@.links.take(self.links@.len() as int) =~= self@.links);
        }
        out
    }

    /// Create a new record and associate it with its controller.
    ///
    /// `controller` is the caller's identity as resolved by the external
    /// authorization collaborator, `cid_ok` the verdict of the external
    /// locator validator on `cid`, `schema_check` the verdict of the
    /// external schema validator on `schema` and `controller`, and `block`
    /// the current ledger sequence number. The hash must differ from the
    /// identifier, a given locator must pass validation, the identifier
    /// must not be anchored yet, a given schema must pass validation, and a
    /// given link must name an existing, unrevoked record — each failure
    /// reported in that order. On success the record enters the store
    /// unrevoked, its history is exactly one `Genesis` commit carrying the
    /// created hash, the hash is indexed, a link entry is declared under
    /// the target when a link was given, and the returned notification is
    /// handed to the host's sink; on failure nothing changes.
    pub fn create(
        &mut self,
        controller: CordAccountOf,
        identifier: IdOf,
        hash: HashOf,
        cid: Option<IdentifierOf>,
        cid_ok: bool,
        schema: Option<IdOf>,
        schema_check: Result<(), SchemaError>,
        link: Option<IdOf>,
        block: BlockNumberOf,
    ) -> (r: Result<Event, DispatchError>)
        requires
            old(self)@.wf(),
            block >= old(self)@.last_block(),
        ensures
            final(self)@.wf(),
            match old(self)@.create_err(
                identifier,
                hash,
                cid_value(cid),
                cid_ok,
                schema,
                schema_check,
                link,
            ) {
                Some(e) => r == Err::<Event, DispatchError>(e) && final(self)@ == old(self)@,
                None => ({
                    &&& r == Ok::<Event, DispatchError>(Event::TxAdd(identifier, hash, controller))
                    &&& final(self)@ == old(self)@.create_post(
                        controller,
                        identifier,
                        hash,
                        cid_value(cid),
                        schema,
                        link,
                        block,
                    )
                    &&& final(self)@.history(identifier) == seq![
                        (StreamCommitV {
                            hash,
                            cid: cid_value(cid),
                            block,
                            commit: StreamCommitOf::Genesis,
                        }),
                    ]
                }),
            },
    {
        if hash == identifier {
            return Err(DispatchError::Stream(Error::SameIdentifierAndHash));
        }
        if cid.is_some() && !cid_ok {
            return Err(DispatchError::Stream(Error::InvalidCidEncoding));
        }
        if self.streams.contains_key(&identifier) {
            return Err(DispatchError::Stream(Error::StreamAlreadyAnchored));
        }
        if schema.is_some() {
            if let Err(e) = schema_check {
                return Err(DispatchError::Schema(e));
            }
        }
        let ghost pre = self@;
        if let Some(l) = link {
            match self.streams.get(&l) {
                None => {
                    return Err(DispatchError::Stream(Error::StreamLinkNotFound));
                },
                Some(target) => {
                    if target.revoked {
                        return Err(DispatchError::Stream(Error::StreamLinkRevoked));
                    }
                },
            }
            self.links.push((l, StreamLink { identifier, controller }));
        }
        let entry = StreamCommit {
            hash,
            cid: cid_clone(&cid),
            block,
            commit: StreamCommitOf::Genesis,
        };
        self.commits.push((identifier, entry));
        self.hashes.insert(hash, identifier);
        let details = StreamDetails {
            hash,
            cid,
            parent_cid: None,
            schema,
            link,
            controller,
            block,
            revoked: false,
        };
        self.streams.insert(identifier, details);
        proof {
            let cv = cid_value(details.cid);
            let post = pre.create_post(controller, identifier, hash, cv, schema, link, block);
            assert(self@.streams =~= pre.streams.insert(identifier, details@));
            assert(self@.commits =~= pre.commits.push((identifier, entry@)));
            assert(self@ =~= post);
            lemma_wf_after_create(
                pre,
                post,
                identifier,
                details@,
                entry@,
                link,
                StreamLink { identifier, controller },
                block,
            );
        }
        Ok(Event::TxAdd(identifier, hash, controller))
    }

    /// Update the hash and locator of a record.
    ///
    /// `controller` is the caller's identity as resolved by the external
    /// authorization collaborator, `cid_ok` the verdict of the external
    /// locator validator on `cid`, and `block` the current ledger sequence
    /// number. The hash must differ from the identifier, the record must
    /// exist, a given locator must differ from the record's current one and
    /// pass validation, the record must not be revoked, and the caller must
    /// be the record's controller — each failure reported in that order. On
    /// success the record carries the new hash and locator, its previous
    /// locator becomes `parent_cid`, an `Update` commit is appended, the
    /// new hash is indexed, and the returned notification is handed to the
    /// host's sink; on failure nothing changes.
    pub fn update(
        &mut self,
        controller: CordAccountOf,
        identifier: IdOf,
        hash: HashOf,
        cid: Option<IdentifierOf>,
        cid_ok: bool,
        block: BlockNumberOf,
    ) -> (r: Result<Event, DispatchError>)
        requires
            old(self)@.wf(),
            block >= old(self)@.last_block(),
        ensures
            final(self)@.wf(),
            match old(self)@.update_err(controller, identifier, hash, cid_value(cid), cid_ok) {
                Some(e) => r == Err::<Event, DispatchError>(e) && final(self)@ == old(self)@,
                None => ({
                    &&& r == Ok::<Event, DispatchError>(Event::TxUpdate(identifier, hash, controller))
                    &&& final(self)@ == old(self)@.update_post(
                        controller,
                        identifier,
                        hash,
                        cid_value(cid),
                        block,
                    )
                    &&& final(self)@.streams[identifier].parent_cid == old(
                        self,
                    )@.streams[identifier].cid
                    &&& final(self)@.history(identifier) == old(self)@.history(identifier).push(
                        (StreamCommitV {
                            hash,
                            cid: cid_value(cid),
                            block,
                            commit: StreamCommitOf::Update,
                        }),
                    )
                }),
            },
    {
        if hash == identifier {
            return Err(DispatchError::Stream(Error::SameIdentifierAndHash));
        }
        match self.streams.get(&identifier) {
            None => {
                return Err(DispatchError::Stream(Error::StreamNotFound));
            },
            Some(prev) => {
                if cid.is_some() && cid_eq(&cid, &prev.cid) {
                    return Err(DispatchError::Stream(Error::CidAlreadyAnchored));
                }
                if cid.is_some() && !cid_ok {
                    return Err(DispatchError::Stream(Error::InvalidCidEncoding));
                }
                if prev.revoked {
                    return Err(DispatchError::Stream(Error::StreamRevoked));
                }
                if prev.controller != controller {
                    return Err(DispatchError::Stream(Error::UnauthorizedOperation));
                }
            },
        }
        let ghost pre = self@;
        let prev = self.streams.remove(&identifier).unwrap();
        let entry = StreamCommit {
            hash,
            cid: cid_clone(&cid),
            block,
            commit: StreamCommitOf::Update,
        };
        self.commits.push((identifier, entry));
        self.hashes.insert(hash, identifier);
        let updated = StreamDetails {
            hash,
            cid,
            parent_cid: prev.cid,
            schema: prev.schema,
            link: prev.link,
            controller,
            block,
            revoked: prev.revoked,
        };
        self.streams.insert(identifier, updated);
        proof {
            let cv = cid_value(updated.cid);
            let post = pre.update_post(controller, identifier, hash, cv, block);
            assert(prev@ == pre.streams[identifier]);
            assert(self@.streams =~= pre.streams.insert(identifier, updated@));
            assert(self@.commits =~= pre.commits.push((identifier, entry@)));
            assert(self@ =~= post);
            lemma_wf_after_touch(pre, post, identifier, updated@, entry@, block);
        }
        Ok(Event::TxUpdate(identifier, hash, controller))
    }

    /// Change the revocation status of a record.
    ///
    /// `controller` is the caller's identity as resolved by the external
    /// authorization collaborator, and `block` the current ledger sequence
    /// number. The record must exist, the requested status must differ from
    /// the current one, and the caller must be the record's controller —
    /// each failure reported in that order. On success the flag flips in
    /// place, a `StatusChange` commit is appended, and the returned
    /// notification is handed to the host's sink; on failure nothing
    /// changes.
    pub fn set_status(
        &mut self,
        controller: CordAccountOf,
        identifier: IdOf,
        status: StatusOf,
        block: BlockNumberOf,
    ) -> (r: Result<Event, DispatchError>)
        requires
            old(self)@.wf(),
            block >= old(self)@.last_block(),
        ensures
            final(self)@.wf(),
            match old(self)@.set_status_err(controller, identifier, status) {
                Some(e) => r == Err::<Event, DispatchError>(e) && final(self)@ == old(self)@,
                None => ({
                    &&& r == Ok::<Event, DispatchError>(Event::TxStatus(identifier, controller))
                    &&& final(self)@ == old(self)@.set_status_post(
                        controller,
                        identifier,
                        status,
                        block,
                    )
                    &&& final(self)@.history(identifier) == old(self)@.history(identifier).push(
                        (StreamCommitV {
                            hash: old(self)@.streams[identifier].hash,
                            cid: old(self)@.streams[identifier].cid,
                            block,
                            commit: StreamCommitOf::StatusChange,
                        }),
                    )
                }),
            },
    {
        match self.streams.get(&identifier) {
            None => {
                return Err(DispatchError::Stream(Error::StreamNotFound));
            },
            Some(prev) => {
                if prev.revoked == status {
                    return Err(DispatchError::Stream(Error::StatusChangeNotRequired));
                }
                if prev.controller != controller {
                    return Err(DispatchError::Stream(Error::UnauthorizedOperation));
                }
            },
        }
        let ghost pre = self@;
        let prev = self.streams.remove(&identifier).unwrap();
        let entry = StreamCommit {
            hash: prev.hash,
            cid: cid_clone(&prev.cid),
            block,
            commit: StreamCommitOf::StatusChange,
        };
        self.commits.push((identifier, entry));
        let updated = StreamDetails {
            hash: prev.hash,
            cid: prev.cid,
            parent_cid: prev.parent_cid,
            schema: prev.schema,
            link: prev.link,
            controller: prev.controller,
            block,
            revoked: status,
        };
        self.streams.insert(identifier, updated);
        proof {
            let post = pre.set_status_post(controller, identifier, status, block);
            assert(prev@ == pre.streams[identifier]);
            assert(self@.streams =~= pre.streams.insert(identifier, updated@));
            assert(self@.commits =~= pre.commits.push((identifier, entry@)));
            assert(self@ =~= post);
            lemma_wf_after_touch(pre, post, identifier, updated@, entry@, block);
        }
        Ok(Event::TxStatus(identifier, controller))
    }

    /// Sequence number of the newest commit, or 0 when there is none.
    pub fn last_block(&self) -> (r: BlockNumberOf)
        ensures
            r == self@.last_block(),
    {
        if self.commits.len() == 0 {
            0
        } else {
            self.commits[self.commits.len() - 1].1.block
        }
    }
}

} // verus!
