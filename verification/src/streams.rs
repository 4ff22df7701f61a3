//! Data model of the stream registry: the current state of a record, one
//! entry of its append-only history, and a link declared against a record.

use vstd::prelude::*;

verus! {

/// Identifier of a stream record, assigned by the caller at creation time.
pub type IdOf = u64;

/// Hash of the content anchored by a record.
pub type HashOf = u64;

/// Identity of the controller of a record.
pub type CordAccountOf = u64;

/// Ledger sequence number of a mutation.
pub type BlockNumberOf = u64;

/// External content locator: an opaque byte string pointing at the content.
pub type IdentifierOf = Vec<u8>;

/// Revocation status of a record.
pub type StatusOf = bool;

/// Kind of one commit in a record's history.
#[derive(Clone, Copy, PartialEq, Eq, Structural, Debug)]
pub enum StreamCommitOf {
    Genesis,
    Update,
    StatusChange,
}

/// Current state of one registered stream.
pub struct StreamDetails {
    /// Hash of the anchored content; changes on update.
    pub hash: HashOf,
    /// Locator of the anchored content, when one was given.
    pub cid: Option<IdentifierOf>,
    /// Locator of the immediately preceding version, set on update.
    pub parent_cid: Option<IdentifierOf>,
    /// Schema the record was created against, immutable after creation.
    pub schema: Option<IdOf>,
    /// Record this one was linked from at creation, immutable thereafter.
    pub link: Option<IdOf>,
    /// Identity authorized to mutate the record.
    pub controller: CordAccountOf,
    /// Sequence number of the last mutation.
    pub block: BlockNumberOf,
    /// Lifecycle flag; flips only through an explicit status change.
    pub revoked: StatusOf,
}

/// One append-only history entry for a stream.
pub struct StreamCommit {
    pub hash: HashOf,
    pub cid: Option<IdentifierOf>,
    pub block: BlockNumberOf,
    pub commit: StreamCommitOf,
}

/// A link declared by a source record, stored under its target's entry.
#[derive(Clone, Copy, PartialEq, Eq, Structural, Debug)]
pub struct StreamLink {
    /// The source record that declared the link.
    pub identifier: IdOf,
    /// Controller of the source record at the time of linking.
    pub controller: CordAccountOf,
}

/// The entries of a keyed log that belong to one key, oldest first.
pub open spec fn entries_for<T>(log: Seq<(IdOf, T)>, identifier: IdOf) -> Seq<T>
    decreases log.len(),
{
    if log.len() == 0 {
        Seq::empty()
    } else if log.last().0 == identifier {
        entries_for(log.drop_last(), identifier).push(log.last().1)
    } else {
        entries_for(log.drop_last(), identifier)
    }
}

/// Appending one entry to a keyed log extends exactly the entries of its key.
pub broadcast proof fn lemma_entries_for_push<T>(
    log: Seq<(IdOf, T)>,
    identifier: IdOf,
    entry: (IdOf, T),
)
    ensures
        #[trigger] entries_for(log.push(entry), identifier) == (if entry.0 == identifier {
            entries_for(log, identifier).push(entry.1)
        } else {
            entries_for(log, identifier)
        }),
{
    assert(log.push(entry).drop_last() =~= log);
    assert(log.push(entry).last() == entry);
}

/// Mathematical value of an optional locator: the byte sequence it holds.
pub open spec fn cid_value(c: Option<IdentifierOf>) -> Option<Seq<u8>> {
    match c {
        Some(v) => Some(v@),
        None => None,
    }
}

/// Mathematical value of a record's current state.
#[verifier::ext_equal]
pub struct StreamDetailsV {
    pub hash: HashOf,
    pub cid: Option<Seq<u8>>,
    pub parent_cid: Option<Seq<u8>>,
    pub schema: Option<IdOf>,
    pub link: Option<IdOf>,
    pub controller: CordAccountOf,
    pub block: BlockNumberOf,
    pub revoked: StatusOf,
}

/// Mathematical value of one history entry.
#[verifier::ext_equal]
pub struct StreamCommitV {
    pub hash: HashOf,
    pub cid: Option<Seq<u8>>,
    pub block: BlockNumberOf,
    pub commit: StreamCommitOf,
}

impl View for StreamDetails {
    type V = StreamDetailsV;

    open spec fn view(&self) -> StreamDetailsV {
        StreamDetailsV {
            hash: self.hash,
            cid: cid_value(self.cid),
            parent_cid: cid_value(self.parent_cid),
            schema: self.schema,
            link: self.link,
            controller: self.controller,
            block: self.block,
            revoked: self.revoked,
        }
    }
}

impl View for StreamCommit {
    type V = StreamCommitV;

    open spec fn view(&self) -> StreamCommitV {
        StreamCommitV {
            hash: self.hash,
            cid: cid_value(self.cid),
            block: self.block,
            commit: self.commit,
        }
    }
}

/// Bytewise equality of two byte vectors.
pub fn bytes_eq(a: &Vec<u8>, b: &Vec<u8>) -> (r: bool)
    ensures
        r == (a@ == b@),
{
    if a.len() != b.len() {
        return false;
    }
    let mut i: usize = 0;
    while i < a.len()
        invariant
            i <= a.len(),
            a.len() == b.len(),
            forall|j: int| 0 <= j < i ==> a@[j] == b@[j],
        decreases a.len() - i,
    {
        if a[i] != b[i] {
            return false;
        }
        i += 1;
    }
    proof {
        assert(a@ =~= b@);
    }
    true
}

/// Equality of two optional locators, by content.
pub fn cid_eq(a: &Option<IdentifierOf>, b: &Option<IdentifierOf>) -> (r: bool)
    ensures
        r == (cid_value(*a) == cid_value(*b)),
{
    match (a, b) {
        (None, None) => true,
        (Some(x), Some(y)) => bytes_eq(x, y),
        _ => false,
    }
}

/// Copy of an optional locator, preserving its content.
pub fn cid_clone(c: &Option<IdentifierOf>) -> (r: Option<IdentifierOf>)
    ensures
        cid_value(r) == cid_value(*c),
{
    match c {
        None => None,
        Some(v) => {
            let mut out: Vec<u8> = Vec::new();
            let mut i: usize = 0;
            while i < v.len()
                invariant
                    i <= v.len(),
                    out@.len() == i,
                    forall|j: int| 0 <= j < i ==> out@[j] == v@[j],
                decreases v.len() - i,
            {
                out.push(v[i]);
                i += 1;
            }
            proof {
                assert(out@ =~= v@);
            }
            Some(out)
        },
    }
}

impl StreamCommit {
    /// Copy of one history entry, preserving its content.
    pub fn duplicate(&self) -> (r: StreamCommit)
        ensures
            r@ == self@,
    {
        StreamCommit {
            hash: self.hash,
            cid: cid_clone(&self.cid),
            block: self.block,
            commit: self.commit,
        }
    }
}

} // verus!
