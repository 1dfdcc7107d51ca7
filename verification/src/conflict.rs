//! Resolving replication conflicts: which revision wins, and the retry loop around it.
use vstd::prelude::*;
use crate::document::{C4DocumentOwner, K_REV_DELETED, K_REV_LEAF, K_REV_IS_CONFLICT};
use crate::error::{C4Error, Error, ErrorKind};
use crate::fl_slice::{FLSlice, slice_compare, spec_compare, lemma_compare_antisymmetric};

verus! {

/// One of the two sides of a conflict.
#[derive(Clone, Copy, PartialEq, Eq, Structural, Debug)]
pub enum Side {
    Local,
    Remote,
}

/// How a conflict is resolved.
#[derive(Clone, Copy, PartialEq, Eq, Structural, Debug)]
pub enum Resolution {
    /// The remote revision is kept as it is and the local branch is pruned.
    UseRemote,
    /// A new revision is made on the remote branch from the local one.
    UseLocal,
}

/// The most attempts at resolving one conflict.
pub const MAX_RETRY_COUNT: u8 = 10;

/// Which of two live revisions wins: the higher generation; on equal generations the
/// local one when its revision identifier sorts after the remote one's, else the remote
/// one. With a side missing (deleted), none wins.
pub open spec fn spec_winner(local: Option<(u32, Seq<u8>)>, remote: Option<(u32, Seq<u8>)>) -> Option<
    Side,
> {
    match (local, remote) {
        (Some(l), Some(r)) => if r.0 > l.0 {
            Some(Side::Remote)
        } else if r.0 < l.0 {
            Some(Side::Local)
        } else if spec_compare(l.1, r.1) > 0 {
            Some(Side::Local)
        } else {
            Some(Side::Remote)
        },
        _ => None,
    }
}

/// The revision that wins a conflict between two live revisions.
pub open spec fn winning_revision(local: (u32, Seq<u8>), remote: (u32, Seq<u8>)) -> (u32, Seq<u8>) {
    if spec_winner(Some(local), Some(remote)) == Some(Side::Local) {
        local
    } else {
        remote
    }
}

/// The winning revision does not depend on which side is local: two peers that resolve
/// the same conflict from opposite sides keep the same revision.
pub proof fn lemma_winner_symmetric(a: (u32, Seq<u8>), b: (u32, Seq<u8>))
    ensures
        winning_revision(a, b) == winning_revision(b, a),
{
    lemma_compare_antisymmetric(a.1, b.1);
    if a.0 == b.0 && spec_compare(a.1, b.1) == 0 {
        assert(a.1 == b.1);
        assert(a == b);
    }
}

/// The generation and revision identifier of a document that is there.
pub open spec fn rev_key(d: Option<&C4DocumentOwner>) -> Option<(u32, Seq<u8>)> {
    match d {
        Some(x) => Some((x.generation, x.rev_id@)),
        None => None,
    }
}

/// Picks the winner of a conflict between the live local and remote revisions.
pub fn default_conflict_resolver(
    local_doc: Option<&C4DocumentOwner>,
    remote_doc: Option<&C4DocumentOwner>,
) -> (r: Option<Side>)
    ensures
        r == spec_winner(rev_key(local_doc), rev_key(remote_doc)),
{
    match (local_doc, remote_doc) {
        (Some(local_doc), Some(remote_doc)) => {
            let remote_gen = remote_doc.generation;
            let local_gen = local_doc.generation;
            if remote_gen > local_gen {
                Some(Side::Remote)
            } else if remote_gen < local_gen {
                Some(Side::Local)
            } else if slice_compare(
                FLSlice::from_bytes(local_doc.revision_id()),
                FLSlice::from_bytes(remote_doc.revision_id()),
            ) > 0 {
                Some(Side::Local)
            } else {
                Some(Side::Remote)
            }
        },
        _ => None,
    }
}

/// Whether the selected revision of a document is a deletion.
pub open spec fn selected_deleted(d: &C4DocumentOwner) -> bool {
    d.selected_rev.flags & K_REV_DELETED != 0
}

/// How a conflict is settled by default: the remote side is the conflicting
/// revision unless it is a deletion, the local side the current document unless it is
/// missing or deleted; the winner among them; and the resolution, which keeps the remote
/// revision exactly when the winner is the remote side or no side is live.
pub fn choose_resolution(conflict: &C4DocumentOwner, local: Option<&C4DocumentOwner>) -> (r: (
    Resolution,
    Option<Side>,
))
    ensures
        ({
            let remote_live = !selected_deleted(conflict);
            let local_live = local matches Some(d) && !selected_deleted(d);
            let winner = if remote_live && local_live {
                spec_winner(rev_key(local), rev_key(Some(conflict)))
            } else {
                None
            };
            &&& r.1 == winner
            &&& r.0 == (if winner == Some(Side::Remote) || (winner is None && !remote_live) {
                Resolution::UseRemote
            } else {
                Resolution::UseLocal
            })
        }),
{
    let remote_doc = if (conflict.selected_rev.flags & K_REV_DELETED) != 0 {
        None
    } else {
        Some(conflict)
    };
    let local_doc = match local {
        Some(doc) => if (doc.selected_rev.flags & K_REV_DELETED) != 0 {
            None
        } else {
            Some(doc)
        },
        None => None,
    };
    let resolved = default_conflict_resolver(local_doc, remote_doc);
    let resolution = match (resolved, remote_doc) {
        (Some(Side::Remote), Some(_)) => Resolution::UseRemote,
        (None, None) => Resolution::UseRemote,
        _ => Resolution::UseLocal,
    };
    (resolution, resolved)
}

/// What is handed to the engine to resolve a conflict.
pub struct ResolvePlan {
    /// The winning revision: the selected (remote) one.
    pub winner: Vec<u8>,
    /// The losing revision: the current (local) one.
    pub loser: Vec<u8>,
    /// The flags of the merged revision.
    pub merge_flags: u8,
    /// Which side's body becomes the merged body; `None` for an empty body.
    pub merge_body_from: Option<Side>,
}

/// The arguments of the resolution: the remote revision always
/// wins the tree; when the local side is used, the merged revision takes the winner's
/// body, or is a deletion when there is no winner.
pub fn resolve_plan(conflict: &C4DocumentOwner, resolution: Resolution, resolved: Option<Side>) -> (r:
    ResolvePlan)
    ensures
        r.winner@ == conflict.selected_rev.rev_id@,
        r.loser@ == conflict.rev_id@,
        resolution == Resolution::UseRemote ==> r.merge_flags == 0 && r.merge_body_from is None,
        resolution == Resolution::UseLocal && resolved is Some ==> r.merge_flags == 0
            && r.merge_body_from == resolved,
        resolution == Resolution::UseLocal && resolved is None ==> r.merge_flags == K_REV_DELETED
            && r.merge_body_from is None,
{
    let winner = vstd::slice::slice_to_vec(conflict.selected_rev.rev_id.as_slice());
    let loser = vstd::slice::slice_to_vec(conflict.revision_id());
    let mut merge_flags: u8 = 0;
    let mut merge_body_from: Option<Side> = None;
    if resolution != Resolution::UseRemote {
        match resolved {
            Some(side) => {
                merge_body_from = Some(side);
            },
            None => {
                merge_flags = K_REV_DELETED;
            },
        }
    }
    ResolvePlan { winner, loser, merge_flags, merge_body_from }
}

/// Whether a revision with `flags` is a conflicting leaf.
pub fn is_conflicting_leaf(flags: u8) -> (r: bool)
    ensures
        r == (flags & (K_REV_LEAF | K_REV_IS_CONFLICT) == (K_REV_LEAF | K_REV_IS_CONFLICT)),
{
    let mask = K_REV_LEAF | K_REV_IS_CONFLICT;
    (flags & mask) == mask
}

/// Whether a revision with `flags` is in conflict.
pub fn is_conflict(flags: u8) -> (r: bool)
    ensures
        r == (flags & K_REV_IS_CONFLICT != 0),
{
    (flags & K_REV_IS_CONFLICT) != 0
}

/// The outcome of walking the leaf revisions to their end without meeting a conflict:
/// none was found, unless the engine reported an
/// error.
pub fn leaves_exhausted(err: C4Error) -> (r: Result<bool, Error>)
    ensures
        err.code == 0 ==> r == Ok::<bool, Error>(false),
        err.code != 0 ==> (r matches Err(e) && e@ == ErrorKind::C4Error(err)),
{
    if err.code == 0 {
        Ok(false)
    } else {
        Err(Error::C4Error(err))
    }
}

/// The state of the loop that resolves one conflict.
pub struct ConflictLoop {
    /// The revision to resolve, once known.
    pub rev_id: Option<Vec<u8>>,
    /// How many attempts failed.
    pub retry_count: u8,
    /// Whether another attempt is due.
    pub in_conflict: bool,
}

/// What the loop does next.
#[derive(Clone, Copy, PartialEq, Eq, Structural, Debug)]
pub enum ConflictStep {
    /// Load the document and try again.
    Retry,
    /// The loop is over; the conflict is resolved or was given up.
    Done,
}

impl ConflictLoop {
    /// The loop for revision `rev_id`, or for the next conflicting revision when `None`.
    pub fn new(rev_id: Option<Vec<u8>>) -> (r: ConflictLoop)
        ensures
            r.rev_id == rev_id,
            r.retry_count == 0,
            !r.in_conflict,
    {
        ConflictLoop { rev_id, retry_count: 0, in_conflict: false }
    }

    /// Records the revision found by walking the leaves, when none was given.
    pub fn found_revision(&mut self, rev_id: &[u8])
        ensures
            final(self).rev_id matches Some(r) && r@ == rev_id@,
            final(self).retry_count == old(self).retry_count,
            final(self).in_conflict == old(self).in_conflict,
    {
        self.rev_id = Some(vstd::slice::slice_to_vec(rev_id));
    }

    /// After one resolution: a failed attempt counts, and another is due while fewer
    /// than `MAX_RETRY_COUNT` failed; a successful one ends the loop.
    pub fn after_resolution(&mut self, resolved: bool) -> (r: ConflictStep)
        requires
            old(self).retry_count < MAX_RETRY_COUNT,
        ensures
            resolved ==> final(self).retry_count == old(self).retry_count && final(self).in_conflict
                == old(self).in_conflict,
            !resolved ==> final(self).retry_count == old(self).retry_count + 1 && final(self).in_conflict == (final(self).retry_count < MAX_RETRY_COUNT),
            r == (if final(self).in_conflict {
                ConflictStep::Retry
            } else {
                ConflictStep::Done
            }),
            final(self).in_conflict ==> final(self).retry_count < MAX_RETRY_COUNT,
            final(self).rev_id == old(self).rev_id,
    {
        if !resolved {
            self.retry_count = self.retry_count + 1;
            self.in_conflict = self.retry_count < MAX_RETRY_COUNT;
        }
        if self.in_conflict {
            ConflictStep::Retry
        } else {
            ConflictStep::Done
        }
    }
}

} // verus!
