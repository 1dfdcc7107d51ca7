//! Transactions, and the decisions of saving and deleting a document in one.
use vstd::prelude::*;
use crate::document::{C4DocumentOwner, Document, K_DOC_EXISTS, K_REV_DELETED};
use crate::error::{C4Error, Error, ErrorKind, is_conflict, is_not_found};

verus! {

/// A transaction: whether it was already committed or rolled back.
pub struct Transaction {
    pub finished: bool,
}

impl Transaction {
    /// A transaction that the engine began.
    pub fn new() -> (r: Transaction)
        ensures
            !r.finished,
    {
        Transaction { finished: false }
    }

    /// Ends the transaction, committing it or not; `ok` and `err` are
    /// what the engine reported.
    pub fn end_transaction(&mut self, ok: bool, err: C4Error) -> (r: Result<(), Error>)
        ensures
            final(self).finished,
            ok ==> r is Ok,
            !ok ==> (r matches Err(e) && e@ == ErrorKind::C4Error(err)),
    {
        self.finished = true;
        if ok {
            Ok(())
        } else {
            Err(Error::C4Error(err))
        }
    }

    /// Whether dropping the transaction must roll it back: it was never ended.
    pub fn needs_rollback(&self) -> (r: bool)
        ensures
            r == !self.finished,
    {
        !self.finished
    }
}

/// What the engine is asked to store for one attempt at saving a document.
pub struct SaveRequest {
    /// Update the loaded document rather than put a new one.
    pub update: bool,
    /// The revision flags: a deletion or a plain revision.
    pub rev_flags: u8,
    /// The body of the new revision.
    pub body: Vec<u8>,
}

/// What the engine answered to one attempt.
pub enum SaveOutcome {
    /// The new revision, saved.
    Saved(C4DocumentOwner),
    /// No revision was saved, for this reason.
    Failed(C4Error),
}

/// What comes after an answer of the engine.
pub enum SaveStep {
    /// Saving is over, with this outcome.
    Done(Result<(), Error>),
    /// The save met a newer revision: load the document again, then retry.
    Reload,
}

/// The saving of a document: the document as it was loaded,
/// which the new revision updates, and whether this is a deletion.
pub struct SaveMachine {
    pub deletion: bool,
    pub saving_doc: Option<C4DocumentOwner>,
}

impl SaveMachine {
    /// Starts saving (or, with `deletion`, deleting) `doc`. A document that does not exist
    /// cannot be deleted. The engine's record moves out of the document until a new
    /// revision is saved.
    pub fn start(doc: &mut Document, deletion: bool) -> (r: Result<SaveMachine, Error>)
        ensures
            deletion && !(old(doc).inner matches Some(d) && d.flags & K_DOC_EXISTS == K_DOC_EXISTS)
                ==> (r matches Err(e) && e@ == ErrorKind::LogicError(
                "Cannot delete a document that has not yet been saved, doc_id "@
                    + old(doc).spec_id(),
            ) && *final(doc) == *old(doc)),
            !deletion || (old(doc).inner matches Some(d) && d.flags & K_DOC_EXISTS == K_DOC_EXISTS)
                ==> (r matches Ok(m) && m.deletion == deletion && m.saving_doc == old(doc).inner
                && final(doc).inner is None && final(doc).unsaved_body == old(doc).unsaved_body
                && final(doc).spec_id() == old(doc).spec_id()),
    {
        if deletion && !doc.doc_exists() {
            let mut msg = String::from_str(
                "Cannot delete a document that has not yet been saved, doc_id ",
            );
            msg.append(doc.id());
            return Err(Error::LogicError(msg));
        }
        let saving_doc = doc.inner.take();
        Ok(SaveMachine { deletion, saving_doc })
    }

    /// What to ask the engine for: a deletion carries the deleted flag and no body; a save
    /// carries the document's unsaved body, or none.
    pub fn request(&self, doc: &Document) -> (r: SaveRequest)
        ensures
            r.update == self.saving_doc is Some,
            self.deletion ==> r.rev_flags == K_REV_DELETED && r.body@.len() == 0,
            !self.deletion ==> r.rev_flags == 0 && r.body@ == (match doc.unsaved_body {
                Some(b) => b.bytes@,
                None => Seq::<u8>::empty(),
            }),
    {
        if !self.deletion {
            let body = match &doc.unsaved_body {
                Some(b) => vstd::slice::slice_to_vec(b.as_bytes()),
                None => Vec::new(),
            };
            SaveRequest { update: self.saving_doc.is_some(), rev_flags: 0, body }
        } else {
            SaveRequest { update: self.saving_doc.is_some(), rev_flags: K_REV_DELETED, body: Vec::new() }
        }
    }

    /// Takes the engine's answer: a saved revision becomes the document's record and ends
    /// the save; a conflict asks for the document to be loaded again; any other failure
    /// ends the save with that error.
    pub fn on_outcome(&mut self, doc: &mut Document, outcome: SaveOutcome) -> (r: SaveStep)
        ensures
            final(self).deletion == old(self).deletion,
            outcome matches SaveOutcome::Saved(d) ==> (r matches SaveStep::Done(Ok(())) && final(doc).inner == Some(d) && final(doc).unsaved_body == old(doc).unsaved_body && final(doc).spec_id() == old(doc).spec_id()),
            outcome matches SaveOutcome::Failed(e) ==> (is_conflict(e) ==> (r is Reload && *final(doc) == *old(doc))),
            outcome matches SaveOutcome::Failed(e) ==> (!is_conflict(e) ==> (r matches SaveStep::Done(Err(x)) && x@ == ErrorKind::C4Error(e) && *final(doc) == *old(doc))),
    {
        match outcome {
            SaveOutcome::Saved(new_doc) => {
                doc.replace_c4doc(Some(new_doc));
                SaveStep::Done(Ok(()))
            },
            SaveOutcome::Failed(err) => {
                if matches!(err.domain, crate::error::C4ErrorDomain::LiteCoreDomain) && err.code
                    == crate::error::K_C4_ERROR_CONFLICT {
                    SaveStep::Reload
                } else {
                    SaveStep::Done(Err(Error::C4Error(err)))
                }
            },
        }
    }

    /// Takes the document loaded again after a conflict: the next attempt updates it. A
    /// deletion of a document that is gone by now is done; any other failure ends the
    /// save with that error.
    pub fn on_reload(&mut self, loaded: Result<C4DocumentOwner, Error>) -> (r: Option<Result<(), Error>>)
        ensures
            final(self).deletion == old(self).deletion,
            loaded matches Ok(d) ==> (r is None && final(self).saving_doc == Some(d)),
            loaded matches Err(e) ==> (((e@ matches ErrorKind::C4Error(c) && is_not_found(c)) && old(self).deletion) ==> r == Some(Ok::<(), Error>(()))),
            loaded matches Err(e) ==> (!((e@ matches ErrorKind::C4Error(c) && is_not_found(c)) && old(self).deletion) ==> (r matches Some(Err(x)) && x@ == e@)),
    {
        match loaded {
            Ok(d) => {
                self.saving_doc = Some(d);
                None
            },
            Err(e) => {
                if self.deletion && e.is_c4_not_found() {
                    Some(Ok(()))
                } else {
                    Some(Err(e))
                }
            },
        }
    }
}

} // verus!
