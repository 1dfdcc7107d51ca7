//! Walking the results of a query and the documents of a database: the end of a walk, and
//! the checked read of a result's columns.
use vstd::prelude::*;
use crate::error::{C4Error, Error, ErrorKind};
use crate::fl_slice::FLSliceResult;
use crate::fleece::FlValue;
use crate::fleece_error;
use crate::text::{ascii_text, decimal_int, decimal_text_u64};
use crate::value::{ValueRef, readable, spec_value_ref};

verus! {

/// Where a walk over the engine's results stands (the `reach_end` flag of `Enumerator` and
/// of `DocEnumerator`).
pub struct WalkState {
    pub reach_end: bool,
}

/// What advancing a walk does next.
#[derive(Clone, Copy, PartialEq, Eq, Structural, Debug)]
pub enum AdvanceStep {
    /// Ask the engine for the next item.
    AskEngine,
    /// The walk has ended; nothing is asked and the advance succeeds.
    Ended,
}

/// What advancing a walk in state `w` does first.
pub open spec fn spec_advance_step(w: WalkState) -> AdvanceStep {
    if w.reach_end {
        AdvanceStep::Ended
    } else {
        AdvanceStep::AskEngine
    }
}

impl WalkState {
    /// A walk that has not ended.
    pub fn new() -> (r: WalkState)
        ensures
            !r.reach_end,
    {
        WalkState { reach_end: false }
    }

    /// The first half of `advance`: whether to ask the engine for the next item.
    pub fn advance_step(&self) -> (r: AdvanceStep)
        ensures
            r == spec_advance_step(*self),
    {
        if self.reach_end {
            AdvanceStep::Ended
        } else {
            AdvanceStep::AskEngine
        }
    }

    /// The second half of `advance`, with the engine's answer: it moved to a next item, or
    /// it did not and filled in `err`; a zero code there means that the walk has ended.
    pub fn after_next(&mut self, moved: bool, err: C4Error) -> (r: Result<(), Error>)
        requires
            !old(self).reach_end,
        ensures
            moved ==> r is Ok && !final(self).reach_end,
            !moved && err.code == 0 ==> r is Ok && final(self).reach_end,
            !moved && err.code != 0 ==> (r matches Err(e) && e@ == ErrorKind::C4Error(err))
                && !final(self).reach_end,
    {
        if moved {
            Ok(())
        } else if err.code == 0 {
            self.reach_end = true;
            Ok(())
        } else {
            Err(Error::C4Error(err))
        }
    }

    /// Advances the walk. A walk that has ended stays ended and succeeds without
    /// calling `next`; otherwise `next` asks the engine for the next item and gives its
    /// answer: whether it moved, and the error it filled in, whose zero code means the end.
    pub fn advance<F: FnOnce() -> (bool, C4Error)>(&mut self, next: F) -> (r: Result<(), Error>)
        requires
            !old(self).reach_end ==> next.requires(()),
        ensures
            old(self).reach_end ==> r is Ok && final(self).reach_end,
            !old(self).reach_end ==> exists|a: (bool, C4Error)|
                #[trigger] next.ensures((), a) && advance_outcome(a, r, final(self).reach_end),
    {
        if self.reach_end {
            return Ok(());
        }
        let a = next();
        let r = self.after_next(a.0, a.1);
        assert(advance_outcome(a, r, self.reach_end));
        r
    }

    /// Whether there is a current item.
    pub open spec fn has_item_spec(&self) -> bool {
        !self.reach_end
    }

    /// Whether there is a current item: there is one until the walk ends.
    pub fn has_item(&self) -> (r: bool)
        ensures
            r == self.has_item_spec(),
    {
        !self.reach_end
    }
}

/// What an advance gives for the engine's answer `a`: a move keeps the walk going, no move
/// with a zero code ends it, and no move with another code is that engine error.
pub open spec fn advance_outcome(a: (bool, C4Error), r: Result<(), Error>, reach_end: bool) -> bool {
    &&& a.0 ==> r is Ok && !reach_end
    &&& !a.0 && a.1.code == 0 ==> r is Ok && reach_end
    &&& !a.0 && a.1.code != 0 ==> (r matches Err(e) && e@ == ErrorKind::C4Error(a.1)) && !reach_end
}

/// Once a walk has ended, advancing it asks nothing more of the engine, and there is no
/// current item.
pub proof fn lemma_advance_end_is_final(w: WalkState)
    requires
        w.reach_end,
    ensures
        spec_advance_step(w) == AdvanceStep::Ended,
        !w.has_item_spec(),
{
}

/// The message for a column index past the end of a result.
pub open spec fn spec_column_error(i: u32, n: u32) -> Seq<char> {
    "Enumerator::get_raw_checked: Index out of bounds "@ + ascii_text(decimal_int(i as int)) + " / "@
        + ascii_text(decimal_int(n as int))
}

/// Checks a column index against the number of columns.
pub fn column_index_check(i: u32, n: u32) -> (r: Result<(), Error>)
    ensures
        i < n ==> r is Ok,
        i >= n ==> (r matches Err(e) && e@ == ErrorKind::LogicError(spec_column_error(i, n))),
{
    if i >= n {
        let mut msg = String::from_str("Enumerator::get_raw_checked: Index out of bounds ");
        let a = decimal_text_u64(i as u64);
        msg.append(a.as_str());
        msg.append(" / ");
        let b = decimal_text_u64(n as u64);
        msg.append(b.as_str());
        return Err(Error::LogicError(msg));
    }
    Ok(())
}

/// The column `i` of a result row, read by kind, or the
/// error for an index past the last column.
pub fn get_raw_checked<'a>(columns: &'a Vec<FlValue>, i: u32) -> (r: Result<ValueRef<'a>, Error>)
    requires
        columns@.len() <= u32::MAX,
        i < columns@.len() ==> readable(columns@[i as int]),
    ensures
        i < columns@.len() ==> (r matches Ok(v) && spec_value_ref(&columns@[i as int], v)),
        i >= columns@.len() ==> (r matches Err(e) && e@ == ErrorKind::LogicError(
            spec_column_error(i, columns@.len() as u32),
        )),
{
    let n = columns.len() as u32;
    column_index_check(i, n)?;
    Ok(ValueRef::new(&columns[i as usize]))
}

/// The outcome of encoding query parameters: the encoded
/// parameters, or the encoder's error.
pub fn parameters_result(parameters: Result<FLSliceResult, fleece_error::Error>) -> (r: Result<
    FLSliceResult,
    Error,
>)
    ensures
        parameters matches Ok(p) ==> (r matches Ok(x) && x.bytes@ == p.bytes@),
        parameters matches Err(e) ==> (r matches Err(x) && x@ == ErrorKind::SerdeFleece(e@)),
{
    match parameters {
        Ok(p) => Ok(p),
        Err(e) => Err(Error::from_fleece(e)),
    }
}

/// Iteration goes by descending document ids.
pub const K_C4_DESCENDING: u16 = 0x01;
/// Deleted documents are included.
pub const K_C4_INCLUDE_DELETED: u16 = 0x08;
/// Documents that are not in conflict are included.
pub const K_C4_INCLUDE_NON_CONFLICTED: u16 = 0x10;
/// Document bodies are loaded with the documents.
pub const K_C4_INCLUDE_BODIES: u16 = 0x20;

/// The options of a walk over all documents.
#[derive(Clone, Copy, PartialEq, Eq, Structural, Debug)]
pub struct DocEnumeratorFlags {
    pub bits: u16,
}

impl DocEnumeratorFlags {
    /// The flags as the engine reads them.
    pub fn bits(&self) -> (r: u16)
        ensures
            r == self.bits,
    {
        self.bits
    }
}

impl Default for DocEnumeratorFlags {
    /// Bodies loaded, and documents that are not in conflict included.
    fn default() -> (r: DocEnumeratorFlags)
        ensures
            r.bits == K_C4_INCLUDE_BODIES | K_C4_INCLUDE_NON_CONFLICTED,
    {
        DocEnumeratorFlags { bits: K_C4_INCLUDE_BODIES | K_C4_INCLUDE_NON_CONFLICTED }
    }
}

} // verus!
