//! Documents: their identity, body and the state that the engine reports of them.
use vstd::prelude::*;
use vstd::utf8::{valid_utf8, decode_utf8};
use crate::error::{Error, ErrorKind};
use crate::fl_slice::{FLSliceResult, utf8_str, lemma_str_bytes_decode};

verus! {

/// The document's current revision is deleted.
pub const K_DOC_DELETED: u32 = 0x01;
/// The document is in conflict.
pub const K_DOC_CONFLICTED: u32 = 0x02;
/// The document's current revision has attachments.
pub const K_DOC_HAS_ATTACHMENTS: u32 = 0x04;
/// The document exists (has revisions).
pub const K_DOC_EXISTS: u32 = 0x1000;

/// The revision is a deletion.
pub const K_REV_DELETED: u8 = 0x01;
/// The revision is a leaf of the revision tree.
pub const K_REV_LEAF: u8 = 0x02;
/// The revision is a conflicting branch.
pub const K_REV_IS_CONFLICT: u8 = 0x20;

/// The flags of a document that this library knows.
#[derive(Clone, Copy, PartialEq, Eq, Structural, Debug)]
pub struct DocumentFlags {
    pub bits: u32,
}

impl DocumentFlags {
    /// The known flags among `bits`; unknown bits are dropped.
    pub fn from_bits_truncate(bits: u32) -> (r: DocumentFlags)
        ensures
            r.bits == bits & (K_DOC_DELETED | K_DOC_CONFLICTED | K_DOC_HAS_ATTACHMENTS | K_DOC_EXISTS),
    {
        DocumentFlags {
            bits: bits & (K_DOC_DELETED | K_DOC_CONFLICTED | K_DOC_HAS_ATTACHMENTS | K_DOC_EXISTS),
        }
    }

    /// Whether all flags of `other` are set.
    pub fn contains(&self, other: DocumentFlags) -> (r: bool)
        ensures
            r == (self.bits & other.bits == other.bits),
    {
        self.bits & other.bits == other.bits
    }
}

/// A revision of a document, as the engine reports it.
pub struct C4Revision {
    pub rev_id: Vec<u8>,
    pub flags: u8,
    pub sequence: u64,
}

/// A document loaded from the engine: what the library reads of it.
pub struct C4DocumentOwner {
    pub flags: u32,
    /// The generation of the current revision (`c4rev_getGeneration` of its identifier).
    pub generation: u32,
    pub doc_id: Vec<u8>,
    pub rev_id: Vec<u8>,
    pub sequence: u64,
    pub selected_rev: C4Revision,
}

/// A document: its identifier, a body not saved yet, and the engine's
/// record of it once it was saved or loaded.
pub struct Document {
    pub id: String,
    pub unsaved_body: Option<FLSliceResult>,
    pub inner: Option<C4DocumentOwner>,
}

/// Where the body of a document is read from.
pub enum BodySource<'a> {
    /// The encoded body that was set and not saved yet.
    Unsaved(&'a FLSliceResult),
    /// The current revision's body, loaded from the engine.
    Stored(&'a C4DocumentOwner),
}

/// The lowercase hexadecimal digits.
pub open spec fn is_lower_hex(c: char) -> bool {
    ('0' <= c <= '9') || ('a' <= c <= 'f')
}

/// The text of a hyphenated version 4 UUID: 36 characters, hyphens at positions 8, 13,
/// 18 and 23, the version digit '4' at 14, a variant digit among '8', '9', 'a' and 'b' at
/// 19, lowercase hexadecimal digits elsewhere.
pub open spec fn is_hyphenated_uuid_v4(s: Seq<char>) -> bool {
    &&& s.len() == 36
    &&& forall|i: int|
        0 <= i < 36 ==> if i == 8 || i == 13 || i == 18 || i == 23 {
            s[i] == '-'
        } else {
            is_lower_hex(s[i])
        }
    &&& s[14] == '4'
    &&& (s[19] == '8' || s[19] == '9' || s[19] == 'a' || s[19] == 'b')
}

/// A fresh random identifier. The result
/// depends on chance; only its form is stated.
#[verifier::external_body]
pub(crate) fn new_uuid_v4_string() -> (r: String)
    ensures
        is_hyphenated_uuid_v4(r@),
{
    uuid::Uuid::new_v4().hyphenated().to_string()
}

impl C4DocumentOwner {
    /// Whether the document exists (has revisions).
    pub fn doc_exists(&self) -> (r: bool)
        ensures
            r == (self.flags & K_DOC_EXISTS == K_DOC_EXISTS),
    {
        (self.flags & K_DOC_EXISTS) == K_DOC_EXISTS
    }

    /// The document's flags.
    pub fn flags(&self) -> (r: u32)
        ensures
            r == self.flags,
    {
        self.flags
    }

    /// The revision currently selected.
    pub fn selected_revision(&self) -> (r: &C4Revision)
        ensures
            r == &self.selected_rev,
    {
        &self.selected_rev
    }

    /// The document's identifier as text.
    pub fn id(&self) -> (r: Result<&str, Error>)
        ensures
            valid_utf8(self.doc_id@) ==> (r matches Ok(s) && s@ == decode_utf8(self.doc_id@)),
            !valid_utf8(self.doc_id@) ==> (r matches Err(e) && e@ == ErrorKind::InvalidUtf8),
    {
        match utf8_str(self.doc_id.as_slice()) {
            Some(s) => {
                proof {
                    lemma_str_bytes_decode(s);
                }
                Ok(s)
            },
            None => Err(Error::InvalidUtf8),
        }
    }

    /// The identifier of the current revision.
    pub fn revision_id(&self) -> (r: &[u8])
        ensures
            r@ == self.rev_id@,
    {
        self.rev_id.as_slice()
    }
}

impl Document {
    /// A new document with a fresh random identifier and the encoded body `fleece_data`,
    /// not saved yet.
    pub fn new(fleece_data: FLSliceResult) -> (r: Document)
        ensures
            is_hyphenated_uuid_v4(r.spec_id()),
            r.unsaved_body matches Some(b) && b.bytes@ == fleece_data.bytes@,
            r.inner is None,
    {
        Document { inner: None, unsaved_body: Some(fleece_data), id: new_uuid_v4_string() }
    }

    /// A new document with identifier `doc_id` and the encoded body `fleece_data`, not
    /// saved yet.
    pub fn new_with_id_fleece(doc_id: String, fleece_data: FLSliceResult) -> (r: Document)
        ensures
            r.spec_id() == doc_id@,
            r.unsaved_body matches Some(b) && b.bytes@ == fleece_data.bytes@,
            r.inner is None,
    {
        Document { inner: None, id: doc_id, unsaved_body: Some(fleece_data) }
    }

    /// A document as loaded from the engine.
    pub fn new_internal(inner: C4DocumentOwner, doc_id: String) -> (r: Document)
        ensures
            r.spec_id() == doc_id@,
            r.unsaved_body is None,
            r.inner == Some(inner),
    {
        Document { inner: Some(inner), id: doc_id, unsaved_body: None }
    }

    /// The document's identifier.
    pub open spec fn spec_id(&self) -> Seq<char> {
        self.id@
    }

    /// The document's identifier.
    pub fn id(&self) -> (r: &str)
        ensures
            r@ == self.spec_id(),
    {
        self.id.as_str()
    }

    /// Where the body is read from when decoding it: the unsaved body if there is one,
    /// else the engine's current revision; a document with neither is a logic error.
    pub fn body_source(&self) -> (r: Result<BodySource<'_>, Error>)
        ensures
            self.unsaved_body matches Some(b) ==> (r matches Ok(BodySource::Unsaved(x)) && x == &b),
            self.unsaved_body is None && self.inner is Some ==> (r matches Ok(
                BodySource::Stored(x),
            ) && x == &self.inner->Some_0),
            self.unsaved_body is None && self.inner is None ==> (r matches Err(e) && e@
                == ErrorKind::LogicError(
                "Document "@ + self.spec_id() + " have no underlying C4Document"@,
            )),
    {
        if let Some(body) = &self.unsaved_body {
            return Ok(BodySource::Unsaved(body));
        }
        match &self.inner {
            Some(d) => Ok(BodySource::Stored(d)),
            None => {
                let mut msg = String::from_str("Document ");
                msg.append(self.id.as_str());
                msg.append(" have no underlying C4Document");
                Err(Error::LogicError(msg))
            },
        }
    }

    /// Replaces the unsaved body with the encoded `body`.
    pub fn update_body(&mut self, body: FLSliceResult)
        ensures
            final(self).unsaved_body matches Some(b) && b.bytes@ == body.bytes@,
            final(self).inner == old(self).inner,
            final(self).spec_id() == old(self).spec_id(),
    {
        self.unsaved_body = Some(body);
    }

    /// The document's sequence in the database, when it was saved or loaded.
    pub fn sequence(&self) -> (r: Option<u64>)
        ensures
            r == (match self.inner {
                Some(d) => Some(d.sequence),
                None => None::<u64>,
            }),
    {
        match &self.inner {
            Some(d) => Some(d.sequence),
            None => None,
        }
    }

    /// The identifier of the current revision, when there is one and it is valid UTF-8.
    pub fn revision_id(&self) -> (r: Option<&str>)
        ensures
            self.inner is None ==> r is None,
            self.inner matches Some(d) ==> (valid_utf8(d.rev_id@) ==> (r matches Some(s) && s@
                == decode_utf8(d.rev_id@))),
            self.inner matches Some(d) ==> (!valid_utf8(d.rev_id@) ==> r is None),
    {
        match &self.inner {
            Some(d) => {
                let r = utf8_str(d.revision_id());
                proof {
                    if let Some(s) = r {
                        lemma_str_bytes_decode(s);
                    }
                }
                r
            },
            None => None,
        }
    }

    /// The generation of the current revision; 0 for a document never saved or loaded.
    pub fn generation(&self) -> (r: u32)
        ensures
            r == (match self.inner {
                Some(d) => d.generation,
                None => 0u32,
            }),
    {
        match &self.inner {
            Some(d) => d.generation,
            None => 0,
        }
    }

    /// The document's flags, when it was saved or loaded.
    pub fn flags(&self) -> (r: Option<DocumentFlags>)
        ensures
            self.inner is None ==> r is None,
            self.inner matches Some(d) ==> (r matches Some(f) && f.bits == d.flags & (
            K_DOC_DELETED | K_DOC_CONFLICTED | K_DOC_HAS_ATTACHMENTS | K_DOC_EXISTS)),
    {
        match &self.inner {
            Some(d) => Some(DocumentFlags::from_bits_truncate(d.flags())),
            None => None,
        }
    }

    /// Whether the document exists in the database.
    pub fn doc_exists(&self) -> (r: bool)
        ensures
            r == (self.inner matches Some(d) && d.flags & K_DOC_EXISTS == K_DOC_EXISTS),
    {
        match &self.inner {
            Some(d) => d.doc_exists(),
            None => false,
        }
    }

    /// Replaces the engine's record of the document.
    pub fn replace_c4doc(&mut self, doc: Option<C4DocumentOwner>)
        ensures
            final(self).inner == doc,
            final(self).unsaved_body == old(self).unsaved_body,
            final(self).spec_id() == old(self).spec_id(),
    {
        self.inner = doc;
    }
}

} // verus!
