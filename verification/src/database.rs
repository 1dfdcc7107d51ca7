//! Opening a database: its configuration and the name it is opened under, and the reads of
//! the engine that a missing document does not fail.
use vstd::prelude::*;
use vstd::utf8::{valid_utf8, decode_utf8};
use vstd::string::StringSliceAdditionalSpecFns;
use crate::error::{C4Error, Error, ErrorKind, is_not_found};
use crate::fl_slice::utf8_str;

verus! {

/// Create the file if it does not exist.
pub const K_C4_DB_CREATE: u32 = 0x01;
/// Open the file read-only.
pub const K_C4_DB_READ_ONLY: u32 = 0x02;
/// Do not upgrade a database of an older version.
pub const K_C4_DB_NO_UPGRADE: u32 = 0x20;
/// No observers of the database, for slightly faster writes.
pub const K_C4_DB_NON_OBSERVABLE: u32 = 0x40;

/// The flags a database is opened with.
#[derive(Clone, Copy, PartialEq, Eq, Structural, Debug)]
pub struct DatabaseFlags {
    pub bits: u32,
}

impl DatabaseFlags {
    /// Create the file if it does not exist.
    pub fn create() -> (r: DatabaseFlags)
        ensures
            r.bits == K_C4_DB_CREATE,
    {
        DatabaseFlags { bits: K_C4_DB_CREATE }
    }

    /// Open the file read-only.
    pub fn read_only() -> (r: DatabaseFlags)
        ensures
            r.bits == K_C4_DB_READ_ONLY,
    {
        DatabaseFlags { bits: K_C4_DB_READ_ONLY }
    }

    /// Do not upgrade a database of an older version.
    pub fn no_upgrade() -> (r: DatabaseFlags)
        ensures
            r.bits == K_C4_DB_NO_UPGRADE,
    {
        DatabaseFlags { bits: K_C4_DB_NO_UPGRADE }
    }

    /// No observers of the database.
    pub fn non_observable() -> (r: DatabaseFlags)
        ensures
            r.bits == K_C4_DB_NON_OBSERVABLE,
    {
        DatabaseFlags { bits: K_C4_DB_NON_OBSERVABLE }
    }

    /// The flags as the engine reads them.
    pub fn bits(&self) -> (r: u32)
        ensures
            r == self.bits,
    {
        self.bits
    }

    /// The flags of both.
    pub fn union(self, other: DatabaseFlags) -> (r: DatabaseFlags)
        ensures
            r.bits == self.bits | other.bits,
    {
        DatabaseFlags { bits: self.bits | other.bits }
    }
}

/// How a database file is encrypted.
#[derive(Clone, Copy, PartialEq, Eq, Structural, Debug)]
pub enum C4EncryptionAlgorithm {
    NoEncryption,
    Aes256,
}

/// The key a database file is encrypted with.
#[derive(Clone, Copy)]
pub struct C4EncryptionKey {
    pub algorithm: C4EncryptionAlgorithm,
    pub bytes: [u8; 32],
}

/// What the engine opens a database with.
pub struct C4DatabaseConfig2<'a> {
    pub parent_directory: &'a str,
    pub flags: u32,
    pub encryption_key: C4EncryptionKey,
}

/// The configuration of a database to open: the engine's configuration,
/// or the error that making it met.
pub struct DatabaseConfig<'a> {
    pub inner: Result<C4DatabaseConfig2<'a>, Error>,
}

/// Whether `cfg` is the configuration for a database in the directory whose path has the
/// bytes `parent`, opened with `flags`: without encryption and with an all-zero key, or the
/// UTF-8 error when the path is not UTF-8.
pub open spec fn is_config_for(cfg: DatabaseConfig, parent: Seq<u8>, flags: DatabaseFlags) -> bool {
    &&& (cfg.inner is Ok <==> valid_utf8(parent))
    &&& (cfg.inner matches Ok(c) ==> c.parent_directory@ == decode_utf8(parent) && c.flags == flags.bits
        && c.encryption_key.algorithm == C4EncryptionAlgorithm::NoEncryption)
    &&& (cfg.inner matches Ok(c) ==> c.encryption_key.bytes@.len() == 32 && forall|i: int|
        0 <= i < 32 ==> c.encryption_key.bytes@[i] == 0u8)
    &&& (cfg.inner matches Err(e) ==> e@ is InvalidUtf8)
}

impl<'a> DatabaseConfig<'a> {
    /// The configuration for a database in the directory whose path has the bytes
    /// `parent_directory`, opened with `flags` and without encryption (an all-zero key). A path that is not
    /// UTF-8 gives an error, kept until the database is opened.
    pub fn new(parent_directory: &'a [u8], flags: DatabaseFlags) -> (r: Self)
        ensures
            is_config_for(r, parent_directory@, flags),
    {
        match utf8_str(parent_directory) {
            Some(path) => {
                proof {
                    crate::fl_slice::lemma_str_bytes_decode(path);
                }
                DatabaseConfig {
                    inner: Ok(
                        C4DatabaseConfig2 {
                            parent_directory: path,
                            flags: flags.bits(),
                            encryption_key: C4EncryptionKey {
                                algorithm: C4EncryptionAlgorithm::NoEncryption,
                                bytes: [0u8; 32],
                            },
                        },
                    ),
                }
            },
            None => DatabaseConfig { inner: Err(Error::InvalidUtf8) },
        }
    }
}

/// The bytes of the extension of a database directory, ".cblite2".
pub open spec fn cblite2_suffix() -> Seq<u8> {
    seq![46u8, 99, 98, 108, 105, 116, 101, 50]
}

/// Whether `bytes` ends with ".cblite2".
pub open spec fn has_cblite2_suffix(bytes: Seq<u8>) -> bool {
    bytes.len() >= 8 && bytes.subrange(bytes.len() - 8, bytes.len() as int) == cblite2_suffix()
}

/// What opening a database by its path reads of the path: the
/// directory it is in and the name it is opened under, or the error. `path_debug` is how the
/// path is shown in messages; `parent` and `file_name` are the bytes of the path's parent
/// and last part, when it has them.
pub open spec fn spec_open_target(
    path_debug: Seq<char>,
    parent: Option<Seq<u8>>,
    file_name: Option<Seq<u8>>,
) -> Result<(Seq<u8>, Seq<char>), ErrorKind> {
    match parent {
        None => Err(ErrorKind::LogicError("path "@ + path_debug + " has no parent diretory"@)),
        Some(p) => match file_name {
            None => Err(ErrorKind::LogicError("path "@ + path_debug + " has no last part"@)),
            Some(f) => if !valid_utf8(f) {
                Err(ErrorKind::InvalidUtf8)
            } else if !has_cblite2_suffix(f) {
                Err(
                    ErrorKind::LogicError(
                        "path "@ + path_debug + " should have last part with .cblite2 suffix"@,
                    ),
                )
            } else {
                Ok((p, decode_utf8(f.subrange(0, f.len() - 8))))
            },
        },
    }
}

fn path_error(path_debug: &str, what: &str) -> (r: Error)
    ensures
        r@ == ErrorKind::LogicError("path "@ + path_debug@ + what@),
{
    let mut msg = String::from_str("path ");
    msg.append(path_debug);
    msg.append(what);
    Error::LogicError(msg)
}

/// The configuration and the name to open a database with, from its path: the path's
/// parent is the directory, and its last part, without the ".cblite2" extension, the name.
/// The configuration is the one that `DatabaseConfig::new` makes of the parent and `flags`.
pub fn open_target<'a>(
    path_debug: &str,
    parent: Option<&'a [u8]>,
    file_name: Option<&'a [u8]>,
    flags: DatabaseFlags,
) -> (r: Result<(DatabaseConfig<'a>, &'a str), Error>)
    ensures
        r is Ok <==> spec_open_target(path_debug@, opt_bytes(parent), opt_bytes(file_name)) is Ok,
        r matches Err(e) ==> spec_open_target(path_debug@, opt_bytes(parent), opt_bytes(file_name))
            == Err::<(Seq<u8>, Seq<char>), ErrorKind>(e@),
        r matches Ok((cfg, name)) ==> ({
            let t = spec_open_target(path_debug@, opt_bytes(parent), opt_bytes(file_name))->Ok_0;
            &&& name@ == t.1
            &&& is_config_for(cfg, t.0, flags)
        }),
{
    let parent = match parent {
        Some(p) => p,
        None => return Err(path_error(path_debug, " has no parent diretory")),
    };
    let cfg = DatabaseConfig::new(parent, flags);
    let file_name = match file_name {
        Some(f) => f,
        None => return Err(path_error(path_debug, " has no last part")),
    };
    let text = match utf8_str(file_name) {
        Some(t) => t,
        None => return Err(Error::InvalidUtf8),
    };
    let n = file_name.len();
    let suffix: [u8; 8] = [46u8, 99, 98, 108, 105, 116, 101, 50];
    let mut ends = n >= 8;
    let mut k: usize = 0;
    while ends && k < 8
        invariant
            n == file_name@.len(),
            ends ==> n >= 8,
            k <= 8,
            suffix@ == cblite2_suffix(),
            ends ==> forall|j: int| 0 <= j < k ==> file_name@[n - 8 + j] == suffix@[j],
            !ends ==> !has_cblite2_suffix(file_name@),
        decreases 8 - k,
    {
        if file_name[n - 8 + k] != suffix[k] {
            ends = false;
            assert(file_name@.subrange(n - 8, n as int)[k as int] != cblite2_suffix()[k as int]);
        }
        k = k + 1;
    }
    if !ends {
        return Err(path_error(path_debug, " should have last part with .cblite2 suffix"));
    }
    assert(file_name@.subrange(n - 8, n as int) =~= cblite2_suffix());
    proof {
        crate::fl_slice::lemma_str_bytes_decode(text);
        assert(text.spec_bytes() == file_name@);
        assert(!vstd::utf8::is_continuation_byte(file_name@[n - 8]));
        vstd::utf8::is_char_boundary_iff_not_is_continuation_byte(file_name@, n - 8);
    }
    let (name, _) = text.split_at(n - 8);
    proof {
        vstd::utf8::valid_utf8_split(file_name@, n - 8);
        crate::fl_slice::lemma_str_bytes_decode(name);
    }
    Ok((cfg, name))
}

/// The bytes of an optional byte slice.
pub open spec fn opt_bytes(b: Option<&[u8]>) -> Option<Seq<u8>> {
    match b {
        Some(x) => Some(x@),
        None => None,
    }
}

/// A read of the engine in which a missing document is no error:
/// the engine's "not found" becomes `None`.
pub fn not_found_as_none<T>(res: Result<T, Error>) -> (r: Result<Option<T>, Error>)
    ensures
        res matches Ok(x) ==> r == Ok::<Option<T>, Error>(Some(x)),
        res matches Err(e) ==> (e@ matches ErrorKind::C4Error(c) && is_not_found(c) ==> r == Ok::<
            Option<T>,
            Error,
        >(None)),
        res matches Err(e) ==> (!(e@ matches ErrorKind::C4Error(c) && is_not_found(c)) ==> (r matches Err(
            x,
        ) && x@ == e@)),
{
    match res {
        Ok(x) => Ok(Some(x)),
        Err(e) => {
            if e.is_c4_not_found() {
                Ok(None)
            } else {
                Err(e)
            }
        },
    }
}

/// The outcome of asking the engine for the shared Fleece encoder:
/// an error when it has none.
pub fn shared_encoder_result(found: bool) -> (r: Result<(), Error>)
    ensures
        found ==> r is Ok,
        !found ==> (r matches Err(e) && e@ == ErrorKind::LogicError(
            "c4db_getSharedFleeceEncoder return null.into()"@,
        )),
{
    if found {
        Ok(())
    } else {
        Err(Error::logic("c4db_getSharedFleeceEncoder return null.into()"))
    }
}

/// The name of a database from the bytes the engine gives: an error when
/// they are not UTF-8.
pub fn database_name(bytes: &[u8]) -> (r: Result<&str, Error>)
    ensures
        r is Ok <==> valid_utf8(bytes@),
        r matches Ok(s) ==> s@ == decode_utf8(bytes@),
        r matches Err(e) ==> e@ is InvalidUtf8,
{
    match utf8_str(bytes) {
        Some(s) => {
            proof {
                crate::fl_slice::lemma_str_bytes_decode(s);
            }
            Ok(s)
        },
        None => Err(Error::InvalidUtf8),
    }
}

} // verus!
