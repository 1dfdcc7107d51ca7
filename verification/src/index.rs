//! Database indexes: the description of one to create, and the list the engine reports.
use vstd::prelude::*;
use vstd::utf8::{valid_utf8, decode_utf8};
use vstd::string::StringSliceAdditionalSpecFns;
use crate::error::{Error, ErrorKind, NulError, check_no_nul};
use crate::fleece::{FlValue, dict_get, spec_key_index, spec_type_name, spec_value_type, value_type_name};
use crate::fl_slice::{utf8_str, lemma_str_bytes_decode};

verus! {

/// Database's index types.
#[derive(Clone, Copy, PartialEq, Eq, Structural, Debug)]
pub enum IndexType {
    /// Regular index of property value.
    ValueIndex,
    /// Full-text index.
    FullTextIndex,
    /// Index of array values, for use with UNNEST.
    ArrayIndex,
    /// Index of prediction() results.
    PredictiveIndex,
}

/// Options of a full-text index.
pub struct IndexOptions<'a> {
    /// Dominant language of the indexed text.
    pub language: &'a str,
    /// Whether diacritical marks are ignored.
    pub ignore_diacritics: bool,
    /// Whether stemming is disabled.
    pub disable_stemming: bool,
    /// Words to ignore; `None` for the language's default list.
    pub stop_words: Option<&'a [&'a str]>,
}

/// The engine's code of an index type.
pub open spec fn spec_index_type_code(t: IndexType) -> u32 {
    match t {
        IndexType::ValueIndex => 0,
        IndexType::FullTextIndex => 1,
        IndexType::ArrayIndex => 2,
        IndexType::PredictiveIndex => 3,
    }
}

/// The engine's code of an index type.
pub fn index_type_code(t: IndexType) -> (r: u32)
    ensures
        r == spec_index_type_code(t),
{
    match t {
        IndexType::ValueIndex => 0,
        IndexType::FullTextIndex => 1,
        IndexType::ArrayIndex => 2,
        IndexType::PredictiveIndex => 3,
    }
}

/// The words joined by single spaces, as they are added one by one: a space goes
/// before a word only when the text so far is not empty.
pub open spec fn spec_join_words(words: Seq<Seq<char>>) -> Seq<char>
    decreases words.len(),
{
    if words.len() == 0 {
        Seq::empty()
    } else {
        let acc = spec_join_words(words.drop_last());
        if acc.len() > 0 {
            acc + seq![' '] + words.last()
        } else {
            acc + words.last()
        }
    }
}

/// Whether some word is not empty.
pub open spec fn some_word(words: Seq<Seq<char>>) -> bool {
    exists|i: int| 0 <= i < words.len() && words[i].len() > 0
}

/// The joined list is empty exactly when every word is.
proof fn lemma_join_empty(words: Seq<Seq<char>>)
    ensures
        spec_join_words(words).len() > 0 <==> some_word(words),
    decreases words.len(),
{
    if words.len() > 0 {
        let init = words.drop_last();
        lemma_join_empty(init);
        if some_word(init) {
            let i = choose|i: int| 0 <= i < init.len() && init[i].len() > 0;
            assert(words[i] == init[i]);
        }
        if some_word(words) && !some_word(init) {
            let i = choose|i: int| 0 <= i < words.len() && words[i].len() > 0;
            if i < init.len() {
                assert(init[i] == words[i]);
            }
        }
        if !some_word(words) {
            assert(words[words.len() - 1].len() == 0);
        }
    }
}

/// The stop-word list is the words separated by single ASCII spaces: one word is the list
/// itself, and, once a word that is not empty came before, each further word is added after
/// exactly one space. Empty words before the first non-empty one add nothing.
pub proof fn lemma_join_words_spaced(words: Seq<Seq<char>>, w: Seq<char>)
    ensures
        spec_join_words(seq![w]) == w,
        some_word(words) ==> spec_join_words(words.push(w)) == spec_join_words(words) + seq![' '] + w,
        !some_word(words) ==> spec_join_words(words.push(w)) == w,
        spec_join_words(seq![w, w]) == (if w.len() > 0 { w + seq![' '] + w } else { w }),
{
    assert(seq![w].drop_last() =~= Seq::<Seq<char>>::empty());
    assert(words.push(w).drop_last() =~= words);
    lemma_join_empty(words);
    assert(spec_join_words(Seq::<Seq<char>>::empty()) + w =~= w);
    let ww = seq![w, w];
    assert(ww.drop_last() =~= seq![w]);
    assert(ww.last() == w);
    assert(spec_join_words(seq![w]) == w);
    if w.len() == 0 {
        assert(w + w =~= w);
    }
}

/// The texts of a list of words.
pub open spec fn words_view(words: Seq<&str>) -> Seq<Seq<char>> {
    Seq::new(words.len(), |i: int| words[i]@)
}

/// Joins stop words into the list that the engine takes.
pub fn join_words(words: &[&str]) -> (r: String)
    ensures
        r@ == spec_join_words(words_view(words@)),
{
    let mut list = String::new();
    let mut i: usize = 0;
    let ghost wv = words_view(words@);
    assert(wv.take(0) =~= Seq::<Seq<char>>::empty());
    while i < words.len()
        invariant
            i <= words@.len(),
            wv == words_view(words@),
            list@ == spec_join_words(wv.take(i as int)),
        decreases words@.len() - i,
    {
        let word: &str = words[i];
        assert(wv.take(i + 1).drop_last() =~= wv.take(i as int));
        assert(wv.take(i + 1).last() == word@);
        if list.as_str().unicode_len() > 0 {
            list.append(" ");
        }
        list.append(word);
        proof {
            if spec_join_words(wv.take(i as int)).len() > 0 {
                assert(list@ =~= spec_join_words(wv.take(i as int)) + seq![' '] + word@) by {
                    reveal_strlit(" ");
                }
            }
        }
        i = i + 1;
    }
    assert(wv.take(i as int) =~= wv);
    list
}

/// The index options as the engine takes them: texts without NUL.
pub struct C4IndexOptions {
    pub language: Vec<u8>,
    pub disable_stemming: bool,
    pub ignore_diacritics: bool,
    pub stop_words: Option<Vec<u8>>,
}

/// Whether `p` is the position of the first NUL byte of `s`.
pub open spec fn is_first_nul(s: Seq<u8>, p: int) -> bool {
    0 <= p < s.len() && s[p] == 0 && forall|j: int| 0 <= j < p ==> s[j] != 0
}

/// Checks and converts index options for the engine: the language, then the joined stop
/// words, must hold no NUL byte.
pub fn index_options_request(opts: &IndexOptions) -> (r: Result<C4IndexOptions, Error>)
    ensures
        (exists|j: int| 0 <= j < opts.language.spec_bytes().len() && opts.language.spec_bytes()[j] == 0)
            ==> (r matches Err(e) && e@ matches ErrorKind::NulError(p, b) && is_first_nul(opts.language.spec_bytes(), p as int)
                && b == opts.language.spec_bytes()),
        !(exists|j: int| 0 <= j < opts.language.spec_bytes().len() && opts.language.spec_bytes()[j] == 0)
            ==> (r matches Err(e) ==> (opts.stop_words matches Some(ws) && e@ matches ErrorKind::NulError(p, b)
            && is_first_nul(vstd::utf8::encode_utf8(spec_join_words(words_view(ws@))), p as int)
            && b == vstd::utf8::encode_utf8(spec_join_words(words_view(ws@))))),
        r matches Ok(o) ==> o.language@ == opts.language.spec_bytes() && o.disable_stemming
            == opts.disable_stemming && o.ignore_diacritics == opts.ignore_diacritics
            && (opts.stop_words is None <==> o.stop_words is None),
        r matches Ok(o) ==> (o.stop_words matches Some(w) ==> w@ == vstd::utf8::encode_utf8(
            spec_join_words(words_view(opts.stop_words->Some_0@)),
        )),
        r is Ok <==> (forall|j: int| 0 <= j < opts.language.spec_bytes().len() ==> opts.language.spec_bytes()[j] != 0)
            && (opts.stop_words matches Some(ws) ==> forall|j: int| 0 <= j < vstd::utf8::encode_utf8(spec_join_words(words_view(ws@))).len() ==> vstd::utf8::encode_utf8(spec_join_words(words_view(ws@)))[j] != 0),
{
    let language = opts.language.as_bytes();
    match check_no_nul(language) {
        Ok(()) => {},
        Err(e) => return Err(Error::NulError(e)),
    }
    let stop_words = match opts.stop_words {
        Some(words) => {
            let list = join_words(words);
            let bytes = list.as_str().as_bytes();
            match check_no_nul(bytes) {
                Ok(()) => {},
                Err(e) => return Err(Error::NulError(e)),
            }
            Some(vstd::slice::slice_to_vec(bytes))
        },
        None => None,
    };
    Ok(C4IndexOptions {
        language: vstd::slice::slice_to_vec(language),
        disable_stemming: opts.disable_stemming,
        ignore_diacritics: opts.ignore_diacritics,
        stop_words,
    })
}

/// The description of an index that the engine reports.
pub struct IndexInfo {
    pub name: Vec<u8>,
    /// The kind of index, as the engine numbers it.
    pub type_: u32,
    pub expr: Vec<u8>,
}

impl IndexInfo {
    /// The index's name as text.
    pub fn name_as_str(&self) -> (r: Result<&str, Error>)
        ensures
            valid_utf8(self.name@) ==> (r matches Ok(s) && s@ == decode_utf8(self.name@)),
            !valid_utf8(self.name@) ==> (r matches Err(e) && e@ == ErrorKind::InvalidUtf8),
    {
        match utf8_str(self.name.as_slice()) {
            Some(s) => {
                proof {
                    lemma_str_bytes_decode(s);
                }
                Ok(s)
            },
            None => Err(Error::InvalidUtf8),
        }
    }

    /// The index's type code.
    pub fn type_(&self) -> (r: u32)
        ensures
            r == self.type_,
    {
        self.type_
    }

    /// The indexed expression as text.
    pub fn expr_as_str(&self) -> (r: Result<&str, Error>)
        ensures
            valid_utf8(self.expr@) ==> (r matches Ok(s) && s@ == decode_utf8(self.expr@)),
            !valid_utf8(self.expr@) ==> (r matches Err(e) && e@ == ErrorKind::InvalidUtf8),
    {
        match utf8_str(self.expr.as_slice()) {
            Some(s) => {
                proof {
                    lemma_str_bytes_decode(s);
                }
                Ok(s)
            },
            None => Err(Error::InvalidUtf8),
        }
    }
}

/// What reading the text under `key` of an index description gives.
pub open spec fn spec_get_str(dict: Seq<(Vec<u8>, FlValue)>, key: Seq<char>) -> Result<Seq<u8>, ErrorKind> {
    let k = spec_key_index(dict, vstd::utf8::encode_utf8(key));
    if k < 0 {
        Err(ErrorKind::LogicError("No '"@ + key + "' key in index info dict"@))
    } else if let FlValue::String(b) = dict[k].1 {
        if valid_utf8(b@) {
            Ok(b@)
        } else {
            Err(ErrorKind::InvalidUtf8)
        }
    } else {
        Err(ErrorKind::LogicError("Key '"@ + key + "' in index info dict has not string type"@))
    }
}

fn get_str(dict: &Vec<(Vec<u8>, FlValue)>, key: &str) -> (r: Result<Vec<u8>, Error>)
    ensures
        r matches Ok(b) ==> spec_get_str(dict@, key@) == Ok::<Seq<u8>, ErrorKind>(b@),
        r matches Err(e) ==> spec_get_str(dict@, key@) == Err::<Seq<u8>, ErrorKind>(e@),
{
    match dict_get(dict, key.as_bytes()) {
        None => {
            let mut msg = String::from_str("No '");
            msg.append(key);
            msg.append("' key in index info dict");
            Err(Error::LogicError(msg))
        },
        Some(FlValue::String(b)) => {
            match utf8_str(b.as_slice()) {
                Some(_) => Ok(vstd::slice::slice_to_vec(b.as_slice())),
                None => Err(Error::InvalidUtf8),
            }
        },
        Some(_) => {
            let mut msg = String::from_str("Key '");
            msg.append(key);
            msg.append("' in index info dict has not string type");
            Err(Error::LogicError(msg))
        },
    }
}

/// What reading the type code of an index description gives.
pub open spec fn spec_index_type(dict: Seq<(Vec<u8>, FlValue)>) -> Result<u32, ErrorKind> {
    let k = spec_key_index(dict, vstd::utf8::encode_utf8("type"@));
    if k < 0 {
        Err(ErrorKind::LogicError("No 'type' key in index info dict"@))
    } else if let FlValue::Number(n) = dict[k].1 {
        if !n.is_integer {
            Err(ErrorKind::LogicError("Key 'type' in index info dict has not integer type"@))
        } else if 0 <= n.as_int <= u32::MAX {
            Ok(n.as_int as u32)
        } else {
            Err(ErrorKind::LogicError("Can convert index type to u32: out of range integral type conversion attempted"@))
        }
    } else {
        Err(ErrorKind::LogicError("Key 'type' in index info dict has not integer type"@))
    }
}

impl IndexInfo {
    /// Reads an index description out of its dictionary: the integer
    /// under "type", then the texts under "name" and "expr".
    pub fn try_from_dict(dict: &Vec<(Vec<u8>, FlValue)>) -> (r: Result<IndexInfo, Error>)
        ensures
            spec_index_type(dict@) matches Err(e) ==> (r matches Err(x) && x@ == e),
            spec_index_type(dict@) matches Ok(t) ==> (spec_get_str(dict@, "name"@) matches Err(e) ==> (r matches Err(x) && x@ == e)),
            spec_index_type(dict@) matches Ok(t) ==> (spec_get_str(dict@, "name"@) matches Ok(n) ==> (spec_get_str(dict@, "expr"@) matches Err(e) ==> (r matches Err(x) && x@ == e))),
            r matches Ok(info) ==> spec_index_type(dict@) == Ok::<u32, ErrorKind>(info.type_)
                && spec_get_str(dict@, "name"@) == Ok::<Seq<u8>, ErrorKind>(info.name@)
                && spec_get_str(dict@, "expr"@) == Ok::<Seq<u8>, ErrorKind>(info.expr@),
            (spec_index_type(dict@) is Ok && spec_get_str(dict@, "name"@) is Ok && spec_get_str(dict@, "expr"@) is Ok) ==> r is Ok,
    {
        let type_key = "type";
        let t = match dict_get(dict, type_key.as_bytes()) {
            None => return Err(Error::LogicError(String::from_str("No 'type' key in index info dict"))),
            Some(v) => v,
        };
        let n = match t {
            FlValue::Number(n) => {
                if !n.is_integer {
                    return Err(Error::LogicError(String::from_str("Key 'type' in index info dict has not integer type")));
                }
                n
            },
            _ => return Err(Error::LogicError(String::from_str("Key 'type' in index info dict has not integer type"))),
        };
        if n.as_int < 0 || n.as_int > u32::MAX as i64 {
            return Err(Error::LogicError(String::from_str("Can convert index type to u32: out of range integral type conversion attempted")));
        }
        let type_ = n.as_int as u32;
        let name = get_str(dict, "name")?;
        let expr = get_str(dict, "expr")?;
        Ok(IndexInfo { name, type_, expr })
    }
}

/// Walks the index descriptions reported by the engine.
pub struct DbIndexesListIterator<'a> {
    pub array: &'a Vec<FlValue>,
    pub next_idx: usize,
    pub cur_val: Option<IndexInfo>,
}

impl<'a> DbIndexesListIterator<'a> {
    /// Walks the list `data`, which must be an array.
    pub fn new(data: &'a FlValue) -> (r: Result<DbIndexesListIterator<'a>, Error>)
        ensures
            data is Array ==> (r matches Ok(it) && it.array == &data->Array_0 && it.next_idx == 0 && it.cur_val is None),
            !(data is Array) ==> (r matches Err(e) && e@ == ErrorKind::LogicError("db indexes are not fleece encoded array"@)),
    {
        match data {
            FlValue::Array(array) => Ok(DbIndexesListIterator { array, next_idx: 0, cur_val: None }),
            _ => Err(Error::LogicError(String::from_str("db indexes are not fleece encoded array"))),
        }
    }

    /// Moves to the next description; past the last one, the current one is `None`.
    pub fn advance(&mut self) -> (r: Result<(), Error>)
        ensures
            final(self).array == old(self).array,
            old(self).next_idx >= old(self).array@.len() ==> (r is Ok && final(self).cur_val is None && final(self).next_idx == old(self).next_idx),
            old(self).next_idx < old(self).array@.len() && !(old(self).array@[old(self).next_idx as int] is Dict) ==> (r matches Err(e) && e@ == ErrorKind::LogicError(
                "Wrong index type, expect String, got "@ + spec_type_name(spec_value_type(old(self).array@[old(self).next_idx as int])),
            )),
            old(self).next_idx < old(self).array@.len() && old(self).array@[old(self).next_idx as int] is Dict ==> ({
                let d = old(self).array@[old(self).next_idx as int]->Dict_0@;
                &&& r is Ok ==> (final(self).cur_val matches Some(info) && final(self).next_idx == old(self).next_idx + 1
                    && spec_index_type(d) == Ok::<u32, ErrorKind>(info.type_)
                    && spec_get_str(d, "name"@) == Ok::<Seq<u8>, ErrorKind>(info.name@)
                    && spec_get_str(d, "expr"@) == Ok::<Seq<u8>, ErrorKind>(info.expr@))
                &&& r is Err <==> !(spec_index_type(d) is Ok && spec_get_str(d, "name"@) is Ok && spec_get_str(d, "expr"@) is Ok)
            }),
    {
        if self.next_idx < self.array.len() {
            let val = &self.array[self.next_idx];
            match val {
                FlValue::Dict(d) => {
                    let info = IndexInfo::try_from_dict(d)?;
                    self.cur_val = Some(info);
                    self.next_idx = self.next_idx + 1;
                    Ok(())
                },
                _ => {
                    let mut msg = String::from_str("Wrong index type, expect String, got ");
                    msg.append(value_type_name(val.value_type()));
                    Err(Error::LogicError(msg))
                },
            }
        } else {
            self.cur_val = None;
            Ok(())
        }
    }

    /// The current description.
    pub fn get(&self) -> (r: Option<&IndexInfo>)
        ensures
            r == (match &self.cur_val {
                Some(i) => Some(i),
                None => None::<&IndexInfo>,
            }),
    {
        match &self.cur_val {
            Some(i) => Some(i),
            None => None,
        }
    }
}

} // verus!
