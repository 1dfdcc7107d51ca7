//! The calls that the serializer makes close every array and dictionary they open, and
//! never close one that is not open.
use vstd::prelude::*;
use crate::fleece_ser::{OpV, SerV, spec_elems_ops, spec_entries_ops, spec_fields_ops, spec_key_op, spec_ops, then_ops};
use crate::fleece_error::ErrorV;

verus! {

/// How a call changes the number of open containers: it opens one, closes one, or neither.
pub open spec fn op_depth(op: OpV) -> int {
    match op {
        OpV::BeginArray(_) => 1,
        OpV::BeginDict(_) => 1,
        OpV::EndArray => -1,
        OpV::EndDict => -1,
        _ => 0,
    }
}

/// The number of containers left open by the calls `ops`.
pub open spec fn depth(ops: Seq<OpV>) -> int
    decreases ops.len(),
{
    if ops.len() == 0 {
        0
    } else {
        depth(ops.drop_last()) + op_depth(ops.last())
    }
}

/// Whether the calls close every container they open and never close more than are open.
pub open spec fn well_nested(ops: Seq<OpV>) -> bool {
    &&& depth(ops) == 0
    &&& forall|k: int| 0 <= k <= ops.len() ==> depth(#[trigger] ops.take(k)) >= 0
}

proof fn lemma_depth_concat(a: Seq<OpV>, b: Seq<OpV>)
    ensures
        depth(a + b) == depth(a) + depth(b),
    decreases b.len(),
{
    if b.len() == 0 {
        assert(a + b =~= a);
    } else {
        assert((a + b).drop_last() =~= a + b.drop_last());
        assert((a + b).last() == b.last());
        lemma_depth_concat(a, b.drop_last());
    }
}

proof fn lemma_nested_concat(a: Seq<OpV>, b: Seq<OpV>)
    requires
        well_nested(a),
        well_nested(b),
    ensures
        well_nested(a + b),
{
    lemma_depth_concat(a, b);
    assert forall|k: int| 0 <= k <= (a + b).len() implies depth(#[trigger] (a + b).take(k)) >= 0 by {
        if k <= a.len() {
            assert((a + b).take(k) =~= a.take(k));
        } else {
            assert((a + b).take(k) =~= a + b.take(k - a.len()));
            assert(b.take(k - a.len()) == b.take(k - a.len()));
            lemma_depth_concat(a, b.take(k - a.len()));
            assert(a.take(a.len() as int) =~= a);
        }
    }
}

proof fn lemma_depth_single(op: OpV)
    ensures
        depth(seq![op]) == op_depth(op),
        depth(Seq::<OpV>::empty()) == 0,
{
    assert(seq![op].drop_last() =~= Seq::<OpV>::empty());
    assert(seq![op].last() == op);
    assert(depth(seq![op].drop_last()) == 0);
    assert(depth(seq![op]) == depth(seq![op].drop_last()) + op_depth(seq![op].last()));
}

proof fn lemma_nested_flat(op: OpV)
    requires
        op_depth(op) == 0,
    ensures
        well_nested(seq![op]),
{
    lemma_depth_single(op);
    assert forall|k: int| 0 <= k <= seq![op].len() implies depth(#[trigger] seq![op].take(k)) >= 0 by {
        if k == 0 {
            assert(seq![op].take(k) =~= Seq::<OpV>::empty());
        } else {
            assert(seq![op].take(k) =~= seq![op]);
        }
    }
}

proof fn lemma_nested_empty()
    ensures
        well_nested(Seq::<OpV>::empty()),
{
    assert forall|k: int| 0 <= k <= 0 implies depth(#[trigger] Seq::<OpV>::empty().take(k)) >= 0 by {
        assert(Seq::<OpV>::empty().take(k) =~= Seq::<OpV>::empty());
    }
}

proof fn lemma_nested_wrap(open: OpV, mid: Seq<OpV>, close: OpV)
    requires
        op_depth(open) == 1,
        op_depth(close) == -1,
        well_nested(mid),
    ensures
        well_nested(seq![open] + mid + seq![close]),
{
    let s = seq![open] + mid + seq![close];
    lemma_depth_single(open);
    lemma_depth_single(close);
    lemma_depth_concat(seq![open], mid);
    lemma_depth_concat(seq![open] + mid, seq![close]);
    assert forall|k: int| 0 <= k <= s.len() implies depth(#[trigger] s.take(k)) >= 0 by {
        if k == 0 {
            assert(s.take(k) =~= Seq::<OpV>::empty());
        } else if k <= mid.len() + 1 {
            assert(s.take(k) =~= seq![open] + mid.take(k - 1));
            lemma_depth_concat(seq![open], mid.take(k - 1));
            assert(depth(mid.take(k - 1)) >= 0);
        } else {
            assert(s.take(k) =~= s);
        }
    }
}

proof fn lemma_nested_then(a: Result<Seq<OpV>, ErrorV>, b: Result<Seq<OpV>, ErrorV>)
    requires
        a matches Ok(x) ==> well_nested(x),
        b matches Ok(y) ==> well_nested(y),
    ensures
        then_ops(a, b) matches Ok(z) ==> well_nested(z),
{
    if let (Ok(x), Ok(y)) = (a, b) {
        lemma_nested_concat(x, y);
    }
}

/// The calls that write a value of the data model are well nested.
pub proof fn lemma_ops_well_nested(v: SerV)
    ensures
        spec_ops(v) matches Ok(ops) ==> well_nested(ops),
    decreases v, 1int,
{
    match v {
        SerV::Bool(b) => lemma_nested_flat(OpV::WriteBool(b)),
        SerV::Int(i) => lemma_nested_flat(OpV::WriteInt(i)),
        SerV::UInt(u) => lemma_nested_flat(OpV::WriteUInt(u)),
        SerV::F32(b) => lemma_nested_flat(OpV::WriteFloat(b)),
        SerV::F64(b) => lemma_nested_flat(OpV::WriteDouble(b)),
        SerV::Char(c) => lemma_nested_flat(spec_ops(v)->Ok_0[0]),
        SerV::Str(s) => lemma_nested_flat(spec_ops(v)->Ok_0[0]),
        SerV::Bytes(_) => {},
        SerV::NoneValue => lemma_nested_flat(OpV::WriteNull),
        SerV::SomeValue(x) => lemma_ops_well_nested(*x),
        SerV::Unit => lemma_nested_flat(OpV::WriteNull),
        SerV::UnitStruct => lemma_nested_flat(OpV::WriteNull),
        SerV::UnitVariant(n) => lemma_nested_flat(spec_ops(v)->Ok_0[0]),
        SerV::NewtypeStruct(x) => lemma_ops_well_nested(*x),
        SerV::NewtypeVariant(n, x) => {
            lemma_ops_well_nested(*x);
            if let Ok(m) = spec_ops(*x) {
                let key = seq![OpV::WriteKey(vstd::utf8::encode_utf8(n))];
                lemma_nested_flat(key[0]);
                assert(key =~= seq![key[0]]);
                lemma_nested_concat(key, m);
                lemma_nested_wrap(OpV::BeginDict(1), key + m, OpV::EndDict);
                assert(seq![OpV::BeginDict(1), key[0]] + m + seq![OpV::EndDict] =~= seq![OpV::BeginDict(1)] + (key + m) + seq![OpV::EndDict]);
            }
        },
        SerV::Sequence(h, xs) => {
            lemma_elems_well_nested(xs);
            if let Ok(m) = spec_elems_ops(xs) {
                let b = OpV::BeginArray(if h is Some { h->0 } else { 0 });
                lemma_nested_wrap(b, m, OpV::EndArray);
            }
        },
        SerV::Tuple(l, xs) => {
            lemma_elems_well_nested(xs);
            if let Ok(m) = spec_elems_ops(xs) {
                lemma_nested_wrap(OpV::BeginArray(l), m, OpV::EndArray);
            }
        },
        SerV::TupleStruct(l, xs) => {
            lemma_elems_well_nested(xs);
            if let Ok(m) = spec_elems_ops(xs) {
                lemma_nested_wrap(OpV::BeginArray(l), m, OpV::EndArray);
            }
        },
        SerV::TupleVariant(n, l, xs) => {
            lemma_elems_well_nested(xs);
            if let Ok(m) = spec_elems_ops(xs) {
                let key = OpV::WriteKey(vstd::utf8::encode_utf8(n));
                lemma_nested_wrap(OpV::BeginArray(l), m, OpV::EndArray);
                let inner = seq![OpV::BeginArray(l)] + m + seq![OpV::EndArray];
                lemma_nested_flat(key);
                lemma_nested_concat(seq![key], inner);
                lemma_nested_wrap(OpV::BeginDict(1), seq![key] + inner, OpV::EndDict);
                assert(seq![OpV::BeginDict(1), key, OpV::BeginArray(l)] + m + seq![OpV::EndArray, OpV::EndDict]
                    =~= seq![OpV::BeginDict(1)] + (seq![key] + inner) + seq![OpV::EndDict]);
            }
        },
        SerV::MapEntries(h, es) => {
            lemma_entries_well_nested(es);
            if let Ok(m) = spec_entries_ops(es) {
                let b = OpV::BeginDict(if h is Some { h->0 } else { 0 });
                lemma_nested_wrap(b, m, OpV::EndDict);
            }
        },
        SerV::Struct(l, fs) => {
            lemma_fields_well_nested(fs);
            if let Ok(m) = spec_fields_ops(fs) {
                lemma_nested_wrap(OpV::BeginDict(l), m, OpV::EndDict);
            }
        },
        SerV::StructVariant(n, l, fs) => {
            lemma_fields_well_nested(fs);
            if let Ok(m) = spec_fields_ops(fs) {
                let key = OpV::WriteKey(vstd::utf8::encode_utf8(n));
                lemma_nested_wrap(OpV::BeginDict(l), m, OpV::EndDict);
                let inner = seq![OpV::BeginDict(l)] + m + seq![OpV::EndDict];
                lemma_nested_flat(key);
                lemma_nested_concat(seq![key], inner);
                lemma_nested_wrap(OpV::BeginDict(1), seq![key] + inner, OpV::EndDict);
                assert(seq![OpV::BeginDict(1), key, OpV::BeginDict(l)] + m + seq![OpV::EndDict, OpV::EndDict]
                    =~= seq![OpV::BeginDict(1)] + (seq![key] + inner) + seq![OpV::EndDict]);
            }
        },
    }
}

proof fn lemma_elems_well_nested(xs: Seq<SerV>)
    ensures
        spec_elems_ops(xs) matches Ok(ops) ==> well_nested(ops),
    decreases xs, 0int,
{
    if xs.len() == 0 {
        lemma_nested_empty();
    } else {
        assert(decreases_to!(xs => xs.drop_last())) by {
            vstd::seq::axiom_seq_len_decreases(xs, xs.drop_last());
        }
        assert(decreases_to!(xs => xs.last()));
        lemma_elems_well_nested(xs.drop_last());
        lemma_ops_well_nested(xs.last());
        lemma_nested_then(spec_elems_ops(xs.drop_last()), spec_ops(xs.last()));
    }
}

proof fn lemma_entries_well_nested(es: Seq<(SerV, SerV)>)
    ensures
        spec_entries_ops(es) matches Ok(ops) ==> well_nested(ops),
    decreases es, 0int,
{
    if es.len() == 0 {
        lemma_nested_empty();
    } else {
        assert(decreases_to!(es => es.drop_last())) by {
            vstd::seq::axiom_seq_len_decreases(es, es.drop_last());
        }
        assert(decreases_to!(es => es.last()));
        assert(decreases_to!(es.last() => es.last().1));
        lemma_entries_well_nested(es.drop_last());
        lemma_ops_well_nested(es.last().1);
        let k = match spec_key_op(es.last().0) {
            Ok(op) => Ok(seq![op]),
            Err(e) => Err(e),
        };
        if let Ok(op) = spec_key_op(es.last().0) {
            lemma_key_op_flat(es.last().0);
            lemma_nested_flat(op);
        }
        lemma_nested_then(k, spec_ops(es.last().1));
        lemma_nested_then(spec_entries_ops(es.drop_last()), then_ops(k, spec_ops(es.last().1)));
    }
}

proof fn lemma_key_op_flat(k: SerV)
    ensures
        spec_key_op(k) matches Ok(op) ==> op_depth(op) == 0,
    decreases k,
{
    if let SerV::NewtypeStruct(x) = k {
        lemma_key_op_flat(*x);
    }
}

proof fn lemma_fields_well_nested(fs: Seq<(Seq<char>, SerV)>)
    ensures
        spec_fields_ops(fs) matches Ok(ops) ==> well_nested(ops),
    decreases fs, 0int,
{
    if fs.len() == 0 {
        lemma_nested_empty();
    } else {
        assert(decreases_to!(fs => fs.drop_last())) by {
            vstd::seq::axiom_seq_len_decreases(fs, fs.drop_last());
        }
        assert(decreases_to!(fs => fs.last()));
        assert(decreases_to!(fs.last() => fs.last().1));
        lemma_fields_well_nested(fs.drop_last());
        lemma_ops_well_nested(fs.last().1);
        let key = OpV::WriteKey(vstd::utf8::encode_utf8(fs.last().0));
        lemma_nested_flat(key);
        lemma_nested_then(Ok(seq![key]), spec_ops(fs.last().1));
        lemma_nested_then(
            spec_fields_ops(fs.drop_last()),
            then_ops(Ok(seq![key]), spec_ops(fs.last().1)),
        );
    }
}

} // verus!
