//! The query encoder: a typed parameter set becomes the `&name=value`
//! chain that follows the fixed `?oauth_token=...&fields=*` prefix of
//! every request URL.

use vstd::prelude::*;

use crate::numeral::{dec_int, push_dec_i64};
use crate::pct::{pct_bytes, push_pct};
use crate::util::append_bytes;

verus! {

/// One scalar query-parameter value. The wire form is text: booleans in
/// their lowercase form, integers in canonical decimal, strings as their
/// UTF-8 bytes; the text is then percent-encoded.
pub enum ScalarValue {
    Text(Vec<u8>),
    Flag(bool),
    Int(i64),
}

/// The bytes of `true`.
pub open spec fn true_text() -> Seq<u8> {
    seq![0x74u8, 0x72u8, 0x75u8, 0x65u8]
}

/// The bytes of `false`.
pub open spec fn false_text() -> Seq<u8> {
    seq![0x66u8, 0x61u8, 0x6cu8, 0x73u8, 0x65u8]
}

/// The canonical text of a scalar value, before percent-encoding.
pub open spec fn scalar_text(v: ScalarValue) -> Seq<u8> {
    match v {
        ScalarValue::Text(t) => t@,
        ScalarValue::Flag(b) => if b {
            true_text()
        } else {
            false_text()
        },
        ScalarValue::Int(i) => dec_int(i as int),
    }
}

/// Append the canonical text of `v` to `out`.
pub fn push_scalar_text(out: &mut Vec<u8>, v: &ScalarValue)
    ensures
        final(out)@ == old(out)@ + scalar_text(*v),
{
    match v {
        ScalarValue::Text(t) => {
            append_bytes(out, t.as_slice());
        },
        ScalarValue::Flag(b) => {
            if *b {
                out.push(0x74);
                out.push(0x72);
                out.push(0x75);
                out.push(0x65);
                assert(out@ =~= old(out)@ + true_text());
            } else {
                out.push(0x66);
                out.push(0x61);
                out.push(0x6c);
                out.push(0x73);
                out.push(0x65);
                assert(out@ =~= old(out)@ + false_text());
            }
        },
        ScalarValue::Int(i) => {
            push_dec_i64(out, *i);
        },
    }
}

/// One named query field. An operation's descriptor fixes the set and the
/// order of its fields; a field the caller left unset carries `None` and
/// is skipped by the encoder, while a field the operation requires is
/// stored with its value always present.
pub struct QueryField {
    pub name: Vec<u8>,
    pub value: Option<ScalarValue>,
}

/// The contribution of one field to the query string: nothing when unset,
/// otherwise `&name=` followed by the percent-encoded value text.
pub open spec fn field_encoding(f: QueryField) -> Seq<u8> {
    match f.value {
        Option::None => seq![],
        Option::Some(v) => seq![0x26u8] + f.name@ + seq![0x3du8] + pct_bytes(scalar_text(v)),
    }
}

/// The encoding of a field list: the concatenation of the contributions
/// of its fields, in the order given.
pub open spec fn query_encoding(fields: Seq<QueryField>) -> Seq<u8>
    decreases fields.len(),
{
    if fields.len() == 0 {
        seq![]
    } else {
        field_encoding(fields[0]) + query_encoding(fields.drop_first())
    }
}

/// The encoding of a list grows one field's contribution at a time.
pub proof fn lemma_query_encoding_snoc(fields: Seq<QueryField>, f: QueryField)
    ensures
        query_encoding(fields.push(f)) == query_encoding(fields) + field_encoding(f),
    decreases fields.len(),
{
    if fields.len() == 0 {
        assert(fields.push(f).drop_first() =~= Seq::<QueryField>::empty());
        assert(fields.push(f)[0] == f);
        assert(query_encoding(fields.push(f)) == field_encoding(f) + query_encoding(
            Seq::<QueryField>::empty(),
        ));
        assert(query_encoding(fields.push(f)) =~= query_encoding(fields) + field_encoding(f));
    } else {
        assert(fields.push(f).drop_first() =~= fields.drop_first().push(f));
        lemma_query_encoding_snoc(fields.drop_first(), f);
        assert(query_encoding(fields.push(f)) =~= query_encoding(fields) + field_encoding(f));
    }
}

/// Append the encoding of every present field, in order, to `out`.
pub fn push_query(out: &mut Vec<u8>, fields: &Vec<QueryField>)
    ensures
        final(out)@ == old(out)@ + query_encoding(fields@),
{
    let mut i: usize = 0;
    proof {
        assert(out@ == old(out)@ + query_encoding(fields@.subrange(0, 0)));
    }
    while i < fields.len()
        invariant
            i <= fields@.len(),
            out@ == old(out)@ + query_encoding(fields@.subrange(0, i as int)),
        decreases fields@.len() - i,
    {
        let f = &fields[i];
        match &f.value {
            Option::None => {
                proof {
                    assert(field_encoding(fields@[i as int]) == Seq::<u8>::empty());
                }
            },
            Option::Some(v) => {
                out.push(0x26);
                append_bytes(out, f.name.as_slice());
                out.push(0x3d);
                push_pct_scalar(out, v);
            },
        }
        proof {
            lemma_query_encoding_snoc(fields@.subrange(0, i as int), fields@[i as int]);
            assert(fields@.subrange(0, i as int).push(fields@[i as int]) =~= fields@.subrange(
                0,
                i + 1 as int,
            ));
            assert(out@ =~= old(out)@ + query_encoding(fields@.subrange(0, i + 1 as int)));
        }
        i = i + 1;
    }
    proof {
        assert(fields@.subrange(0, fields@.len() as int) =~= fields@);
    }
}

/// Whether the byte string `n` occurs contiguously inside `h`.
pub open spec fn occurs(h: Seq<u8>, n: Seq<u8>) -> bool {
    exists|i: int| 0 <= i && i + n.len() <= h.len() && #[trigger] h.subrange(i, i + n.len()) == n
}

/// An occurrence inside a concatenation lies in the left part, lies in
/// the right part, or straddles the seam — and a straddling occurrence
/// pins down both its first byte (inside the left part) and the byte it
/// covers at the seam (the right part's first).
pub proof fn lemma_occurs_split(a: Seq<u8>, b: Seq<u8>, n: Seq<u8>)
    requires
        occurs(a + b, n),
        n.len() > 0,
    ensures
        occurs(a, n) || occurs(b, n) || (b.len() > 0 && exists|t: int|
            0 < t < n.len() && t <= a.len() && #[trigger] n[t] == b[0] && n[0] == a[a.len() - t]),
{
    let i = choose|i: int|
        0 <= i && i + n.len() <= (a + b).len() && #[trigger] (a + b).subrange(i, i + n.len()) == n;
    if i + n.len() <= a.len() {
        assert(a.subrange(i, i + n.len()) =~= (a + b).subrange(i, i + n.len()));
        assert(occurs(a, n));
    } else if i >= a.len() {
        assert(b.subrange(i - a.len(), i - a.len() + n.len()) =~= (a + b).subrange(
            i,
            i + n.len(),
        ));
        assert(occurs(b, n));
    } else {
        let t = a.len() - i;
        assert(n[t] == (a + b)[i + t]);
        assert((a + b)[a.len() as int] == b[0]);
        assert(n[0] == (a + b)[i]);
        assert((a + b)[i] == a[i]);
        assert(0 < t < n.len() && t <= a.len() && n[t] == b[0] && n[0] == a[a.len() - t]);
    }
}

/// A non-empty encoded field list begins with the `&` separator.
pub proof fn lemma_query_encoding_leading_separator(fields: Seq<QueryField>)
    ensures
        query_encoding(fields).len() > 0 ==> query_encoding(fields)[0] == 0x26u8,
    decreases fields.len(),
{
    if fields.len() > 0 {
        lemma_query_encoding_leading_separator(fields.drop_first());
        match fields[0].value {
            Option::None => {
                assert(field_encoding(fields[0]) == Seq::<u8>::empty());
                assert(query_encoding(fields) =~= query_encoding(fields.drop_first()));
            },
            Option::Some(v) => {
                assert(field_encoding(fields[0])[0] == 0x26u8);
            },
        }
    }
}

/// A byte string that avoids `&` and does not occur inside any present
/// field's `name=value` text occurs nowhere in the encoded list.
pub proof fn lemma_query_encoding_avoids(fields: Seq<QueryField>, n: Seq<u8>)
    requires
        n.len() > 0,
        forall|t: int| 0 <= t < n.len() ==> n[t] != 0x26u8,
        forall|j: int|
            0 <= j < fields.len() ==> (#[trigger] fields[j].value matches Some(v) ==> !occurs(
                fields[j].name@ + seq![0x3du8] + pct_bytes(scalar_text(v)),
                n,
            )),
    ensures
        !occurs(query_encoding(fields), n),
    decreases fields.len(),
{
    if fields.len() == 0 {
        assert(!occurs(query_encoding(fields), n));
    } else {
        let f0 = fields[0];
        let rest = fields.drop_first();
        assert forall|j: int|
            0 <= j < rest.len() implies (#[trigger] rest[j].value matches Some(v) ==> !occurs(
            rest[j].name@ + seq![0x3du8] + pct_bytes(scalar_text(v)),
            n,
        )) by {
            assert(rest[j] == fields[j + 1]);
        }
        lemma_query_encoding_avoids(rest, n);
        lemma_query_encoding_leading_separator(rest);
        let seg = field_encoding(f0);
        let tail = query_encoding(rest);
        assert(query_encoding(fields) == seg + tail);
        if occurs(seg + tail, n) {
            lemma_occurs_split(seg, tail, n);
            if occurs(seg, n) {
                match f0.value {
                    Option::None => {
                        assert(seg == Seq::<u8>::empty());
                        assert(false);
                    },
                    Option::Some(v) => {
                        let inner = f0.name@ + seq![0x3du8] + pct_bytes(scalar_text(v));
                        assert(seg =~= seq![0x26u8] + inner);
                        lemma_occurs_split(seq![0x26u8], inner, n);
                        if occurs(seq![0x26u8], n) {
                            let i = choose|i: int|
                                0 <= i && i + n.len() <= 1 && #[trigger] seq![0x26u8].subrange(
                                    i,
                                    i + n.len(),
                                ) == n;
                            assert(n[0] == seq![0x26u8].subrange(i, i + n.len())[0]);
                            assert(false);
                        } else if occurs(inner, n) {
                            assert(false);
                        } else {
                            let t = choose|t: int|
                                0 < t < n.len() && t <= seq![0x26u8].len() && #[trigger] n[t]
                                    == inner[0] && n[0] == seq![0x26u8][seq![0x26u8].len() - t];
                            assert(t == 1);
                            assert(n[0] == 0x26u8);
                            assert(false);
                        }
                    },
                }
            } else if occurs(tail, n) {
                assert(false);
            } else {
                let t = choose|t: int|
                    0 < t < n.len() && t <= seg.len() && #[trigger] n[t] == tail[0] && n[0]
                        == seg[seg.len() - t];
                assert(n[t] == 0x26u8);
                assert(false);
            }
        }
    }
}

/// A field the caller left unset contributes nothing, and its name
/// occurs nowhere in the encoded query string — provided the name avoids
/// the `&` separator (on the wire a field name is plain text) and does
/// not itself occur inside another present field's `name=value` text.
/// Without that proviso the claim would be false: another field whose
/// value is exactly this field's name passes through the encoder
/// unchanged when it is alphanumeric.
pub proof fn lemma_unset_field_name_absent(fields: Seq<QueryField>, k: int)
    requires
        0 <= k < fields.len(),
        fields[k].value is None,
        fields[k].name@.len() > 0,
        forall|t: int| 0 <= t < fields[k].name@.len() ==> fields[k].name@[t] != 0x26u8,
        forall|j: int|
            0 <= j < fields.len() ==> (#[trigger] fields[j].value matches Some(v) ==> !occurs(
                fields[j].name@ + seq![0x3du8] + pct_bytes(scalar_text(v)),
                fields[k].name@,
            )),
    ensures
        !occurs(query_encoding(fields), fields[k].name@),
{
    lemma_query_encoding_avoids(fields, fields[k].name@);
}

/// A list whose fields are all unset encodes to nothing at all.
pub proof fn lemma_query_encoding_all_unset(fields: Seq<QueryField>)
    requires
        forall|i: int| 0 <= i < fields.len() ==> #[trigger] fields[i].value is None,
    ensures
        query_encoding(fields) == Seq::<u8>::empty(),
    decreases fields.len(),
{
    if fields.len() > 0 {
        assert(fields.drop_first()[0] == fields[1] || fields.drop_first().len() == 0);
        assert forall|i: int| 0 <= i < fields.drop_first().len() implies #[trigger] fields.drop_first()[i].value
            is None by {
            assert(fields.drop_first()[i] == fields[i + 1]);
        }
        lemma_query_encoding_all_unset(fields.drop_first());
        assert(field_encoding(fields[0]) == Seq::<u8>::empty());
        assert(query_encoding(fields) =~= Seq::<u8>::empty());
    }
}

/// Append the percent-encoded text of `v` to `out`.
fn push_pct_scalar(out: &mut Vec<u8>, v: &ScalarValue)
    ensures
        final(out)@ == old(out)@ + pct_bytes(scalar_text(*v)),
{
    let mut text: Vec<u8> = Vec::new();
    push_scalar_text(&mut text, v);
    push_pct(out, text.as_slice());
}

} // verus!
