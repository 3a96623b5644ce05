//! Field-level building blocks of the message format: the canonical field
//! writers the encoders chain, and the general field grammar the decoders
//! read, with its projections (last occurrence, every occurrence, presence,
//! wire-type mismatch) and the lemmas tying the two together.

use vstd::prelude::*;

verus! {

use crate::wire::{
    lemma_take_varint, lemma_varint_len, lemma_varint_len_le, read_varint, spec_take_varint,
    spec_varint, write_bytes, write_varint,
};

/// A varint field: tag `8 * f` (wire type 0), then the value.
pub open spec fn spec_field_varint(f: u64, v: u64) -> Seq<u8> {
    spec_varint((8 * f) as nat) + spec_varint(v as nat)
}

/// A byte field: tag `8 * f + 2` (wire type 2), the length, then the bytes.
pub open spec fn spec_field_bytes(f: u64, b: Seq<u8>) -> Seq<u8> {
    spec_varint((8 * f + 2) as nat) + spec_varint(b.len()) + b
}

/// Tag and length prefix a byte field with at most 22 bytes.
pub proof fn lemma_field_bytes_len_upper(f: u64, b: Seq<u8>)
    requires
        f <= 0xff,
        b.len() <= u64::MAX,
    ensures
        spec_field_bytes(f, b).len() <= 22 + b.len(),
{
    lemma_varint_len_le((8 * f + 2) as nat);
    lemma_varint_len_le(b.len());
}

/// A varint field spans at most 22 bytes.
pub proof fn lemma_field_varint_len_upper(f: u64, v: u64)
    requires
        f <= 0xff,
    ensures
        spec_field_varint(f, v).len() <= 22,
{
    lemma_varint_len_le((8 * f) as nat);
    lemma_varint_len_le(v as nat);
}

/// Appends one varint field to `out`.
pub fn write_field_varint(out: &mut Vec<u8>, f: u64, v: u64)
    requires
        1 <= f <= 0xff,
    ensures
        final(out)@ == old(out)@ + spec_field_varint(f, v),
{
    let ghost pre = out@;
    write_varint(out, 8 * f);
    write_varint(out, v);
    proof {
        assert(out@ =~= pre + spec_field_varint(f, v));
    }
}

/// Appends one byte field to `out`.
pub fn write_field_bytes(out: &mut Vec<u8>, f: u64, data: &[u8])
    requires
        1 <= f <= 0xff,
    ensures
        final(out)@ == old(out)@ + spec_field_bytes(f, data@),
{
    let ghost pre = out@;
    write_varint(out, 8 * f + 2);
    write_varint(out, data.len() as u64);
    write_bytes(out, data);
    proof {
        assert(out@ =~= pre + spec_field_bytes(f, data@));
    }
}

/// The views of a sequence of byte vectors.
pub open spec fn seq_views(s: Seq<Vec<u8>>) -> Seq<Seq<u8>> {
    s.map_values(|x: Vec<u8>| x@)
}

/// A repeated byte field: each item in order, each under the same tag.
pub open spec fn spec_enc_rep_bytes(f: u64, items: Seq<Seq<u8>>) -> Seq<u8>
    decreases items.len(),
{
    if items.len() == 0 {
        Seq::empty()
    } else {
        spec_field_bytes(f, items[0]) + spec_enc_rep_bytes(f, items.skip(1))
    }
}

pub proof fn lemma_enc_rep_bytes_push(f: u64, items: Seq<Seq<u8>>, x: Seq<u8>)
    ensures
        spec_enc_rep_bytes(f, items.push(x)) == spec_enc_rep_bytes(f, items) + spec_field_bytes(
            f,
            x,
        ),
    decreases items.len(),
{
    if items.len() == 0 {
        assert(items.push(x)[0] == x);
        assert(items.push(x).skip(1) =~= Seq::<Seq<u8>>::empty());
        assert(spec_enc_rep_bytes(f, items.push(x)) == spec_field_bytes(f, x)
            + spec_enc_rep_bytes(f, items.push(x).skip(1)));
        assert(spec_enc_rep_bytes(f, items.push(x).skip(1)) == Seq::<u8>::empty());
        assert(spec_enc_rep_bytes(f, items.push(x)) =~= spec_enc_rep_bytes(f, items)
            + spec_field_bytes(f, x));
    } else {
        lemma_enc_rep_bytes_push(f, items.skip(1), x);
        assert(items.push(x).skip(1) =~= items.skip(1).push(x));
        assert(items.push(x)[0] == items[0]);
        assert(spec_enc_rep_bytes(f, items.push(x)) == spec_field_bytes(f, items[0])
            + spec_enc_rep_bytes(f, items.skip(1).push(x)));
        assert(spec_enc_rep_bytes(f, items.push(x)) =~= spec_enc_rep_bytes(f, items)
            + spec_field_bytes(f, x));
    }
}

/// Decodes a whole buffer as one repeated byte field: every occurrence of
/// `f` in order; other field numbers are skipped, an occurrence of `f` with
/// another wire type is refused.
pub open spec fn spec_dec_rep_bytes(f: u64, s: Seq<u8>) -> Option<Seq<Seq<u8>>> {
    match spec_fields(s) {
        Option::None => None,
        Option::Some(fs) => {
            if field_wrong_bytes(fs, f) {
                None
            } else {
                Some(spec_all_bytes(fs, f))
            }
        },
    }
}

proof fn lemma_fields_of_rep(f: u64, items: Seq<Seq<u8>>)
    requires
        1 <= f <= 0xff,
        forall|i: int| 0 <= i < items.len() ==> #[trigger] items[i].len() <= u64::MAX,
    ensures
        spec_fields(spec_enc_rep_bytes(f, items)) == Some(
            Seq::new(items.len(), |i: int| (f, FieldVal::Bytes(items[i]))),
        ),
    decreases items.len(),
{
    if items.len() == 0 {
        assert(spec_enc_rep_bytes(f, items) =~= Seq::<u8>::empty());
        assert(Seq::new(items.len(), |i: int| (f, FieldVal::Bytes(items[i])))
            =~= Seq::<(u64, FieldVal)>::empty());
    } else {
        assert(forall|i: int|
            0 <= i < items.skip(1).len() ==> #[trigger] items.skip(1)[i].len() <= u64::MAX);
        lemma_fields_of_rep(f, items.skip(1));
        lemma_fields_prepend_bytes(f, items[0], spec_enc_rep_bytes(f, items.skip(1)));
        assert(seq![(f, FieldVal::Bytes(items[0]))] + Seq::new(
            items.skip(1).len(),
            |i: int| (f, FieldVal::Bytes(items.skip(1)[i])),
        ) =~= Seq::new(items.len(), |i: int| (f, FieldVal::Bytes(items[i]))));
    }
}

proof fn lemma_all_bytes_of_rep(f: u64, items: Seq<Seq<u8>>)
    ensures
        !field_wrong_bytes(Seq::new(items.len(), |i: int| (f, FieldVal::Bytes(items[i]))), f),
        spec_all_bytes(Seq::new(items.len(), |i: int| (f, FieldVal::Bytes(items[i]))), f)
            == items,
    decreases items.len(),
{
    let fs = Seq::new(items.len(), |i: int| (f, FieldVal::Bytes(items[i])));
    if items.len() == 0 {
        assert(spec_all_bytes(fs, f) =~= items);
    } else {
        lemma_all_bytes_of_rep(f, items.drop_last());
        let pre = Seq::new(
            items.drop_last().len(),
            |i: int| (f, FieldVal::Bytes(items.drop_last()[i])),
        );
        assert(fs.drop_last() =~= pre);
        assert(fs.last() == (f, FieldVal::Bytes(items.last())));
        assert(spec_all_bytes(fs, f) =~= items.drop_last() + seq![items.last()]);
        assert(items.drop_last() + seq![items.last()] =~= items);
    }
}

/// The canonical repeated encoding decodes back to its items.
pub proof fn lemma_dec_rep_bytes(f: u64, items: Seq<Seq<u8>>)
    requires
        1 <= f <= 0xff,
        forall|i: int| 0 <= i < items.len() ==> #[trigger] items[i].len() <= u64::MAX,
    ensures
        spec_dec_rep_bytes(f, spec_enc_rep_bytes(f, items)) == Some(items),
{
    lemma_fields_of_rep(f, items);
    lemma_all_bytes_of_rep(f, items);
}

/// Appends every item of `items` as a repeated byte field.
pub fn write_rep_bytes(out: &mut Vec<u8>, f: u64, items: &Vec<Vec<u8>>)
    requires
        1 <= f <= 0xff,
    ensures
        final(out)@ == old(out)@ + spec_enc_rep_bytes(f, seq_views(items@)),
{
    let mut i: usize = 0;
    proof {
        assert(seq_views(items@).take(0) =~= Seq::<Seq<u8>>::empty());
    }
    while i < items.len()
        invariant
            1 <= f <= 0xff,
            i <= items@.len(),
            out@ == old(out)@ + spec_enc_rep_bytes(f, seq_views(items@).take(i as int)),
        decreases items@.len() - i,
    {
        let ghost pre = seq_views(items@).take(i as int);
        write_field_bytes(out, f, items[i].as_slice());
        proof {
            lemma_enc_rep_bytes_push(f, pre, items@[i as int]@);
            assert(seq_views(items@).take(i as int + 1) =~= pre.push(items@[i as int]@));
        }
        i = i + 1;
    }
    proof {
        assert(seq_views(items@).take(items@.len() as int) =~= seq_views(items@));
    }
}

/// Decodes a whole buffer as one repeated byte field.
pub fn read_rep_bytes(buf: &[u8], f: u64) -> (r: Option<Vec<Vec<u8>>>)
    ensures
        match spec_dec_rep_bytes(f, buf@) {
            Option::None => r is None,
            Option::Some(t) => {
                match r {
                    Option::Some(v) => seq_views(v@) == t,
                    Option::None => false,
                }
            },
        },
{
    let v = match read_fields(buf) {
        Some(v) => v,
        None => {
            return None;
        },
    };
    let ghost fs = spec_fields(buf@).unwrap();
    if vec_wrong_bytes(&v, f, Ghost(fs)) {
        return None;
    }
    Some(vec_all_bytes(&v, f, Ghost(fs)))
}

// ---------- the general field grammar of inbound messages ----------
//
// Outbound messages are written in one canonical shape (every field, in
// ascending order); inbound messages are read under the general grammar: a
// message is any sequence of tagged fields, a known field may arrive in any
// position and any number of times (the last occurrence wins, a repeated
// field keeps them all), an omitted field takes its default, and a field
// with an unknown tag is skipped whatever its wire type. A known field
// whose wire type does not match is refused.

/// One field occurrence: its value, by wire type.
pub ghost enum FieldVal {
    Varint(u64),
    Bytes(Seq<u8>),
    Word64(Seq<u8>),
    Word32(Seq<u8>),
}

/// Reads one tagged field from the front of `s`: the field number, the
/// value, and the remainder. Field number zero and the group wire types
/// are refused.
pub open spec fn spec_take_field(s: Seq<u8>) -> Option<((u64, FieldVal), Seq<u8>)> {
    match spec_take_varint(s) {
        Option::None => None,
        Option::Some(t) => {
            let fnum = (t.0 / 8) as u64;
            let wt = t.0 % 8;
            if fnum == 0 {
                None
            } else if wt == 0 {
                match spec_take_varint(t.1) {
                    Option::None => None,
                    Option::Some(v) => Some(((fnum, FieldVal::Varint(v.0)), v.1)),
                }
            } else if wt == 1 {
                if t.1.len() >= 8 {
                    Some(((fnum, FieldVal::Word64(t.1.take(8))), t.1.skip(8)))
                } else {
                    None
                }
            } else if wt == 2 {
                match spec_take_varint(t.1) {
                    Option::None => None,
                    Option::Some(l) => {
                        if l.0 <= l.1.len() {
                            Some(((fnum, FieldVal::Bytes(l.1.take(l.0 as int))), l.1.skip(l.0 as int)))
                        } else {
                            None
                        }
                    },
                }
            } else if wt == 5 {
                if t.1.len() >= 4 {
                    Some(((fnum, FieldVal::Word32(t.1.take(4))), t.1.skip(4)))
                } else {
                    None
                }
            } else {
                None
            }
        },
    }
}

/// Decodes a whole buffer as a field sequence; `None` when any field is
/// malformed.
pub open spec fn spec_fields(s: Seq<u8>) -> Option<Seq<(u64, FieldVal)>>
    decreases s.len(),
{
    if s.len() == 0 {
        Some(Seq::empty())
    } else {
        match spec_take_field(s) {
            Option::None => None,
            Option::Some(t) => {
                if t.1.len() < s.len() {
                    match spec_fields(t.1) {
                        Option::None => None,
                        Option::Some(fs) => Some(seq![t.0] + fs),
                    }
                } else {
                    None
                }
            },
        }
    }
}

/// One field occurrence as executable data; the fixed-width values carry
/// nothing, they are only ever skipped.
pub enum WireField {
    Number(u64),
    Data(Vec<u8>),
    Word64,
    Word32,
}

/// The executable occurrence carries its specification counterpart.
pub open spec fn wire_matches(w: WireField, v: FieldVal) -> bool {
    match w {
        WireField::Number(n) => v matches FieldVal::Varint(m) && m == n,
        WireField::Data(d) => v matches FieldVal::Bytes(b) && d@ == b,
        WireField::Word64 => v is Word64,
        WireField::Word32 => v is Word32,
    }
}

/// The executable field list carries the specification field list.
pub open spec fn fields_match(v: Seq<(u64, WireField)>, fs: Seq<(u64, FieldVal)>) -> bool {
    &&& v.len() == fs.len()
    &&& forall|i: int|
        0 <= i < v.len() ==> (#[trigger] v[i]).0 == fs[i].0 && wire_matches(v[i].1, fs[i].1)
}

/// Reads one tagged field at `pos`.
pub fn read_field(buf: &[u8], pos: usize) -> (r: Option<((u64, WireField), usize)>)
    requires
        pos <= buf@.len(),
    ensures
        match spec_take_field(buf@.skip(pos as int)) {
            Option::None => r is None,
            Option::Some(t) => {
                match r {
                    Option::Some(p) => {
                        &&& p.0.0 == t.0.0
                        &&& wire_matches(p.0.1, t.0.1)
                        &&& pos < p.1 <= buf@.len()
                        &&& buf@.skip(p.1 as int) == t.1
                    },
                    Option::None => false,
                }
            },
        },
{
    match read_varint(buf, pos) {
        None => None,
        Some((tag, p1)) => {
            let fnum = tag / 8;
            let wt = tag % 8;
            if fnum == 0 {
                None
            } else if wt == 0 {
                match read_varint(buf, p1) {
                    None => None,
                    Some((v, p2)) => Some(((fnum, WireField::Number(v)), p2)),
                }
            } else if wt == 1 {
                if (buf.len() - p1) >= 8 {
                    proof {
                        assert(buf@.skip(p1 as int).skip(8) =~= buf@.skip(p1 as int + 8));
                    }
                    Some(((fnum, WireField::Word64), p1 + 8))
                } else {
                    None
                }
            } else if wt == 2 {
                match read_varint(buf, p1) {
                    None => None,
                    Some((len, p2)) => {
                        if len > (buf.len() - p2) as u64 {
                            None
                        } else {
                            let end: usize = p2 + (len as usize);
                            let piece = vstd::slice::slice_to_vec(
                                vstd::slice::slice_subrange(buf, p2, end),
                            );
                            proof {
                                let s2 = buf@.skip(p2 as int);
                                assert(s2.take(len as int) =~= buf@.subrange(p2 as int, end as int));
                                assert(s2.skip(len as int) =~= buf@.skip(end as int));
                            }
                            Some(((fnum, WireField::Data(piece)), end))
                        }
                    },
                }
            } else if wt == 5 {
                if (buf.len() - p1) >= 4 {
                    proof {
                        assert(buf@.skip(p1 as int).skip(4) =~= buf@.skip(p1 as int + 4));
                    }
                    Some(((fnum, WireField::Word32), p1 + 4))
                } else {
                    None
                }
            } else {
                None
            }
        },
    }
}

/// Decodes a whole buffer into its field list.
pub fn read_fields(buf: &[u8]) -> (r: Option<Vec<(u64, WireField)>>)
    ensures
        match spec_fields(buf@) {
            Option::None => r is None,
            Option::Some(fs) => {
                match r {
                    Option::Some(v) => fields_match(v@, fs),
                    Option::None => false,
                }
            },
        },
{
    let mut acc: Vec<(u64, WireField)> = Vec::new();
    let mut pos: usize = 0;
    let ghost whole = spec_fields(buf@);
    proof {
        assert(buf@.skip(0) =~= buf@);
    }
    while pos < buf.len()
        invariant
            pos <= buf@.len(),
            whole == spec_fields(buf@),
            match whole {
                Option::None => spec_fields(buf@.skip(pos as int)) is None,
                Option::Some(fs) => {
                    match spec_fields(buf@.skip(pos as int)) {
                        Option::None => false,
                        Option::Some(rest) => {
                            &&& acc@.len() + rest.len() == fs.len()
                            &&& fields_match(acc@, fs.take(acc@.len() as int))
                            &&& rest == fs.skip(acc@.len() as int)
                        },
                    }
                },
            },
        decreases buf@.len() - pos,
    {
        let ghost s = buf@.skip(pos as int);
        match read_field(buf, pos) {
            None => {
                proof {
                    assert(spec_fields(s) is None);
                }
                return None;
            },
            Some((fld, p2)) => {
                proof {
                    let t = spec_take_field(s).unwrap();
                    assert(buf@.skip(p2 as int) == t.1);
                    assert(t.1.len() < s.len());
                    assert(spec_fields(s) == (match spec_fields(t.1) {
                        Option::None => None::<Seq<(u64, FieldVal)>>,
                        Option::Some(fs2) => Some(seq![t.0] + fs2),
                    }));
                    if whole is Some {
                        let fs = whole.unwrap();
                        let rest = spec_fields(s).unwrap();
                        let rest2 = spec_fields(t.1).unwrap();
                        assert(rest == seq![t.0] + rest2);
                        assert(rest[0] == t.0);
                        assert(fs[acc@.len() as int] == rest[0]);
                        assert(acc@.push(fld).len() == acc@.len() + 1);
                        assert(fields_match(acc@.push(fld), fs.take(acc@.len() as int + 1))) by {
                            assert(fs.take(acc@.len() as int + 1) =~= fs.take(
                                acc@.len() as int,
                            ).push(fs[acc@.len() as int]));
                            assert(forall|i: int|
                                0 <= i < acc@.len() ==> (#[trigger] acc@.push(fld)[i])
                                    == acc@[i]);
                        }
                        assert(rest2 =~= rest.skip(1));
                        assert(fs.skip(acc@.len() as int).skip(1) =~= fs.skip(
                            acc@.len() as int + 1,
                        ));
                        assert(rest2 =~= fs.skip(acc@.len() as int + 1));
                    }
                }
                acc.push(fld);
                pos = p2;
            },
        }
    }
    proof {
        assert(buf@.skip(pos as int) =~= Seq::<u8>::empty());
        assert(spec_fields(buf@.skip(pos as int)) == Some(Seq::<(u64, FieldVal)>::empty()));
        if whole is Some {
            let fs = whole.unwrap();
            assert(acc@.len() == fs.len());
            assert(fs.take(acc@.len() as int) =~= fs);
        }
    }
    Some(acc)
}


// ---------- projections of a field list ----------

/// Some occurrence of `f` is not a varint: a wire-type mismatch on a known
/// varint field.
pub open spec fn field_wrong_varint(fs: Seq<(u64, FieldVal)>, f: u64) -> bool
    decreases fs.len(),
{
    if fs.len() == 0 {
        false
    } else {
        (fs.last().0 == f && !(fs.last().1 is Varint)) || field_wrong_varint(fs.drop_last(), f)
    }
}

/// Some occurrence of `f` is not a byte field: a wire-type mismatch on a
/// known length-delimited field.
pub open spec fn field_wrong_bytes(fs: Seq<(u64, FieldVal)>, f: u64) -> bool
    decreases fs.len(),
{
    if fs.len() == 0 {
        false
    } else {
        (fs.last().0 == f && !(fs.last().1 is Bytes)) || field_wrong_bytes(fs.drop_last(), f)
    }
}

/// The last varint value of `f`; zero (the default) when `f` is absent.
pub open spec fn spec_last_varint(fs: Seq<(u64, FieldVal)>, f: u64) -> u64
    decreases fs.len(),
{
    if fs.len() == 0 {
        0
    } else {
        match fs.last() {
            (g, FieldVal::Varint(v)) => if g == f {
                v
            } else {
                spec_last_varint(fs.drop_last(), f)
            },
            _ => spec_last_varint(fs.drop_last(), f),
        }
    }
}

/// The last byte value of `f`; empty (the default) when `f` is absent.
pub open spec fn spec_last_bytes(fs: Seq<(u64, FieldVal)>, f: u64) -> Seq<u8>
    decreases fs.len(),
{
    if fs.len() == 0 {
        Seq::empty()
    } else {
        match fs.last() {
            (g, FieldVal::Bytes(b)) => if g == f {
                b
            } else {
                spec_last_bytes(fs.drop_last(), f)
            },
            _ => spec_last_bytes(fs.drop_last(), f),
        }
    }
}

/// Whether `f` occurs as a byte field at all: the presence of an optional
/// embedded message.
pub open spec fn spec_has_bytes(fs: Seq<(u64, FieldVal)>, f: u64) -> bool
    decreases fs.len(),
{
    if fs.len() == 0 {
        false
    } else {
        (fs.last().0 == f && fs.last().1 is Bytes) || spec_has_bytes(fs.drop_last(), f)
    }
}

/// Every byte value of `f`, in order: a repeated field keeps all its
/// occurrences.
pub open spec fn spec_all_bytes(fs: Seq<(u64, FieldVal)>, f: u64) -> Seq<Seq<u8>>
    decreases fs.len(),
{
    if fs.len() == 0 {
        Seq::empty()
    } else {
        spec_all_bytes(fs.drop_last(), f) + (match fs.last() {
            (g, FieldVal::Bytes(b)) => if g == f {
                seq![b]
            } else {
                Seq::empty()
            },
            _ => Seq::empty(),
        })
    }
}

pub proof fn lemma_wrong_varint_iff(fs: Seq<(u64, FieldVal)>, f: u64)
    ensures
        field_wrong_varint(fs, f) <==> exists|i: int|
            0 <= i < fs.len() && (#[trigger] fs[i]).0 == f && !(fs[i].1 is Varint),
    decreases fs.len(),
{
    if fs.len() != 0 {
        lemma_wrong_varint_iff(fs.drop_last(), f);
        assert(forall|i: int| 0 <= i < fs.len() - 1 ==> #[trigger] fs.drop_last()[i] == fs[i]);
        if field_wrong_varint(fs, f) {
            if fs.last().0 == f && !(fs.last().1 is Varint) {
                assert(fs[fs.len() - 1].0 == f && !(fs[fs.len() - 1].1 is Varint));
            } else {
                let k = choose|k: int|
                    0 <= k < fs.len() - 1 && (#[trigger] fs.drop_last()[k]).0 == f && !(
                    fs.drop_last()[k].1 is Varint);
                assert((#[trigger] fs[k]).0 == f && !(fs[k].1 is Varint));
            }
        }
        if exists|i: int| 0 <= i < fs.len() && (#[trigger] fs[i]).0 == f && !(fs[i].1 is Varint) {
            let i = choose|i: int|
                0 <= i < fs.len() && (#[trigger] fs[i]).0 == f && !(fs[i].1 is Varint);
            if i < fs.len() - 1 {
                assert((#[trigger] fs.drop_last()[i]).0 == f && !(fs.drop_last()[i].1 is Varint));
            }
            assert(field_wrong_varint(fs, f));
        }
    }
}

pub proof fn lemma_wrong_bytes_iff(fs: Seq<(u64, FieldVal)>, f: u64)
    ensures
        field_wrong_bytes(fs, f) <==> exists|i: int|
            0 <= i < fs.len() && (#[trigger] fs[i]).0 == f && !(fs[i].1 is Bytes),
    decreases fs.len(),
{
    if fs.len() != 0 {
        lemma_wrong_bytes_iff(fs.drop_last(), f);
        assert(forall|i: int| 0 <= i < fs.len() - 1 ==> #[trigger] fs.drop_last()[i] == fs[i]);
        if field_wrong_bytes(fs, f) {
            if fs.last().0 == f && !(fs.last().1 is Bytes) {
                assert(fs[fs.len() - 1].0 == f && !(fs[fs.len() - 1].1 is Bytes));
            } else {
                let k = choose|k: int|
                    0 <= k < fs.len() - 1 && (#[trigger] fs.drop_last()[k]).0 == f && !(
                    fs.drop_last()[k].1 is Bytes);
                assert((#[trigger] fs[k]).0 == f && !(fs[k].1 is Bytes));
            }
        }
        if exists|i: int| 0 <= i < fs.len() && (#[trigger] fs[i]).0 == f && !(fs[i].1 is Bytes) {
            let i = choose|i: int|
                0 <= i < fs.len() && (#[trigger] fs[i]).0 == f && !(fs[i].1 is Bytes);
            if i < fs.len() - 1 {
                assert((#[trigger] fs.drop_last()[i]).0 == f && !(fs.drop_last()[i].1 is Bytes));
            }
            assert(field_wrong_bytes(fs, f));
        }
    }
}

pub proof fn lemma_has_bytes_iff(fs: Seq<(u64, FieldVal)>, f: u64)
    ensures
        spec_has_bytes(fs, f) <==> exists|i: int|
            0 <= i < fs.len() && (#[trigger] fs[i]).0 == f && fs[i].1 is Bytes,
    decreases fs.len(),
{
    if fs.len() != 0 {
        lemma_has_bytes_iff(fs.drop_last(), f);
        assert(forall|i: int| 0 <= i < fs.len() - 1 ==> #[trigger] fs.drop_last()[i] == fs[i]);
        if spec_has_bytes(fs, f) {
            if fs.last().0 == f && fs.last().1 is Bytes {
                assert(fs[fs.len() - 1].0 == f && fs[fs.len() - 1].1 is Bytes);
            } else {
                let k = choose|k: int|
                    0 <= k < fs.len() - 1 && (#[trigger] fs.drop_last()[k]).0 == f
                        && fs.drop_last()[k].1 is Bytes;
                assert((#[trigger] fs[k]).0 == f && fs[k].1 is Bytes);
            }
        }
        if exists|i: int| 0 <= i < fs.len() && (#[trigger] fs[i]).0 == f && fs[i].1 is Bytes {
            let i = choose|i: int|
                0 <= i < fs.len() && (#[trigger] fs[i]).0 == f && fs[i].1 is Bytes;
            if i < fs.len() - 1 {
                assert((#[trigger] fs.drop_last()[i]).0 == f && fs.drop_last()[i].1 is Bytes);
            }
            assert(spec_has_bytes(fs, f));
        }
    }
}

/// The last varint of `f` stands at the last occurrence of `f`.
pub proof fn lemma_last_varint_at(fs: Seq<(u64, FieldVal)>, f: u64, i: int, v: u64)
    requires
        0 <= i < fs.len(),
        fs[i].0 == f,
        fs[i].1 == FieldVal::Varint(v),
        forall|j: int| i < j < fs.len() ==> (#[trigger] fs[j]).0 != f,
    ensures
        spec_last_varint(fs, f) == v,
    decreases fs.len(),
{
    if i == fs.len() - 1 {
    } else {
        assert(forall|j: int| 0 <= j < fs.len() - 1 ==> #[trigger] fs.drop_last()[j] == fs[j]);
        lemma_last_varint_at(fs.drop_last(), f, i, v);
    }
}

/// An absent varint field reads as zero.
pub proof fn lemma_last_varint_absent(fs: Seq<(u64, FieldVal)>, f: u64)
    requires
        forall|j: int| 0 <= j < fs.len() ==> (#[trigger] fs[j]).0 != f,
    ensures
        spec_last_varint(fs, f) == 0,
    decreases fs.len(),
{
    if fs.len() != 0 {
        assert(forall|j: int| 0 <= j < fs.len() - 1 ==> #[trigger] fs.drop_last()[j] == fs[j]);
        lemma_last_varint_absent(fs.drop_last(), f);
    }
}

/// The last bytes of `f` stand at the last occurrence of `f`.
pub proof fn lemma_last_bytes_at(fs: Seq<(u64, FieldVal)>, f: u64, i: int, b: Seq<u8>)
    requires
        0 <= i < fs.len(),
        fs[i].0 == f,
        fs[i].1 == FieldVal::Bytes(b),
        forall|j: int| i < j < fs.len() ==> (#[trigger] fs[j]).0 != f,
    ensures
        spec_last_bytes(fs, f) == b,
    decreases fs.len(),
{
    if i == fs.len() - 1 {
    } else {
        assert(forall|j: int| 0 <= j < fs.len() - 1 ==> #[trigger] fs.drop_last()[j] == fs[j]);
        lemma_last_bytes_at(fs.drop_last(), f, i, b);
    }
}

/// An absent byte field reads as empty.
pub proof fn lemma_last_bytes_absent(fs: Seq<(u64, FieldVal)>, f: u64)
    requires
        forall|j: int| 0 <= j < fs.len() ==> (#[trigger] fs[j]).0 != f,
    ensures
        spec_last_bytes(fs, f) == Seq::<u8>::empty(),
    decreases fs.len(),
{
    if fs.len() != 0 {
        assert(forall|j: int| 0 <= j < fs.len() - 1 ==> #[trigger] fs.drop_last()[j] == fs[j]);
        lemma_last_bytes_absent(fs.drop_last(), f);
    }
}

// ---------- scanning an executable field list ----------

/// Whether some occurrence of `f` is not a varint.
pub(crate) fn vec_wrong_varint(v: &Vec<(u64, WireField)>, f: u64, Ghost(fs): Ghost<Seq<(u64, FieldVal)>>) -> (r:
    bool)
    requires
        fields_match(v@, fs),
    ensures
        r == field_wrong_varint(fs, f),
{
    proof {
        lemma_wrong_varint_iff(fs, f);
    }
    let mut i: usize = 0;
    while i < v.len()
        invariant
            i <= v@.len(),
            fields_match(v@, fs),
            field_wrong_varint(fs, f) <==> exists|k: int|
                0 <= k < fs.len() && (#[trigger] fs[k]).0 == f && !(fs[k].1 is Varint),
            forall|k: int| 0 <= k < i ==> !((#[trigger] fs[k]).0 == f && !(fs[k].1 is Varint)),
        decreases v@.len() - i,
    {
        if v[i].0 == f {
            match &v[i].1 {
                WireField::Number(_) => {},
                _ => {
                    proof {
                        assert(fs[i as int].0 == f && !(fs[i as int].1 is Varint));
                    }
                    return true;
                },
            }
        }
        proof {
            assert(wire_matches(v@[i as int].1, fs[i as int].1));
        }
        i = i + 1;
    }
    false
}

/// Whether some occurrence of `f` is not a byte field.
pub(crate) fn vec_wrong_bytes(v: &Vec<(u64, WireField)>, f: u64, Ghost(fs): Ghost<Seq<(u64, FieldVal)>>) -> (r:
    bool)
    requires
        fields_match(v@, fs),
    ensures
        r == field_wrong_bytes(fs, f),
{
    proof {
        lemma_wrong_bytes_iff(fs, f);
    }
    let mut i: usize = 0;
    while i < v.len()
        invariant
            i <= v@.len(),
            fields_match(v@, fs),
            field_wrong_bytes(fs, f) <==> exists|k: int|
                0 <= k < fs.len() && (#[trigger] fs[k]).0 == f && !(fs[k].1 is Bytes),
            forall|k: int| 0 <= k < i ==> !((#[trigger] fs[k]).0 == f && !(fs[k].1 is Bytes)),
        decreases v@.len() - i,
    {
        if v[i].0 == f {
            match &v[i].1 {
                WireField::Data(_) => {},
                _ => {
                    proof {
                        assert(fs[i as int].0 == f && !(fs[i as int].1 is Bytes));
                    }
                    return true;
                },
            }
        }
        proof {
            assert(wire_matches(v@[i as int].1, fs[i as int].1));
        }
        i = i + 1;
    }
    false
}

/// The last varint value of `f`, zero when absent.
pub(crate) fn vec_last_varint(v: &Vec<(u64, WireField)>, f: u64, Ghost(fs): Ghost<Seq<(u64, FieldVal)>>) -> (r:
    u64)
    requires
        fields_match(v@, fs),
        !field_wrong_varint(fs, f),
    ensures
        r == spec_last_varint(fs, f),
{
    proof {
        lemma_wrong_varint_iff(fs, f);
    }
    let mut i: usize = v.len();
    while i > 0
        invariant
            i <= v@.len(),
            fields_match(v@, fs),
            forall|k: int|
                0 <= k < fs.len() ==> !((#[trigger] fs[k]).0 == f && !(fs[k].1 is Varint)),
            forall|k: int| i <= k < fs.len() ==> (#[trigger] fs[k]).0 != f,
        decreases i,
    {
        i = i - 1;
        if v[i].0 == f {
            proof {
                assert(wire_matches(v@[i as int].1, fs[i as int].1));
                assert(fs[i as int].1 is Varint);
            }
            match &v[i].1 {
                WireField::Number(n) => {
                    proof {
                        lemma_last_varint_at(fs, f, i as int, *n);
                    }
                    return *n;
                },
                _ => {
                    proof {
                        assert(false);
                    }
                },
            }
        }
    }
    proof {
        lemma_last_varint_absent(fs, f);
    }
    0
}

/// The last byte value of `f`, empty when absent.
pub(crate) fn vec_last_bytes(v: &Vec<(u64, WireField)>, f: u64, Ghost(fs): Ghost<Seq<(u64, FieldVal)>>) -> (r:
    Vec<u8>)
    requires
        fields_match(v@, fs),
        !field_wrong_bytes(fs, f),
    ensures
        r@ == spec_last_bytes(fs, f),
{
    proof {
        lemma_wrong_bytes_iff(fs, f);
    }
    let mut i: usize = v.len();
    while i > 0
        invariant
            i <= v@.len(),
            fields_match(v@, fs),
            forall|k: int|
                0 <= k < fs.len() ==> !((#[trigger] fs[k]).0 == f && !(fs[k].1 is Bytes)),
            forall|k: int| i <= k < fs.len() ==> (#[trigger] fs[k]).0 != f,
        decreases i,
    {
        i = i - 1;
        if v[i].0 == f {
            proof {
                assert(wire_matches(v@[i as int].1, fs[i as int].1));
                assert(fs[i as int].1 is Bytes);
            }
            match &v[i].1 {
                WireField::Data(d) => {
                    proof {
                        let b = match fs[i as int].1 {
                            FieldVal::Bytes(b) => b,
                            _ => Seq::empty(),
                        };
                        lemma_last_bytes_at(fs, f, i as int, b);
                    }
                    return vstd::slice::slice_to_vec(d.as_slice());
                },
                _ => {
                    proof {
                        assert(false);
                    }
                },
            }
        }
    }
    proof {
        lemma_last_bytes_absent(fs, f);
    }
    Vec::new()
}

/// Whether `f` occurs as a byte field.
pub(crate) fn vec_has_bytes(v: &Vec<(u64, WireField)>, f: u64, Ghost(fs): Ghost<Seq<(u64, FieldVal)>>) -> (r:
    bool)
    requires
        fields_match(v@, fs),
    ensures
        r == spec_has_bytes(fs, f),
{
    proof {
        lemma_has_bytes_iff(fs, f);
    }
    let mut i: usize = 0;
    while i < v.len()
        invariant
            i <= v@.len(),
            fields_match(v@, fs),
            spec_has_bytes(fs, f) <==> exists|k: int|
                0 <= k < fs.len() && (#[trigger] fs[k]).0 == f && fs[k].1 is Bytes,
            forall|k: int| 0 <= k < i ==> !((#[trigger] fs[k]).0 == f && fs[k].1 is Bytes),
        decreases v@.len() - i,
    {
        if v[i].0 == f {
            match &v[i].1 {
                WireField::Data(_) => {
                    proof {
                        assert(wire_matches(v@[i as int].1, fs[i as int].1));
                        assert(fs[i as int].0 == f && fs[i as int].1 is Bytes);
                    }
                    return true;
                },
                _ => {},
            }
        }
        proof {
            assert(wire_matches(v@[i as int].1, fs[i as int].1));
        }
        i = i + 1;
    }
    false
}

/// Every byte value of `f`, in order.
pub(crate) fn vec_all_bytes(v: &Vec<(u64, WireField)>, f: u64, Ghost(fs): Ghost<Seq<(u64, FieldVal)>>) -> (r:
    Vec<Vec<u8>>)
    requires
        fields_match(v@, fs),
    ensures
        seq_views(r@) == spec_all_bytes(fs, f),
{
    let mut out: Vec<Vec<u8>> = Vec::new();
    let mut i: usize = 0;
    proof {
        assert(fs.take(0) =~= Seq::<(u64, FieldVal)>::empty());
        assert(seq_views(out@) =~= spec_all_bytes(fs.take(0), f));
    }
    while i < v.len()
        invariant
            i <= v@.len(),
            fields_match(v@, fs),
            seq_views(out@) == spec_all_bytes(fs.take(i as int), f),
        decreases v@.len() - i,
    {
        let ghost pre = fs.take(i as int);
        proof {
            assert(fs.take(i as int + 1).drop_last() =~= pre);
            assert(fs.take(i as int + 1).last() == fs[i as int]);
            assert(wire_matches(v@[i as int].1, fs[i as int].1));
        }
        if v[i].0 == f {
            match &v[i].1 {
                WireField::Data(d) => {
                    let ghost preout = out@;
                    out.push(vstd::slice::slice_to_vec(d.as_slice()));
                    proof {
                        assert(seq_views(out@) =~= seq_views(preout).push(d@));
                        assert(spec_all_bytes(fs.take(i as int + 1), f) =~= seq_views(out@));
                    }
                },
                _ => {
                    proof {
                        assert(spec_all_bytes(fs.take(i as int + 1), f) =~= seq_views(out@));
                    }
                },
            }
        } else {
            proof {
                assert(spec_all_bytes(fs.take(i as int + 1), f) =~= seq_views(out@));
            }
        }
        i = i + 1;
    }
    proof {
        assert(fs.take(v@.len() as int) =~= fs);
    }
    out
}

// ---------- the canonical encodings under the general grammar ----------

/// A canonical varint field reads back as one varint occurrence.
pub proof fn lemma_fields_prepend_varint(f: u64, v: u64, rest: Seq<u8>)
    requires
        1 <= f <= 0xff,
        spec_fields(rest) is Some,
    ensures
        spec_fields(spec_field_varint(f, v) + rest) == Some(
            seq![(f, FieldVal::Varint(v))] + spec_fields(rest).unwrap(),
        ),
{
    let s = spec_field_varint(f, v) + rest;
    assert(s =~= spec_varint((8 * f) as nat) + (spec_varint(v as nat) + rest));
    lemma_take_varint((8 * f) as u64, spec_varint(v as nat) + rest);
    lemma_take_varint(v, rest);
    vstd::arithmetic::div_mod::lemma_fundamental_div_mod_converse(8 * f as int, 8, f as int, 0);
    assert(spec_take_field(s) == Some((((f), FieldVal::Varint(v)), rest)));
    crate::wire::lemma_varint_len((8 * f) as nat);
    crate::wire::lemma_varint_len(v as nat);
    assert(rest.len() < s.len());
}

/// A canonical byte field reads back as one byte occurrence.
pub proof fn lemma_fields_prepend_bytes(f: u64, b: Seq<u8>, rest: Seq<u8>)
    requires
        1 <= f <= 0xff,
        b.len() <= u64::MAX,
        spec_fields(rest) is Some,
    ensures
        spec_fields(spec_field_bytes(f, b) + rest) == Some(
            seq![(f, FieldVal::Bytes(b))] + spec_fields(rest).unwrap(),
        ),
{
    let s = spec_field_bytes(f, b) + rest;
    let len = b.len() as u64;
    assert(s =~= spec_varint((8 * f + 2) as nat) + (spec_varint(len as nat) + (b + rest)));
    lemma_take_varint((8 * f + 2) as u64, spec_varint(len as nat) + (b + rest));
    lemma_take_varint(len, b + rest);
    vstd::arithmetic::div_mod::lemma_fundamental_div_mod_converse(
        8 * f as int + 2,
        8,
        f as int,
        2,
    );
    assert((b + rest).take(len as int) =~= b);
    assert((b + rest).skip(len as int) =~= rest);
    assert(spec_take_field(s) == Some((((f), FieldVal::Bytes(b)), rest)));
    crate::wire::lemma_varint_len((8 * f + 2) as nat);
    crate::wire::lemma_varint_len(len as nat);
    assert(rest.len() < s.len());
}

} // verus!
