//! What holds of the records in a buffer across the collection's
//! operations.
use vstd::prelude::*;

use crate::be::{be16, read_be16, splice};
use crate::collection::{
    compacted, decoded, find_from, find_span, header_at, lemma_find_bounds, lemma_record_end,
    lemma_scan_bounds, logical_len, push_outcome, record_at, record_end, replace_outcome,
    scan_end, tlvs, tlvs_from, unit_result,
};
use crate::length::{encoded_size, length_field, lemma_length_field_len, lemma_read_length_field};
use crate::tlv::{lemma_tlv_bytes_len, tlv_bytes, write_outcome};
use crate::traits::{record_value, DecodeTlvValueUnchecked, TlvType};

verus! {

/// The bytes after the records are all zero.
pub open spec fn tail_is_zero(b: Seq<u8>) -> bool {
    forall|i: int| logical_len(b) <= i < b.len() ==> b[i] == 0
}

/// `rs` without its first record whose type byte is `t`.
pub open spec fn remove_first(rs: Seq<Seq<u8>>, t: u8) -> Seq<Seq<u8>>
    decreases rs.len(),
{
    if rs.len() == 0 {
        rs
    } else if rs[0][0] == t {
        rs.drop_first()
    } else {
        seq![rs[0]] + remove_first(rs.drop_first(), t)
    }
}

/// The number of records in `rs` whose type byte is `t`.
pub open spec fn count_type(rs: Seq<Seq<u8>>, t: u8) -> nat
    decreases rs.len(),
{
    if rs.len() == 0 {
        0
    } else {
        (if rs[0][0] == t {
            1nat
        } else {
            0nat
        }) + count_type(rs.drop_first(), t)
    }
}

/// A record read from bytes that hold the same values reads the same.
proof fn lemma_same_record(b1: Seq<u8>, b2: Seq<u8>, p: int)
    requires
        b1.len() <= b2.len(),
        0 <= p,
        record_at(b1, p),
        forall|i: int| p <= i < record_end(b1, p) ==> b1[i] == b2[i],
    ensures
        record_at(b2, p),
        record_end(b2, p) == record_end(b1, p),
        b2.subrange(p, record_end(b2, p)) == b1.subrange(p, record_end(b1, p)),
        b2[p] == b1[p],
{
    lemma_record_end(b1, p);
    let e = record_end(b1, p);
    assert(b1[p + 1] == b2[p + 1]);
    if b1[p + 1] == 0xFF {
        assert(b1[p + 2] == b2[p + 2]);
        assert(b1[p + 3] == b2[p + 3]);
    }
    assert(b2.subrange(p, e) =~= b1.subrange(p, e));
}

/// Where only zeros follow, no record starts.
proof fn lemma_zeros_no_record(b: Seq<u8>, p: int)
    requires
        0 <= p,
        forall|i: int| p <= i < b.len() ==> b[i] == 0,
    ensures
        !record_at(b, p),
{
    if p + 1 < b.len() {
        assert(b[p + 1] == 0);
    }
}

/// The records from a position depend only on the bytes from there on.
proof fn lemma_shift(b1: Seq<u8>, start1: int, b2: Seq<u8>, start2: int)
    requires
        0 <= start1 <= b1.len(),
        0 <= start2 <= b2.len(),
        b1.subrange(start1, b1.len() as int) == b2.subrange(start2, b2.len() as int),
    ensures
        tlvs_from(b1, start1) == tlvs_from(b2, start2),
        scan_end(b1, start1) - start1 == scan_end(b2, start2) - start2,
    decreases b1.len() - start1,
{
    let s1 = b1.subrange(start1, b1.len() as int);
    let s2 = b2.subrange(start2, b2.len() as int);
    assert(s1.len() == b1.len() - start1);
    assert(s2.len() == b2.len() - start2);
    assert(s1 == s2);
    assert forall|k: int| 0 <= k < b1.len() - start1 implies #[trigger] b1[start1 + k] == b2[start2 + k] by {
        assert(s1[k] == b1[start1 + k]);
        assert(s2[k] == b2[start2 + k]);
    }
    if start1 + 1 < b1.len() {
        assert(b1[start1 + 1] == b2[start2 + 1]);
        if start1 + 3 < b1.len() {
            assert(b1[start1 + 2] == b2[start2 + 2]);
            assert(b1[start1 + 3] == b2[start2 + 3]);
        }
    }
    assert(header_at(b1, start1) == header_at(b2, start2));
    if record_at(b1, start1) {
        let e1 = record_end(b1, start1);
        let e2 = record_end(b2, start2);
        lemma_record_end(b1, start1);
        assert(b1.subrange(start1, e1) =~= b2.subrange(start2, e2));
        assert forall|k: int| 0 <= k < b1.len() - e1 implies b1.subrange(e1, b1.len() as int)[k]
            == b2.subrange(e2, b2.len() as int)[k] by {
            assert(b1[e1 + k] == b1[start1 + (e1 - start1 + k)]);
        }
        assert(b1.subrange(e1, b1.len() as int) =~= b2.subrange(e2, b2.len() as int));
        lemma_shift(b1, e1, b2, e2);
    }
}

/// Zeros added after a buffer whose tail is zero change none of its records.
proof fn lemma_zero_extend(c: Seq<u8>, p: int, k: nat)
    requires
        tail_is_zero(c),
        0 <= p <= c.len(),
        scan_end(c, p) == logical_len(c),
    ensures
        tlvs_from(c + Seq::new(k, |i: int| 0u8), p) == tlvs_from(c, p),
        scan_end(c + Seq::new(k, |i: int| 0u8), p) == scan_end(c, p),
    decreases c.len() - p,
{
    let z = Seq::new(k, |i: int| 0u8);
    let cz = c + z;
    if record_at(c, p) {
        lemma_record_end(c, p);
        lemma_same_record(c, cz, p);
        lemma_zero_extend(c, record_end(c, p), k);
    } else {
        assert forall|i: int| p <= i < cz.len() implies cz[i] == 0 by {
            if i < c.len() {
                assert(cz[i] == c[i]);
            }
        }
        lemma_zeros_no_record(cz, p);
    }
}

proof fn lemma_zero_extend_tail(c: Seq<u8>, k: nat)
    requires
        tail_is_zero(c),
    ensures
        tlvs(c + Seq::new(k, |i: int| 0u8)) == tlvs(c),
        logical_len(c + Seq::new(k, |i: int| 0u8)) == logical_len(c),
        tail_is_zero(c + Seq::new(k, |i: int| 0u8)),
{
    lemma_zero_extend(c, 0, k);
    let cz = c + Seq::new(k, |i: int| 0u8);
    assert forall|i: int| logical_len(cz) <= i < cz.len() implies cz[i] == 0 by {
        if i < c.len() {
            assert(cz[i] == c[i]);
        }
    }
}

/// A record written with `tlv_bytes` reads back as a record of that size.
proof fn lemma_written_record(n: Seq<u8>, s: int, t: u8, v: Seq<u8>)
    requires
        0 <= s,
        0 < v.len() <= u16::MAX,
        s + encoded_size(v.len()) <= n.len(),
        n.subrange(s, s + encoded_size(v.len())) == tlv_bytes(t, v),
    ensures
        record_at(n, s),
        record_end(n, s) == s + encoded_size(v.len()),
        n[s] == t,
        n.subrange(s, record_end(n, s)) == tlv_bytes(t, v),
{
    lemma_tlv_bytes_len(t, v);
    lemma_length_field_len(v.len());
    let tb = tlv_bytes(t, v);
    let f = length_field(v.len());
    assert(n[s] == tb[0]);
    assert(n.subrange(s + 1, s + 1 + f.len()) =~= f) by {
        assert forall|i: int| 0 <= i < f.len() implies n.subrange(s + 1, s + 1 + f.len())[i]
            == f[i] by {
            assert(n[s + 1 + i] == tb[1 + i]);
        }
    }
    lemma_read_length_field(n, s + 1, v.len());
    assert(n[s + 1] == f[0]);
    if v.len() >= 255 {
        assert(n[s + 2] == f[1]);
        assert(n[s + 3] == f[2]);
        crate::be::lemma_be16_round_trip(v.len() as u16);
        assert(read_be16(n, s + 2) == read_be16(be16(v.len() as u16), 0));
    }
}

/// Removing the first record of type `t`, walked from a record `p` before it.
proof fn lemma_remove_from(b: Seq<u8>, p: int, s: int, e: int, t: u8)
    requires
        tail_is_zero(b),
        0 <= p <= s,
        find_from(b, p, t) == Some((s, e)),
        scan_end(b, p) == logical_len(b),
    ensures
        tlvs_from(compacted(b, s, e), p) == remove_first(tlvs_from(b, p), t),
        scan_end(compacted(b, s, e), p) == logical_len(b) - (e - s),
    decreases s - p,
{
    let n = compacted(b, s, e);
    lemma_find_bounds(b, p, t);
    lemma_record_end(b, s);
    if p == s {
        let c = b.subrange(e, b.len() as int);
        let z = Seq::new((e - s) as nat, |i: int| 0u8);
        assert(n.subrange(s, n.len() as int) =~= c + z);
        assert(c.subrange(0, c.len() as int) =~= c);
        assert((c + z).subrange(0, (c + z).len() as int) =~= c + z);
        lemma_shift(b, e, c, 0);
        lemma_scan_bounds(b, e);
        assert forall|i: int| logical_len(c) <= i < c.len() implies c[i] == 0 by {
            assert(c[i] == b[e + i]);
        }
        lemma_zero_extend(c, 0, (e - s) as nat);
        lemma_shift(n, s, c + z, 0);
        let rs = tlvs_from(b, s);
        assert(rs[0] == b.subrange(s, e));
        assert(rs.drop_first() =~= tlvs_from(b, e));
    } else {
        let end = record_end(b, p);
        lemma_record_end(b, p);
        lemma_find_bounds(b, end, t);
        assert forall|i: int| p <= i < end implies b[i] == n[i] by {}
        lemma_same_record(b, n, p);
        lemma_remove_from(b, end, s, e, t);
        let rs = tlvs_from(b, p);
        assert(rs[0] == b.subrange(p, end));
        assert(rs[0][0] == b[p]);
        assert(rs.drop_first() =~= tlvs_from(b, end));
    }
}

/// Removing the first record of type `t` leaves the other records, in their
/// order, and only zeros after them.
pub proof fn lemma_remove_keeps_others(b: Seq<u8>, t: u8)
    requires
        tail_is_zero(b),
        find_span(b, t) is Some,
    ensures
        ({
            let span = find_span(b, t)->0;
            let n = compacted(b, span.0, span.1);
            &&& tlvs(n) == remove_first(tlvs(b), t)
            &&& logical_len(n) == logical_len(b) - (span.1 - span.0)
            &&& tail_is_zero(n)
        }),
{
    let span = find_span(b, t)->0;
    let (s, e) = span;
    let n = compacted(b, s, e);
    lemma_find_bounds(b, 0, t);
    lemma_remove_from(b, 0, s, e, t);
    lemma_scan_bounds(b, e);
    lemma_record_end(b, s);
    assert(scan_end(b, e) == logical_len(b)) by {
        lemma_scan_to(b, 0, s, t);
    }
    assert forall|i: int| logical_len(n) <= i < n.len() implies n[i] == 0 by {
        if i < b.len() - (e - s) {
            assert(n[i] == b[i + (e - s)]);
        }
    }
}

/// Walking the records to the first of type `t` keeps the same end.
proof fn lemma_scan_to(b: Seq<u8>, p: int, s: int, t: u8)
    requires
        0 <= p,
        find_from(b, p, t) matches Some(span) && span.0 == s,
    ensures
        scan_end(b, s) == scan_end(b, p),
        record_at(b, s),
        scan_end(b, record_end(b, s)) == scan_end(b, p),
    decreases s - p,
{
    lemma_find_bounds(b, p, t);
    if p != s {
        lemma_record_end(b, p);
        lemma_find_bounds(b, record_end(b, p), t);
        lemma_scan_to(b, record_end(b, p), s, t);
    }
}

/// No record of type `t` is found exactly when none of the records has it.
proof fn lemma_find_none_count(b: Seq<u8>, p: int, t: u8)
    requires
        0 <= p,
    ensures
        find_from(b, p, t) is None <==> count_type(tlvs_from(b, p), t) == 0,
    decreases b.len() - p,
{
    if record_at(b, p) {
        lemma_record_end(b, p);
        let rs = tlvs_from(b, p);
        assert(rs[0] == b.subrange(p, record_end(b, p)));
        assert(rs[0][0] == b[p]);
        assert(rs.drop_first() =~= tlvs_from(b, record_end(b, p)));
        lemma_find_none_count(b, record_end(b, p), t);
    }
}

proof fn lemma_remove_first_count(rs: Seq<Seq<u8>>, t: u8)
    requires
        count_type(rs, t) > 0,
    ensures
        count_type(remove_first(rs, t), t) == count_type(rs, t) - 1,
    decreases rs.len(),
{
    if rs[0][0] != t {
        lemma_remove_first_count(rs.drop_first(), t);
        let r = remove_first(rs, t);
        assert(r[0] == rs[0]);
        assert(r.drop_first() =~= remove_first(rs.drop_first(), t));
    }
}

/// After the only record of type `t` is removed, none is found.
pub proof fn lemma_remove_only_record(b: Seq<u8>, t: u8)
    requires
        tail_is_zero(b),
        count_type(tlvs(b), t) == 1,
    ensures
        find_span(b, t) is Some,
        ({
            let span = find_span(b, t)->0;
            find_span(compacted(b, span.0, span.1), t) is None
        }),
{
    lemma_find_none_count(b, 0, t);
    lemma_remove_keeps_others(b, t);
    lemma_remove_first_count(tlvs(b), t);
    let span = find_span(b, t)->0;
    lemma_find_none_count(compacted(b, span.0, span.1), 0, t);
}

/// Appending a record, walked from a record `p` before the end.
proof fn lemma_push_from(b: Seq<u8>, p: int, t: u8, v: Seq<u8>)
    requires
        tail_is_zero(b),
        0 <= p <= logical_len(b),
        scan_end(b, p) == logical_len(b),
        0 < v.len() <= u16::MAX,
        logical_len(b) + encoded_size(v.len()) <= b.len(),
    ensures
        tlvs_from(splice(b, logical_len(b), tlv_bytes(t, v)), p) == tlvs_from(b, p).push(
            tlv_bytes(t, v),
        ),
        scan_end(splice(b, logical_len(b), tlv_bytes(t, v)), p) == logical_len(b) + encoded_size(
            v.len(),
        ),
    decreases logical_len(b) - p,
{
    let l = logical_len(b);
    let tb = tlv_bytes(t, v);
    let n = splice(b, l, tb);
    let size = encoded_size(v.len());
    lemma_tlv_bytes_len(t, v);
    if p == l {
        if record_at(b, p) {
            lemma_record_end(b, p);
            lemma_scan_bounds(b, record_end(b, p));
        }
        assert(n.subrange(l, l + size) =~= tb);
        lemma_written_record(n, l, t, v);
        assert forall|i: int| l + size <= i < n.len() implies n[i] == 0 by {
            assert(n[i] == b[i]);
        }
        lemma_zeros_no_record(n, l + size);
        assert(tlvs_from(n, l + size) == Seq::<Seq<u8>>::empty());
        assert(scan_end(n, l + size) == l + size);
        assert(tlvs_from(b, p) =~= Seq::<Seq<u8>>::empty());
        assert(tlvs_from(n, p) =~= seq![tb]);
    } else {
        lemma_record_end(b, p);
        let end = record_end(b, p);
        lemma_scan_bounds(b, end);
        assert forall|i: int| p <= i < end implies b[i] == n[i] by {}
        lemma_same_record(b, n, p);
        lemma_push_from(b, end, t, v);
        assert(tlvs_from(n, p) =~= tlvs_from(b, p).push(tb));
    }
}

/// Appending a record to a buffer whose tail is zero adds it after the
/// others; the logical length grows by its size and the tail stays zero.
pub proof fn lemma_push_appends(b: Seq<u8>, t: u8, v: Seq<u8>)
    requires
        tail_is_zero(b),
        0 < v.len() <= u16::MAX,
        logical_len(b) + encoded_size(v.len()) <= b.len(),
    ensures
        push_outcome(b, t, v).0 is Ok,
        tlvs(push_outcome(b, t, v).1) == tlvs(b).push(tlv_bytes(t, v)),
        logical_len(push_outcome(b, t, v).1) == logical_len(b) + encoded_size(v.len()),
        tail_is_zero(push_outcome(b, t, v).1),
{
    lemma_scan_bounds(b, 0);
    lemma_push_from(b, 0, t, v);
    let n = push_outcome(b, t, v).1;
    lemma_tlv_bytes_len(t, v);
    assert forall|i: int| logical_len(n) <= i < n.len() implies n[i] == 0 by {
        assert(n[i] == b[i]);
    }
}

/// Writing over the first record of type `t`, walked from a record `p`
/// before it, with a record of the same size.
proof fn lemma_overwrite_from(b: Seq<u8>, p: int, s: int, e: int, t: u8, v: Seq<u8>)
    requires
        0 <= p <= s,
        find_from(b, p, t) == Some((s, e)),
        e - s == encoded_size(v.len()),
        0 < v.len() <= u16::MAX,
    ensures
        find_from(splice(b, s, tlv_bytes(t, v)), p, t) == Some((s, e)),
        scan_end(splice(b, s, tlv_bytes(t, v)), p) == scan_end(b, p),
    decreases s - p,
{
    let tb = tlv_bytes(t, v);
    let n = splice(b, s, tb);
    lemma_tlv_bytes_len(t, v);
    lemma_find_bounds(b, p, t);
    lemma_record_end(b, s);
    if p == s {
        assert(n.subrange(s, e) =~= tb);
        lemma_written_record(n, s, t, v);
        assert(n.subrange(e, n.len() as int) =~= b.subrange(e, b.len() as int));
        lemma_shift(n, e, b, e);
    } else {
        lemma_record_end(b, p);
        let end = record_end(b, p);
        lemma_find_bounds(b, end, t);
        assert forall|i: int| p <= i < end implies b[i] == n[i] by {}
        lemma_same_record(b, n, p);
        lemma_overwrite_from(b, end, s, e, t, v);
    }
}

/// Replacing a record of a constant-length type, when the new record has the
/// size of the old one, keeps the logical length and the record's offset.
pub proof fn lemma_replace_in_place(b: Seq<u8>, t: u8, v: Seq<u8>)
    requires
        find_span(b, t) is Some,
        ({
            let span = find_span(b, t)->0;
            span.1 - span.0 == encoded_size(v.len())
        }),
        0 < v.len() <= u16::MAX,
    ensures
        replace_outcome(b, t, v, true).0 is Ok,
        logical_len(replace_outcome(b, t, v, true).1) == logical_len(b),
        find_span(replace_outcome(b, t, v, true).1, t) == find_span(b, t),
        ({
            let span = find_span(b, t)->0;
            replace_outcome(b, t, v, true).1.subrange(span.0, span.1) == tlv_bytes(t, v)
        }),
{
    let span = find_span(b, t)->0;
    lemma_find_bounds(b, 0, t);
    lemma_tlv_bytes_len(t, v);
    lemma_overwrite_from(b, 0, span.0, span.1, t, v);
    let n = splice(b, span.0, tlv_bytes(t, v));
    assert(n.subrange(span.0, span.1) =~= tlv_bytes(t, v));
}

/// Replacing a record of a variable-length type, when it succeeds, removes
/// the old record and appends the new one after all the others.
pub proof fn lemma_replace_relocates(b: Seq<u8>, t: u8, v: Seq<u8>)
    requires
        tail_is_zero(b),
        find_span(b, t) is Some,
        0 < v.len() <= u16::MAX,
        replace_outcome(b, t, v, false).0 is Ok,
    ensures
        tlvs(replace_outcome(b, t, v, false).1) == remove_first(tlvs(b), t).push(tlv_bytes(t, v)),
        tail_is_zero(replace_outcome(b, t, v, false).1),
{
    let span = find_span(b, t)->0;
    let m = compacted(b, span.0, span.1);
    lemma_remove_keeps_others(b, t);
    lemma_push_appends(m, t, v);
}

/// Finding type `t` after a record of that type was appended to a buffer
/// that had none, walked from a record `p` before the end.
proof fn lemma_find_pushed_from(b: Seq<u8>, p: int, t: u8, v: Seq<u8>)
    requires
        0 <= p <= logical_len(b),
        scan_end(b, p) == logical_len(b),
        find_from(b, p, t) is None,
        0 < v.len() <= u16::MAX,
        logical_len(b) + encoded_size(v.len()) <= b.len(),
    ensures
        find_from(splice(b, logical_len(b), tlv_bytes(t, v)), p, t) == Some(
            (logical_len(b), logical_len(b) + encoded_size(v.len())),
        ),
    decreases logical_len(b) - p,
{
    let l = logical_len(b);
    let tb = tlv_bytes(t, v);
    let n = splice(b, l, tb);
    lemma_tlv_bytes_len(t, v);
    if p == l {
        assert(n.subrange(l, l + encoded_size(v.len())) =~= tb);
        lemma_written_record(n, l, t, v);
    } else {
        if !record_at(b, p) {
            assert(scan_end(b, p) == p);
        }
        lemma_record_end(b, p);
        let end = record_end(b, p);
        lemma_scan_bounds(b, end);
        assert forall|i: int| p <= i < end implies b[i] == n[i] by {}
        lemma_same_record(b, n, p);
        lemma_find_pushed_from(b, end, t, v);
    }
}

/// Appending a well-formed value to a buffer that holds no record of the
/// value's type, then reading that type, gives the value back; what the
/// buffer holds after its records does not matter.
pub proof fn lemma_push_then_decode<T: DecodeTlvValueUnchecked + TlvType>(b: Seq<u8>, v: T)
    requires
        find_span(b, T::TLV_TYPE) is None,
        v.well_formed(),
        0 < v.value_bytes().len() <= u16::MAX,
        logical_len(b) + encoded_size(v.value_bytes().len()) <= b.len(),
    ensures
        push_outcome(b, T::TLV_TYPE, v.value_bytes()).0 is Ok,
        decoded::<T>(push_outcome(b, T::TLV_TYPE, v.value_bytes()).1) == Some(v),
{
    let vb = v.value_bytes();
    let l = logical_len(b);
    let size = encoded_size(vb.len());
    let n = push_outcome(b, T::TLV_TYPE, vb).1;
    lemma_scan_bounds(b, 0);
    lemma_tlv_bytes_len(T::TLV_TYPE, vb);
    lemma_find_pushed_from(b, 0, T::TLV_TYPE, vb);
    assert(n.subrange(l, l + size) =~= tlv_bytes(T::TLV_TYPE, vb));
    lemma_record_round_trip(v);
}

/// A well-formed value's record reads back as the value.
pub proof fn lemma_record_round_trip<T: DecodeTlvValueUnchecked + TlvType>(v: T)
    requires
        v.well_formed(),
        v.value_bytes().len() <= u16::MAX,
    ensures
        T::decode_value(record_value(tlv_bytes(T::TLV_TYPE, v.value_bytes()))) == v,
{
    let vb = v.value_bytes();
    let b = tlv_bytes(T::TLV_TYPE, vb);
    let f = length_field(vb.len());
    lemma_length_field_len(vb.len());
    assert(b.subrange(1, 1 + f.len() as int) =~= f);
    lemma_read_length_field(b, 1, vb.len());
    assert(record_value(b) =~= vb);
    v.lemma_decode_encoded();
}

/// Length fields below 255 take one byte; from 255 on they take three, the
/// first being 0xFF; a 256-byte value's record takes 260 bytes.
pub proof fn lemma_extended_length_boundary(t: u8, v: Seq<u8>)
    requires
        v.len() == 256,
    ensures
        length_field(254) == seq![254u8],
        length_field(255).len() == 3 && length_field(255)[0] == 0xFF,
        forall|len: nat| 255 <= len <= u16::MAX ==> (#[trigger] length_field(len)).len() == 3
            && length_field(len)[0] == 0xFF,
        forall|len: nat| len < 255 ==> (#[trigger] length_field(len)).len() == 1,
        tlv_bytes(t, v).len() == 260,
{
    lemma_tlv_bytes_len(t, v);
}

} // verus!
