//! The report format: rendering a change-set as a single JSON document.
//!
//! The report is one JSON object with two keys, `"removed"` (an array of
//! `{"path": ...}` objects) and `"changed"` (an array of
//! `{"path": ..., "data": ...}` objects), with no whitespace. Path and content
//! bytes are emitted as JSON string literals: `"` and `\` are backslash-escaped,
//! the control bytes BS, TAB, LF, FF and CR use their short escapes, the other
//! bytes below 0x20 use `\u00` and two lowercase hex digits, and every other
//! byte passes through unchanged. On valid UTF-8 input this byte-wise escaping
//! coincides with character-wise escaping, since every byte it touches is
//! ASCII.
//!
//! The spec functions here define the rendered document exactly; the exec
//! functions produce it and are proved equal to the spec.

use vstd::prelude::*;
use crate::records::ArtifactDeletionRecord;
use crate::records::ArtifactUpdateRecord;
use crate::records::CodegenRecords;

verus! {

/// The lowercase hex digit for a value below 16.
pub open spec fn hex_digit(n: u8) -> u8 {
    if n < 10 {
        (48 + n) as u8
    } else {
        (87 + n) as u8
    }
}

/// How one byte appears inside a JSON string literal.
pub open spec fn escape_byte(b: u8) -> Seq<u8> {
    if b == 34 {
        seq![92u8, 34u8]
    } else if b == 92 {
        seq![92u8, 92u8]
    } else if b == 8 {
        seq![92u8, 98u8]
    } else if b == 9 {
        seq![92u8, 116u8]
    } else if b == 10 {
        seq![92u8, 110u8]
    } else if b == 12 {
        seq![92u8, 102u8]
    } else if b == 13 {
        seq![92u8, 114u8]
    } else if b < 32 {
        seq![92u8, 117u8, 48u8, 48u8, hex_digit(b / 16), hex_digit(b % 16)]
    } else {
        seq![b]
    }
}

/// The body of a JSON string literal holding the bytes of `s`.
pub open spec fn escape_bytes(s: Seq<u8>) -> Seq<u8>
    decreases s.len(),
{
    if s.len() == 0 {
        Seq::<u8>::empty()
    } else {
        escape_byte(s[0]) + escape_bytes(s.drop_first())
    }
}

/// The items of a JSON array body, separated by commas.
pub open spec fn join_comma(items: Seq<Seq<u8>>) -> Seq<u8>
    decreases items.len(),
{
    if items.len() == 0 {
        Seq::<u8>::empty()
    } else if items.len() == 1 {
        items[0]
    } else {
        items[0] + seq![44u8] + join_comma(items.drop_first())
    }
}

/// The bytes `{"path":"`.
pub open spec fn lit_path_prefix() -> Seq<u8> {
    seq![123u8, 34u8, 112u8, 97u8, 116u8, 104u8, 34u8, 58u8, 34u8]
}

/// The bytes `","data":"`.
pub open spec fn lit_data_infix() -> Seq<u8> {
    seq![34u8, 44u8, 34u8, 100u8, 97u8, 116u8, 97u8, 34u8, 58u8, 34u8]
}

/// The bytes `"}`.
pub open spec fn lit_record_suffix() -> Seq<u8> {
    seq![34u8, 125u8]
}

/// The bytes `{"removed":[`.
pub open spec fn lit_removed_prefix() -> Seq<u8> {
    seq![123u8, 34u8, 114u8, 101u8, 109u8, 111u8, 118u8, 101u8, 100u8, 34u8, 58u8, 91u8]
}

/// The bytes `],"changed":[`.
pub open spec fn lit_changed_infix() -> Seq<u8> {
    seq![93u8, 44u8, 34u8, 99u8, 104u8, 97u8, 110u8, 103u8, 101u8, 100u8, 34u8, 58u8, 91u8]
}

/// The bytes `]}`.
pub open spec fn lit_report_suffix() -> Seq<u8> {
    seq![93u8, 125u8]
}

/// The JSON object for one deletion record.
pub open spec fn deletion_json(path: Seq<u8>) -> Seq<u8> {
    lit_path_prefix() + escape_bytes(path) + lit_record_suffix()
}

/// The JSON object for one update record.
pub open spec fn update_json(path: Seq<u8>, data: Seq<u8>) -> Seq<u8> {
    lit_path_prefix() + escape_bytes(path) + lit_data_infix() + escape_bytes(data)
        + lit_record_suffix()
}

/// The JSON objects of all deletion records, in log order.
pub open spec fn deletion_jsons(rs: Seq<ArtifactDeletionRecord>) -> Seq<Seq<u8>> {
    rs.map_values(|r: ArtifactDeletionRecord| deletion_json(r.path@))
}

/// The JSON objects of all update records, in log order.
pub open spec fn update_jsons(rs: Seq<ArtifactUpdateRecord>) -> Seq<Seq<u8>> {
    rs.map_values(|r: ArtifactUpdateRecord| update_json(r.path@, r.data@))
}

/// The whole report document for a change-set.
pub open spec fn report_json(records: CodegenRecords) -> Seq<u8> {
    lit_removed_prefix() + join_comma(deletion_jsons(records.removed@)) + lit_changed_infix()
        + join_comma(update_jsons(records.changed@)) + lit_report_suffix()
}

/// Escaping distributes over appending one byte at the end.
proof fn lemma_escape_bytes_push(s: Seq<u8>, x: u8)
    ensures
        escape_bytes(s.push(x)) == escape_bytes(s) + escape_byte(x),
    decreases s.len(),
{
    if s.len() == 0 {
        assert(s.push(x)[0] == x);
        assert(s.push(x).drop_first() =~= Seq::<u8>::empty());
        assert(escape_bytes(s.push(x).drop_first()) == Seq::<u8>::empty());
        assert(escape_bytes(s.push(x)) == escape_byte(x) + Seq::<u8>::empty());
        assert(escape_bytes(s) + escape_byte(x) =~= escape_byte(x) + Seq::<u8>::empty());
    } else {
        assert(s.push(x)[0] == s[0]);
        assert(s.push(x).drop_first() =~= s.drop_first().push(x));
        lemma_escape_bytes_push(s.drop_first(), x);
        assert(escape_bytes(s.push(x)) =~= escape_bytes(s) + escape_byte(x));
    }
}

/// Escaping one more byte of a prefix extends the escaped prefix.
proof fn lemma_escape_bytes_take_succ(s: Seq<u8>, i: int)
    requires
        0 <= i < s.len(),
    ensures
        escape_bytes(s.take(i + 1)) == escape_bytes(s.take(i)) + escape_byte(s[i]),
{
    assert(s.take(i + 1) =~= s.take(i).push(s[i]));
    lemma_escape_bytes_push(s.take(i), s[i]);
}

/// Joining one more item appends a comma (except before the first item).
proof fn lemma_join_comma_push(items: Seq<Seq<u8>>, x: Seq<u8>)
    ensures
        join_comma(items.push(x)) == if items.len() == 0 {
            x
        } else {
            join_comma(items) + seq![44u8] + x
        },
    decreases items.len(),
{
    if items.len() == 0 {
        assert(items.push(x)[0] == x);
    } else if items.len() == 1 {
        assert(items.push(x)[0] == items[0]);
        assert(items.push(x).drop_first() =~= Seq::<Seq<u8>>::empty().push(x));
        assert(join_comma(items.push(x).drop_first()) == x);
        assert(join_comma(items.push(x)) =~= join_comma(items) + seq![44u8] + x);
    } else {
        assert(items.push(x)[0] == items[0]);
        assert(items.push(x).drop_first() =~= items.drop_first().push(x));
        lemma_join_comma_push(items.drop_first(), x);
        assert(join_comma(items.push(x)) =~= join_comma(items) + seq![44u8] + x);
    }
}

/// Appends the escaped form of `s` to `out`.
fn push_escaped(out: &mut Vec<u8>, s: &Vec<u8>)
    ensures
        final(out)@ == old(out)@ + escape_bytes(s@),
{
    let mut i: usize = 0;
    proof {
        assert(s@.take(0) =~= Seq::<u8>::empty());
        assert(out@ =~= old(out)@ + escape_bytes(s@.take(0)));
    }
    while i < s.len()
        invariant
            i <= s@.len(),
            out@ == old(out)@ + escape_bytes(s@.take(i as int)),
        decreases s@.len() - i,
    {
        let b = s[i];
        if b == 34 {
            out.push(92);
            out.push(34);
        } else if b == 92 {
            out.push(92);
            out.push(92);
        } else if b == 8 {
            out.push(92);
            out.push(98);
        } else if b == 9 {
            out.push(92);
            out.push(116);
        } else if b == 10 {
            out.push(92);
            out.push(110);
        } else if b == 12 {
            out.push(92);
            out.push(102);
        } else if b == 13 {
            out.push(92);
            out.push(114);
        } else if b < 32 {
            out.push(92);
            out.push(117);
            out.push(48);
            out.push(48);
            let hi = b / 16;
            let lo = b % 16;
            out.push(if hi < 10 { 48 + hi } else { 87 + hi });
            out.push(if lo < 10 { 48 + lo } else { 87 + lo });
        } else {
            out.push(b);
        }
        proof {
            lemma_escape_bytes_take_succ(s@, i as int);
            assert(out@ =~= old(out)@ + escape_bytes(s@.take(i + 1)));
        }
        i += 1;
    }
    proof {
        assert(s@.take(s@.len() as int) =~= s@);
    }
}

/// Appends `{"path":"` to `out`.
fn push_path_prefix(out: &mut Vec<u8>)
    ensures
        final(out)@ == old(out)@ + lit_path_prefix(),
{
    out.push(123);
    out.push(34);
    out.push(112);
    out.push(97);
    out.push(116);
    out.push(104);
    out.push(34);
    out.push(58);
    out.push(34);
    proof {
        assert(out@ =~= old(out)@ + lit_path_prefix());
    }
}

/// Appends `","data":"` to `out`.
fn push_data_infix(out: &mut Vec<u8>)
    ensures
        final(out)@ == old(out)@ + lit_data_infix(),
{
    out.push(34);
    out.push(44);
    out.push(34);
    out.push(100);
    out.push(97);
    out.push(116);
    out.push(97);
    out.push(34);
    out.push(58);
    out.push(34);
    proof {
        assert(out@ =~= old(out)@ + lit_data_infix());
    }
}

/// Appends `"}` to `out`.
fn push_record_suffix(out: &mut Vec<u8>)
    ensures
        final(out)@ == old(out)@ + lit_record_suffix(),
{
    out.push(34);
    out.push(125);
    proof {
        assert(out@ =~= old(out)@ + lit_record_suffix());
    }
}

/// Appends the body of the `"removed"` array to `out`.
fn push_deletion_array(out: &mut Vec<u8>, items: &Vec<ArtifactDeletionRecord>)
    ensures
        final(out)@ == old(out)@ + join_comma(deletion_jsons(items@)),
{
    let ghost js = deletion_jsons(items@);
    let mut i: usize = 0;
    proof {
        assert(js.take(0) =~= Seq::<Seq<u8>>::empty());
        assert(out@ =~= old(out)@ + join_comma(js.take(0)));
    }
    while i < items.len()
        invariant
            i <= items@.len(),
            js == deletion_jsons(items@),
            js.len() == items@.len(),
            out@ == old(out)@ + join_comma(js.take(i as int)),
        decreases items@.len() - i,
    {
        if i > 0 {
            out.push(44);
        }
        push_path_prefix(out);
        push_escaped(out, &items[i].path);
        push_record_suffix(out);
        proof {
            assert(js[i as int] == deletion_json(items@[i as int].path@));
            assert(js.take(i + 1) =~= js.take(i as int).push(js[i as int]));
            lemma_join_comma_push(js.take(i as int), js[i as int]);
            assert(out@ =~= old(out)@ + join_comma(js.take(i + 1)));
        }
        i += 1;
    }
    proof {
        assert(js.take(items@.len() as int) =~= js);
    }
}

/// Appends the body of the `"changed"` array to `out`.
fn push_update_array(out: &mut Vec<u8>, items: &Vec<ArtifactUpdateRecord>)
    ensures
        final(out)@ == old(out)@ + join_comma(update_jsons(items@)),
{
    let ghost js = update_jsons(items@);
    let mut i: usize = 0;
    proof {
        assert(js.take(0) =~= Seq::<Seq<u8>>::empty());
        assert(out@ =~= old(out)@ + join_comma(js.take(0)));
    }
    while i < items.len()
        invariant
            i <= items@.len(),
            js == update_jsons(items@),
            js.len() == items@.len(),
            out@ == old(out)@ + join_comma(js.take(i as int)),
        decreases items@.len() - i,
    {
        if i > 0 {
            out.push(44);
        }
        push_path_prefix(out);
        push_escaped(out, &items[i].path);
        push_data_infix(out);
        push_escaped(out, &items[i].data);
        push_record_suffix(out);
        proof {
            assert(js[i as int] == update_json(items@[i as int].path@, items@[i as int].data@));
            assert(js.take(i + 1) =~= js.take(i as int).push(js[i as int]));
            lemma_join_comma_push(js.take(i as int), js[i as int]);
            assert(out@ =~= old(out)@ + join_comma(js.take(i + 1)));
        }
        i += 1;
    }
    proof {
        assert(js.take(items@.len() as int) =~= js);
    }
}

/// Renders the report document for `records`: exactly the bytes of
/// [`report_json`].
pub fn render_report(records: &CodegenRecords) -> (out: Vec<u8>)
    ensures
        out@ == report_json(*records),
{
    let mut out: Vec<u8> = Vec::new();
    out.push(123);
    out.push(34);
    out.push(114);
    out.push(101);
    out.push(109);
    out.push(111);
    out.push(118);
    out.push(101);
    out.push(100);
    out.push(34);
    out.push(58);
    out.push(91);
    proof {
        assert(out@ =~= lit_removed_prefix());
    }
    push_deletion_array(&mut out, &records.removed);
    out.push(93);
    out.push(44);
    out.push(34);
    out.push(99);
    out.push(104);
    out.push(97);
    out.push(110);
    out.push(103);
    out.push(101);
    out.push(100);
    out.push(34);
    out.push(58);
    out.push(91);
    push_update_array(&mut out, &records.changed);
    out.push(93);
    out.push(125);
    proof {
        assert(out@ =~= report_json(*records));
    }
    out
}

} // verus!
