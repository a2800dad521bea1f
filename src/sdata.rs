//! The STRUCTURED-DATA field of RFC 5424: elements `[ID NAME="VALUE" ...]`,
//! with `"`, `\` and `]` escaped in values, or `-` when there are none.
use vstd::prelude::*;
use vstd::string::*;
use vstd::utf8::*;

use crate::format::{lemma_ascii_valid_utf8, nil_value, push_byte, push_str};

verus! {

broadcast use {vstd::utf8::group_utf8_lib, vstd::string::group_string_axioms};

/// One parameter of an element.
#[derive(Clone, Debug)]
pub struct SdParam {
    pub name: String,
    pub value: String,
}

/// One element: its id and its parameters.
#[derive(Clone, Debug)]
pub struct SdElement {
    pub id: String,
    pub params: Vec<SdParam>,
}

/// Whether `b` is escaped in a parameter value.
pub open spec fn is_escaped(b: u8) -> bool {
    b == 34 || b == 92 || b == 93
}

/// One byte of a value as written.
pub open spec fn escape_byte(b: u8) -> Seq<u8> {
    if is_escaped(b) {
        seq![92u8, b]
    } else {
        seq![b]
    }
}

/// A value as written: each `"`, `\` and `]` preceded by `\`.
pub open spec fn escape_value(v: Seq<u8>) -> Seq<u8>
    decreases v.len(),
{
    if v.len() == 0 {
        seq![]
    } else {
        escape_value(v.drop_last()) + escape_byte(v.last())
    }
}

/// ` NAME="VALUE"`.
pub open spec fn param_bytes(p: SdParam) -> Seq<u8> {
    seq![32u8] + encode_utf8(p.name@) + seq![61u8, 34u8] + escape_value(encode_utf8(p.value@))
        + seq![34u8]
}

/// The parameters one after the other.
pub open spec fn params_bytes(ps: Seq<SdParam>) -> Seq<u8>
    decreases ps.len(),
{
    if ps.len() == 0 {
        seq![]
    } else {
        params_bytes(ps.drop_last()) + param_bytes(ps.last())
    }
}

/// `[ID` and the parameters, then `]`.
pub open spec fn element_bytes(e: SdElement) -> Seq<u8> {
    seq![91u8] + encode_utf8(e.id@) + params_bytes(e.params@) + seq![93u8]
}

/// The elements one after the other.
pub open spec fn elements_bytes(es: Seq<SdElement>) -> Seq<u8>
    decreases es.len(),
{
    if es.len() == 0 {
        seq![]
    } else {
        elements_bytes(es.drop_last()) + element_bytes(es.last())
    }
}

/// The STRUCTURED-DATA field: `-` without elements.
pub open spec fn sd_field(es: Seq<SdElement>) -> Seq<u8> {
    if es.len() == 0 {
        nil_value()
    } else {
        elements_bytes(es)
    }
}

proof fn lemma_escape_concat(a: Seq<u8>, b: Seq<u8>)
    ensures
        escape_value(a + b) == escape_value(a) + escape_value(b),
    decreases b.len(),
{
    if b.len() == 0 {
        assert(a + b =~= a);
        assert(escape_value(a) + escape_value(b) =~= escape_value(a));
    } else {
        assert((a + b).drop_last() =~= a + b.drop_last());
        assert((a + b).last() == b.last());
        lemma_escape_concat(a, b.drop_last());
        assert(escape_value(a + b) =~= escape_value(a) + escape_value(b));
    }
}

proof fn lemma_escape_one(b: u8)
    ensures
        escape_value(seq![b]) == escape_byte(b),
{
    assert(seq![b].drop_last() =~= Seq::<u8>::empty());
    assert(escape_value(Seq::<u8>::empty()) + escape_byte(b) =~= escape_byte(b));
}

/// Escaping leaves bytes from 0x80 up alone.
proof fn lemma_escape_high(v: Seq<u8>)
    requires
        forall|i: int| 0 <= i < v.len() ==> #[trigger] v[i] >= 0x80,
    ensures
        escape_value(v) == v,
    decreases v.len(),
{
    if v.len() > 0 {
        lemma_escape_high(v.drop_last());
        assert(v.drop_last() + seq![v.last()] =~= v);
    }
}

/// Escaping keeps valid UTF-8 valid.
pub proof fn lemma_escape_valid(v: Seq<u8>)
    requires
        valid_utf8(v),
    ensures
        valid_utf8(escape_value(v)),
    decreases v.len(),
{
    if v.len() > 0 {
        let n = length_of_first_scalar(v);
        let first = v.subrange(0, n);
        let rest = v.subrange(n, v.len() as int);
        assert(first + rest =~= v);
        lemma_escape_concat(first, rest);
        lemma_escape_valid(rest);
        if n == 1 {
            lemma_escape_one(v[0]);
            assert(first =~= seq![v[0]]);
            lemma_ascii_valid_utf8(escape_byte(v[0]));
        } else {
            assert(forall|i: int| 0 <= i < first.len() ==> #[trigger] first[i] >= 0x80);
            lemma_escape_high(first);
            reveal_with_fuel(valid_utf8, 2);
            assert(pop_first_scalar(first) =~= Seq::<u8>::empty());
        }
        valid_utf8_concat(escape_value(first), escape_value(rest));
    }
}

proof fn lemma_param_valid(p: SdParam)
    ensures
        valid_utf8(param_bytes(p)),
{
    lemma_escape_valid(encode_utf8(p.value@));
    lemma_ascii_valid_utf8(seq![32u8]);
    lemma_ascii_valid_utf8(seq![61u8, 34u8]);
    lemma_ascii_valid_utf8(seq![34u8]);
    let a = seq![32u8] + encode_utf8(p.name@);
    valid_utf8_concat(seq![32u8], encode_utf8(p.name@));
    let b = a + seq![61u8, 34u8];
    valid_utf8_concat(a, seq![61u8, 34u8]);
    let c = b + escape_value(encode_utf8(p.value@));
    valid_utf8_concat(b, escape_value(encode_utf8(p.value@)));
    valid_utf8_concat(c, seq![34u8]);
}

proof fn lemma_params_valid(ps: Seq<SdParam>)
    ensures
        valid_utf8(params_bytes(ps)),
    decreases ps.len(),
{
    if ps.len() > 0 {
        lemma_params_valid(ps.drop_last());
        lemma_param_valid(ps.last());
        valid_utf8_concat(params_bytes(ps.drop_last()), param_bytes(ps.last()));
    }
}

proof fn lemma_element_valid(e: SdElement)
    ensures
        valid_utf8(element_bytes(e)),
{
    lemma_params_valid(e.params@);
    lemma_ascii_valid_utf8(seq![91u8]);
    lemma_ascii_valid_utf8(seq![93u8]);
    let a = seq![91u8] + encode_utf8(e.id@);
    valid_utf8_concat(seq![91u8], encode_utf8(e.id@));
    let b = a + params_bytes(e.params@);
    valid_utf8_concat(a, params_bytes(e.params@));
    valid_utf8_concat(b, seq![93u8]);
}

proof fn lemma_elements_valid(es: Seq<SdElement>)
    ensures
        valid_utf8(elements_bytes(es)),
    decreases es.len(),
{
    if es.len() > 0 {
        lemma_elements_valid(es.drop_last());
        lemma_element_valid(es.last());
        valid_utf8_concat(elements_bytes(es.drop_last()), element_bytes(es.last()));
    }
}

/// The field is valid UTF-8.
pub proof fn lemma_sd_field_valid(es: Seq<SdElement>)
    ensures
        valid_utf8(sd_field(es)),
{
    lemma_elements_valid(es);
    lemma_ascii_valid_utf8(nil_value());
}

/// Appends `v` to `out`, escaped.
fn push_escaped(out: &mut Vec<u8>, v: &str)
    ensures
        final(out)@ == old(out)@ + escape_value(v.spec_bytes()),
{
    let b = v.as_bytes();
    let ghost start = out@;
    let mut i: usize = 0;
    while i < b.len()
        invariant
            i <= b@.len(),
            out@ == start + escape_value(b@.subrange(0, i as int)),
        decreases b@.len() - i,
    {
        let c = b[i];
        if c == 34u8 || c == 92u8 || c == 93u8 {
            out.push(92u8);
        }
        out.push(c);
        proof {
            assert(b@.subrange(0, i + 1).drop_last() =~= b@.subrange(0, i as int));
        }
        i = i + 1;
        assert(out@ =~= start + escape_value(b@.subrange(0, i as int)));
    }
    assert(b@.subrange(0, b@.len() as int) =~= b@);
}

fn push_param(out: &mut Vec<u8>, p: &SdParam)
    ensures
        final(out)@ == old(out)@ + param_bytes(*p),
{
    let ghost start = out@;
    push_byte(out, 32u8);
    push_str(out, p.name.as_str());
    let ghost mid = out@;
    push_byte(out, 61u8);
    push_byte(out, 34u8);
    assert(out@ =~= mid + seq![61u8, 34u8]);
    push_escaped(out, p.value.as_str());
    push_byte(out, 34u8);
    assert(out@ =~= start + param_bytes(*p));
}

fn push_element(out: &mut Vec<u8>, e: &SdElement)
    ensures
        final(out)@ == old(out)@ + element_bytes(*e),
{
    let ghost start = out@;
    push_byte(out, 91u8);
    push_str(out, e.id.as_str());
    let ghost mid = out@;
    let mut i: usize = 0;
    while i < e.params.len()
        invariant
            i <= e.params@.len(),
            out@ == mid + params_bytes(e.params@.subrange(0, i as int)),
        decreases e.params@.len() - i,
    {
        push_param(out, &e.params[i]);
        proof {
            assert(e.params@.subrange(0, i + 1).drop_last() =~= e.params@.subrange(0, i as int));
        }
        i = i + 1;
        assert(out@ =~= mid + params_bytes(e.params@.subrange(0, i as int)));
    }
    assert(e.params@.subrange(0, e.params@.len() as int) =~= e.params@);
    push_byte(out, 93u8);
    assert(out@ =~= start + element_bytes(*e));
}

/// Appends the STRUCTURED-DATA field for `data` to `out`.
pub fn push_sd_field(out: &mut Vec<u8>, data: &[SdElement])
    ensures
        final(out)@ == old(out)@ + sd_field(data@),
{
    if data.len() == 0 {
        push_byte(out, 45u8);
        return;
    }
    let ghost start = out@;
    let mut i: usize = 0;
    while i < data.len()
        invariant
            i <= data@.len(),
            out@ == start + elements_bytes(data@.subrange(0, i as int)),
        decreases data@.len() - i,
    {
        push_element(out, &data[i]);
        proof {
            assert(data@.subrange(0, i + 1).drop_last() =~= data@.subrange(0, i as int));
        }
        i = i + 1;
        assert(out@ =~= start + elements_bytes(data@.subrange(0, i as int)));
    }
    assert(data@.subrange(0, data@.len() as int) =~= data@);
}

} // verus!
