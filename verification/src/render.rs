//! The generic value renderer.
//!
//! [`spec_render`] defines, byte for byte, the text a [`Value`] renders to;
//! [`render_value`] produces exactly that text. Rendering is a pure function
//! of the value, so one value always renders to one text, however often and
//! on whichever thread it is rendered.

use vstd::prelude::*;

use crate::text::{
    addr_of, dec_of, dec_of_int, hex8_upper, hex_byte, push_addr, push_dec_i64, push_dec_u64,
    push_hex8_upper, push_hex_byte,
};
use crate::value::{
    renderable, renderable_elems, renderable_fields, EnumValue, EnumVariant, Field, Value,
};

verus! {

/// What a null pointer renders as: the token `NULL`.
pub open spec fn tok_null() -> Seq<u8> {
    seq![78u8, 85u8, 76u8, 76u8]
}

/// What opens a struct or union rendering: `{ `.
pub open spec fn tok_open() -> Seq<u8> {
    seq![123u8, 32u8]
}

/// What closes a complete struct or union rendering: ` }`.
pub open spec fn tok_close() -> Seq<u8> {
    seq![32u8, 125u8]
}

/// What closes a partial union rendering whose tag had no registered
/// variant: `, ... }`. The ellipsis is the load-bearing signal that the
/// rendering is incomplete.
pub open spec fn tok_ellipsis_close() -> Seq<u8> {
    seq![44u8, 32u8, 46u8, 46u8, 46u8, 32u8, 125u8]
}

/// The separator between rendered items: `, `.
pub open spec fn tok_sep() -> Seq<u8> {
    seq![44u8, 32u8]
}

/// What follows a field or argument name: `: `.
pub open spec fn tok_colon() -> Seq<u8> {
    seq![58u8, 32u8]
}

/// The bytes of a UTF-8 string decoded, with lossy substitution, from
/// `bytes`. The decoding is a function of the bytes alone.
pub uninterp spec fn lossy_utf8(bytes: Seq<u8>) -> Seq<u8>;

/// The bytes of a UTF-8 string decoded, with lossy substitution, from the
/// UTF-16 code units `units`. The decoding is a function of the units alone.
pub uninterp spec fn lossy_utf16(units: Seq<u16>) -> Seq<u8>;

/// Relies on `String::from_utf8_lossy`: decodes `bytes` as UTF-8,
/// substituting the replacement character for invalid sequences. The result
/// depends on the bytes alone; an empty input decodes to an empty string.
#[verifier::external_body]
pub(crate) fn utf8_lossy(bytes: &Vec<u8>) -> (r: Vec<u8>)
    ensures
        r@ == lossy_utf8(bytes@),
        bytes@.len() == 0 ==> r@.len() == 0,
{
    String::from_utf8_lossy(bytes.as_slice()).into_owned().into_bytes()
}

/// Relies on `String::from_utf16_lossy`: decodes `units` as UTF-16,
/// substituting the replacement character for unpaired surrogates. The
/// result depends on the units alone; an empty input decodes to an empty
/// string.
#[verifier::external_body]
pub(crate) fn utf16_lossy(units: &Vec<u16>) -> (r: Vec<u8>)
    ensures
        r@ == lossy_utf16(units@),
        units@.len() == 0 ==> r@.len() == 0,
{
    String::from_utf16_lossy(units.as_slice()).into_bytes()
}

/// The opaque-handle form of `s`: every byte as two lowercase hex digits,
/// last byte first, so the blob reads as one big-endian hex literal.
pub open spec fn hex_rev(s: Seq<u8>) -> Seq<u8>
    decreases s.len(),
{
    if s.len() == 0 {
        Seq::empty()
    } else {
        hex_rev(s.subrange(1, s.len() as int)) + hex_byte(s[0])
    }
}

/// The braced, dashed GUID form of 16 bytes: the first four bytes reversed,
/// the next two pairs reversed, the remaining eight in order, lowercase.
pub open spec fn guid_text(b: Seq<u8>) -> Seq<u8> {
    seq![123u8] + hex_byte(b[3]) + hex_byte(b[2]) + hex_byte(b[1]) + hex_byte(b[0]) + seq![45u8]
        + hex_byte(b[5]) + hex_byte(b[4]) + seq![45u8] + hex_byte(b[7]) + hex_byte(b[6])
        + seq![45u8] + hex_byte(b[8]) + hex_byte(b[9]) + seq![45u8] + hex_byte(b[10])
        + hex_byte(b[11]) + hex_byte(b[12]) + hex_byte(b[13]) + hex_byte(b[14]) + hex_byte(b[15])
        + seq![125u8]
}

/// The text of an enum value: the name of the first variant from position
/// `i` whose numeric value matches `raw`, or the decimal of `raw` when no
/// variant matches.
pub open spec fn enum_text(variants: Seq<EnumVariant>, raw: u64, i: int) -> Seq<u8>
    decreases variants.len() - i,
{
    if i < 0 || i >= variants.len() {
        dec_of(raw as nat)
    } else if variants[i].value == raw {
        variants[i].name@
    } else {
        enum_text(variants, raw, i + 1)
    }
}

/// What `v` renders to.
pub open spec fn spec_render(v: Value) -> Seq<u8>
    decreases v, 0int,
{
    match v {
        Value::Unsigned(n) => dec_of(n as nat),
        Value::Signed(n) => dec_of_int(n as int),
        Value::Address(a) => addr_of(a),
        Value::Pointer(p) => match p {
            Option::Some(b) => spec_render(*b),
            Option::None => tok_null(),
        },
        Value::Chars(c) => match c {
            Option::Some(bytes) => seq![34u8] + lossy_utf8(bytes@) + seq![34u8],
            Option::None => tok_null(),
        },
        Value::Wide(w) => match w {
            Option::Some(units) => seq![34u8] + lossy_utf16(units@) + seq![34u8],
            Option::None => tok_null(),
        },
        Value::Handle(bytes) => seq![48u8, 120u8] + hex_rev(bytes@),
        Value::Guid(b) => guid_text(b@),
        Value::Luid(lo, hi) => seq![123u8] + hex8_upper(lo) + seq![45u8] + hex8_upper(hi)
            + seq![125u8],
        Value::Array(es) => seq![91u8] + spec_render_elems(es@, 0) + seq![93u8],
        Value::Enum(e) => enum_text(e.variants@, e.raw, 0),
        Value::Struct(fs) => tok_open() + spec_render_fields(fs@, 0, true) + tok_close(),
        Value::Union(u) => tok_open() + u.tag_name@ + tok_colon()
            + enum_text(u.tag.variants@, u.tag.raw, 0) + match u.selected {
            Option::Some(fs) => spec_render_fields(fs@, 0, false)
                + spec_render_fields(u.common@, 0, false) + tok_close(),
            Option::None => spec_render_fields(u.common@, 0, false) + tok_ellipsis_close(),
        },
        Value::Verbatim(b) => b@,
        Value::Unsupported => Seq::empty(),
    }
}

/// What the elements of `es` from position `i` render to: `, `-separated,
/// with no separator before element 0.
pub open spec fn spec_render_elems(es: Seq<Value>, i: int) -> Seq<u8>
    decreases es, es.len() - i,
{
    if i < 0 || i >= es.len() {
        Seq::empty()
    } else {
        (if i == 0 {
            Seq::<u8>::empty()
        } else {
            tok_sep()
        }) + spec_render(es[i]) + spec_render_elems(es, i + 1)
    }
}

/// What the fields of `fs` from position `i` render to: each non-reserved
/// field as `name: value`, `, `-separated; `first` says whether no field
/// has been rendered yet, so the next one takes no separator. Reserved
/// fields are skipped.
pub open spec fn spec_render_fields(fs: Seq<Field>, i: int, first: bool) -> Seq<u8>
    decreases fs, fs.len() - i,
{
    if i < 0 || i >= fs.len() {
        Seq::empty()
    } else if fs[i].reserved {
        spec_render_fields(fs, i + 1, first)
    } else {
        (if first {
            Seq::<u8>::empty()
        } else {
            tok_sep()
        }) + fs[i].name@ + tok_colon() + spec_render(fs[i].value) + spec_render_fields(
            fs,
            i + 1,
            false,
        )
    }
}

/// Appends the bytes of `s` to `out`.
pub fn push_bytes(out: &mut Vec<u8>, s: &Vec<u8>)
    ensures
        final(out)@ == old(out)@ + s@,
{
    let mut i: usize = 0;
    while i < s.len()
        invariant
            i <= s@.len(),
            out@ == old(out)@ + s@.subrange(0, i as int),
        decreases s@.len() - i,
    {
        out.push(s[i]);
        i = i + 1;
        assert(out@ =~= old(out)@ + s@.subrange(0, i as int));
    }
    assert(out@ =~= old(out)@ + s@);
}

/// Appends the token `NULL`.
pub fn push_null(out: &mut Vec<u8>)
    ensures
        final(out)@ == old(out)@ + tok_null(),
{
    out.push(78u8);
    out.push(85u8);
    out.push(76u8);
    out.push(76u8);
    assert(out@ =~= old(out)@ + tok_null());
}

/// Appends `{ `.
pub fn push_open(out: &mut Vec<u8>)
    ensures
        final(out)@ == old(out)@ + tok_open(),
{
    out.push(123u8);
    out.push(32u8);
    assert(out@ =~= old(out)@ + tok_open());
}

/// Appends ` }`.
pub fn push_close(out: &mut Vec<u8>)
    ensures
        final(out)@ == old(out)@ + tok_close(),
{
    out.push(32u8);
    out.push(125u8);
    assert(out@ =~= old(out)@ + tok_close());
}

/// Appends `, ... }`.
pub fn push_ellipsis_close(out: &mut Vec<u8>)
    ensures
        final(out)@ == old(out)@ + tok_ellipsis_close(),
{
    out.push(44u8);
    out.push(32u8);
    out.push(46u8);
    out.push(46u8);
    out.push(46u8);
    out.push(32u8);
    out.push(125u8);
    assert(out@ =~= old(out)@ + tok_ellipsis_close());
}

/// Appends `, `.
pub fn push_sep(out: &mut Vec<u8>)
    ensures
        final(out)@ == old(out)@ + tok_sep(),
{
    out.push(44u8);
    out.push(32u8);
    assert(out@ =~= old(out)@ + tok_sep());
}

/// Appends `: `.
pub fn push_colon(out: &mut Vec<u8>)
    ensures
        final(out)@ == old(out)@ + tok_colon(),
{
    out.push(58u8);
    out.push(32u8);
    assert(out@ =~= old(out)@ + tok_colon());
}

/// Appends the symbolic name of `e.raw` when its variant table knows it,
/// and the raw number otherwise.
pub fn render_enum(e: &EnumValue, out: &mut Vec<u8>)
    ensures
        final(out)@ == old(out)@ + enum_text(e.variants@, e.raw, 0),
{
    let mut i: usize = 0;
    while i < e.variants.len()
        invariant
            i <= e.variants@.len(),
            enum_text(e.variants@, e.raw, 0) == enum_text(e.variants@, e.raw, i as int),
            out@ == old(out)@,
        decreases e.variants@.len() - i,
    {
        if e.variants[i].value == e.raw {
            push_bytes(out, &e.variants[i].name);
            return ;
        }
        i = i + 1;
    }
    push_dec_u64(out, e.raw);
}

/// Appends the opaque-handle rendering of `bytes`: `0x` followed by the
/// bytes in reverse order, two lowercase hex digits each.
pub fn write_handle(out: &mut Vec<u8>, bytes: &Vec<u8>)
    ensures
        final(out)@ == old(out)@ + seq![48u8, 120u8] + hex_rev(bytes@),
{
    out.push(48u8);
    out.push(120u8);
    proof {
        assert(out@ =~= old(out)@ + seq![48u8, 120u8] + hex_rev(
            bytes@.subrange(bytes@.len() as int, bytes@.len() as int),
        ));
    }
    let mut i: usize = bytes.len();
    while i > 0
        invariant
            i <= bytes@.len(),
            out@ == old(out)@ + seq![48u8, 120u8] + hex_rev(
                bytes@.subrange(i as int, bytes@.len() as int),
            ),
        decreases i,
    {
        i = i - 1;
        push_hex_byte(out, bytes[i]);
        proof {
            let tail = bytes@.subrange(i as int, bytes@.len() as int);
            assert(tail.subrange(1, tail.len() as int) =~= bytes@.subrange(
                i + 1,
                bytes@.len() as int,
            ));
            assert(out@ =~= old(out)@ + seq![48u8, 120u8] + hex_rev(tail));
        }
    }
    assert(bytes@.subrange(0, bytes@.len() as int) =~= bytes@);
}

/// Appends the GUID rendering of the 16 bytes of `b`.
#[verifier::rlimit(60)]
pub fn render_guid(out: &mut Vec<u8>, b: &Vec<u8>)
    requires
        b@.len() == 16,
    ensures
        final(out)@ == old(out)@ + guid_text(b@),
{
    out.push(123u8);
    push_hex_byte(out, b[3]);
    push_hex_byte(out, b[2]);
    push_hex_byte(out, b[1]);
    push_hex_byte(out, b[0]);
    out.push(45u8);
    push_hex_byte(out, b[5]);
    push_hex_byte(out, b[4]);
    out.push(45u8);
    push_hex_byte(out, b[7]);
    push_hex_byte(out, b[6]);
    out.push(45u8);
    push_hex_byte(out, b[8]);
    push_hex_byte(out, b[9]);
    out.push(45u8);
    push_hex_byte(out, b[10]);
    push_hex_byte(out, b[11]);
    push_hex_byte(out, b[12]);
    push_hex_byte(out, b[13]);
    push_hex_byte(out, b[14]);
    push_hex_byte(out, b[15]);
    out.push(125u8);
    assert(out@ =~= old(out)@ + guid_text(b@));
}

/// Appends the rendering of `v` to `out`: exactly [`spec_render`]`(v)`.
pub fn render_value(v: &Value, out: &mut Vec<u8>)
    requires
        renderable(*v),
    ensures
        final(out)@ == old(out)@ + spec_render(*v),
    decreases *v, 0int,
{
    match v {
        Value::Unsigned(n) => push_dec_u64(out, *n),
        Value::Signed(n) => push_dec_i64(out, *n),
        Value::Address(a) => push_addr(out, *a),
        Value::Pointer(p) => match p {
            Option::Some(b) => render_value(&**b, out),
            Option::None => push_null(out),
        },
        Value::Chars(c) => match c {
            Option::Some(bytes) => {
                out.push(34u8);
                let decoded = utf8_lossy(bytes);
                push_bytes(out, &decoded);
                out.push(34u8);
                assert(out@ =~= old(out)@ + spec_render(*v));
            },
            Option::None => push_null(out),
        },
        Value::Wide(w) => match w {
            Option::Some(units) => {
                out.push(34u8);
                let decoded = utf16_lossy(units);
                push_bytes(out, &decoded);
                out.push(34u8);
                assert(out@ =~= old(out)@ + spec_render(*v));
            },
            Option::None => push_null(out),
        },
        Value::Handle(bytes) => {
            write_handle(out, bytes);
            assert(out@ =~= old(out)@ + spec_render(*v));
        },
        Value::Guid(b) => render_guid(out, b),
        Value::Luid(lo, hi) => {
            out.push(123u8);
            push_hex8_upper(out, *lo);
            out.push(45u8);
            push_hex8_upper(out, *hi);
            out.push(125u8);
            assert(out@ =~= old(out)@ + spec_render(*v));
        },
        Value::Array(es) => {
            out.push(91u8);
            render_elems(es, out);
            out.push(93u8);
            assert(out@ =~= old(out)@ + spec_render(*v));
        },
        Value::Enum(e) => render_enum(e, out),
        Value::Struct(fs) => {
            push_open(out);
            render_fields(fs, true, out);
            push_close(out);
            assert(out@ =~= old(out)@ + spec_render(*v));
        },
        Value::Union(u) => {
            push_open(out);
            push_bytes(out, &u.tag_name);
            push_colon(out);
            render_enum(&u.tag, out);
            match &u.selected {
                Option::Some(fs) => {
                    render_fields(fs, false, out);
                    render_fields(&u.common, false, out);
                    push_close(out);
                },
                Option::None => {
                    render_fields(&u.common, false, out);
                    push_ellipsis_close(out);
                },
            }
            assert(out@ =~= old(out)@ + spec_render(*v));
        },
        Value::Verbatim(b) => push_bytes(out, b),
        Value::Unsupported => {
            assert(false);
        },
    }
}

/// Appends the `, `-separated renderings of all elements of `es`.
pub fn render_elems(es: &Vec<Value>, out: &mut Vec<u8>)
    requires
        renderable_elems(es@, 0),
    ensures
        final(out)@ == old(out)@ + spec_render_elems(es@, 0),
    decreases es@, es@.len(),
{
    let mut i: usize = 0;
    while i < es.len()
        invariant
            i <= es@.len(),
            renderable_elems(es@, i as int),
            out@ + spec_render_elems(es@, i as int) == old(out)@ + spec_render_elems(es@, 0),
        decreases es@.len() - i,
    {
        let ghost pre = out@;
        if i != 0 {
            push_sep(out);
        }
        render_value(&es[i], out);
        proof {
            if i == 0 {
                assert(out@ =~= pre + (Seq::<u8>::empty() + spec_render(es@[i as int])));
            } else {
                assert(out@ =~= pre + (tok_sep() + spec_render(es@[i as int])));
            }
            assert(out@ + spec_render_elems(es@, i + 1) =~= pre + spec_render_elems(
                es@,
                i as int,
            ));
        }
        i = i + 1;
    }
}

/// Appends the renderings of all non-reserved fields of `fs`, each as
/// `name: value`, `, `-separated; `first` says whether the enclosing
/// rendering has emitted a field yet.
pub fn render_fields(fs: &Vec<Field>, first: bool, out: &mut Vec<u8>)
    requires
        renderable_fields(fs@, 0),
    ensures
        final(out)@ == old(out)@ + spec_render_fields(fs@, 0, first),
    decreases fs@, fs@.len(),
{
    let mut i: usize = 0;
    let mut fst: bool = first;
    while i < fs.len()
        invariant
            i <= fs@.len(),
            renderable_fields(fs@, i as int),
            out@ + spec_render_fields(fs@, i as int, fst) == old(out)@ + spec_render_fields(
                fs@,
                0,
                first,
            ),
        decreases fs@.len() - i,
    {
        let ghost pre = out@;
        if !fs[i].reserved {
            if !fst {
                push_sep(out);
            }
            push_bytes(out, &fs[i].name);
            push_colon(out);
            render_value(&fs[i].value, out);
            proof {
                if fst {
                    assert(out@ =~= pre + (Seq::<u8>::empty() + fs@[i as int].name@ + tok_colon()
                        + spec_render(fs@[i as int].value)));
                } else {
                    assert(out@ =~= pre + (tok_sep() + fs@[i as int].name@ + tok_colon()
                        + spec_render(fs@[i as int].value)));
                }
                assert(out@ + spec_render_fields(fs@, i + 1, false) =~= pre + spec_render_fields(
                    fs@,
                    i as int,
                    fst,
                ));
            }
            fst = false;
        }
        i = i + 1;
    }
}

} // verus!
