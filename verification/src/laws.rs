//! Properties of the renderer and formatter, stated and proved once for
//! all values.

use vstd::prelude::*;

use crate::format::{counted_len, counted_text};
use crate::render::{
    enum_text, guid_text, hex_rev, spec_render, spec_render_elems, spec_render_fields, tok_close,
    tok_colon, tok_ellipsis_close, tok_null, tok_open, tok_sep,
};
use crate::text::hex_byte;
use crate::value::{UnionValue, Value};

verus! {

/// Dereferencing is transparent in a trace: a non-null pointer renders
/// exactly as its pointee does, and a null pointer of any pointee type
/// renders as exactly the token `NULL`.
pub proof fn lemma_pointer_transparent(b: Box<Value>)
    ensures
        spec_render(Value::Pointer(Option::Some(b))) == spec_render(*b),
        spec_render(Value::Pointer(Option::None)) == tok_null(),
{
}

/// An opaque handle's hex form is twice as long as the handle.
pub proof fn lemma_hex_rev_len(s: Seq<u8>)
    ensures
        hex_rev(s).len() == 2 * s.len(),
    decreases s.len(),
{
    if s.len() > 0 {
        lemma_hex_rev_len(s.subrange(1, s.len() as int));
    }
}

/// The handle's bytes appear in reverse order: the pair of digits at
/// position `i` of the hex form belongs to the byte at position
/// `len - 1 - i` of the handle.
pub proof fn lemma_hex_rev_index(s: Seq<u8>, i: int)
    requires
        0 <= i < s.len(),
    ensures
        hex_rev(s).subrange(2 * i, 2 * i + 2) == hex_byte(s[s.len() - 1 - i]),
    decreases s.len(),
{
    let rest = s.subrange(1, s.len() as int);
    lemma_hex_rev_len(rest);
    if i < s.len() - 1 {
        lemma_hex_rev_index(rest, i);
        assert(hex_rev(s).subrange(2 * i, 2 * i + 2) =~= hex_rev(rest).subrange(2 * i, 2 * i + 2));
        assert(rest[s.len() - 2 - i] == s[s.len() - 1 - i]);
    } else {
        assert(hex_rev(s).subrange(2 * i, 2 * i + 2) =~= hex_byte(s[0]));
    }
}

/// Whether a byte is a lowercase hexadecimal digit character.
pub open spec fn is_hex_char(b: u8) -> bool {
    (48 <= b <= 57) || (97 <= b <= 102)
}

/// Every byte of a handle's hex form is a hexadecimal digit character.
pub proof fn lemma_hex_rev_chars(s: Seq<u8>)
    ensures
        forall|j: int| 0 <= j < hex_rev(s).len() ==> is_hex_char(#[trigger] hex_rev(s)[j]),
    decreases s.len(),
{
    if s.len() > 0 {
        let rest = s.subrange(1, s.len() as int);
        lemma_hex_rev_chars(rest);
        lemma_hex_rev_len(rest);
        assert forall|j: int| 0 <= j < hex_rev(s).len() implies is_hex_char(
            #[trigger] hex_rev(s)[j],
        ) by {
            if j < hex_rev(rest).len() {
                assert(hex_rev(s)[j] == hex_rev(rest)[j]);
            } else {
                assert(hex_rev(s)[j] == hex_byte(s[0])[j - hex_rev(rest).len()]);
            }
        }
    }
}

/// A fixed-length array declared as an opaque handle of 64 bytes renders
/// as `0x` followed by exactly 128 hexadecimal characters, the bytes in
/// reverse order: the last byte supplies the first pair of digits.
pub proof fn lemma_handle_rendering(bytes: Vec<u8>)
    requires
        bytes@.len() == 64,
    ensures
        spec_render(Value::Handle(bytes)).len() == 130,
        spec_render(Value::Handle(bytes)).subrange(0, 2) == seq![48u8, 120u8],
        spec_render(Value::Handle(bytes)).subrange(2, 130) == hex_rev(bytes@),
        forall|j: int|
            2 <= j < 130 ==> is_hex_char(#[trigger] spec_render(Value::Handle(bytes))[j]),
        forall|i: int|
            0 <= i < 64 ==> #[trigger] spec_render(Value::Handle(bytes)).subrange(
                2 + 2 * i,
                4 + 2 * i,
            ) == hex_byte(bytes@[63 - i]),
{
    let s = spec_render(Value::Handle(bytes));
    lemma_hex_rev_len(bytes@);
    lemma_hex_rev_chars(bytes@);
    assert(s.subrange(0, 2) =~= seq![48u8, 120u8]);
    assert(s.subrange(2, 130) =~= hex_rev(bytes@));
    assert forall|i: int| 0 <= i < 64 implies #[trigger] s.subrange(2 + 2 * i, 4 + 2 * i)
        == hex_byte(bytes@[63 - i]) by {
        lemma_hex_rev_index(bytes@, i);
        assert(s.subrange(2 + 2 * i, 4 + 2 * i) =~= hex_rev(bytes@).subrange(2 * i, 2 * i + 2));
    }
}

/// Rendering is idempotent: rendering one value twice yields byte-identical
/// output, because what a render appends is exactly `spec_render` of the
/// value and depends on nothing else in the process.
pub proof fn lemma_render_idempotent(v: Value, first_run: Seq<u8>, second_run: Seq<u8>)
    requires
        first_run == spec_render(v),
        second_run == spec_render(v),
    ensures
        first_run == second_run,
{
}

/// The count-driven array override never produces a misleading one-element
/// bracket list: a count of zero or one renders the single referenced
/// element with no surrounding brackets, and a count of two renders exactly
/// the bracketed pair.
pub proof fn lemma_counted_array_shape(count: u64, es: Seq<Value>)
    requires
        es.len() == counted_len(count),
    ensures
        count < 2 ==> counted_text(count, es) == spec_render(es[0]),
        count == 2 ==> counted_text(count, es) == seq![91u8] + spec_render(es[0]) + tok_sep()
            + spec_render(es[1]) + seq![93u8],
{
    if count == 2 {
        assert(spec_render_elems(es, 2) =~= Seq::<u8>::empty());
        assert(spec_render_elems(es, 1) =~= tok_sep() + spec_render(es[1]));
        assert(spec_render_elems(es, 0) =~= spec_render(es[0]) + (tok_sep() + spec_render(
            es[1],
        )));
        assert(counted_text(count, es) =~= seq![91u8] + spec_render(es[0]) + tok_sep()
            + spec_render(es[1]) + seq![93u8]);
    }
}

/// Tag-directed union dispatch: a registered tag renders the tag field for
/// context and then exactly the selected member's fields; an unregistered
/// tag omits all variant-specific fields and the rendering ends in the
/// literal ellipsis marker, the explicit signal of incompleteness.
pub proof fn lemma_union_dispatch(u: UnionValue)
    ensures
        u.selected matches Some(fs) ==> spec_render(Value::Union(u)) == tok_open() + u.tag_name@
            + tok_colon() + enum_text(u.tag.variants@, u.tag.raw, 0) + spec_render_fields(
            fs@,
            0,
            false,
        ) + spec_render_fields(u.common@, 0, false) + tok_close(),
        u.selected is None ==> spec_render(Value::Union(u)) == tok_open() + u.tag_name@
            + tok_colon() + enum_text(u.tag.variants@, u.tag.raw, 0) + spec_render_fields(
            u.common@,
            0,
            false,
        ) + tok_ellipsis_close(),
        u.selected is None ==> spec_render(Value::Union(u)).len() >= 7 && spec_render(
            Value::Union(u),
        ).subrange(
            spec_render(Value::Union(u)).len() - 7,
            spec_render(Value::Union(u)).len() as int,
        ) == tok_ellipsis_close(),
{
    let s = spec_render(Value::Union(u));
    match u.selected {
        Option::Some(fs) => {
            assert(s =~= tok_open() + u.tag_name@ + tok_colon() + enum_text(
                u.tag.variants@,
                u.tag.raw,
                0,
            ) + spec_render_fields(fs@, 0, false) + spec_render_fields(u.common@, 0, false)
                + tok_close());
        },
        Option::None => {
            assert(s =~= tok_open() + u.tag_name@ + tok_colon() + enum_text(
                u.tag.variants@,
                u.tag.raw,
                0,
            ) + spec_render_fields(u.common@, 0, false) + tok_ellipsis_close());
            assert(s.subrange(s.len() - 7, s.len() as int) =~= tok_ellipsis_close());
        },
    }
}

/// A GUID renders in the braced, dashed form, 38 bytes in all: 32 digit
/// characters in five groups, the first four bytes reversed, the next two
/// pairs reversed, the remaining eight in order.
pub proof fn lemma_guid_rendering(b: Vec<u8>)
    requires
        b@.len() == 16,
    ensures
        spec_render(Value::Guid(b)) == guid_text(b@),
        spec_render(Value::Guid(b)).len() == 38,
        spec_render(Value::Guid(b))[0] == 123u8,
        spec_render(Value::Guid(b))[37] == 125u8,
        spec_render(Value::Guid(b)).subrange(1, 3) == hex_byte(b@[3]),
        spec_render(Value::Guid(b)).subrange(9, 10) == seq![45u8],
{
    let s = spec_render(Value::Guid(b));
    assert(s.subrange(1, 3) =~= hex_byte(b@[3]));
    assert(s.subrange(9, 10) =~= seq![45u8]);
}

} // verus!
