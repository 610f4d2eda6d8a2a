//! The data model of a rendered argument.
//!
//! The driver API hands arguments over as raw C memory. An unverified
//! decoder reads that memory against the type catalog and produces a
//! [`Value`], which carries both the data and the part of the type
//! description that rendering needs: field names, reserved markers, enum
//! variant tables, and the member selected for a tagged union. Everything
//! below is plain data, so the renderer over it is verified for every
//! possible decoded argument.

use vstd::prelude::*;

verus! {

/// One named variant of a driver enum type: its symbolic name and its
/// numeric value.
pub struct EnumVariant {
    pub name: Vec<u8>,
    pub value: u64,
}

/// An enum-typed value: the raw number read from memory together with the
/// variant table of its type. It renders as the symbolic name when the raw
/// value matches a variant, and as the raw number otherwise.
pub struct EnumValue {
    pub variants: Vec<EnumVariant>,
    pub raw: u64,
}

/// One struct field: its declaration name, whether the catalog marks it
/// reserved (reserved fields are skipped when rendering), and its value.
pub struct Field {
    pub name: Vec<u8>,
    pub reserved: bool,
    pub value: Value,
}

/// A tagged union together with its already-decoded dispatch result.
///
/// The decoder reads the designated sibling tag field first and looks the
/// tag up in the union's variant registry. When the tag is registered,
/// `selected` holds the active member's fields; when it is not, `selected`
/// is `None` and rendering falls back to a partial form: the tag, the
/// fields common to all variants, and an ellipsis marker that signals the
/// rendering is incomplete.
pub struct UnionValue {
    pub tag_name: Vec<u8>,
    pub tag: EnumValue,
    pub selected: Option<Vec<Field>>,
    pub common: Vec<Field>,
}

/// A decoded argument value, shaped by its type descriptor.
pub enum Value {
    /// An unsigned scalar, rendered in decimal.
    Unsigned(u64),
    /// A signed scalar, rendered in decimal with a sign.
    Signed(i64),
    /// A pointer-sized value rendered as an address (`0x…`): opaque
    /// handles, device pointers, function pointers, and untyped pointers.
    Address(u64),
    /// A nullable pointer with a known pointee: `None` is a null pointer
    /// and renders as `NULL`; otherwise the pointee is rendered in place.
    Pointer(Option<Box<Value>>),
    /// A NUL-terminated byte string pointer: `None` is null and renders as
    /// `NULL`; otherwise the bytes render quoted, decoded as UTF-8 with
    /// lossy substitution.
    Chars(Option<Vec<u8>>),
    /// A NUL-terminated wide (16-bit) string pointer, rendered quoted and
    /// decoded as UTF-16 with lossy substitution.
    Wide(Option<Vec<u16>>),
    /// A fixed-length array used as an opaque handle blob: renders as one
    /// big-endian hex literal, `0x` followed by the bytes in reverse order.
    Handle(Vec<u8>),
    /// A 16-byte GUID, rendered in the conventional braced, dashed form
    /// with the first three groups byte-swapped.
    Guid(Vec<u8>),
    /// A locally-unique-identifier pair of 32-bit words, rendered as
    /// `{XXXXXXXX-XXXXXXXX}` in uppercase hex. Only one designated
    /// function argument renders this way; elsewhere the same physical
    /// type is a plain string.
    Luid(u32, u32),
    /// A fixed array of values, rendered as a bracketed list.
    Array(Vec<Value>),
    /// An enum value with its variant table.
    Enum(EnumValue),
    /// A struct with its fields in declaration order.
    Struct(Vec<Field>),
    /// A tagged union (see [`UnionValue`]).
    Union(UnionValue),
    /// Text rendered outside the verified core and passed through verbatim;
    /// used for scalar kinds the core does not format itself, such as
    /// floating-point numbers.
    Verbatim(Vec<u8>),
    /// A value of a shape the catalog declares unsupported for this
    /// catalog version. Formatting it raises the distinguished
    /// not-implemented error instead of guessing.
    Unsupported,
}

/// Whether `v` can be rendered: it holds no unsupported shape in any
/// position that rendering visits, and every GUID carries exactly its 16
/// bytes. Reserved struct fields are skipped by the renderer and are not
/// constrained.
pub open spec fn renderable(v: Value) -> bool
    decreases v, 0int,
{
    match v {
        Value::Unsigned(_) => true,
        Value::Signed(_) => true,
        Value::Address(_) => true,
        Value::Pointer(p) => match p {
            Option::Some(b) => renderable(*b),
            Option::None => true,
        },
        Value::Chars(_) => true,
        Value::Wide(_) => true,
        Value::Handle(_) => true,
        Value::Guid(b) => b@.len() == 16,
        Value::Luid(_, _) => true,
        Value::Array(es) => renderable_elems(es@, 0),
        Value::Enum(_) => true,
        Value::Struct(fs) => renderable_fields(fs@, 0),
        Value::Union(u) => {
            &&& match u.selected {
                Option::Some(fs) => renderable_fields(fs@, 0),
                Option::None => true,
            }
            &&& renderable_fields(u.common@, 0)
        },
        Value::Verbatim(_) => true,
        Value::Unsupported => false,
    }
}

/// Whether every element of `es` from position `i` on is renderable.
pub open spec fn renderable_elems(es: Seq<Value>, i: int) -> bool
    decreases es, es.len() - i,
{
    if i < 0 || i >= es.len() {
        true
    } else {
        renderable(es[i]) && renderable_elems(es, i + 1)
    }
}

/// Whether every non-reserved field of `fs` from position `i` on has a
/// renderable value.
pub open spec fn renderable_fields(fs: Seq<Field>, i: int) -> bool
    decreases fs, fs.len() - i,
{
    if i < 0 || i >= fs.len() {
        true
    } else {
        (fs[i].reserved || renderable(fs[i].value)) && renderable_fields(fs, i + 1)
    }
}

/// Decides [`renderable`] at run time, so a caller can refuse an
/// unsupported argument up front instead of failing mid-render.
pub fn is_renderable(v: &Value) -> (r: bool)
    ensures
        r == renderable(*v),
    decreases *v, 0int,
{
    match v {
        Value::Unsigned(_) => true,
        Value::Signed(_) => true,
        Value::Address(_) => true,
        Value::Pointer(p) => match p {
            Option::Some(b) => is_renderable(b),
            Option::None => true,
        },
        Value::Chars(_) => true,
        Value::Wide(_) => true,
        Value::Handle(_) => true,
        Value::Guid(b) => b.len() == 16,
        Value::Luid(_, _) => true,
        Value::Array(es) => is_renderable_elems(es),
        Value::Enum(_) => true,
        Value::Struct(fs) => is_renderable_fields(fs),
        Value::Union(u) => {
            let sel_ok = match &u.selected {
                Option::Some(fs) => is_renderable_fields(fs),
                Option::None => true,
            };
            sel_ok && is_renderable_fields(&u.common)
        },
        Value::Verbatim(_) => true,
        Value::Unsupported => false,
    }
}

/// Decides [`renderable_elems`] at run time.
pub fn is_renderable_elems(es: &Vec<Value>) -> (r: bool)
    ensures
        r == renderable_elems(es@, 0),
    decreases es@, es@.len(),
{
    let mut i: usize = 0;
    let mut ok: bool = true;
    while i < es.len()
        invariant
            i <= es@.len(),
            ok ==> renderable_elems(es@, 0) == renderable_elems(es@, i as int),
            !ok ==> !renderable_elems(es@, 0),
        decreases es@.len() - i,
    {
        if !is_renderable(&es[i]) {
            proof {
                lemma_renderable_elems_stuck(es@, 0, i as int);
            }
            ok = false;
        }
        i = i + 1;
        proof {
            if ok {
                lemma_renderable_elems_step(es@, 0, (i - 1) as int);
            }
        }
    }
    ok
}

/// Decides [`renderable_fields`] at run time.
pub fn is_renderable_fields(fs: &Vec<Field>) -> (r: bool)
    ensures
        r == renderable_fields(fs@, 0),
    decreases fs@, fs@.len(),
{
    let mut i: usize = 0;
    let mut ok: bool = true;
    while i < fs.len()
        invariant
            i <= fs@.len(),
            ok ==> renderable_fields(fs@, 0) == renderable_fields(fs@, i as int),
            !ok ==> !renderable_fields(fs@, 0),
        decreases fs@.len() - i,
    {
        if !fs[i].reserved && !is_renderable(&fs[i].value) {
            proof {
                lemma_renderable_fields_stuck(fs@, 0, i as int);
            }
            ok = false;
        }
        i = i + 1;
    }
    ok
}

/// Elements already found renderable do not matter: the sequence is
/// renderable from `lo` exactly when it is from `hi`.
proof fn lemma_renderable_elems_step(es: Seq<Value>, lo: int, hi: int)
    requires
        0 <= lo <= hi < es.len(),
        renderable(es[hi]),
        renderable_elems(es, lo) == renderable_elems(es, hi),
    ensures
        renderable_elems(es, lo) == renderable_elems(es, hi + 1),
{
}

/// One non-renderable element refutes the whole sequence from any earlier
/// position.
proof fn lemma_renderable_elems_stuck(es: Seq<Value>, lo: int, bad: int)
    requires
        0 <= lo <= bad < es.len(),
        !renderable(es[bad]),
    ensures
        !renderable_elems(es, lo),
    decreases bad - lo,
{
    if lo < bad {
        lemma_renderable_elems_stuck(es, lo + 1, bad);
    }
}

/// One non-reserved field with a non-renderable value refutes the whole
/// field sequence from any earlier position.
proof fn lemma_renderable_fields_stuck(fs: Seq<Field>, lo: int, bad: int)
    requires
        0 <= lo <= bad < fs.len(),
        !fs[bad].reserved,
        !renderable(fs[bad].value),
    ensures
        !renderable_fields(fs, lo),
    decreases bad - lo,
{
    if lo < bad {
        lemma_renderable_fields_stuck(fs, lo + 1, bad);
    }
}

} // verus!
