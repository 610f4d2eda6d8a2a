//! Rendering of batch memory-operation parameters: a tagged union whose
//! active member is selected by the runtime value of its `operation` field.
//!
//! The wait-value and write-value operations are nominally distinct tags,
//! but their members are structurally identical, so both dispatch to one
//! shared routine, [`write_wait_value`]; whether the 32-bit or the 64-bit
//! value field is active is selected by a flag, not by the tag. An
//! unregistered operation renders the partial, ellipsis form.

use vstd::prelude::*;

use crate::catalog::{UnionLayout, VariantLayout};
use crate::render::{
    enum_text, push_close, push_colon, push_ellipsis_close, push_open, push_sep, render_enum,
    tok_close, tok_colon, tok_ellipsis_close, tok_open, tok_sep,
};
use crate::text::{addr_of, dec_of, push_addr, push_dec_u64};
use crate::value::EnumValue;

verus! {

/// The tag value of the 32-bit wait-value operation.
pub const MEM_OP_WAIT_VALUE_32: u64 = 1;

/// The tag value of the 32-bit write-value operation.
pub const MEM_OP_WRITE_VALUE_32: u64 = 2;

/// The tag value of the flush-remote-writes operation.
pub const MEM_OP_FLUSH_REMOTE_WRITES: u64 = 3;

/// The tag value of the 64-bit wait-value operation.
pub const MEM_OP_WAIT_VALUE_64: u64 = 4;

/// The tag value of the 64-bit write-value operation.
pub const MEM_OP_WRITE_VALUE_64: u64 = 5;

/// One decoded batch memory operation: every field any member of the union
/// can name, read against the member layouts. `flush_flags` is the flags
/// word at the flush member's offset, which differs from the wait-value
/// member's.
pub struct MemOpParams {
    pub operation: EnumValue,
    pub address: u64,
    pub value32: u32,
    pub value64: u64,
    pub flags: u32,
    pub alias: u64,
    pub flush_flags: u32,
}

/// The field name `operation`.
pub open spec fn nm_operation() -> Seq<u8> {
    seq![111u8, 112u8, 101u8, 114u8, 97u8, 116u8, 105u8, 111u8, 110u8]
}

/// Appends the field name `operation`.
fn push_nm_operation(out: &mut Vec<u8>)
    ensures
        final(out)@ == old(out)@ + nm_operation(),
{
    let mut t: Vec<u8> = vec![111u8, 112u8, 101u8, 114u8, 97u8, 116u8, 105u8, 111u8, 110u8];
    assert(t@ =~= nm_operation());
    out.append(&mut t);
}

/// The field name `address`.
pub open spec fn nm_address() -> Seq<u8> {
    seq![97u8, 100u8, 100u8, 114u8, 101u8, 115u8, 115u8]
}

/// Appends the field name `address`.
fn push_nm_address(out: &mut Vec<u8>)
    ensures
        final(out)@ == old(out)@ + nm_address(),
{
    let mut t: Vec<u8> = vec![97u8, 100u8, 100u8, 114u8, 101u8, 115u8, 115u8];
    assert(t@ =~= nm_address());
    out.append(&mut t);
}

/// The field name `value`.
pub open spec fn nm_value() -> Seq<u8> {
    seq![118u8, 97u8, 108u8, 117u8, 101u8]
}

/// Appends the field name `value`.
fn push_nm_value(out: &mut Vec<u8>)
    ensures
        final(out)@ == old(out)@ + nm_value(),
{
    let mut t: Vec<u8> = vec![118u8, 97u8, 108u8, 117u8, 101u8];
    assert(t@ =~= nm_value());
    out.append(&mut t);
}

/// The field name `value64`.
pub open spec fn nm_value64() -> Seq<u8> {
    seq![118u8, 97u8, 108u8, 117u8, 101u8, 54u8, 52u8]
}

/// Appends the field name `value64`.
fn push_nm_value64(out: &mut Vec<u8>)
    ensures
        final(out)@ == old(out)@ + nm_value64(),
{
    let mut t: Vec<u8> = vec![118u8, 97u8, 108u8, 117u8, 101u8, 54u8, 52u8];
    assert(t@ =~= nm_value64());
    out.append(&mut t);
}

/// The field name `flags`.
pub open spec fn nm_flags() -> Seq<u8> {
    seq![102u8, 108u8, 97u8, 103u8, 115u8]
}

/// Appends the field name `flags`.
fn push_nm_flags(out: &mut Vec<u8>)
    ensures
        final(out)@ == old(out)@ + nm_flags(),
{
    let mut t: Vec<u8> = vec![102u8, 108u8, 97u8, 103u8, 115u8];
    assert(t@ =~= nm_flags());
    out.append(&mut t);
}

/// The field name `alias`.
pub open spec fn nm_alias() -> Seq<u8> {
    seq![97u8, 108u8, 105u8, 97u8, 115u8]
}

/// Appends the field name `alias`.
fn push_nm_alias(out: &mut Vec<u8>)
    ensures
        final(out)@ == old(out)@ + nm_alias(),
{
    let mut t: Vec<u8> = vec![97u8, 108u8, 105u8, 97u8, 115u8];
    assert(t@ =~= nm_alias());
    out.append(&mut t);
}

/// The field name `stream`.
pub open spec fn nm_stream() -> Seq<u8> {
    seq![115u8, 116u8, 114u8, 101u8, 97u8, 109u8]
}

/// Appends the field name `stream`.
fn push_nm_stream(out: &mut Vec<u8>)
    ensures
        final(out)@ == old(out)@ + nm_stream(),
{
    let mut t: Vec<u8> = vec![115u8, 116u8, 114u8, 101u8, 97u8, 109u8];
    assert(t@ =~= nm_stream());
    out.append(&mut t);
}

/// The field name `count`.
pub open spec fn nm_count() -> Seq<u8> {
    seq![99u8, 111u8, 117u8, 110u8, 116u8]
}

/// Appends the field name `count`.
fn push_nm_count(out: &mut Vec<u8>)
    ensures
        final(out)@ == old(out)@ + nm_count(),
{
    let mut t: Vec<u8> = vec![99u8, 111u8, 117u8, 110u8, 116u8];
    assert(t@ =~= nm_count());
    out.append(&mut t);
}

/// The field name `paramArray`.
pub open spec fn nm_param_array() -> Seq<u8> {
    seq![112u8, 97u8, 114u8, 97u8, 109u8, 65u8, 114u8, 114u8, 97u8, 121u8]
}

/// Appends the field name `paramArray`.
fn push_nm_param_array(out: &mut Vec<u8>)
    ensures
        final(out)@ == old(out)@ + nm_param_array(),
{
    let mut t: Vec<u8> = vec![112u8, 97u8, 114u8, 97u8, 109u8, 65u8, 114u8, 114u8, 97u8, 121u8];
    assert(t@ =~= nm_param_array());
    out.append(&mut t);
}

/// The active value field of a wait/write operation: `value64` for the
/// 64-bit operations, `value` for the 32-bit ones.
pub open spec fn spec_value_32_or_64(value32: u32, value64: u64, is_64: bool) -> Seq<u8> {
    if is_64 {
        tok_sep() + nm_value64() + tok_colon() + dec_of(value64 as nat)
    } else {
        tok_sep() + nm_value() + tok_colon() + dec_of(value32 as nat)
    }
}

/// Appends the active value field of a wait/write operation, chosen by the
/// secondary width flag.
pub fn write_wait_value_32_or_64(out: &mut Vec<u8>, value32: u32, value64: u64, is_64: bool)
    ensures
        final(out)@ == old(out)@ + spec_value_32_or_64(value32, value64, is_64),
{
    push_sep(out);
    if is_64 {
        push_nm_value64(out);
        push_colon(out);
        push_dec_u64(out, value64);
    } else {
        push_nm_value(out);
        push_colon(out);
        push_dec_u64(out, value32 as u64);
    }
    assert(out@ =~= old(out)@ + spec_value_32_or_64(value32, value64, is_64));
}

/// What a wait/write-value member renders to.
pub open spec fn spec_wait_value(p: MemOpParams, is_64: bool) -> Seq<u8> {
    tok_open() + nm_operation() + tok_colon() + enum_text(p.operation.variants@, p.operation.raw, 0)
        + tok_sep() + nm_address() + tok_colon() + addr_of(p.address) + spec_value_32_or_64(
        p.value32,
        p.value64,
        is_64,
    ) + tok_sep() + nm_flags() + tok_colon() + dec_of(p.flags as nat) + tok_sep() + nm_alias()
        + tok_colon() + addr_of(p.alias) + tok_close()
}

/// Appends the rendering of a wait/write-value member: the operation tag
/// for context, then the member's fields.
pub fn write_wait_value(out: &mut Vec<u8>, p: &MemOpParams, is_64: bool)
    ensures
        final(out)@ == old(out)@ + spec_wait_value(*p, is_64),
{
    push_open(out);
    push_nm_operation(out);
    push_colon(out);
    render_enum(&p.operation, out);
    push_sep(out);
    push_nm_address(out);
    push_colon(out);
    push_addr(out, p.address);
    write_wait_value_32_or_64(out, p.value32, p.value64, is_64);
    push_sep(out);
    push_nm_flags(out);
    push_colon(out);
    push_dec_u64(out, p.flags as u64);
    push_sep(out);
    push_nm_alias(out);
    push_colon(out);
    push_addr(out, p.alias);
    push_close(out);
    assert(out@ =~= old(out)@ + spec_wait_value(*p, is_64));
}

/// What the flush-remote-writes member renders to.
pub open spec fn spec_flush(p: MemOpParams) -> Seq<u8> {
    tok_open() + nm_operation() + tok_colon() + enum_text(p.operation.variants@, p.operation.raw, 0)
        + tok_sep() + nm_flags() + tok_colon() + dec_of(p.flush_flags as nat) + tok_close()
}

/// What an operation with an unregistered tag renders to: the tag for
/// context and the ellipsis marker, nothing guessed.
pub open spec fn spec_memop_partial(p: MemOpParams) -> Seq<u8> {
    tok_open() + nm_operation() + tok_colon() + enum_text(p.operation.variants@, p.operation.raw, 0)
        + tok_ellipsis_close()
}

/// What one batch memory operation renders to, dispatched on its tag.
pub open spec fn spec_memop(p: MemOpParams) -> Seq<u8> {
    if p.operation.raw == MEM_OP_WAIT_VALUE_32 || p.operation.raw == MEM_OP_WRITE_VALUE_32 {
        spec_wait_value(p, false)
    } else if p.operation.raw == MEM_OP_WAIT_VALUE_64 || p.operation.raw == MEM_OP_WRITE_VALUE_64 {
        spec_wait_value(p, true)
    } else if p.operation.raw == MEM_OP_FLUSH_REMOTE_WRITES {
        spec_flush(p)
    } else {
        spec_memop_partial(p)
    }
}

/// The variant registry of the batch memory-operation union: the two
/// 32-bit tags share the first variant, the two 64-bit tags share the
/// second, and the flush tag selects the third.
pub fn memop_layout() -> (r: UnionLayout)
    ensures
        r.variants@.len() == 3,
        r.variants@[0].tags@ == seq![MEM_OP_WAIT_VALUE_32, MEM_OP_WRITE_VALUE_32],
        r.variants@[1].tags@ == seq![MEM_OP_WAIT_VALUE_64, MEM_OP_WRITE_VALUE_64],
        r.variants@[2].tags@ == seq![MEM_OP_FLUSH_REMOTE_WRITES],
{
    let v0 = VariantLayout { tags: vec![MEM_OP_WAIT_VALUE_32, MEM_OP_WRITE_VALUE_32] };
    let v1 = VariantLayout { tags: vec![MEM_OP_WAIT_VALUE_64, MEM_OP_WRITE_VALUE_64] };
    let v2 = VariantLayout { tags: vec![MEM_OP_FLUSH_REMOTE_WRITES] };
    let r = UnionLayout { variants: vec![v0, v1, v2] };
    proof {
        assert(r.variants@[0].tags@ =~= seq![MEM_OP_WAIT_VALUE_32, MEM_OP_WRITE_VALUE_32]);
        assert(r.variants@[1].tags@ =~= seq![MEM_OP_WAIT_VALUE_64, MEM_OP_WRITE_VALUE_64]);
        assert(r.variants@[2].tags@ =~= seq![MEM_OP_FLUSH_REMOTE_WRITES]);
    }
    r
}

/// Appends the rendering of one batch memory operation, dispatching on the
/// runtime value of its operation tag.
pub fn write_memop_params(out: &mut Vec<u8>, p: &MemOpParams)
    ensures
        final(out)@ == old(out)@ + spec_memop(*p),
{
    let raw: u64 = p.operation.raw;
    if raw == MEM_OP_WAIT_VALUE_32 || raw == MEM_OP_WRITE_VALUE_32 {
        write_wait_value(out, p, false);
    } else if raw == MEM_OP_WAIT_VALUE_64 || raw == MEM_OP_WRITE_VALUE_64 {
        write_wait_value(out, p, true);
    } else if raw == MEM_OP_FLUSH_REMOTE_WRITES {
        push_open(out);
        push_nm_operation(out);
        push_colon(out);
        render_enum(&p.operation, out);
        push_sep(out);
        push_nm_flags(out);
        push_colon(out);
        push_dec_u64(out, p.flush_flags as u64);
        push_close(out);
        assert(out@ =~= old(out)@ + spec_flush(*p));
    } else {
        push_open(out);
        push_nm_operation(out);
        push_colon(out);
        render_enum(&p.operation, out);
        push_ellipsis_close(out);
        assert(out@ =~= old(out)@ + spec_memop_partial(*p));
    }
}

/// What a list of batch memory operations renders to, `, `-separated.
pub open spec fn spec_memop_list(ps: Seq<MemOpParams>, i: int) -> Seq<u8>
    decreases ps.len() - i,
{
    if i < 0 || i >= ps.len() {
        Seq::empty()
    } else {
        (if i == 0 {
            Seq::<u8>::empty()
        } else {
            tok_sep()
        }) + spec_memop(ps[i]) + spec_memop_list(ps, i + 1)
    }
}

/// What a whole batch memory-operation call renders to.
pub open spec fn spec_batch_memop(stream: u64, count: u32, ps: Seq<MemOpParams>, flags: u32) -> Seq<
    u8,
> {
    seq![40u8] + nm_stream() + tok_colon() + addr_of(stream) + tok_sep() + nm_count() + tok_colon()
        + dec_of(count as nat) + tok_sep() + nm_param_array() + tok_colon() + seq![91u8]
        + spec_memop_list(ps, 0) + seq![93u8] + tok_sep() + nm_flags() + tok_colon() + dec_of(
        flags as nat,
    ) + seq![41u8]
}

/// Appends the full argument list of a batch memory-operation call: the
/// stream, the operation count, the bracketed operation list — one entry
/// per counted element — and the flags word.
#[allow(non_snake_case)]
pub fn write_cuStreamBatchMemOp(
    out: &mut Vec<u8>,
    stream: u64,
    count: u32,
    paramArray: &Vec<MemOpParams>,
    flags: u32,
)
    requires
        paramArray@.len() == count as int,
    ensures
        final(out)@ == old(out)@ + spec_batch_memop(stream, count, paramArray@, flags),
{
    out.push(40u8);
    push_nm_stream(out);
    push_colon(out);
    push_addr(out, stream);
    push_sep(out);
    push_nm_count(out);
    push_colon(out);
    push_dec_u64(out, count as u64);
    push_sep(out);
    push_nm_param_array(out);
    push_colon(out);
    out.push(91u8);
    let ghost mid = out@;
    let mut i: usize = 0;
    while i < paramArray.len()
        invariant
            i <= paramArray@.len(),
            out@ + spec_memop_list(paramArray@, i as int) == mid + spec_memop_list(paramArray@, 0),
        decreases paramArray@.len() - i,
    {
        let ghost pre = out@;
        if i != 0 {
            push_sep(out);
        }
        write_memop_params(out, &paramArray[i]);
        proof {
            if i == 0 {
                assert(out@ =~= pre + (Seq::<u8>::empty() + spec_memop(paramArray@[i as int])));
            } else {
                assert(out@ =~= pre + (tok_sep() + spec_memop(paramArray@[i as int])));
            }
            assert(out@ + spec_memop_list(paramArray@, i + 1) =~= pre + spec_memop_list(
                paramArray@,
                i as int,
            ));
        }
        i = i + 1;
    }
    out.push(93u8);
    push_sep(out);
    push_nm_flags(out);
    push_colon(out);
    push_dec_u64(out, flags as u64);
    out.push(41u8);
    assert(out@ =~= old(out)@ + spec_batch_memop(stream, count, paramArray@, flags));
}

} // verus!
