//! Per-entry-point argument writers with catalog-specific dispatch.
//!
//! A few entry points render one argument by the runtime value of another
//! — an attribute identifier selecting which union member of an output
//! value is meaningful — or carry count-driven option arrays. An attribute
//! the catalog does not register cuts the call short with the trailing
//! ellipsis form; shapes the catalog declares unsupported refuse with the
//! distinguished not-implemented error.

use vstd::prelude::*;

use crate::format::{counted_len, counted_text, write_array, FmtError};
use crate::render::{
    enum_text, lossy_utf16, push_colon, push_sep, render_enum, render_value, spec_render,
    tok_colon, tok_sep, utf16_lossy, push_bytes,
};
use crate::text::{addr_of, dec_of, push_addr, push_dec_u64};
use crate::value::{renderable, renderable_elems, EnumValue, Value};

verus! {

/// The attribute tag of the access-policy-window member.
pub const ATTR_ACCESS_POLICY_WINDOW: u64 = 1;

/// The attribute tag of the cooperative-launch member.
pub const ATTR_COOPERATIVE: u64 = 2;

/// The attribute tag of the synchronization-policy member.
pub const ATTR_SYNCHRONIZATION_POLICY: u64 = 3;

/// What ends a call rendering cut short by an unregistered attribute:
/// `, ...) `.
pub open spec fn tok_trailing_ellipsis() -> Seq<u8> {
    seq![44u8, 32u8, 46u8, 46u8, 46u8, 41u8, 32u8]
}

/// Appends `, ...) `.
fn push_trailing_ellipsis(out: &mut Vec<u8>)
    ensures
        final(out)@ == old(out)@ + tok_trailing_ellipsis(),
{
    let mut t: Vec<u8> = vec![44u8, 32u8, 46u8, 46u8, 46u8, 41u8, 32u8];
    assert(t@ =~= tok_trailing_ellipsis());
    out.append(&mut t);
}

/// The argument name `handle`.
pub open spec fn nm_handle() -> Seq<u8> {
    seq![104u8, 97u8, 110u8, 100u8, 108u8, 101u8]
}

/// Appends the argument name `handle`.
fn push_nm_handle(out: &mut Vec<u8>)
    ensures
        final(out)@ == old(out)@ + nm_handle(),
{
    let mut t: Vec<u8> = vec![104u8, 97u8, 110u8, 100u8, 108u8, 101u8];
    assert(t@ =~= nm_handle());
    out.append(&mut t);
}

/// The argument name `name`.
pub open spec fn nm_name() -> Seq<u8> {
    seq![110u8, 97u8, 109u8, 101u8]
}

/// Appends the argument name `name`.
fn push_nm_name(out: &mut Vec<u8>)
    ensures
        final(out)@ == old(out)@ + nm_name(),
{
    let mut t: Vec<u8> = vec![110u8, 97u8, 109u8, 101u8];
    assert(t@ =~= nm_name());
    out.append(&mut t);
}

/// The argument name `hNode`.
pub open spec fn nm_h_node() -> Seq<u8> {
    seq![104u8, 78u8, 111u8, 100u8, 101u8]
}

/// Appends the argument name `hNode`.
fn push_nm_h_node(out: &mut Vec<u8>)
    ensures
        final(out)@ == old(out)@ + nm_h_node(),
{
    let mut t: Vec<u8> = vec![104u8, 78u8, 111u8, 100u8, 101u8];
    assert(t@ =~= nm_h_node());
    out.append(&mut t);
}

/// The argument name `attr`.
pub open spec fn nm_attr() -> Seq<u8> {
    seq![97u8, 116u8, 116u8, 114u8]
}

/// Appends the argument name `attr`.
fn push_nm_attr(out: &mut Vec<u8>)
    ensures
        final(out)@ == old(out)@ + nm_attr(),
{
    let mut t: Vec<u8> = vec![97u8, 116u8, 116u8, 114u8];
    assert(t@ =~= nm_attr());
    out.append(&mut t);
}

/// The argument name `value_out`.
pub open spec fn nm_value_out() -> Seq<u8> {
    seq![118u8, 97u8, 108u8, 117u8, 101u8, 95u8, 111u8, 117u8, 116u8]
}

/// Appends the argument name `value_out`.
fn push_nm_value_out(out: &mut Vec<u8>)
    ensures
        final(out)@ == old(out)@ + nm_value_out(),
{
    let mut t: Vec<u8> = vec![118u8, 97u8, 108u8, 117u8, 101u8, 95u8, 111u8, 117u8, 116u8];
    assert(t@ =~= nm_value_out());
    out.append(&mut t);
}

/// The argument name `hStream`.
pub open spec fn nm_h_stream() -> Seq<u8> {
    seq![104u8, 83u8, 116u8, 114u8, 101u8, 97u8, 109u8]
}

/// Appends the argument name `hStream`.
fn push_nm_h_stream(out: &mut Vec<u8>)
    ensures
        final(out)@ == old(out)@ + nm_h_stream(),
{
    let mut t: Vec<u8> = vec![104u8, 83u8, 116u8, 114u8, 101u8, 97u8, 109u8];
    assert(t@ =~= nm_h_stream());
    out.append(&mut t);
}

/// The argument name `numOptions`.
pub open spec fn nm_num_options() -> Seq<u8> {
    seq![110u8, 117u8, 109u8, 79u8, 112u8, 116u8, 105u8, 111u8, 110u8, 115u8]
}

/// Appends the argument name `numOptions`.
fn push_nm_num_options(out: &mut Vec<u8>)
    ensures
        final(out)@ == old(out)@ + nm_num_options(),
{
    let mut t: Vec<u8> = vec![110u8, 117u8, 109u8, 79u8, 112u8, 116u8, 105u8, 111u8, 110u8, 115u8];
    assert(t@ =~= nm_num_options());
    out.append(&mut t);
}

/// The argument name `options`.
pub open spec fn nm_options() -> Seq<u8> {
    seq![111u8, 112u8, 116u8, 105u8, 111u8, 110u8, 115u8]
}

/// Appends the argument name `options`.
fn push_nm_options(out: &mut Vec<u8>)
    ensures
        final(out)@ == old(out)@ + nm_options(),
{
    let mut t: Vec<u8> = vec![111u8, 112u8, 116u8, 105u8, 111u8, 110u8, 115u8];
    assert(t@ =~= nm_options());
    out.append(&mut t);
}

/// The argument name `optionValues`.
pub open spec fn nm_option_values() -> Seq<u8> {
    seq![111u8, 112u8, 116u8, 105u8, 111u8, 110u8, 86u8, 97u8, 108u8, 117u8, 101u8, 115u8]
}

/// Appends the argument name `optionValues`.
fn push_nm_option_values(out: &mut Vec<u8>)
    ensures
        final(out)@ == old(out)@ + nm_option_values(),
{
    let mut t: Vec<u8> = vec![111u8, 112u8, 116u8, 105u8, 111u8, 110u8, 86u8, 97u8, 108u8, 117u8, 101u8, 115u8];
    assert(t@ =~= nm_option_values());
    out.append(&mut t);
}

/// The argument name `stateOut`.
pub open spec fn nm_state_out() -> Seq<u8> {
    seq![115u8, 116u8, 97u8, 116u8, 101u8, 79u8, 117u8, 116u8]
}

/// Appends the argument name `stateOut`.
fn push_nm_state_out(out: &mut Vec<u8>)
    ensures
        final(out)@ == old(out)@ + nm_state_out(),
{
    let mut t: Vec<u8> = vec![115u8, 116u8, 97u8, 116u8, 101u8, 79u8, 117u8, 116u8];
    assert(t@ =~= nm_state_out());
    out.append(&mut t);
}

/// The argument name `state`.
pub open spec fn nm_state() -> Seq<u8> {
    seq![115u8, 116u8, 97u8, 116u8, 101u8]
}

/// Appends the argument name `state`.
fn push_nm_state(out: &mut Vec<u8>)
    ensures
        final(out)@ == old(out)@ + nm_state(),
{
    let mut t: Vec<u8> = vec![115u8, 116u8, 97u8, 116u8, 101u8];
    assert(t@ =~= nm_state());
    out.append(&mut t);
}

/// The argument name `type`.
pub open spec fn nm_type() -> Seq<u8> {
    seq![116u8, 121u8, 112u8, 101u8]
}

/// Appends the argument name `type`.
fn push_nm_type(out: &mut Vec<u8>)
    ensures
        final(out)@ == old(out)@ + nm_type(),
{
    let mut t: Vec<u8> = vec![116u8, 121u8, 112u8, 101u8];
    assert(t@ =~= nm_type());
    out.append(&mut t);
}

/// The argument name `data`.
pub open spec fn nm_data() -> Seq<u8> {
    seq![100u8, 97u8, 116u8, 97u8]
}

/// Appends the argument name `data`.
fn push_nm_data(out: &mut Vec<u8>)
    ensures
        final(out)@ == old(out)@ + nm_data(),
{
    let mut t: Vec<u8> = vec![100u8, 97u8, 116u8, 97u8];
    assert(t@ =~= nm_data());
    out.append(&mut t);
}

/// The argument name `size`.
pub open spec fn nm_size() -> Seq<u8> {
    seq![115u8, 105u8, 122u8, 101u8]
}

/// Appends the argument name `size`.
fn push_nm_size(out: &mut Vec<u8>)
    ensures
        final(out)@ == old(out)@ + nm_size(),
{
    let mut t: Vec<u8> = vec![115u8, 105u8, 122u8, 101u8];
    assert(t@ =~= nm_size());
    out.append(&mut t);
}

/// The argument name `module`.
pub open spec fn nm_module() -> Seq<u8> {
    seq![109u8, 111u8, 100u8, 117u8, 108u8, 101u8]
}

/// Appends the argument name `module`.
fn push_nm_module(out: &mut Vec<u8>)
    ensures
        final(out)@ == old(out)@ + nm_module(),
{
    let mut t: Vec<u8> = vec![109u8, 111u8, 100u8, 117u8, 108u8, 101u8];
    assert(t@ =~= nm_module());
    out.append(&mut t);
}

/// The argument name `image`.
pub open spec fn nm_image() -> Seq<u8> {
    seq![105u8, 109u8, 97u8, 103u8, 101u8]
}

/// Appends the argument name `image`.
fn push_nm_image(out: &mut Vec<u8>)
    ensures
        final(out)@ == old(out)@ + nm_image(),
{
    let mut t: Vec<u8> = vec![105u8, 109u8, 97u8, 103u8, 101u8];
    assert(t@ =~= nm_image());
    out.append(&mut t);
}

/// Which attributes of a graph kernel node the catalog registers a member
/// rendering for.
pub open spec fn kernel_node_attr_known(raw: u64) -> bool {
    raw == ATTR_ACCESS_POLICY_WINDOW || raw == ATTR_COOPERATIVE
}

/// Which stream attributes the catalog registers a member rendering for.
pub open spec fn stream_attr_known(raw: u64) -> bool {
    raw == ATTR_ACCESS_POLICY_WINDOW || raw == ATTR_SYNCHRONIZATION_POLICY
}

/// What an attribute call renders to when the attribute is registered: the
/// handle, the attribute, and the selected member of the output value.
pub open spec fn spec_attr_call_known(first: Seq<u8>, h: u64, attr: EnumValue, v: Value) -> Seq<
    u8,
> {
    seq![40u8] + first + tok_colon() + addr_of(h) + tok_sep() + nm_attr() + tok_colon() + enum_text(
        attr.variants@,
        attr.raw,
        0,
    ) + tok_sep() + nm_value_out() + tok_colon() + spec_render(v) + seq![41u8]
}

/// What an attribute call renders to when the attribute is not registered:
/// the handle, the attribute, and the trailing ellipsis — no member is
/// guessed.
pub open spec fn spec_attr_call_unknown(first: Seq<u8>, h: u64, attr: EnumValue) -> Seq<u8> {
    seq![40u8] + first + tok_colon() + addr_of(h) + tok_sep() + nm_attr() + tok_colon() + enum_text(
        attr.variants@,
        attr.raw,
        0,
    ) + tok_trailing_ellipsis()
}

/// Appends the argument list of a graph-kernel-node attribute query: the
/// output value's member is selected by the attribute, so the caller
/// decodes it exactly when the attribute is registered.
#[allow(non_snake_case)]
pub fn write_cuGraphKernelNodeGetAttribute(
    out: &mut Vec<u8>,
    hNode: u64,
    attr: &EnumValue,
    value_out: Option<&Value>,
)
    requires
        value_out is Some <==> kernel_node_attr_known(attr.raw),
        value_out matches Some(v) ==> renderable(*v),
    ensures
        value_out matches Some(v) ==> final(out)@ == old(out)@ + spec_attr_call_known(
            nm_h_node(),
            hNode,
            *attr,
            *v,
        ),
        value_out is None ==> final(out)@ == old(out)@ + spec_attr_call_unknown(
            nm_h_node(),
            hNode,
            *attr,
        ),
{
    out.push(40u8);
    push_nm_h_node(out);
    push_colon(out);
    push_addr(out, hNode);
    push_sep(out);
    push_nm_attr(out);
    push_colon(out);
    render_enum(attr, out);
    match value_out {
        Option::Some(v) => {
            push_sep(out);
            push_nm_value_out(out);
            push_colon(out);
            render_value(v, out);
            out.push(41u8);
            assert(out@ =~= old(out)@ + spec_attr_call_known(nm_h_node(), hNode, *attr, *v));
        },
        Option::None => {
            push_trailing_ellipsis(out);
            assert(out@ =~= old(out)@ + spec_attr_call_unknown(nm_h_node(), hNode, *attr));
        },
    }
}

/// Appends the argument list of a graph-kernel-node attribute update; it
/// renders exactly as the query does.
#[allow(non_snake_case)]
pub fn write_cuGraphKernelNodeSetAttribute(
    out: &mut Vec<u8>,
    hNode: u64,
    attr: &EnumValue,
    value_out: Option<&Value>,
)
    requires
        value_out is Some <==> kernel_node_attr_known(attr.raw),
        value_out matches Some(v) ==> renderable(*v),
    ensures
        value_out matches Some(v) ==> final(out)@ == old(out)@ + spec_attr_call_known(
            nm_h_node(),
            hNode,
            *attr,
            *v,
        ),
        value_out is None ==> final(out)@ == old(out)@ + spec_attr_call_unknown(
            nm_h_node(),
            hNode,
            *attr,
        ),
{
    write_cuGraphKernelNodeGetAttribute(out, hNode, attr, value_out);
}

/// Appends the argument list of a stream attribute query.
#[allow(non_snake_case)]
pub fn write_cuStreamGetAttribute(
    out: &mut Vec<u8>,
    hStream: u64,
    attr: &EnumValue,
    value_out: Option<&Value>,
)
    requires
        value_out is Some <==> stream_attr_known(attr.raw),
        value_out matches Some(v) ==> renderable(*v),
    ensures
        value_out matches Some(v) ==> final(out)@ == old(out)@ + spec_attr_call_known(
            nm_h_stream(),
            hStream,
            *attr,
            *v,
        ),
        value_out is None ==> final(out)@ == old(out)@ + spec_attr_call_unknown(
            nm_h_stream(),
            hStream,
            *attr,
        ),
{
    out.push(40u8);
    push_nm_h_stream(out);
    push_colon(out);
    push_addr(out, hStream);
    push_sep(out);
    push_nm_attr(out);
    push_colon(out);
    render_enum(attr, out);
    match value_out {
        Option::Some(v) => {
            push_sep(out);
            push_nm_value_out(out);
            push_colon(out);
            render_value(v, out);
            out.push(41u8);
            assert(out@ =~= old(out)@ + spec_attr_call_known(nm_h_stream(), hStream, *attr, *v));
        },
        Option::None => {
            push_trailing_ellipsis(out);
            assert(out@ =~= old(out)@ + spec_attr_call_unknown(nm_h_stream(), hStream, *attr));
        },
    }
}

/// The per-thread-stream variant renders exactly as the plain query does.
#[allow(non_snake_case)]
pub fn write_cuStreamGetAttribute_ptsz(
    out: &mut Vec<u8>,
    hStream: u64,
    attr: &EnumValue,
    value_out: Option<&Value>,
)
    requires
        value_out is Some <==> stream_attr_known(attr.raw),
        value_out matches Some(v) ==> renderable(*v),
    ensures
        value_out matches Some(v) ==> final(out)@ == old(out)@ + spec_attr_call_known(
            nm_h_stream(),
            hStream,
            *attr,
            *v,
        ),
        value_out is None ==> final(out)@ == old(out)@ + spec_attr_call_unknown(
            nm_h_stream(),
            hStream,
            *attr,
        ),
{
    write_cuStreamGetAttribute(out, hStream, attr, value_out);
}

/// Appends the argument list of a stream attribute update; it renders
/// exactly as the query does.
#[allow(non_snake_case)]
pub fn write_cuStreamSetAttribute(
    out: &mut Vec<u8>,
    hStream: u64,
    attr: &EnumValue,
    value_out: Option<&Value>,
)
    requires
        value_out is Some <==> stream_attr_known(attr.raw),
        value_out matches Some(v) ==> renderable(*v),
    ensures
        value_out matches Some(v) ==> final(out)@ == old(out)@ + spec_attr_call_known(
            nm_h_stream(),
            hStream,
            *attr,
            *v,
        ),
        value_out is None ==> final(out)@ == old(out)@ + spec_attr_call_unknown(
            nm_h_stream(),
            hStream,
            *attr,
        ),
{
    write_cuStreamGetAttribute(out, hStream, attr, value_out);
}

/// The per-thread-stream variant renders exactly as the update does.
#[allow(non_snake_case)]
pub fn write_cuStreamSetAttribute_ptsz(
    out: &mut Vec<u8>,
    hStream: u64,
    attr: &EnumValue,
    value_out: Option<&Value>,
)
    requires
        value_out is Some <==> stream_attr_known(attr.raw),
        value_out matches Some(v) ==> renderable(*v),
    ensures
        value_out matches Some(v) ==> final(out)@ == old(out)@ + spec_attr_call_known(
            nm_h_stream(),
            hStream,
            *attr,
            *v,
        ),
        value_out is None ==> final(out)@ == old(out)@ + spec_attr_call_unknown(
            nm_h_stream(),
            hStream,
            *attr,
        ),
{
    write_cuStreamSetAttribute(out, hStream, attr, value_out);
}

/// What the optional parts of an external-handle member render to: the
/// platform handle when it is present (non-null), then the handle's name
/// when one is present, quoted and decoded from its wide form.
pub open spec fn spec_win32_handle(handle: u64, name: Option<Seq<u16>>) -> Seq<u8> {
    (if handle != 0 {
        tok_sep() + nm_handle() + tok_colon() + addr_of(handle)
    } else {
        Seq::<u8>::empty()
    }) + (match name {
        Option::Some(units) => tok_sep() + nm_name() + tok_colon() + seq![34u8] + lossy_utf16(
            units,
        ) + seq![34u8],
        Option::None => Seq::<u8>::empty(),
    })
}

/// Appends the optional fields of an external-memory or external-semaphore
/// platform handle: each part appears exactly when it is present.
pub fn write_win32_handle(out: &mut Vec<u8>, handle: u64, name: &Option<Vec<u16>>)
    ensures
        name matches Some(units) ==> final(out)@ == old(out)@ + spec_win32_handle(
            handle,
            Option::Some(units@),
        ),
        name is None ==> final(out)@ == old(out)@ + spec_win32_handle(handle, Option::None),
{
    if handle != 0 {
        push_sep(out);
        push_nm_handle(out);
        push_colon(out);
        push_addr(out, handle);
    }
    match name {
        Option::Some(units) => {
            push_sep(out);
            push_nm_name(out);
            push_colon(out);
            out.push(34u8);
            let decoded = utf16_lossy(units);
            push_bytes(out, &decoded);
            out.push(34u8);
        },
        Option::None => {},
    }
    match name {
        Option::Some(units) => {
            assert(out@ =~= old(out)@ + spec_win32_handle(handle, Option::Some(units@)));
        },
        Option::None => {
            assert(out@ =~= old(out)@ + spec_win32_handle(handle, Option::None));
        },
    }
}

/// What a link-creation call renders to.
pub open spec fn spec_link_create(
    num_options: u32,
    options: Seq<Value>,
    option_values: Seq<Value>,
    state_out: Value,
) -> Seq<u8> {
    seq![40u8] + nm_num_options() + tok_colon() + dec_of(num_options as nat) + tok_sep()
        + nm_options() + tok_colon() + counted_text(num_options as u64, options) + tok_sep()
        + nm_option_values() + tok_colon() + counted_text(num_options as u64, option_values)
        + tok_sep() + nm_state_out() + tok_colon() + spec_render(state_out) + seq![41u8]
}

/// Appends the argument list of a link-creation call: both option arrays
/// are count-driven, sized by the option count.
#[allow(non_snake_case)]
pub fn write_cuLinkCreate_v2(
    out: &mut Vec<u8>,
    numOptions: u32,
    options: &Vec<Value>,
    optionValues: &Vec<Value>,
    stateOut: &Value,
)
    requires
        options@.len() == counted_len(numOptions as u64),
        optionValues@.len() == counted_len(numOptions as u64),
        renderable_elems(options@, 0),
        renderable_elems(optionValues@, 0),
        renderable(*stateOut),
    ensures
        final(out)@ == old(out)@ + spec_link_create(
            numOptions,
            options@,
            optionValues@,
            *stateOut,
        ),
{
    out.push(40u8);
    push_nm_num_options(out);
    push_colon(out);
    push_dec_u64(out, numOptions as u64);
    push_sep(out);
    push_nm_options(out);
    push_colon(out);
    write_array(out, numOptions as u64, options);
    push_sep(out);
    push_nm_option_values(out);
    push_colon(out);
    write_array(out, numOptions as u64, optionValues);
    push_sep(out);
    push_nm_state_out(out);
    push_colon(out);
    render_value(stateOut, out);
    out.push(41u8);
    assert(out@ =~= old(out)@ + spec_link_create(numOptions, options@, optionValues@, *stateOut));
}

/// The leading half of a link-data-addition rendering: the link state, the
/// input type, the data pointer and size, and the entry name.
pub open spec fn spec_link_add_head(
    state: u64,
    type_: EnumValue,
    data: u64,
    size: u64,
    name: Value,
) -> Seq<u8> {
    seq![40u8] + nm_state() + tok_colon() + addr_of(state) + tok_sep() + nm_type() + tok_colon()
        + enum_text(type_.variants@, type_.raw, 0) + tok_sep() + nm_data() + tok_colon() + addr_of(
        data,
    ) + tok_sep() + nm_size() + tok_colon() + dec_of(size as nat) + tok_sep() + nm_name()
        + tok_colon() + spec_render(name)
}

/// The trailing half of a link-data-addition rendering: the option count
/// and the two count-driven option arrays.
pub open spec fn spec_link_add_tail(
    num_options: u32,
    options: Seq<Value>,
    option_values: Seq<Value>,
) -> Seq<u8> {
    tok_sep() + nm_num_options() + tok_colon() + dec_of(num_options as nat) + tok_sep()
        + nm_options() + tok_colon() + counted_text(num_options as u64, options) + tok_sep()
        + nm_option_values() + tok_colon() + counted_text(num_options as u64, option_values)
        + seq![41u8]
}

/// What a link-data-addition call renders to.
pub open spec fn spec_link_add_data(
    state: u64,
    type_: EnumValue,
    data: u64,
    size: u64,
    name: Value,
    num_options: u32,
    options: Seq<Value>,
    option_values: Seq<Value>,
) -> Seq<u8> {
    spec_link_add_head(state, type_, data, size, name) + spec_link_add_tail(
        num_options,
        options,
        option_values,
    )
}

/// Appends the argument list of a link-data-addition call.
#[allow(non_snake_case)]
#[verifier::rlimit(100)]
pub fn write_cuLinkAddData_v2(
    out: &mut Vec<u8>,
    state: u64,
    type_: &EnumValue,
    data: u64,
    size: u64,
    name: &Value,
    numOptions: u32,
    options: &Vec<Value>,
    optionValues: &Vec<Value>,
)
    requires
        options@.len() == counted_len(numOptions as u64),
        optionValues@.len() == counted_len(numOptions as u64),
        renderable_elems(options@, 0),
        renderable_elems(optionValues@, 0),
        renderable(*name),
    ensures
        final(out)@ == old(out)@ + spec_link_add_data(
            state,
            *type_,
            data,
            size,
            *name,
            numOptions,
            options@,
            optionValues@,
        ),
{
    out.push(40u8);
    push_nm_state(out);
    push_colon(out);
    push_addr(out, state);
    push_sep(out);
    push_nm_type(out);
    push_colon(out);
    render_enum(type_, out);
    push_sep(out);
    push_nm_data(out);
    push_colon(out);
    push_addr(out, data);
    push_sep(out);
    push_nm_size(out);
    push_colon(out);
    push_dec_u64(out, size);
    push_sep(out);
    push_nm_name(out);
    push_colon(out);
    render_value(name, out);
    proof {
        assert(out@ =~= old(out)@ + spec_link_add_head(state, *type_, data, size, *name));
    }
    let ghost mid = out@;
    push_sep(out);
    push_nm_num_options(out);
    push_colon(out);
    push_dec_u64(out, numOptions as u64);
    push_sep(out);
    push_nm_options(out);
    push_colon(out);
    write_array(out, numOptions as u64, options);
    push_sep(out);
    push_nm_option_values(out);
    push_colon(out);
    write_array(out, numOptions as u64, optionValues);
    out.push(41u8);
    proof {
        assert(out@ =~= mid + spec_link_add_tail(numOptions, options@, optionValues@));
        assert(out@ =~= old(out)@ + spec_link_add_data(
            state,
            *type_,
            data,
            size,
            *name,
            numOptions,
            options@,
            optionValues@,
        ));
    }
}

/// What a module-load call renders to.
pub open spec fn spec_module_load_data_ex(
    module: Value,
    image: u64,
    num_options: u32,
    options: Seq<Value>,
    option_values: Seq<Value>,
) -> Seq<u8> {
    seq![40u8] + nm_module() + tok_colon() + spec_render(module) + tok_sep() + nm_image()
        + tok_colon() + addr_of(image) + tok_sep() + nm_num_options() + tok_colon() + dec_of(
        num_options as nat,
    ) + tok_sep() + nm_options() + tok_colon() + counted_text(num_options as u64, options)
        + tok_sep() + nm_option_values() + tok_colon() + counted_text(
        num_options as u64,
        option_values,
    ) + seq![41u8]
}

/// Appends the argument list of a module-load call.
#[allow(non_snake_case)]
#[verifier::rlimit(60)]
pub fn write_cuModuleLoadDataEx(
    out: &mut Vec<u8>,
    module: &Value,
    image: u64,
    numOptions: u32,
    options: &Vec<Value>,
    optionValues: &Vec<Value>,
)
    requires
        options@.len() == counted_len(numOptions as u64),
        optionValues@.len() == counted_len(numOptions as u64),
        renderable_elems(options@, 0),
        renderable_elems(optionValues@, 0),
        renderable(*module),
    ensures
        final(out)@ == old(out)@ + spec_module_load_data_ex(
            *module,
            image,
            numOptions,
            options@,
            optionValues@,
        ),
{
    out.push(40u8);
    push_nm_module(out);
    push_colon(out);
    render_value(module, out);
    push_sep(out);
    push_nm_image(out);
    push_colon(out);
    push_addr(out, image);
    push_sep(out);
    push_nm_num_options(out);
    push_colon(out);
    push_dec_u64(out, numOptions as u64);
    push_sep(out);
    push_nm_options(out);
    push_colon(out);
    write_array(out, numOptions as u64, options);
    push_sep(out);
    push_nm_option_values(out);
    push_colon(out);
    write_array(out, numOptions as u64, optionValues);
    out.push(41u8);
    assert(out@ =~= old(out)@ + spec_module_load_data_ex(
        *module,
        image,
        numOptions,
        options@,
        optionValues@,
    ));
}

/// The catalog declares context-creation affinity parameters unsupported:
/// formatting this call refuses with the distinguished not-implemented
/// error and writes nothing.
#[allow(non_snake_case)]
pub fn write_cuCtxCreate_v3(out: &mut Vec<u8>) -> (r: Result<(), FmtError>)
    ensures
        r == Err::<(), FmtError>(FmtError::NotImplemented),
        final(out)@ == old(out)@,
{
    Err(FmtError::NotImplemented)
}

/// The catalog declares execution-affinity parameters unsupported:
/// formatting this call refuses with the distinguished not-implemented
/// error and writes nothing.
#[allow(non_snake_case)]
pub fn write_cuCtxGetExecAffinity(out: &mut Vec<u8>) -> (r: Result<(), FmtError>)
    ensures
        r == Err::<(), FmtError>(FmtError::NotImplemented),
        final(out)@ == old(out)@,
{
    Err(FmtError::NotImplemented)
}

/// The catalog declares array-mapping descriptors unsupported: formatting
/// this call refuses with the distinguished not-implemented error and
/// writes nothing.
#[allow(non_snake_case)]
pub fn write_cuMemMapArrayAsync(out: &mut Vec<u8>) -> (r: Result<(), FmtError>)
    ensures
        r == Err::<(), FmtError>(FmtError::NotImplemented),
        final(out)@ == old(out)@,
{
    Err(FmtError::NotImplemented)
}

/// The per-thread-stream variant refuses exactly as the plain call does.
#[allow(non_snake_case)]
pub fn write_cuMemMapArrayAsync_ptsz(out: &mut Vec<u8>) -> (r: Result<(), FmtError>)
    ensures
        r == Err::<(), FmtError>(FmtError::NotImplemented),
        final(out)@ == old(out)@,
{
    write_cuMemMapArrayAsync(out)
}

} // verus!
