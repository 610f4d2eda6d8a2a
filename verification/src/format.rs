//! The call-argument formatter.
//!
//! [`format_call`] turns one intercepted call — a function name and its
//! decoded arguments — into a complete trace line of the form
//! `functionName(arg: value, arg: value)`. Before the generic renderer is
//! consulted, a fixed override table keyed by function name and argument
//! position replaces the per-type rendering: count-driven variable-length
//! arrays, the sentinel-terminated launch-parameter list, and the one
//! argument that renders a locally-unique-identifier pair instead of a
//! string.

use vstd::prelude::*;

use crate::render::{
    push_bytes, push_colon, push_null, push_sep, render_value, spec_render, spec_render_elems,
    tok_colon, tok_null, tok_sep,
};
use crate::text::{addr_of, dec_of, push_addr, push_dec_u64};
use crate::value::{is_renderable, is_renderable_elems, renderable, renderable_elems, Value};

verus! {

/// One decoded call argument: its declaration name and its value.
pub struct Arg {
    pub name: Vec<u8>,
    pub value: Value,
}

/// Why a call could not be formatted.
#[derive(Clone, Copy, PartialEq, Eq, Structural, Debug)]
pub enum FmtError {
    /// An argument has a shape the catalog declares unsupported for this
    /// catalog version: a development-time gap, fatal for this one trace
    /// attempt and nothing else.
    NotImplemented,
}

/// The rendering rule for one (function name, argument position) pair.
pub enum Override {
    /// No override: the generic, type-directed renderer applies.
    Generic,
    /// The argument is a variable-length array whose length is the
    /// argument at position `count_arg`.
    CountedArray { count_arg: usize },
    /// The argument is a sentinel-terminated packed parameter list.
    SentinelList,
    /// The argument renders as a locally-unique-identifier pair; the same
    /// physical type renders as a plain string everywhere else.
    LuidText,
}

/// The name `cuLaunchKernel`.
pub open spec fn name_launch_kernel() -> Seq<u8> {
    seq![99u8, 117u8, 76u8, 97u8, 117u8, 110u8, 99u8, 104u8, 75u8, 101u8, 114u8, 110u8, 101u8, 108u8]
}

/// The name `cuDeviceGetLuid`.
pub open spec fn name_device_get_luid() -> Seq<u8> {
    seq![99u8, 117u8, 68u8, 101u8, 118u8, 105u8, 99u8, 101u8, 71u8, 101u8, 116u8, 76u8, 117u8, 105u8, 100u8]
}

/// The name `cuLinkCreate_v2`.
pub open spec fn name_link_create() -> Seq<u8> {
    seq![99u8, 117u8, 76u8, 105u8, 110u8, 107u8, 67u8, 114u8, 101u8, 97u8, 116u8, 101u8, 95u8, 118u8, 50u8]
}

/// The name `cuLinkAddData_v2`.
pub open spec fn name_link_add_data() -> Seq<u8> {
    seq![99u8, 117u8, 76u8, 105u8, 110u8, 107u8, 65u8, 100u8, 100u8, 68u8, 97u8, 116u8, 97u8, 95u8, 118u8, 50u8]
}

/// The name `cuModuleLoadDataEx`.
pub open spec fn name_module_load_data_ex() -> Seq<u8> {
    seq![99u8, 117u8, 77u8, 111u8, 100u8, 117u8, 108u8, 101u8, 76u8, 111u8, 97u8, 100u8, 68u8, 97u8, 116u8, 97u8, 69u8, 120u8]
}

/// Builds the name `cuLaunchKernel`.
pub fn launch_kernel_name() -> (r: Vec<u8>)
    ensures
        r@ == name_launch_kernel(),
{
    let r: Vec<u8> = vec![99u8, 117u8, 76u8, 97u8, 117u8, 110u8, 99u8, 104u8, 75u8, 101u8, 114u8, 110u8, 101u8, 108u8];
    assert(r@ =~= name_launch_kernel());
    r
}

/// Builds the name `cuDeviceGetLuid`.
pub fn device_get_luid_name() -> (r: Vec<u8>)
    ensures
        r@ == name_device_get_luid(),
{
    let r: Vec<u8> = vec![99u8, 117u8, 68u8, 101u8, 118u8, 105u8, 99u8, 101u8, 71u8, 101u8, 116u8, 76u8, 117u8, 105u8, 100u8];
    assert(r@ =~= name_device_get_luid());
    r
}

/// Builds the name `cuLinkCreate_v2`.
pub fn link_create_name() -> (r: Vec<u8>)
    ensures
        r@ == name_link_create(),
{
    let r: Vec<u8> = vec![99u8, 117u8, 76u8, 105u8, 110u8, 107u8, 67u8, 114u8, 101u8, 97u8, 116u8, 101u8, 95u8, 118u8, 50u8];
    assert(r@ =~= name_link_create());
    r
}

/// Builds the name `cuLinkAddData_v2`.
pub fn link_add_data_name() -> (r: Vec<u8>)
    ensures
        r@ == name_link_add_data(),
{
    let r: Vec<u8> = vec![99u8, 117u8, 76u8, 105u8, 110u8, 107u8, 65u8, 100u8, 100u8, 68u8, 97u8, 116u8, 97u8, 95u8, 118u8, 50u8];
    assert(r@ =~= name_link_add_data());
    r
}

/// Builds the name `cuModuleLoadDataEx`.
pub fn module_load_data_ex_name() -> (r: Vec<u8>)
    ensures
        r@ == name_module_load_data_ex(),
{
    let r: Vec<u8> = vec![99u8, 117u8, 77u8, 111u8, 100u8, 117u8, 108u8, 101u8, 76u8, 111u8, 97u8, 100u8, 68u8, 97u8, 116u8, 97u8, 69u8, 120u8];
    assert(r@ =~= name_module_load_data_ex());
    r
}

/// The fixed override table, keyed by function name and argument position.
/// It is consulted before the generic per-type rendering and never changes
/// at run time.
pub open spec fn spec_override_for(name: Seq<u8>, i: int) -> Override {
    if name == name_launch_kernel() && i == 10 {
        Override::SentinelList
    } else if name == name_device_get_luid() && i == 0 {
        Override::LuidText
    } else if name == name_link_create() && (i == 1 || i == 2) {
        Override::CountedArray { count_arg: 0 }
    } else if name == name_link_add_data() && (i == 6 || i == 7) {
        Override::CountedArray { count_arg: 5 }
    } else if name == name_module_load_data_ex() && (i == 3 || i == 4) {
        Override::CountedArray { count_arg: 2 }
    } else {
        Override::Generic
    }
}

/// Looks the override up for argument `i` of `name`.
pub fn override_for(name: &Vec<u8>, i: usize) -> (r: Override)
    ensures
        r == spec_override_for(name@, i as int),
{
    if bytes_eq(name, &launch_kernel_name()) && i == 10 {
        Override::SentinelList
    } else if bytes_eq(name, &device_get_luid_name()) && i == 0 {
        Override::LuidText
    } else if bytes_eq(name, &link_create_name()) && (i == 1 || i == 2) {
        Override::CountedArray { count_arg: 0 }
    } else if bytes_eq(name, &link_add_data_name()) && (i == 6 || i == 7) {
        Override::CountedArray { count_arg: 5 }
    } else if bytes_eq(name, &module_load_data_ex_name()) && (i == 3 || i == 4) {
        Override::CountedArray { count_arg: 2 }
    } else {
        Override::Generic
    }
}

/// Whether two byte strings hold the same bytes.
pub fn bytes_eq(a: &Vec<u8>, b: &Vec<u8>) -> (r: bool)
    ensures
        r == (a@ == b@),
{
    if a.len() != b.len() {
        return false;
    }
    let mut i: usize = 0;
    while i < a.len()
        invariant
            a@.len() == b@.len(),
            i <= a@.len(),
            forall|j: int| 0 <= j < i ==> a@[j] == b@[j],
        decreases a@.len() - i,
    {
        if a[i] != b[i] {
            return false;
        }
        i = i + 1;
    }
    proof {
        assert(a@ =~= b@);
    }
    true
}

/// The number read from a scalar value; zero for any other shape.
pub open spec fn unsigned_of(v: Value) -> u64 {
    match v {
        Value::Unsigned(n) => n,
        _ => 0,
    }
}

/// The elements of an array value; empty for any other shape.
pub open spec fn array_elems(v: Value) -> Seq<Value> {
    match v {
        Value::Array(es) => es@,
        _ => Seq::empty(),
    }
}

/// Whether every element is a plain unsigned scalar.
pub open spec fn all_unsigned(es: Seq<Value>) -> bool {
    forall|i: int| 0 <= i < es.len() ==> es[i] is Unsigned
}

/// The numbers held by a sequence of unsigned scalar values.
pub open spec fn slot_vals(es: Seq<Value>) -> Seq<u64> {
    Seq::new(es.len(), |i: int| unsigned_of(es[i]))
}

/// Whether the slot list holds its terminator.
pub open spec fn has_zero(slots: Seq<u64>) -> bool {
    exists|k: int| 0 <= k < slots.len() && slots[k] == 0
}

/// How many elements a count-driven array carries: the count itself, except
/// that a count of zero or one still references one element.
pub open spec fn counted_len(count: u64) -> int {
    if count < 2 {
        1
    } else {
        count as int
    }
}

/// What a count-driven array renders to: the single referenced element with
/// no surrounding brackets when the count is zero or one, and a bracketed
/// `, `-separated list of `count` elements otherwise.
pub open spec fn counted_text(count: u64, es: Seq<Value>) -> Seq<u8> {
    if count < 2 {
        spec_render(es[0])
    } else {
        seq![91u8] + spec_render_elems(es, 0) + seq![93u8]
    }
}

/// The symbolic end marker of the launch-parameter list.
pub open spec fn tok_param_end() -> Seq<u8> {
    seq![67u8, 85u8, 95u8, 76u8, 65u8, 85u8, 78u8, 67u8, 72u8, 95u8, 80u8, 65u8, 82u8, 65u8, 77u8, 95u8, 69u8, 78u8, 68u8]
}

/// The symbolic buffer-pointer marker of the launch-parameter list.
pub open spec fn tok_param_buffer_pointer() -> Seq<u8> {
    seq![67u8, 85u8, 95u8, 76u8, 65u8, 85u8, 78u8, 67u8, 72u8, 95u8, 80u8, 65u8, 82u8, 65u8, 77u8, 95u8, 66u8, 85u8, 70u8, 70u8, 69u8, 82u8, 95u8, 80u8, 79u8, 73u8, 78u8, 84u8, 69u8, 82u8]
}

/// The symbolic buffer-size marker of the launch-parameter list.
pub open spec fn tok_param_buffer_size() -> Seq<u8> {
    seq![67u8, 85u8, 95u8, 76u8, 65u8, 85u8, 78u8, 67u8, 72u8, 95u8, 80u8, 65u8, 82u8, 65u8, 77u8, 95u8, 66u8, 85u8, 70u8, 70u8, 69u8, 82u8, 95u8, 83u8, 73u8, 90u8, 69u8]
}

/// What the launch-parameter slots from position `i` render to.
///
/// A slot of 0 is the end marker and terminates the list; a slot of 1 is
/// the buffer-pointer marker; a slot of 2 is the buffer-size marker and
/// flags that the next ordinary slot renders as a plain integer rather
/// than a pointer; every other slot renders as a pointer value.
pub open spec fn spec_launch_extra(slots: Seq<u64>, i: int, size_next: bool) -> Seq<u8>
    decreases slots.len() - i,
{
    if i < 0 || i >= slots.len() {
        Seq::empty()
    } else if slots[i] == 0 {
        tok_param_end()
    } else if slots[i] == 1 {
        tok_param_buffer_pointer() + tok_sep() + spec_launch_extra(slots, i + 1, size_next)
    } else if slots[i] == 2 {
        tok_param_buffer_size() + tok_sep() + spec_launch_extra(slots, i + 1, true)
    } else if size_next {
        dec_of(slots[i] as nat) + tok_sep() + spec_launch_extra(slots, i + 1, false)
    } else {
        addr_of(slots[i]) + tok_sep() + spec_launch_extra(slots, i + 1, size_next)
    }
}

/// Appends the symbolic end marker.
fn push_param_end(out: &mut Vec<u8>)
    ensures
        final(out)@ == old(out)@ + tok_param_end(),
{
    let mut t: Vec<u8> = vec![67u8, 85u8, 95u8, 76u8, 65u8, 85u8, 78u8, 67u8, 72u8, 95u8, 80u8, 65u8, 82u8, 65u8, 77u8, 95u8, 69u8, 78u8, 68u8];
    assert(t@ =~= tok_param_end());
    out.append(&mut t);
}

/// Appends the symbolic buffer-pointer marker.
fn push_param_buffer_pointer(out: &mut Vec<u8>)
    ensures
        final(out)@ == old(out)@ + tok_param_buffer_pointer(),
{
    let mut t: Vec<u8> = vec![67u8, 85u8, 95u8, 76u8, 65u8, 85u8, 78u8, 67u8, 72u8, 95u8, 80u8, 65u8, 82u8, 65u8, 77u8, 95u8, 66u8, 85u8, 70u8, 70u8, 69u8, 82u8, 95u8, 80u8, 79u8, 73u8, 78u8, 84u8, 69u8, 82u8];
    assert(t@ =~= tok_param_buffer_pointer());
    out.append(&mut t);
}

/// Appends the symbolic buffer-size marker.
fn push_param_buffer_size(out: &mut Vec<u8>)
    ensures
        final(out)@ == old(out)@ + tok_param_buffer_size(),
{
    let mut t: Vec<u8> = vec![67u8, 85u8, 95u8, 76u8, 65u8, 85u8, 78u8, 67u8, 72u8, 95u8, 80u8, 65u8, 82u8, 65u8, 77u8, 95u8, 66u8, 85u8, 70u8, 70u8, 69u8, 82u8, 95u8, 83u8, 73u8, 90u8, 69u8];
    assert(t@ =~= tok_param_buffer_size());
    out.append(&mut t);
}

/// Appends the bracketed rendering of a sentinel-terminated launch-parameter
/// list. The caller must supply the terminator: an unterminated list is a
/// contract violation of the traced application, not a condition this
/// renderer recovers from.
pub fn write_launch_kernel_extra(out: &mut Vec<u8>, slots: &Vec<u64>)
    requires
        has_zero(slots@),
    ensures
        final(out)@ == old(out)@ + seq![91u8] + spec_launch_extra(slots@, 0, false) + seq![93u8],
{
    out.push(91u8);
    let n: usize = slots.len();
    let mut i: usize = 0;
    let mut size_next: bool = false;
    proof {
        assert(out@ =~= old(out)@ + seq![91u8]);
        assert(slots@.subrange(0, slots@.len() as int) =~= slots@);
    }
    loop
        invariant_except_break
            slots@.len() == n,
            has_zero(slots@.subrange(i as int, slots@.len() as int)),
            i < slots@.len(),
            out@ + spec_launch_extra(slots@, i as int, size_next) == old(out)@ + seq![91u8]
                + spec_launch_extra(slots@, 0, false),
        ensures
            out@ == old(out)@ + seq![91u8] + spec_launch_extra(slots@, 0, false),
        decreases slots@.len() - i,
    {
        let ghost pre = out@;
        let s: u64 = slots[i];
        if s == 0 {
            push_param_end(out);
            proof {
                assert(out@ =~= pre + spec_launch_extra(slots@, i as int, size_next));
            }
            break ;
        } else if s == 1 {
            push_param_buffer_pointer(out);
            push_sep(out);
            proof {
                assert(out@ =~= pre + (tok_param_buffer_pointer() + tok_sep()));
            }
        } else if s == 2 {
            push_param_buffer_size(out);
            push_sep(out);
            size_next = true;
            proof {
                assert(out@ =~= pre + (tok_param_buffer_size() + tok_sep()));
            }
        } else if size_next {
            push_dec_u64(out, s);
            push_sep(out);
            size_next = false;
            proof {
                assert(out@ =~= pre + (dec_of(s as nat) + tok_sep()));
            }
        } else {
            push_addr(out, s);
            push_sep(out);
            proof {
                assert(out@ =~= pre + (addr_of(s) + tok_sep()));
            }
        }
        proof {
            let tail = slots@.subrange(i as int, slots@.len() as int);
            let k = choose|k: int| 0 <= k < tail.len() && tail[k] == 0;
            assert(k >= 1);
            assert(slots@.subrange(i + 1, slots@.len() as int)[k - 1] == 0);
            assert(has_zero(slots@.subrange(i + 1, slots@.len() as int)));
        }
        i = i + 1;
    }
    out.push(93u8);
    assert(out@ =~= old(out)@ + seq![91u8] + spec_launch_extra(slots@, 0, false) + seq![93u8]);
}

/// Extracts the numbers from a sequence of unsigned scalar values.
fn slots_of(es: &Vec<Value>) -> (r: Vec<u64>)
    requires
        all_unsigned(es@),
    ensures
        r@ == slot_vals(es@),
{
    let mut r: Vec<u64> = Vec::new();
    let mut i: usize = 0;
    while i < es.len()
        invariant
            all_unsigned(es@),
            i <= es@.len(),
            r@ == slot_vals(es@).subrange(0, i as int),
        decreases es@.len() - i,
    {
        let s: u64 = match &es[i] {
            Value::Unsigned(n) => *n,
            _ => {
                proof {
                    assert(false);
                }
                0
            },
        };
        r.push(s);
        i = i + 1;
        assert(r@ =~= slot_vals(es@).subrange(0, i as int));
    }
    assert(r@ =~= slot_vals(es@));
    r
}

/// Appends the count-driven rendering of a variable-length array: the
/// single referenced element, unbracketed, when `count` is zero or one,
/// and a bracketed list of `count` elements otherwise.
pub fn write_array(out: &mut Vec<u8>, count: u64, elems: &Vec<Value>)
    requires
        elems@.len() == counted_len(count),
        renderable_elems(elems@, 0),
    ensures
        final(out)@ == old(out)@ + counted_text(count, elems@),
{
    if count < 2 {
        render_value(&elems[0], out);
    } else {
        out.push(91u8);
        crate::render::render_elems(elems, out);
        out.push(93u8);
        assert(out@ =~= old(out)@ + counted_text(count, elems@));
    }
}

/// Whether argument `i` has the shape its override demands of the decoder:
/// a counted array carries exactly as many elements as its count argument
/// says, a sentinel list is either a null pointer or a terminated list of
/// plain slots, and the locally-unique-identifier argument was decoded as
/// such.
pub open spec fn arg_shaped(name: Seq<u8>, args: Seq<Arg>, i: int) -> bool {
    match spec_override_for(name, i) {
        Override::Generic => true,
        Override::LuidText => args[i].value is Luid,
        Override::CountedArray { count_arg } => {
            &&& 0 <= count_arg < args.len()
            &&& args[count_arg as int].value is Unsigned
            &&& args[i].value is Array
            &&& array_elems(args[i].value).len() == counted_len(
                unsigned_of(args[count_arg as int].value),
            )
        },
        Override::SentinelList => match args[i].value {
            Value::Pointer(p) => p is None,
            Value::Array(es) => all_unsigned(es@) && has_zero(slot_vals(es@)),
            _ => false,
        },
    }
}

/// Whether every argument has the shape its override demands.
pub open spec fn args_shaped(name: Seq<u8>, args: Seq<Arg>) -> bool {
    forall|i: int| 0 <= i < args.len() ==> arg_shaped(name, args, i)
}

/// Whether argument `i` can be rendered under its override: everything the
/// renderer will visit is a supported shape.
pub open spec fn arg_ok(name: Seq<u8>, args: Seq<Arg>, i: int) -> bool {
    match spec_override_for(name, i) {
        Override::Generic => renderable(args[i].value),
        Override::LuidText => renderable(args[i].value),
        Override::CountedArray { count_arg } => renderable_elems(array_elems(args[i].value), 0),
        Override::SentinelList => true,
    }
}

/// Whether every argument can be rendered under its override.
pub open spec fn args_ok(name: Seq<u8>, args: Seq<Arg>) -> bool {
    forall|i: int| 0 <= i < args.len() ==> arg_ok(name, args, i)
}

/// What argument `i` renders to under its override.
pub open spec fn arg_text(name: Seq<u8>, args: Seq<Arg>, i: int) -> Seq<u8> {
    match spec_override_for(name, i) {
        Override::Generic => spec_render(args[i].value),
        Override::LuidText => spec_render(args[i].value),
        Override::CountedArray { count_arg } => counted_text(
            unsigned_of(args[count_arg as int].value),
            array_elems(args[i].value),
        ),
        Override::SentinelList => match args[i].value {
            Value::Pointer(_) => tok_null(),
            Value::Array(es) => seq![91u8] + spec_launch_extra(slot_vals(es@), 0, false)
                + seq![93u8],
            _ => Seq::empty(),
        },
    }
}

/// What the argument list from position `i` renders to: each argument as
/// `name: value`, `, `-separated.
pub open spec fn spec_format_args(name: Seq<u8>, args: Seq<Arg>, i: int) -> Seq<u8>
    decreases args.len() - i,
{
    if i < 0 || i >= args.len() {
        Seq::empty()
    } else {
        (if i == 0 {
            Seq::<u8>::empty()
        } else {
            tok_sep()
        }) + args[i].name@ + tok_colon() + arg_text(name, args, i) + spec_format_args(
            name,
            args,
            i + 1,
        )
    }
}

/// What one whole call renders to: the function name, then the argument
/// list in parentheses.
pub open spec fn spec_format_call(name: Seq<u8>, args: Seq<Arg>) -> Seq<u8> {
    name + seq![40u8] + spec_format_args(name, args, 0) + seq![41u8]
}

/// Decides whether every argument can be rendered under its override.
pub fn args_supported(fn_name: &Vec<u8>, args: &Vec<Arg>) -> (r: bool)
    ensures
        r == args_ok(fn_name@, args@),
{
    let mut i: usize = 0;
    while i < args.len()
        invariant
            i <= args@.len(),
            forall|j: int| 0 <= j < i ==> arg_ok(fn_name@, args@, j),
        decreases args@.len() - i,
    {
        let ok: bool = match override_for(fn_name, i) {
            Override::Generic => is_renderable(&args[i].value),
            Override::LuidText => is_renderable(&args[i].value),
            Override::CountedArray { count_arg } => match &args[i].value {
                Value::Array(es) => is_renderable_elems(es),
                _ => {
                    proof {
                        assert(renderable_elems(array_elems(args@[i as int].value), 0));
                    }
                    true
                },
            },
            Override::SentinelList => true,
        };
        if !ok {
            assert(!arg_ok(fn_name@, args@, i as int));
            return false;
        }
        i = i + 1;
    }
    true
}

/// Appends the parenthesized argument list of one call.
pub fn write_args(out: &mut Vec<u8>, fn_name: &Vec<u8>, args: &Vec<Arg>)
    requires
        args_shaped(fn_name@, args@),
        args_ok(fn_name@, args@),
    ensures
        final(out)@ == old(out)@ + seq![40u8] + spec_format_args(fn_name@, args@, 0) + seq![41u8],
{
    out.push(40u8);
    proof {
        assert(out@ =~= old(out)@ + seq![40u8]);
    }
    let mut i: usize = 0;
    while i < args.len()
        invariant
            args_shaped(fn_name@, args@),
            args_ok(fn_name@, args@),
            i <= args@.len(),
            out@ + spec_format_args(fn_name@, args@, i as int) == old(out)@ + seq![40u8]
                + spec_format_args(fn_name@, args@, 0),
        decreases args@.len() - i,
    {
        let ghost pre = out@;
        if i != 0 {
            push_sep(out);
        }
        push_bytes(out, &args[i].name);
        push_colon(out);
        write_one_arg(out, fn_name, args, i);
        proof {
            if i == 0 {
                assert(out@ =~= pre + (Seq::<u8>::empty() + args@[i as int].name@ + tok_colon()
                    + arg_text(fn_name@, args@, i as int)));
            } else {
                assert(out@ =~= pre + (tok_sep() + args@[i as int].name@ + tok_colon() + arg_text(
                    fn_name@,
                    args@,
                    i as int,
                )));
            }
            assert(out@ + spec_format_args(fn_name@, args@, i + 1) =~= pre + spec_format_args(
                fn_name@,
                args@,
                i as int,
            ));
        }
        i = i + 1;
    }
    out.push(41u8);
    assert(out@ =~= old(out)@ + seq![40u8] + spec_format_args(fn_name@, args@, 0) + seq![41u8]);
}

/// Appends the rendering of argument `i` under its override.
fn write_one_arg(out: &mut Vec<u8>, fn_name: &Vec<u8>, args: &Vec<Arg>, i: usize)
    requires
        i < args@.len(),
        arg_shaped(fn_name@, args@, i as int),
        arg_ok(fn_name@, args@, i as int),
    ensures
        final(out)@ == old(out)@ + arg_text(fn_name@, args@, i as int),
{
    match override_for(fn_name, i) {
        Override::Generic => render_value(&args[i].value, out),
        Override::LuidText => render_value(&args[i].value, out),
        Override::CountedArray { count_arg } => {
            let count: u64 = match &args[count_arg].value {
                Value::Unsigned(n) => *n,
                _ => {
                    proof {
                        assert(false);
                    }
                    0
                },
            };
            match &args[i].value {
                Value::Array(es) => write_array(out, count, es),
                _ => {
                    proof {
                        assert(false);
                    }
                },
            }
        },
        Override::SentinelList => match &args[i].value {
            Value::Pointer(_) => push_null(out),
            Value::Array(es) => {
                let slots = slots_of(es);
                write_launch_kernel_extra(out, &slots);
            },
            _ => {
                proof {
                    assert(false);
                }
            },
        },
    }
}

/// Formats one intercepted call as `functionName(arg: value, arg: value)`.
///
/// Returns the complete trace line when every argument is a supported
/// shape, and the distinguished not-implemented error when one is not; no
/// partial line is ever produced. The caller decodes the arguments, so the
/// shapes the override table demands are a precondition, not a run-time
/// case.
pub fn format_call(fn_name: &Vec<u8>, args: &Vec<Arg>) -> (r: Result<Vec<u8>, FmtError>)
    requires
        args_shaped(fn_name@, args@),
    ensures
        r is Ok <==> args_ok(fn_name@, args@),
        r matches Ok(line) ==> line@ == spec_format_call(fn_name@, args@),
        r matches Err(e) ==> e == FmtError::NotImplemented,
{
    if !args_supported(fn_name, args) {
        return Err(FmtError::NotImplemented);
    }
    let mut out: Vec<u8> = Vec::new();
    push_bytes(&mut out, fn_name);
    write_args(&mut out, fn_name, args);
    proof {
        assert(out@ =~= spec_format_call(fn_name@, args@));
    }
    Ok(out)
}

} // verus!
