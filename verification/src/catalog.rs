//! Type-catalog descriptors used at decode time.
//!
//! The catalog itself — function signatures and type layouts derived from
//! the vendor API description — is a static input. This module holds the
//! parts of it the verified logic depends on: the registry that maps a
//! tagged union's tag values to its variants, and the rule that marks a
//! struct field reserved so the renderer skips it.

use vstd::prelude::*;

use crate::format::bytes_eq;

verus! {

/// One variant of a tagged union: the set of tag values that select it.
///
/// A variant may be registered under several tag values: two nominally
/// distinct tags whose members are byte-for-byte identical in layout share
/// one rendering routine instead of duplicating it (the 32-bit and 64-bit
/// wait/write-value payloads are the canonical case, told apart by a
/// secondary flag rather than the tag).
pub struct VariantLayout {
    pub tags: Vec<u64>,
}

/// The variant registry of one tagged union type, in declaration order.
pub struct UnionLayout {
    pub variants: Vec<VariantLayout>,
}

/// The variant that `tag` selects: the index of the first variant
/// registered for `tag` from position `i` on, or `None` when no variant is.
pub open spec fn spec_select_variant(variants: Seq<VariantLayout>, tag: u64, i: int) -> Option<
    usize,
>
    decreases variants.len() - i,
{
    if i < 0 || i >= variants.len() {
        Option::None
    } else if variants[i].tags@.contains(tag) {
        Option::Some(i as usize)
    } else {
        spec_select_variant(variants, tag, i + 1)
    }
}

/// Whether `tags` holds `tag`.
fn tags_contain(tags: &Vec<u64>, tag: u64) -> (r: bool)
    ensures
        r == tags@.contains(tag),
{
    let mut i: usize = 0;
    while i < tags.len()
        invariant
            i <= tags@.len(),
            forall|j: int| 0 <= j < i ==> tags@[j] != tag,
        decreases tags@.len() - i,
    {
        if tags[i] == tag {
            assert(tags@.contains(tag));
            return true;
        }
        i = i + 1;
    }
    assert(!tags@.contains(tag));
    false
}

/// Selects the union variant registered for a tag value.
///
/// Returns the index of the first matching variant, and `None` when the
/// tag is unregistered — the caller then renders the partial, ellipsis
/// form instead of guessing a member.
pub fn select_variant(layout: &UnionLayout, tag: u64) -> (r: Option<usize>)
    ensures
        r == spec_select_variant(layout.variants@, tag, 0),
        r matches Some(i) ==> i < layout.variants@.len() && layout.variants@[i as int].tags@.contains(tag),
        r is None ==> forall|j: int|
            0 <= j < layout.variants@.len() ==> !layout.variants@[j].tags@.contains(tag),
{
    let mut i: usize = 0;
    while i < layout.variants.len()
        invariant
            i <= layout.variants@.len(),
            spec_select_variant(layout.variants@, tag, 0) == spec_select_variant(
                layout.variants@,
                tag,
                i as int,
            ),
            forall|j: int| 0 <= j < i ==> !layout.variants@[j].tags@.contains(tag),
        decreases layout.variants@.len() - i,
    {
        if tags_contain(&layout.variants[i].tags, tag) {
            return Some(i);
        }
        i = i + 1;
    }
    proof {
        lemma_select_none(layout.variants@, tag, 0);
    }
    None
}

/// When no variant from `i` on is registered for `tag`, selection from `i`
/// yields nothing.
proof fn lemma_select_none(variants: Seq<VariantLayout>, tag: u64, i: int)
    requires
        forall|j: int| i <= j < variants.len() ==> !variants[j].tags@.contains(tag),
    ensures
        spec_select_variant(variants, tag, i) is None,
    decreases variants.len() - i,
{
    if 0 <= i < variants.len() {
        lemma_select_none(variants, tag, i + 1);
    }
}

/// The resource-type tag of an array resource.
pub const RES_TYPE_ARRAY: u64 = 0;

/// The resource-type tag of a mipmapped-array resource.
pub const RES_TYPE_MIPMAPPED_ARRAY: u64 = 1;

/// The resource-type tag of a linear-memory resource.
pub const RES_TYPE_LINEAR: u64 = 2;

/// The resource-type tag of a two-dimensional pitched resource.
pub const RES_TYPE_PITCH2D: u64 = 3;

/// The variant registry of the resource-descriptor union: each resource
/// type selects its own member; any other tag renders the partial form.
pub fn resource_desc_layout() -> (r: UnionLayout)
    ensures
        r.variants@.len() == 4,
        r.variants@[0].tags@ == seq![RES_TYPE_ARRAY],
        r.variants@[1].tags@ == seq![RES_TYPE_MIPMAPPED_ARRAY],
        r.variants@[2].tags@ == seq![RES_TYPE_LINEAR],
        r.variants@[3].tags@ == seq![RES_TYPE_PITCH2D],
{
    let r = UnionLayout {
        variants: vec![
            VariantLayout { tags: vec![RES_TYPE_ARRAY] },
            VariantLayout { tags: vec![RES_TYPE_MIPMAPPED_ARRAY] },
            VariantLayout { tags: vec![RES_TYPE_LINEAR] },
            VariantLayout { tags: vec![RES_TYPE_PITCH2D] },
        ],
    };
    proof {
        assert(r.variants@[0].tags@ =~= seq![RES_TYPE_ARRAY]);
        assert(r.variants@[1].tags@ =~= seq![RES_TYPE_MIPMAPPED_ARRAY]);
        assert(r.variants@[2].tags@ =~= seq![RES_TYPE_LINEAR]);
        assert(r.variants@[3].tags@ =~= seq![RES_TYPE_PITCH2D]);
    }
    r
}

/// The handle-type tag of a file-descriptor memory handle.
pub const MEM_HANDLE_OPAQUE_FD: u64 = 1;

/// The handle-type tag of an opaque platform memory handle.
pub const MEM_HANDLE_OPAQUE_WIN32: u64 = 2;

/// The handle-type tag of a kernel-mode-thunk platform memory handle.
pub const MEM_HANDLE_OPAQUE_WIN32_KMT: u64 = 3;

/// The handle-type tag of a graphics-heap memory handle.
pub const MEM_HANDLE_D3D12_HEAP: u64 = 4;

/// The handle-type tag of a graphics-resource memory handle.
pub const MEM_HANDLE_D3D12_RESOURCE: u64 = 5;

/// The handle-type tag of a legacy graphics-resource memory handle.
pub const MEM_HANDLE_D3D11_RESOURCE: u64 = 6;

/// The handle-type tag of a legacy kernel-mode-thunk graphics handle.
pub const MEM_HANDLE_D3D11_RESOURCE_KMT: u64 = 7;

/// The handle-type tag of a buffer-interchange memory handle.
pub const MEM_HANDLE_NVSCIBUF: u64 = 8;

/// The variant registry of the external-memory handle union. The four
/// platform-handle tags are byte-for-byte identical in layout and share one
/// variant — the named platform handle — as do the two kernel-mode-thunk
/// tags, whose member is the bare handle word.
pub fn external_memory_handle_layout() -> (r: UnionLayout)
    ensures
        r.variants@.len() == 4,
        r.variants@[0].tags@ == seq![MEM_HANDLE_OPAQUE_FD],
        r.variants@[1].tags@ == seq![
            MEM_HANDLE_OPAQUE_WIN32,
            MEM_HANDLE_D3D12_HEAP,
            MEM_HANDLE_D3D12_RESOURCE,
            MEM_HANDLE_D3D11_RESOURCE,
        ],
        r.variants@[2].tags@ == seq![MEM_HANDLE_OPAQUE_WIN32_KMT, MEM_HANDLE_D3D11_RESOURCE_KMT],
        r.variants@[3].tags@ == seq![MEM_HANDLE_NVSCIBUF],
{
    let r = UnionLayout {
        variants: vec![
            VariantLayout { tags: vec![MEM_HANDLE_OPAQUE_FD] },
            VariantLayout {
                tags: vec![
                    MEM_HANDLE_OPAQUE_WIN32,
                    MEM_HANDLE_D3D12_HEAP,
                    MEM_HANDLE_D3D12_RESOURCE,
                    MEM_HANDLE_D3D11_RESOURCE,
                ],
            },
            VariantLayout { tags: vec![MEM_HANDLE_OPAQUE_WIN32_KMT, MEM_HANDLE_D3D11_RESOURCE_KMT] },
            VariantLayout { tags: vec![MEM_HANDLE_NVSCIBUF] },
        ],
    };
    proof {
        assert(r.variants@[0].tags@ =~= seq![MEM_HANDLE_OPAQUE_FD]);
        assert(r.variants@[1].tags@ =~= seq![
            MEM_HANDLE_OPAQUE_WIN32,
            MEM_HANDLE_D3D12_HEAP,
            MEM_HANDLE_D3D12_RESOURCE,
            MEM_HANDLE_D3D11_RESOURCE,
        ]);
        assert(r.variants@[2].tags@ =~= seq![
            MEM_HANDLE_OPAQUE_WIN32_KMT,
            MEM_HANDLE_D3D11_RESOURCE_KMT,
        ]);
        assert(r.variants@[3].tags@ =~= seq![MEM_HANDLE_NVSCIBUF]);
    }
    r
}

/// The handle-type tag of a file-descriptor semaphore handle.
pub const SEM_HANDLE_OPAQUE_FD: u64 = 1;

/// The handle-type tag of an opaque platform semaphore handle.
pub const SEM_HANDLE_OPAQUE_WIN32: u64 = 2;

/// The handle-type tag of a kernel-mode-thunk platform semaphore handle.
pub const SEM_HANDLE_OPAQUE_WIN32_KMT: u64 = 3;

/// The handle-type tag of a graphics-fence semaphore handle.
pub const SEM_HANDLE_D3D12_FENCE: u64 = 4;

/// The handle-type tag of a legacy graphics-fence semaphore handle.
pub const SEM_HANDLE_D3D11_FENCE: u64 = 5;

/// The handle-type tag of a synchronization-interchange semaphore handle.
pub const SEM_HANDLE_NVSCISYNC: u64 = 6;

/// The handle-type tag of a keyed-mutex semaphore handle.
pub const SEM_HANDLE_KEYED_MUTEX: u64 = 7;

/// The handle-type tag of a kernel-mode-thunk keyed-mutex handle.
pub const SEM_HANDLE_KEYED_MUTEX_KMT: u64 = 8;

/// The variant registry of the external-semaphore handle union. Five
/// platform-handle tags share the named platform-handle variant; the
/// kernel-mode-thunk tag's member is the bare handle word.
pub fn external_semaphore_handle_layout() -> (r: UnionLayout)
    ensures
        r.variants@.len() == 4,
        r.variants@[0].tags@ == seq![SEM_HANDLE_OPAQUE_FD],
        r.variants@[1].tags@ == seq![
            SEM_HANDLE_OPAQUE_WIN32,
            SEM_HANDLE_D3D12_FENCE,
            SEM_HANDLE_D3D11_FENCE,
            SEM_HANDLE_KEYED_MUTEX,
            SEM_HANDLE_KEYED_MUTEX_KMT,
        ],
        r.variants@[2].tags@ == seq![SEM_HANDLE_OPAQUE_WIN32_KMT],
        r.variants@[3].tags@ == seq![SEM_HANDLE_NVSCISYNC],
{
    let r = UnionLayout {
        variants: vec![
            VariantLayout { tags: vec![SEM_HANDLE_OPAQUE_FD] },
            VariantLayout {
                tags: vec![
                    SEM_HANDLE_OPAQUE_WIN32,
                    SEM_HANDLE_D3D12_FENCE,
                    SEM_HANDLE_D3D11_FENCE,
                    SEM_HANDLE_KEYED_MUTEX,
                    SEM_HANDLE_KEYED_MUTEX_KMT,
                ],
            },
            VariantLayout { tags: vec![SEM_HANDLE_OPAQUE_WIN32_KMT] },
            VariantLayout { tags: vec![SEM_HANDLE_NVSCISYNC] },
        ],
    };
    proof {
        assert(r.variants@[0].tags@ =~= seq![SEM_HANDLE_OPAQUE_FD]);
        assert(r.variants@[1].tags@ =~= seq![
            SEM_HANDLE_OPAQUE_WIN32,
            SEM_HANDLE_D3D12_FENCE,
            SEM_HANDLE_D3D11_FENCE,
            SEM_HANDLE_KEYED_MUTEX,
            SEM_HANDLE_KEYED_MUTEX_KMT,
        ]);
        assert(r.variants@[2].tags@ =~= seq![SEM_HANDLE_OPAQUE_WIN32_KMT]);
        assert(r.variants@[3].tags@ =~= seq![SEM_HANDLE_NVSCISYNC]);
    }
    r
}

/// The name prefix `reserved`.
pub open spec fn reserved_prefix() -> Seq<u8> {
    seq![114u8, 101u8, 115u8, 101u8, 114u8, 118u8, 101u8, 100u8]
}

/// The name `_unused`.
pub open spec fn unused_name() -> Seq<u8> {
    seq![95u8, 117u8, 110u8, 117u8, 115u8, 101u8, 100u8]
}

/// The catalog's marking rule for padding: a field is reserved — and the
/// renderer skips it — when its declaration name starts with `reserved` or
/// is exactly `_unused`.
pub open spec fn is_reserved_name(name: Seq<u8>) -> bool {
    (name.len() >= 8 && name.subrange(0, 8) == reserved_prefix()) || name == unused_name()
}

/// Decides [`is_reserved_name`] at run time, for catalog construction.
pub fn reserved_name(name: &Vec<u8>) -> (r: bool)
    ensures
        r == is_reserved_name(name@),
{
    let prefix: Vec<u8> = vec![114u8, 101u8, 115u8, 101u8, 114u8, 118u8, 101u8, 100u8];
    assert(prefix@ =~= reserved_prefix());
    if name.len() >= 8 {
        let mut i: usize = 0;
        let mut matches_prefix: bool = true;
        while i < 8
            invariant
                name@.len() >= 8,
                prefix@ == reserved_prefix(),
                i <= 8,
                matches_prefix ==> forall|j: int| 0 <= j < i ==> name@[j] == prefix@[j],
                !matches_prefix ==> name@.subrange(0, 8) != reserved_prefix(),
            decreases 8 - i,
        {
            if name[i] != prefix[i] {
                proof {
                    assert(name@.subrange(0, 8)[i as int] != reserved_prefix()[i as int]);
                }
                matches_prefix = false;
            }
            i = i + 1;
        }
        if matches_prefix {
            proof {
                assert(name@.subrange(0, 8) =~= reserved_prefix());
            }
            return true;
        }
    }
    let unused: Vec<u8> = vec![95u8, 117u8, 110u8, 117u8, 115u8, 101u8, 100u8];
    assert(unused@ =~= unused_name());
    bytes_eq(name, &unused)
}

} // verus!
