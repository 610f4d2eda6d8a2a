//! The trampoline synthesizer.
//!
//! For each intercepted entry point the tracer installs a small executable
//! stub that reports the call's identity — a 16-byte tag address and a
//! function index — through a fixed callback, then transfers control to the
//! genuine implementation with every argument exactly as the calling
//! convention delivered it. The instruction encodings for the two supported
//! convention layouts are specified here byte for byte and the emitters are
//! proved to produce them; only the final step — copying the bytes into
//! memory the processor may execute — is delegated to an outside allocator
//! behind a trusted boundary.

use vstd::prelude::*;

verus! {

/// A target calling-convention layout.
#[derive(Clone, Copy, PartialEq, Eq, Structural, Debug)]
pub enum Arch {
    /// The 32-bit layout: arguments on the stack, callee-popped.
    X86,
    /// The 64-bit layout: four register arguments with mandatory shadow
    /// space, the rest on the stack.
    X64,
}

/// Why a trampoline could not be created.
#[derive(Clone, Copy, PartialEq, Eq, Structural, Debug)]
pub enum TrampolineError {
    /// The executable-memory allocation failed: fatal for this one entry
    /// point, which is then left un-intercepted.
    AllocFailed,
}

/// The four little-endian bytes of the low 32 bits of `x`.
pub open spec fn le32(x: u64) -> Seq<u8> {
    seq![
        (x % 0x100) as u8,
        ((x / 0x100) % 0x100) as u8,
        ((x / 0x10000) % 0x100) as u8,
        ((x / 0x1000000) % 0x100) as u8,
    ]
}

/// The eight little-endian bytes of `x`.
pub open spec fn le64(x: u64) -> Seq<u8> {
    seq![
        (x % 0x100) as u8,
        ((x / 0x100) % 0x100) as u8,
        ((x / 0x10000) % 0x100) as u8,
        ((x / 0x1000000) % 0x100) as u8,
        ((x / 0x100000000) % 0x100) as u8,
        ((x / 0x10000000000) % 0x100) as u8,
        ((x / 0x1000000000000) % 0x100) as u8,
        ((x / 0x100000000000000) % 0x100) as u8,
    ]
}

/// Appends the four little-endian bytes of the low 32 bits of `x`.
fn push_le32(out: &mut Vec<u8>, x: u64)
    ensures
        final(out)@ == old(out)@ + le32(x),
{
    out.push((x % 0x100) as u8);
    out.push(((x / 0x100) % 0x100) as u8);
    out.push(((x / 0x10000) % 0x100) as u8);
    out.push(((x / 0x1000000) % 0x100) as u8);
    assert(out@ =~= old(out)@ + le32(x));
}

/// Appends the eight little-endian bytes of `x`.
fn push_le64(out: &mut Vec<u8>, x: u64)
    ensures
        final(out)@ == old(out)@ + le64(x),
{
    out.push((x % 0x100) as u8);
    out.push(((x / 0x100) % 0x100) as u8);
    out.push(((x / 0x10000) % 0x100) as u8);
    out.push(((x / 0x1000000) % 0x100) as u8);
    out.push(((x / 0x100000000) % 0x100) as u8);
    out.push(((x / 0x10000000000) % 0x100) as u8);
    out.push(((x / 0x1000000000000) % 0x100) as u8);
    out.push(((x / 0x100000000000000) % 0x100) as u8);
    assert(out@ =~= old(out)@ + le64(x));
}

/// The 32-bit stub, instruction by instruction:
///
/// ```text
/// 68 <idx>        push idx            ; second callback argument
/// 68 <guid>       push guid           ; first callback argument
/// B8 <report>     mov eax, report
/// FF D0           call eax            ; report(guid, idx); callee pops both
/// B8 <original>   mov eax, original
/// FF E0           jmp eax             ; tail transfer, caller's own return path
/// CC              int3                ; trap: reachable only if the jump is corrupted
/// ```
///
/// The callback uses the callee-pops convention, so after it returns the
/// stack holds exactly the caller's arguments again and the tail jump
/// reaches the real implementation with them untouched.
pub open spec fn spec_stub_x86(original: u64, report: u64, guid: u64, idx: u64) -> Seq<u8> {
    seq![0x68u8] + le32(idx) + seq![0x68u8] + le32(guid) + seq![0xb8u8] + le32(report) + seq![
        0xffu8,
        0xd0u8,
    ] + seq![0xb8u8] + le32(original) + seq![0xffu8, 0xe0u8] + seq![0xccu8]
}

/// The register-save prologue of the 64-bit stub: the four register
/// arguments spill into the caller-provided shadow space, then the stub
/// takes its own frame.
///
/// ```text
/// 4C 89 4C 24 20  mov [rsp+0x20], r9
/// 4C 89 44 24 18  mov [rsp+0x18], r8
/// 48 89 54 24 10  mov [rsp+0x10], rdx
/// 48 89 4C 24 08  mov [rsp+0x08], rcx
/// 48 83 EC 58     sub rsp, 0x58       ; 0x20 shadow space + 7 slots, 16-byte aligned
/// ```
pub open spec fn stub_x64_prologue() -> Seq<u8> {
    seq![0x4cu8, 0x89u8, 0x4cu8, 0x24u8, 0x20u8, 0x4cu8, 0x89u8, 0x44u8, 0x24u8, 0x18u8, 0x48u8, 0x89u8, 0x54u8, 0x24u8, 0x10u8, 0x48u8, 0x89u8, 0x4cu8, 0x24u8, 0x08u8, 0x48u8, 0x83u8, 0xecu8, 0x58u8]
}

/// The stack-argument copy of the 64-bit stub: seven caller stack slots are
/// re-based below the stub's frame, each offset computed against the moved
/// stack pointer (`0x58` higher than the caller saw it).
///
/// ```text
/// 48 8B 84 24 <d+0x58>  mov rax, [rsp + slot + 0x58]   ; slot = 0x58, 0x50, … 0x20
/// 48 89 44 24 <d>       mov [rsp + slot - 0x08], rax
/// ```
pub open spec fn stub_x64_copies() -> Seq<u8> {
    seq![0x48u8, 0x8bu8, 0x84u8, 0x24u8, 0xb0u8, 0x00u8, 0x00u8, 0x00u8, 0x48u8, 0x89u8, 0x44u8, 0x24u8, 0x50u8, 0x48u8, 0x8bu8, 0x84u8, 0x24u8, 0xa8u8, 0x00u8, 0x00u8, 0x00u8, 0x48u8, 0x89u8, 0x44u8, 0x24u8, 0x48u8, 0x48u8, 0x8bu8, 0x84u8, 0x24u8, 0xa0u8, 0x00u8, 0x00u8, 0x00u8, 0x48u8, 0x89u8, 0x44u8, 0x24u8, 0x40u8, 0x48u8, 0x8bu8, 0x84u8, 0x24u8, 0x98u8, 0x00u8, 0x00u8, 0x00u8, 0x48u8, 0x89u8, 0x44u8, 0x24u8, 0x38u8, 0x48u8, 0x8bu8, 0x84u8, 0x24u8, 0x90u8, 0x00u8, 0x00u8, 0x00u8, 0x48u8, 0x89u8, 0x44u8, 0x24u8, 0x30u8, 0x48u8, 0x8bu8, 0x84u8, 0x24u8, 0x88u8, 0x00u8, 0x00u8, 0x00u8, 0x48u8, 0x89u8, 0x44u8, 0x24u8, 0x28u8, 0x48u8, 0x8bu8, 0x84u8, 0x24u8, 0x80u8, 0x00u8, 0x00u8, 0x00u8, 0x48u8, 0x89u8, 0x44u8, 0x24u8, 0x20u8]
}

/// The register restore of the 64-bit stub: the four argument registers
/// come back from the shadow space, addressed relative to the moved stack
/// pointer.
///
/// ```text
/// 4C 8B 4C 24 78  mov r9,  [rsp+0x20+0x58]
/// 4C 8B 44 24 70  mov r8,  [rsp+0x18+0x58]
/// 48 8B 54 24 68  mov rdx, [rsp+0x10+0x58]
/// 48 8B 4C 24 60  mov rcx, [rsp+0x08+0x58]
/// ```
pub open spec fn stub_x64_restore() -> Seq<u8> {
    seq![0x4cu8, 0x8bu8, 0x4cu8, 0x24u8, 0x78u8, 0x4cu8, 0x8bu8, 0x44u8, 0x24u8, 0x70u8, 0x48u8, 0x8bu8, 0x54u8, 0x24u8, 0x68u8, 0x48u8, 0x8bu8, 0x4cu8, 0x24u8, 0x60u8]
}

/// The tail of the 64-bit stub: after the nested call into the real
/// implementation the stub folds its frame and returns the callee's result
/// untouched; the trap is reachable only if control flow is corrupted.
///
/// ```text
/// 48 83 C4 58     add rsp, 0x58
/// C3              ret
/// CC              int3
/// ```
pub open spec fn stub_x64_epilogue() -> Seq<u8> {
    seq![0x48u8, 0x83u8, 0xc4u8, 0x58u8, 0xc3u8, 0xccu8]
}

/// The 64-bit stub: save the register arguments, take a frame, report the
/// call identity through the convention's first two argument registers —
/// free to repurpose, the originals being saved — re-base the stack-passed
/// arguments, restore everything, call the real implementation, fold the
/// frame and return its result.
pub open spec fn spec_stub_x64(original: u64, report: u64, guid: u64, idx: u64) -> Seq<u8> {
    stub_x64_prologue() + seq![0x48u8, 0xb9u8] + le64(guid) + seq![0x48u8, 0xbau8] + le64(idx)
        + seq![0x48u8, 0xb8u8] + le64(report) + seq![0xffu8, 0xd0u8] + stub_x64_copies()
        + stub_x64_restore() + seq![0x48u8, 0xb8u8] + le64(original) + seq![0xffu8, 0xd0u8]
        + stub_x64_epilogue()
}

/// The stub bytes for one entry point on one convention layout.
pub open spec fn spec_stub(arch: Arch, original: u64, report: u64, guid: u64, idx: u64) -> Seq<
    u8,
> {
    match arch {
        Arch::X86 => spec_stub_x86(original, report, guid, idx),
        Arch::X64 => spec_stub_x64(original, report, guid, idx),
    }
}

/// Emits the 32-bit stub.
pub fn emit_stub_x86(original: u64, report: u64, guid: u64, idx: u64) -> (r: Vec<u8>)
    ensures
        r@ == spec_stub_x86(original, report, guid, idx),
{
    let mut out: Vec<u8> = Vec::new();
    out.push(0x68u8);
    push_le32(&mut out, idx);
    out.push(0x68u8);
    push_le32(&mut out, guid);
    out.push(0xb8u8);
    push_le32(&mut out, report);
    out.push(0xffu8);
    out.push(0xd0u8);
    out.push(0xb8u8);
    push_le32(&mut out, original);
    out.push(0xffu8);
    out.push(0xe0u8);
    out.push(0xccu8);
    assert(out@ =~= spec_stub_x86(original, report, guid, idx));
    out
}

/// Emits the 64-bit stub.
pub fn emit_stub_x64(original: u64, report: u64, guid: u64, idx: u64) -> (r: Vec<u8>)
    ensures
        r@ == spec_stub_x64(original, report, guid, idx),
{
    let mut out: Vec<u8> = Vec::new();
    let mut prologue: Vec<u8> = vec![0x4cu8, 0x89u8, 0x4cu8, 0x24u8, 0x20u8, 0x4cu8, 0x89u8, 0x44u8, 0x24u8, 0x18u8, 0x48u8, 0x89u8, 0x54u8, 0x24u8, 0x10u8, 0x48u8, 0x89u8, 0x4cu8, 0x24u8, 0x08u8, 0x48u8, 0x83u8, 0xecu8, 0x58u8];
    assert(prologue@ =~= stub_x64_prologue());
    out.append(&mut prologue);
    out.push(0x48u8);
    out.push(0xb9u8);
    push_le64(&mut out, guid);
    out.push(0x48u8);
    out.push(0xbau8);
    push_le64(&mut out, idx);
    out.push(0x48u8);
    out.push(0xb8u8);
    push_le64(&mut out, report);
    out.push(0xffu8);
    out.push(0xd0u8);
    let mut copies: Vec<u8> = vec![0x48u8, 0x8bu8, 0x84u8, 0x24u8, 0xb0u8, 0x00u8, 0x00u8, 0x00u8, 0x48u8, 0x89u8, 0x44u8, 0x24u8, 0x50u8, 0x48u8, 0x8bu8, 0x84u8, 0x24u8, 0xa8u8, 0x00u8, 0x00u8, 0x00u8, 0x48u8, 0x89u8, 0x44u8, 0x24u8, 0x48u8, 0x48u8, 0x8bu8, 0x84u8, 0x24u8, 0xa0u8, 0x00u8, 0x00u8, 0x00u8, 0x48u8, 0x89u8, 0x44u8, 0x24u8, 0x40u8, 0x48u8, 0x8bu8, 0x84u8, 0x24u8, 0x98u8, 0x00u8, 0x00u8, 0x00u8, 0x48u8, 0x89u8, 0x44u8, 0x24u8, 0x38u8, 0x48u8, 0x8bu8, 0x84u8, 0x24u8, 0x90u8, 0x00u8, 0x00u8, 0x00u8, 0x48u8, 0x89u8, 0x44u8, 0x24u8, 0x30u8, 0x48u8, 0x8bu8, 0x84u8, 0x24u8, 0x88u8, 0x00u8, 0x00u8, 0x00u8, 0x48u8, 0x89u8, 0x44u8, 0x24u8, 0x28u8, 0x48u8, 0x8bu8, 0x84u8, 0x24u8, 0x80u8, 0x00u8, 0x00u8, 0x00u8, 0x48u8, 0x89u8, 0x44u8, 0x24u8, 0x20u8];
    assert(copies@ =~= stub_x64_copies());
    out.append(&mut copies);
    let mut restore: Vec<u8> = vec![0x4cu8, 0x8bu8, 0x4cu8, 0x24u8, 0x78u8, 0x4cu8, 0x8bu8, 0x44u8, 0x24u8, 0x70u8, 0x48u8, 0x8bu8, 0x54u8, 0x24u8, 0x68u8, 0x48u8, 0x8bu8, 0x4cu8, 0x24u8, 0x60u8];
    assert(restore@ =~= stub_x64_restore());
    out.append(&mut restore);
    out.push(0x48u8);
    out.push(0xb8u8);
    push_le64(&mut out, original);
    out.push(0xffu8);
    out.push(0xd0u8);
    let mut epilogue: Vec<u8> = vec![0x48u8, 0x83u8, 0xc4u8, 0x58u8, 0xc3u8, 0xccu8];
    assert(epilogue@ =~= stub_x64_epilogue());
    out.append(&mut epilogue);
    assert(out@ =~= spec_stub_x64(original, report, guid, idx));
    out
}

/// An owned block of executable memory holding one synthesized stub.
#[verifier::external_type_specification]
#[verifier::external_body]
pub struct ExExecutableBuffer(dynasmrt::mmap::ExecutableBuffer);

/// Relies on `dynasmrt::mmap::MutableBuffer` and `ExecutableBuffer`: a
/// fresh anonymous mapping of the stub's size receives the bytes, is
/// remapped execute-only, and yields the address of its first byte. Either
/// mapping step may fail; nothing is assumed about the address.
#[verifier::external_body]
fn make_executable(code: &Vec<u8>) -> (r: Result<(dynasmrt::mmap::ExecutableBuffer, usize), TrampolineError>)
    requires
        code@.len() > 0,
{
    let mut buf = match dynasmrt::mmap::MutableBuffer::new(code.len()) {
        Ok(b) => b,
        Err(_) => return Err(TrampolineError::AllocFailed),
    };
    buf.set_len(code.len());
    buf.copy_from_slice(code.as_slice());
    let exec = match buf.make_exec() {
        Ok(b) => b,
        Err(_) => return Err(TrampolineError::AllocFailed),
    };
    let entry = exec.ptr(dynasmrt::AssemblyOffset(0)) as usize;
    Ok((exec, entry))
}

/// One synthesized trampoline: the instruction bytes as emitted — write
/// once, never modified — the executable mapping that owns their live copy,
/// and the entry address a patched symbol table publishes.
pub struct Trampoline {
    pub code: Vec<u8>,
    pub buf: dynasmrt::mmap::ExecutableBuffer,
    pub entry: usize,
}

/// Synthesizes the stub for one entry point: emits the instruction bytes
/// for `arch` and places them in executable memory. Fails only when that
/// allocation fails, which is fatal for this one entry point; the symbol
/// then stays un-intercepted.
///
/// On the 32-bit layout every embedded immediate must fit in 32 bits.
pub fn synthesize(
    arch: Arch,
    original_fn: usize,
    report_fn: usize,
    guid: usize,
    idx: usize,
) -> (r: Result<Trampoline, TrampolineError>)
    requires
        arch is X86 ==> original_fn <= u32::MAX && report_fn <= u32::MAX && guid <= u32::MAX
            && idx <= u32::MAX,
    ensures
        r matches Ok(t) ==> t.code@ == spec_stub(
            arch,
            original_fn as u64,
            report_fn as u64,
            guid as u64,
            idx as u64,
        ),
        r matches Err(e) ==> e == TrampolineError::AllocFailed,
{
    let code: Vec<u8> = match arch {
        Arch::X86 => emit_stub_x86(original_fn as u64, report_fn as u64, guid as u64, idx as u64),
        Arch::X64 => emit_stub_x64(original_fn as u64, report_fn as u64, guid as u64, idx as u64),
    };
    proof {
        lemma_stub_lengths(original_fn as u64, report_fn as u64, guid as u64, idx as u64);
    }
    match make_executable(&code) {
        Ok((buf, entry)) => Ok(Trampoline { code, buf, entry }),
        Err(_) => Err(TrampolineError::AllocFailed),
    }
}

/// Both stub encodings have fixed sizes: 25 bytes for the 32-bit layout and
/// 185 for the 64-bit one.
pub proof fn lemma_stub_lengths(original: u64, report: u64, guid: u64, idx: u64)
    ensures
        spec_stub_x86(original, report, guid, idx).len() == 25,
        spec_stub_x64(original, report, guid, idx).len() == 185,
{
}

/// Every immediate of the 32-bit stub sits at its fixed offset: the
/// identity words first, then the callback address, then the real
/// implementation's address; the stub ends with the tail jump and the trap
/// byte behind it.
pub proof fn lemma_stub_x86_layout(original: u64, report: u64, guid: u64, idx: u64)
    ensures
        spec_stub_x86(original, report, guid, idx).subrange(1, 5) == le32(idx),
        spec_stub_x86(original, report, guid, idx).subrange(6, 10) == le32(guid),
        spec_stub_x86(original, report, guid, idx).subrange(11, 15) == le32(report),
        spec_stub_x86(original, report, guid, idx).subrange(18, 22) == le32(original),
        spec_stub_x86(original, report, guid, idx).subrange(22, 24) == seq![0xffu8, 0xe0u8],
        spec_stub_x86(original, report, guid, idx)[24] == 0xccu8,
{
    let s = spec_stub_x86(original, report, guid, idx);
    assert(s.subrange(1, 5) =~= le32(idx));
    assert(s.subrange(6, 10) =~= le32(guid));
    assert(s.subrange(11, 15) =~= le32(report));
    assert(s.subrange(18, 22) =~= le32(original));
    assert(s.subrange(22, 24) =~= seq![0xffu8, 0xe0u8]);
}

/// The 64-bit stub embeds its immediates at fixed offsets behind the
/// register-save prologue, and ends with the frame fold, the return, and
/// the trap byte behind it.
#[verifier::rlimit(60)]
pub proof fn lemma_stub_x64_layout(original: u64, report: u64, guid: u64, idx: u64)
    ensures
        spec_stub_x64(original, report, guid, idx).subrange(26, 34) == le64(guid),
        spec_stub_x64(original, report, guid, idx).subrange(36, 44) == le64(idx),
        spec_stub_x64(original, report, guid, idx).subrange(46, 54) == le64(report),
        spec_stub_x64(original, report, guid, idx).subrange(169, 177) == le64(original),
        spec_stub_x64(original, report, guid, idx)[183] == 0xc3u8,
        spec_stub_x64(original, report, guid, idx)[184] == 0xccu8,
{
    let s = spec_stub_x64(original, report, guid, idx);
    assert(s.subrange(26, 34) =~= le64(guid));
    assert(s.subrange(36, 44) =~= le64(idx));
    assert(s.subrange(46, 54) =~= le64(report));
    assert(s.subrange(169, 177) =~= le64(original));
}

} // verus!
