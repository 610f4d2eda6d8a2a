use cuda_trace::trampoline::{emit_stub_x64, emit_stub_x86, synthesize, Arch};

#[test]
fn x86_stub_encodes_every_immediate() {
    let stub = emit_stub_x86(0x11223344, 0x55667788, 0x0a0b0c0d, 7);
    let expected: Vec<u8> = vec![
        0x68, 0x07, 0x00, 0x00, 0x00, // push idx
        0x68, 0x0d, 0x0c, 0x0b, 0x0a, // push guid
        0xb8, 0x88, 0x77, 0x66, 0x55, // mov eax, report
        0xff, 0xd0, // call eax
        0xb8, 0x44, 0x33, 0x22, 0x11, // mov eax, original
        0xff, 0xe0, // jmp eax
        0xcc, // int3
    ];
    assert_eq!(stub, expected);
}

#[test]
fn x64_stub_saves_copies_and_restores() {
    let original: u64 = 0x1122334455667788;
    let report: u64 = 0x99aabbccddeeff00;
    let guid: u64 = 0x0102030405060708;
    let idx: u64 = 42;
    let stub = emit_stub_x64(original, report, guid, idx);
    assert_eq!(stub.len(), 185);

    // Register-save prologue and frame setup.
    assert_eq!(&stub[0..5], &[0x4c, 0x89, 0x4c, 0x24, 0x20]);
    assert_eq!(&stub[20..24], &[0x48, 0x83, 0xec, 0x58]);
    // Identity arguments and callback address as little-endian immediates.
    assert_eq!(&stub[24..26], &[0x48, 0xb9]);
    assert_eq!(&stub[26..34], &guid.to_le_bytes());
    assert_eq!(&stub[34..36], &[0x48, 0xba]);
    assert_eq!(&stub[36..44], &idx.to_le_bytes());
    assert_eq!(&stub[44..46], &[0x48, 0xb8]);
    assert_eq!(&stub[46..54], &report.to_le_bytes());
    assert_eq!(&stub[54..56], &[0xff, 0xd0]);
    // First stack-argument copy, offsets re-based against the moved stack
    // pointer.
    assert_eq!(
        &stub[56..69],
        &[0x48, 0x8b, 0x84, 0x24, 0xb0, 0x00, 0x00, 0x00, 0x48, 0x89, 0x44, 0x24, 0x50]
    );
    // Register restore from the shadow space.
    assert_eq!(&stub[147..152], &[0x4c, 0x8b, 0x4c, 0x24, 0x78]);
    // Real implementation address, call, frame fold, return, trap.
    assert_eq!(&stub[169..177], &original.to_le_bytes());
    assert_eq!(&stub[177..185], &[0xff, 0xd0, 0x48, 0x83, 0xc4, 0x58, 0xc3, 0xcc]);
}

#[test]
fn stub_immediates_differ_with_identity() {
    let a = emit_stub_x64(0x1000, 0x2000, 0x3000, 0);
    let b = emit_stub_x64(0x1000, 0x2000, 0x3000, 1);
    assert_ne!(a, b);
    assert_eq!(a.len(), b.len());
}

#[test]
fn synthesize_places_stub_in_executable_memory() {
    let t = synthesize(Arch::X64, 0x1122334455667788, 0x99aabbcc, 0x4000, 3).unwrap();
    let emitted = emit_stub_x64(0x1122334455667788, 0x99aabbcc, 0x4000, 3);
    assert_eq!(t.code, emitted);
    assert_ne!(t.entry, 0);
    // The live copy holds exactly the emitted bytes.
    assert_eq!(&t.buf[..], &emitted[..]);
}

#[test]
fn synthesize_x86_fits_small_addresses() {
    let t = synthesize(Arch::X86, 0x1000, 0x2000, 0x3000, 9).unwrap();
    assert_eq!(t.code, emit_stub_x86(0x1000, 0x2000, 0x3000, 9));
    assert_eq!(t.code.len(), 25);
}
