use cuda_trace::intercept::{plan_install, publish, Export, InterceptedModule};
use cuda_trace::trampoline::{emit_stub_x64, Arch};

fn export(name: &[u8], address: usize) -> Export {
    Export {
        name: name.to_vec(),
        address,
    }
}

fn sample_catalog() -> Vec<Vec<u8>> {
    vec![
        b"cuInit".to_vec(),
        b"cuDeviceGet".to_vec(),
        b"cuLaunchKernel".to_vec(),
    ]
}

fn sample_exports() -> Vec<Export> {
    vec![
        export(b"cuLaunchKernel", 0x3000),
        export(b"cuInit", 0x1000),
        export(b"cuMemAlloc", 0x9000),
    ]
}

#[test]
fn plan_keeps_catalog_order_and_resolves_addresses() {
    let plan = plan_install(&sample_catalog(), &sample_exports());
    assert_eq!(plan.len(), 2);
    assert_eq!(plan[0].name, b"cuInit".to_vec());
    assert_eq!(plan[0].idx, 0);
    assert_eq!(plan[0].original, 0x1000);
    assert_eq!(plan[1].name, b"cuLaunchKernel".to_vec());
    assert_eq!(plan[1].idx, 2);
    assert_eq!(plan[1].original, 0x3000);
}

#[test]
fn plan_skips_names_the_module_does_not_export() {
    let plan = plan_install(&sample_catalog(), &vec![]);
    assert!(plan.is_empty());
}

fn installed() -> InterceptedModule {
    let plan = plan_install(&sample_catalog(), &sample_exports());
    publish(plan, Arch::X64, 0x7777, 0x8888)
}

#[test]
fn publish_binds_each_entry_to_its_identity() {
    let module = installed();
    assert_eq!(module.entries.len(), 2);
    let first = &module.entries[0];
    assert_eq!(first.name, b"cuInit".to_vec());
    assert_eq!(first.original, 0x1000);
    let t = first.trampoline.as_ref().expect("allocation succeeds here");
    assert_eq!(t.code, emit_stub_x64(0x1000, 0x7777, 0x8888, 0));
    let second = &module.entries[1];
    let t2 = second.trampoline.as_ref().expect("allocation succeeds here");
    assert_eq!(t2.code, emit_stub_x64(0x3000, 0x7777, 0x8888, 2));
}

#[test]
fn replacement_is_the_trampoline_entry() {
    let module = installed();
    for entry in &module.entries {
        let t = entry.trampoline.as_ref().unwrap();
        assert_eq!(entry.replacement(), t.entry);
        assert_ne!(entry.replacement(), entry.original);
    }
}

#[test]
fn uninstall_restores_original_addresses() {
    let module = installed();
    let restore = module.uninstall();
    assert_eq!(restore.len(), 2);
    assert_eq!(restore[0].name, b"cuInit".to_vec());
    assert_eq!(restore[0].address, 0x1000);
    assert_eq!(restore[1].name, b"cuLaunchKernel".to_vec());
    assert_eq!(restore[1].address, 0x3000);
}
