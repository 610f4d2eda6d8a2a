use cuda_trace::calls::{
    write_cuCtxCreate_v3, write_cuCtxGetExecAffinity, write_cuGraphKernelNodeGetAttribute,
    write_cuGraphKernelNodeSetAttribute, write_cuLinkAddData_v2, write_cuLinkCreate_v2,
    write_cuMemMapArrayAsync, write_cuMemMapArrayAsync_ptsz, write_cuModuleLoadDataEx,
    write_cuStreamGetAttribute, write_cuStreamGetAttribute_ptsz, write_cuStreamSetAttribute,
    write_cuStreamSetAttribute_ptsz, write_win32_handle,
};
use cuda_trace::catalog::{
    external_memory_handle_layout, external_semaphore_handle_layout, resource_desc_layout,
    reserved_name, select_variant,
};
use cuda_trace::format::{format_call, Arg, FmtError};
use cuda_trace::value::{EnumValue, EnumVariant, Field, Value};

fn attr_enum(raw: u64) -> EnumValue {
    EnumValue {
        variants: vec![
            EnumVariant {
                name: b"CU_LAUNCH_ATTRIBUTE_ACCESS_POLICY_WINDOW".to_vec(),
                value: 1,
            },
            EnumVariant {
                name: b"CU_LAUNCH_ATTRIBUTE_COOPERATIVE".to_vec(),
                value: 2,
            },
            EnumVariant {
                name: b"CU_LAUNCH_ATTRIBUTE_SYNCHRONIZATION_POLICY".to_vec(),
                value: 3,
            },
        ],
        raw,
    }
}

#[test]
fn kernel_node_attribute_renders_selected_member() {
    let mut out: Vec<u8> = Vec::new();
    let member = Value::Signed(1);
    write_cuGraphKernelNodeGetAttribute(&mut out, 0x30, &attr_enum(2), Some(&member));
    assert_eq!(
        String::from_utf8(out).unwrap(),
        "(hNode: 0x30, attr: CU_LAUNCH_ATTRIBUTE_COOPERATIVE, value_out: 1)"
    );
}

#[test]
fn unknown_attribute_cuts_the_call_short() {
    let mut out: Vec<u8> = Vec::new();
    write_cuGraphKernelNodeGetAttribute(&mut out, 0x30, &attr_enum(9), None);
    assert_eq!(
        String::from_utf8(out).unwrap(),
        "(hNode: 0x30, attr: 9, ...) "
    );
}

#[test]
fn set_attribute_renders_as_the_query() {
    let member = Value::Struct(vec![Field {
        name: b"basePtr".to_vec(),
        reserved: false,
        value: Value::Address(0x7000),
    }]);
    let mut get: Vec<u8> = Vec::new();
    write_cuGraphKernelNodeGetAttribute(&mut get, 0x30, &attr_enum(1), Some(&member));
    let mut set: Vec<u8> = Vec::new();
    write_cuGraphKernelNodeSetAttribute(&mut set, 0x30, &attr_enum(1), Some(&member));
    assert_eq!(get, set);
}

#[test]
fn stream_attribute_dispatch_registers_sync_policy() {
    let member = Value::Signed(2);
    let mut out: Vec<u8> = Vec::new();
    write_cuStreamGetAttribute(&mut out, 0x40, &attr_enum(3), Some(&member));
    assert_eq!(
        String::from_utf8(out).unwrap(),
        "(hStream: 0x40, attr: CU_LAUNCH_ATTRIBUTE_SYNCHRONIZATION_POLICY, value_out: 2)"
    );

    let mut unknown: Vec<u8> = Vec::new();
    write_cuStreamGetAttribute(&mut unknown, 0x40, &attr_enum(2), None);
    assert!(String::from_utf8(unknown).unwrap().ends_with(", ...) "));
}

#[test]
fn stream_attribute_variants_render_alike() {
    let member = Value::Signed(2);
    let mut a: Vec<u8> = Vec::new();
    write_cuStreamGetAttribute(&mut a, 0x40, &attr_enum(1), Some(&member));
    let mut b: Vec<u8> = Vec::new();
    write_cuStreamGetAttribute_ptsz(&mut b, 0x40, &attr_enum(1), Some(&member));
    let mut c: Vec<u8> = Vec::new();
    write_cuStreamSetAttribute(&mut c, 0x40, &attr_enum(1), Some(&member));
    let mut d: Vec<u8> = Vec::new();
    write_cuStreamSetAttribute_ptsz(&mut d, 0x40, &attr_enum(1), Some(&member));
    assert_eq!(a, b);
    assert_eq!(a, c);
    assert_eq!(a, d);
}

#[test]
fn win32_handle_parts_appear_when_present() {
    let mut both: Vec<u8> = Vec::new();
    let name: Vec<u16> = "shared".encode_utf16().collect();
    write_win32_handle(&mut both, 0xbeef, &Some(name));
    assert_eq!(
        String::from_utf8(both).unwrap(),
        ", handle: 0xbeef, name: \"shared\""
    );

    let mut only_handle: Vec<u8> = Vec::new();
    write_win32_handle(&mut only_handle, 0xbeef, &None);
    assert_eq!(only_handle, b", handle: 0xbeef".to_vec());

    let mut neither: Vec<u8> = Vec::new();
    write_win32_handle(&mut neither, 0, &None);
    assert_eq!(neither, b"".to_vec());
}

#[test]
fn link_create_renders_counted_options() {
    let mut out: Vec<u8> = Vec::new();
    write_cuLinkCreate_v2(
        &mut out,
        0,
        &vec![Value::Pointer(None)],
        &vec![Value::Pointer(None)],
        &Value::Address(0x50),
    );
    assert_eq!(
        String::from_utf8(out).unwrap(),
        "(numOptions: 0, options: NULL, optionValues: NULL, stateOut: 0x50)"
    );
}

#[test]
fn link_add_data_renders_every_argument() {
    let jit_type = EnumValue {
        variants: vec![EnumVariant {
            name: b"CU_JIT_INPUT_PTX".to_vec(),
            value: 1,
        }],
        raw: 1,
    };
    let mut out: Vec<u8> = Vec::new();
    write_cuLinkAddData_v2(
        &mut out,
        0x60,
        &jit_type,
        0x7000,
        512,
        &Value::Chars(Some(b"kernel.ptx".to_vec())),
        1,
        &vec![Value::Pointer(Some(Box::new(Value::Unsigned(4))))],
        &vec![Value::Address(0x80)],
    );
    assert_eq!(
        String::from_utf8(out).unwrap(),
        "(state: 0x60, type: CU_JIT_INPUT_PTX, data: 0x7000, size: 512, name: \"kernel.ptx\", \
         numOptions: 1, options: 4, optionValues: 0x80)"
    );
}

#[test]
fn module_load_renders_counted_options() {
    let mut out: Vec<u8> = Vec::new();
    write_cuModuleLoadDataEx(
        &mut out,
        &Value::Pointer(Some(Box::new(Value::Address(0x11)))),
        0x9000,
        2,
        &vec![Value::Address(0x1), Value::Address(0x2)],
        &vec![Value::Address(0x3), Value::Address(0x4)],
    );
    assert_eq!(
        String::from_utf8(out).unwrap(),
        "(module: 0x11, image: 0x9000, numOptions: 2, options: [0x1, 0x2], optionValues: [0x3, 0x4])"
    );
}

#[test]
fn unsupported_calls_refuse_with_not_implemented() {
    let mut out: Vec<u8> = Vec::new();
    assert_eq!(write_cuCtxCreate_v3(&mut out), Err(FmtError::NotImplemented));
    assert_eq!(
        write_cuCtxGetExecAffinity(&mut out),
        Err(FmtError::NotImplemented)
    );
    assert_eq!(
        write_cuMemMapArrayAsync(&mut out),
        Err(FmtError::NotImplemented)
    );
    assert_eq!(
        write_cuMemMapArrayAsync_ptsz(&mut out),
        Err(FmtError::NotImplemented)
    );
    assert!(out.is_empty());
}

#[test]
fn resource_descriptor_layout_registers_each_type() {
    let layout = resource_desc_layout();
    assert_eq!(select_variant(&layout, 0), Some(0));
    assert_eq!(select_variant(&layout, 3), Some(3));
    assert_eq!(select_variant(&layout, 4), None);
}

#[test]
fn handle_layouts_share_structurally_equal_variants() {
    let mem = external_memory_handle_layout();
    assert_eq!(select_variant(&mem, 2), Some(1));
    assert_eq!(select_variant(&mem, 5), Some(1));
    assert_eq!(select_variant(&mem, 7), Some(2));
    assert_eq!(select_variant(&mem, 8), Some(3));
    assert_eq!(select_variant(&mem, 0), None);

    let sem = external_semaphore_handle_layout();
    assert_eq!(select_variant(&sem, 4), Some(1));
    assert_eq!(select_variant(&sem, 8), Some(1));
    assert_eq!(select_variant(&sem, 3), Some(2));
    assert_eq!(select_variant(&sem, 6), Some(3));
}

#[test]
fn reserved_marking_follows_the_name_rule() {
    assert!(reserved_name(&b"reserved".to_vec()));
    assert!(reserved_name(&b"reserved2".to_vec()));
    assert!(reserved_name(&b"_unused".to_vec()));
    assert!(!reserved_name(&b"flags".to_vec()));
    assert!(!reserved_name(&b"reserve".to_vec()));
    assert!(!reserved_name(&b"_unused2".to_vec()));
}

#[test]
fn dedicated_writer_agrees_with_the_generic_formatter() {
    let options = vec![
        Value::Pointer(Some(Box::new(Value::Unsigned(1)))),
        Value::Pointer(Some(Box::new(Value::Unsigned(5)))),
    ];
    let option_values = vec![Value::Address(0x10), Value::Address(0x20)];
    let state_out = Value::Address(0x99);

    let mut dedicated: Vec<u8> = b"cuLinkCreate_v2".to_vec();
    write_cuLinkCreate_v2(
        &mut dedicated,
        2,
        &options,
        &option_values,
        &state_out,
    );

    let args = vec![
        Arg { name: b"numOptions".to_vec(), value: Value::Unsigned(2) },
        Arg { name: b"options".to_vec(), value: Value::Array(options) },
        Arg { name: b"optionValues".to_vec(), value: Value::Array(option_values) },
        Arg { name: b"stateOut".to_vec(), value: state_out },
    ];
    let generic = format_call(&b"cuLinkCreate_v2".to_vec(), &args).unwrap();
    assert_eq!(dedicated, generic);
}
