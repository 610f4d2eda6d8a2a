use cuda_trace::format::{
    bytes_eq, format_call, override_for, write_array, write_launch_kernel_extra, Arg, FmtError,
    Override,
};
use cuda_trace::value::{Field, Value};

fn arg(name: &[u8], value: Value) -> Arg {
    Arg {
        name: name.to_vec(),
        value,
    }
}

#[test]
fn formats_simple_call() {
    let args = vec![
        arg(b"a", Value::Signed(5)),
        arg(b"b", Value::Pointer(Some(Box::new(Value::Signed(7))))),
    ];
    let line = format_call(&b"foo".to_vec(), &args).unwrap();
    assert_eq!(String::from_utf8(line).unwrap(), "foo(a: 5, b: 7)");
}

#[test]
fn formats_call_without_arguments() {
    let line = format_call(&b"cuInit".to_vec(), &vec![]).unwrap();
    assert_eq!(line, b"cuInit()".to_vec());
}

#[test]
fn unsupported_argument_yields_not_implemented() {
    let args = vec![arg(b"params", Value::Unsupported)];
    let r = format_call(&b"cuGraphAddNode".to_vec(), &args);
    assert_eq!(r, Err(FmtError::NotImplemented));
}

#[test]
fn counted_array_with_small_count_is_unbracketed() {
    let mut out: Vec<u8> = Vec::new();
    write_array(&mut out, 0, &vec![Value::Pointer(None)]);
    assert_eq!(out, b"NULL".to_vec());

    let mut out1: Vec<u8> = Vec::new();
    write_array(
        &mut out1,
        1,
        &vec![Value::Pointer(Some(Box::new(Value::Unsigned(6))))],
    );
    assert_eq!(out1, b"6".to_vec());
}

#[test]
fn counted_array_with_two_elements_is_bracketed() {
    let mut out: Vec<u8> = Vec::new();
    write_array(
        &mut out,
        2,
        &vec![
            Value::Pointer(Some(Box::new(Value::Unsigned(6)))),
            Value::Pointer(Some(Box::new(Value::Unsigned(9)))),
        ],
    );
    assert_eq!(out, b"[6, 9]".to_vec());
}

#[test]
fn counted_array_override_applies_through_format_call() {
    let args = vec![
        arg(b"numOptions", Value::Unsigned(2)),
        arg(
            b"options",
            Value::Array(vec![
                Value::Pointer(Some(Box::new(Value::Unsigned(1)))),
                Value::Pointer(Some(Box::new(Value::Unsigned(5)))),
            ]),
        ),
        arg(
            b"optionValues",
            Value::Array(vec![Value::Address(0x10), Value::Address(0x20)]),
        ),
        arg(b"stateOut", Value::Address(0x99)),
    ];
    let line = format_call(&b"cuLinkCreate_v2".to_vec(), &args).unwrap();
    assert_eq!(
        String::from_utf8(line).unwrap(),
        "cuLinkCreate_v2(numOptions: 2, options: [1, 5], optionValues: [0x10, 0x20], stateOut: 0x99)"
    );
}

#[test]
fn sentinel_list_walks_to_terminator() {
    let mut out: Vec<u8> = Vec::new();
    let slots: Vec<u64> = vec![1, 0x1000, 2, 16, 0];
    write_launch_kernel_extra(&mut out, &slots);
    assert_eq!(
        String::from_utf8(out).unwrap(),
        "[CU_LAUNCH_PARAM_BUFFER_POINTER, 0x1000, CU_LAUNCH_PARAM_BUFFER_SIZE, 16, CU_LAUNCH_PARAM_END]"
    );
}

#[test]
fn sentinel_list_size_flag_applies_once() {
    let mut out: Vec<u8> = Vec::new();
    // After the size slot is consumed, later slots render as pointers again.
    let slots: Vec<u64> = vec![2, 24, 0x2000, 0];
    write_launch_kernel_extra(&mut out, &slots);
    assert_eq!(
        String::from_utf8(out).unwrap(),
        "[CU_LAUNCH_PARAM_BUFFER_SIZE, 24, 0x2000, CU_LAUNCH_PARAM_END]"
    );
}

#[test]
fn empty_sentinel_list_is_only_the_end_marker() {
    let mut out: Vec<u8> = Vec::new();
    write_launch_kernel_extra(&mut out, &vec![0]);
    assert_eq!(out, b"[CU_LAUNCH_PARAM_END]".to_vec());
}

#[test]
fn sentinel_override_applies_to_launch_extra_argument() {
    let mut args: Vec<Arg> = Vec::new();
    for name in [
        b"f".as_slice(),
        b"gridDimX".as_slice(),
        b"gridDimY".as_slice(),
        b"gridDimZ".as_slice(),
        b"blockDimX".as_slice(),
        b"blockDimY".as_slice(),
        b"blockDimZ".as_slice(),
        b"sharedMemBytes".as_slice(),
        b"hStream".as_slice(),
        b"kernelParams".as_slice(),
    ] {
        args.push(arg(name, Value::Unsigned(1)));
    }
    args.push(arg(
        b"extra",
        Value::Array(vec![Value::Unsigned(2), Value::Unsigned(8), Value::Unsigned(0)]),
    ));
    let line = format_call(&b"cuLaunchKernel".to_vec(), &args).unwrap();
    let text = String::from_utf8(line).unwrap();
    assert!(text.ends_with(
        "extra: [CU_LAUNCH_PARAM_BUFFER_SIZE, 8, CU_LAUNCH_PARAM_END])"
    ));
}

#[test]
fn null_sentinel_list_renders_null() {
    let mut args: Vec<Arg> = Vec::new();
    for i in 0..10 {
        args.push(arg(format!("p{}", i).as_bytes(), Value::Unsigned(0)));
    }
    args.push(arg(b"extra", Value::Pointer(None)));
    let line = format_call(&b"cuLaunchKernel".to_vec(), &args).unwrap();
    assert!(String::from_utf8(line).unwrap().ends_with("extra: NULL)"));
}

#[test]
fn luid_override_selects_pair_rendering() {
    assert!(matches!(
        override_for(&b"cuDeviceGetLuid".to_vec(), 0),
        Override::LuidText
    ));
    assert!(matches!(
        override_for(&b"cuDeviceGetLuid".to_vec(), 1),
        Override::Generic
    ));
    let args = vec![
        arg(b"luid", Value::Luid(0x0000ABCD, 0x12345678)),
        arg(b"dev", Value::Signed(0)),
    ];
    let line = format_call(&b"cuDeviceGetLuid".to_vec(), &args).unwrap();
    assert_eq!(
        String::from_utf8(line).unwrap(),
        "cuDeviceGetLuid(luid: {0000ABCD-12345678}, dev: 0)"
    );
}

#[test]
fn override_table_is_keyed_by_name_and_position() {
    assert!(matches!(
        override_for(&b"cuLaunchKernel".to_vec(), 10),
        Override::SentinelList
    ));
    assert!(matches!(
        override_for(&b"cuLaunchKernel".to_vec(), 9),
        Override::Generic
    ));
    assert!(matches!(
        override_for(&b"cuLinkAddData_v2".to_vec(), 6),
        Override::CountedArray { count_arg: 5 }
    ));
    assert!(matches!(
        override_for(&b"cuModuleLoadDataEx".to_vec(), 4),
        Override::CountedArray { count_arg: 2 }
    ));
    assert!(matches!(
        override_for(&b"cuMemAlloc".to_vec(), 0),
        Override::Generic
    ));
}

#[test]
fn struct_argument_renders_generically() {
    let args = vec![arg(
        b"desc",
        Value::Struct(vec![
            Field {
                name: b"width".to_vec(),
                reserved: false,
                value: Value::Unsigned(640),
            },
            Field {
                name: b"height".to_vec(),
                reserved: false,
                value: Value::Unsigned(480),
            },
        ]),
    )];
    let line = format_call(&b"cuArrayCreate".to_vec(), &args).unwrap();
    assert_eq!(
        String::from_utf8(line).unwrap(),
        "cuArrayCreate(desc: { width: 640, height: 480 })"
    );
}

#[test]
fn bytes_eq_compares_contents() {
    assert!(bytes_eq(&b"abc".to_vec(), &b"abc".to_vec()));
    assert!(!bytes_eq(&b"abc".to_vec(), &b"abd".to_vec()));
    assert!(!bytes_eq(&b"abc".to_vec(), &b"ab".to_vec()));
}
