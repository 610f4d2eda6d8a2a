use cuda_trace::catalog::select_variant;
use cuda_trace::memop::{
    memop_layout, write_cuStreamBatchMemOp, write_memop_params, write_wait_value,
    write_wait_value_32_or_64, MemOpParams,
};
use cuda_trace::value::{EnumValue, EnumVariant};

fn op_enum(raw: u64) -> EnumValue {
    EnumValue {
        variants: vec![
            EnumVariant {
                name: b"CU_STREAM_MEM_OP_WAIT_VALUE_32".to_vec(),
                value: 1,
            },
            EnumVariant {
                name: b"CU_STREAM_MEM_OP_WRITE_VALUE_32".to_vec(),
                value: 2,
            },
            EnumVariant {
                name: b"CU_STREAM_MEM_OP_FLUSH_REMOTE_WRITES".to_vec(),
                value: 3,
            },
            EnumVariant {
                name: b"CU_STREAM_MEM_OP_WAIT_VALUE_64".to_vec(),
                value: 4,
            },
            EnumVariant {
                name: b"CU_STREAM_MEM_OP_WRITE_VALUE_64".to_vec(),
                value: 5,
            },
        ],
        raw,
    }
}

fn params(raw: u64) -> MemOpParams {
    MemOpParams {
        operation: op_enum(raw),
        address: 0x1000,
        value32: 7,
        value64: 900000000000,
        flags: 0,
        alias: 0x2000,
        flush_flags: 3,
    }
}

#[test]
fn value_field_is_selected_by_width_flag() {
    let mut out32: Vec<u8> = Vec::new();
    write_wait_value_32_or_64(&mut out32, 7, 900000000000, false);
    assert_eq!(out32, b", value: 7".to_vec());

    let mut out64: Vec<u8> = Vec::new();
    write_wait_value_32_or_64(&mut out64, 7, 900000000000, true);
    assert_eq!(out64, b", value64: 900000000000".to_vec());
}

#[test]
fn wait_value_renders_all_member_fields() {
    let mut out: Vec<u8> = Vec::new();
    write_wait_value(&mut out, &params(1), false);
    assert_eq!(
        String::from_utf8(out).unwrap(),
        "{ operation: CU_STREAM_MEM_OP_WAIT_VALUE_32, address: 0x1000, value: 7, flags: 0, alias: 0x2000 }"
    );
}

#[test]
fn dispatch_shares_one_routine_for_structurally_equal_tags() {
    let mut wait32: Vec<u8> = Vec::new();
    write_memop_params(&mut wait32, &params(1));
    let text32 = String::from_utf8(wait32).unwrap();
    assert!(text32.contains("value: 7"));
    assert!(!text32.contains("value64"));

    let mut write64: Vec<u8> = Vec::new();
    write_memop_params(&mut write64, &params(5));
    let text64 = String::from_utf8(write64).unwrap();
    assert!(text64.contains("value64: 900000000000"));
    assert!(text64.contains("CU_STREAM_MEM_OP_WRITE_VALUE_64"));
}

#[test]
fn flush_member_renders_its_own_flags() {
    let mut out: Vec<u8> = Vec::new();
    write_memop_params(&mut out, &params(3));
    assert_eq!(
        String::from_utf8(out).unwrap(),
        "{ operation: CU_STREAM_MEM_OP_FLUSH_REMOTE_WRITES, flags: 3 }"
    );
}

#[test]
fn unregistered_operation_renders_partial_form() {
    let mut out: Vec<u8> = Vec::new();
    write_memop_params(&mut out, &params(9));
    assert_eq!(String::from_utf8(out).unwrap(), "{ operation: 9, ... }");
}

#[test]
fn layout_maps_tags_to_shared_variants() {
    let layout = memop_layout();
    assert_eq!(select_variant(&layout, 1), Some(0));
    assert_eq!(select_variant(&layout, 2), Some(0));
    assert_eq!(select_variant(&layout, 4), Some(1));
    assert_eq!(select_variant(&layout, 5), Some(1));
    assert_eq!(select_variant(&layout, 3), Some(2));
    assert_eq!(select_variant(&layout, 9), None);
}

#[test]
fn batch_memop_call_renders_counted_list() {
    let mut out: Vec<u8> = Vec::new();
    write_cuStreamBatchMemOp(&mut out, 0xa0, 2, &vec![params(1), params(9)], 0);
    assert_eq!(
        String::from_utf8(out).unwrap(),
        "(stream: 0xa0, count: 2, paramArray: [{ operation: CU_STREAM_MEM_OP_WAIT_VALUE_32, \
         address: 0x1000, value: 7, flags: 0, alias: 0x2000 }, { operation: 9, ... }], flags: 0)"
    );
}

#[test]
fn empty_batch_renders_empty_list() {
    let mut out: Vec<u8> = Vec::new();
    write_cuStreamBatchMemOp(&mut out, 0xa0, 0, &vec![], 1);
    assert_eq!(
        String::from_utf8(out).unwrap(),
        "(stream: 0xa0, count: 0, paramArray: [], flags: 1)"
    );
}
