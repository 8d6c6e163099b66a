use rm_mouse::event::{
    key_event, parse_input_event, rel_event, syn_report, RawEvent, ABS_MT_POSITION_X, EV_ABS,
    EV_KEY, EV_REL, EV_SYN, INPUT_EVENT_SIZE, REL_WHEEL, SYN_REPORT,
};

fn record(ty: u16, code: u16, value: i32) -> Vec<u8> {
    let mut b = vec![0xaau8; 8];
    b.extend_from_slice(&ty.to_le_bytes());
    b.extend_from_slice(&code.to_le_bytes());
    b.extend_from_slice(&value.to_le_bytes());
    b
}

#[test]
fn short_buffer_decodes_to_nothing() {
    assert_eq!(parse_input_event(&[]), None);
    assert_eq!(parse_input_event(&[0u8; 15]), None);
}

#[test]
fn decodes_little_endian_fields_and_ignores_timestamp() {
    let b = record(EV_ABS, ABS_MT_POSITION_X, 1234);
    assert_eq!(b.len(), INPUT_EVENT_SIZE);
    assert_eq!(
        parse_input_event(&b),
        Some(RawEvent { type_: EV_ABS, code: ABS_MT_POSITION_X, value: 1234 })
    );
    let raw = [0, 0, 0, 0, 0, 0, 0, 0, 0x03, 0x00, 0x39, 0x00, 0xff, 0xff, 0xff, 0xff];
    assert_eq!(parse_input_event(&raw), Some(RawEvent { type_: 3, code: 0x39, value: -1 }));
    let wide = [9u8, 9, 9, 9, 9, 9, 9, 9, 0x4a, 0x01, 0x02, 0x01, 0x00, 0x00, 0x00, 0x80];
    assert_eq!(
        parse_input_event(&wide),
        Some(RawEvent { type_: 0x014a, code: 0x0102, value: i32::MIN })
    );
}

#[test]
fn longer_buffer_reads_first_record() {
    let mut b = record(EV_KEY, 0x14a, 1);
    b.extend_from_slice(&record(EV_SYN, SYN_REPORT, 0));
    assert_eq!(parse_input_event(&b), Some(RawEvent { type_: EV_KEY, code: 0x14a, value: 1 }));
}

#[test]
fn decode_then_encode_round_trips() {
    let k = parse_input_event(&record(EV_KEY, 0x14a, 1)).unwrap();
    assert_eq!(key_event(k.code, k.value), k);
    let r = parse_input_event(&record(EV_REL, REL_WHEEL, -3)).unwrap();
    assert_eq!(rel_event(r.code, r.value), r);
    let s = parse_input_event(&record(EV_SYN, SYN_REPORT, 0)).unwrap();
    assert_eq!(syn_report(), s);
}

#[test]
fn encode_then_decode_round_trips() {
    for e in [
        RawEvent { type_: EV_ABS, code: ABS_MT_POSITION_X, value: -70000 },
        RawEvent { type_: 0xffff, code: 0xfffe, value: i32::MAX },
        syn_report(),
    ] {
        let b = e.to_bytes();
        assert_eq!(b.len(), 16);
        assert_eq!(&b[..8], &[0u8; 8]);
        assert_eq!(parse_input_event(&b), Some(e));
    }
    assert_eq!(
        rel_event(REL_WHEEL, -1).to_bytes(),
        vec![0, 0, 0, 0, 0, 0, 0, 0, 2, 0, 8, 0, 0xff, 0xff, 0xff, 0xff]
    );
}

#[test]
fn builders_set_type() {
    assert_eq!(key_event(0x14a, 0), RawEvent { type_: EV_KEY, code: 0x14a, value: 0 });
    assert_eq!(rel_event(0, 7), RawEvent { type_: EV_REL, code: 0, value: 7 });
    assert_eq!(syn_report(), RawEvent { type_: EV_SYN, code: SYN_REPORT, value: 0 });
}
