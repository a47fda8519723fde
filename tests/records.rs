use ifrextractor::bytes::ParseError;
use ifrextractor::guid::Guid;
use ifrextractor::uefi_parser::{
    hii_date, hii_ref, hii_time, ifr_action, ifr_default, ifr_eq_id_val_list, ifr_form_map,
    ifr_form_set, ifr_framework_guid, ifr_guid_edk, ifr_question_ref_3, ifr_var_store,
    IfrDefaultFlags, IfrEdkExtendOpCode, IfrOpcode, IfrTypeValue,
};
use ifrextractor::scan::extension_value;

fn guid_bytes(g: &Guid) -> Vec<u8> {
    let mut v = Vec::new();
    v.extend_from_slice(&g.data1.to_le_bytes());
    v.extend_from_slice(&g.data2.to_le_bytes());
    v.extend_from_slice(&g.data3.to_le_bytes());
    v.extend_from_slice(&g.data4);
    v
}

#[test]
fn reference_fields_by_length() {
    let (rest, r) = hii_ref(&[]).unwrap();
    assert!(rest.is_empty());
    assert_eq!((r.QuestionId, r.FormId, r.FormSetGuid, r.DevicePathStringId), (None, None, None, None));
    let mut p = vec![0x01, 0x00, 0x02, 0x00];
    p.extend_from_slice(&guid_bytes(&ifr_framework_guid()));
    p.extend_from_slice(&[0x03, 0x00, 0x00, 0x00]);
    let (rest, r) = hii_ref(&p).unwrap();
    assert_eq!((r.QuestionId, r.FormId, r.DevicePathStringId), (Some(1), Some(2), Some(3)));
    assert_eq!(r.FormSetGuid, Some(ifr_framework_guid()));
    assert_eq!(rest, &[0x00, 0x00]);
}

#[test]
fn form_set_counts_class_guids() {
    let mut p = vec![0u8; 16];
    p.extend_from_slice(&[0x05, 0x00, 0x06, 0x00]);
    let (_, f) = ifr_form_set(&p).unwrap();
    assert_eq!((f.TitleStringId, f.HelpStringId, f.Flags), (5, 6, None));
    assert!(f.ClassGuids.is_none());
    p.push(0x02);
    assert_eq!(ifr_form_set(&p).err(), Some(ParseError::Incomplete));
    p.extend_from_slice(&guid_bytes(&ifr_framework_guid()));
    p.extend_from_slice(&[0xAB; 16]);
    let (rest, f) = ifr_form_set(&p).unwrap();
    assert!(rest.is_empty());
    assert_eq!(f.Flags, Some(0x02));
    let guids = f.ClassGuids.unwrap();
    assert_eq!(guids.len(), 2);
    assert_eq!(guids[0], ifr_framework_guid());
    assert_eq!(guids[1].data1, 0xABABABAB);
}

#[test]
fn action_config_string_is_optional() {
    let mut p = vec![1, 0, 2, 0, 3, 0, 4, 0, 5, 0, 6];
    let (_, a) = ifr_action(&p).unwrap();
    assert_eq!(a.ConfigStringId, None);
    p.extend_from_slice(&[0x09, 0x00]);
    let (_, a) = ifr_action(&p).unwrap();
    assert_eq!(a.ConfigStringId, Some(9));
}

#[test]
fn value_list_and_form_map() {
    let (rest, l) = ifr_eq_id_val_list(&[0x07, 0x00, 0x03, 0x00, 1, 0, 2, 0, 3, 0, 9]).unwrap();
    assert_eq!(l.QuestionId, 7);
    assert_eq!(l.Values, vec![1, 2, 3]);
    assert_eq!(rest, &[9]);
    let mut p = vec![0x04, 0x00];
    for k in 0..2u8 {
        p.extend_from_slice(&[0x10 + k, 0x00]);
        p.extend_from_slice(&[k; 16]);
    }
    let (_, m) = ifr_form_map(&p).unwrap();
    assert_eq!(m.FormId, 4);
    assert_eq!(m.Methods.len(), 2);
    assert_eq!(m.Methods[1].MethodTitleId, 0x11);
    assert_eq!(m.Methods[1].MethodIdentifier.data4, [1; 8]);
    assert!(ifr_form_map(&p[..19]).is_err());
}

#[test]
fn question_ref3_and_default() {
    let (_, q) = ifr_question_ref_3(&[0x05, 0x00]).unwrap();
    assert_eq!((q.DevicePathId, q.QuestionGuid), (Some(5), None));
    let (_, d) = ifr_default(&[0x01, 0x00, 0x05, 0x0C, 0x1E, 0x00]).unwrap();
    assert_eq!(d.DefaultId, 1);
    match d.Value {
        IfrTypeValue::Time(t) => assert_eq!((t.Hour, t.Minute, t.Second), (12, 30, 0)),
        _ => panic!("expected a time"),
    }
    assert_eq!(ifr_default(&[0x01, 0x00, 0x05, 0x0C]).err(), Some(ParseError::Incomplete));
}

#[test]
fn time_date_and_var_store() {
    let (_, t) = hii_time(&[23, 59, 58]).unwrap();
    assert_eq!((t.Hour, t.Minute, t.Second), (23, 59, 58));
    let (_, d) = hii_date(&[0xE8, 0x07, 0x02, 0x1D]).unwrap();
    assert_eq!((d.Year, d.Month, d.Day), (2024, 2, 29));
    let mut p = vec![0u8; 16];
    p.extend_from_slice(&[0x02, 0x00, 0x08, 0x00]);
    p.extend_from_slice(b"Name\0");
    let (_, v) = ifr_var_store(&p).unwrap();
    assert_eq!(v.Name, "Name");
    assert_eq!(ifr_var_store(&p[..22]).err(), Some(ParseError::Incomplete));
}

#[test]
fn edk_extension_records() {
    let (_, e) = ifr_guid_edk(&[0x01, 0x10, 0x00, 0x05, 0x02]).unwrap();
    assert_eq!(e.ExtendedOpCode, IfrEdkExtendOpCode::VarEqName);
    assert_eq!(e.QuestionId, 0x10);
    assert_eq!(extension_value(e.Data), Some(0x0205));
    assert_eq!(extension_value(&[0x00, 0x01]), Some(256));
    assert_eq!(extension_value(&[1, 2, 3]), None);
}

#[test]
fn opcode_bytes_round_trip() {
    for n in 0..=255u8 {
        let op = IfrOpcode::from(n);
        let back: u8 = op.into();
        assert_eq!(back, n);
    }
    assert_eq!(IfrOpcode::from(0x22), IfrOpcode::MapOp);
    assert_eq!(IfrOpcode::from(0x2C), IfrOpcode::SetOp);
    assert_eq!(IfrOpcode::from(0xEE), IfrOpcode::Unknown(0xEE));
    assert_eq!(IfrDefaultFlags::MfgDefault.bit(), 0x02);
}
