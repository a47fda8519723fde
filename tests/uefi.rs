use ifrextractor::bytes::ParseError;
use ifrextractor::guid::Guid;
use ifrextractor::scan::uefi_find_string_and_form_packages;
use ifrextractor::string_ids::{string_id_map, StringIdReduction};
use ifrextractor::uefi_parser::{
    hii_package, hii_sibt_block, hii_sibt_blocks, hii_string_package, hii_string_package_candidate,
    hii_form_package_candidate, ifr_form, ifr_guid, ifr_guid_edk2, ifr_numeric, ifr_one_of,
    ifr_one_of_option, ifr_operation, ifr_operations, ifr_ref, ifr_tiano_guid, ifr_type_value,
    ifr_var_store_efi, sibt_string_ucs2, sibt_strings_scsu_font, HiiPackageType, HiiSibtBlock,
    HiiSibtType, IfrEdk2ExtendOpCode, IfrOpcode, IfrTypeValue,
};

fn le32(v: u32) -> [u8; 4] {
    v.to_le_bytes()
}

/// A UEFI string package with "en-US" and the given string information blocks.
fn string_package(blocks: &[u8]) -> Vec<u8> {
    let len = 4 + 48 + blocks.len();
    let mut p = Vec::new();
    p.extend_from_slice(&le32(len as u32 | 0x0400_0000));
    p.extend_from_slice(&le32(0x34));
    p.extend_from_slice(&le32(0x34));
    p.extend_from_slice(&[0u8; 32]);
    p.extend_from_slice(&[0x01, 0x00]);
    p.extend_from_slice(b"en-US\0");
    p.extend_from_slice(blocks);
    p
}

/// A UEFI form package holding a form set, one form and two End operations.
fn form_package() -> Vec<u8> {
    let mut ops = vec![0x0E, 0x80 | 22];
    ops.extend_from_slice(&[0x11; 16]);
    ops.extend_from_slice(&[0x01, 0x00, 0x00, 0x00]);
    ops.extend_from_slice(&[0x01, 0x86, 0x01, 0x00, 0x01, 0x00]);
    ops.extend_from_slice(&[0x29, 0x02, 0x29, 0x02]);
    let mut p = Vec::new();
    p.extend_from_slice(&le32((4 + ops.len()) as u32 | 0x0200_0000));
    p.extend_from_slice(&ops);
    p
}

const OK_BLOCKS: [u8; 8] = [0x14, b'O', 0x00, b'K', 0x00, 0x00, 0x00, 0x00];

#[test]
fn guid_canonical_text() {
    let g = Guid {
        data1: 0xf0b1735,
        data2: 0x87a0,
        data3: 0x4193,
        data4: [0xb2, 0x66, 0x53, 0x8c, 0x38, 0xaf, 0x48, 0xce],
    };
    assert_eq!(g.to_string(), "0F0B1735-87A0-4193-B266-538C38AF48CE");
    assert_eq!(ifr_tiano_guid(), g);
}

#[test]
fn guid_decodes_little_endian_fields() {
    let bytes = [
        0x35, 0x17, 0x0b, 0x0f, 0xa0, 0x87, 0x93, 0x41, 0xb2, 0x66, 0x53, 0x8c, 0x38, 0xaf, 0x48, 0xce, 0x99,
    ];
    let (rest, g) = ifrextractor::uefi_parser::guid(&bytes).unwrap();
    assert_eq!(g, ifr_tiano_guid());
    assert_eq!(rest, &[0x99]);
    assert_eq!(ifrextractor::uefi_parser::guid(&bytes[..15]), Err(ParseError::Incomplete));
}

#[test]
fn operation_length_includes_header_and_scope_bit_is_masked() {
    let bytes = [0x01, 0x86, 0x01, 0x00, 0x02, 0x00, 0xAA];
    let (rest, op) = ifr_operation(&bytes).unwrap();
    assert_eq!(op.OpCode, IfrOpcode::Form);
    assert_eq!(op.Length, 6);
    assert!(op.ScopeStart);
    assert_eq!(2 + op.payload().len(), op.Length as usize);
    assert_eq!(rest, &[0xAA]);
}

#[test]
fn operation_of_bare_header_has_no_payload() {
    let (_, op) = ifr_operation(&[0x29, 0x02]).unwrap();
    assert_eq!(op.OpCode, IfrOpcode::End);
    assert_eq!(op.Data, None);
    assert!(!op.ScopeStart);
}

#[test]
fn operation_shorter_than_header_is_invalid() {
    assert_eq!(ifr_operation(&[0x01, 0x81]).err(), Some(ParseError::Invalid));
    assert_eq!(ifr_operation(&[0x01, 0x06, 0x00]).err(), Some(ParseError::Incomplete));
}

#[test]
fn operations_stop_at_first_undecodable() {
    let bytes = [0x01, 0x06, 0x01, 0x00, 0x02, 0x00, 0x29, 0x02, 0x29, 0x01];
    let (rest, ops) = ifr_operations(&bytes).unwrap();
    assert_eq!(ops.len(), 2);
    for op in &ops {
        assert_eq!(2 + op.payload().len(), op.Length as usize);
    }
    assert_eq!(rest, &[0x29, 0x01]);
    assert!(ifr_operations(&[0x29, 0x01]).is_err());
}

#[test]
fn fixed_record_needs_exactly_its_fields() {
    let (rest, f) = ifr_form(&[0x01, 0x00, 0x02, 0x00]).unwrap();
    assert_eq!((f.FormId, f.TitleStringId), (1, 2));
    assert!(rest.is_empty());
    assert_eq!(ifr_form(&[0x01, 0x00, 0x02]).err(), Some(ParseError::Incomplete));
}

#[test]
fn one_of_width_selected_by_flags() {
    let mut p = vec![1, 0, 2, 0, 3, 0, 4, 0, 5, 0, 0x10, 0x01];
    p.extend_from_slice(&[0x01, 0x00, 0x10, 0x00, 0x02, 0x00]);
    let (rest, v) = ifr_one_of(&p).unwrap();
    assert!(rest.is_empty());
    assert_eq!(v.MinMaxStepData16, [Some(1), Some(16), Some(2)]);
    assert_eq!(v.MinMaxStepData8, [None, None, None]);
    assert_eq!(v.MinMaxStepData32, [None, None, None]);
    assert_eq!(v.MinMaxStepData64, [None, None, None]);
    let (_, n) = ifr_numeric(&p).unwrap();
    assert_eq!(n.MinMaxStepData16, [Some(1), Some(16), Some(2)]);
    assert_eq!(n.MinMaxStepData8, [None, None, None]);
    assert_eq!(ifr_one_of(&p[..17]).err(), Some(ParseError::Incomplete));
}

#[test]
fn one_of_eight_byte_width() {
    let mut p = vec![0u8; 12];
    p[11] = 0x03;
    for k in 0..24u8 {
        p.push(k);
    }
    let (_, v) = ifr_one_of(&p).unwrap();
    assert_eq!(v.MinMaxStepData64[0], Some(u64::from_le_bytes([0, 1, 2, 3, 4, 5, 6, 7])));
    assert_eq!(v.MinMaxStepData16, [None, None, None]);
}

#[test]
fn ref_trailing_fields_follow_length() {
    let mut p: Vec<u8> = vec![1, 0, 2, 0, 3, 0, 4, 0, 5, 0, 6];
    let (_, r) = ifr_ref(&p).unwrap();
    assert_eq!((r.FormId, r.RefQuestionId, r.FormSetGuid, r.DevicePathId), (None, None, None, None));
    p.extend_from_slice(&[0x07, 0x00]);
    let (_, r) = ifr_ref(&p).unwrap();
    assert_eq!(r.FormId, Some(7));
    assert_eq!((r.RefQuestionId, r.FormSetGuid, r.DevicePathId), (None, None, None));
    assert_eq!(ifr_ref(&p[..9]).err(), Some(ParseError::Incomplete));
}

#[test]
fn type_value_shapes() {
    let (_, v) = ifr_type_value(&[0x07, 0x34, 0x12, 0xFF]).unwrap();
    assert_eq!(v, IfrTypeValue::String(0x1234));
    let (_, v) = ifr_type_value(&[0x0B, 1, 2, 3]).unwrap();
    assert_eq!(v, IfrTypeValue::Buffer(vec![1, 2, 3]));
    let (_, v) = ifr_type_value(&[0x0C, 0x05, 0x00]).unwrap();
    match v {
        IfrTypeValue::Ref(r) => {
            assert_eq!(r.QuestionId, Some(5));
            assert_eq!(r.FormId, None);
        }
        _ => panic!("expected a reference"),
    }
    assert_eq!(ifr_type_value(&[0x03, 1, 2]).err(), Some(ParseError::Incomplete));
    let (_, v) = ifr_type_value(&[0x42]).unwrap();
    assert_eq!(v, IfrTypeValue::Unknown(0x42));
}

#[test]
fn one_of_option_with_action_value() {
    let (_, o) = ifr_one_of_option(&[0x09, 0x00, 0x10, 0x0A, 0x22, 0x00]).unwrap();
    assert_eq!(o.OptionStringId, 9);
    assert_eq!(o.Flags, 0x10);
    assert_eq!(o.Value, IfrTypeValue::Action(0x22));
}

#[test]
fn var_store_efi_optional_name() {
    let mut p = vec![0x01, 0x00];
    p.extend_from_slice(&[0u8; 16]);
    p.extend_from_slice(&[7, 0, 0, 0]);
    let (_, v) = ifr_var_store_efi(&p).unwrap();
    assert_eq!((v.Size, v.Name.clone()), (None, None));
    p.extend_from_slice(&[0x10, 0x00, b'S', b'e', b't', b'u', b'p', 0x00]);
    let (rest, v) = ifr_var_store_efi(&p).unwrap();
    assert_eq!(v.Size, Some(0x10));
    assert_eq!(v.Name, Some(String::from("Setup")));
    assert!(rest.is_empty());
}

#[test]
fn guid_extension_banner() {
    let mut p = vec![0x35, 0x17, 0x0b, 0x0f, 0xa0, 0x87, 0x93, 0x41, 0xb2, 0x66, 0x53, 0x8c, 0x38, 0xaf, 0x48, 0xce];
    p.extend_from_slice(&[0x01, 0x05, 0x00, 0x01, 0x00, 0x02]);
    let (_, g) = ifr_guid(&p).unwrap();
    assert_eq!(g.Guid.to_string(), "0F0B1735-87A0-4193-B266-538C38AF48CE");
    let (_, e) = ifr_guid_edk2(g.Data).unwrap();
    assert_eq!(e.ExtendedOpCode, IfrEdk2ExtendOpCode::Banner);
    assert_eq!(e.Data.len(), 5);
}

#[test]
fn package_envelope_splits_length_and_type() {
    let p = string_package(&OK_BLOCKS);
    let (rest, pkg) = hii_package(&p).unwrap();
    assert!(rest.is_empty());
    assert_eq!(pkg.Length as usize, p.len());
    assert_eq!(pkg.Type, HiiPackageType::Strings);
    assert_eq!(pkg.Data.unwrap().len(), p.len() - 4);
    assert_eq!(hii_package(&[0x03, 0x00, 0x00, 0x04]).err(), Some(ParseError::Invalid));
    assert_eq!(hii_package(&[0x10, 0x00, 0x00, 0x04]).err(), Some(ParseError::Incomplete));
}

#[test]
fn minimal_string_table() {
    let p = string_package(&OK_BLOCKS);
    let (_, cand) = hii_string_package_candidate(&p).unwrap();
    assert_eq!(cand.len(), p.len());
    let (_, pkg) = hii_package(cand).unwrap();
    let (_, sp) = hii_string_package(pkg.Data.unwrap()).unwrap();
    assert_eq!(sp.Language, "en-US");
    let (_, blocks) = hii_sibt_blocks(sp.Data).unwrap();
    assert_eq!(blocks.len(), 2);
    assert_eq!(blocks[0].Type, HiiSibtType::StringUcs2);
    assert_eq!(blocks[1].Type, HiiSibtType::End);
    let map = string_id_map(&blocks);
    assert_eq!(map.len(), 2);
    assert_eq!(map.get(0), Some(&String::new()));
    assert_eq!(map.get(1), Some(&String::from("OK")));
}

#[test]
fn unresolvable_reference_renders_placeholder() {
    let p = string_package(&OK_BLOCKS);
    let (_, cand) = hii_string_package_candidate(&p).unwrap();
    let (_, pkg) = hii_package(cand).unwrap();
    let (_, sp) = hii_string_package(pkg.Data.unwrap()).unwrap();
    let (_, blocks) = hii_sibt_blocks(sp.Data).unwrap();
    let map = string_id_map(&blocks);
    assert_eq!(map.get(99), None);
    assert_eq!(map.text_or_invalid(99), "InvalidId");
    assert_eq!(map.text_or_invalid(1), "OK");
}

#[test]
fn skip2_block_advances_by_little_endian_count() {
    let mut st = StringIdReduction::new();
    let data = [0x05u8, 0x01];
    st.step(&HiiSibtBlock { Type: HiiSibtType::Skip2, Data: Some(&data) });
    assert_eq!(st.next_id, 1 + 261);
    assert_eq!(st.map.len(), 1);
}

#[test]
fn string_ids_increase_across_blocks() {
    let blocks = [
        0x14, b'A', 0x00, 0x00, 0x00, // StringUcs2 "A"
        0x22, 0x03, // Skip1 by 3
        0x20, 0x00, 0x00, // Duplicate
        0x12, 0x02, 0x00, b'x', 0x00, b'y', 0x00, // StringsScsu "x", "y"
        0x00,
    ];
    let p = string_package(&blocks);
    let (_, pkg) = hii_package(&p).unwrap();
    let (_, sp) = hii_string_package(pkg.Data.unwrap()).unwrap();
    let (rest, v) = hii_sibt_blocks(sp.Data).unwrap();
    assert!(rest.is_empty());
    let map = string_id_map(&v);
    let ids: Vec<u16> = map.entries.iter().map(|e| e.0).collect();
    assert_eq!(ids, vec![0, 1, 6, 7]);
    assert_eq!(map.text_or_invalid(6), "x");
    assert_eq!(map.text_or_invalid(7), "y");
    assert_eq!(map.text_or_invalid(2), "InvalidId");
}

#[test]
fn font_variant_blocks_include_font_byte() {
    let data = [0x13, 0x07, 0x02, 0x00, b'a', 0x00, b'b', 0x00, 0x00];
    let (rest, b) = hii_sibt_block(&data).unwrap();
    assert_eq!(b.Type, HiiSibtType::StringsScsuFont);
    assert_eq!(b.Data.unwrap().len(), 7);
    assert_eq!(rest, &[0x00]);
    let (_, v) = sibt_strings_scsu_font(b.Data.unwrap()).unwrap();
    assert_eq!(v, vec![String::from("a"), String::from("b")]);
}

#[test]
fn unknown_block_type_is_invalid() {
    assert_eq!(hii_sibt_block(&[0x40, 0x00]).err(), Some(ParseError::Invalid));
    assert_eq!(hii_sibt_block(&[0x14, b'A', 0x00]).err(), Some(ParseError::Incomplete));
    assert!(hii_sibt_blocks(&[0x40]).is_err());
}

#[test]
fn ucs2_string_decodes_units() {
    let (rest, s) = sibt_string_ucs2(&[0x48, 0x00, 0xE9, 0x00, 0x00, 0x00, 0x01]).unwrap();
    assert_eq!(s, "H\u{e9}");
    assert_eq!(rest, &[0x01]);
    assert!(sibt_string_ucs2(&[0x48, 0x00, 0x00]).is_err());
}

#[test]
fn whole_buffer_scan_finds_both_kinds() {
    let mut data = vec![0xFFu8; 3];
    data.extend_from_slice(&string_package(&OK_BLOCKS));
    data.extend_from_slice(&[0x00, 0x12]);
    let form_at = data.len();
    data.extend_from_slice(&form_package());
    data.extend_from_slice(&[0x55; 5]);
    let (strings, forms) = uefi_find_string_and_form_packages(&data);
    assert_eq!(strings.len(), 1);
    assert_eq!(strings[0].offset, 3);
    assert_eq!(strings[0].length, 60);
    assert_eq!(strings[0].language, "en-US");
    assert_eq!(strings[0].string_id_map.text_or_invalid(1), "OK");
    assert_eq!(forms.len(), 1);
    assert_eq!(forms[0].offset, form_at);
    assert_eq!(forms[0].length, 36);
    assert_eq!(forms[0].used_strings, 2);
    assert_eq!((forms[0].min_string_id, forms[0].max_string_id), (0, 1));
}

#[test]
fn scanning_twice_gives_same_packages() {
    let mut data = string_package(&OK_BLOCKS);
    data.extend_from_slice(&form_package());
    let (s1, f1) = uefi_find_string_and_form_packages(&data);
    let (s2, f2) = uefi_find_string_and_form_packages(&data);
    assert_eq!(f1, f2);
    assert_eq!(s1.len(), s2.len());
    for (a, b) in s1.iter().zip(s2.iter()) {
        assert_eq!((a.offset, a.length, &a.language), (b.offset, b.length, &b.language));
        assert_eq!(a.string_id_map.entries, b.string_id_map.entries);
    }
}

#[test]
fn scan_without_forms_keeps_string_tables() {
    let data = string_package(&OK_BLOCKS);
    let (strings, forms) = uefi_find_string_and_form_packages(&data);
    assert_eq!(strings.len(), 1);
    assert_eq!(strings[0].string_id_map.text_or_invalid(1), "OK");
    assert!(forms.is_empty());
    assert!(hii_form_package_candidate(&data).is_err());
}

#[test]
fn scan_without_strings_keeps_forms() {
    let (strings, forms) = uefi_find_string_and_form_packages(&form_package());
    assert!(strings.is_empty());
    assert_eq!(forms.len(), 1);
    assert_eq!(forms[0].used_strings, 2);
}

#[test]
fn end_block_has_no_data() {
    let (_, blocks) = hii_sibt_blocks(&OK_BLOCKS).unwrap();
    assert_eq!(blocks[1].Type, HiiSibtType::End);
    assert_eq!(blocks[1].Data, None);
    assert_eq!(blocks[0].Data, Some(&OK_BLOCKS[1..7]));
}

#[test]
fn var_eq_name_reference_is_little_endian() {
    let guid = [0x1a, 0x5d, 0xca, 0x31, 0x11, 0xd5, 0x31, 0x49, 0xb7, 0x82, 0xae, 0x6b, 0x2b, 0x17, 0x8c, 0xd7];
    let mut ops = vec![0x0E, 0x80 | 22];
    ops.extend_from_slice(&[0x11; 16]);
    ops.extend_from_slice(&[0x01, 0x00, 0x00, 0x00]);
    ops.extend_from_slice(&[0x5F, 2 + 16 + 5]);
    ops.extend_from_slice(&guid);
    ops.extend_from_slice(&[0x01, 0x00, 0x00, 0x00, 0x01]);
    ops.extend_from_slice(&[0x29, 0x02]);
    let mut data = Vec::new();
    data.extend_from_slice(&le32((4 + ops.len()) as u32 | 0x0200_0000));
    data.extend_from_slice(&ops);
    let (_, forms) = uefi_find_string_and_form_packages(&data);
    assert_eq!(forms.len(), 1);
    assert_eq!((forms[0].min_string_id, forms[0].max_string_id), (0, 256));
}
