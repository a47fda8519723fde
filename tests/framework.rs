use ifrextractor::bytes::ParseError;
use ifrextractor::framework_parser::{
    hii_form_package_candidate, hii_package, hii_string_package, hii_string_package_candidate,
    ifr_eq_id_list, ifr_form_set, ifr_numeric, ifr_operation, ifr_operations, ifr_var_store,
    string_ascii, string_ucs2, HiiPackageType, IfrOpcode,
};
use ifrextractor::layout::{framework_scope_depths, uefi_scope_depths};
use ifrextractor::scan::{framework_find_string_and_form_packages, framework_string_table};

fn ucs2(s: &str) -> Vec<u8> {
    let mut v = Vec::new();
    for u in s.encode_utf16() {
        v.extend_from_slice(&u.to_le_bytes());
    }
    v.extend_from_slice(&[0, 0]);
    v
}

/// A Framework string package holding "eng" (the language name) and "Hi".
fn string_package() -> Vec<u8> {
    let mut payload = Vec::new();
    payload.extend_from_slice(&0x20u32.to_le_bytes());
    payload.extend_from_slice(&0x20u32.to_le_bytes());
    payload.extend_from_slice(&2u32.to_le_bytes());
    payload.extend_from_slice(&0u32.to_le_bytes());
    payload.extend_from_slice(&0x20u32.to_le_bytes());
    payload.extend_from_slice(&0x28u32.to_le_bytes());
    payload.extend_from_slice(&ucs2("eng"));
    payload.extend_from_slice(&ucs2("Hi"));
    let mut p = Vec::new();
    p.extend_from_slice(&((6 + payload.len()) as u32).to_le_bytes());
    p.extend_from_slice(&2u16.to_le_bytes());
    p.extend_from_slice(&payload);
    p
}

/// A Framework form package: a form set, a form, EndForm and EndFormSet.
fn form_package() -> Vec<u8> {
    let mut ops = vec![0x0E, 36];
    ops.extend_from_slice(&[0x22; 16]);
    ops.extend_from_slice(&[0x00, 0x00, 0x01, 0x00]);
    ops.extend_from_slice(&[0u8; 14]);
    ops.extend_from_slice(&[0x01, 0x06, 0x01, 0x00, 0x01, 0x00]);
    ops.extend_from_slice(&[0x0B, 0x02, 0x0D, 0x02]);
    let mut p = Vec::new();
    p.extend_from_slice(&((6 + ops.len()) as u32).to_le_bytes());
    p.extend_from_slice(&3u16.to_le_bytes());
    p.extend_from_slice(&ops);
    p
}

#[test]
fn framework_package_envelope() {
    let p = string_package();
    let (rest, pkg) = hii_package(&p).unwrap();
    assert!(rest.is_empty());
    assert_eq!(pkg.Length, p.len());
    assert_eq!(pkg.Type, HiiPackageType::String);
    assert_eq!(hii_package(&[5, 0, 0, 0, 2, 0]).err(), Some(ParseError::Invalid));
}

#[test]
fn framework_string_package_and_language() {
    let p = string_package();
    let (_, cand) = hii_string_package_candidate(&p).unwrap();
    let (_, pkg) = hii_package(cand).unwrap();
    let (_, sp) = hii_string_package(pkg.Data.unwrap()).unwrap();
    assert_eq!(sp.NumStringPointers, 2);
    assert_eq!(sp.StringPointers, vec![0x20, 0x28]);
    assert_eq!(sp.Strings, vec![String::from("eng"), String::from("Hi")]);
    let (language, table) = framework_string_table(&sp);
    assert_eq!(language, "eng");
    assert_eq!(table.text_or_invalid(0), "eng");
    assert_eq!(table.text_or_invalid(1), "Hi");
    assert_eq!(table.text_or_invalid(2), "InvalidId");
}

#[test]
fn framework_string_package_without_language_name() {
    let mut payload = Vec::new();
    for w in [0x99u32, 0, 1, 0, 0x14] {
        payload.extend_from_slice(&w.to_le_bytes());
    }
    payload.extend_from_slice(&ucs2("x"));
    let (_, sp) = hii_string_package(&payload).unwrap();
    let (language, _) = framework_string_table(&sp);
    assert_eq!(language, "Invalid");
    assert!(hii_string_package(&payload[..payload.len() - 1]).is_err());
}

#[test]
fn framework_operation_keeps_full_length_byte() {
    let (_, op) = ifr_operation(&[0x0D, 0x02]).unwrap();
    assert_eq!(op.OpCode, IfrOpcode::EndFormSet);
    assert_eq!(op.Length, 2);
    assert_eq!(ifr_operation(&[0x0D, 0x01]).err(), Some(ParseError::Invalid));
    assert!(ifr_operation(&[0x0D, 0x82]).is_err());
}

#[test]
fn framework_fixed_records() {
    let mut p = vec![0x05, 0x00, 0x02, 0x10, 0x00, 0x11, 0x00, 0x00, 0x01, 0x00];
    p.extend_from_slice(&[1, 0, 100, 0, 1, 0, 50, 0]);
    let (rest, n) = ifr_numeric(&p).unwrap();
    assert!(rest.is_empty());
    assert_eq!((n.QuestionId, n.Width, n.PromptStringId, n.HelpStringId), (5, 2, 0x10, 0x11));
    assert_eq!((n.Min, n.Max, n.Step, n.Default), (1, 100, 1, 50));
    assert_eq!(ifr_numeric(&p[..17]).err(), Some(ParseError::Incomplete));
    let fs = form_package();
    let (_, f) = ifr_form_set(&fs[8..42]).unwrap();
    assert_eq!((f.TitleStringId, f.HelpStringId), (0, 1));
}

#[test]
fn framework_eq_id_list_counts_values() {
    let (rest, l) = ifr_eq_id_list(&[0x01, 0x00, 0x02, 0x02, 0x00, 0x0A, 0x00, 0x0B, 0x00]).unwrap();
    assert!(rest.is_empty());
    assert_eq!(l.ListLength, 2);
    assert_eq!(l.List, vec![10, 11]);
    assert!(ifr_eq_id_list(&[0x01, 0x00, 0x02, 0x02, 0x00, 0x0A]).is_err());
}

#[test]
fn framework_var_store_name() {
    let mut p = vec![0u8; 16];
    p.extend_from_slice(&[0x01, 0x00, 0x20, 0x00]);
    p.extend_from_slice(b"Setup\0");
    let (rest, v) = ifr_var_store(&p).unwrap();
    assert!(rest.is_empty());
    assert_eq!((v.VarStoreId, v.Size), (1, 0x20));
    assert_eq!(v.Name, "Setup");
    assert!(ifr_var_store(&p[..24]).is_err());
    assert_eq!(string_ascii(b"ab\0c").unwrap(), (&b"c"[..], String::from("ab")));
    assert_eq!(string_ucs2(&ucs2("zz")).unwrap().1, "zz");
}

#[test]
fn framework_scan_finds_both_kinds() {
    let mut data = vec![0x00u8; 2];
    data.extend_from_slice(&string_package());
    let form_at = data.len();
    data.extend_from_slice(&form_package());
    let (strings, forms) = framework_find_string_and_form_packages(&data);
    assert_eq!(strings.len(), 1);
    assert_eq!(strings[0].offset, 2);
    assert_eq!(strings[0].language, "eng");
    assert_eq!(strings[0].string_id_map.len(), 2);
    assert_eq!(forms.len(), 1);
    assert_eq!(forms[0].offset, form_at);
    assert_eq!(forms[0].length, 52);
    assert_eq!(forms[0].used_strings, 2);
    assert_eq!((forms[0].min_string_id, forms[0].max_string_id), (0, 1));
    assert!(hii_form_package_candidate(&data[form_at..]).is_ok());
}

#[test]
fn framework_depths_open_at_form_and_form_set() {
    let fs = form_package();
    let (_, ops) = ifr_operations(&fs[6..]).unwrap();
    assert_eq!(framework_scope_depths(&ops), vec![0, 1, 1, 0]);
}

#[test]
fn uefi_depths_follow_scope_bit() {
    let bytes = [0x0E, 0x82, 0x01, 0x82, 0x02, 0x02, 0x29, 0x02, 0x29, 0x02];
    let (_, ops) = ifrextractor::uefi_parser::ifr_operations(&bytes).unwrap();
    assert_eq!(uefi_scope_depths(&ops), vec![0, 1, 2, 1, 0]);
}

#[test]
fn framework_scan_without_forms_keeps_string_tables() {
    let (strings, forms) = framework_find_string_and_form_packages(&string_package());
    assert_eq!(strings.len(), 1);
    assert_eq!(strings[0].language, "eng");
    assert!(forms.is_empty());
}
