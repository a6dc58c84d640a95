use glyf_scaler::account_meta::SolanaAccountMeta;

fn meta(pubkey: &str, index: Option<u8>, is_signer: bool, is_writable: bool) -> SolanaAccountMeta {
    SolanaAccountMeta {
        pubkey: pubkey.to_string(),
        address_table_lookup_index: index,
        is_signer,
        is_writable,
    }
}

#[test]
fn equality_compares_every_field() {
    let a = meta("8Jq6Yr", Some(3), true, false);
    assert!(a == meta("8Jq6Yr", Some(3), true, false));
    assert!(a != meta("8Jq6Yz", Some(3), true, false));
    assert!(a != meta("8Jq6Yr", None, true, false));
    assert!(a != meta("8Jq6Yr", Some(3), false, false));
    assert!(a != meta("8Jq6Yr", Some(3), true, true));
}

use glyf_scaler::account_meta::{Field, FieldValue};

fn field(key: &str, value: FieldValue) -> Field {
    Field { key: key.to_string(), value }
}

fn record_fields(index: Option<u64>) -> Vec<Field> {
    let mut fields = vec![
        field("pubkey", FieldValue::Str("8Jq6Yr".to_string())),
        field("is_signer", FieldValue::Bool(true)),
        field("is_writable", FieldValue::Bool(false)),
    ];
    if let Some(ix) = index {
        fields.push(field("address_table_lookup_index", FieldValue::UInt(ix)));
    }
    fields
}

#[test]
fn from_fields_reads_every_entry() {
    let m = SolanaAccountMeta::from_fields(&record_fields(Some(3))).unwrap();
    assert!(m == meta("8Jq6Yr", Some(3), true, false));
    let m = SolanaAccountMeta::from_fields(&record_fields(None)).unwrap();
    assert!(m == meta("8Jq6Yr", None, true, false));
}

#[test]
fn from_fields_truncates_large_indices() {
    let m = SolanaAccountMeta::from_fields(&record_fields(Some(0x1_04))).unwrap();
    assert_eq!(m.address_table_lookup_index, Some(4));
}

#[test]
fn from_fields_rejects_missing_or_misshapen_entries() {
    let mut fields = record_fields(None);
    fields.remove(0);
    assert!(SolanaAccountMeta::from_fields(&fields).is_none());

    let mut fields = record_fields(None);
    fields[1] = field("is_signer", FieldValue::UInt(1));
    assert!(SolanaAccountMeta::from_fields(&fields).is_none());

    let mut fields = record_fields(None);
    fields[0] = field("pubkey", FieldValue::Other);
    assert!(SolanaAccountMeta::from_fields(&fields).is_none());

    let mut fields = record_fields(None);
    fields.push(field("address_table_lookup_index", FieldValue::Bool(true)));
    assert!(SolanaAccountMeta::from_fields(&fields).is_none());
}

#[test]
fn fields_round_trip() {
    let original = meta("8Jq6Yr", Some(7), true, false);
    let back = SolanaAccountMeta::from_fields(&original.to_fields()).unwrap();
    assert!(back == original);
    let original = meta("", None, false, true);
    let back = SolanaAccountMeta::from_fields(&original.to_fields()).unwrap();
    assert!(back == original);
}
