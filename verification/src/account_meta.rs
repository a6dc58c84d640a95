//! Metadata for one account referenced by a transaction instruction: its
//! public key, an optional index into an address lookup table, and
//! whether the account signs or may be written. Equality compares every
//! field.
//!
//! The record travels as a dictionary; `from_fields` and `to_fields`
//! carry the conversion logic over a plain key/value list, so the host
//! process only turns its own dictionary type into that list at the
//! edge.

use vstd::prelude::*;

verus! {


/// A dictionary field's value, reduced to the shapes the record reads;
/// every other kind a dictionary can hold reads as `Other`.
pub enum FieldValue {
    Str(String),
    Bool(bool),
    UInt(u64),
    Other,
}

/// One key/value entry of the record's dictionary form.
pub struct Field {
    pub key: String,
    pub value: FieldValue,
}

/// The first value stored under `key`, scanning in order.
pub open spec fn lookup_from(fields: Seq<Field>, key: Seq<char>, i: int) -> Option<FieldValue>
    decreases fields.len() - i,
    when 0 <= i <= fields.len()
{
    if i >= fields.len() {
        None
    } else if fields[i].key@ == key {
        Some(fields[i].value)
    } else {
        lookup_from(fields, key, i + 1)
    }
}

pub open spec fn lookup(fields: Seq<Field>, key: Seq<char>) -> Option<FieldValue> {
    lookup_from(fields, key, 0)
}

fn find(fields: &Vec<Field>, key: &String) -> (r: Option<usize>)
    ensures
        match r {
            Some(i) => i < fields@.len() && lookup(fields@, key@) == Some(
                fields@[i as int].value,
            ),
            None => lookup(fields@, key@) is None,
        },
{
    let mut i: usize = 0;
    while i < fields.len()
        invariant
            0 <= i <= fields@.len(),
            lookup(fields@, key@) == lookup_from(fields@, key@, i as int),
        decreases fields@.len() - i,
    {
        if fields[i].key == *key {
            return Some(i);
        }
        i = i + 1;
    }
    None
}

/// The dictionary shapes `from_fields` accepts: a string public key,
/// boolean markers, and a lookup index that is absent or an unsigned
/// number.
pub open spec fn fields_wf(fields: Seq<Field>) -> bool {
    &&& lookup(fields, "pubkey"@) matches Some(FieldValue::Str(p))
    &&& lookup(fields, "is_signer"@) matches Some(FieldValue::Bool(b))
    &&& lookup(fields, "is_writable"@) matches Some(FieldValue::Bool(b))
    &&& match lookup(fields, "address_table_lookup_index"@) {
        Some(FieldValue::UInt(u)) => true,
        Some(v) => false,
        None => true,
    }
}

impl SolanaAccountMeta {
    /// Reads the record out of its dictionary form: `Some` exactly on
    /// well-formed dictionaries, taking each field from its named entry
    /// (the lookup index truncates to its low byte, as the wire format
    /// demands).
    pub fn from_fields(fields: &Vec<Field>) -> (r: Option<SolanaAccountMeta>)
        ensures
            r is Some <==> fields_wf(fields@),
            r matches Some(m) ==> {
                &&& lookup(fields@, "pubkey"@) matches Some(FieldValue::Str(p)) && m.pubkey@
                    == p@
                &&& lookup(fields@, "is_signer"@) == Some(FieldValue::Bool(m.is_signer))
                &&& lookup(fields@, "is_writable"@) == Some(FieldValue::Bool(m.is_writable))
                &&& match lookup(fields@, "address_table_lookup_index"@) {
                    Some(FieldValue::UInt(u)) => m.address_table_lookup_index == Some(
                        u as u8,
                    ),
                    None => m.address_table_lookup_index is None,
                    Some(v) => false,
                }
            },
    {
        let key = "pubkey".to_owned();
        let pubkey: String = match find(fields, &key) {
            Some(i) => match &fields[i].value {
                FieldValue::Str(p) => p.clone(),
                _ => {
                    return None;
                },
            },
            None => {
                return None;
            },
        };
        let key = "is_signer".to_owned();
        let is_signer: bool = match find(fields, &key) {
            Some(i) => match &fields[i].value {
                FieldValue::Bool(b) => *b,
                _ => {
                    return None;
                },
            },
            None => {
                return None;
            },
        };
        let key = "is_writable".to_owned();
        let is_writable: bool = match find(fields, &key) {
            Some(i) => match &fields[i].value {
                FieldValue::Bool(b) => *b,
                _ => {
                    return None;
                },
            },
            None => {
                return None;
            },
        };
        let key = "address_table_lookup_index".to_owned();
        let address_table_lookup_index: Option<u8> = match find(fields, &key) {
            Some(i) => match &fields[i].value {
                FieldValue::UInt(u) => {
                    #[verifier::truncate]
                    let b: u8 = *u as u8;
                    Some(b)
                },
                _ => {
                    return None;
                },
            },
            None => None,
        };
        Some(SolanaAccountMeta { pubkey, address_table_lookup_index, is_signer, is_writable })
    }

    /// Writes the record into its dictionary form: the three fixed
    /// entries in order, then the lookup index only when it is set.
    pub fn to_fields(&self) -> (r: Vec<Field>)
        ensures
            r@.len() == if self.address_table_lookup_index is Some {
                4int
            } else {
                3int
            },
            r@[0].key@ == "pubkey"@ && (r@[0].value matches FieldValue::Str(p) && p@
                == self.pubkey@),
            r@[1].key@ == "is_signer"@ && r@[1].value == FieldValue::Bool(self.is_signer),
            r@[2].key@ == "is_writable"@ && r@[2].value == FieldValue::Bool(
                self.is_writable,
            ),
            self.address_table_lookup_index matches Some(ix) ==> r@[3].key@
                == "address_table_lookup_index"@ && r@[3].value == FieldValue::UInt(
                ix as u64,
            ),
    {
        let mut out: Vec<Field> = Vec::new();
        out.push(
            Field { key: "pubkey".to_owned(), value: FieldValue::Str(self.pubkey.clone()) },
        );
        out.push(
            Field { key: "is_signer".to_owned(), value: FieldValue::Bool(self.is_signer) },
        );
        out.push(
            Field {
                key: "is_writable".to_owned(),
                value: FieldValue::Bool(self.is_writable),
            },
        );
        match self.address_table_lookup_index {
            Some(ix) => {
                out.push(
                    Field {
                        key: "address_table_lookup_index".to_owned(),
                        value: FieldValue::UInt(ix as u64),
                    },
                );
            },
            None => {},
        }
        out
    }
}


/// A list shaped as `to_fields` writes it reads back as the same record:
/// each named lookup finds its entry, and the list is well formed, so
/// `from_fields` on it returns `Some` with the original field values.
pub proof fn lemma_fields_round_trip(
    fields: Seq<Field>,
    pubkey: Seq<char>,
    is_signer: bool,
    is_writable: bool,
    index: Option<u8>,
)
    requires
        fields.len() == if index is Some {
            4int
        } else {
            3int
        },
        fields[0].key@ == "pubkey"@,
        fields[0].value matches FieldValue::Str(p) && p@ == pubkey,
        fields[1].key@ == "is_signer"@,
        fields[1].value == FieldValue::Bool(is_signer),
        fields[2].key@ == "is_writable"@,
        fields[2].value == FieldValue::Bool(is_writable),
        index matches Some(ix) ==> fields[3].key@ == "address_table_lookup_index"@
            && fields[3].value == FieldValue::UInt(ix as u64),
    ensures
        fields_wf(fields),
        lookup(fields, "pubkey"@) == Some(fields[0].value),
        lookup(fields, "is_signer"@) == Some(FieldValue::Bool(is_signer)),
        lookup(fields, "is_writable"@) == Some(FieldValue::Bool(is_writable)),
        match index {
            Some(ix) => lookup(fields, "address_table_lookup_index"@) == Some(
                FieldValue::UInt(ix as u64),
            ),
            None => lookup(fields, "address_table_lookup_index"@) is None,
        },
{
    reveal_strlit("pubkey");
    reveal_strlit("is_signer");
    reveal_strlit("is_writable");
    reveal_strlit("address_table_lookup_index");
    // The four keys have four different lengths, so no lookup stops at
    // another key's entry.
    assert("pubkey"@.len() == 6);
    assert("is_signer"@.len() == 9);
    assert("is_writable"@.len() == 11);
    assert("address_table_lookup_index"@.len() == 26);
    assert(lookup_from(fields, "is_signer"@, 0) == lookup_from(fields, "is_signer"@, 1));
    assert(lookup_from(fields, "is_writable"@, 1) == lookup_from(fields, "is_writable"@, 2));
    assert(lookup_from(fields, "is_writable"@, 0) == lookup_from(fields, "is_writable"@, 1));
    assert(lookup_from(fields, "address_table_lookup_index"@, 2) == lookup_from(
        fields,
        "address_table_lookup_index"@,
        3,
    ));
    assert(lookup_from(fields, "address_table_lookup_index"@, 1) == lookup_from(
        fields,
        "address_table_lookup_index"@,
        2,
    ));
    assert(lookup_from(fields, "address_table_lookup_index"@, 0) == lookup_from(
        fields,
        "address_table_lookup_index"@,
        1,
    ));
}

#[derive(Debug)]
pub struct SolanaAccountMeta {
    pub pubkey: String,
    pub address_table_lookup_index: Option<u8>,
    pub is_signer: bool,
    pub is_writable: bool,
}

impl PartialEq for SolanaAccountMeta {
    fn eq(&self, other: &Self) -> (r: bool) {
        self.pubkey == other.pubkey && self.address_table_lookup_index
            == other.address_table_lookup_index && self.is_signer == other.is_signer
            && self.is_writable == other.is_writable
    }
}

impl vstd::std_specs::cmp::PartialEqSpecImpl for SolanaAccountMeta {
    open spec fn obeys_eq_spec() -> bool {
        true
    }

    open spec fn eq_spec(&self, other: &Self) -> bool {
        &&& self.pubkey@ == other.pubkey@
        &&& self.address_table_lookup_index == other.address_table_lookup_index
        &&& self.is_signer == other.is_signer
        &&& self.is_writable == other.is_writable
    }
}

} // verus!
