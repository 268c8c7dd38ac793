use vstd::prelude::*;
use vstd::array::ArrayAdditionalExecFns;
use crate::address::Address;
use crate::vault::Vault;

verus! {

/// The fixed header tag that opens every persisted vault record.
pub open spec fn record_tag() -> Seq<u8> {
    seq![118u8, 97u8, 117u8, 108u8, 116u8, 114u8, 101u8, 99u8]
}

/// The fixed-size persisted layout of a vault record: header tag, authority
/// bytes, custody-account bytes, bump — 73 bytes in that order, never resized.
pub open spec fn spec_encode_vault(rec: Vault) -> Seq<u8> {
    record_tag() + rec.authority@ + rec.token_account@ + seq![rec.bump]
}

/// Every encoded record is exactly 73 bytes.
pub proof fn lemma_encode_len(rec: Vault)
    ensures
        spec_encode_vault(rec).len() == 73,
{
}

/// Serialize a record into its persisted layout.
pub fn encode_vault(rec: &Vault) -> (r: Vec<u8>)
    ensures
        r@ == spec_encode_vault(*rec),
{
    let mut r: Vec<u8> = Vec::new();
    r.push(118);
    r.push(97);
    r.push(117);
    r.push(108);
    r.push(116);
    r.push(114);
    r.push(101);
    r.push(99);
    proof {
        assert(r@ =~= record_tag() + rec.authority@.take(0));
    }
    let mut i: usize = 0;
    while i < 32
        invariant
            i <= 32,
            r@ == record_tag() + rec.authority@.take(i as int),
        decreases 32 - i,
    {
        r.push(rec.authority.bytes[i]);
        proof {
            assert(r@ =~= record_tag() + rec.authority@.take(i as int + 1));
        }
        i += 1;
    }
    proof {
        assert(rec.authority@.take(32) =~= rec.authority@);
        assert(r@ =~= (record_tag() + rec.authority@) + rec.token_account@.take(0));
    }
    let mut i: usize = 0;
    while i < 32
        invariant
            i <= 32,
            r@ == (record_tag() + rec.authority@) + rec.token_account@.take(i as int),
        decreases 32 - i,
    {
        r.push(rec.token_account.bytes[i]);
        proof {
            assert(r@ =~= (record_tag() + rec.authority@) + rec.token_account@.take(i as int + 1));
        }
        i += 1;
    }
    r.push(rec.bump);
    proof {
        assert(rec.token_account@.take(32) =~= rec.token_account@);
        assert(r@ =~= spec_encode_vault(*rec));
    }
    r
}

/// Parse a persisted record. Succeeds exactly on the byte strings that
/// `spec_encode_vault` produces, and returns the one record they encode.
pub fn decode_vault(bytes: &Vec<u8>) -> (r: Option<Vault>)
    ensures
        match r {
            Some(rec) => bytes@ == spec_encode_vault(rec),
            None => forall|rec: Vault| bytes@ != spec_encode_vault(rec),
        },
{
    if bytes.len() != 73 {
        proof {
            assert forall|rec: Vault| bytes@ != spec_encode_vault(rec) by {
                lemma_encode_len(rec);
            }
        }
        return None;
    }
    let mut i: usize = 0;
    while i < 8
        invariant
            i <= 8,
            bytes@.len() == 73,
            forall|j: int| 0 <= j < i ==> bytes@[j] == record_tag()[j],
        decreases 8 - i,
    {
        let expected: u8 = if i == 0 {
            118
        } else if i == 1 {
            97
        } else if i == 2 {
            117
        } else if i == 3 {
            108
        } else if i == 4 {
            116
        } else if i == 5 {
            114
        } else if i == 6 {
            101
        } else {
            99
        };
        proof {
            assert(record_tag()[i as int] == expected);
        }
        if bytes[i] != expected {
            proof {
                assert forall|rec: Vault| bytes@ != spec_encode_vault(rec) by {
                    assert(spec_encode_vault(rec)[i as int] == record_tag()[i as int]);
                }
            }
            return None;
        }
        i += 1;
    }
    let mut auth: [u8; 32] = [0; 32];
    let mut i: usize = 0;
    while i < 32
        invariant
            i <= 32,
            bytes@.len() == 73,
            forall|j: int| 0 <= j < i ==> auth@[j] == bytes@[8 + j],
        decreases 32 - i,
    {
        auth.set(i, bytes[8 + i]);
        i += 1;
    }
    let mut tok: [u8; 32] = [0; 32];
    let mut i: usize = 0;
    while i < 32
        invariant
            i <= 32,
            bytes@.len() == 73,
            forall|j: int| 0 <= j < i ==> tok@[j] == bytes@[40 + j],
        decreases 32 - i,
    {
        tok.set(i, bytes[40 + i]);
        i += 1;
    }
    let bump = bytes[72];
    let rec = Vault {
        authority: Address { bytes: auth },
        token_account: Address { bytes: tok },
        bump,
    };
    proof {
        assert(bytes@ =~= spec_encode_vault(rec));
    }
    Some(rec)
}

} // verus!
