use vstd::prelude::*;

use vstd::bytes::{
    lemma_auto_spec_u32_to_from_le_bytes, lemma_auto_spec_u64_to_from_le_bytes,
    spec_u32_from_le_bytes, spec_u32_to_le_bytes, spec_u64_from_le_bytes, spec_u64_to_le_bytes,
    u32_from_le_bytes, u32_to_le_bytes, u64_from_le_bytes, u64_to_le_bytes,
};
use vstd::slice::{slice_subrange, slice_to_vec};

use crate::campaign::{CampaignRecord, CampaignView, WithdrawRequest};
use crate::pubkey::Pubkey;

verus! {

// The wire format is deterministic and positional: a campaign record is the
// 32 admin-key bytes, then each byte string with a 32-bit little-endian
// length prefix, then the donated amount as a 64-bit little-endian integer.
// A withdraw request is a bare 64-bit little-endian amount. Decoding demands
// that the buffer is consumed exactly: trailing bytes are malformed.

/// A byte string preceded by its 32-bit little-endian length.
pub open spec fn len_prefixed(b: Seq<u8>) -> Seq<u8>
    recommends
        b.len() <= u32::MAX,
{
    spec_u32_to_le_bytes(b.len() as u32) + b
}

/// The encoding of a campaign record: admin key, the three length-prefixed
/// byte strings, and the donated amount.
pub open spec fn encode_campaign_bytes(r: CampaignView) -> Seq<u8>
    recommends
        r.wf(),
{
    r.admin + len_prefixed(r.name) + len_prefixed(r.description) + len_prefixed(r.image_link)
        + spec_u64_to_le_bytes(r.amount_donated)
}

/// The decoding of a campaign record, `None` on any truncated, oversized, or
/// otherwise malformed buffer.
pub open spec fn decode_campaign_bytes(s: Seq<u8>) -> Option<CampaignView> {
    if s.len() < 36 {
        None
    } else {
        let admin = s.subrange(0, 32);
        let n1 = spec_u32_from_le_bytes(s.subrange(32, 36)) as int;
        if s.len() < 40 + n1 {
            None
        } else {
            let name = s.subrange(36, 36 + n1);
            let n2 = spec_u32_from_le_bytes(s.subrange(36 + n1, 40 + n1)) as int;
            if s.len() < 44 + n1 + n2 {
                None
            } else {
                let description = s.subrange(40 + n1, 40 + n1 + n2);
                let n3 = spec_u32_from_le_bytes(s.subrange(40 + n1 + n2, 44 + n1 + n2)) as int;
                if s.len() != 52 + n1 + n2 + n3 {
                    None
                } else {
                    let image_link = s.subrange(44 + n1 + n2, 44 + n1 + n2 + n3);
                    let amount_donated = spec_u64_from_le_bytes(
                        s.subrange(44 + n1 + n2 + n3, 52 + n1 + n2 + n3),
                    );
                    Some(CampaignView { admin, name, description, image_link, amount_donated })
                }
            }
        }
    }
}

/// The encoding of a withdraw request: the amount as eight little-endian
/// bytes.
pub open spec fn encode_withdraw_bytes(q: WithdrawRequest) -> Seq<u8> {
    spec_u64_to_le_bytes(q.amount)
}

/// The decoding of a withdraw request; exactly eight bytes are accepted.
pub open spec fn decode_withdraw_bytes(s: Seq<u8>) -> Option<WithdrawRequest> {
    if s.len() == 8 {
        Some(WithdrawRequest { amount: spec_u64_from_le_bytes(s) })
    } else {
        None
    }
}

/// Appends `field`, preceded by its 32-bit little-endian length, to `out`.
fn push_len_prefixed(out: &mut Vec<u8>, field: &Vec<u8>)
    requires
        field@.len() <= u32::MAX,
    ensures
        final(out)@ == old(out)@ + len_prefixed(field@),
{
    let mut prefix = u32_to_le_bytes(field.len() as u32);
    out.append(&mut prefix);
    let mut payload = slice_to_vec(field.as_slice());
    out.append(&mut payload);
    proof {
        assert(out@ =~= old(out)@ + len_prefixed(field@));
    }
}

/// Serializes a campaign record into its deterministic byte encoding.
pub fn encode_campaign(record: &CampaignRecord) -> (out: Vec<u8>)
    requires
        record.wf(),
    ensures
        out@ == encode_campaign_bytes(record@),
{
    let mut out = slice_to_vec(record.admin.bytes.as_slice());
    push_len_prefixed(&mut out, &record.name);
    push_len_prefixed(&mut out, &record.description);
    push_len_prefixed(&mut out, &record.image_link);
    let mut amount = u64_to_le_bytes(record.amount_donated);
    out.append(&mut amount);
    proof {
        assert(out@ =~= encode_campaign_bytes(record@));
    }
    out
}

/// Parses a campaign record, returning `None` instead of reading out of
/// bounds on any truncated or malformed buffer.
pub fn decode_campaign(bytes: &[u8]) -> (r: Option<CampaignRecord>)
    ensures
        (match r {
            Some(c) => decode_campaign_bytes(bytes@) == Some(c@) && c.wf(),
            None => decode_campaign_bytes(bytes@) is None,
        }),
{
    let len = bytes.len();
    if len < 36 {
        return None;
    }
    let admin = slice_to_vec(slice_subrange(bytes, 0, 32));
    let n1 = u32_from_le_bytes(slice_subrange(bytes, 32, 36)) as usize;
    if len < 40 || len - 40 < n1 {
        return None;
    }
    let name = slice_to_vec(slice_subrange(bytes, 36, 36 + n1));
    let off1 = 36 + n1;
    let n2 = u32_from_le_bytes(slice_subrange(bytes, off1, off1 + 4)) as usize;
    let off2 = off1 + 4;
    if len - off2 < 4 || len - off2 - 4 < n2 {
        return None;
    }
    let description = slice_to_vec(slice_subrange(bytes, off2, off2 + n2));
    let off3 = off2 + n2;
    let n3 = u32_from_le_bytes(slice_subrange(bytes, off3, off3 + 4)) as usize;
    let off4 = off3 + 4;
    if len - off4 < 8 || len - off4 - 8 != n3 {
        return None;
    }
    let image_link = slice_to_vec(slice_subrange(bytes, off4, off4 + n3));
    let off5 = off4 + n3;
    let amount_donated = u64_from_le_bytes(slice_subrange(bytes, off5, off5 + 8));
    let record = CampaignRecord {
        admin: Pubkey { bytes: admin },
        name,
        description,
        image_link,
        amount_donated,
    };
    proof {
        assert(decode_campaign_bytes(bytes@) == Some(record@));
    }
    Some(record)
}

/// Serializes a withdraw request into its eight-byte encoding.
pub fn encode_withdraw(request: &WithdrawRequest) -> (out: Vec<u8>)
    ensures
        out@ == encode_withdraw_bytes(*request),
{
    u64_to_le_bytes(request.amount)
}

/// Parses a withdraw request; any buffer other than exactly eight bytes is
/// malformed.
pub fn decode_withdraw(bytes: &[u8]) -> (r: Option<WithdrawRequest>)
    ensures
        r == decode_withdraw_bytes(bytes@),
{
    if bytes.len() != 8 {
        return None;
    }
    let amount = u64_from_le_bytes(bytes);
    Some(WithdrawRequest { amount })
}

/// Round-trip law: decoding the encoding of any well-formed campaign record
/// yields exactly that record.
pub proof fn lemma_campaign_round_trip(r: CampaignView)
    requires
        r.wf(),
    ensures
        decode_campaign_bytes(encode_campaign_bytes(r)) == Some(r),
{
    lemma_auto_spec_u32_to_from_le_bytes();
    lemma_auto_spec_u64_to_from_le_bytes();
    let s = encode_campaign_bytes(r);
    let n1 = r.name.len() as int;
    let n2 = r.description.len() as int;
    let n3 = r.image_link.len() as int;
    assert(s.len() == 52 + n1 + n2 + n3);
    assert(s.subrange(0, 32) =~= r.admin);
    assert(s.subrange(32, 36) =~= spec_u32_to_le_bytes(r.name.len() as u32));
    assert(s.subrange(36, 36 + n1) =~= r.name);
    assert(s.subrange(36 + n1, 40 + n1) =~= spec_u32_to_le_bytes(r.description.len() as u32));
    assert(s.subrange(40 + n1, 40 + n1 + n2) =~= r.description);
    assert(s.subrange(40 + n1 + n2, 44 + n1 + n2) =~= spec_u32_to_le_bytes(
        r.image_link.len() as u32,
    ));
    assert(s.subrange(44 + n1 + n2, 44 + n1 + n2 + n3) =~= r.image_link);
    assert(s.subrange(44 + n1 + n2 + n3, 52 + n1 + n2 + n3) =~= spec_u64_to_le_bytes(
        r.amount_donated,
    ));
    assert(decode_campaign_bytes(s) == Some(r));
}

/// Round-trip law: decoding the encoding of any withdraw request yields
/// exactly that request.
pub proof fn lemma_withdraw_round_trip(q: WithdrawRequest)
    ensures
        decode_withdraw_bytes(encode_withdraw_bytes(q)) == Some(q),
{
    lemma_auto_spec_u64_to_from_le_bytes();
}

/// Any successfully decoded campaign record is well formed, so it can be
/// re-encoded.
pub proof fn lemma_decoded_campaign_wf(s: Seq<u8>)
    ensures
        decode_campaign_bytes(s) matches Some(r) ==> r.wf(),
{
}

} // verus!
