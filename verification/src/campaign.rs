use vstd::prelude::*;

use crate::pubkey::{Pubkey, PUBKEY_LEN};

verus! {

/// The persisted record of one crowdfunding campaign, stored inside the data
/// buffer of a program-owned account.
///
/// The human-readable fields hold the UTF-8 bytes of the campaign's name,
/// description, and image link; the codec treats them as plain byte strings.
#[derive(Clone, Debug)]
pub struct CampaignRecord {
    /// The identifier of the authority allowed to administer this campaign.
    /// It never changes after creation.
    pub admin: Pubkey,
    /// The campaign's display name.
    pub name: Vec<u8>,
    /// A description of the campaign.
    pub description: Vec<u8>,
    /// A link to an image for the campaign.
    pub image_link: Vec<u8>,
    /// The running total of currency units donated so far; zero immediately
    /// after creation and non-decreasing afterwards.
    pub amount_donated: u64,
}

/// The mathematical value of a [`CampaignRecord`]: every field as a plain
/// sequence or integer.
#[verifier::ext_equal]
pub ghost struct CampaignView {
    pub admin: Seq<u8>,
    pub name: Seq<u8>,
    pub description: Seq<u8>,
    pub image_link: Seq<u8>,
    pub amount_donated: u64,
}

impl View for CampaignRecord {
    type V = CampaignView;

    open spec fn view(&self) -> CampaignView {
        CampaignView {
            admin: self.admin@,
            name: self.name@,
            description: self.description@,
            image_link: self.image_link@,
            amount_donated: self.amount_donated,
        }
    }
}

impl CampaignView {
    /// A record is well formed when its admin key has the fixed identifier
    /// size and each byte string is short enough for its 32-bit length prefix.
    pub open spec fn wf(&self) -> bool {
        &&& self.admin.len() == PUBKEY_LEN
        &&& self.name.len() <= u32::MAX
        &&& self.description.len() <= u32::MAX
        &&& self.image_link.len() <= u32::MAX
    }
}

impl CampaignRecord {
    /// Well-formedness of the underlying mathematical record.
    pub open spec fn wf(&self) -> bool {
        self@.wf()
    }
}

impl PartialEq for CampaignRecord {
    fn eq(&self, other: &CampaignRecord) -> (r: bool) {
        let r = self.admin == other.admin && self.name == other.name
            && self.description == other.description && self.image_link == other.image_link
            && self.amount_donated == other.amount_donated;
        proof {
            if r {
                assert(self.name@ =~= other.name@);
                assert(self.description@ =~= other.description@);
                assert(self.image_link@ =~= other.image_link@);
                assert(self@ =~= other@);
            } else {
                if self@ == other@ {
                    assert(self.name@ == other.name@);
                    assert(self.description@ == other.description@);
                    assert(self.image_link@ == other.image_link@);
                }
            }
        }
        r
    }
}

impl vstd::std_specs::cmp::PartialEqSpecImpl for CampaignRecord {
    open spec fn obeys_eq_spec() -> bool {
        true
    }

    open spec fn eq_spec(&self, other: &CampaignRecord) -> bool {
        self@ == other@
    }
}

impl Eq for CampaignRecord {}

/// A transient request to move funds out of a campaign account; it exists
/// only for the duration of one withdrawal.
#[derive(Clone, Copy, Debug, PartialEq, Eq, Structural)]
pub struct WithdrawRequest {
    /// The number of currency units requested for transfer out.
    pub amount: u64,
}

} // verus!
