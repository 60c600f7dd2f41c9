use vstd::prelude::*;

verus! {

/// An account address on the ledger: 32 opaque bytes.
#[derive(Debug, Clone, Copy, Eq)]
pub struct Pubkey {
    pub bytes: [u8; 32],
}

impl PartialEq for Pubkey {
    fn eq(&self, other: &Pubkey) -> (r: bool) {
        let mut i: usize = 0;
        while i < 32
            invariant
                0 <= i <= 32,
                forall|j: int| 0 <= j < i ==> self.bytes[j] == other.bytes[j],
            decreases 32 - i,
        {
            if self.bytes[i] != other.bytes[i] {
                return false;
            }
            i = i + 1;
        }
        proof {
            assert(self.bytes =~= other.bytes);
        }
        true
    }
}

impl vstd::std_specs::cmp::PartialEqSpecImpl for Pubkey {
    open spec fn obeys_eq_spec() -> bool {
        true
    }

    open spec fn eq_spec(&self, other: &Pubkey) -> bool {
        *self == *other
    }
}

/// Platform-wide configuration, created once.
#[derive(Debug, Clone, Copy, PartialEq, Eq)]
pub struct Platform {
    /// The platform's owner.
    pub authority: Pubkey,
    /// Number of content items published; the next content id.
    pub total_content_count: u64,
    /// Early-supporter slots per content item.
    pub early_supporter_limit: u8,
    /// Early supporters' share of a tip, out of `RATE_DENOMINATOR`.
    pub early_supporter_rate: u16,
    /// Platform's share of a tip, out of `RATE_DENOMINATOR`.
    pub platform_fee_rate: u16,
    /// Address-derivation bump of this record.
    pub bump: u8,
}

impl Platform {
    /// Bytes that a stored platform record occupies.
    pub const LEN: usize = 8 + 32 + 8 + 1 + 2 + 2 + 1;
}

/// A creator's profile, one per creator.
#[derive(Debug, Clone, Copy, PartialEq, Eq)]
pub struct CreatorProfile {
    /// The creator's address.
    pub creator: Pubkey,
    /// Number of content items this creator published.
    pub content_count: u32,
    /// Everything the creator has received from tips, in lamports.
    pub total_earnings: u64,
    /// Unix time of creation.
    pub created_at: i64,
    /// Address-derivation bump of this record.
    pub bump: u8,
}

impl CreatorProfile {
    /// Bytes that a stored profile occupies.
    pub const LEN: usize = 8 + 32 + 4 + 8 + 8 + 1;
}

/// A published content item.
#[derive(Debug, Clone, PartialEq, Eq)]
pub struct Content {
    /// Unique id, the platform's content count at publication.
    pub content_id: u64,
    /// The creator's address.
    pub creator: Pubkey,
    /// Title, at most `MAX_TITLE_LENGTH` characters.
    pub title: String,
    /// Description, at most `MAX_DESCRIPTION_LENGTH` characters.
    pub description: String,
    /// Sum of all tips, in lamports.
    pub total_tips: u64,
    /// Number of tips.
    pub tip_count: u32,
    /// Early supporters in the order of their tips; one address may repeat.
    pub early_supporters: Vec<Pubkey>,
    /// Unix time of publication.
    pub created_at: i64,
    /// Address-derivation bump of this record.
    pub bump: u8,
}

/// Bytes that a stored content record with these sizes occupies.
pub open spec fn content_space(title_len: int, description_len: int, max_supporters: int) -> int {
    8 + 8 + 32 + (4 + title_len) + (4 + description_len) + 8 + 4 + (4 + 32 * max_supporters) + 8 + 1
}

impl Content {
    /// Bytes that a stored content record occupies, given the title's and
    /// the description's lengths and the number of early-supporter slots.
    pub fn space(title_len: usize, description_len: usize, max_supporters: usize) -> (r: usize)
        requires
            content_space(title_len as int, description_len as int, max_supporters as int)
                <= usize::MAX,
        ensures
            r == content_space(title_len as int, description_len as int, max_supporters as int),
    {
        8 + 8 + 32 + (4 + title_len) + (4 + description_len) + 8 + 4 + (4 + 32 * max_supporters)
            + 8 + 1
    }
}

/// What one supporter earned on one content item (declared for a future
/// pull-payment model; no operation reads or writes it).
#[derive(Debug, Clone, Copy, PartialEq, Eq)]
pub struct SupporterEarnings {
    /// The supporter's address.
    pub supporter: Pubkey,
    /// The content item.
    pub content_id: u64,
    /// Earned so far, in lamports.
    pub total_earned: u64,
    /// Whether the earnings were withdrawn.
    pub is_claimed: bool,
    /// Address-derivation bump of this record.
    pub bump: u8,
}

impl SupporterEarnings {
    /// Bytes that a stored earnings record occupies.
    pub const LEN: usize = 8 + 32 + 8 + 8 + 1 + 1;
}

} // verus!
