//! Data model: tier table, per-entity record, and global configuration.

use vstd::prelude::*;

verus! {

/// A 32-byte external identifier (an account address, a mint, an authority),
/// held as two 128-bit words. The engine never looks inside one; it only
/// stores and compares them. Hosting layers convert their own key type to and
/// from the two words.
#[derive(Clone, Copy, Debug, PartialEq, Eq, Structural)]
pub struct Pubkey {
    /// The first sixteen bytes of the identifier.
    pub hi: u128,
    /// The last sixteen bytes of the identifier.
    pub lo: u128,
}

impl Pubkey {
    /// Builds an identifier from its two 128-bit words.
    pub fn new(hi: u128, lo: u128) -> (r: Pubkey)
        ensures
            r.hi == hi,
            r.lo == lo,
    {
        Pubkey { hi, lo }
    }
}

/// One tier of the table: the minimum counter value at which it applies,
/// its display attributes, and the external grouping key it belongs to.
#[derive(Debug, PartialEq)]
pub struct Level {
    /// Minimum counter value at which this level applies.
    pub offset: u64,
    /// Display URI (hosting layers bound it at 200 bytes).
    pub uri: String,
    /// Display name (hosting layers bound it at 32 bytes).
    pub name: String,
    /// Display symbol (hosting layers bound it at 10 bytes).
    pub symbol: String,
    /// External grouping/collection key this level belongs to.
    pub collection_mint: Pubkey,
}

impl Clone for Level {
    fn clone(&self) -> (r: Self)
        ensures
            r == *self,
    {
        Level {
            offset: self.offset,
            uri: self.uri.clone(),
            name: self.name.clone(),
            symbol: self.symbol.clone(),
            collection_mint: self.collection_mint,
        }
    }
}

impl Level {
    /// Storage footprint of one serialized level, in bytes.
    pub const SPACE: usize = 8 + (4 + 200) + (4 + 32) + (4 + 10) + 15 + 32;
}

/// The index of the highest-threshold level whose threshold is at or below
/// `offset`, scanning the table from its last level down; `None` when the
/// counter lies below every threshold (or the table is empty).
///
/// On a table sorted ascending by threshold this is the right-open-interval
/// lookup: level `i` covers the counters from `levels[i].offset` (inclusive)
/// up to the next threshold (exclusive). On an unsorted table it is still the
/// well-defined result of the downward scan.
pub open spec fn raw_tier_index(levels: Seq<Level>, offset: u64) -> Option<int>
    decreases levels.len(),
{
    if levels.len() == 0 {
        None
    } else if levels.last().offset <= offset {
        Some(levels.len() - 1)
    } else {
        raw_tier_index(levels.drop_last(), offset)
    }
}

/// The level index a counter value resolves to: the raw lookup, with counters
/// below every threshold falling back to the lowest level (index 0) rather
/// than failing.
pub open spec fn tier_index(levels: Seq<Level>, offset: u64) -> int {
    match raw_tier_index(levels, offset) {
        Some(i) => i,
        None => 0,
    }
}

/// What the downward scan returns: a qualifying index is the largest one, and
/// `None` means no level qualifies at all.
pub proof fn lemma_raw_tier_index_characterization(levels: Seq<Level>, offset: u64)
    ensures
        match raw_tier_index(levels, offset) {
            Some(i) => 0 <= i < levels.len() && levels[i].offset <= offset
                && (forall|j: int| i < j < levels.len() ==> #[trigger] levels[j].offset > offset),
            None => forall|j: int| 0 <= j < levels.len() ==> #[trigger] levels[j].offset > offset,
        },
    decreases levels.len(),
{
    if levels.len() == 0 {
    } else if levels.last().offset <= offset {
    } else {
        lemma_raw_tier_index_characterization(levels.drop_last(), offset);
        assert(forall|j: int| 0 <= j < levels.len() - 1 ==> levels.drop_last()[j] == levels[j]);
    }
}

/// An index below which every later level's threshold exceeds the counter,
/// and which itself qualifies, is exactly what the raw lookup returns.
pub proof fn lemma_raw_tier_index_from_witness(levels: Seq<Level>, offset: u64, i: int)
    requires
        0 <= i < levels.len(),
        levels[i].offset <= offset,
        forall|j: int| i < j < levels.len() ==> #[trigger] levels[j].offset > offset,
    ensures
        raw_tier_index(levels, offset) == Some(i),
    decreases levels.len(),
{
    if i < levels.len() - 1 {
        assert(forall|j: int| 0 <= j < levels.len() - 1 ==> levels.drop_last()[j] == levels[j]);
        lemma_raw_tier_index_from_witness(levels.drop_last(), offset, i);
    }
}

/// When every level's threshold exceeds the counter, the raw lookup finds
/// nothing.
pub proof fn lemma_raw_tier_index_none(levels: Seq<Level>, offset: u64)
    requires
        forall|j: int| 0 <= j < levels.len() ==> #[trigger] levels[j].offset > offset,
    ensures
        raw_tier_index(levels, offset) is None,
    decreases levels.len(),
{
    if levels.len() > 0 {
        assert(forall|j: int| 0 <= j < levels.len() - 1 ==> levels.drop_last()[j] == levels[j]);
        lemma_raw_tier_index_none(levels.drop_last(), offset);
    }
}

/// On a non-empty table the resolved index is always in range, thanks to the
/// fallback to index 0.
pub proof fn lemma_tier_index_in_range(levels: Seq<Level>, offset: u64)
    requires
        levels.len() > 0,
    ensures
        0 <= tier_index(levels, offset) < levels.len(),
{
    lemma_raw_tier_index_characterization(levels, offset);
}

/// An ordered collection of levels: insertion order is ascending threshold
/// order (a documented caller obligation, not re-validated here), bounded by
/// [`OffsetTiers::MAX_LEVELS`].
#[derive(Debug)]
pub struct OffsetTiers {
    /// The levels, lowest threshold first.
    pub levels: Vec<Level>,
    /// Bump seed of the hosting account; opaque to the engine.
    pub bump: u8,
}

/// A whole-table replacement for [`OffsetTiers::set`].
pub struct OffsetTiersInput {
    /// The new levels, lowest threshold first.
    pub levels: Vec<Level>,
}

impl OffsetTiers {
    /// Fixed capacity of the table.
    pub const MAX_LEVELS: usize = 10;

    /// Storage footprint of the serialized table at full capacity, in bytes.
    pub const SPACE: usize = 4 + (Level::SPACE * OffsetTiers::MAX_LEVELS) + 1 + 8;

    /// The capacity bound the table maintains.
    pub open spec fn wf(&self) -> bool {
        self.levels@.len() <= OffsetTiers::MAX_LEVELS
    }

    /// Replaces the entire level sequence. Order and uniqueness of the
    /// incoming thresholds are the caller's responsibility; the capacity
    /// bound models the fixed allocation of the hosting storage.
    pub fn set(&mut self, input: OffsetTiersInput)
        requires
            input.levels@.len() <= OffsetTiers::MAX_LEVELS,
        ensures
            final(self).levels@ == input.levels@,
            final(self).bump == old(self).bump,
            final(self).wf(),
    {
        self.levels = input.levels;
    }

    /// Appends levels until the table reaches capacity; the rest of the
    /// incoming levels are silently dropped. Returns how many were appended.
    pub fn add_levels(&mut self, incoming: Vec<Level>) -> (appended: usize)
        requires
            old(self).wf(),
        ensures
            final(self).wf(),
            final(self).bump == old(self).bump,
            appended as int == if old(self).levels@.len() + incoming@.len() <= OffsetTiers::MAX_LEVELS {
                incoming@.len() as int
            } else {
                OffsetTiers::MAX_LEVELS - old(self).levels@.len()
            },
            final(self).levels@ == old(self).levels@ + incoming@.take(appended as int),
    {
        let ghost incoming_all = incoming@;
        let mut incoming = incoming;
        let mut appended: usize = 0;
        loop
            invariant
                self.wf(),
                self.bump == old(self).bump,
                appended <= incoming_all.len(),
                incoming@ == incoming_all.skip(appended as int),
                self.levels@ == old(self).levels@ + incoming_all.take(appended as int),
            ensures
                self.levels@.len() == OffsetTiers::MAX_LEVELS || incoming@.len() == 0,
            decreases incoming@.len(),
        {
            if incoming.len() == 0 || self.levels.len() == OffsetTiers::MAX_LEVELS {
                break;
            }
            let level = incoming.remove(0);
            self.levels.push(level);
            appended = appended + 1;
            proof {
                assert(incoming@ =~= incoming_all.skip(appended as int));
                assert(self.levels@ =~= old(self).levels@ + incoming_all.take(appended as int));
            }
        }
        proof {
            assert(self.levels@.len() == old(self).levels@.len() + appended);
        }
        appended
    }

    /// The index of the highest-threshold level at or below `offset`;
    /// `None` when the counter lies below every threshold.
    pub fn get_index_from_offset(&self, offset: u64) -> (r: Option<usize>)
        ensures
            match r {
                Some(i) => raw_tier_index(self.levels@, offset) == Some(i as int),
                None => raw_tier_index(self.levels@, offset) is None,
            },
    {
        let mut i: usize = self.levels.len();
        while i > 0
            invariant
                i <= self.levels@.len(),
                forall|j: int| i <= j < self.levels@.len() ==> #[trigger] self.levels@[j].offset > offset,
            decreases i,
        {
            i = i - 1;
            if self.levels[i].offset <= offset {
                proof {
                    lemma_raw_tier_index_from_witness(self.levels@, offset, i as int);
                }
                return Some(i);
            }
        }
        proof {
            lemma_raw_tier_index_none(self.levels@, offset);
        }
        None
    }

    /// The level index `offset` resolves to, defaulting to the lowest level
    /// when the counter lies below every threshold.
    pub fn lookup_tier_index(&self, offset: u64) -> (i: usize)
        ensures
            i as int == tier_index(self.levels@, offset),
            self.levels@.len() > 0 ==> (i as int) < self.levels@.len(),
    {
        proof {
            if self.levels@.len() > 0 {
                lemma_tier_index_in_range(self.levels@, offset);
            }
        }
        match self.get_index_from_offset(offset) {
            Some(i) => i,
            None => 0,
        }
    }

    /// The level `offset` resolves to. Never fails on a non-empty table,
    /// since the lowest level is the guaranteed fallback.
    pub fn get_level(&self, offset: u64) -> (r: Option<&Level>)
        requires
            self.levels@.len() > 0,
        ensures
            (r matches Some(l) && *l == self.levels@[tier_index(self.levels@, offset)]),
    {
        let index = self.lookup_tier_index(offset);
        Some(&self.levels[index])
    }
}

/// Per-subject record: the last-applied counter value and the level index it
/// resolved to at the time of the last update.
#[derive(Clone, Copy, Debug, PartialEq, Eq, Structural)]
pub struct OffsetMetadata {
    /// Entity that may mutate this record; authorization itself is enforced
    /// by the hosting layer, the engine only stores the key.
    pub authority: Pubkey,
    /// The subject being tracked (the mint this record is attached to).
    pub mint: Pubkey,
    /// Index into the governing table's levels at the time of the last
    /// update. It can go stale when the table is mutated afterwards, until
    /// the next transition evaluation recomputes it.
    pub current_level_index: u16,
    /// Last-applied counter value.
    pub offset: u64,
    /// Bump seed of the hosting account; opaque to the engine.
    pub bump: u8,
}

impl OffsetMetadata {
    /// Storage footprint of the serialized record, in bytes.
    pub const SPACE: usize = 8 + 2 + 8 + 1;

    /// Constructs the record for a subject, once, at creation time. The
    /// caller supplies `level_index` as the governing table's lookup of
    /// `offset` at that moment.
    pub fn initialize(
        authority: Pubkey,
        mint: Pubkey,
        offset: u64,
        bump: u8,
        level_index: usize,
    ) -> (r: OffsetMetadata)
        requires
            level_index <= u16::MAX,
        ensures
            r.authority == authority,
            r.mint == mint,
            r.offset == offset,
            r.bump == bump,
            r.current_level_index == level_index as u16,
    {
        OffsetMetadata {
            authority,
            mint,
            current_level_index: level_index as u16,
            offset,
            bump,
        }
    }

    /// Overwrites the stored counter value.
    pub fn set_amount(&mut self, offset: u64)
        ensures
            *final(self) == (OffsetMetadata { offset, ..*old(self) }),
    {
        self.offset = offset;
    }

    /// Overwrites the stored level index.
    pub fn set_level_index(&mut self, index: usize)
        requires
            index <= u16::MAX,
        ensures
            *final(self) == (OffsetMetadata { current_level_index: index as u16, ..*old(self) }),
    {
        self.current_level_index = index as u16;
    }

    /// Overwrites counter, bump and level index together.
    pub fn set(&mut self, offset: u64, bump: u8, level_index: usize)
        requires
            level_index <= u16::MAX,
        ensures
            *final(self) == (OffsetMetadata {
                offset,
                bump,
                current_level_index: level_index as u16,
                ..*old(self)
            }),
    {
        self.set_amount(offset);
        self.bump = bump;
        self.set_level_index(level_index);
    }

    /// Unconditionally records a transition: overwrites the counter value and
    /// the level index. Monotonicity of the counter is a usage convention of
    /// the callers, not enforced here.
    pub fn record_transition(&mut self, new_counter: u64, new_level_index: u16)
        ensures
            *final(self) == (OffsetMetadata {
                offset: new_counter,
                current_level_index: new_level_index,
                ..*old(self)
            }),
    {
        self.offset = new_counter;
        self.current_level_index = new_level_index;
    }
}

/// How a fee amount is derived from a principal.
#[derive(Clone, Copy, Debug, PartialEq, Eq, Structural)]
pub enum FeeType {
    /// The configured fee is an absolute amount, in lamports.
    Fixed,
    /// The configured fee is in basis points of the principal (100 bp = 1%).
    Percentage,
}

/// Which kind of account a fee is paid to.
#[derive(Clone, Copy, Debug, PartialEq, Eq, Structural)]
pub enum CoinType {
    /// The fee is paid in the native coin, to a plain address.
    Native,
    /// The fee is paid in an SPL token, to a token account.
    Spl,
}

/// Fee collection configuration. The engine only stores it; collecting fees
/// is the hosting layer's concern.
#[derive(Clone, Copy, Debug, PartialEq, Eq, Structural)]
pub struct FeeConfig {
    /// Lamports when `fee_type` is `Fixed`, basis points when `Percentage`.
    pub fee: u64,
    /// Either a token account or a native address, depending on `coin_type`.
    pub recipient: Pubkey,
    /// How the fee amount is derived.
    pub fee_type: FeeType,
    /// Which kind of account the fee is paid to.
    pub coin_type: CoinType,
    /// When the recipient is a token account, the mint it is for.
    pub spl_token_mint: Option<Pubkey>,
}

impl FeeConfig {
    /// Storage footprint of the serialized configuration, in bytes.
    pub const SPACE: usize = 8 + 32 + 1 + 1 + (1 + 32);
}

/// Program-wide configuration: the two external admin authorities and the
/// advertised number of levels. Both authorities are checked by the hosting
/// layer's authorization; the engine only stores them.
#[derive(Clone, Copy, Debug, PartialEq, Eq, Structural)]
pub struct GlobalState {
    /// Authority for permissioned updates (typically an externally owned
    /// account).
    pub admin_update_authority: Pubkey,
    /// Authority for permissionless minting flows (typically a derived
    /// address of a calling program).
    pub admin_mint_authority: Pubkey,
    /// Number of levels the deployment advertises.
    pub levels: u16,
    /// Optional fee collection configuration.
    pub fee: Option<FeeConfig>,
}

/// Creation input for [`GlobalState`]; the update authority is taken from the
/// creating caller itself.
#[derive(Clone, Copy, Debug, PartialEq, Eq, Structural)]
pub struct GlobalStateCreateInput {
    /// Authority for permissionless minting flows.
    pub admin_mint_authority: Pubkey,
    /// Number of levels the deployment advertises.
    pub levels: u16,
    /// Optional fee collection configuration.
    pub fee: Option<FeeConfig>,
}

/// Update input for [`GlobalState`]: every stored field can be replaced.
#[derive(Clone, Copy, Debug, PartialEq, Eq, Structural)]
pub struct GlobalStateUpdateInput {
    /// Authority for permissioned updates.
    pub admin_update_authority: Pubkey,
    /// Authority for permissionless minting flows.
    pub admin_mint_authority: Pubkey,
    /// Number of levels the deployment advertises.
    pub levels: u16,
    /// Optional fee collection configuration.
    pub fee: Option<FeeConfig>,
}

impl GlobalState {
    /// Storage footprint of the serialized configuration, in bytes.
    pub const SPACE: usize = 8 + 32 + 32 + 2 + 1 + FeeConfig::SPACE;

    /// Overwrites every stored field.
    pub fn set(
        &mut self,
        admin_update_authority: Pubkey,
        admin_mint_authority: Pubkey,
        levels: u16,
        fee: Option<FeeConfig>,
    )
        ensures
            *final(self) == (GlobalState { admin_update_authority, admin_mint_authority, levels, fee }),
    {
        self.admin_update_authority = admin_update_authority;
        self.admin_mint_authority = admin_mint_authority;
        self.levels = levels;
        self.fee = fee;
    }
}

} // verus!
