use vstd::prelude::*;

verus! {

/// A caller identity, held as the raw bytes of its principal.
#[derive(Debug, Clone, PartialEq, Eq)]
pub struct Identity {
    pub bytes: Vec<u8>,
}

impl View for Identity {
    type V = Seq<u8>;

    open spec fn view(&self) -> Seq<u8> {
        self.bytes@
    }
}

impl Identity {
    /// Wraps raw principal bytes.
    pub fn from_bytes(bytes: Vec<u8>) -> (r: Identity)
        ensures
            r@ == bytes@,
    {
        Identity { bytes }
    }

    /// Byte-wise equality of two identities.
    pub fn same_as(&self, other: &Identity) -> (r: bool)
        ensures
            r == (self@ == other@),
    {
        let n = self.bytes.len();
        if n != other.bytes.len() {
            return false;
        }
        let mut i: usize = 0;
        while i < n
            invariant
                n == self@.len(),
                n == other@.len(),
                0 <= i <= n,
                forall|k: int| 0 <= k < i ==> self@[k] == other@[k],
            decreases n - i,
        {
            if self.bytes[i] != other.bytes[i] {
                return false;
            }
            i = i + 1;
        }
        assert(self@ =~= other@);
        true
    }

    /// A copy holding the same bytes.
    pub fn duplicate(&self) -> (r: Identity)
        ensures
            r@ == self@,
    {
        let mut bytes: Vec<u8> = Vec::new();
        let mut i: usize = 0;
        while i < self.bytes.len()
            invariant
                0 <= i <= self@.len(),
                bytes@ == self@.subrange(0, i as int),
            decreases self@.len() - i,
        {
            bytes.push(self.bytes[i]);
            i = i + 1;
            assert(bytes@ =~= self@.subrange(0, i as int));
        }
        assert(bytes@ =~= self@);
        Identity { bytes }
    }
}

/// A record of a user's contribution to a conservation project.
#[derive(Debug, Clone)]
pub struct Contribution {
    pub amount: u64,
    pub project_id: String,
    pub timestamp: u64,
    pub transaction_hash: String,
}

/// An account, keyed by the identity that registered it.
#[derive(Debug, Clone)]
pub struct User {
    pub principal_id: Identity,
    pub username: String,
    pub email: Option<String>,
    /// Ids of the items this user has acquired, in order of acquisition.
    pub adopted_nfts: Vec<String>,
    pub rewards_points: u64,
    pub created_at: u64,
    pub last_login: u64,
    pub profile_image: Option<String>,
    pub conservation_contributions: Vec<Contribution>,
}

/// Where an item is found; coordinates are in millionths of a degree.
#[derive(Debug, Clone)]
pub struct Location {
    pub latitude_e6: i64,
    pub longitude_e6: i64,
    pub region: String,
    pub country: String,
}

/// Descriptive data of an item, supplied at mint time.
#[derive(Debug, Clone)]
pub struct NFTMetadata {
    pub name: String,
    pub description: String,
    pub image_url: String,
    pub conservation_status: ConservationStatus,
    pub location: Location,
    /// Free-form key/value attributes.
    pub attributes: Vec<(String, String)>,
}

/// One entry of an item's audit trail.
#[derive(Debug, Clone)]
pub struct Transaction {
    pub transaction_type: TransactionType,
    pub from: Identity,
    pub to: Identity,
    pub price: u64,
    pub timestamp: u64,
    pub transaction_hash: String,
}

/// Conservation facts attached to an item.
#[derive(Debug, Clone)]
pub struct ConservationData {
    pub status: ConservationStatus,
    pub population_trend: PopulationTrend,
    pub threats: Vec<String>,
    pub conservation_actions: Vec<String>,
    pub last_updated: u64,
}

/// What kind of entity an item stands for.
#[derive(Debug, Clone)]
pub enum EntityType {
    Wildlife { species: String, category: String },
    Hotel { star_rating: u8, eco_rating: u8 },
    Reserve { area_size: u64, habitat_type: String },
}

#[derive(Debug, Clone, Copy, PartialEq, Eq, Structural)]
pub enum ConservationStatus {
    LeastConcern,
    NearThreatened,
    Vulnerable,
    Endangered,
    CriticallyEndangered,
}

#[derive(Debug, Clone, Copy, PartialEq, Eq, Structural)]
pub enum PopulationTrend {
    Increasing,
    Stable,
    Decreasing,
    Unknown,
}

#[derive(Debug, Clone, Copy, PartialEq, Eq, Structural)]
pub enum TransactionType {
    Mint,
    Transfer,
    Sale,
    Adoption,
}

/// A uniquely identified collectible.
#[derive(Debug, Clone)]
pub struct NFT {
    pub id: String,
    pub entity_type: EntityType,
    pub metadata: NFTMetadata,
    /// The current owner; always present once minted.
    pub owner: Option<Identity>,
    /// The asking price; present exactly while the item is listed.
    pub price: Option<u64>,
    pub creation_date: u64,
    /// Append-only audit trail.
    pub transaction_history: Vec<Transaction>,
    pub conservation_data: ConservationData,
}

} // verus!
