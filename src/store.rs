use vstd::prelude::*;
use crate::error::TerraPulseError;
use crate::fingerprint::{
    anonymous_bytes,
    anonymous_principal,
    generate_transaction_hash,
    generate_unique_nft_id,
    item_id_of,
    transaction_hash_of,
};
use crate::keyed::{
    key_at,
    keyed,
    keys_unique,
    lemma_keyed_at,
    lemma_keyed_len,
    lemma_keyed_push,
    lemma_keyed_remove,
    lemma_keyed_update,
};
use crate::types::{
    ConservationData,
    ConservationStatus,
    EntityType,
    Identity,
    NFT,
    NFTMetadata,
    PopulationTrend,
    Transaction,
    TransactionType,
    User,
};

verus! {

/// An item is keyed by its id.
pub open spec fn item_key() -> spec_fn(NFT) -> Seq<char> {
    |n: NFT| n.id@
}

/// An account is keyed by its identity.
pub open spec fn user_key() -> spec_fn(User) -> Seq<u8> {
    |u: User| u.principal_id@
}

/// A listing is keyed by the id of the item it offers.
pub open spec fn listing_key() -> spec_fn((String, u64)) -> Seq<char> {
    |e: (String, u64)| e.0@
}

/// Items by id.
pub open spec fn items_of(s: Seq<NFT>) -> Map<Seq<char>, NFT> {
    keyed(s, item_key())
}

/// Users by identity.
pub open spec fn users_of(s: Seq<User>) -> Map<Seq<u8>, User> {
    keyed(s, user_key())
}

/// Asking prices in a listing book, by item id.
pub open spec fn prices_of(l: Seq<(String, u64)>) -> Map<Seq<char>, u64> {
    keyed(l, listing_key()).map_values(|e: (String, u64)| e.1)
}

/// Asking prices recorded on the items themselves, for the listed ones.
pub open spec fn asking_prices(items: Map<Seq<char>, NFT>) -> Map<Seq<char>, u64> {
    Map::new(
        |k: Seq<char>| items.contains_key(k) && items[k].price is Some,
        |k: Seq<char>| items[k].price->0,
    )
}

/// Loyalty points earned by a purchase at `price`.
pub open spec fn rewards_for(price: u64) -> u64 {
    price / 100
}

/// `u` is the account that registration creates.
pub open spec fn is_new_user(
    u: User,
    caller: Seq<u8>,
    username: String,
    email: Option<String>,
    now: u64,
) -> bool {
    &&& u.principal_id@ == caller
    &&& u.username == username
    &&& u.email == email
    &&& u.adopted_nfts@.len() == 0
    &&& u.rewards_points == 0
    &&& u.created_at == now
    &&& u.last_login == now
    &&& u.profile_image is None
    &&& u.conservation_contributions@.len() == 0
}

/// `t` is an audit record of kind `kind` from `from` to `to`.
pub open spec fn is_record(
    t: Transaction,
    kind: TransactionType,
    from: Seq<u8>,
    to: Seq<u8>,
    price: u64,
    now: u64,
) -> bool {
    &&& t.transaction_type == kind
    &&& t.from@ == from
    &&& t.to@ == to
    &&& t.price == price
    &&& t.timestamp == now
    &&& t.transaction_hash@ == transaction_hash_of(now, to)
}

/// `n` is the item that minting creates.
pub open spec fn is_minted(
    n: NFT,
    id: Seq<char>,
    caller: Seq<u8>,
    now: u64,
    metadata: NFTMetadata,
    entity_type: EntityType,
) -> bool {
    &&& n.id@ == id
    &&& n.entity_type == entity_type
    &&& n.metadata == metadata
    &&& n.owner is Some && n.owner->0@ == caller
    &&& n.price is None
    &&& n.creation_date == now
    &&& n.transaction_history@.len() == 1
    &&& is_record(n.transaction_history@[0], TransactionType::Mint, anonymous_bytes(), caller, 0, now)
    &&& n.conservation_data.status == ConservationStatus::LeastConcern
    &&& n.conservation_data.population_trend == PopulationTrend::Unknown
    &&& n.conservation_data.threats@.len() == 0
    &&& n.conservation_data.conservation_actions@.len() == 0
    &&& n.conservation_data.last_updated == now
}

/// `n` is `old` after a sale to `buyer` at `price`, out of `seller`'s hands.
pub open spec fn is_sold(
    n: NFT,
    old: NFT,
    seller: Seq<u8>,
    buyer: Seq<u8>,
    price: u64,
    now: u64,
) -> bool {
    &&& n.id == old.id
    &&& n.entity_type == old.entity_type
    &&& n.metadata == old.metadata
    &&& n.owner is Some && n.owner->0@ == buyer
    &&& n.price is None
    &&& n.creation_date == old.creation_date
    &&& n.transaction_history@.len() == old.transaction_history@.len() + 1
    &&& n.transaction_history@.drop_last() == old.transaction_history@
    &&& is_record(n.transaction_history@.last(), TransactionType::Sale, seller, buyer, price, now)
    &&& n.conservation_data == old.conservation_data
}

/// `n` is owned by `who`.
pub open spec fn owned_by(n: NFT, who: Seq<u8>) -> bool {
    n.owner is Some && n.owner->0@ == who
}

/// Keeps the ids that differ from `id`.
pub open spec fn other_than(id: Seq<char>) -> spec_fn(String) -> bool {
    |x: String| x@ != id
}

/// `a + b`, held at the largest `u64`.
pub open spec fn saturating_sum(a: u64, b: u64) -> u64 {
    if a + b > u64::MAX {
        u64::MAX
    } else {
        (a + b) as u64
    }
}

/// `new` is `old` with the given acquired items and points, all else kept.
pub open spec fn is_settled(new: User, old: User, adopted: Seq<String>, points: u64) -> bool {
    &&& new.principal_id == old.principal_id
    &&& new.username == old.username
    &&& new.email == old.email
    &&& new.adopted_nfts@ == adopted
    &&& new.rewards_points == points
    &&& new.created_at == old.created_at
    &&& new.last_login == old.last_login
    &&& new.profile_image == old.profile_image
    &&& new.conservation_contributions == old.conservation_contributions
}

/// How a sale of `id` at `price` from `seller` to `buyer` leaves the accounts:
/// the buyer gains the id and the reward points, the seller loses every
/// occurrence of the id (in that order, when the two are one account), and
/// accounts that are missing are left out.
pub open spec fn is_sale_settlement(
    new: Map<Seq<u8>, User>,
    old: Map<Seq<u8>, User>,
    buyer: Seq<u8>,
    seller: Seq<u8>,
    id: String,
    price: u64,
) -> bool {
    &&& new.dom() == old.dom()
    &&& forall|k: Seq<u8>|
        old.contains_key(k) && k != buyer && k != seller ==> #[trigger] new[k] == old[k]
    &&& buyer != seller && old.contains_key(buyer) ==> is_settled(
        new[buyer],
        old[buyer],
        old[buyer].adopted_nfts@.push(id),
        saturating_sum(old[buyer].rewards_points, rewards_for(price)),
    )
    &&& buyer != seller && old.contains_key(seller) ==> is_settled(
        new[seller],
        old[seller],
        old[seller].adopted_nfts@.filter(other_than(id@)),
        old[seller].rewards_points,
    )
    &&& buyer == seller && old.contains_key(buyer) ==> is_settled(
        new[buyer],
        old[buyer],
        old[buyer].adopted_nfts@.push(id).filter(other_than(id@)),
        saturating_sum(old[buyer].rewards_points, rewards_for(price)),
    )
}

/// The ids of `v` that differ from `id`, in order.
pub fn without_id(v: &Vec<String>, id: &String) -> (r: Vec<String>)
    ensures
        r@ == v@.filter(other_than(id@)),
{
    let mut r: Vec<String> = Vec::new();
    let mut i: usize = 0;
    while i < v.len()
        invariant
            0 <= i <= v@.len(),
            r@ == v@.subrange(0, i as int).filter(other_than(id@)),
        decreases v@.len() - i,
    {
        let ghost prefix = v@.subrange(0, i as int + 1);
        assert(prefix.drop_last() =~= v@.subrange(0, i as int));
        assert(prefix.last() == v@[i as int]);
        reveal(Seq::filter);
        if v[i] != *id {
            r.push(v[i].clone());
        }
        i = i + 1;
        assert(r@ =~= v@.subrange(0, i as int).filter(other_than(id@)));
    }
    assert(v@.subrange(0, v@.len() as int) =~= v@);
    r
}

/// The identity-keyed accounts, the id-keyed items, and the book of items for sale.
pub struct Store {
    pub users: Vec<User>,
    pub nfts: Vec<NFT>,
    pub listings: Vec<(String, u64)>,
}

impl Store {
    /// Accounts by identity.
    pub open spec fn users_view(&self) -> Map<Seq<u8>, User> {
        users_of(self.users@)
    }

    /// Items by id.
    pub open spec fn items_view(&self) -> Map<Seq<char>, NFT> {
        items_of(self.nfts@)
    }

    /// Asking prices of the listed items, by id.
    pub open spec fn listings_view(&self) -> Map<Seq<char>, u64> {
        prices_of(self.listings@)
    }

    /// Keys are unique in each collection, and the listing book holds
    /// exactly the items that carry an asking price, at that price.
    pub open spec fn wf(&self) -> bool {
        &&& keys_unique(self.users@, user_key())
        &&& keys_unique(self.nfts@, item_key())
        &&& keys_unique(self.listings@, listing_key())
        &&& self.listings_view() == asking_prices(self.items_view())
    }

    /// An empty store.
    pub fn new() -> (r: Store)
        ensures
            r.wf(),
            r.users_view().is_empty(),
            r.items_view().is_empty(),
            r.listings_view().is_empty(),
    {
        let r = Store { users: Vec::new(), nfts: Vec::new(), listings: Vec::new() };
        assert(r.users_view() =~= Map::empty());
        assert(r.items_view() =~= Map::empty());
        assert(r.listings_view() =~= Map::empty());
        assert(asking_prices(r.items_view()) =~= Map::empty());
        r
    }

    /// Creates the caller's account. Anonymous callers are refused, and an
    /// identity can register only once; on either failure nothing changes.
    pub fn register_user(
        &mut self,
        caller: &Identity,
        username: String,
        email: Option<String>,
        now: u64,
    ) -> (r: Result<Identity, TerraPulseError>)
        requires
            old(self).wf(),
        ensures
            final(self).wf(),
            caller@ == anonymous_bytes() ==> r == Err::<Identity, TerraPulseError>(
                TerraPulseError::NotAuthorized,
            ),
            caller@ != anonymous_bytes() && old(self).users_view().contains_key(caller@) ==> (r is Err
                && r->Err_0 is InvalidOperation),
            r is Err ==> *final(self) == *old(self),
            caller@ != anonymous_bytes() && !old(self).users_view().contains_key(caller@) ==> (r is Ok
                && r->Ok_0@ == caller@
                && is_new_user(final(self).users_view()[caller@], caller@, username, email, now)
                && final(self).users_view() == old(self).users_view().insert(
                    caller@,
                    final(self).users_view()[caller@],
                )),
            r is Ok ==> final(self).users_view().contains_key(caller@),
            final(self).nfts == old(self).nfts,
            final(self).listings == old(self).listings,
    {
        if let Err(e) = ensure_authorized(caller) {
            return Err(e);
        }
        if self.find_user(caller).is_some() {
            return Err(TerraPulseError::InvalidOperation("User already exists".to_string()));
        }
        let user = User {
            principal_id: caller.duplicate(),
            username,
            email,
            adopted_nfts: Vec::new(),
            rewards_points: 0,
            created_at: now,
            last_login: now,
            profile_image: None,
            conservation_contributions: Vec::new(),
        };
        proof {
            lemma_keyed_push(self.users@, user_key(), user);
            lemma_keyed_at(self.users@.push(user), user_key(), caller@, self.users@.len() as int);
        }
        self.users.push(user);
        Ok(caller.duplicate())
    }

    /// Mints a new item owned by the caller, under the id derived from `now`
    /// and `entropy`. Anonymous callers are refused; an id already in use is
    /// refused as a system error. On failure nothing changes.
    pub fn mint_nft(
        &mut self,
        caller: &Identity,
        now: u64,
        entropy: &Vec<u8>,
        metadata: NFTMetadata,
        entity_type: EntityType,
    ) -> (r: Result<String, TerraPulseError>)
        requires
            old(self).wf(),
        ensures
            final(self).wf(),
            caller@ == anonymous_bytes() ==> r == Err::<String, TerraPulseError>(
                TerraPulseError::NotAuthorized,
            ),
            caller@ != anonymous_bytes() && old(self).items_view().contains_key(
                item_id_of(now, entropy@),
            ) ==> (r is Err && r->Err_0 is SystemError),
            r is Err ==> *final(self) == *old(self),
            caller@ != anonymous_bytes() && !old(self).items_view().contains_key(
                item_id_of(now, entropy@),
            ) ==> (r is Ok && r->Ok_0@ == item_id_of(now, entropy@)
                && is_minted(
                final(self).items_view()[r->Ok_0@],
                r->Ok_0@,
                caller@,
                now,
                metadata,
                entity_type,
            ) && final(self).items_view() == old(self).items_view().insert(
                r->Ok_0@,
                final(self).items_view()[r->Ok_0@],
            )),
            r is Ok ==> !old(self).items_view().contains_key(r->Ok_0@)
                && final(self).items_view().contains_key(r->Ok_0@),
            final(self).users == old(self).users,
            final(self).listings == old(self).listings,
    {
        if let Err(e) = ensure_authorized(caller) {
            return Err(e);
        }
        let nft_id = generate_unique_nft_id(now, entropy);
        if self.find_item(&nft_id).is_some() {
            return Err(TerraPulseError::SystemError("Item id already in use".to_string()));
        }
        let record = Transaction {
            transaction_type: TransactionType::Mint,
            from: anonymous_principal(),
            to: caller.duplicate(),
            price: 0,
            timestamp: now,
            transaction_hash: generate_transaction_hash(now, caller),
        };
        let nft = NFT {
            id: nft_id.clone(),
            entity_type,
            metadata,
            owner: Some(caller.duplicate()),
            price: None,
            creation_date: now,
            transaction_history: vec![record],
            conservation_data: ConservationData {
                status: ConservationStatus::LeastConcern,
                population_trend: PopulationTrend::Unknown,
                threats: Vec::new(),
                conservation_actions: Vec::new(),
                last_updated: now,
            },
        };
        proof {
            lemma_keyed_push(self.nfts@, item_key(), nft);
            lemma_keyed_at(self.nfts@.push(nft), item_key(), nft_id@, self.nfts@.len() as int);
            assert(asking_prices(items_of(self.nfts@.push(nft))) =~= asking_prices(
                items_of(self.nfts@),
            ));
        }
        self.nfts.push(nft);
        Ok(nft_id)
    }

    /// Puts the caller's item up for sale at `price`, replacing any earlier
    /// asking price. Anonymous callers and callers that do not own the item
    /// are refused, as is an unknown id; on failure nothing changes.
    pub fn list_nft_for_sale(&mut self, caller: &Identity, nft_id: String, price: u64) -> (r: Result<
        (),
        TerraPulseError,
    >)
        requires
            old(self).wf(),
        ensures
            final(self).wf(),
            caller@ == anonymous_bytes() ==> r == Err::<(), TerraPulseError>(
                TerraPulseError::NotAuthorized,
            ),
            caller@ != anonymous_bytes() && !old(self).items_view().contains_key(nft_id@) ==> r
                == Err::<(), TerraPulseError>(TerraPulseError::NFTNotFound),
            caller@ != anonymous_bytes() && old(self).items_view().contains_key(nft_id@)
                && !owned_by(old(self).items_view()[nft_id@], caller@) ==> r == Err::<
                (),
                TerraPulseError,
            >(TerraPulseError::NotAuthorized),
            r is Err ==> *final(self) == *old(self),
            caller@ != anonymous_bytes() && old(self).items_view().contains_key(nft_id@)
                && owned_by(old(self).items_view()[nft_id@], caller@) ==> (r is Ok
                && final(self).items_view() == old(self).items_view().insert(
                nft_id@,
                (NFT { price: Some(price), ..old(self).items_view()[nft_id@] }),
            ) && final(self).listings_view() == old(self).listings_view().insert(nft_id@, price)),
            final(self).users == old(self).users,
    {
        if let Err(e) = ensure_authorized(caller) {
            return Err(e);
        }
        let i = match self.find_item(&nft_id) {
            Some(i) => i,
            None => {
                return Err(TerraPulseError::NFTNotFound);
            },
        };
        proof {
            lemma_keyed_at(self.nfts@, item_key(), nft_id@, i as int);
        }
        let owns = match &self.nfts[i].owner {
            Some(o) => o.same_as(caller),
            None => false,
        };
        if !owns {
            return Err(TerraPulseError::NotAuthorized);
        }
        let ghost old_items = self.nfts@;
        let ghost old_book = self.listings@;
        let mut nft = self.nfts.remove(i);
        nft.price = Some(price);
        self.nfts.insert(i, nft);
        proof {
            assert(self.nfts@ =~= old_items.update(i as int, nft));
            lemma_keyed_update(old_items, item_key(), i as int, nft);
        }
        match self.find_listing(&nft_id) {
            Some(j) => {
                proof {
                    lemma_keyed_update(old_book, listing_key(), j as int, (nft_id, price));
                }
                self.listings.set(j, (nft_id, price));
            },
            None => {
                proof {
                    lemma_keyed_push(old_book, listing_key(), (nft_id, price));
                }
                self.listings.push((nft_id, price));
            },
        }
        assert(self.listings_view() =~= prices_of(old_book).insert(nft_id@, price));
        assert(asking_prices(self.items_view()) =~= asking_prices(items_of(old_items)).insert(
            nft_id@,
            price,
        ));
        Ok(())
    }

    /// Buys a listed item for the caller: ownership passes to the caller,
    /// the listing is withdrawn, a sale record is appended to the item's
    /// history, and the accounts are settled. Anonymous callers, unknown
    /// ids and unlisted items are refused; on failure nothing changes.
    /// Accounts missing for the buyer or the seller are skipped, and the
    /// sale still succeeds.
    pub fn purchase_nft(&mut self, caller: &Identity, nft_id: String, now: u64) -> (r: Result<
        (),
        TerraPulseError,
    >)
        requires
            old(self).wf(),
        ensures
            final(self).wf(),
            caller@ == anonymous_bytes() ==> r == Err::<(), TerraPulseError>(
                TerraPulseError::NotAuthorized,
            ),
            caller@ != anonymous_bytes() && !old(self).items_view().contains_key(nft_id@) ==> r
                == Err::<(), TerraPulseError>(TerraPulseError::NFTNotFound),
            caller@ != anonymous_bytes() && old(self).items_view().contains_key(nft_id@)
                && old(self).items_view()[nft_id@].price is None ==> (r is Err
                && r->Err_0 is InvalidOperation),
            caller@ != anonymous_bytes() && old(self).items_view().contains_key(nft_id@)
                && old(self).items_view()[nft_id@].price is Some
                && old(self).items_view()[nft_id@].owner is None ==> (r is Err
                && r->Err_0 is SystemError),
            r is Err ==> *final(self) == *old(self),
            caller@ != anonymous_bytes() && old(self).items_view().contains_key(nft_id@)
                && old(self).items_view()[nft_id@].price is Some
                && old(self).items_view()[nft_id@].owner is Some ==> r is Ok,
            r is Ok ==> ({
                let before = old(self).items_view()[nft_id@];
                let after = final(self).items_view()[nft_id@];
                let seller = before.owner->0@;
                let price = before.price->0;
                &&& old(self).items_view().contains_key(nft_id@)
                &&& is_sold(after, before, seller, caller@, price, now)
                &&& final(self).items_view() == old(self).items_view().insert(nft_id@, after)
                &&& final(self).listings_view() == old(self).listings_view().remove(nft_id@)
                &&& !final(self).listings_view().contains_key(nft_id@)
                &&& is_sale_settlement(
                    final(self).users_view(),
                    old(self).users_view(),
                    caller@,
                    seller,
                    nft_id,
                    price,
                )
                &&& old(self).users_view().contains_key(caller@) && caller@ != seller
                    ==> final(self).users_view()[caller@].adopted_nfts@.contains(nft_id)
                &&& old(self).users_view().contains_key(seller)
                    ==> !final(self).users_view()[seller].adopted_nfts@.contains(nft_id)
            }),
    {
        if let Err(e) = ensure_authorized(caller) {
            return Err(e);
        }
        let i = match self.find_item(&nft_id) {
            Some(i) => i,
            None => {
                return Err(TerraPulseError::NFTNotFound);
            },
        };
        proof {
            lemma_keyed_at(self.nfts@, item_key(), nft_id@, i as int);
        }
        let price = match self.nfts[i].price {
            Some(p) => p,
            None => {
                return Err(TerraPulseError::InvalidOperation("NFT not for sale".to_string()));
            },
        };
        let seller = match &self.nfts[i].owner {
            Some(o) => o.duplicate(),
            None => {
                return Err(TerraPulseError::SystemError("No owner found".to_string()));
            },
        };
        let ghost old_self = *self;
        let ghost old_items = self.nfts@;
        let ghost old_book = self.listings@;
        let mut nft = self.nfts.remove(i);
        nft.owner = Some(caller.duplicate());
        nft.price = None;
        let record = Transaction {
            transaction_type: TransactionType::Sale,
            from: seller.duplicate(),
            to: caller.duplicate(),
            price,
            timestamp: now,
            transaction_hash: generate_transaction_hash(now, caller),
        };
        nft.transaction_history.push(record);
        self.nfts.insert(i, nft);
        proof {
            assert(self.nfts@ =~= old_items.update(i as int, nft));
            assert(nft.transaction_history@.drop_last() =~= old_items[i as int].transaction_history@);
            lemma_keyed_update(old_items, item_key(), i as int, nft);
            lemma_keyed_at(self.nfts@, item_key(), nft_id@, i as int);
        }
        match self.find_listing(&nft_id) {
            Some(j) => {
                proof {
                    lemma_keyed_remove(old_book, listing_key(), j as int);
                }
                self.listings.remove(j);
            },
            None => {},
        }
        assert(self.listings_view() =~= prices_of(old_book).remove(nft_id@));
        assert(asking_prices(self.items_view()) =~= asking_prices(items_of(old_items)).remove(
            nft_id@,
        ));
        self.update_user_records(caller, &seller, &nft_id, price);
        proof {
            let after = self.users_view();
            let before = old_self.users_view();
            if before.contains_key(caller@) && caller@ != seller@ {
                let a = before[caller@].adopted_nfts@.push(nft_id);
                assert(a[a.len() - 1] == nft_id);
                assert(after[caller@].adopted_nfts@ == a);
            }
            if before.contains_key(seller@) {
                let p = other_than(nft_id@);
                let a = after[seller@].adopted_nfts@;
                broadcast use vstd::seq_lib::group_filter_ensures;
                assert forall|k: int| 0 <= k < a.len() implies a[k] != nft_id by {
                    if caller@ == seller@ {
                        assert(p(before[seller@].adopted_nfts@.push(nft_id).filter(p)[k]));
                    } else {
                        assert(p(before[seller@].adopted_nfts@.filter(p)[k]));
                    }
                }
            }
        }
        Ok(())
    }

    /// Settles the accounts after a sale of `nft_id` at `price`: the buyer
    /// gains the id and the reward points (saturating), then the seller loses
    /// every occurrence of the id. A missing account is skipped.
    pub fn update_user_records(
        &mut self,
        buyer: &Identity,
        seller: &Identity,
        nft_id: &String,
        price: u64,
    )
        requires
            old(self).wf(),
        ensures
            final(self).wf(),
            is_sale_settlement(
                final(self).users_view(),
                old(self).users_view(),
                buyer@,
                seller@,
                *nft_id,
                price,
            ),
            final(self).nfts == old(self).nfts,
            final(self).listings == old(self).listings,
    {
        let ghost u0 = self.users@;
        if let Some(b) = self.find_user(buyer) {
            let mut u = self.users.remove(b);
            u.adopted_nfts.push(nft_id.clone());
            let reward = calculate_rewards(price);
            if u.rewards_points > u64::MAX - reward {
                u.rewards_points = u64::MAX;
            } else {
                u.rewards_points = u.rewards_points + reward;
            }
            self.users.insert(b, u);
            proof {
                assert(self.users@ =~= u0.update(b as int, u));
                lemma_keyed_at(u0, user_key(), buyer@, b as int);
                lemma_keyed_update(u0, user_key(), b as int, u);
            }
        }
        let ghost u1 = self.users@;
        if let Some(s) = self.find_user(seller) {
            let mut u = self.users.remove(s);
            u.adopted_nfts = without_id(&u.adopted_nfts, nft_id);
            self.users.insert(s, u);
            proof {
                assert(self.users@ =~= u1.update(s as int, u));
                lemma_keyed_at(u1, user_key(), seller@, s as int);
                lemma_keyed_update(u1, user_key(), s as int, u);
            }
        }
        proof {
            let m0 = users_of(u0);
            let m1 = users_of(u1);
            let m2 = self.users_view();
            assert(m1.dom() =~= m0.dom());
            assert(m2.dom() =~= m1.dom());
            assert(m2.dom() == m0.dom());
        }
    }

    /// The item with id `nft_id`.
    pub fn get_nft(&self, nft_id: String) -> (r: Result<&NFT, TerraPulseError>)
        requires
            self.wf(),
        ensures
            match r {
                Ok(n) => self.items_view().contains_key(nft_id@) && *n == self.items_view()[nft_id@],
                Err(e) => !self.items_view().contains_key(nft_id@) && e
                    == TerraPulseError::NFTNotFound,
            },
    {
        match self.find_item(&nft_id) {
            Some(i) => {
                proof {
                    lemma_keyed_at(self.nfts@, item_key(), nft_id@, i as int);
                }
                Ok(&self.nfts[i])
            },
            None => Err(TerraPulseError::NFTNotFound),
        }
    }

    /// The account of `principal_id`.
    pub fn get_user_profile(&self, principal_id: &Identity) -> (r: Result<&User, TerraPulseError>)
        requires
            self.wf(),
        ensures
            match r {
                Ok(u) => self.users_view().contains_key(principal_id@) && *u
                    == self.users_view()[principal_id@],
                Err(e) => !self.users_view().contains_key(principal_id@) && e
                    == TerraPulseError::UserNotFound,
            },
    {
        match self.find_user(principal_id) {
            Some(i) => {
                proof {
                    lemma_keyed_at(self.users@, user_key(), principal_id@, i as int);
                }
                Ok(&self.users[i])
            },
            None => Err(TerraPulseError::UserNotFound),
        }
    }

    /// Every active listing as an (item id, asking price) pair, each id once.
    pub fn get_marketplace_listings(&self) -> (r: Vec<(String, u64)>)
        requires
            self.wf(),
        ensures
            keys_unique(r@, listing_key()),
            prices_of(r@) == self.listings_view(),
            r@.len() == self.listings_view().len(),
    {
        let mut r: Vec<(String, u64)> = Vec::new();
        let mut i: usize = 0;
        while i < self.listings.len()
            invariant
                0 <= i <= self.listings@.len(),
                r@ == self.listings@.take(i as int),
            decreases self.listings@.len() - i,
        {
            r.push((self.listings[i].0.clone(), self.listings[i].1));
            i = i + 1;
            assert(r@ =~= self.listings@.take(i as int));
        }
        assert(r@ =~= self.listings@);
        proof {
            lemma_keyed_len(self.listings@, listing_key());
            assert(self.listings_view().dom() =~= keyed(self.listings@, listing_key()).dom());
        }
        r
    }

    fn find_item(&self, id: &String) -> (r: Option<usize>)
        ensures
            match r {
                Some(i) => key_at(self.nfts@, item_key(), id@, i as int),
                None => !self.items_view().contains_key(id@),
            },
    {
        let mut i: usize = 0;
        while i < self.nfts.len()
            invariant
                0 <= i <= self.nfts@.len(),
                forall|k: int| 0 <= k < i ==> self.nfts@[k].id@ != id@,
            decreases self.nfts@.len() - i,
        {
            if self.nfts[i].id == *id {
                return Some(i);
            }
            i = i + 1;
        }
        None
    }

    fn find_user(&self, who: &Identity) -> (r: Option<usize>)
        ensures
            match r {
                Some(i) => key_at(self.users@, user_key(), who@, i as int),
                None => !self.users_view().contains_key(who@),
            },
    {
        let mut i: usize = 0;
        while i < self.users.len()
            invariant
                0 <= i <= self.users@.len(),
                forall|k: int| 0 <= k < i ==> self.users@[k].principal_id@ != who@,
            decreases self.users@.len() - i,
        {
            if self.users[i].principal_id.same_as(who) {
                return Some(i);
            }
            i = i + 1;
        }
        None
    }

    fn find_listing(&self, id: &String) -> (r: Option<usize>)
        ensures
            match r {
                Some(j) => key_at(self.listings@, listing_key(), id@, j as int),
                None => !keyed(self.listings@, listing_key()).contains_key(id@),
            },
    {
        let mut j: usize = 0;
        while j < self.listings.len()
            invariant
                0 <= j <= self.listings@.len(),
                forall|k: int| 0 <= k < j ==> self.listings@[k].0@ != id@,
            decreases self.listings@.len() - j,
        {
            if self.listings[j].0 == *id {
                return Some(j);
            }
            j = j + 1;
        }
        None
    }
}

/// Refuses the anonymous identity.
pub fn ensure_authorized(principal: &Identity) -> (r: Result<(), TerraPulseError>)
    ensures
        principal@ == anonymous_bytes() ==> r == Err::<(), TerraPulseError>(TerraPulseError::NotAuthorized),
        principal@ != anonymous_bytes() ==> r is Ok,
{
    let anon = anonymous_principal();
    if principal.same_as(&anon) {
        Err(TerraPulseError::NotAuthorized)
    } else {
        Ok(())
    }
}

/// Loyalty points for a purchase: one per hundred units of price, truncating.
pub fn calculate_rewards(price: u64) -> (r: u64)
    ensures
        r == rewards_for(price),
{
    price / 100
}

/// In a well-formed store no two items share an id.
pub proof fn lemma_item_ids_unique(s: &Store, i: int, j: int)
    requires
        s.wf(),
        0 <= i < s.nfts@.len(),
        0 <= j < s.nfts@.len(),
        s.nfts@[i].id@ == s.nfts@[j].id@,
    ensures
        i == j,
{
    assert(item_key()(s.nfts@[i]) == item_key()(s.nfts@[j]));
}

/// In a well-formed store an id is listed exactly when its item carries an
/// asking price, and the listing holds that same price.
pub proof fn lemma_listing_coherence(s: &Store, id: Seq<char>)
    requires
        s.wf(),
    ensures
        s.listings_view().contains_key(id) <==> (s.items_view().contains_key(id)
            && s.items_view()[id].price is Some),
        s.listings_view().contains_key(id) ==> s.items_view()[id].price == Some(
            s.listings_view()[id],
        ),
{
}

} // verus!
