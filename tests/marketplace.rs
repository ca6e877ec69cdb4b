use sha2::Digest;
use terrapulse_backend::error::TerraPulseError;
use terrapulse_backend::fingerprint::{generate_transaction_hash, generate_unique_nft_id, hex_prefix};
use terrapulse_backend::store::{calculate_rewards, ensure_authorized, without_id, Store};
use terrapulse_backend::types::{
    ConservationStatus, EntityType, Identity, Location, NFTMetadata, PopulationTrend,
    TransactionType,
};

fn who(b: u8) -> Identity {
    Identity::from_bytes(vec![b, 1, 2, 3])
}

fn anonymous() -> Identity {
    Identity::from_bytes(vec![4])
}

fn wildlife() -> (NFTMetadata, EntityType) {
    let metadata = NFTMetadata {
        name: "Snow leopard".to_string(),
        description: "A snow leopard of the high Himalaya".to_string(),
        image_url: "https://example.org/leopard.png".to_string(),
        conservation_status: ConservationStatus::Vulnerable,
        location: Location {
            latitude_e6: 28_000_000,
            longitude_e6: 84_000_000,
            region: "Himalaya".to_string(),
            country: "Nepal".to_string(),
        },
        attributes: vec![("habitat".to_string(), "alpine".to_string())],
    };
    let entity = EntityType::Wildlife {
        species: "Panthera uncia".to_string(),
        category: "mammal".to_string(),
    };
    (metadata, entity)
}

fn mint(s: &mut Store, owner: &Identity, now: u64) -> String {
    let (m, e) = wildlife();
    s.mint_nft(owner, now, &vec![7, 7], m, e).unwrap()
}

fn expected_hex(now: u64, tail: &[u8], n: usize) -> String {
    let mut data = now.to_be_bytes().to_vec();
    data.extend_from_slice(tail);
    let d = sha2::Sha256::digest(&data);
    hex::encode(&d[..n])
}

#[test]
fn mints_give_distinct_ids() {
    let mut s = Store::new();
    let a = who(1);
    let mut ids = std::collections::HashSet::new();
    for t in 0..10_000u64 {
        let id = mint(&mut s, &a, t);
        assert!(ids.insert(id));
    }
    assert_eq!(ids.len(), 10_000);
    assert_eq!(s.nfts.len(), 10_000);
}

#[test]
fn minting_same_id_twice_is_refused() {
    let mut s = Store::new();
    let a = who(1);
    let first = mint(&mut s, &a, 5);
    let (m, e) = wildlife();
    let r = s.mint_nft(&a, 5, &vec![7, 7], m, e);
    assert!(matches!(r, Err(TerraPulseError::SystemError(_))));
    assert_eq!(s.nfts.len(), 1);
    assert_eq!(s.nfts[0].id, first);
}

#[test]
fn mint_builds_item() {
    let mut s = Store::new();
    let a = who(1);
    let id = mint(&mut s, &a, 1000);
    assert_eq!(id, expected_hex(1000, &[7, 7], 8));
    assert_eq!(id.len(), 16);
    let n = s.get_nft(id.clone()).unwrap();
    assert_eq!(n.owner, Some(a.clone()));
    assert_eq!(n.price, None);
    assert_eq!(n.creation_date, 1000);
    assert_eq!(n.transaction_history.len(), 1);
    let t = &n.transaction_history[0];
    assert_eq!(t.transaction_type, TransactionType::Mint);
    assert_eq!(t.from, anonymous());
    assert_eq!(t.to, a);
    assert_eq!(t.price, 0);
    assert_eq!(t.transaction_hash, expected_hex(1000, &[1, 1, 2, 3], 16));
    assert_eq!(n.conservation_data.status, ConservationStatus::LeastConcern);
    assert_eq!(n.conservation_data.population_trend, PopulationTrend::Unknown);
    assert!(s.users.is_empty());
}

#[test]
fn id_and_hash_derivation() {
    let id = generate_unique_nft_id(0x0102030405060708, &vec![9, 8, 7]);
    assert_eq!(id, expected_hex(0x0102030405060708, &[9, 8, 7], 8));
    let h = generate_transaction_hash(42, &who(3));
    assert_eq!(h, expected_hex(42, &[3, 1, 2, 3], 16));
    assert_eq!(h.len(), 32);
}

#[test]
fn anonymous_caller_is_refused() {
    assert!(matches!(ensure_authorized(&anonymous()), Err(TerraPulseError::NotAuthorized)));
    assert!(ensure_authorized(&who(1)).is_ok());
    let mut s = Store::new();
    let r = s.register_user(&anonymous(), "anon".to_string(), None, 1);
    assert!(matches!(r, Err(TerraPulseError::NotAuthorized)));
    let (m, e) = wildlife();
    let r = s.mint_nft(&anonymous(), 1, &vec![], m, e);
    assert!(matches!(r, Err(TerraPulseError::NotAuthorized)));
    assert!(s.users.is_empty() && s.nfts.is_empty());
}

#[test]
fn reregistration_is_rejected() {
    let mut s = Store::new();
    let a = who(1);
    let r = s.register_user(&a, "alice".to_string(), Some("a@x.org".to_string()), 10);
    assert_eq!(r.unwrap(), a);
    let u = s.get_user_profile(&a).unwrap().clone();
    assert_eq!(u.username, "alice");
    assert_eq!(u.rewards_points, 0);
    assert_eq!(u.created_at, 10);
    let r = s.register_user(&a, "other".to_string(), None, 20);
    assert!(matches!(r, Err(TerraPulseError::InvalidOperation(_))));
    assert_eq!(s.users.len(), 1);
    let u2 = s.get_user_profile(&a).unwrap();
    assert_eq!(u2.username, "alice");
    assert_eq!(u2.email, Some("a@x.org".to_string()));
    assert_eq!(u2.created_at, 10);
}

#[test]
fn unknown_user_is_reported() {
    let s = Store::new();
    assert!(matches!(s.get_user_profile(&who(9)), Err(TerraPulseError::UserNotFound)));
    assert!(matches!(s.get_nft("nope".to_string()), Err(TerraPulseError::NFTNotFound)));
}

#[test]
fn non_owner_listing_is_rejected() {
    let mut s = Store::new();
    let a = who(1);
    let b = who(2);
    let x = mint(&mut s, &a, 1);
    let r = s.list_nft_for_sale(&b, x.clone(), 500);
    assert!(matches!(r, Err(TerraPulseError::NotAuthorized)));
    assert_eq!(s.get_nft(x.clone()).unwrap().price, None);
    assert!(s.get_marketplace_listings().is_empty());
    let r = s.list_nft_for_sale(&a, "missing".to_string(), 500);
    assert!(matches!(r, Err(TerraPulseError::NFTNotFound)));
}

#[test]
fn relisting_replaces_price() {
    let mut s = Store::new();
    let a = who(1);
    let x = mint(&mut s, &a, 1);
    s.list_nft_for_sale(&a, x.clone(), 500).unwrap();
    s.list_nft_for_sale(&a, x.clone(), 700).unwrap();
    assert_eq!(s.get_marketplace_listings(), vec![(x.clone(), 700)]);
    assert_eq!(s.get_nft(x).unwrap().price, Some(700));
}

#[test]
fn listings_match_items() {
    let mut s = Store::new();
    let a = who(1);
    let b = who(2);
    let ids: Vec<String> = (0..6u64).map(|t| mint(&mut s, &a, t)).collect();
    for (k, id) in ids.iter().enumerate() {
        if k % 2 == 0 {
            s.list_nft_for_sale(&a, id.clone(), 100 * (k as u64 + 1)).unwrap();
        }
    }
    s.purchase_nft(&b, ids[2].clone(), 50).unwrap();
    let listings = s.get_marketplace_listings();
    for id in &ids {
        let n = s.get_nft(id.clone()).unwrap();
        let listed: Vec<u64> = listings.iter().filter(|e| &e.0 == id).map(|e| e.1).collect();
        match n.price {
            Some(p) => assert_eq!(listed, vec![p]),
            None => assert!(listed.is_empty()),
        }
    }
    assert_eq!(listings.len(), 2);
}

#[test]
fn purchase_requires_listing() {
    let mut s = Store::new();
    let a = who(1);
    let b = who(2);
    let x = mint(&mut s, &a, 1);
    let r = s.purchase_nft(&b, x.clone(), 2);
    assert!(matches!(r, Err(TerraPulseError::InvalidOperation(_))));
    assert_eq!(s.get_nft(x.clone()).unwrap().owner, Some(a));
    let r = s.purchase_nft(&b, "missing".to_string(), 2);
    assert!(matches!(r, Err(TerraPulseError::NFTNotFound)));
    let r = s.purchase_nft(&anonymous(), x, 2);
    assert!(matches!(r, Err(TerraPulseError::NotAuthorized)));
}

#[test]
fn purchase_transfers_ownership() {
    let mut s = Store::new();
    let a = who(1);
    let b = who(2);
    s.register_user(&a, "alice".to_string(), None, 1).unwrap();
    s.register_user(&b, "bob".to_string(), None, 1).unwrap();
    let x = mint(&mut s, &a, 2);
    s.users[0].adopted_nfts.push(x.clone());
    s.list_nft_for_sale(&a, x.clone(), 300).unwrap();
    s.purchase_nft(&b, x.clone(), 3).unwrap();
    let n = s.get_nft(x.clone()).unwrap();
    assert_eq!(n.owner, Some(b.clone()));
    assert_eq!(n.price, None);
    assert_eq!(n.transaction_history.len(), 2);
    let t = &n.transaction_history[1];
    assert_eq!(t.transaction_type, TransactionType::Sale);
    assert_eq!(t.from, a);
    assert_eq!(t.to, b);
    assert_eq!(t.price, 300);
    assert_eq!(t.timestamp, 3);
    assert_eq!(t.transaction_hash, expected_hex(3, &[2, 1, 2, 3], 16));
    assert!(s.get_marketplace_listings().is_empty());
    assert!(s.get_user_profile(&b).unwrap().adopted_nfts.contains(&x));
    assert!(!s.get_user_profile(&a).unwrap().adopted_nfts.contains(&x));
    assert_eq!(s.get_user_profile(&b).unwrap().rewards_points, 3);
}

#[test]
fn rewards_truncate() {
    assert_eq!(calculate_rewards(250), 2);
    assert_eq!(calculate_rewards(99), 0);
    assert_eq!(calculate_rewards(0), 0);
    assert_eq!(calculate_rewards(u64::MAX), 184467440737095516);
    for (price, points) in [(250u64, 2u64), (99, 0)] {
        let mut s = Store::new();
        let a = who(1);
        let b = who(2);
        s.register_user(&b, "bob".to_string(), None, 1).unwrap();
        let x = mint(&mut s, &a, 2);
        s.list_nft_for_sale(&a, x.clone(), price).unwrap();
        s.purchase_nft(&b, x, 3).unwrap();
        assert_eq!(s.get_user_profile(&b).unwrap().rewards_points, points);
    }
}

#[test]
fn rewards_saturate() {
    let mut s = Store::new();
    let a = who(1);
    let b = who(2);
    s.register_user(&b, "bob".to_string(), None, 1).unwrap();
    s.users[0].rewards_points = u64::MAX - 1;
    let x = mint(&mut s, &a, 2);
    s.list_nft_for_sale(&a, x.clone(), 1000).unwrap();
    s.purchase_nft(&b, x, 3).unwrap();
    assert_eq!(s.get_user_profile(&b).unwrap().rewards_points, u64::MAX);
}

#[test]
fn missing_accounts_are_skipped() {
    let mut s = Store::new();
    let a = who(1);
    let b = who(2);
    let x = mint(&mut s, &a, 1);
    s.list_nft_for_sale(&a, x.clone(), 500).unwrap();
    assert!(s.purchase_nft(&b, x.clone(), 2).is_ok());
    assert_eq!(s.get_nft(x).unwrap().owner, Some(b));
    assert!(s.users.is_empty());
}

#[test]
fn buying_own_listing_leaves_id_out() {
    let mut s = Store::new();
    let a = who(1);
    s.register_user(&a, "alice".to_string(), None, 1).unwrap();
    let x = mint(&mut s, &a, 2);
    s.list_nft_for_sale(&a, x.clone(), 400).unwrap();
    s.purchase_nft(&a, x.clone(), 3).unwrap();
    let u = s.get_user_profile(&a).unwrap();
    assert!(!u.adopted_nfts.contains(&x));
    assert_eq!(u.rewards_points, 4);
    assert_eq!(s.get_nft(x).unwrap().owner, Some(a));
}

#[test]
fn without_id_drops_every_occurrence() {
    let v = vec!["a".to_string(), "b".to_string(), "a".to_string(), "c".to_string()];
    assert_eq!(without_id(&v, &"a".to_string()), vec!["b".to_string(), "c".to_string()]);
    assert_eq!(without_id(&v, &"z".to_string()), v);
    assert!(without_id(&vec![], &"a".to_string()).is_empty());
}

#[test]
fn register_mint_list_purchase_scenario() {
    let mut s = Store::new();
    let a = who(1);
    let b = who(2);
    s.register_user(&a, "alice".to_string(), None, 1).unwrap();
    s.register_user(&b, "bob".to_string(), None, 1).unwrap();
    let x = mint(&mut s, &a, 2);
    s.list_nft_for_sale(&a, x.clone(), 500).unwrap();
    assert_eq!(s.get_marketplace_listings(), vec![(x.clone(), 500)]);
    s.purchase_nft(&b, x.clone(), 3).unwrap();
    assert_eq!(s.get_nft(x.clone()).unwrap().owner, Some(b.clone()));
    assert!(s.get_marketplace_listings().is_empty());
    assert!(!s.get_user_profile(&a).unwrap().adopted_nfts.contains(&x));
    assert!(s.get_user_profile(&b).unwrap().adopted_nfts.contains(&x));
    assert_eq!(s.get_user_profile(&b).unwrap().rewards_points, 5);
}

#[test]
fn hex_prefix_encodes_leading_bytes() {
    assert_eq!(hex_prefix(&vec![0xab, 0x01, 0xff], 2), "ab01");
    assert_eq!(hex_prefix(&vec![0xab], 0), "");
}
