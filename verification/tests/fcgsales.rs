use fcgsales::BadgeError;
use fcgsales::BadgeIssuer;
use fcgsales::EventKind;
use fcgsales::OfferError;
use fcgsales::Registry;
use fcgsales::Resolution;
use fcgsales::Role;

#[test]
fn test_fcg_sales() {
    // Bootstrap the registry and its capabilities.
    let (mut registry, _owner, admin) = Registry::instantiate(1);

    // Send an offer under admin authority.
    let offer_amount: u128 = 400;
    let expiry_date: u64 = 3000;
    let offer = registry
        .send_offer(&admin, "hash_pdf".to_string(), expiry_date, offer_amount, 2, 100)
        .expect("sending an offer under admin authority succeeds");

    // Issue a badge to a customer to let it accept an offer.
    let customer = registry
        .issue(&admin, Role::Customer, "azienda1".to_string())
        .expect("issuing a customer badge under admin authority succeeds");

    // Accept the offer with the customer badge and the offer's own token.
    registry
        .accept_offer(&customer, &offer, 200)
        .expect("accepting a pending, unexpired offer succeeds");
}

#[test]
fn accept_sets_state_and_emits_event() {
    let (mut registry, _owner, admin) = Registry::instantiate(1);
    let offer = registry
        .send_offer(&admin, "hash_pdf".to_string(), 3000, 400, 2, 100)
        .unwrap();
    let customer = registry
        .issue(&admin, Role::Customer, "azienda1".to_string())
        .unwrap();

    registry.accept_offer(&customer, &offer, 1000).unwrap();

    let record = registry.get_offer(offer.id()).unwrap();
    assert_eq!(record.resolution, Resolution::Accepted { at: 1000 });
    assert_eq!(record.amount, 400);
    assert_eq!(record.created_at, 100);

    let events = registry.events();
    assert_eq!(events.len(), 1);
    assert_eq!(events[0].kind, EventKind::Accepted);
    assert_eq!(events[0].resolved_at, 1000);
    assert_eq!(events[0].snapshot.amount, 400);
    assert_eq!(events[0].snapshot.content_hash, "hash_pdf".to_string());
    assert_eq!(events[0].snapshot.resolution, Resolution::Accepted { at: 1000 });
}

#[test]
fn refuse_sets_state_and_emits_event() {
    let (mut registry, _owner, admin) = Registry::instantiate(1);
    let offer = registry
        .send_offer(&admin, "hash_pdf".to_string(), 3000, 400, 2, 100)
        .unwrap();
    let customer = registry
        .issue(&admin, Role::Customer, "azienda1".to_string())
        .unwrap();

    registry.refuse_offer(&customer, &offer, 1500).unwrap();

    let record = registry.get_offer(offer.id()).unwrap();
    assert_eq!(record.resolution, Resolution::Refused { at: 1500 });

    let events = registry.events();
    assert_eq!(events.len(), 1);
    assert_eq!(events[0].kind, EventKind::Refused);
    assert_eq!(events[0].snapshot.resolution, Resolution::Refused { at: 1500 });
}

#[test]
fn resolved_offer_rejects_further_resolution() {
    let (mut registry, _owner, admin) = Registry::instantiate(1);
    let offer = registry
        .send_offer(&admin, "hash_pdf".to_string(), 3000, 400, 2, 100)
        .unwrap();
    let customer = registry
        .issue(&admin, Role::Customer, "azienda1".to_string())
        .unwrap();

    registry.accept_offer(&customer, &offer, 1000).unwrap();

    // Terminal states are immutable: both calls fail and nothing moves.
    assert_eq!(
        registry.accept_offer(&customer, &offer, 1001),
        Err(OfferError::AlreadyResolved)
    );
    assert_eq!(
        registry.refuse_offer(&customer, &offer, 1001),
        Err(OfferError::AlreadyResolved)
    );
    let record = registry.get_offer(offer.id()).unwrap();
    assert_eq!(record.resolution, Resolution::Accepted { at: 1000 });
    assert_eq!(registry.events().len(), 1);
}

#[test]
fn expired_offer_rejects_accept_and_refuse() {
    let (mut registry, _owner, admin) = Registry::instantiate(1);
    let offer = registry
        .send_offer(&admin, "hash_pdf".to_string(), 3000, 400, 2, 100)
        .unwrap();
    let customer = registry
        .issue(&admin, Role::Customer, "azienda1".to_string())
        .unwrap();

    assert_eq!(registry.accept_offer(&customer, &offer, 3001), Err(OfferError::Expired));
    assert_eq!(registry.refuse_offer(&customer, &offer, 4000), Err(OfferError::Expired));
    let record = registry.get_offer(offer.id()).unwrap();
    assert_eq!(record.resolution, Resolution::Pending);
}

#[test]
fn expiry_threshold_itself_is_still_valid() {
    let (mut registry, _owner, admin) = Registry::instantiate(1);
    let offer = registry
        .send_offer(&admin, "hash_pdf".to_string(), 3000, 400, 2, 100)
        .unwrap();
    let customer = registry
        .issue(&admin, Role::Customer, "azienda1".to_string())
        .unwrap();

    registry.accept_offer(&customer, &offer, 3000).unwrap();
    let record = registry.get_offer(offer.id()).unwrap();
    assert_eq!(record.resolution, Resolution::Accepted { at: 3000 });
}

#[test]
fn badge_keys_increase_per_role() {
    let (mut registry, _owner, admin) = Registry::instantiate(1);

    let m1 = registry.issue(&admin, Role::Manager, "m1".to_string()).unwrap();
    let m2 = registry.issue(&admin, Role::Manager, "m2".to_string()).unwrap();

    // A failed attempt allocates nothing: a customer badge cannot issue
    // managers.
    let customer = registry.issue(&admin, Role::Customer, "c1".to_string()).unwrap();
    assert_eq!(
        registry.issue(&customer, Role::Manager, "mx".to_string()).err(),
        Some(OfferError::Unauthorized)
    );

    let m3 = registry.issue(&admin, Role::Manager, "m3".to_string()).unwrap();

    assert_eq!(m1.key(), 1);
    assert_eq!(m2.key(), 2);
    assert_eq!(m3.key(), 3);

    // The customer index runs independently of the manager index.
    assert_eq!(customer.key(), 1);
    let c2 = registry.issue(&admin, Role::Customer, "c2".to_string()).unwrap();
    assert_eq!(c2.key(), 2);
}

#[test]
fn manager_can_issue_customers_and_send_offers() {
    let (mut registry, _owner, admin) = Registry::instantiate(1);
    let manager = registry.issue(&admin, Role::Manager, "m1".to_string()).unwrap();
    assert_eq!(manager.role(), Role::Manager);
    assert_eq!(manager.display_name().as_str(), "m1");

    let customer = registry
        .issue(&manager, Role::Customer, "c1".to_string())
        .unwrap();
    assert_eq!(customer.role(), Role::Customer);

    let offer = registry
        .send_offer(&manager, "hash_pdf".to_string(), 3000, 400, 2, 100)
        .unwrap();
    registry.accept_offer(&customer, &offer, 200).unwrap();
}

#[test]
fn unauthorized_callers_are_rejected() {
    let (mut registry, _owner, admin) = Registry::instantiate(1);
    let customer = registry
        .issue(&admin, Role::Customer, "c1".to_string())
        .unwrap();

    // A customer cannot mint offers.
    assert_eq!(
        registry
            .send_offer(&customer, "hash_pdf".to_string(), 3000, 400, 2, 100)
            .err(),
        Some(OfferError::Unauthorized)
    );

    // A manager cannot accept offers: resolving takes customer authority.
    let manager = registry.issue(&admin, Role::Manager, "m1".to_string()).unwrap();
    let offer = registry
        .send_offer(&admin, "hash_pdf".to_string(), 3000, 400, 2, 100)
        .unwrap();
    assert_eq!(registry.accept_offer(&manager, &offer, 200), Err(OfferError::Unauthorized));

    // A manager cannot issue managers.
    assert_eq!(
        registry.issue(&manager, Role::Manager, "m2".to_string()).err(),
        Some(OfferError::Unauthorized)
    );

    // Nothing was minted or resolved by any of the rejected calls.
    assert_eq!(registry.offer_count(), 1);
    assert_eq!(registry.events().len(), 0);
}

#[test]
fn badge_of_another_registry_is_rejected() {
    let (mut registry, _owner, _admin) = Registry::instantiate(1);
    let (mut other, _other_owner, other_admin) = Registry::instantiate(2);

    assert_eq!(
        registry
            .send_offer(&other_admin, "hash_pdf".to_string(), 3000, 400, 2, 100)
            .err(),
        Some(OfferError::Unauthorized)
    );

    // The foreign admin still works at home.
    assert!(other
        .send_offer(&other_admin, "hash_pdf".to_string(), 3000, 400, 2, 100)
        .is_ok());
}

#[test]
fn token_of_another_registry_is_rejected() {
    let (mut registry, _owner, admin) = Registry::instantiate(1);
    let (mut other, _other_owner, other_admin) = Registry::instantiate(2);
    let customer = registry
        .issue(&admin, Role::Customer, "c1".to_string())
        .unwrap();
    let foreign_offer = other
        .send_offer(&other_admin, "hash_pdf".to_string(), 3000, 400, 2, 100)
        .unwrap();

    // The token proves possession of an offer of the other registry, not
    // of this one.
    assert_eq!(
        registry.accept_offer(&customer, &foreign_offer, 200),
        Err(OfferError::Unauthorized)
    );
    assert_eq!(registry.events().len(), 0);
}

#[test]
fn standalone_issuer_allocates_keys_and_checks_authority() {
    // The issuer is a leaf component; a registry's capabilities work on an
    // issuer bootstrapped for the same registry identifier.
    let (_registry, owner, admin) = Registry::instantiate(1);
    let mut issuer = BadgeIssuer::new(1);

    let m1 = issuer.issue(&admin, Role::Manager, "m1".to_string()).unwrap();
    let m2 = issuer.issue(&owner, Role::Manager, "m2".to_string()).unwrap();
    assert_eq!(m1.key(), 1);
    assert_eq!(m2.key(), 2);

    // Only managers and customers are ever issued; admin and owner
    // capabilities exist from bootstrap alone.
    assert_eq!(
        issuer.issue(&admin, Role::Admin, "a2".to_string()).err(),
        Some(BadgeError::Unauthorized)
    );
    assert_eq!(
        issuer.issue(&owner, Role::Owner, "o2".to_string()).err(),
        Some(BadgeError::Unauthorized)
    );

    // The failed attempts allocated nothing.
    let m3 = issuer.issue(&admin, Role::Manager, "m3".to_string()).unwrap();
    assert_eq!(m3.key(), 3);
}

#[test]
fn cancel_offer_is_unimplemented() {
    let (mut registry, _owner, admin) = Registry::instantiate(1);
    let offer = registry
        .send_offer(&admin, "hash_pdf".to_string(), 3000, 400, 2, 100)
        .unwrap();
    assert_eq!(registry.cancel_offer(offer.id()), Err(OfferError::Unimplemented));
    let record = registry.get_offer(offer.id()).unwrap();
    assert_eq!(record.resolution, Resolution::Pending);
}

#[test]
fn each_offer_gets_a_fresh_identifier() {
    let (mut registry, _owner, admin) = Registry::instantiate(1);
    let first = registry
        .send_offer(&admin, "hash_pdf".to_string(), 3000, 400, 2, 100)
        .unwrap();
    // No duplicate detection: the same hash mints an independent record.
    let second = registry
        .send_offer(&admin, "hash_pdf".to_string(), 3000, 400, 2, 100)
        .unwrap();
    assert_eq!(first.id(), 1);
    assert_eq!(second.id(), 2);
    assert_eq!(registry.offer_count(), 2);
}
