use verida::community::{
    Community, CommunityContract, DataKey, DeliveryValidation, ValidationStatus,
    VerificationStatus,
};
use verida::error::{ContractError, ErrorKind};
use verida::identity::{require_admin, Address};

fn text(s: &str) -> String {
    s.to_string()
}

fn registry_with_community() -> (CommunityContract, Address, Address, String) {
    let mut client = CommunityContract::new();
    let admin = Address::from_str("GADMIN");
    let representative = Address::from_str("GREPRESENTATIVE");
    client.initialize(admin.clone());
    let community_id = text("community-1");
    client.register_community(
        community_id.clone(),
        text("Comunidad A"),
        text("Ciudad A"),
        text("Descripción"),
        representative.clone(),
        1_700_000_000,
    );
    (client, admin, representative, community_id)
}

fn report_delivery(client: &mut CommunityContract, id: &str, community_id: &String, validator: &Address) -> Result<String, ContractError> {
    client.validate_delivery(
        text(id),
        text("donation-1"),
        community_id.clone(),
        validator.clone(),
        text("Alimentos recibidos"),
        100,
        text("https://proof.com/image.jpg"),
        1_700_000_100,
    )
}

#[test]
fn test_register_community() {
    let mut client = CommunityContract::new();

    let admin = Address::from_str("GADMIN");
    let representative = Address::from_str("GREPRESENTATIVE");

    client.initialize(admin);

    let community_id = client.register_community(
        text("community-1"),
        text("Comunidad A"),
        text("Ciudad A"),
        text("Comunidad marginada que necesita ayuda"),
        representative.clone(),
        1_700_000_000,
    );

    assert_eq!(community_id, text("community-1"));

    let community = client.get_community(&text("community-1"));
    assert!(community.is_some());

    let community = community.unwrap();
    assert_eq!(community.representative, representative);
    assert_eq!(community.name, text("Comunidad A"));
}

#[test]
fn test_verify_community() {
    let mut client = CommunityContract::new();

    let admin = Address::from_str("GADMIN");
    let representative = Address::from_str("GREPRESENTATIVE");

    client.initialize(admin.clone());

    let community_id = text("community-1");
    client.register_community(
        community_id.clone(),
        text("Comunidad A"),
        text("Ciudad A"),
        text("Descripción"),
        representative,
        1_700_000_000,
    );

    assert_eq!(client.verify_community(&community_id, &admin), Ok(()));

    let community = client.get_community(&community_id).unwrap();
    assert_eq!(community.verification_status, VerificationStatus::Verified);
}

#[test]
fn test_validate_delivery() {
    let mut client = CommunityContract::new();

    let admin = Address::from_str("GADMIN");
    let representative = Address::from_str("GREPRESENTATIVE");

    client.initialize(admin.clone());

    let community_id = text("community-1");
    client.register_community(
        community_id.clone(),
        text("Comunidad A"),
        text("Ciudad A"),
        text("Descripción"),
        representative.clone(),
        1_700_000_000,
    );

    assert_eq!(client.verify_community(&community_id, &admin), Ok(()));

    let validation_id = client
        .validate_delivery(
            text("validation-1"),
            text("donation-1"),
            community_id,
            representative.clone(),
            text("Alimentos recibidos"),
            100,
            text("https://proof.com/image.jpg"),
            1_700_000_100,
        )
        .unwrap();

    assert_eq!(validation_id, text("validation-1"));

    let validation = client.get_delivery_validation(&validation_id);
    assert!(validation.is_some());

    let validation = validation.unwrap();
    assert_eq!(validation.validator, representative);
    assert_eq!(validation.quantity, 100);
}

#[test]
fn registered_community_starts_pending_and_empty() {
    let (client, _admin, representative, community_id) = registry_with_community();
    let community = client.get_community(&community_id).unwrap();
    assert_eq!(community.id, community_id);
    assert_eq!(community.location, text("Ciudad A"));
    assert_eq!(community.description, text("Descripción"));
    assert_eq!(community.verification_status, VerificationStatus::Pending);
    assert_eq!(community.created_at, 1_700_000_000);
    assert!(community.needs.is_empty());
    assert_eq!(community.deliveries_count, 0);
    assert_eq!(community.total_received, 0);
    assert_eq!(client.get_communities_by_rep(&representative), vec![community_id.clone()]);
    assert!(client.has_community(&community_id));
}

#[test]
fn lookups_of_absent_records_are_empty() {
    let client = CommunityContract::new();
    assert!(client.get_community(&text("nobody")).is_none());
    assert!(client.get_delivery_validation(&text("nothing")).is_none());
    assert!(client.get_communities_by_rep(&Address::from_str("GNOBODY")).is_empty());
    assert!(client.get_validations_by_donation(&text("donation-9")).is_empty());
    assert!(!client.has_community(&text("nobody")));
}

#[test]
fn admin_is_absent_until_initialized_and_its_calls_are_refused() {
    let mut client = CommunityContract::new();
    assert_eq!(client.get_admin(), None);
    assert_eq!(ContractError::AdminNotConfigured.kind(), ErrorKind::Configuration);
    let admin = Address::from_str("GADMIN");
    assert_eq!(
        client.verify_community(&text("community-1"), &admin),
        Err(ContractError::AdminNotConfigured)
    );
    assert_eq!(
        client.approve_delivery(&text("validation-1"), &admin),
        Err(ContractError::AdminNotConfigured)
    );
    assert_eq!(
        client.reject_delivery(&text("validation-1"), &admin),
        Err(ContractError::AdminNotConfigured)
    );
    assert_eq!(
        client.update_total_received(&text("community-1"), 5, &admin),
        Err(ContractError::AdminNotConfigured)
    );
    client.initialize(admin.clone());
    assert_eq!(client.get_admin(), Some(admin));
}

#[test]
fn index_by_representative_is_appended_in_order() {
    let (mut client, _admin, representative, first) = registry_with_community();
    client.register_community(
        text("community-2"),
        text("Comunidad B"),
        text("Ciudad B"),
        text("Otra"),
        representative.clone(),
        1_700_000_050,
    );
    assert_eq!(client.get_communities_by_rep(&representative), vec![first, text("community-2")]);
}

#[test]
fn registering_an_id_again_overwrites_the_record() {
    let (mut client, _admin, _representative, community_id) = registry_with_community();
    let other = Address::from_str("GOTHER");
    client.register_community(
        community_id.clone(),
        text("Comunidad Z"),
        text("Ciudad Z"),
        text("Nueva"),
        other.clone(),
        1_700_000_500,
    );
    let community = client.get_community(&community_id).unwrap();
    assert_eq!(community.name, text("Comunidad Z"));
    assert_eq!(community.representative, other);
    assert_eq!(client.get_communities_by_rep(&other), vec![community_id]);
}

#[test]
fn only_the_admin_verifies() {
    let (mut client, admin, representative, community_id) = registry_with_community();
    assert_eq!(
        client.verify_community(&community_id, &representative),
        Err(ContractError::Unauthorized)
    );
    assert_eq!(
        client.get_community(&community_id).unwrap().verification_status,
        VerificationStatus::Pending
    );
    assert_eq!(client.verify_community(&text("missing"), &admin), Err(ContractError::NotFound));
    assert_eq!(ContractError::NotFound.kind(), ErrorKind::Validation);
    assert_eq!(ContractError::Unauthorized.kind(), ErrorKind::Validation);
}

#[test]
fn verifying_twice_keeps_verified() {
    let (mut client, admin, _representative, community_id) = registry_with_community();
    assert_eq!(client.verify_community(&community_id, &admin), Ok(()));
    assert_eq!(client.verify_community(&community_id, &admin), Ok(()));
    assert_eq!(
        client.get_community(&community_id).unwrap().verification_status,
        VerificationStatus::Verified
    );
}

#[test]
fn needs_are_replaced_by_the_representative_only() {
    let (mut client, admin, representative, community_id) = registry_with_community();
    let needs = vec![text("agua"), text("medicinas")];
    assert_eq!(client.update_needs(&community_id, needs.clone(), &representative), Ok(()));
    assert_eq!(client.get_community(&community_id).unwrap().needs, needs);
    assert_eq!(
        client.update_needs(&community_id, vec![text("otra")], &admin),
        Err(ContractError::Unauthorized)
    );
    assert_eq!(client.get_community(&community_id).unwrap().needs, needs);
    assert_eq!(client.update_needs(&community_id, vec![text("ropa")], &representative), Ok(()));
    assert_eq!(client.get_community(&community_id).unwrap().needs, vec![text("ropa")]);
    assert_eq!(
        client.update_needs(&text("missing"), Vec::new(), &representative),
        Err(ContractError::NotFound)
    );
}

#[test]
fn delivery_of_an_unverified_community_is_refused_for_every_caller() {
    let (mut client, admin, representative, community_id) = registry_with_community();
    assert_eq!(
        report_delivery(&mut client, "validation-1", &community_id, &representative),
        Err(ContractError::IllegalStatus)
    );
    assert_eq!(
        report_delivery(&mut client, "validation-1", &community_id, &admin),
        Err(ContractError::Unauthorized)
    );
    assert_eq!(
        report_delivery(&mut client, "validation-1", &text("missing"), &representative),
        Err(ContractError::NotFound)
    );
    assert!(client.get_delivery_validation(&text("validation-1")).is_none());
    assert!(client.get_validations_by_donation(&text("donation-1")).is_empty());
    assert_eq!(ContractError::IllegalStatus.kind(), ErrorKind::Validation);
}

#[test]
fn delivery_by_another_than_the_representative_is_refused() {
    let (mut client, admin, _representative, community_id) = registry_with_community();
    assert_eq!(client.verify_community(&community_id, &admin), Ok(()));
    assert_eq!(
        report_delivery(&mut client, "validation-1", &community_id, &admin),
        Err(ContractError::Unauthorized)
    );
    assert!(client.get_delivery_validation(&text("validation-1")).is_none());
}

#[test]
fn reported_delivery_is_pending_and_indexed() {
    let (mut client, admin, representative, community_id) = registry_with_community();
    assert_eq!(client.verify_community(&community_id, &admin), Ok(()));
    assert_eq!(
        report_delivery(&mut client, "validation-1", &community_id, &representative),
        Ok(text("validation-1"))
    );
    assert_eq!(
        report_delivery(&mut client, "validation-2", &community_id, &representative),
        Ok(text("validation-2"))
    );
    let validation = client.get_delivery_validation(&text("validation-1")).unwrap();
    assert_eq!(validation.id, text("validation-1"));
    assert_eq!(validation.donation_id, text("donation-1"));
    assert_eq!(validation.community_id, community_id);
    assert_eq!(validation.goods_received, text("Alimentos recibidos"));
    assert_eq!(validation.delivery_proof, text("https://proof.com/image.jpg"));
    assert_eq!(validation.status, ValidationStatus::Pending);
    assert_eq!(validation.created_at, 1_700_000_100);
    assert_eq!(
        client.get_validations_by_donation(&text("donation-1")),
        vec![text("validation-1"), text("validation-2")]
    );
}

#[test]
fn approval_counts_one_delivery_for_the_named_community_only() {
    let (mut client, admin, representative, community_id) = registry_with_community();
    client.register_community(
        text("community-2"),
        text("Comunidad B"),
        text("Ciudad B"),
        text("Otra"),
        representative.clone(),
        1_700_000_050,
    );
    assert_eq!(client.verify_community(&community_id, &admin), Ok(()));
    report_delivery(&mut client, "validation-1", &community_id, &representative).unwrap();

    assert_eq!(client.approve_delivery(&text("validation-1"), &admin), Ok(()));

    assert_eq!(
        client.get_delivery_validation(&text("validation-1")).unwrap().status,
        ValidationStatus::Approved
    );
    assert_eq!(client.get_community(&community_id).unwrap().deliveries_count, 1);
    assert_eq!(client.get_community(&text("community-2")).unwrap().deliveries_count, 0);
    assert_eq!(client.get_community(&community_id).unwrap().total_received, 0);
}

#[test]
fn approval_is_for_the_admin_and_an_existing_validation() {
    let (mut client, admin, representative, community_id) = registry_with_community();
    assert_eq!(client.verify_community(&community_id, &admin), Ok(()));
    report_delivery(&mut client, "validation-1", &community_id, &representative).unwrap();
    assert_eq!(
        client.approve_delivery(&text("validation-1"), &representative),
        Err(ContractError::Unauthorized)
    );
    assert_eq!(client.approve_delivery(&text("missing"), &admin), Err(ContractError::NotFound));
    assert_eq!(client.get_community(&community_id).unwrap().deliveries_count, 0);
    assert_eq!(
        client.get_delivery_validation(&text("validation-1")).unwrap().status,
        ValidationStatus::Pending
    );
}

#[test]
fn rejection_changes_no_counter() {
    let (mut client, admin, representative, community_id) = registry_with_community();
    assert_eq!(client.verify_community(&community_id, &admin), Ok(()));
    report_delivery(&mut client, "validation-1", &community_id, &representative).unwrap();

    assert_eq!(
        client.reject_delivery(&text("validation-1"), &representative),
        Err(ContractError::Unauthorized)
    );
    assert_eq!(client.reject_delivery(&text("missing"), &admin), Err(ContractError::NotFound));
    assert_eq!(client.reject_delivery(&text("validation-1"), &admin), Ok(()));

    assert_eq!(
        client.get_delivery_validation(&text("validation-1")).unwrap().status,
        ValidationStatus::Rejected
    );
    let community = client.get_community(&community_id).unwrap();
    assert_eq!(community.deliveries_count, 0);
    assert_eq!(community.total_received, 0);
}

#[test]
fn total_received_adds_signed_amounts_without_a_floor() {
    let (mut client, admin, representative, community_id) = registry_with_community();
    assert_eq!(client.update_total_received(&community_id, 250, &admin), Ok(()));
    assert_eq!(client.get_community(&community_id).unwrap().total_received, 250);
    assert_eq!(client.update_total_received(&community_id, -400, &admin), Ok(()));
    assert_eq!(client.get_community(&community_id).unwrap().total_received, -150);
    assert_eq!(
        client.update_total_received(&community_id, 1, &representative),
        Err(ContractError::Unauthorized)
    );
    assert_eq!(
        client.update_total_received(&text("missing"), 1, &admin),
        Err(ContractError::NotFound)
    );
    assert_eq!(client.get_community(&community_id).unwrap().total_received, -150);
}

#[test]
fn total_received_refuses_to_leave_its_range() {
    let (mut client, admin, _representative, community_id) = registry_with_community();
    assert_eq!(client.update_total_received(&community_id, i128::MAX, &admin), Ok(()));
    assert_eq!(
        client.update_total_received(&community_id, 1, &admin),
        Err(ContractError::Overflow)
    );
    assert_eq!(client.get_community(&community_id).unwrap().total_received, i128::MAX);
    assert_eq!(ContractError::Overflow.kind(), ErrorKind::Validation);
}

#[test]
fn community_record_keeps_its_counters() {
    let representative = Address::from_str("GREPRESENTATIVE");
    let mut c = Community::register(
        text("community-1"),
        text("Comunidad A"),
        text("Ciudad A"),
        text("Descripción"),
        representative.clone(),
        9,
    );
    assert_eq!(c.verification_status, VerificationStatus::Pending);
    assert_eq!((c.deliveries_count, c.total_received, c.created_at), (0, 0, 9));
    assert!(c.needs.is_empty());

    c.verify();
    assert_eq!(c.verification_status, VerificationStatus::Verified);

    assert_eq!(
        c.replace_needs(vec![text("agua")], &Address::from_str("GOTHER")),
        Err(ContractError::Unauthorized)
    );
    assert!(c.needs.is_empty());
    assert_eq!(c.replace_needs(vec![text("agua")], &representative), Ok(()));
    assert_eq!(c.needs, vec![text("agua")]);

    assert_eq!(c.count_delivery(), Ok(()));
    assert_eq!(c.count_delivery(), Ok(()));
    assert_eq!(c.deliveries_count, 2);
    c.deliveries_count = u32::MAX;
    assert_eq!(c.count_delivery(), Err(ContractError::Overflow));
    assert_eq!(c.deliveries_count, u32::MAX);

    assert_eq!(c.add_received(-7), Ok(()));
    assert_eq!(c.total_received, -7);
    assert_eq!(c.add_received(i128::MIN), Err(ContractError::Overflow));
    assert_eq!(c.add_received(i128::MIN + 7), Ok(()));
    assert_eq!(c.total_received, i128::MIN);
    assert_eq!(c.clone().needs, vec![text("agua")]);
}

#[test]
fn delivery_record_is_reported_by_the_representative_of_a_verified_community() {
    let representative = Address::from_str("GREPRESENTATIVE");
    let mut community = Community::register(
        text("community-1"),
        text("Comunidad A"),
        text("Ciudad A"),
        text("Descripción"),
        representative.clone(),
        9,
    );
    let report = |community: &Community, validator: &Address| {
        DeliveryValidation::report(
            community,
            text("validation-1"),
            text("donation-1"),
            text("community-1"),
            validator.clone(),
            text("Alimentos recibidos"),
            100,
            text("https://proof.com/image.jpg"),
            11,
        )
    };
    assert_eq!(report(&community, &representative).err(), Some(ContractError::IllegalStatus));
    community.verification_status = VerificationStatus::Rejected;
    assert_eq!(report(&community, &representative).err(), Some(ContractError::IllegalStatus));
    community.verify();
    assert_eq!(
        report(&community, &Address::from_str("GOTHER")).err(),
        Some(ContractError::Unauthorized)
    );
    let mut v = report(&community, &representative).unwrap();
    assert_eq!(v.status, ValidationStatus::Pending);
    assert_eq!((v.quantity, v.created_at), (100, 11));
    assert_eq!(v.community_id, "community-1");
    v.approve();
    assert_eq!(v.status, ValidationStatus::Approved);
    v.reject();
    assert_eq!(v.clone().status, ValidationStatus::Rejected);
}

#[test]
fn admin_must_be_configured_and_be_the_caller() {
    let admin = Address::from_str("GADMIN");
    let other = Address::from_str("GOTHER");
    assert_eq!(require_admin(None, &admin), Err(ContractError::AdminNotConfigured));
    assert_eq!(require_admin(Some(&admin), &other), Err(ContractError::Unauthorized));
    assert_eq!(require_admin(Some(&admin), &admin), Ok(()));
}

#[test]
fn approving_again_counts_again() {
    let (mut client, admin, representative, community_id) = registry_with_community();
    assert_eq!(client.verify_community(&community_id, &admin), Ok(()));
    report_delivery(&mut client, "validation-1", &community_id, &representative).unwrap();
    assert_eq!(client.approve_delivery(&text("validation-1"), &admin), Ok(()));
    assert_eq!(client.reject_delivery(&text("validation-1"), &admin), Ok(()));
    assert_eq!(client.get_community(&community_id).unwrap().deliveries_count, 1);
    assert_eq!(client.approve_delivery(&text("validation-1"), &admin), Ok(()));
    assert_eq!(client.get_community(&community_id).unwrap().deliveries_count, 2);
    assert_eq!(
        client.get_delivery_validation(&text("validation-1")).unwrap().status,
        ValidationStatus::Approved
    );
}

#[test]
fn registry_tells_what_is_stored_under_a_key() {
    let (mut client, admin, representative, community_id) = registry_with_community();
    assert_eq!(client.verify_community(&community_id, &admin), Ok(()));
    report_delivery(&mut client, "validation-1", &community_id, &representative).unwrap();
    assert!(client.has(&DataKey::Admin));
    assert!(client.has(&DataKey::Community(community_id)));
    assert!(!client.has(&DataKey::Community(text("validation-1"))));
    assert!(client.has(&DataKey::DeliveryValidation(text("validation-1"))));
    assert!(!client.has(&DataKey::DeliveryValidation(text("community-1"))));
    assert!(client.has(&DataKey::CommunitiesByRepresentative(representative)));
    assert!(!client.has(&DataKey::CommunitiesByRepresentative(admin)));
    assert!(client.has(&DataKey::ValidationsByDonation(text("donation-1"))));
    assert!(!client.has(&DataKey::ValidationsByDonation(text("donation-2"))));
    assert!(!CommunityContract::new().has(&DataKey::Admin));
}
