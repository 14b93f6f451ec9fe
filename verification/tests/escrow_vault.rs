use verida::assets::AssetLedger;
use verida::error::{ContractError, ErrorKind};
use verida::escrow::{DataKey, Escrow, EscrowContract, EscrowStatus};
use verida::identity::Address;

const START: u64 = 1_700_000_000;

struct Parties {
    vault: Address,
    donor: Address,
    recipient: Address,
    validator: Address,
    asset: Address,
}

fn parties() -> Parties {
    Parties {
        vault: Address::from_str("CVAULT"),
        donor: Address::from_str("GDONOR"),
        recipient: Address::from_str("GRECIPIENT"),
        validator: Address::from_str("GVALIDATOR"),
        asset: Address::from_str("CASSET"),
    }
}

fn label(s: &str) -> String {
    s.to_string()
}

fn open_escrow(timeout_hours: u64) -> (EscrowContract, AssetLedger, Parties, String) {
    let p = parties();
    let mut funds = AssetLedger::new();
    funds.mint(&p.asset, &p.donor, 1000).unwrap();
    let mut client = EscrowContract::new(p.vault.clone());
    client.initialize(Address::from_str("GADMIN"));
    let id = label("escrow-1");
    client
        .create_escrow(
            &mut funds,
            id.clone(),
            p.donor.clone(),
            p.recipient.clone(),
            p.validator.clone(),
            1000,
            p.asset.clone(),
            label("Test conditions"),
            timeout_hours,
            START,
        )
        .unwrap();
    (client, funds, p, id)
}

#[test]
fn test_create_escrow() {
    let p = parties();
    let mut funds = AssetLedger::new();
    funds.mint(&p.asset, &p.donor, 1000).unwrap();
    let mut client = EscrowContract::new(p.vault.clone());

    client.initialize(Address::from_str("GADMIN"));

    let escrow_id = client
        .create_escrow(
            &mut funds,
            label("escrow-1"),
            p.donor.clone(),
            p.recipient.clone(),
            p.validator.clone(),
            1000,
            p.asset.clone(),
            label("Entrega verificada por la comunidad"),
            24,
            START,
        )
        .unwrap();

    assert_eq!(escrow_id, label("escrow-1"));

    let escrow = client.get_escrow(&label("escrow-1"));
    assert!(escrow.is_some());

    let escrow = escrow.unwrap();
    assert_eq!(escrow.donor, p.donor);
    assert_eq!(escrow.recipient, p.recipient);
    assert_eq!(escrow.validator, p.validator);
    assert_eq!(escrow.amount, 1000);
}

#[test]
fn test_validate_and_release_escrow() {
    let p = parties();
    let mut funds = AssetLedger::new();
    funds.mint(&p.asset, &p.donor, 1000).unwrap();
    let mut client = EscrowContract::new(p.vault.clone());

    client.initialize(Address::from_str("GADMIN"));

    let escrow_id = label("escrow-1");
    client
        .create_escrow(
            &mut funds,
            escrow_id.clone(),
            p.donor.clone(),
            p.recipient.clone(),
            p.validator.clone(),
            1000,
            p.asset.clone(),
            label("Test conditions"),
            24,
            START,
        )
        .unwrap();

    assert_eq!(client.validate_escrow(&escrow_id, &p.validator, START + 60), Ok(()));

    let escrow = client.get_escrow(&escrow_id).unwrap();
    assert_eq!(escrow.status, EscrowStatus::Validated);

    assert_eq!(client.release_escrow(&mut funds, &escrow_id, &p.recipient), Ok(()));

    let escrow = client.get_escrow(&escrow_id).unwrap();
    assert_eq!(escrow.status, EscrowStatus::Released);
}

#[test]
fn created_escrow_is_active_with_its_timeout_and_funds_in_custody() {
    let (client, funds, p, id) = open_escrow(24);
    let escrow = client.get_escrow(&id).unwrap();
    assert_eq!(escrow.id, id);
    assert_eq!(escrow.asset, p.asset);
    assert_eq!(escrow.conditions, label("Test conditions"));
    assert_eq!(escrow.status, EscrowStatus::Active);
    assert_eq!(escrow.created_at, START);
    assert_eq!(escrow.timeout, START + 86_400);
    assert_eq!(funds.balance(&p.asset, &p.donor), 0);
    assert_eq!(funds.balance(&p.asset, &p.vault), 1000);
    assert_eq!(client.get_escrows_by_donor(&p.donor), vec![id.clone()]);
    assert_eq!(client.get_escrows_by_recipient(&p.recipient), vec![id.clone()]);
    assert!(client.get_escrows_by_donor(&p.recipient).is_empty());
    assert!(client.has_escrow(&id));
    assert!(!client.has_escrow(&label("escrow-2")));
    assert!(client.get_escrow(&label("escrow-2")).is_none());
}

#[test]
fn escrow_of_nothing_or_less_creates_no_record_and_moves_nothing() {
    let p = parties();
    let mut funds = AssetLedger::new();
    funds.mint(&p.asset, &p.donor, 1000).unwrap();
    let mut client = EscrowContract::new(p.vault.clone());
    for amount in [0, -1, -1000, i128::MIN] {
        assert_eq!(
            client.create_escrow(
                &mut funds,
                label("escrow-1"),
                p.donor.clone(),
                p.recipient.clone(),
                p.validator.clone(),
                amount,
                p.asset.clone(),
                label("c"),
                24,
                START,
            ),
            Err(ContractError::NonPositiveAmount)
        );
    }
    assert!(client.get_escrow(&label("escrow-1")).is_none());
    assert!(client.get_escrows_by_donor(&p.donor).is_empty());
    assert!(client.get_escrows_by_recipient(&p.recipient).is_empty());
    assert_eq!(funds.balance(&p.asset, &p.donor), 1000);
    assert_eq!(funds.balance(&p.asset, &p.vault), 0);
    assert_eq!(ContractError::NonPositiveAmount.kind(), ErrorKind::Validation);
}

#[test]
fn escrow_without_funds_creates_no_record() {
    let p = parties();
    let mut funds = AssetLedger::new();
    funds.mint(&p.asset, &p.donor, 999).unwrap();
    let mut client = EscrowContract::new(p.vault.clone());
    assert_eq!(
        client.create_escrow(
            &mut funds,
            label("escrow-1"),
            p.donor.clone(),
            p.recipient.clone(),
            p.validator.clone(),
            1000,
            p.asset.clone(),
            label("c"),
            24,
            START,
        ),
        Err(ContractError::TransferFailed)
    );
    assert!(client.get_escrow(&label("escrow-1")).is_none());
    assert!(client.get_escrows_by_donor(&p.donor).is_empty());
    assert_eq!(funds.balance(&p.asset, &p.donor), 999);
    assert_eq!(funds.balance(&p.asset, &p.vault), 0);
    assert_eq!(ContractError::TransferFailed.kind(), ErrorKind::Validation);
}

#[test]
fn escrow_whose_timeout_leaves_the_clock_is_refused() {
    let p = parties();
    let mut funds = AssetLedger::new();
    funds.mint(&p.asset, &p.donor, 1000).unwrap();
    let mut client = EscrowContract::new(p.vault.clone());
    for (hours, now) in [(u64::MAX, 0), (u64::MAX / 3600 + 1, 0), (1, u64::MAX - 3599)] {
        assert_eq!(
            client.create_escrow(
                &mut funds,
                label("escrow-1"),
                p.donor.clone(),
                p.recipient.clone(),
                p.validator.clone(),
                1000,
                p.asset.clone(),
                label("c"),
                hours,
                now,
            ),
            Err(ContractError::Overflow)
        );
    }
    assert!(client.get_escrow(&label("escrow-1")).is_none());
    assert_eq!(funds.balance(&p.asset, &p.donor), 1000);
    let r = client.create_escrow(
        &mut funds,
        label("escrow-1"),
        p.donor.clone(),
        p.recipient.clone(),
        p.validator.clone(),
        1000,
        p.asset.clone(),
        label("c"),
        1,
        u64::MAX - 3600,
    );
    assert_eq!(r, Ok(label("escrow-1")));
    assert_eq!(client.get_escrow(&label("escrow-1")).unwrap().timeout, u64::MAX);
}

#[test]
fn escrow_with_no_hours_times_out_at_once() {
    let (mut client, mut funds, p, id) = open_escrow(0);
    assert_eq!(client.get_escrow(&id).unwrap().timeout, START);
    assert_eq!(client.validate_escrow(&id, &p.validator, START + 1), Err(ContractError::Expired));
    assert_eq!(
        client.handle_expiration(&mut funds, &id, START),
        Err(ContractError::NotYetExpired)
    );
    assert_eq!(client.handle_expiration(&mut funds, &id, START + 1), Ok(()));
}

#[test]
fn validation_is_for_the_validator_of_an_active_escrow_in_time() {
    let (mut client, _funds, p, id) = open_escrow(24);
    assert_eq!(
        client.validate_escrow(&label("missing"), &p.validator, START),
        Err(ContractError::NotFound)
    );
    assert_eq!(
        client.validate_escrow(&id, &p.donor, START),
        Err(ContractError::Unauthorized)
    );
    assert_eq!(
        client.validate_escrow(&id, &p.recipient, START),
        Err(ContractError::Unauthorized)
    );
    assert_eq!(
        client.validate_escrow(&id, &p.validator, START + 86_401),
        Err(ContractError::Expired)
    );
    assert_eq!(client.get_escrow(&id).unwrap().status, EscrowStatus::Active);
    assert_eq!(client.validate_escrow(&id, &p.validator, START + 86_400), Ok(()));
    assert_eq!(client.get_escrow(&id).unwrap().status, EscrowStatus::Validated);
    assert_eq!(
        client.validate_escrow(&id, &p.validator, START),
        Err(ContractError::IllegalStatus)
    );
    assert_eq!(ContractError::Expired.kind(), ErrorKind::Validation);
}

#[test]
fn release_needs_a_validated_escrow() {
    let (mut client, mut funds, p, id) = open_escrow(24);
    assert_eq!(
        client.release_escrow(&mut funds, &id, &p.recipient),
        Err(ContractError::IllegalStatus)
    );
    assert_eq!(
        client.release_escrow(&mut funds, &id, &p.validator),
        Err(ContractError::IllegalStatus)
    );
    assert_eq!(
        client.release_escrow(&mut funds, &id, &p.donor),
        Err(ContractError::Unauthorized)
    );
    assert_eq!(
        client.release_escrow(&mut funds, &label("missing"), &p.recipient),
        Err(ContractError::NotFound)
    );
    assert_eq!(client.get_escrow(&id).unwrap().status, EscrowStatus::Active);
    assert_eq!(funds.balance(&p.asset, &p.vault), 1000);
    assert_eq!(funds.balance(&p.asset, &p.recipient), 0);
}

#[test]
fn release_by_the_validator_pays_the_recipient() {
    let (mut client, mut funds, p, id) = open_escrow(24);
    client.validate_escrow(&id, &p.validator, START).unwrap();
    assert_eq!(
        client.release_escrow(&mut funds, &id, &p.donor),
        Err(ContractError::Unauthorized)
    );
    assert_eq!(client.release_escrow(&mut funds, &id, &p.validator), Ok(()));
    assert_eq!(funds.balance(&p.asset, &p.recipient), 1000);
    assert_eq!(funds.balance(&p.asset, &p.validator), 0);
    assert_eq!(funds.balance(&p.asset, &p.vault), 0);
}

#[test]
fn released_escrow_has_paid_the_recipient_in_full() {
    let (mut client, mut funds, p, id) = open_escrow(24);
    funds.mint(&p.asset, &p.recipient, 30).unwrap();

    assert_eq!(client.validate_escrow(&id, &p.validator, START + 10), Ok(()));
    assert_eq!(client.release_escrow(&mut funds, &id, &p.recipient), Ok(()));

    assert_eq!(client.get_escrow(&id).unwrap().status, EscrowStatus::Released);
    assert_eq!(funds.balance(&p.asset, &p.recipient), 1030);
    assert_eq!(funds.balance(&p.asset, &p.vault), 0);
    assert_eq!(funds.balance(&p.asset, &p.donor), 0);

    assert_eq!(
        client.release_escrow(&mut funds, &id, &p.recipient),
        Err(ContractError::IllegalStatus)
    );
    assert_eq!(funds.balance(&p.asset, &p.recipient), 1030);
}

#[test]
fn release_without_funds_in_custody_changes_nothing() {
    let (mut client, mut funds, p, id) = open_escrow(24);
    client.validate_escrow(&id, &p.validator, START).unwrap();
    funds.transfer(&p.asset, &p.vault, &p.donor, 1).unwrap();
    assert_eq!(
        client.release_escrow(&mut funds, &id, &p.recipient),
        Err(ContractError::TransferFailed)
    );
    assert_eq!(client.get_escrow(&id).unwrap().status, EscrowStatus::Validated);
    assert_eq!(funds.balance(&p.asset, &p.vault), 999);
    assert_eq!(funds.balance(&p.asset, &p.recipient), 0);
}

#[test]
fn expired_escrow_refunds_the_donor_once() {
    let (mut client, mut funds, p, id) = open_escrow(1);
    assert_eq!(client.get_escrow(&id).unwrap().timeout, START + 3600);
    assert_eq!(
        client.handle_expiration(&mut funds, &id, START + 3600),
        Err(ContractError::NotYetExpired)
    );
    assert_eq!(client.get_escrow(&id).unwrap().status, EscrowStatus::Active);
    assert_eq!(funds.balance(&p.asset, &p.donor), 0);

    assert_eq!(client.handle_expiration(&mut funds, &id, START + 3601), Ok(()));

    assert_eq!(client.get_escrow(&id).unwrap().status, EscrowStatus::Expired);
    assert_eq!(funds.balance(&p.asset, &p.donor), 1000);
    assert_eq!(funds.balance(&p.asset, &p.vault), 0);

    assert_eq!(
        client.handle_expiration(&mut funds, &id, START + 3602),
        Err(ContractError::IllegalStatus)
    );
    assert_eq!(funds.balance(&p.asset, &p.donor), 1000);
    assert_eq!(client.get_escrow(&id).unwrap().status, EscrowStatus::Expired);
    assert_eq!(ContractError::NotYetExpired.kind(), ErrorKind::Validation);
}

#[test]
fn expiration_is_for_active_escrows_only() {
    let (mut client, mut funds, p, id) = open_escrow(1);
    client.validate_escrow(&id, &p.validator, START + 5).unwrap();
    assert_eq!(
        client.handle_expiration(&mut funds, &id, START + 4000),
        Err(ContractError::IllegalStatus)
    );
    assert_eq!(
        client.handle_expiration(&mut funds, &label("missing"), START + 4000),
        Err(ContractError::NotFound)
    );
    assert_eq!(client.get_escrow(&id).unwrap().status, EscrowStatus::Validated);
    assert_eq!(funds.balance(&p.asset, &p.vault), 1000);
}

#[test]
fn dispute_is_for_donor_or_recipient_while_open() {
    let (mut client, mut funds, p, id) = open_escrow(24);
    assert_eq!(client.dispute_escrow(&id, &p.validator), Err(ContractError::Unauthorized));
    assert_eq!(
        client.dispute_escrow(&label("missing"), &p.donor),
        Err(ContractError::NotFound)
    );
    assert_eq!(client.dispute_escrow(&id, &p.donor), Ok(()));
    assert_eq!(client.get_escrow(&id).unwrap().status, EscrowStatus::Disputed);
    assert_eq!(funds.balance(&p.asset, &p.vault), 1000);
    assert_eq!(funds.balance(&p.asset, &p.donor), 0);

    assert_eq!(client.dispute_escrow(&id, &p.recipient), Err(ContractError::IllegalStatus));
    assert_eq!(
        client.validate_escrow(&id, &p.validator, START),
        Err(ContractError::IllegalStatus)
    );
    assert_eq!(
        client.release_escrow(&mut funds, &id, &p.recipient),
        Err(ContractError::IllegalStatus)
    );
    assert_eq!(
        client.cancel_escrow(&mut funds, &id, &p.donor),
        Err(ContractError::IllegalStatus)
    );
    assert_eq!(
        client.handle_expiration(&mut funds, &id, START + 90_000),
        Err(ContractError::IllegalStatus)
    );
}

#[test]
fn validated_escrow_can_be_disputed_by_the_recipient() {
    let (mut client, _funds, p, id) = open_escrow(24);
    client.validate_escrow(&id, &p.validator, START).unwrap();
    assert_eq!(client.dispute_escrow(&id, &p.recipient), Ok(()));
    assert_eq!(client.get_escrow(&id).unwrap().status, EscrowStatus::Disputed);
}

#[test]
fn cancel_refunds_the_donor_of_an_active_escrow() {
    let (mut client, mut funds, p, id) = open_escrow(24);
    assert_eq!(
        client.cancel_escrow(&mut funds, &id, &p.recipient),
        Err(ContractError::Unauthorized)
    );
    assert_eq!(
        client.cancel_escrow(&mut funds, &label("missing"), &p.donor),
        Err(ContractError::NotFound)
    );
    assert_eq!(funds.balance(&p.asset, &p.donor), 0);
    assert_eq!(client.cancel_escrow(&mut funds, &id, &p.donor), Ok(()));
    assert_eq!(client.get_escrow(&id).unwrap().status, EscrowStatus::Cancelled);
    assert_eq!(funds.balance(&p.asset, &p.donor), 1000);
    assert_eq!(funds.balance(&p.asset, &p.vault), 0);
    assert_eq!(
        client.cancel_escrow(&mut funds, &id, &p.donor),
        Err(ContractError::IllegalStatus)
    );
    assert_eq!(funds.balance(&p.asset, &p.donor), 1000);
}

#[test]
fn validated_escrow_cannot_be_cancelled() {
    let (mut client, mut funds, p, id) = open_escrow(24);
    client.validate_escrow(&id, &p.validator, START).unwrap();
    assert_eq!(
        client.cancel_escrow(&mut funds, &id, &p.donor),
        Err(ContractError::IllegalStatus)
    );
    assert_eq!(funds.balance(&p.asset, &p.vault), 1000);
}

#[test]
fn two_escrows_share_the_custody_account() {
    let (mut client, mut funds, p, first) = open_escrow(24);
    funds.mint(&p.asset, &p.donor, 500).unwrap();
    let second = client
        .create_escrow(
            &mut funds,
            label("escrow-2"),
            p.donor.clone(),
            p.recipient.clone(),
            p.validator.clone(),
            500,
            p.asset.clone(),
            label("c"),
            2,
            START + 10,
        )
        .unwrap();
    assert_eq!(funds.balance(&p.asset, &p.vault), 1500);
    assert_eq!(client.get_escrows_by_donor(&p.donor), vec![first.clone(), second.clone()]);
    assert_eq!(client.get_escrows_by_recipient(&p.recipient), vec![first.clone(), second.clone()]);
    assert_eq!(client.get_escrow(&second).unwrap().timeout, START + 10 + 7200);

    client.validate_escrow(&first, &p.validator, START + 20).unwrap();
    client.release_escrow(&mut funds, &first, &p.recipient).unwrap();
    assert_eq!(funds.balance(&p.asset, &p.vault), 500);
    assert_eq!(funds.balance(&p.asset, &p.recipient), 1000);
    assert_eq!(client.get_escrow(&second).unwrap().status, EscrowStatus::Active);
}

#[test]
fn escrow_vault_admin_round_trip() {
    let mut client = EscrowContract::new(Address::from_str("CVAULT"));
    assert_eq!(client.get_admin(), None);
    assert_eq!(ContractError::AdminNotConfigured.kind(), ErrorKind::Configuration);
    client.initialize(Address::from_str("GADMIN"));
    assert_eq!(client.get_admin(), Some(Address::from_str("GADMIN")));
}

fn record(timeout_hours: u64) -> Escrow {
    let p = parties();
    Escrow::open(
        label("escrow-1"),
        p.donor,
        p.recipient,
        p.validator,
        1000,
        p.asset,
        label("Test conditions"),
        timeout_hours,
        START,
    )
    .unwrap()
}

#[test]
fn opened_record_is_active_until_its_timeout() {
    let e = record(24);
    assert_eq!(e.id, "escrow-1");
    assert_eq!(e.amount, 1000);
    assert_eq!(e.status, EscrowStatus::Active);
    assert_eq!(e.created_at, START);
    assert_eq!(e.timeout, START + 24 * 3600);
    assert_eq!(e.clone().conditions, "Test conditions");
}

#[test]
fn record_is_not_opened_for_nothing_nor_past_the_clock() {
    let p = parties();
    let open = |amount: i128, hours: u64, now: u64| {
        Escrow::open(
            label("e"),
            p.donor.clone(),
            p.recipient.clone(),
            p.validator.clone(),
            amount,
            p.asset.clone(),
            label("c"),
            hours,
            now,
        )
        .map(|e| e.timeout)
    };
    assert_eq!(open(0, 1, 0), Err(ContractError::NonPositiveAmount));
    assert_eq!(open(-5, u64::MAX, 0), Err(ContractError::NonPositiveAmount));
    assert_eq!(open(1, u64::MAX, 0), Err(ContractError::Overflow));
    assert_eq!(open(1, 1, u64::MAX), Err(ContractError::Overflow));
    assert_eq!(open(1, 0, u64::MAX), Ok(u64::MAX));
    assert_eq!(open(1, 2, 10), Ok(7210));
}

#[test]
fn record_follows_the_state_machine() {
    let p = parties();

    let mut e = record(1);
    assert_eq!(e.validate(&p.donor, START), Err(ContractError::Unauthorized));
    assert_eq!(e.validate(&p.validator, START + 3601), Err(ContractError::Expired));
    assert_eq!(e.release(&p.recipient), Err(ContractError::IllegalStatus));
    assert_eq!(e.status, EscrowStatus::Active);
    assert_eq!(e.validate(&p.validator, START + 3600), Ok(()));
    assert_eq!(e.status, EscrowStatus::Validated);
    assert_eq!(e.cancel(&p.donor), Err(ContractError::IllegalStatus));
    assert_eq!(e.expire(START + 9999), Err(ContractError::IllegalStatus));
    assert_eq!(e.release(&p.donor), Err(ContractError::Unauthorized));
    assert_eq!(e.release(&p.validator), Ok(()));
    assert_eq!(e.status, EscrowStatus::Released);
    assert_eq!(e.dispute(&p.donor), Err(ContractError::IllegalStatus));

    let mut e = record(1);
    assert_eq!(e.dispute(&p.validator), Err(ContractError::Unauthorized));
    assert_eq!(e.dispute(&p.recipient), Ok(()));
    assert_eq!(e.status, EscrowStatus::Disputed);

    let mut e = record(1);
    assert_eq!(e.cancel(&p.validator), Err(ContractError::Unauthorized));
    assert_eq!(e.cancel(&p.donor), Ok(()));
    assert_eq!(e.status, EscrowStatus::Cancelled);
    assert_eq!(e.validate(&p.validator, START), Err(ContractError::IllegalStatus));

    let mut e = record(1);
    assert_eq!(e.expire(START + 3600), Err(ContractError::NotYetExpired));
    assert_eq!(e.expire(START + 3601), Ok(()));
    assert_eq!(e.status, EscrowStatus::Expired);
    assert_eq!(e.expire(START + 3602), Err(ContractError::IllegalStatus));
    assert_eq!(e.amount, 1000);
}

#[test]
fn vault_tells_what_is_stored_under_a_key() {
    let (client, _funds, p, id) = open_escrow(24);
    assert!(client.has(&DataKey::Admin));
    assert!(client.has(&DataKey::Escrow(id)));
    assert!(!client.has(&DataKey::Escrow(label("escrow-2"))));
    assert!(client.has(&DataKey::EscrowsByDonor(p.donor.clone())));
    assert!(!client.has(&DataKey::EscrowsByDonor(p.recipient.clone())));
    assert!(client.has(&DataKey::EscrowsByRecipient(p.recipient)));
    assert!(!client.has(&DataKey::EscrowsByRecipient(p.donor)));
    assert!(!EscrowContract::new(p.vault).has(&DataKey::Admin));
}

#[test]
fn creating_under_a_used_id_overwrites_the_escrow() {
    let (mut client, mut funds, p, id) = open_escrow(24);
    client.validate_escrow(&id, &p.validator, START).unwrap();
    funds.mint(&p.asset, &p.donor, 5).unwrap();
    let again = client.create_escrow(
        &mut funds,
        id.clone(),
        p.donor.clone(),
        p.recipient.clone(),
        p.validator.clone(),
        5,
        p.asset.clone(),
        label("second"),
        1,
        START + 50,
    );
    assert_eq!(again, Ok(id.clone()));
    let escrow = client.get_escrow(&id).unwrap();
    assert_eq!(escrow.amount, 5);
    assert_eq!(escrow.status, EscrowStatus::Active);
    assert_eq!(escrow.timeout, START + 50 + 3600);
    assert_eq!(funds.balance(&p.asset, &p.vault), 1005);
    assert_eq!(client.get_escrows_by_donor(&p.donor), vec![id.clone(), id]);
}
