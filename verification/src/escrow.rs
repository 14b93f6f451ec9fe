//! The escrow vault: time-locked custody of funds, released by a validator,
//! disputed, cancelled or expired.

use crate::assets::{balance_in, can_move, moved, AssetLedger, Balances};
use crate::error::{outcome, ContractError};
use crate::identity::Address;
use crate::table::{append_id, ids_of, listed, IdList, Table};
use crate::text::texts;
use vstd::prelude::*;

verus! {

/// Seconds in one hour of timeout.
pub const SECONDS_PER_HOUR: u64 = 3600;

/// Where an escrow stands. `Released`, `Disputed`, `Cancelled` and `Expired`
/// are terminal.
#[derive(Clone, Copy, Debug, PartialEq, Eq, Structural)]
pub enum EscrowStatus {
    Active,
    Validated,
    Released,
    Disputed,
    Cancelled,
    Expired,
}

/// Funds held for a recipient until a validator confirms the conditions.
#[derive(Debug)]
pub struct Escrow {
    pub id: String,
    pub donor: Address,
    pub recipient: Address,
    pub validator: Address,
    pub amount: i128,
    pub asset: Address,
    pub conditions: String,
    pub status: EscrowStatus,
    pub created_at: u64,
    pub timeout: u64,
}

/// An escrow as a value.
pub struct EscrowView {
    pub id: Seq<char>,
    pub donor: Seq<char>,
    pub recipient: Seq<char>,
    pub validator: Seq<char>,
    pub amount: i128,
    pub asset: Seq<char>,
    pub conditions: Seq<char>,
    pub status: EscrowStatus,
    pub created_at: u64,
    pub timeout: u64,
}

impl View for Escrow {
    type V = EscrowView;

    open spec fn view(&self) -> EscrowView {
        EscrowView {
            id: self.id@,
            donor: self.donor@,
            recipient: self.recipient@,
            validator: self.validator@,
            amount: self.amount,
            asset: self.asset@,
            conditions: self.conditions@,
            status: self.status,
            created_at: self.created_at,
            timeout: self.timeout,
        }
    }
}

impl Clone for Escrow {
    fn clone(&self) -> (e: Escrow)
        ensures
            e@ == self@,
    {
        Escrow {
            id: self.id.clone(),
            donor: self.donor.clone(),
            recipient: self.recipient.clone(),
            validator: self.validator.clone(),
            amount: self.amount,
            asset: self.asset.clone(),
            conditions: self.conditions.clone(),
            status: self.status,
            created_at: self.created_at,
            timeout: self.timeout,
        }
    }
}

/// The escrow with the given status and everything else as it is.
pub open spec fn in_status(e: EscrowView, status: EscrowStatus) -> EscrowView {
    EscrowView { status, ..e }
}

/// The timeout of an escrow created at `now` for the given number of hours.
pub open spec fn timeout_at(now: u64, timeout_hours: u64) -> int {
    now + timeout_hours * SECONDS_PER_HOUR
}

/// Why no escrow can be opened with the amount and the timeout, if none can.
pub open spec fn opening_denied(amount: i128, timeout_hours: u64, now: u64) -> Option<
    ContractError,
> {
    if amount <= 0 {
        Some(ContractError::NonPositiveAmount)
    } else if timeout_at(now, timeout_hours) > u64::MAX {
        Some(ContractError::Overflow)
    } else {
        None
    }
}

/// The record of an escrow that is opened at `now`.
pub open spec fn new_escrow(
    id: Seq<char>,
    donor: Seq<char>,
    recipient: Seq<char>,
    validator: Seq<char>,
    amount: i128,
    asset: Seq<char>,
    conditions: Seq<char>,
    timeout_hours: u64,
    now: u64,
) -> EscrowView {
    EscrowView {
        id,
        donor,
        recipient,
        validator,
        amount,
        asset,
        conditions,
        status: EscrowStatus::Active,
        created_at: now,
        timeout: timeout_at(now, timeout_hours) as u64,
    }
}

/// Why the caller cannot validate the escrow at `now`, if they cannot.
pub open spec fn validation_denied(e: EscrowView, validator: Seq<char>, now: u64) -> Option<
    ContractError,
> {
    if e.validator != validator {
        Some(ContractError::Unauthorized)
    } else if e.status != EscrowStatus::Active {
        Some(ContractError::IllegalStatus)
    } else if now > e.timeout {
        Some(ContractError::Expired)
    } else {
        None
    }
}

/// Why the caller cannot release the escrow, if they cannot.
pub open spec fn release_denied(e: EscrowView, caller: Seq<char>) -> Option<ContractError> {
    if e.validator != caller && e.recipient != caller {
        Some(ContractError::Unauthorized)
    } else if e.status != EscrowStatus::Validated {
        Some(ContractError::IllegalStatus)
    } else {
        None
    }
}

/// Why the caller cannot dispute the escrow, if they cannot.
pub open spec fn dispute_denied(e: EscrowView, caller: Seq<char>) -> Option<ContractError> {
    if e.donor != caller && e.recipient != caller {
        Some(ContractError::Unauthorized)
    } else if e.status != EscrowStatus::Active && e.status != EscrowStatus::Validated {
        Some(ContractError::IllegalStatus)
    } else {
        None
    }
}

/// Why the caller cannot cancel the escrow, if they cannot.
pub open spec fn cancellation_denied(e: EscrowView, caller: Seq<char>) -> Option<ContractError> {
    if e.donor != caller {
        Some(ContractError::Unauthorized)
    } else if e.status != EscrowStatus::Active {
        Some(ContractError::IllegalStatus)
    } else {
        None
    }
}

/// Why the escrow cannot expire at `now`, if it cannot.
pub open spec fn expiry_denied(e: EscrowView, now: u64) -> Option<ContractError> {
    if now <= e.timeout {
        Some(ContractError::NotYetExpired)
    } else if e.status != EscrowStatus::Active {
        Some(ContractError::IllegalStatus)
    } else {
        None
    }
}

impl Escrow {
    /// The record of an escrow that is opened at `now`: active, with its
    /// timeout the given number of hours later. Refused where the amount is
    /// not positive or the timeout leaves the range of a timestamp.
    pub fn open(
        id: String,
        donor: Address,
        recipient: Address,
        validator: Address,
        amount: i128,
        asset: Address,
        conditions: String,
        timeout_hours: u64,
        now: u64,
    ) -> (r: Result<Escrow, ContractError>)
        ensures
            match opening_denied(amount, timeout_hours, now) {
                Some(e) => r == Err::<Escrow, ContractError>(e),
                None => r is Ok && r->Ok_0@ == new_escrow(
                    id@,
                    donor@,
                    recipient@,
                    validator@,
                    amount,
                    asset@,
                    conditions@,
                    timeout_hours,
                    now,
                ),
            },
    {
        if amount <= 0 {
            return Err(ContractError::NonPositiveAmount);
        }
        let span = match timeout_hours.checked_mul(SECONDS_PER_HOUR) {
            Some(s) => s,
            None => {
                return Err(ContractError::Overflow);
            },
        };
        let timeout = match now.checked_add(span) {
            Some(t) => t,
            None => {
                return Err(ContractError::Overflow);
            },
        };
        Ok(
            Escrow {
                id,
                donor,
                recipient,
                validator,
                amount,
                asset,
                conditions,
                status: EscrowStatus::Active,
                created_at: now,
                timeout,
            },
        )
    }

    /// The validator confirms the escrow while it is active and in time.
    pub fn validate(&mut self, validator: &Address, now: u64) -> (r: Result<(), ContractError>)
        ensures
            r == outcome(validation_denied(old(self)@, validator@, now)),
            final(self)@ == if r is Ok {
                in_status(old(self)@, EscrowStatus::Validated)
            } else {
                old(self)@
            },
    {
        if !self.validator.same(validator) {
            return Err(ContractError::Unauthorized);
        }
        if self.status != EscrowStatus::Active {
            return Err(ContractError::IllegalStatus);
        }
        if now > self.timeout {
            return Err(ContractError::Expired);
        }
        self.status = EscrowStatus::Validated;
        Ok(())
    }

    /// The validator or the recipient releases the escrow once it is
    /// validated. The funds are for the caller of this function to move.
    pub fn release(&mut self, caller: &Address) -> (r: Result<(), ContractError>)
        ensures
            r == outcome(release_denied(old(self)@, caller@)),
            final(self)@ == if r is Ok {
                in_status(old(self)@, EscrowStatus::Released)
            } else {
                old(self)@
            },
    {
        if !self.validator.same(caller) && !self.recipient.same(caller) {
            return Err(ContractError::Unauthorized);
        }
        if self.status != EscrowStatus::Validated {
            return Err(ContractError::IllegalStatus);
        }
        self.status = EscrowStatus::Released;
        Ok(())
    }

    /// The donor or the recipient disputes the escrow while it is active or
    /// validated.
    pub fn dispute(&mut self, caller: &Address) -> (r: Result<(), ContractError>)
        ensures
            r == outcome(dispute_denied(old(self)@, caller@)),
            final(self)@ == if r is Ok {
                in_status(old(self)@, EscrowStatus::Disputed)
            } else {
                old(self)@
            },
    {
        if !self.donor.same(caller) && !self.recipient.same(caller) {
            return Err(ContractError::Unauthorized);
        }
        if self.status != EscrowStatus::Active && self.status != EscrowStatus::Validated {
            return Err(ContractError::IllegalStatus);
        }
        self.status = EscrowStatus::Disputed;
        Ok(())
    }

    /// The donor cancels the escrow while it is active. The funds are for the
    /// caller of this function to return.
    pub fn cancel(&mut self, caller: &Address) -> (r: Result<(), ContractError>)
        ensures
            r == outcome(cancellation_denied(old(self)@, caller@)),
            final(self)@ == if r is Ok {
                in_status(old(self)@, EscrowStatus::Cancelled)
            } else {
                old(self)@
            },
    {
        if !self.donor.same(caller) {
            return Err(ContractError::Unauthorized);
        }
        if self.status != EscrowStatus::Active {
            return Err(ContractError::IllegalStatus);
        }
        self.status = EscrowStatus::Cancelled;
        Ok(())
    }

    /// The escrow expires once its timeout has passed while it is active. The
    /// funds are for the caller of this function to return.
    pub fn expire(&mut self, now: u64) -> (r: Result<(), ContractError>)
        ensures
            r == outcome(expiry_denied(old(self)@, now)),
            final(self)@ == if r is Ok {
                in_status(old(self)@, EscrowStatus::Expired)
            } else {
                old(self)@
            },
    {
        if now <= self.timeout {
            return Err(ContractError::NotYetExpired);
        }
        if self.status != EscrowStatus::Active {
            return Err(ContractError::IllegalStatus);
        }
        self.status = EscrowStatus::Expired;
        Ok(())
    }
}

/// What the vault stores a value under: the kind of the value and its
/// natural key.
#[derive(Debug)]
pub enum DataKey {
    /// The escrow with the id.
    Escrow(String),
    /// The ids of the escrows that the donor funded.
    EscrowsByDonor(Address),
    /// The ids of the escrows held for the recipient.
    EscrowsByRecipient(Address),
    /// The administrator.
    Admin,
}

/// What the vault has stored.
pub struct VaultState {
    /// The administrator, once configured.
    pub admin: Option<Seq<char>>,
    /// The vault's own custody account.
    pub custody: Seq<char>,
    /// The escrows by id.
    pub escrows: Map<Seq<char>, EscrowView>,
    /// For each donor, the ids of the escrows they funded, oldest first.
    pub by_donor: Map<Seq<char>, Seq<Seq<char>>>,
    /// For each recipient, the ids of the escrows held for them, oldest first.
    pub by_recipient: Map<Seq<char>, Seq<Seq<char>>>,
}

/// The state in which the escrow under `id` has the given status and
/// everything else is as before.
pub open spec fn with_status(s: VaultState, id: Seq<char>, status: EscrowStatus) -> VaultState {
    VaultState { escrows: s.escrows.insert(id, in_status(s.escrows[id], status)), ..s }
}

/// The state after the record was stored and its id appended to the donor's
/// and the recipient's index.
pub open spec fn with_escrow(s: VaultState, e: EscrowView) -> VaultState {
    VaultState {
        escrows: s.escrows.insert(e.id, e),
        by_donor: s.by_donor.insert(e.donor, listed(s.by_donor, e.donor).push(e.id)),
        by_recipient: s.by_recipient.insert(
            e.recipient,
            listed(s.by_recipient, e.recipient).push(e.id),
        ),
        ..s
    }
}

/// Whether the caller is the validator or the recipient of the escrow stored
/// under the id.
pub open spec fn may_release(s: VaultState, id: Seq<char>, caller: Seq<char>) -> bool {
    s.escrows.dom().contains(id) && (s.escrows[id].validator == caller || s.escrows[id].recipient
        == caller)
}

/// Whether the escrow's funds can go to its recipient.
pub open spec fn can_pay_out(s: VaultState, funds: Balances, id: Seq<char>) -> bool {
    can_move(funds, s.escrows[id].asset, s.custody, s.escrows[id].recipient, s.escrows[id].amount)
}

/// The balances after the escrow's funds went to its recipient.
pub open spec fn paid_out(s: VaultState, funds: Balances, id: Seq<char>) -> Balances {
    moved(funds, s.escrows[id].asset, s.custody, s.escrows[id].recipient, s.escrows[id].amount)
}

/// Whether the escrow's funds can go back to its donor.
pub open spec fn can_refund(s: VaultState, funds: Balances, id: Seq<char>) -> bool {
    can_move(funds, s.escrows[id].asset, s.custody, s.escrows[id].donor, s.escrows[id].amount)
}

/// The balances after the escrow's funds went back to its donor.
pub open spec fn refunded(s: VaultState, funds: Balances, id: Seq<char>) -> Balances {
    moved(funds, s.escrows[id].asset, s.custody, s.escrows[id].donor, s.escrows[id].amount)
}

/// The first refusal: that of the record, or else that of the accounts where
/// the funds cannot move.
pub open spec fn or_transfer_failed(denied: Option<ContractError>, can_move_funds: bool) -> Option<
    ContractError,
> {
    if denied is Some {
        denied
    } else if !can_move_funds {
        Some(ContractError::TransferFailed)
    } else {
        None
    }
}

/// Why `create_escrow` refuses, if it does.
pub open spec fn create_refusal(
    s: VaultState,
    funds: Balances,
    donor: Seq<char>,
    amount: i128,
    asset: Seq<char>,
    timeout_hours: u64,
    now: u64,
) -> Option<ContractError> {
    or_transfer_failed(
        opening_denied(amount, timeout_hours, now),
        can_move(funds, asset, donor, s.custody, amount),
    )
}

/// Why `validate_escrow` refuses, if it does.
pub open spec fn validate_refusal(s: VaultState, id: Seq<char>, validator: Seq<char>, now: u64)
    -> Option<ContractError> {
    if !s.escrows.dom().contains(id) {
        Some(ContractError::NotFound)
    } else {
        validation_denied(s.escrows[id], validator, now)
    }
}

/// Why `release_escrow` refuses, if it does.
pub open spec fn release_refusal(s: VaultState, funds: Balances, id: Seq<char>, caller: Seq<char>)
    -> Option<ContractError> {
    if !s.escrows.dom().contains(id) {
        Some(ContractError::NotFound)
    } else {
        or_transfer_failed(release_denied(s.escrows[id], caller), can_pay_out(s, funds, id))
    }
}

/// Why `dispute_escrow` refuses, if it does.
pub open spec fn dispute_refusal(s: VaultState, id: Seq<char>, caller: Seq<char>) -> Option<
    ContractError,
> {
    if !s.escrows.dom().contains(id) {
        Some(ContractError::NotFound)
    } else {
        dispute_denied(s.escrows[id], caller)
    }
}

/// Why `cancel_escrow` refuses, if it does.
pub open spec fn cancel_refusal(s: VaultState, funds: Balances, id: Seq<char>, caller: Seq<char>)
    -> Option<ContractError> {
    if !s.escrows.dom().contains(id) {
        Some(ContractError::NotFound)
    } else {
        or_transfer_failed(cancellation_denied(s.escrows[id], caller), can_refund(s, funds, id))
    }
}

/// Why `handle_expiration` refuses, if it does.
pub open spec fn expire_refusal(s: VaultState, funds: Balances, id: Seq<char>, now: u64) -> Option<
    ContractError,
> {
    if !s.escrows.dom().contains(id) {
        Some(ContractError::NotFound)
    } else {
        or_transfer_failed(expiry_denied(s.escrows[id], now), can_refund(s, funds, id))
    }
}

/// Once an escrow has expired, expiring it again is refused, at any time and
/// whatever the accounts hold: the terminal state stays, the operation does
/// not repeat.
pub proof fn expiration_happens_once(
    s: VaultState,
    funds: Balances,
    id: Seq<char>,
    now: u64,
    later_funds: Balances,
    later: u64,
)
    requires
        expire_refusal(s, funds, id, now) is None,
    ensures
        with_status(s, id, EscrowStatus::Expired).escrows[id].status == EscrowStatus::Expired,
        expire_refusal(with_status(s, id, EscrowStatus::Expired), later_funds, id, later) is Some,
{
}

/// Whether the status is one that no operation leaves.
pub open spec fn is_terminal(status: EscrowStatus) -> bool {
    status != EscrowStatus::Active && status != EscrowStatus::Validated
}

/// An escrow in a terminal status stays as it is: every operation on it is
/// refused, whoever calls, at any time and whatever the accounts hold.
pub proof fn terminal_escrow_stays(
    s: VaultState,
    funds: Balances,
    id: Seq<char>,
    caller: Seq<char>,
    now: u64,
)
    requires
        s.escrows.dom().contains(id),
        is_terminal(s.escrows[id].status),
    ensures
        validate_refusal(s, id, caller, now) is Some,
        release_refusal(s, funds, id, caller) is Some,
        dispute_refusal(s, id, caller) is Some,
        cancel_refusal(s, funds, id, caller) is Some,
        expire_refusal(s, funds, id, now) is Some,
{
}

/// An escrow that is created, validated in time and then released by its
/// validator or its recipient ends as released: the amount has left the
/// donor and reached the recipient, and the vault's custody account holds
/// what it held before. This is said of three different accounts, of a
/// custody account that is not overdrawn, and of a recipient whose balance
/// has room for the amount.
pub proof fn validated_escrow_pays_the_recipient(
    s: VaultState,
    funds: Balances,
    id: Seq<char>,
    donor: Seq<char>,
    recipient: Seq<char>,
    validator: Seq<char>,
    amount: i128,
    asset: Seq<char>,
    conditions: Seq<char>,
    timeout_hours: u64,
    now: u64,
    later: u64,
    caller: Seq<char>,
)
    requires
        create_refusal(s, funds, donor, amount, asset, timeout_hours, now) is None,
        later <= timeout_at(now, timeout_hours),
        caller == validator || caller == recipient,
        donor != s.custody,
        recipient != s.custody,
        donor != recipient,
        balance_in(funds, asset, s.custody) >= 0,
        balance_in(funds, asset, recipient) + amount <= i128::MAX,
    ensures
        ({
            let created = with_escrow(
                s,
                new_escrow(
                    id,
                    donor,
                    recipient,
                    validator,
                    amount,
                    asset,
                    conditions,
                    timeout_hours,
                    now,
                ),
            );
            let held = moved(funds, asset, donor, s.custody, amount);
            let validated = with_status(created, id, EscrowStatus::Validated);
            let paid = paid_out(validated, held, id);
            &&& validate_refusal(created, id, validator, later) is None
            &&& release_refusal(validated, held, id, caller) is None
            &&& with_status(validated, id, EscrowStatus::Released).escrows[id].status
                == EscrowStatus::Released
            &&& balance_in(paid, asset, recipient) == balance_in(funds, asset, recipient) + amount
            &&& balance_in(paid, asset, donor) == balance_in(funds, asset, donor) - amount
            &&& balance_in(paid, asset, s.custody) == balance_in(funds, asset, s.custody)
        }),
{
}

/// An escrow that is created and left alone until its timeout has passed
/// expires at anyone's call: the donor holds again what they held before, and
/// so does the vault's custody account. Expiring it once more is refused.
/// This is said of a donor other than the vault, and of a custody account
/// that is not overdrawn.
pub proof fn abandoned_escrow_refunds_the_donor(
    s: VaultState,
    funds: Balances,
    id: Seq<char>,
    donor: Seq<char>,
    recipient: Seq<char>,
    validator: Seq<char>,
    amount: i128,
    asset: Seq<char>,
    conditions: Seq<char>,
    timeout_hours: u64,
    now: u64,
    later: u64,
    again: u64,
)
    requires
        create_refusal(s, funds, donor, amount, asset, timeout_hours, now) is None,
        later > timeout_at(now, timeout_hours),
        donor != s.custody,
        balance_in(funds, asset, s.custody) >= 0,
    ensures
        ({
            let created = with_escrow(
                s,
                new_escrow(
                    id,
                    donor,
                    recipient,
                    validator,
                    amount,
                    asset,
                    conditions,
                    timeout_hours,
                    now,
                ),
            );
            let held = moved(funds, asset, donor, s.custody, amount);
            let expired = with_status(created, id, EscrowStatus::Expired);
            let back = refunded(created, held, id);
            &&& expire_refusal(created, held, id, later) is None
            &&& expired.escrows[id].status == EscrowStatus::Expired
            &&& balance_in(back, asset, donor) == balance_in(funds, asset, donor)
            &&& balance_in(back, asset, s.custody) == balance_in(funds, asset, s.custody)
            &&& expire_refusal(expired, back, id, again) is Some
        }),
{
}

/// The escrow vault.
pub struct EscrowContract {
    admin: Option<Address>,
    custody: Address,
    escrows: Table<String, Escrow>,
    by_donor: Table<Address, IdList>,
    by_recipient: Table<Address, IdList>,
}

impl View for EscrowContract {
    type V = VaultState;

    closed spec fn view(&self) -> VaultState {
        VaultState {
            admin: match self.admin {
                Some(a) => Some(a@),
                None => None,
            },
            custody: self.custody@,
            escrows: self.escrows@,
            by_donor: self.by_donor@,
            by_recipient: self.by_recipient@,
        }
    }
}

impl EscrowContract {
    /// A vault with the given custody account, no administrator and no
    /// escrows.
    pub fn new(custody: Address) -> (c: EscrowContract)
        ensures
            c@ == (VaultState {
                admin: None,
                custody: custody@,
                escrows: Map::empty(),
                by_donor: Map::empty(),
                by_recipient: Map::empty(),
            }),
    {
        EscrowContract {
            admin: None,
            custody,
            escrows: Table::new(),
            by_donor: Table::new(),
            by_recipient: Table::new(),
        }
    }

    /// Configures the administrator.
    pub fn initialize(&mut self, admin: Address)
        ensures
            final(self)@ == (VaultState { admin: Some(admin@), ..old(self)@ }),
    {
        self.admin = Some(admin);
    }

    /// Creates an escrow in `Active`, with its timeout the given number of
    /// hours after `now`, and takes the amount from the donor into the vault's
    /// custody. Refused, with nothing changed, where the amount is not
    /// positive, the timeout leaves the range of a timestamp, or the funds
    /// cannot be moved.
    pub fn create_escrow(
        &mut self,
        funds: &mut AssetLedger,
        id: String,
        donor: Address,
        recipient: Address,
        validator: Address,
        amount: i128,
        asset: Address,
        conditions: String,
        timeout_hours: u64,
        now: u64,
    ) -> (r: Result<String, ContractError>)
        ensures
            amount <= 0 ==> r is Err && final(self)@ == old(self)@ && final(funds)@ == old(funds)@,
            match create_refusal(old(self)@, old(funds)@, donor@, amount, asset@, timeout_hours, now) {
                Some(e) => r == Err::<String, ContractError>(e) && final(self)@ == old(self)@
                    && final(funds)@ == old(funds)@,
                None => r is Ok && r->Ok_0@ == id@ && final(self)@ == with_escrow(
                    old(self)@,
                    new_escrow(
                        id@,
                        donor@,
                        recipient@,
                        validator@,
                        amount,
                        asset@,
                        conditions@,
                        timeout_hours,
                        now,
                    ),
                ) && final(funds)@ == moved(
                    old(funds)@,
                    asset@,
                    donor@,
                    old(self)@.custody,
                    amount,
                ),
            },
    {
        let escrow = match Escrow::open(
            id.clone(),
            donor.clone(),
            recipient.clone(),
            validator,
            amount,
            asset.clone(),
            conditions,
            timeout_hours,
            now,
        ) {
            Ok(e) => e,
            Err(e) => {
                return Err(e);
            },
        };
        match funds.transfer(&asset, &donor, &self.custody, amount) {
            Ok(()) => {},
            Err(e) => {
                return Err(e);
            },
        }
        self.escrows.set(id.clone(), escrow);
        append_id(&mut self.by_donor, donor, id.clone());
        append_id(&mut self.by_recipient, recipient, id.clone());
        Ok(id)
    }

    /// The validator confirms an active escrow that has not timed out:
    /// `Active` becomes `Validated`.
    pub fn validate_escrow(&mut self, id: &String, validator: &Address, now: u64) -> (r: Result<
        (),
        ContractError,
    >)
        ensures
            r == outcome(validate_refusal(old(self)@, id@, validator@, now)),
            final(self)@ == if r is Ok {
                with_status(old(self)@, id@, EscrowStatus::Validated)
            } else {
                old(self)@
            },
    {
        let mut escrow = match self.escrows.get(id) {
            Some(e) => e.clone(),
            None => {
                return Err(ContractError::NotFound);
            },
        };
        match escrow.validate(validator, now) {
            Ok(()) => {},
            Err(e) => {
                return Err(e);
            },
        }
        self.escrows.set(id.clone(), escrow);
        Ok(())
    }

    /// The validator or the recipient releases a validated escrow: the full
    /// amount moves from the vault's custody to the recipient, and
    /// `Validated` becomes `Released`.
    pub fn release_escrow(&mut self, funds: &mut AssetLedger, id: &String, caller: &Address) -> (r:
        Result<(), ContractError>)
        ensures
            r == outcome(release_refusal(old(self)@, old(funds)@, id@, caller@)),
            may_release(old(self)@, id@, caller@) && can_pay_out(old(self)@, old(funds)@, id@) ==> (r is Ok
                <==> old(self)@.escrows[id@].status == EscrowStatus::Validated),
            r is Ok ==> final(self)@.escrows[id@].status == EscrowStatus::Released,
            r is Ok && old(self)@.custody != old(self)@.escrows[id@].recipient ==> {
                let e = old(self)@.escrows[id@];
                &&& balance_in(final(funds)@, e.asset, e.recipient) == balance_in(
                    old(funds)@,
                    e.asset,
                    e.recipient,
                ) + e.amount
                &&& balance_in(final(funds)@, e.asset, old(self)@.custody) == balance_in(
                    old(funds)@,
                    e.asset,
                    old(self)@.custody,
                ) - e.amount
            },
            final(self)@ == if r is Ok {
                with_status(old(self)@, id@, EscrowStatus::Released)
            } else {
                old(self)@
            },
            final(funds)@ == if r is Ok {
                paid_out(old(self)@, old(funds)@, id@)
            } else {
                old(funds)@
            },
    {
        let mut escrow = match self.escrows.get(id) {
            Some(e) => e.clone(),
            None => {
                return Err(ContractError::NotFound);
            },
        };
        match escrow.release(caller) {
            Ok(()) => {},
            Err(e) => {
                return Err(e);
            },
        }
        match funds.transfer(&escrow.asset, &self.custody, &escrow.recipient, escrow.amount) {
            Ok(()) => {},
            Err(e) => {
                return Err(e);
            },
        }
        self.escrows.set(id.clone(), escrow);
        Ok(())
    }

    /// The donor or the recipient disputes an active or validated escrow. No
    /// funds move.
    pub fn dispute_escrow(&mut self, id: &String, caller: &Address) -> (r: Result<
        (),
        ContractError,
    >)
        ensures
            r == outcome(dispute_refusal(old(self)@, id@, caller@)),
            final(self)@ == if r is Ok {
                with_status(old(self)@, id@, EscrowStatus::Disputed)
            } else {
                old(self)@
            },
    {
        let mut escrow = match self.escrows.get(id) {
            Some(e) => e.clone(),
            None => {
                return Err(ContractError::NotFound);
            },
        };
        match escrow.dispute(caller) {
            Ok(()) => {},
            Err(e) => {
                return Err(e);
            },
        }
        self.escrows.set(id.clone(), escrow);
        Ok(())
    }

    /// The donor cancels an active escrow: the full amount goes back to the
    /// donor, and `Active` becomes `Cancelled`.
    pub fn cancel_escrow(&mut self, funds: &mut AssetLedger, id: &String, caller: &Address) -> (r:
        Result<(), ContractError>)
        ensures
            r == outcome(cancel_refusal(old(self)@, old(funds)@, id@, caller@)),
            final(self)@ == if r is Ok {
                with_status(old(self)@, id@, EscrowStatus::Cancelled)
            } else {
                old(self)@
            },
            final(funds)@ == if r is Ok {
                refunded(old(self)@, old(funds)@, id@)
            } else {
                old(funds)@
            },
    {
        let mut escrow = match self.escrows.get(id) {
            Some(e) => e.clone(),
            None => {
                return Err(ContractError::NotFound);
            },
        };
        match escrow.cancel(caller) {
            Ok(()) => {},
            Err(e) => {
                return Err(e);
            },
        }
        match funds.transfer(&escrow.asset, &self.custody, &escrow.donor, escrow.amount) {
            Ok(()) => {},
            Err(e) => {
                return Err(e);
            },
        }
        self.escrows.set(id.clone(), escrow);
        Ok(())
    }

    /// Anyone expires an active escrow whose timeout has passed: the full
    /// amount goes back to the donor, and `Active` becomes `Expired`.
    pub fn handle_expiration(&mut self, funds: &mut AssetLedger, id: &String, now: u64) -> (r:
        Result<(), ContractError>)
        ensures
            r == outcome(expire_refusal(old(self)@, old(funds)@, id@, now)),
            old(self)@.escrows.dom().contains(id@) && can_refund(old(self)@, old(funds)@, id@) ==> (r is Ok
                <==> old(self)@.escrows[id@].status == EscrowStatus::Active && now
                > old(self)@.escrows[id@].timeout),
            final(self)@ == if r is Ok {
                with_status(old(self)@, id@, EscrowStatus::Expired)
            } else {
                old(self)@
            },
            final(funds)@ == if r is Ok {
                refunded(old(self)@, old(funds)@, id@)
            } else {
                old(funds)@
            },
    {
        let mut escrow = match self.escrows.get(id) {
            Some(e) => e.clone(),
            None => {
                return Err(ContractError::NotFound);
            },
        };
        match escrow.expire(now) {
            Ok(()) => {},
            Err(e) => {
                return Err(e);
            },
        }
        match funds.transfer(&escrow.asset, &self.custody, &escrow.donor, escrow.amount) {
            Ok(()) => {},
            Err(e) => {
                return Err(e);
            },
        }
        self.escrows.set(id.clone(), escrow);
        Ok(())
    }

    /// The escrow stored under the id, if there is one.
    pub fn get_escrow(&self, id: &String) -> (r: Option<Escrow>)
        ensures
            match r {
                Some(e) => self@.escrows.dom().contains(id@) && e@ == self@.escrows[id@],
                None => !self@.escrows.dom().contains(id@),
            },
    {
        match self.escrows.get(id) {
            Some(e) => Some(e.clone()),
            None => None,
        }
    }

    /// The ids of the escrows that the donor funded, oldest first.
    pub fn get_escrows_by_donor(&self, donor: &Address) -> (ids: Vec<String>)
        ensures
            texts(ids@) == listed(self@.by_donor, donor@),
    {
        ids_of(&self.by_donor, donor)
    }

    /// The ids of the escrows held for the recipient, oldest first.
    pub fn get_escrows_by_recipient(&self, recipient: &Address) -> (ids: Vec<String>)
        ensures
            texts(ids@) == listed(self@.by_recipient, recipient@),
    {
        ids_of(&self.by_recipient, recipient)
    }

    /// Whether anything is stored under the key.
    pub fn has(&self, key: &DataKey) -> (b: bool)
        ensures
            b == match *key {
                DataKey::Escrow(id) => self@.escrows.dom().contains(id@),
                DataKey::EscrowsByDonor(donor) => self@.by_donor.dom().contains(donor@),
                DataKey::EscrowsByRecipient(recipient) => self@.by_recipient.dom().contains(
                    recipient@,
                ),
                DataKey::Admin => self@.admin is Some,
            },
    {
        match key {
            DataKey::Escrow(id) => self.escrows.has(id),
            DataKey::EscrowsByDonor(donor) => self.by_donor.has(donor),
            DataKey::EscrowsByRecipient(recipient) => self.by_recipient.has(recipient),
            DataKey::Admin => self.admin.is_some(),
        }
    }

    /// Whether an escrow is stored under the id.
    pub fn has_escrow(&self, id: &String) -> (b: bool)
        ensures
            b == self@.escrows.dom().contains(id@),
    {
        self.escrows.has(id)
    }

    /// The administrator, if one was configured.
    pub fn get_admin(&self) -> (r: Option<Address>)
        ensures
            match self@.admin {
                Some(a) => r is Some && r->Some_0@ == a,
                None => r is None,
            },
    {
        match &self.admin {
            Some(a) => Some(a.clone()),
            None => None,
        }
    }
}

} // verus!
