//! The donation ledger: donation records and the role-gated change of their
//! status.

use crate::error::{outcome, ContractError};
use crate::identity::Address;
use crate::table::{append_id, ids_of, listed, IdList, Table};
use crate::text::{same_text, texts};
use vstd::prelude::*;

verus! {

/// Where a donation stands.
#[derive(Clone, Copy, Debug, PartialEq, Eq, Structural)]
pub enum DonationStatus {
    Created,
    InEscrow,
    Validated,
    Delivered,
    Completed,
    Disputed,
    Cancelled,
}

/// The name under which a donation status is written down.
pub open spec fn donation_label(status: DonationStatus) -> Seq<char> {
    match status {
        DonationStatus::Created => "Created"@,
        DonationStatus::InEscrow => "InEscrow"@,
        DonationStatus::Validated => "Validated"@,
        DonationStatus::Delivered => "Delivered"@,
        DonationStatus::Completed => "Completed"@,
        DonationStatus::Disputed => "Disputed"@,
        DonationStatus::Cancelled => "Cancelled"@,
    }
}

/// The donation status that a name denotes, if it denotes one.
pub open spec fn donation_status_of(text: Seq<char>) -> Option<DonationStatus> {
    if text == "Created"@ {
        Some(DonationStatus::Created)
    } else if text == "InEscrow"@ {
        Some(DonationStatus::InEscrow)
    } else if text == "Validated"@ {
        Some(DonationStatus::Validated)
    } else if text == "Delivered"@ {
        Some(DonationStatus::Delivered)
    } else if text == "Completed"@ {
        Some(DonationStatus::Completed)
    } else if text == "Disputed"@ {
        Some(DonationStatus::Disputed)
    } else if text == "Cancelled"@ {
        Some(DonationStatus::Cancelled)
    } else {
        None
    }
}

/// Each donation status is read back from its name, and a name denotes at
/// most the status that is written so.
pub proof fn donation_label_round_trip(status: DonationStatus, text: Seq<char>)
    ensures
        donation_status_of(donation_label(status)) == Some(status),
        donation_status_of(text) == Some(status) ==> text == donation_label(status),
{
    reveal_strlit("Created");
    reveal_strlit("InEscrow");
    reveal_strlit("Validated");
    reveal_strlit("Delivered");
    reveal_strlit("Completed");
    reveal_strlit("Disputed");
    reveal_strlit("Cancelled");
    assert("Created"@.len() == 7);
    assert("InEscrow"@.len() == 8);
    assert("Validated"@.len() == 9);
    assert("Delivered"@.len() == 9);
    assert("Completed"@.len() == 9);
    assert("Disputed"@.len() == 8);
    assert("Cancelled"@.len() == 9);
    assert("InEscrow"@[0] == 'I');
    assert("Disputed"@[0] == 'D');
    assert("Validated"@[0] == 'V');
    assert("Delivered"@[0] == 'D');
    assert("Completed"@[1] == 'o');
    assert("Cancelled"@[1] == 'a');
    assert("Completed"@[0] == 'C');
    assert("Cancelled"@[0] == 'C');
}

impl DonationStatus {
    /// The name under which the status is written down.
    pub fn as_str(&self) -> (s: &'static str)
        ensures
            s@ == donation_label(*self),
    {
        match self {
            DonationStatus::Created => "Created",
            DonationStatus::InEscrow => "InEscrow",
            DonationStatus::Validated => "Validated",
            DonationStatus::Delivered => "Delivered",
            DonationStatus::Completed => "Completed",
            DonationStatus::Disputed => "Disputed",
            DonationStatus::Cancelled => "Cancelled",
        }
    }

    /// The status that the name denotes, if it denotes one.
    pub fn parse(text: &str) -> (r: Option<DonationStatus>)
        ensures
            r == donation_status_of(text@),
    {
        if same_text(text, "Created") {
            Some(DonationStatus::Created)
        } else if same_text(text, "InEscrow") {
            Some(DonationStatus::InEscrow)
        } else if same_text(text, "Validated") {
            Some(DonationStatus::Validated)
        } else if same_text(text, "Delivered") {
            Some(DonationStatus::Delivered)
        } else if same_text(text, "Completed") {
            Some(DonationStatus::Completed)
        } else if same_text(text, "Disputed") {
            Some(DonationStatus::Disputed)
        } else if same_text(text, "Cancelled") {
            Some(DonationStatus::Cancelled)
        } else {
            None
        }
    }
}

/// A donation from a donor to a recipient.
#[derive(Debug)]
pub struct Donation {
    pub id: String,
    pub donor: Address,
    pub recipient: Address,
    pub amount: i128,
    pub description: String,
    pub conditions: String,
    pub status: DonationStatus,
    pub created_at: u64,
}

/// A donation as a value.
pub struct DonationView {
    pub id: Seq<char>,
    pub donor: Seq<char>,
    pub recipient: Seq<char>,
    pub amount: i128,
    pub description: Seq<char>,
    pub conditions: Seq<char>,
    pub status: DonationStatus,
    pub created_at: u64,
}

impl View for Donation {
    type V = DonationView;

    open spec fn view(&self) -> DonationView {
        DonationView {
            id: self.id@,
            donor: self.donor@,
            recipient: self.recipient@,
            amount: self.amount,
            description: self.description@,
            conditions: self.conditions@,
            status: self.status,
            created_at: self.created_at,
        }
    }
}

impl Clone for Donation {
    fn clone(&self) -> (d: Donation)
        ensures
            d@ == self@,
    {
        Donation {
            id: self.id.clone(),
            donor: self.donor.clone(),
            recipient: self.recipient.clone(),
            amount: self.amount,
            description: self.description.clone(),
            conditions: self.conditions.clone(),
            status: self.status,
            created_at: self.created_at,
        }
    }
}

/// The record of a donation that is made at `now`.
pub open spec fn new_donation(
    id: Seq<char>,
    donor: Seq<char>,
    recipient: Seq<char>,
    amount: i128,
    description: Seq<char>,
    conditions: Seq<char>,
    now: u64,
) -> DonationView {
    DonationView {
        id,
        donor,
        recipient,
        amount,
        description,
        conditions,
        status: DonationStatus::Created,
        created_at: now,
    }
}

/// Why no donation of the amount can be made, if none can.
pub open spec fn donation_denied(amount: i128) -> Option<ContractError> {
    if amount <= 0 {
        Some(ContractError::NonPositiveAmount)
    } else {
        None
    }
}

/// Who may move a donation to the target status. The status it is in plays
/// no part.
pub open spec fn may_set(d: DonationView, target: DonationStatus, updater: Seq<char>) -> bool {
    match target {
        DonationStatus::InEscrow => updater == d.donor,
        DonationStatus::Validated => updater == d.recipient,
        DonationStatus::Completed => updater == d.recipient,
        DonationStatus::Disputed => updater == d.donor || updater == d.recipient,
        DonationStatus::Cancelled => updater == d.donor,
        DonationStatus::Created => true,
        DonationStatus::Delivered => true,
    }
}

/// Why the updater cannot move the donation to the target status, if they
/// cannot.
pub open spec fn status_denied(d: DonationView, target: DonationStatus, updater: Seq<char>)
    -> Option<ContractError> {
    if may_set(d, target, updater) {
        None
    } else {
        Some(ContractError::Unauthorized)
    }
}

impl Donation {
    /// The record of a donation that is made at `now`: created. Refused where
    /// the amount is not positive.
    pub fn open(
        id: String,
        donor: Address,
        recipient: Address,
        amount: i128,
        description: String,
        conditions: String,
        now: u64,
    ) -> (r: Result<Donation, ContractError>)
        ensures
            match donation_denied(amount) {
                Some(e) => r == Err::<Donation, ContractError>(e),
                None => r is Ok && r->Ok_0@ == new_donation(
                    id@,
                    donor@,
                    recipient@,
                    amount,
                    description@,
                    conditions@,
                    now,
                ),
            },
    {
        if amount <= 0 {
            return Err(ContractError::NonPositiveAmount);
        }
        Ok(
            Donation {
                id,
                donor,
                recipient,
                amount,
                description,
                conditions,
                status: DonationStatus::Created,
                created_at: now,
            },
        )
    }

    /// Moves the donation to the target status, if the updater holds the role
    /// that the target asks for.
    pub fn set_status(&mut self, new_status: DonationStatus, updater: &Address) -> (r: Result<
        (),
        ContractError,
    >)
        ensures
            r == outcome(status_denied(old(self)@, new_status, updater@)),
            final(self)@ == if r is Ok {
                DonationView { status: new_status, ..old(self)@ }
            } else {
                old(self)@
            },
    {
        let by_donor = self.donor.same(updater);
        let by_recipient = self.recipient.same(updater);
        let allowed = match new_status {
            DonationStatus::InEscrow => by_donor,
            DonationStatus::Validated => by_recipient,
            DonationStatus::Completed => by_recipient,
            DonationStatus::Disputed => by_donor || by_recipient,
            DonationStatus::Cancelled => by_donor,
            DonationStatus::Created => true,
            DonationStatus::Delivered => true,
        };
        if !allowed {
            return Err(ContractError::Unauthorized);
        }
        self.status = new_status;
        Ok(())
    }
}

/// What the ledger stores a value under: the kind of the value and its
/// natural key.
#[derive(Debug)]
pub enum DataKey {
    /// The donation with the id.
    Donation(String),
    /// The ids of the donor's donations.
    DonationsByDonor(Address),
    /// The ids of the donations made to the recipient.
    DonationsByRecipient(Address),
    /// The administrator.
    Admin,
}

/// What the ledger has stored.
pub struct LedgerState {
    /// The administrator, once configured.
    pub admin: Option<Seq<char>>,
    /// The donations by id.
    pub donations: Map<Seq<char>, DonationView>,
    /// For each donor, the ids of their donations, oldest first.
    pub by_donor: Map<Seq<char>, Seq<Seq<char>>>,
    /// For each recipient, the ids of the donations made to them, oldest first.
    pub by_recipient: Map<Seq<char>, Seq<Seq<char>>>,
}

/// The state after the donation was stored and its id appended to the
/// donor's and the recipient's index.
pub open spec fn with_donation(s: LedgerState, d: DonationView) -> LedgerState {
    LedgerState {
        donations: s.donations.insert(d.id, d),
        by_donor: s.by_donor.insert(d.donor, listed(s.by_donor, d.donor).push(d.id)),
        by_recipient: s.by_recipient.insert(
            d.recipient,
            listed(s.by_recipient, d.recipient).push(d.id),
        ),
        ..s
    }
}

/// Why `update_status` refuses, if it does.
pub open spec fn update_refusal(
    s: LedgerState,
    id: Seq<char>,
    target: DonationStatus,
    updater: Seq<char>,
) -> Option<ContractError> {
    if !s.donations.dom().contains(id) {
        Some(ContractError::NotFound)
    } else {
        status_denied(s.donations[id], target, updater)
    }
}

/// The state in which the donation under `id` has the given status and
/// everything else is as before.
pub open spec fn with_donation_status(s: LedgerState, id: Seq<char>, status: DonationStatus)
    -> LedgerState {
    LedgerState { donations: s.donations.insert(id, DonationView { status, ..s.donations[id] }), ..s }
}

/// The donation ledger.
pub struct DonationContract {
    admin: Option<Address>,
    donations: Table<String, Donation>,
    by_donor: Table<Address, IdList>,
    by_recipient: Table<Address, IdList>,
}

impl View for DonationContract {
    type V = LedgerState;

    closed spec fn view(&self) -> LedgerState {
        LedgerState {
            admin: match self.admin {
                Some(a) => Some(a@),
                None => None,
            },
            donations: self.donations@,
            by_donor: self.by_donor@,
            by_recipient: self.by_recipient@,
        }
    }
}

impl DonationContract {
    /// A ledger with no administrator and no donations.
    pub fn new() -> (c: DonationContract)
        ensures
            c@ == (LedgerState {
                admin: None,
                donations: Map::empty(),
                by_donor: Map::empty(),
                by_recipient: Map::empty(),
            }),
    {
        DonationContract {
            admin: None,
            donations: Table::new(),
            by_donor: Table::new(),
            by_recipient: Table::new(),
        }
    }

    /// Configures the administrator.
    pub fn initialize(&mut self, admin: Address)
        ensures
            final(self)@ == (LedgerState { admin: Some(admin@), ..old(self)@ }),
    {
        self.admin = Some(admin);
    }

    /// Records a donation in `Created` and appends its id to the donor's and
    /// the recipient's index. Refused, with nothing changed, where the amount
    /// is not positive.
    pub fn create_donation(
        &mut self,
        id: String,
        donor: Address,
        recipient: Address,
        amount: i128,
        description: String,
        conditions: String,
        now: u64,
    ) -> (r: Result<String, ContractError>)
        ensures
            amount <= 0 ==> r == Err::<String, ContractError>(ContractError::NonPositiveAmount)
                && final(self)@ == old(self)@,
            amount > 0 ==> r is Ok && r->Ok_0@ == id@ && final(self)@ == with_donation(
                old(self)@,
                new_donation(id@, donor@, recipient@, amount, description@, conditions@, now),
            ),
    {
        let donation = match Donation::open(
            id.clone(),
            donor.clone(),
            recipient.clone(),
            amount,
            description,
            conditions,
            now,
        ) {
            Ok(d) => d,
            Err(e) => {
                return Err(e);
            },
        };
        self.donations.set(id.clone(), donation);
        append_id(&mut self.by_donor, donor, id.clone());
        append_id(&mut self.by_recipient, recipient, id.clone());
        Ok(id)
    }

    /// Moves a donation to the target status, if the updater holds the role
    /// that the target asks for. The status is overwritten whatever it was.
    pub fn update_status(&mut self, id: &String, new_status: DonationStatus, updater: &Address) -> (r:
        Result<(), ContractError>)
        ensures
            r == outcome(update_refusal(old(self)@, id@, new_status, updater@)),
            final(self)@ == if r is Ok {
                with_donation_status(old(self)@, id@, new_status)
            } else {
                old(self)@
            },
    {
        let mut donation = match self.donations.get(id) {
            Some(d) => d.clone(),
            None => {
                return Err(ContractError::NotFound);
            },
        };
        match donation.set_status(new_status, updater) {
            Ok(()) => {},
            Err(e) => {
                return Err(e);
            },
        }
        self.donations.set(id.clone(), donation);
        Ok(())
    }

    /// The donation stored under the id, if there is one.
    pub fn get_donation(&self, id: &String) -> (r: Option<Donation>)
        ensures
            match r {
                Some(d) => self@.donations.dom().contains(id@) && d@ == self@.donations[id@],
                None => !self@.donations.dom().contains(id@),
            },
    {
        match self.donations.get(id) {
            Some(d) => Some(d.clone()),
            None => None,
        }
    }

    /// The ids of the donor's donations, oldest first.
    pub fn get_donations_by_donor(&self, donor: &Address) -> (ids: Vec<String>)
        ensures
            texts(ids@) == listed(self@.by_donor, donor@),
    {
        ids_of(&self.by_donor, donor)
    }

    /// The ids of the donations made to the recipient, oldest first.
    pub fn get_donations_by_recipient(&self, recipient: &Address) -> (ids: Vec<String>)
        ensures
            texts(ids@) == listed(self@.by_recipient, recipient@),
    {
        ids_of(&self.by_recipient, recipient)
    }

    /// Whether anything is stored under the key.
    pub fn has(&self, key: &DataKey) -> (b: bool)
        ensures
            b == match *key {
                DataKey::Donation(id) => self@.donations.dom().contains(id@),
                DataKey::DonationsByDonor(donor) => self@.by_donor.dom().contains(donor@),
                DataKey::DonationsByRecipient(recipient) => self@.by_recipient.dom().contains(
                    recipient@,
                ),
                DataKey::Admin => self@.admin is Some,
            },
    {
        match key {
            DataKey::Donation(id) => self.donations.has(id),
            DataKey::DonationsByDonor(donor) => self.by_donor.has(donor),
            DataKey::DonationsByRecipient(recipient) => self.by_recipient.has(recipient),
            DataKey::Admin => self.admin.is_some(),
        }
    }

    /// Whether a donation is stored under the id.
    pub fn has_donation(&self, id: &String) -> (b: bool)
        ensures
            b == self@.donations.dom().contains(id@),
    {
        self.donations.has(id)
    }

    /// The administrator, if one was configured.
    pub fn get_admin(&self) -> (r: Option<Address>)
        ensures
            match self@.admin {
                Some(a) => r is Some && r->Some_0@ == a,
                None => r is None,
            },
    {
        match &self.admin {
            Some(a) => Some(a.clone()),
            None => None,
        }
    }
}

} // verus!
