//! The community registry: communities, their verification, and the
//! validation of deliveries made to them.

use crate::error::{outcome, ContractError};
use crate::identity::{admin_denied, require_admin, Address};
use crate::table::{append_id, ids_of, listed, IdList, Table};
use crate::text::{clone_strings, same_text, texts};
use vstd::prelude::*;

verus! {

/// Whether a community was verified by the administrator.
#[derive(Clone, Copy, Debug, PartialEq, Eq, Structural)]
pub enum VerificationStatus {
    Pending,
    Verified,
    Rejected,
}

/// The name under which a verification status is written down.
pub open spec fn verification_label(status: VerificationStatus) -> Seq<char> {
    match status {
        VerificationStatus::Pending => "Pending"@,
        VerificationStatus::Verified => "Verified"@,
        VerificationStatus::Rejected => "Rejected"@,
    }
}

/// The verification status that a name denotes, if it denotes one.
pub open spec fn verification_of(text: Seq<char>) -> Option<VerificationStatus> {
    if text == "Pending"@ {
        Some(VerificationStatus::Pending)
    } else if text == "Verified"@ {
        Some(VerificationStatus::Verified)
    } else if text == "Rejected"@ {
        Some(VerificationStatus::Rejected)
    } else {
        None
    }
}

/// Each verification status is read back from its name, and a name denotes
/// at most the status that is written so.
pub proof fn verification_label_round_trip(status: VerificationStatus, text: Seq<char>)
    ensures
        verification_of(verification_label(status)) == Some(status),
        verification_of(text) == Some(status) ==> text == verification_label(status),
{
    reveal_strlit("Pending");
    reveal_strlit("Verified");
    reveal_strlit("Rejected");
    assert("Pending"@.len() == 7);
    assert("Verified"@.len() == 8);
    assert("Rejected"@.len() == 8);
    assert("Verified"@[0] == 'V');
    assert("Rejected"@[0] == 'R');
}

impl VerificationStatus {
    /// The name under which the status is written down.
    pub fn as_str(&self) -> (s: &'static str)
        ensures
            s@ == verification_label(*self),
    {
        match self {
            VerificationStatus::Pending => "Pending",
            VerificationStatus::Verified => "Verified",
            VerificationStatus::Rejected => "Rejected",
        }
    }

    /// The status that the name denotes, if it denotes one.
    pub fn parse(text: &str) -> (r: Option<VerificationStatus>)
        ensures
            r == verification_of(text@),
    {
        if same_text(text, "Pending") {
            Some(VerificationStatus::Pending)
        } else if same_text(text, "Verified") {
            Some(VerificationStatus::Verified)
        } else if same_text(text, "Rejected") {
            Some(VerificationStatus::Rejected)
        } else {
            None
        }
    }
}

/// Whether a reported delivery was accepted by the administrator.
#[derive(Clone, Copy, Debug, PartialEq, Eq, Structural)]
pub enum ValidationStatus {
    Pending,
    Approved,
    Rejected,
}

/// A community that receives donations. Its representative alone changes
/// its needs; the administrator verifies it.
#[derive(Debug)]
pub struct Community {
    pub id: String,
    pub name: String,
    pub location: String,
    pub description: String,
    pub representative: Address,
    pub verification_status: VerificationStatus,
    pub created_at: u64,
    pub needs: Vec<String>,
    pub deliveries_count: u32,
    pub total_received: i128,
}

/// A community as a value.
pub struct CommunityView {
    pub id: Seq<char>,
    pub name: Seq<char>,
    pub location: Seq<char>,
    pub description: Seq<char>,
    pub representative: Seq<char>,
    pub verification_status: VerificationStatus,
    pub created_at: u64,
    pub needs: Seq<Seq<char>>,
    pub deliveries_count: u32,
    pub total_received: i128,
}

impl View for Community {
    type V = CommunityView;

    open spec fn view(&self) -> CommunityView {
        CommunityView {
            id: self.id@,
            name: self.name@,
            location: self.location@,
            description: self.description@,
            representative: self.representative@,
            verification_status: self.verification_status,
            created_at: self.created_at,
            needs: texts(self.needs@),
            deliveries_count: self.deliveries_count,
            total_received: self.total_received,
        }
    }
}

impl Clone for Community {
    fn clone(&self) -> (c: Community)
        ensures
            c@ == self@,
    {
        Community {
            id: self.id.clone(),
            name: self.name.clone(),
            location: self.location.clone(),
            description: self.description.clone(),
            representative: self.representative.clone(),
            verification_status: self.verification_status,
            created_at: self.created_at,
            needs: clone_strings(&self.needs),
            deliveries_count: self.deliveries_count,
            total_received: self.total_received,
        }
    }
}

/// A representative's report that goods of a donation arrived.
#[derive(Debug)]
pub struct DeliveryValidation {
    pub id: String,
    pub donation_id: String,
    pub community_id: String,
    pub validator: Address,
    pub goods_received: String,
    pub quantity: u32,
    pub delivery_proof: String,
    pub status: ValidationStatus,
    pub created_at: u64,
}

/// A delivery validation as a value.
pub struct DeliveryValidationView {
    pub id: Seq<char>,
    pub donation_id: Seq<char>,
    pub community_id: Seq<char>,
    pub validator: Seq<char>,
    pub goods_received: Seq<char>,
    pub quantity: u32,
    pub delivery_proof: Seq<char>,
    pub status: ValidationStatus,
    pub created_at: u64,
}

impl View for DeliveryValidation {
    type V = DeliveryValidationView;

    open spec fn view(&self) -> DeliveryValidationView {
        DeliveryValidationView {
            id: self.id@,
            donation_id: self.donation_id@,
            community_id: self.community_id@,
            validator: self.validator@,
            goods_received: self.goods_received@,
            quantity: self.quantity,
            delivery_proof: self.delivery_proof@,
            status: self.status,
            created_at: self.created_at,
        }
    }
}

impl Clone for DeliveryValidation {
    fn clone(&self) -> (v: DeliveryValidation)
        ensures
            v@ == self@,
    {
        DeliveryValidation {
            id: self.id.clone(),
            donation_id: self.donation_id.clone(),
            community_id: self.community_id.clone(),
            validator: self.validator.clone(),
            goods_received: self.goods_received.clone(),
            quantity: self.quantity,
            delivery_proof: self.delivery_proof.clone(),
            status: self.status,
            created_at: self.created_at,
        }
    }
}

/// A community as it is registered: pending, with no needs, no deliveries
/// and nothing received.
pub open spec fn fresh_community(
    id: Seq<char>,
    name: Seq<char>,
    location: Seq<char>,
    description: Seq<char>,
    representative: Seq<char>,
    now: u64,
) -> CommunityView {
    CommunityView {
        id,
        name,
        location,
        description,
        representative,
        verification_status: VerificationStatus::Pending,
        created_at: now,
        needs: Seq::empty(),
        deliveries_count: 0,
        total_received: 0,
    }
}

/// Why the caller cannot replace the community's needs, if they cannot.
pub open spec fn needs_denied(c: CommunityView, representative: Seq<char>) -> Option<
    ContractError,
> {
    if c.representative != representative {
        Some(ContractError::Unauthorized)
    } else {
        None
    }
}

/// Why the caller cannot report a delivery to the community, if they cannot.
pub open spec fn reporting_denied(c: CommunityView, validator: Seq<char>) -> Option<
    ContractError,
> {
    if c.representative != validator {
        Some(ContractError::Unauthorized)
    } else if c.verification_status != VerificationStatus::Verified {
        Some(ContractError::IllegalStatus)
    } else {
        None
    }
}

/// Why the community cannot count one delivery more, if it cannot.
pub open spec fn counting_denied(c: CommunityView) -> Option<ContractError> {
    if c.deliveries_count == u32::MAX {
        Some(ContractError::Overflow)
    } else {
        None
    }
}

/// Why the amount cannot be added to what the community received, if it
/// cannot.
pub open spec fn receiving_denied(c: CommunityView, amount: i128) -> Option<ContractError> {
    if !(i128::MIN <= c.total_received + amount <= i128::MAX) {
        Some(ContractError::Overflow)
    } else {
        None
    }
}

/// The record of a delivery that is reported at `now`.
pub open spec fn new_validation(
    id: Seq<char>,
    donation_id: Seq<char>,
    community_id: Seq<char>,
    validator: Seq<char>,
    goods_received: Seq<char>,
    quantity: u32,
    delivery_proof: Seq<char>,
    now: u64,
) -> DeliveryValidationView {
    DeliveryValidationView {
        id,
        donation_id,
        community_id,
        validator,
        goods_received,
        quantity,
        delivery_proof,
        status: ValidationStatus::Pending,
        created_at: now,
    }
}

impl Community {
    /// The record of a community that is registered at `now`.
    pub fn register(
        id: String,
        name: String,
        location: String,
        description: String,
        representative: Address,
        now: u64,
    ) -> (c: Community)
        ensures
            c@ == fresh_community(id@, name@, location@, description@, representative@, now),
    {
        let c = Community {
            id,
            name,
            location,
            description,
            representative,
            verification_status: VerificationStatus::Pending,
            created_at: now,
            needs: Vec::new(),
            deliveries_count: 0,
            total_received: 0,
        };
        assert(c@.needs =~= Seq::<Seq<char>>::empty());
        c
    }

    /// Marks the community as verified, whatever its status was.
    pub fn verify(&mut self)
        ensures
            final(self)@ == (CommunityView {
                verification_status: VerificationStatus::Verified,
                ..old(self)@
            }),
    {
        self.verification_status = VerificationStatus::Verified;
    }

    /// The representative replaces the list of needs.
    pub fn replace_needs(&mut self, needs: Vec<String>, representative: &Address) -> (r: Result<
        (),
        ContractError,
    >)
        ensures
            r == outcome(needs_denied(old(self)@, representative@)),
            final(self)@ == if r is Ok {
                CommunityView { needs: texts(needs@), ..old(self)@ }
            } else {
                old(self)@
            },
    {
        if !self.representative.same(representative) {
            return Err(ContractError::Unauthorized);
        }
        self.needs = needs;
        Ok(())
    }

    /// Counts one delivery more.
    pub fn count_delivery(&mut self) -> (r: Result<(), ContractError>)
        ensures
            r == outcome(counting_denied(old(self)@)),
            final(self)@ == if r is Ok {
                CommunityView {
                    deliveries_count: (old(self)@.deliveries_count + 1) as u32,
                    ..old(self)@
                }
            } else {
                old(self)@
            },
    {
        if self.deliveries_count == u32::MAX {
            return Err(ContractError::Overflow);
        }
        self.deliveries_count = self.deliveries_count + 1;
        Ok(())
    }

    /// Adds a signed amount to what was received. The total may become
    /// negative.
    pub fn add_received(&mut self, amount: i128) -> (r: Result<(), ContractError>)
        ensures
            r == outcome(receiving_denied(old(self)@, amount)),
            final(self)@ == if r is Ok {
                CommunityView {
                    total_received: (old(self)@.total_received + amount) as i128,
                    ..old(self)@
                }
            } else {
                old(self)@
            },
    {
        let total = match self.total_received.checked_add(amount) {
            Some(t) => t,
            None => {
                return Err(ContractError::Overflow);
            },
        };
        self.total_received = total;
        Ok(())
    }
}

impl DeliveryValidation {
    /// The record of a delivery that the validator reports to the community
    /// at `now`: pending. Refused where the validator is not the community's
    /// representative or the community is not verified.
    pub fn report(
        community: &Community,
        id: String,
        donation_id: String,
        community_id: String,
        validator: Address,
        goods_received: String,
        quantity: u32,
        delivery_proof: String,
        now: u64,
    ) -> (r: Result<DeliveryValidation, ContractError>)
        ensures
            match reporting_denied(community@, validator@) {
                Some(e) => r == Err::<DeliveryValidation, ContractError>(e),
                None => r is Ok && r->Ok_0@ == new_validation(
                    id@,
                    donation_id@,
                    community_id@,
                    validator@,
                    goods_received@,
                    quantity,
                    delivery_proof@,
                    now,
                ),
            },
    {
        if !community.representative.same(&validator) {
            return Err(ContractError::Unauthorized);
        }
        if community.verification_status != VerificationStatus::Verified {
            return Err(ContractError::IllegalStatus);
        }
        Ok(
            DeliveryValidation {
                id,
                donation_id,
                community_id,
                validator,
                goods_received,
                quantity,
                delivery_proof,
                status: ValidationStatus::Pending,
                created_at: now,
            },
        )
    }

    /// Marks the validation as approved, whatever its status was.
    pub fn approve(&mut self)
        ensures
            final(self)@ == (DeliveryValidationView {
                status: ValidationStatus::Approved,
                ..old(self)@
            }),
    {
        self.status = ValidationStatus::Approved;
    }

    /// Marks the validation as rejected, whatever its status was.
    pub fn reject(&mut self)
        ensures
            final(self)@ == (DeliveryValidationView {
                status: ValidationStatus::Rejected,
                ..old(self)@
            }),
    {
        self.status = ValidationStatus::Rejected;
    }
}

/// What the registry stores a value under: the kind of the value and its
/// natural key.
#[derive(Debug)]
pub enum DataKey {
    /// The community with the id.
    Community(String),
    /// The delivery validation with the id.
    DeliveryValidation(String),
    /// The ids of the representative's communities.
    CommunitiesByRepresentative(Address),
    /// The ids of the donation's delivery validations.
    ValidationsByDonation(String),
    /// The administrator.
    Admin,
}

/// What the registry has stored.
pub struct RegistryState {
    /// The administrator, once configured.
    pub admin: Option<Seq<char>>,
    /// The communities by id.
    pub communities: Map<Seq<char>, CommunityView>,
    /// The delivery validations by id.
    pub validations: Map<Seq<char>, DeliveryValidationView>,
    /// For each representative, the ids of their communities, oldest first.
    pub by_representative: Map<Seq<char>, Seq<Seq<char>>>,
    /// For each donation, the ids of its delivery validations, oldest first.
    pub by_donation: Map<Seq<char>, Seq<Seq<char>>>,
}

/// The state after the community was stored and its id appended to its
/// representative's index.
pub open spec fn with_community(s: RegistryState, c: CommunityView) -> RegistryState {
    RegistryState {
        communities: s.communities.insert(c.id, c),
        by_representative: s.by_representative.insert(
            c.representative,
            listed(s.by_representative, c.representative).push(c.id),
        ),
        ..s
    }
}

/// The state after the validation was stored and its id appended to its
/// donation's index.
pub open spec fn with_validation(s: RegistryState, v: DeliveryValidationView) -> RegistryState {
    RegistryState {
        validations: s.validations.insert(v.id, v),
        by_donation: s.by_donation.insert(v.donation_id, listed(s.by_donation, v.donation_id).push(v.id)),
        ..s
    }
}

/// The state in which the community under `id` is replaced by the given one
/// and everything else is as before.
pub open spec fn with_record(s: RegistryState, id: Seq<char>, c: CommunityView) -> RegistryState {
    RegistryState { communities: s.communities.insert(id, c), ..s }
}

/// Why a call that only the administrator may make is refused before it
/// looks at any record, if it is.
pub open spec fn admin_refusal(s: RegistryState, caller: Seq<char>) -> Option<ContractError> {
    admin_denied(s.admin, caller)
}

/// Why a call by the administrator on a community is refused, if it is.
pub open spec fn admin_on_community_refusal(s: RegistryState, id: Seq<char>, admin: Seq<char>)
    -> Option<ContractError> {
    if admin_refusal(s, admin) is Some {
        admin_refusal(s, admin)
    } else if !s.communities.dom().contains(id) {
        Some(ContractError::NotFound)
    } else {
        None
    }
}

/// Why `update_needs` refuses, if it does.
pub open spec fn needs_refusal(s: RegistryState, id: Seq<char>, representative: Seq<char>)
    -> Option<ContractError> {
    if !s.communities.dom().contains(id) {
        Some(ContractError::NotFound)
    } else {
        needs_denied(s.communities[id], representative)
    }
}

/// Why `validate_delivery` refuses, if it does.
pub open spec fn delivery_refusal(s: RegistryState, community_id: Seq<char>, validator: Seq<char>)
    -> Option<ContractError> {
    if !s.communities.dom().contains(community_id) {
        Some(ContractError::NotFound)
    } else {
        reporting_denied(s.communities[community_id], validator)
    }
}

/// Why `approve_delivery` refuses, if it does.
pub open spec fn approve_refusal(s: RegistryState, validation_id: Seq<char>, approver: Seq<char>)
    -> Option<ContractError> {
    if admin_refusal(s, approver) is Some {
        admin_refusal(s, approver)
    } else if !s.validations.dom().contains(validation_id) {
        Some(ContractError::NotFound)
    } else if !s.communities.dom().contains(s.validations[validation_id].community_id) {
        Some(ContractError::NotFound)
    } else {
        counting_denied(s.communities[s.validations[validation_id].community_id])
    }
}

/// The state after the validation was approved: it is `Approved`, and the
/// community it names counts one delivery more.
pub open spec fn approved(s: RegistryState, validation_id: Seq<char>) -> RegistryState {
    let v = s.validations[validation_id];
    let c = s.communities[v.community_id];
    RegistryState {
        validations: s.validations.insert(
            validation_id,
            DeliveryValidationView { status: ValidationStatus::Approved, ..v },
        ),
        communities: s.communities.insert(
            v.community_id,
            CommunityView { deliveries_count: (c.deliveries_count + 1) as u32, ..c },
        ),
        ..s
    }
}

/// Why `reject_delivery` refuses, if it does.
pub open spec fn reject_refusal(s: RegistryState, validation_id: Seq<char>, rejector: Seq<char>)
    -> Option<ContractError> {
    if admin_refusal(s, rejector) is Some {
        admin_refusal(s, rejector)
    } else if !s.validations.dom().contains(validation_id) {
        Some(ContractError::NotFound)
    } else {
        None
    }
}

/// The state after the validation was rejected: it is `Rejected`, and
/// nothing else changed.
pub open spec fn rejected(s: RegistryState, validation_id: Seq<char>) -> RegistryState {
    RegistryState {
        validations: s.validations.insert(
            validation_id,
            DeliveryValidationView {
                status: ValidationStatus::Rejected,
                ..s.validations[validation_id]
            },
        ),
        ..s
    }
}

/// Why `update_total_received` refuses, if it does.
pub open spec fn total_refusal(s: RegistryState, id: Seq<char>, amount: i128, admin: Seq<char>)
    -> Option<ContractError> {
    if admin_on_community_refusal(s, id, admin) is Some {
        admin_on_community_refusal(s, id, admin)
    } else {
        receiving_denied(s.communities[id], amount)
    }
}

/// A community that was just registered is found under its id as it was
/// given: pending, with no needs, no deliveries counted and nothing received.
pub proof fn registered_community_is_fresh(
    s: RegistryState,
    id: Seq<char>,
    name: Seq<char>,
    location: Seq<char>,
    description: Seq<char>,
    representative: Seq<char>,
    now: u64,
)
    ensures
        ({
            let after = with_community(
                s,
                fresh_community(id, name, location, description, representative, now),
            );
            &&& after.communities.dom().contains(id)
            &&& after.communities[id].verification_status == VerificationStatus::Pending
            &&& after.communities[id].deliveries_count == 0
            &&& after.communities[id].total_received == 0
            &&& after.communities[id].needs == Seq::<Seq<char>>::empty()
            &&& after.communities[id].representative == representative
            &&& listed(after.by_representative, representative).last() == id
        }),
{
}

/// The community registry.
pub struct CommunityContract {
    admin: Option<Address>,
    communities: Table<String, Community>,
    validations: Table<String, DeliveryValidation>,
    by_representative: Table<Address, IdList>,
    by_donation: Table<String, IdList>,
}

impl View for CommunityContract {
    type V = RegistryState;

    closed spec fn view(&self) -> RegistryState {
        RegistryState {
            admin: match self.admin {
                Some(a) => Some(a@),
                None => None,
            },
            communities: self.communities@,
            validations: self.validations@,
            by_representative: self.by_representative@,
            by_donation: self.by_donation@,
        }
    }
}

impl CommunityContract {
    /// A registry with no administrator and no records.
    pub fn new() -> (c: CommunityContract)
        ensures
            c@ == (RegistryState {
                admin: None,
                communities: Map::empty(),
                validations: Map::empty(),
                by_representative: Map::empty(),
                by_donation: Map::empty(),
            }),
    {
        CommunityContract {
            admin: None,
            communities: Table::new(),
            validations: Table::new(),
            by_representative: Table::new(),
            by_donation: Table::new(),
        }
    }

    /// Configures the administrator.
    pub fn initialize(&mut self, admin: Address)
        ensures
            final(self)@ == (RegistryState { admin: Some(admin@), ..old(self)@ }),
    {
        self.admin = Some(admin);
    }

    fn check_admin(&self, caller: &Address) -> (r: Result<(), ContractError>)
        ensures
            r == outcome(admin_refusal(self@, caller@)),
    {
        require_admin(self.admin.as_ref(), caller)
    }

    /// Registers a community as pending, with no needs and zero counters, and
    /// appends its id to its representative's index. Returns the id.
    pub fn register_community(
        &mut self,
        id: String,
        name: String,
        location: String,
        description: String,
        representative: Address,
        now: u64,
    ) -> (r: String)
        ensures
            r@ == id@,
            final(self)@ == with_community(
                old(self)@,
                fresh_community(id@, name@, location@, description@, representative@, now),
            ),
    {
        let community = Community::register(
            id.clone(),
            name,
            location,
            description,
            representative.clone(),
            now,
        );
        self.communities.set(id.clone(), community);
        append_id(&mut self.by_representative, representative, id.clone());
        id
    }

    /// The administrator verifies a community, whatever its status was.
    pub fn verify_community(&mut self, id: &String, admin: &Address) -> (r: Result<
        (),
        ContractError,
    >)
        ensures
            r == outcome(admin_on_community_refusal(old(self)@, id@, admin@)),
            final(self)@ == if r is Ok {
                with_record(
                    old(self)@,
                    id@,
                    CommunityView {
                        verification_status: VerificationStatus::Verified,
                        ..old(self)@.communities[id@]
                    },
                )
            } else {
                old(self)@
            },
    {
        match self.check_admin(admin) {
            Ok(()) => {},
            Err(e) => {
                return Err(e);
            },
        }
        let mut community = match self.communities.get(id) {
            Some(c) => c.clone(),
            None => {
                return Err(ContractError::NotFound);
            },
        };
        community.verify();
        self.communities.set(id.clone(), community);
        Ok(())
    }

    /// The representative replaces the community's list of needs.
    pub fn update_needs(&mut self, id: &String, needs: Vec<String>, representative: &Address) -> (r:
        Result<(), ContractError>)
        ensures
            r == outcome(needs_refusal(old(self)@, id@, representative@)),
            final(self)@ == if r is Ok {
                with_record(
                    old(self)@,
                    id@,
                    CommunityView { needs: texts(needs@), ..old(self)@.communities[id@] },
                )
            } else {
                old(self)@
            },
    {
        let mut community = match self.communities.get(id) {
            Some(c) => c.clone(),
            None => {
                return Err(ContractError::NotFound);
            },
        };
        match community.replace_needs(needs, representative) {
            Ok(()) => {},
            Err(e) => {
                return Err(e);
            },
        }
        self.communities.set(id.clone(), community);
        Ok(())
    }

    /// The representative of a verified community reports a delivery: a
    /// pending validation is stored and its id appended to the donation's
    /// index. Refused whenever the community is not verified, whoever calls.
    pub fn validate_delivery(
        &mut self,
        id: String,
        donation_id: String,
        community_id: String,
        validator: Address,
        goods_received: String,
        quantity: u32,
        delivery_proof: String,
        now: u64,
    ) -> (r: Result<String, ContractError>)
        ensures
            !(old(self)@.communities.dom().contains(community_id@)
                && old(self)@.communities[community_id@].verification_status
                == VerificationStatus::Verified) ==> r is Err,
            match delivery_refusal(old(self)@, community_id@, validator@) {
                Some(e) => r == Err::<String, ContractError>(e) && final(self)@ == old(self)@,
                None => r is Ok && r->Ok_0@ == id@ && final(self)@ == with_validation(
                    old(self)@,
                    new_validation(
                        id@,
                        donation_id@,
                        community_id@,
                        validator@,
                        goods_received@,
                        quantity,
                        delivery_proof@,
                        now,
                    ),
                ),
            },
    {
        let validation = match self.communities.get(&community_id) {
            Some(community) => match DeliveryValidation::report(
                community,
                id.clone(),
                donation_id.clone(),
                community_id,
                validator,
                goods_received,
                quantity,
                delivery_proof,
                now,
            ) {
                Ok(v) => v,
                Err(e) => {
                    return Err(e);
                },
            },
            None => {
                return Err(ContractError::NotFound);
            },
        };
        self.validations.set(id.clone(), validation);
        append_id(&mut self.by_donation, donation_id, id.clone());
        Ok(id)
    }

    /// The administrator approves a delivery validation: it becomes
    /// `Approved`, and the community it names counts exactly one delivery
    /// more. No other community's counter changes.
    pub fn approve_delivery(&mut self, validation_id: &String, approver: &Address) -> (r: Result<
        (),
        ContractError,
    >)
        ensures
            r == outcome(approve_refusal(old(self)@, validation_id@, approver@)),
            final(self)@ == if r is Ok {
                approved(old(self)@, validation_id@)
            } else {
                old(self)@
            },
            r is Ok ==> {
                let target = old(self)@.validations[validation_id@].community_id;
                &&& final(self)@.communities[target].deliveries_count
                    == old(self)@.communities[target].deliveries_count + 1
                &&& final(self)@.communities.dom() == old(self)@.communities.dom()
                &&& forall|other: Seq<char>|
                    other != target && old(self)@.communities.dom().contains(other)
                        ==> #[trigger] final(self)@.communities[other]
                        == old(self)@.communities[other]
            },
    {
        match self.check_admin(approver) {
            Ok(()) => {},
            Err(e) => {
                return Err(e);
            },
        }
        let mut validation = match self.validations.get(validation_id) {
            Some(v) => v.clone(),
            None => {
                return Err(ContractError::NotFound);
            },
        };
        let mut community = match self.communities.get(&validation.community_id) {
            Some(c) => c.clone(),
            None => {
                return Err(ContractError::NotFound);
            },
        };
        match community.count_delivery() {
            Ok(()) => {},
            Err(e) => {
                return Err(e);
            },
        }
        validation.approve();
        let community_id = validation.community_id.clone();
        self.validations.set(validation_id.clone(), validation);
        self.communities.set(community_id, community);
        assert(final(self)@.communities.dom() =~= old(self)@.communities.dom());
        Ok(())
    }

    /// The administrator rejects a delivery validation: it becomes
    /// `Rejected`. No community changes.
    pub fn reject_delivery(&mut self, validation_id: &String, rejector: &Address) -> (r: Result<
        (),
        ContractError,
    >)
        ensures
            r == outcome(reject_refusal(old(self)@, validation_id@, rejector@)),
            final(self)@ == if r is Ok {
                rejected(old(self)@, validation_id@)
            } else {
                old(self)@
            },
            final(self)@.communities == old(self)@.communities,
    {
        match self.check_admin(rejector) {
            Ok(()) => {},
            Err(e) => {
                return Err(e);
            },
        }
        let mut validation = match self.validations.get(validation_id) {
            Some(v) => v.clone(),
            None => {
                return Err(ContractError::NotFound);
            },
        };
        validation.reject();
        self.validations.set(validation_id.clone(), validation);
        Ok(())
    }

    /// The administrator adds a signed amount to what a community has
    /// received. The total may become negative.
    pub fn update_total_received(&mut self, community_id: &String, amount: i128, admin: &Address)
        -> (r: Result<(), ContractError>)
        ensures
            r == outcome(total_refusal(old(self)@, community_id@, amount, admin@)),
            final(self)@ == if r is Ok {
                with_record(
                    old(self)@,
                    community_id@,
                    CommunityView {
                        total_received: (old(self)@.communities[community_id@].total_received
                            + amount) as i128,
                        ..old(self)@.communities[community_id@]
                    },
                )
            } else {
                old(self)@
            },
    {
        match self.check_admin(admin) {
            Ok(()) => {},
            Err(e) => {
                return Err(e);
            },
        }
        let mut community = match self.communities.get(community_id) {
            Some(c) => c.clone(),
            None => {
                return Err(ContractError::NotFound);
            },
        };
        match community.add_received(amount) {
            Ok(()) => {},
            Err(e) => {
                return Err(e);
            },
        }
        self.communities.set(community_id.clone(), community);
        Ok(())
    }

    /// The community stored under the id, if there is one.
    pub fn get_community(&self, id: &String) -> (r: Option<Community>)
        ensures
            match r {
                Some(c) => self@.communities.dom().contains(id@) && c@ == self@.communities[id@],
                None => !self@.communities.dom().contains(id@),
            },
    {
        match self.communities.get(id) {
            Some(c) => Some(c.clone()),
            None => None,
        }
    }

    /// The delivery validation stored under the id, if there is one.
    pub fn get_delivery_validation(&self, id: &String) -> (r: Option<DeliveryValidation>)
        ensures
            match r {
                Some(v) => self@.validations.dom().contains(id@) && v@ == self@.validations[id@],
                None => !self@.validations.dom().contains(id@),
            },
    {
        match self.validations.get(id) {
            Some(v) => Some(v.clone()),
            None => None,
        }
    }

    /// The ids of the representative's communities, oldest first.
    pub fn get_communities_by_rep(&self, representative: &Address) -> (ids: Vec<String>)
        ensures
            texts(ids@) == listed(self@.by_representative, representative@),
    {
        ids_of(&self.by_representative, representative)
    }

    /// The ids of the donation's delivery validations, oldest first.
    pub fn get_validations_by_donation(&self, donation_id: &String) -> (ids: Vec<String>)
        ensures
            texts(ids@) == listed(self@.by_donation, donation_id@),
    {
        ids_of(&self.by_donation, donation_id)
    }

    /// Whether anything is stored under the key.
    pub fn has(&self, key: &DataKey) -> (b: bool)
        ensures
            b == match *key {
                DataKey::Community(id) => self@.communities.dom().contains(id@),
                DataKey::DeliveryValidation(id) => self@.validations.dom().contains(id@),
                DataKey::CommunitiesByRepresentative(representative) => self@.by_representative.dom().contains(
                    representative@,
                ),
                DataKey::ValidationsByDonation(donation_id) => self@.by_donation.dom().contains(
                    donation_id@,
                ),
                DataKey::Admin => self@.admin is Some,
            },
    {
        match key {
            DataKey::Community(id) => self.communities.has(id),
            DataKey::DeliveryValidation(id) => self.validations.has(id),
            DataKey::CommunitiesByRepresentative(representative) => self.by_representative.has(
                representative,
            ),
            DataKey::ValidationsByDonation(donation_id) => self.by_donation.has(donation_id),
            DataKey::Admin => self.admin.is_some(),
        }
    }

    /// Whether a community is stored under the id.
    pub fn has_community(&self, id: &String) -> (b: bool)
        ensures
            b == self@.communities.dom().contains(id@),
    {
        self.communities.has(id)
    }

    /// The administrator, if one was configured.
    pub fn get_admin(&self) -> (r: Option<Address>)
        ensures
            match self@.admin {
                Some(a) => r is Some && r->Some_0@ == a,
                None => r is None,
            },
    {
        match &self.admin {
            Some(a) => Some(a.clone()),
            None => None,
        }
    }
}

} // verus!
