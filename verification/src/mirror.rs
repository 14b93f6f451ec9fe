//! The records of the relational mirror: how they are made when a row is
//! inserted and how they are read back from the texts that a row holds. The
//! mirror is kept for queries; the three ledgers stay the authority.

use crate::community::{verification_of, VerificationStatus};
use crate::donation::{donation_status_of, DonationStatus};
use crate::text::same_text;
use vstd::prelude::*;

verus! {

/// The error with which `uuid` refuses a text.
#[verifier::external_type_specification]
#[verifier::external_body]
pub struct ExUuidError(uuid::Error);

/// The 128 bits of the id that a text denotes, as `uuid::Uuid::parse_str`
/// reads it; `None` where it reads none.
pub uninterp spec fn id_of_text(text: Seq<char>) -> Option<u128>;

/// Calls `uuid::Uuid::parse_str` and packs the id it reads with
/// `uuid::Uuid::as_u128`. Believed, not proved: the call succeeds exactly on
/// the texts that denote an id, and the bits are those of that id. Which
/// texts these are is left to `uuid`.
#[verifier::external_body]
fn read_id(text: &str) -> (r: Result<u128, uuid::Error>)
    ensures
        match r {
            Ok(bits) => id_of_text(text@) == Some(bits),
            Err(_) => id_of_text(text@) is None,
        },
{
    match uuid::Uuid::parse_str(text) {
        Ok(id) => Ok(id.as_u128()),
        Err(e) => Err(e),
    }
}

/// Calls `to_string` on a `uuid::Error`: the refusal in words. Nothing is
/// claimed of the words.
#[verifier::external_body]
fn refusal_text(e: &uuid::Error) -> (s: String) {
    e.to_string()
}

/// Why a row could not be read.
#[derive(Debug, PartialEq, Eq)]
pub enum MirrorError {
    /// The user type is none of the known names.
    UnknownUserType,
    /// The verification status is none of the known names.
    UnknownVerificationStatus,
    /// The donation status is none of the known names.
    UnknownDonationStatus,
    /// A text that should denote an id denotes none; with the reason in words.
    MalformedId(String),
}

impl MirrorError {
    /// The refusal in words.
    pub fn message(&self) -> (s: String)
        ensures
            match *self {
                MirrorError::UnknownUserType => s@ == "Unknown user type"@,
                MirrorError::UnknownVerificationStatus => s@ == "Unknown verification status"@,
                MirrorError::UnknownDonationStatus => s@ == "Unknown donation status"@,
                MirrorError::MalformedId(reason) => s@ == reason@,
            },
    {
        match self {
            MirrorError::UnknownUserType => "Unknown user type".to_owned(),
            MirrorError::UnknownVerificationStatus => "Unknown verification status".to_owned(),
            MirrorError::UnknownDonationStatus => "Unknown donation status".to_owned(),
            MirrorError::MalformedId(reason) => reason.clone(),
        }
    }
}

/// Reads an id from a text.
pub fn parse_id(text: &str) -> (r: Result<u128, MirrorError>)
    ensures
        match id_of_text(text@) {
            Some(bits) => r == Ok::<u128, MirrorError>(bits),
            None => r matches Err(MirrorError::MalformedId(_)),
        },
{
    match read_id(text) {
        Ok(bits) => Ok(bits),
        Err(e) => Err(MirrorError::MalformedId(refusal_text(&e))),
    }
}

/// A point in time: seconds since the epoch and the nanoseconds within the
/// second.
#[derive(Clone, Copy, Debug, PartialEq, Eq, Structural)]
pub struct Timestamp {
    pub seconds: i64,
    pub nanos: u32,
}

/// What a user of the platform is.
#[derive(Clone, Copy, Debug, PartialEq, Eq, Structural)]
pub enum UserType {
    ONG,
    Community,
    Representative,
    Validator,
}

/// The name under which a user type is written down.
pub open spec fn user_type_label(t: UserType) -> Seq<char> {
    match t {
        UserType::ONG => "ONG"@,
        UserType::Community => "Community"@,
        UserType::Representative => "Representative"@,
        UserType::Validator => "Validator"@,
    }
}

/// The user type that a name denotes, if it denotes one.
pub open spec fn user_type_of(text: Seq<char>) -> Option<UserType> {
    if text == "ONG"@ {
        Some(UserType::ONG)
    } else if text == "Community"@ {
        Some(UserType::Community)
    } else if text == "Representative"@ {
        Some(UserType::Representative)
    } else if text == "Validator"@ {
        Some(UserType::Validator)
    } else {
        None
    }
}

/// Each user type is read back from its name, and a name denotes at most the
/// type that is written so.
pub proof fn user_type_label_round_trip(t: UserType, text: Seq<char>)
    ensures
        user_type_of(user_type_label(t)) == Some(t),
        user_type_of(text) == Some(t) ==> text == user_type_label(t),
{
    reveal_strlit("ONG");
    reveal_strlit("Community");
    reveal_strlit("Representative");
    reveal_strlit("Validator");
    assert("ONG"@.len() == 3);
    assert("Community"@.len() == 9);
    assert("Representative"@.len() == 14);
    assert("Validator"@.len() == 9);
    assert("Community"@[0] == 'C');
    assert("Validator"@[0] == 'V');
}

impl UserType {
    /// The name under which the type is written down.
    pub fn as_str(&self) -> (s: &'static str)
        ensures
            s@ == user_type_label(*self),
    {
        match self {
            UserType::ONG => "ONG",
            UserType::Community => "Community",
            UserType::Representative => "Representative",
            UserType::Validator => "Validator",
        }
    }

    /// The type that the name denotes, if it denotes one.
    pub fn parse(text: &str) -> (r: Option<UserType>)
        ensures
            r == user_type_of(text@),
    {
        if same_text(text, "ONG") {
            Some(UserType::ONG)
        } else if same_text(text, "Community") {
            Some(UserType::Community)
        } else if same_text(text, "Representative") {
            Some(UserType::Representative)
        } else if same_text(text, "Validator") {
            Some(UserType::Validator)
        } else {
            None
        }
    }
}

/// A user of the platform.
#[derive(Clone, Debug)]
pub struct User {
    pub id: u128,
    pub stellar_public_key: String,
    pub user_type: UserType,
    pub name: String,
    pub email: Option<String>,
    pub created_at: Timestamp,
    pub updated_at: Timestamp,
}

/// A community as the mirror keeps it.
#[derive(Clone, Debug)]
pub struct Community {
    pub id: u128,
    pub name: String,
    pub location: String,
    pub description: String,
    pub representative_id: u128,
    pub stellar_public_key: String,
    pub verification_status: VerificationStatus,
    pub created_at: Timestamp,
    pub updated_at: Timestamp,
}

/// A donation as the mirror keeps it. The amount is in stroops.
#[derive(Clone, Debug)]
pub struct Donation {
    pub id: u128,
    pub donor_id: u128,
    pub community_id: u128,
    pub amount: i64,
    pub description: String,
    pub conditions: String,
    pub stellar_transaction_hash: Option<String>,
    pub contract_address: String,
    pub escrow_address: String,
    pub status: DonationStatus,
    pub created_at: Timestamp,
    pub updated_at: Timestamp,
}

/// A delivery as the mirror keeps it.
#[derive(Clone, Debug)]
pub struct Delivery {
    pub id: u128,
    pub donation_id: u128,
    pub recipient_id: u128,
    pub representative_id: u128,
    pub goods_received: String,
    pub quantity: i32,
    pub delivery_proof: String,
    pub verification_status: VerificationStatus,
    pub stellar_transaction_hash: Option<String>,
    pub created_at: Timestamp,
    pub updated_at: Timestamp,
}

/// What a user sends to sign in.
#[derive(Clone, Debug)]
pub struct LoginRequest {
    pub stellar_public_key: String,
}

/// What a user sends to be registered.
#[derive(Clone, Debug)]
pub struct RegisterRequest {
    pub stellar_public_key: String,
    pub user_type: UserType,
    pub name: String,
    pub email: Option<String>,
}

/// What a donor sends to have a donation recorded.
#[derive(Clone, Debug)]
pub struct CreateDonationRequest {
    pub community_id: u128,
    pub amount: i64,
    pub description: String,
    pub conditions: String,
    pub donor_stellar_key: String,
}

/// What a representative sends to have a delivery recorded.
#[derive(Clone, Debug)]
pub struct ValidateDeliveryRequest {
    pub donation_id: u128,
    pub goods_received: String,
    pub quantity: i32,
    pub delivery_proof: String,
    pub representative_stellar_key: String,
}

impl User {
    /// The record of a user that is inserted now.
    pub fn new(
        id: u128,
        now: Timestamp,
        stellar_public_key: &str,
        user_type: UserType,
        name: &str,
        email: Option<&str>,
    ) -> (u: User)
        ensures
            u.id == id,
            u.stellar_public_key@ == stellar_public_key@,
            u.user_type == user_type,
            u.name@ == name@,
            match email {
                Some(e) => u.email is Some && u.email->0@ == e@,
                None => u.email is None,
            },
            u.created_at == now,
            u.updated_at == now,
    {
        User {
            id,
            stellar_public_key: stellar_public_key.to_owned(),
            user_type,
            name: name.to_owned(),
            email: match email {
                Some(e) => Some(e.to_owned()),
                None => None,
            },
            created_at: now,
            updated_at: now,
        }
    }

    /// The user that a row holds, from what was read of its id and its type.
    /// An unknown type is reported before a malformed id.
    pub fn from_parts(
        id: Result<u128, MirrorError>,
        stellar_public_key: String,
        user_type: Option<UserType>,
        name: String,
        email: Option<String>,
        created_at: Timestamp,
        updated_at: Timestamp,
    ) -> (r: Result<User, MirrorError>)
        ensures
            match (user_type, id) {
                (None, _) => r == Err::<User, MirrorError>(MirrorError::UnknownUserType),
                (Some(_), Err(e)) => r == Err::<User, MirrorError>(e),
                (Some(t), Ok(bits)) => r is Ok && ({
                    let u = r->Ok_0;
                    &&& u.id == bits
                    &&& u.stellar_public_key == stellar_public_key
                    &&& u.user_type == t
                    &&& u.name == name
                    &&& u.email == email
                    &&& u.created_at == created_at
                    &&& u.updated_at == updated_at
                }),
            },
    {
        let user_type = match user_type {
            Some(t) => t,
            None => {
                return Err(MirrorError::UnknownUserType);
            },
        };
        let id = match id {
            Ok(bits) => bits,
            Err(e) => {
                return Err(e);
            },
        };
        Ok(User { id, stellar_public_key, user_type, name, email, created_at, updated_at })
    }

    /// The user that a row holds, from the texts of its id and its type.
    pub fn from_row(
        id: &str,
        stellar_public_key: String,
        user_type: &str,
        name: String,
        email: Option<String>,
        created_at: Timestamp,
        updated_at: Timestamp,
    ) -> (r: Result<User, MirrorError>)
        ensures
            match (user_type_of(user_type@), id_of_text(id@)) {
                (None, _) => r == Err::<User, MirrorError>(MirrorError::UnknownUserType),
                (Some(_), None) => r matches Err(MirrorError::MalformedId(_)),
                (Some(t), Some(bits)) => r is Ok && ({
                    let u = r->Ok_0;
                    &&& u.id == bits
                    &&& u.stellar_public_key == stellar_public_key
                    &&& u.user_type == t
                    &&& u.name == name
                    &&& u.email == email
                    &&& u.created_at == created_at
                    &&& u.updated_at == updated_at
                }),
            },
    {
        User::from_parts(
            parse_id(id),
            stellar_public_key,
            UserType::parse(user_type),
            name,
            email,
            created_at,
            updated_at,
        )
    }
}

impl Community {
    /// The record of a community that is inserted now: pending.
    pub fn new(
        id: u128,
        now: Timestamp,
        name: &str,
        location: &str,
        description: &str,
        representative_id: u128,
        stellar_public_key: &str,
    ) -> (c: Community)
        ensures
            c.id == id,
            c.name@ == name@,
            c.location@ == location@,
            c.description@ == description@,
            c.representative_id == representative_id,
            c.stellar_public_key@ == stellar_public_key@,
            c.verification_status == VerificationStatus::Pending,
            c.created_at == now,
            c.updated_at == now,
    {
        Community {
            id,
            name: name.to_owned(),
            location: location.to_owned(),
            description: description.to_owned(),
            representative_id,
            stellar_public_key: stellar_public_key.to_owned(),
            verification_status: VerificationStatus::Pending,
            created_at: now,
            updated_at: now,
        }
    }

    /// The community that a row holds, from what was read of its ids and its
    /// status. An unknown status is reported first, then the first id that is
    /// malformed.
    pub fn from_parts(
        id: Result<u128, MirrorError>,
        name: String,
        location: String,
        description: String,
        representative_id: Result<u128, MirrorError>,
        stellar_public_key: String,
        verification_status: Option<VerificationStatus>,
        created_at: Timestamp,
        updated_at: Timestamp,
    ) -> (r: Result<Community, MirrorError>)
        ensures
            match (verification_status, id, representative_id) {
                (None, _, _) => r == Err::<Community, MirrorError>(
                    MirrorError::UnknownVerificationStatus,
                ),
                (Some(_), Err(e), _) => r == Err::<Community, MirrorError>(e),
                (Some(_), Ok(_), Err(e)) => r == Err::<Community, MirrorError>(e),
                (Some(status), Ok(id_bits), Ok(representative_bits)) => r is Ok && ({
                    let c = r->Ok_0;
                    &&& c.id == id_bits
                    &&& c.name == name
                    &&& c.location == location
                    &&& c.description == description
                    &&& c.representative_id == representative_bits
                    &&& c.stellar_public_key == stellar_public_key
                    &&& c.verification_status == status
                    &&& c.created_at == created_at
                    &&& c.updated_at == updated_at
                }),
            },
    {
        let verification_status = match verification_status {
            Some(s) => s,
            None => {
                return Err(MirrorError::UnknownVerificationStatus);
            },
        };
        let id = match id {
            Ok(bits) => bits,
            Err(e) => {
                return Err(e);
            },
        };
        let representative_id = match representative_id {
            Ok(bits) => bits,
            Err(e) => {
                return Err(e);
            },
        };
        Ok(
            Community {
                id,
                name,
                location,
                description,
                representative_id,
                stellar_public_key,
                verification_status,
                created_at,
                updated_at,
            },
        )
    }

    /// The community that a row holds, from the texts of its ids and its
    /// status.
    pub fn from_row(
        id: &str,
        name: String,
        location: String,
        description: String,
        representative_id: &str,
        stellar_public_key: String,
        verification_status: &str,
        created_at: Timestamp,
        updated_at: Timestamp,
    ) -> (r: Result<Community, MirrorError>)
        ensures
            match verification_of(verification_status@) {
                None => r == Err::<Community, MirrorError>(MirrorError::UnknownVerificationStatus),
                Some(status) => if id_of_text(id@) is Some && id_of_text(representative_id@)
                    is Some {
                    r is Ok && ({
                        let c = r->Ok_0;
                        &&& Some(c.id) == id_of_text(id@)
                        &&& c.name == name
                        &&& c.location == location
                        &&& c.description == description
                        &&& Some(c.representative_id) == id_of_text(representative_id@)
                        &&& c.stellar_public_key == stellar_public_key
                        &&& c.verification_status == status
                        &&& c.created_at == created_at
                        &&& c.updated_at == updated_at
                    })
                } else {
                    r matches Err(MirrorError::MalformedId(_))
                },
            },
    {
        Community::from_parts(
            parse_id(id),
            name,
            location,
            description,
            parse_id(representative_id),
            stellar_public_key,
            VerificationStatus::parse(verification_status),
            created_at,
            updated_at,
        )
    }
}

impl Donation {
    /// The record of a donation that is inserted now: created, with no
    /// transaction yet.
    pub fn new(
        id: u128,
        now: Timestamp,
        request: CreateDonationRequest,
        donor_id: u128,
        contract_address: &str,
        escrow_address: &str,
    ) -> (d: Donation)
        ensures
            d.id == id,
            d.donor_id == donor_id,
            d.community_id == request.community_id,
            d.amount == request.amount,
            d.description == request.description,
            d.conditions == request.conditions,
            d.stellar_transaction_hash is None,
            d.contract_address@ == contract_address@,
            d.escrow_address@ == escrow_address@,
            d.status == DonationStatus::Created,
            d.created_at == now,
            d.updated_at == now,
    {
        Donation {
            id,
            donor_id,
            community_id: request.community_id,
            amount: request.amount,
            description: request.description,
            conditions: request.conditions,
            stellar_transaction_hash: None,
            contract_address: contract_address.to_owned(),
            escrow_address: escrow_address.to_owned(),
            status: DonationStatus::Created,
            created_at: now,
            updated_at: now,
        }
    }

    /// The donation that a row holds, from what was read of its ids and its
    /// status. An unknown status is reported first, then the first id that is
    /// malformed.
    pub fn from_parts(
        id: Result<u128, MirrorError>,
        donor_id: Result<u128, MirrorError>,
        community_id: Result<u128, MirrorError>,
        amount: i64,
        description: String,
        conditions: String,
        stellar_transaction_hash: Option<String>,
        contract_address: String,
        escrow_address: String,
        status: Option<DonationStatus>,
        created_at: Timestamp,
        updated_at: Timestamp,
    ) -> (r: Result<Donation, MirrorError>)
        ensures
            match (status, id, donor_id, community_id) {
                (None, _, _, _) => r == Err::<Donation, MirrorError>(
                    MirrorError::UnknownDonationStatus,
                ),
                (Some(_), Err(e), _, _) => r == Err::<Donation, MirrorError>(e),
                (Some(_), Ok(_), Err(e), _) => r == Err::<Donation, MirrorError>(e),
                (Some(_), Ok(_), Ok(_), Err(e)) => r == Err::<Donation, MirrorError>(e),
                (Some(known), Ok(id_bits), Ok(donor_bits), Ok(community_bits)) => r is Ok && ({
                    let d = r->Ok_0;
                    &&& d.id == id_bits
                    &&& d.donor_id == donor_bits
                    &&& d.community_id == community_bits
                    &&& d.amount == amount
                    &&& d.description == description
                    &&& d.conditions == conditions
                    &&& d.stellar_transaction_hash == stellar_transaction_hash
                    &&& d.contract_address == contract_address
                    &&& d.escrow_address == escrow_address
                    &&& d.status == known
                    &&& d.created_at == created_at
                    &&& d.updated_at == updated_at
                }),
            },
    {
        let status = match status {
            Some(s) => s,
            None => {
                return Err(MirrorError::UnknownDonationStatus);
            },
        };
        let id = match id {
            Ok(bits) => bits,
            Err(e) => {
                return Err(e);
            },
        };
        let donor_id = match donor_id {
            Ok(bits) => bits,
            Err(e) => {
                return Err(e);
            },
        };
        let community_id = match community_id {
            Ok(bits) => bits,
            Err(e) => {
                return Err(e);
            },
        };
        Ok(
            Donation {
                id,
                donor_id,
                community_id,
                amount,
                description,
                conditions,
                stellar_transaction_hash,
                contract_address,
                escrow_address,
                status,
                created_at,
                updated_at,
            },
        )
    }

    /// The donation that a row holds, from the texts of its ids and its
    /// status.
    pub fn from_row(
        id: &str,
        donor_id: &str,
        community_id: &str,
        amount: i64,
        description: String,
        conditions: String,
        stellar_transaction_hash: Option<String>,
        contract_address: String,
        escrow_address: String,
        status: &str,
        created_at: Timestamp,
        updated_at: Timestamp,
    ) -> (r: Result<Donation, MirrorError>)
        ensures
            match donation_status_of(status@) {
                None => r == Err::<Donation, MirrorError>(MirrorError::UnknownDonationStatus),
                Some(known) => if id_of_text(id@) is Some && id_of_text(donor_id@) is Some
                    && id_of_text(community_id@) is Some {
                    r is Ok && ({
                        let d = r->Ok_0;
                        &&& Some(d.id) == id_of_text(id@)
                        &&& Some(d.donor_id) == id_of_text(donor_id@)
                        &&& Some(d.community_id) == id_of_text(community_id@)
                        &&& d.amount == amount
                        &&& d.description == description
                        &&& d.conditions == conditions
                        &&& d.stellar_transaction_hash == stellar_transaction_hash
                        &&& d.contract_address == contract_address
                        &&& d.escrow_address == escrow_address
                        &&& d.status == known
                        &&& d.created_at == created_at
                        &&& d.updated_at == updated_at
                    })
                } else {
                    r matches Err(MirrorError::MalformedId(_))
                },
            },
    {
        Donation::from_parts(
            parse_id(id),
            parse_id(donor_id),
            parse_id(community_id),
            amount,
            description,
            conditions,
            stellar_transaction_hash,
            contract_address,
            escrow_address,
            DonationStatus::parse(status),
            created_at,
            updated_at,
        )
    }
}

impl Delivery {
    /// The record of a delivery that is inserted now: pending, with no
    /// transaction yet.
    pub fn new(
        id: u128,
        now: Timestamp,
        request: ValidateDeliveryRequest,
        recipient_id: u128,
        representative_id: u128,
    ) -> (d: Delivery)
        ensures
            d.id == id,
            d.donation_id == request.donation_id,
            d.recipient_id == recipient_id,
            d.representative_id == representative_id,
            d.goods_received == request.goods_received,
            d.quantity == request.quantity,
            d.delivery_proof == request.delivery_proof,
            d.verification_status == VerificationStatus::Pending,
            d.stellar_transaction_hash is None,
            d.created_at == now,
            d.updated_at == now,
    {
        Delivery {
            id,
            donation_id: request.donation_id,
            recipient_id,
            representative_id,
            goods_received: request.goods_received,
            quantity: request.quantity,
            delivery_proof: request.delivery_proof,
            verification_status: VerificationStatus::Pending,
            stellar_transaction_hash: None,
            created_at: now,
            updated_at: now,
        }
    }

    /// The delivery that a row holds, from what was read of its ids and its
    /// status. An unknown status is reported first, then the first id that is
    /// malformed.
    pub fn from_parts(
        id: Result<u128, MirrorError>,
        donation_id: Result<u128, MirrorError>,
        recipient_id: Result<u128, MirrorError>,
        representative_id: Result<u128, MirrorError>,
        goods_received: String,
        quantity: i32,
        delivery_proof: String,
        verification_status: Option<VerificationStatus>,
        stellar_transaction_hash: Option<String>,
        created_at: Timestamp,
        updated_at: Timestamp,
    ) -> (r: Result<Delivery, MirrorError>)
        ensures
            match (verification_status, id, donation_id, recipient_id, representative_id) {
                (None, _, _, _, _) => r == Err::<Delivery, MirrorError>(
                    MirrorError::UnknownVerificationStatus,
                ),
                (Some(_), Err(e), _, _, _) => r == Err::<Delivery, MirrorError>(e),
                (Some(_), Ok(_), Err(e), _, _) => r == Err::<Delivery, MirrorError>(e),
                (Some(_), Ok(_), Ok(_), Err(e), _) => r == Err::<Delivery, MirrorError>(e),
                (Some(_), Ok(_), Ok(_), Ok(_), Err(e)) => r == Err::<Delivery, MirrorError>(e),
                (
                    Some(status),
                    Ok(id_bits),
                    Ok(donation_bits),
                    Ok(recipient_bits),
                    Ok(representative_bits),
                ) => r is Ok && ({
                    let d = r->Ok_0;
                    &&& d.id == id_bits
                    &&& d.donation_id == donation_bits
                    &&& d.recipient_id == recipient_bits
                    &&& d.representative_id == representative_bits
                    &&& d.goods_received == goods_received
                    &&& d.quantity == quantity
                    &&& d.delivery_proof == delivery_proof
                    &&& d.verification_status == status
                    &&& d.stellar_transaction_hash == stellar_transaction_hash
                    &&& d.created_at == created_at
                    &&& d.updated_at == updated_at
                }),
            },
    {
        let verification_status = match verification_status {
            Some(s) => s,
            None => {
                return Err(MirrorError::UnknownVerificationStatus);
            },
        };
        let id = match id {
            Ok(bits) => bits,
            Err(e) => {
                return Err(e);
            },
        };
        let donation_id = match donation_id {
            Ok(bits) => bits,
            Err(e) => {
                return Err(e);
            },
        };
        let recipient_id = match recipient_id {
            Ok(bits) => bits,
            Err(e) => {
                return Err(e);
            },
        };
        let representative_id = match representative_id {
            Ok(bits) => bits,
            Err(e) => {
                return Err(e);
            },
        };
        Ok(
            Delivery {
                id,
                donation_id,
                recipient_id,
                representative_id,
                goods_received,
                quantity,
                delivery_proof,
                verification_status,
                stellar_transaction_hash,
                created_at,
                updated_at,
            },
        )
    }

    /// The delivery that a row holds, from the texts of its ids and its
    /// status.
    pub fn from_row(
        id: &str,
        donation_id: &str,
        recipient_id: &str,
        representative_id: &str,
        goods_received: String,
        quantity: i32,
        delivery_proof: String,
        verification_status: &str,
        stellar_transaction_hash: Option<String>,
        created_at: Timestamp,
        updated_at: Timestamp,
    ) -> (r: Result<Delivery, MirrorError>)
        ensures
            match verification_of(verification_status@) {
                None => r == Err::<Delivery, MirrorError>(MirrorError::UnknownVerificationStatus),
                Some(status) => if id_of_text(id@) is Some && id_of_text(donation_id@) is Some
                    && id_of_text(recipient_id@) is Some && id_of_text(representative_id@)
                    is Some {
                    r is Ok && ({
                        let d = r->Ok_0;
                        &&& Some(d.id) == id_of_text(id@)
                        &&& Some(d.donation_id) == id_of_text(donation_id@)
                        &&& Some(d.recipient_id) == id_of_text(recipient_id@)
                        &&& Some(d.representative_id) == id_of_text(representative_id@)
                        &&& d.goods_received == goods_received
                        &&& d.quantity == quantity
                        &&& d.delivery_proof == delivery_proof
                        &&& d.verification_status == status
                        &&& d.stellar_transaction_hash == stellar_transaction_hash
                        &&& d.created_at == created_at
                        &&& d.updated_at == updated_at
                    })
                } else {
                    r matches Err(MirrorError::MalformedId(_))
                },
            },
    {
        Delivery::from_parts(
            parse_id(id),
            parse_id(donation_id),
            parse_id(recipient_id),
            parse_id(representative_id),
            goods_received,
            quantity,
            delivery_proof,
            VerificationStatus::parse(verification_status),
            stellar_transaction_hash,
            created_at,
            updated_at,
        )
    }
}

/// Stroops in one lumen.
pub const STROOPS_PER_LUMEN: u32 = 10_000_000;

/// The amounts of the donations, each cut to its low 32 bits and summed within
/// 32 bits.
pub open spec fn wrapped_sum(donations: Seq<Donation>) -> u32
    decreases donations.len(),
{
    if donations.len() == 0 {
        0
    } else {
        wrapped_sum(donations.drop_last()).wrapping_add(donations.last().amount as u32)
    }
}

/// What was donated in all, in whole lumens, as the statistics report it:
/// the amounts are summed within 32 bits and the sum is cut to lumens.
pub fn total_lumens(donations: &Vec<Donation>) -> (t: u32)
    ensures
        t == wrapped_sum(donations@) / STROOPS_PER_LUMEN,
{
    let mut sum: u32 = 0;
    let mut i: usize = 0;
    while i < donations.len()
        invariant
            i <= donations.len(),
            sum == wrapped_sum(donations@.take(i as int)),
        decreases donations.len() - i,
    {
        proof {
            let longer = donations@.take(i + 1);
            assert(longer.drop_last() =~= donations@.take(i as int));
            assert(longer.last() == donations@[i as int]);
        }
        let low: u32 = #[verifier::truncate]
        (donations[i].amount as u32);
        sum = sum.wrapping_add(low);
        i += 1;
    }
    assert(donations@.take(i as int) =~= donations@);
    sum / STROOPS_PER_LUMEN
}

} // verus!
