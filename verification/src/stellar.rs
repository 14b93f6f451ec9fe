//! Off-chain helpers: the operations of a network transaction before it is
//! encoded, and the handles of the services that submit it.

use crate::error::ContractError;
use crate::text::text_of;
use vstd::prelude::*;
use vstd::string::StringExecFns;

verus! {

/// The fee of a new transaction, in stroops.
pub const BASE_FEE: u32 = 100;

/// One operation of a transaction.
#[derive(Clone, Debug)]
pub struct Operation {
    pub operation_type: String,
    pub source_account: Option<String>,
    pub destination: Option<String>,
    pub amount: Option<String>,
    pub asset_code: Option<String>,
    pub asset_issuer: Option<String>,
}

/// An operation as a value.
pub struct OperationView {
    pub operation_type: Seq<char>,
    pub source_account: Option<Seq<char>>,
    pub destination: Option<Seq<char>>,
    pub amount: Option<Seq<char>>,
    pub asset_code: Option<Seq<char>>,
    pub asset_issuer: Option<Seq<char>>,
}

impl View for Operation {
    type V = OperationView;

    open spec fn view(&self) -> OperationView {
        OperationView {
            operation_type: self.operation_type@,
            source_account: text_of(self.source_account),
            destination: text_of(self.destination),
            amount: text_of(self.amount),
            asset_code: text_of(self.asset_code),
            asset_issuer: text_of(self.asset_issuer),
        }
    }
}

/// A payment of the native asset to the destination, from the transaction's
/// own source account.
pub open spec fn payment(destination: Seq<char>, amount: Seq<char>) -> OperationView {
    OperationView {
        operation_type: "payment"@,
        source_account: None,
        destination: Some(destination),
        amount: Some(amount),
        asset_code: Some("XLM"@),
        asset_issuer: None,
    }
}

/// A transaction that is being put together.
#[derive(Clone, Debug)]
pub struct TransactionBuilder {
    pub source_account: String,
    pub sequence_number: u64,
    pub fee: u32,
    pub operations: Vec<Operation>,
}

impl TransactionBuilder {
    /// The views of the operations added so far, in order.
    pub open spec fn listed_operations(&self) -> Seq<OperationView> {
        Seq::new(self.operations@.len(), |i: int| self.operations@[i]@)
    }

    /// A transaction of the source account with the base fee and no
    /// operations.
    pub fn new(source_account: String, sequence_number: u64) -> (b: TransactionBuilder)
        ensures
            b.source_account@ == source_account@,
            b.sequence_number == sequence_number,
            b.fee == BASE_FEE,
            b.listed_operations() == Seq::<OperationView>::empty(),
    {
        let b = TransactionBuilder {
            source_account,
            sequence_number,
            fee: BASE_FEE,
            operations: Vec::new(),
        };
        assert(b.listed_operations() =~= Seq::<OperationView>::empty());
        b
    }

    /// Appends a payment of the native asset to the destination, and hands the
    /// builder back for the next operation.
    pub fn add_payment_operation(&mut self, destination: String, amount: String) -> (b:
        &mut TransactionBuilder)
        ensures
            b.listed_operations() == old(self).listed_operations().push(
                payment(destination@, amount@),
            ),
            b.source_account == old(self).source_account,
            b.sequence_number == old(self).sequence_number,
            b.fee == old(self).fee,
            *final(self) == *final(b),
    {
        let operation = Operation {
            operation_type: "payment".to_owned(),
            source_account: None,
            destination: Some(destination),
            amount: Some(amount),
            asset_code: Some("XLM".to_owned()),
            asset_issuer: None,
        };
        self.operations.push(operation);
        assert(self.listed_operations() =~= old(self).listed_operations().push(
            payment(destination@, amount@),
        ));
        self
    }

    /// The text that stands for the transaction's envelope: the same for every
    /// transaction.
    pub fn build_xdr(&self) -> (r: Result<String, ContractError>)
        ensures
            r is Ok,
            r->Ok_0@ == "dummy_xdr_transaction"@,
    {
        Ok("dummy_xdr_transaction".to_owned())
    }

    /// The text that stands for the signed envelope: the same for every
    /// transaction and every key.
    pub fn sign(&self, _private_key: &str) -> (r: Result<String, ContractError>)
        ensures
            r is Ok,
            r->Ok_0@ == "signed_transaction_xdr"@,
    {
        Ok("signed_transaction_xdr".to_owned())
    }
}

/// The handle of the service that deploys and invokes contracts.
#[derive(Debug)]
pub struct ContractManager {
    pub soroban_rpc_url: String,
}

impl ContractManager {
    /// A manager that talks to the given endpoint.
    pub fn new(soroban_rpc_url: String) -> (m: ContractManager)
        ensures
            m.soroban_rpc_url@ == soroban_rpc_url@,
    {
        ContractManager { soroban_rpc_url }
    }
}

/// The handle of the service that drives the escrow vault.
#[derive(Debug)]
pub struct EscrowService {
    pub contract_address: String,
}

impl EscrowService {
    /// A service for the vault deployed at the given address.
    pub fn new(contract_address: String) -> (s: EscrowService)
        ensures
            s.contract_address@ == contract_address@,
    {
        EscrowService { contract_address }
    }
}

/// Where the network serves the account of a public key.
pub fn account_url(horizon_url: &str, public_key: &str) -> (url: String)
    ensures
        url@ == horizon_url@ + "/accounts/"@ + public_key@,
{
    horizon_url.to_owned().concat("/accounts/").concat(public_key)
}

/// Where the network serves the transaction with a hash.
pub fn transaction_url(horizon_url: &str, tx_hash: &str) -> (url: String)
    ensures
        url@ == horizon_url@ + "/transactions/"@ + tx_hash@,
{
    horizon_url.to_owned().concat("/transactions/").concat(tx_hash)
}

/// Where the network takes new transactions.
pub fn submission_url(horizon_url: &str) -> (url: String)
    ensures
        url@ == horizon_url@ + "/transactions"@,
{
    horizon_url.to_owned().concat("/transactions")
}

/// An account of the network as it is reported to a caller. The balance is
/// in stroops.
#[derive(Clone, Debug)]
pub struct StellarAccount {
    pub public_key: String,
    pub balance: i64,
    pub sequence: String,
    pub account_id: String,
}

/// The balance that is reported for every account: a thousand lumens, in
/// stroops.
pub const REPORTED_BALANCE: i64 = 10_000_000_000;

/// The handle of the service that reads accounts from the network.
#[derive(Debug)]
pub struct StellarService {
    pub rpc_url: String,
}

impl StellarService {
    /// A service that talks to the given endpoint.
    pub fn new(rpc_url: String) -> (s: StellarService)
        ensures
            s.rpc_url@ == rpc_url@,
    {
        StellarService { rpc_url }
    }

    /// The account of the public key, with the balance and the sequence
    /// number that are reported for every account.
    pub fn get_account(&self, public_key: &str) -> (r: Result<StellarAccount, ContractError>)
        ensures
            r is Ok,
            r->Ok_0.public_key@ == public_key@,
            r->Ok_0.account_id@ == public_key@,
            r->Ok_0.balance == REPORTED_BALANCE,
            r->Ok_0.sequence@ == "123456789"@,
    {
        Ok(
            StellarAccount {
                public_key: public_key.to_owned(),
                balance: REPORTED_BALANCE,
                sequence: "123456789".to_owned(),
                account_id: public_key.to_owned(),
            },
        )
    }
}

} // verus!
