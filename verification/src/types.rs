//! Canonical request/response data model handed to a connector adapter.
//!
//! These are the router's own shapes: the adapter receives an already
//! deserialized canonical payout request and produces a canonical response;
//! no connector vocabulary appears here.

use vstd::prelude::*;
use crate::errors::ConnectorError;
use crate::status::PayoutStatus;

verus! {

/// Currencies the router can route; the wire code is three letters.
#[derive(Clone, Copy, Debug, PartialEq, Eq, Structural)]
pub enum Currency {
    AED,
    AUD,
    CAD,
    CHF,
    EUR,
    GBP,
    INR,
    JPY,
    NZD,
    SGD,
    USD,
}

/// The three-letter code a currency is written as on the wire.
pub open spec fn spec_currency_code(c: Currency) -> Seq<char> {
    match c {
        Currency::AED => "AED"@,
        Currency::AUD => "AUD"@,
        Currency::CAD => "CAD"@,
        Currency::CHF => "CHF"@,
        Currency::EUR => "EUR"@,
        Currency::GBP => "GBP"@,
        Currency::INR => "INR"@,
        Currency::JPY => "JPY"@,
        Currency::NZD => "NZD"@,
        Currency::SGD => "SGD"@,
        Currency::USD => "USD"@,
    }
}

impl Currency {
    /// The currency's three-letter wire code.
    pub fn code(&self) -> (s: &'static str)
        ensures
            s@ == spec_currency_code(*self),
    {
        match self {
            Currency::AED => "AED",
            Currency::AUD => "AUD",
            Currency::CAD => "CAD",
            Currency::CHF => "CHF",
            Currency::EUR => "EUR",
            Currency::GBP => "GBP",
            Currency::INR => "INR",
            Currency::JPY => "JPY",
            Currency::NZD => "NZD",
            Currency::SGD => "SGD",
            Currency::USD => "USD",
        }
    }
}

/// Countries, written as their two-letter code on the wire.
#[derive(Clone, Copy, Debug, PartialEq, Eq, Structural)]
pub enum Country {
    AE,
    AU,
    CA,
    CH,
    DE,
    FR,
    GB,
    IN,
    JP,
    NL,
    SG,
    US,
}

/// What an outbound transfer is funded into.
#[derive(Clone, Copy, Debug, PartialEq, Eq, Structural)]
pub enum PayoutType {
    Bank,
    Card,
}

/// The legal nature of the payout counterparty, as the router records it.
#[derive(Clone, Copy, Debug, PartialEq, Eq, Structural)]
pub enum EntityType {
    Individual,
    Company,
    NonProfit,
    PublicSector,
    Business,
    Personal,
}

/// The credential material a merchant configured for a connector. Each
/// connector accepts a fixed subset of these shapes; supplying another shape
/// is a construction-time failure.
#[derive(Clone, Debug, PartialEq, Eq)]
pub enum ConnectorAuthType {
    HeaderKey { api_key: String },
    BodyKey { api_key: String, key1: String },
    SignatureKey { api_key: String, key1: String, api_secret: String },
    NoKey,
}

/// A postal address as the canonical request carries it.
#[derive(Clone, Debug, PartialEq, Eq)]
pub struct AddressDetails {
    pub country: Option<Country>,
    pub line1: Option<String>,
    pub zip: Option<String>,
    pub city: Option<String>,
    pub state: Option<String>,
}

/// The billing block of a canonical request.
#[derive(Clone, Debug, PartialEq, Eq)]
pub struct Address {
    pub address: Option<AddressDetails>,
}

/// Customer details attached to a payout request.
#[derive(Clone, Debug, PartialEq, Eq)]
pub struct CustomerDetails {
    pub name: Option<String>,
}

/// Bank account coordinates for a bank payout; field presence varies by rail.
#[derive(Clone, Debug, PartialEq, Eq)]
pub struct BankPayout {
    pub bank_account_number: Option<String>,
    pub bank_sort_code: Option<String>,
    pub bank_routing_number: Option<String>,
    pub iban: Option<String>,
    pub bic: Option<String>,
    pub bank_transit_number: Option<String>,
}

/// Card coordinates for a card payout.
#[derive(Clone, Debug, PartialEq, Eq)]
pub struct CardPayout {
    pub card_number: Option<String>,
    pub expiry_month: Option<String>,
    pub expiry_year: Option<String>,
}

/// The funding instrument of a payout.
#[derive(Clone, Debug, PartialEq, Eq)]
pub enum PayoutMethodData {
    Bank(BankPayout),
    Card(CardPayout),
}

/// The payout-specific part of a canonical request.
#[derive(Clone, Debug, PartialEq, Eq)]
pub struct PayoutsData {
    pub payout_id: String,
    pub amount: i64,
    pub source_currency: Currency,
    pub destination_currency: Currency,
    pub payout_type: PayoutType,
    pub entity_type: EntityType,
    pub customer_details: Option<CustomerDetails>,
    pub quote_id: Option<String>,
}

/// Everything a payout adapter call sees: the canonical request plus the
/// routing context the router attaches to it.
#[derive(Clone, Debug, PartialEq, Eq)]
pub struct PayoutsRouterData {
    pub request: PayoutsData,
    pub connector_auth_type: ConnectorAuthType,
    pub billing_address: Option<Address>,
    pub connector_customer_id: Option<String>,
    pub payout_method_data: Option<PayoutMethodData>,
}

/// The canonical outcome of one payout adapter call.
#[derive(Clone, Debug, PartialEq, Eq)]
pub struct PayoutsResponseData {
    pub status: Option<PayoutStatus>,
    pub connector_payout_id: String,
    pub payout_eligible: Option<bool>,
}

impl PayoutsRouterData {
    /// The payout method data, owed by the caller before request
    /// construction starts.
    pub fn get_payout_method_data(&self) -> (r: Result<&PayoutMethodData, ConnectorError>)
        ensures
            match r {
                Ok(m) => self.payout_method_data matches Some(pm) && *m == pm,
                Err(e) => {
                    &&& self.payout_method_data is None
                    &&& e matches ConnectorError::MissingRequiredField { field_name }
                        && field_name@ == "payout_method_data"@
                },
            },
    {
        match &self.payout_method_data {
            Some(m) => Ok(m),
            None => Err(
                ConnectorError::MissingRequiredField {
                    field_name: String::from_str("payout_method_data"),
                },
            ),
        }
    }

    /// The connector-side customer identifier, owed by the caller once the
    /// recipient step has run.
    pub fn get_connector_customer_id(&self) -> (r: Result<&String, ConnectorError>)
        ensures
            match r {
                Ok(id) => self.connector_customer_id matches Some(c) && *id == c,
                Err(e) => {
                    &&& self.connector_customer_id is None
                    &&& e matches ConnectorError::MissingRequiredField { field_name }
                        && field_name@ == "connector_customer_id"@
                },
            },
    {
        match &self.connector_customer_id {
            Some(id) => Ok(id),
            None => Err(
                ConnectorError::MissingRequiredField {
                    field_name: String::from_str("connector_customer_id"),
                },
            ),
        }
    }
}

/// Clone an optional string; the copy holds the same characters.
pub fn clone_opt_string(o: &Option<String>) -> (r: Option<String>)
    ensures
        r == *o,
{
    match o {
        Some(s) => Some(s.clone()),
        None => None,
    }
}

} // verus!
