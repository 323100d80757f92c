//! The Wise connector's payout transformer: one instance of the adapter
//! pattern. Credential materialization, outbound request construction for
//! the recipient/quote/transfer/fulfill steps, inbound response translation,
//! and the connector's explicit status table.

use vstd::prelude::*;
use crate::errors::{ConnectorError, ErrorClass, spec_class_of};
use crate::numeric::{i64_to_string, parse_i64, spec_int_dec, spec_parse_i64};
use crate::status::{PayoutStatus, spec_payout_terminal};
use crate::types::{
    Address,
    BankPayout,
    ConnectorAuthType,
    Country,
    EntityType,
    PayoutMethodData,
    PayoutType,
    PayoutsResponseData,
    PayoutsRouterData,
    clone_opt_string,
    spec_currency_code,
};

verus! {

/// Authentication material for Wise: an API key plus a profile identifier,
/// accepted only from a body-key credential.
#[derive(Clone, Debug, PartialEq, Eq)]
pub struct WiseAuthType {
    pub api_key: String,
    pub profile_id: String,
}

impl WiseAuthType {
    /// Materialize the connector's auth context. Only the body-key credential
    /// shape is accepted; any other shape is a construction-time failure.
    pub fn try_from(auth_type: &ConnectorAuthType) -> (r: Result<WiseAuthType, ConnectorError>)
        ensures
            match r {
                Ok(a) => auth_type matches ConnectorAuthType::BodyKey { api_key, key1 }
                    && a.api_key@ == api_key@ && a.profile_id@ == key1@,
                Err(e) => !(auth_type is BodyKey) && e is FailedToObtainAuthType,
            },
    {
        match auth_type {
            ConnectorAuthType::BodyKey { api_key, key1 } => Ok(
                WiseAuthType { api_key: api_key.clone(), profile_id: key1.clone() },
            ),
            _ => Err(ConnectorError::FailedToObtainAuthType),
        }
    }
}

/// The recipient account kinds Wise distinguishes.
#[derive(Clone, Copy, Debug, PartialEq, Eq, Structural)]
pub enum RecipientType {
    Iban,
    SortCode,
    SwiftCode,
}

/// The legal classification Wise expects for a counterparty.
#[derive(Clone, Copy, Debug, PartialEq, Eq, Structural)]
pub enum LegalType {
    Business,
    Private,
}

/// The canonical entity types that count as private persons for Wise.
pub open spec fn spec_legal_type_of(entity_type: EntityType) -> LegalType {
    match entity_type {
        EntityType::Individual | EntityType::Personal | EntityType::NonProfit => LegalType::Private,
        EntityType::Company | EntityType::PublicSector | EntityType::Business => LegalType::Business,
    }
}

impl LegalType {
    /// Total, pure mapping from the canonical entity type.
    pub fn foreign_from(entity_type: EntityType) -> (r: LegalType)
        ensures
            r == spec_legal_type_of(entity_type),
    {
        match entity_type {
            EntityType::Individual | EntityType::Personal | EntityType::NonProfit => {
                LegalType::Private
            },
            EntityType::Company | EntityType::PublicSector | EntityType::Business => {
                LegalType::Business
            },
        }
    }
}

/// Wise's address block.
#[derive(Clone, Debug, PartialEq, Eq)]
pub struct WiseAddressDetails {
    pub country: Option<Country>,
    pub country_code: Option<Country>,
    pub first_line: Option<String>,
    pub post_code: Option<String>,
    pub city: Option<String>,
    pub state: Option<String>,
}

/// Wise's bank-detail block; which fields are set depends on the rail.
#[derive(Clone, Debug, PartialEq, Eq)]
pub struct WiseBankDetails {
    pub legal_type: LegalType,
    pub address: WiseAddressDetails,
    pub post_code: Option<String>,
    pub nationality: Option<String>,
    pub account_holder_name: Option<String>,
    pub email: Option<String>,
    pub account_number: Option<String>,
    pub city: Option<String>,
    pub sort_code: Option<String>,
    pub iban: Option<String>,
    pub bic: Option<String>,
    pub transit_number: Option<String>,
    pub routing_number: Option<String>,
    pub abartn: Option<String>,
    pub swift_code: Option<String>,
    pub payin_reference: Option<String>,
    pub psp_reference: Option<String>,
    pub tax_id: Option<String>,
    pub order_id: Option<String>,
    pub job: Option<String>,
}

/// The outbound recipient-creation request.
#[derive(Clone, Debug, PartialEq, Eq)]
pub struct WiseRecipientCreateRequest {
    pub currency: String,
    pub recipient_type: RecipientType,
    pub profile: String,
    pub account_holder_name: String,
    pub details: WiseBankDetails,
}

/// The recipient-creation response. Wise reports the recipient under a
/// numeric identifier.
#[derive(Clone, Debug, PartialEq, Eq)]
pub struct WiseRecipientCreateResponse {
    pub id: i64,
    pub business: Option<i64>,
    pub profile: Option<i64>,
    pub account_holder_name: String,
    pub currency: String,
    pub country: String,
    pub request_type: String,
    pub details: WiseBankDetails,
}

/// The outbound quote request.
#[derive(Clone, Debug, PartialEq, Eq)]
pub struct WisePayoutQuoteRequest {
    pub source_currency: String,
    pub target_currency: String,
    pub source_amount: Option<i64>,
    pub target_amount: Option<i64>,
    pub pay_out: WisePayOutOption,
}

/// How Wise pays the transfer out.
#[derive(Clone, Copy, Debug, PartialEq, Eq, Structural)]
pub enum WisePayOutOption {
    Balance,
    BankTransfer,
    Swift,
    SwiftOur,
    Interac,
}

impl Default for WisePayOutOption {
    /// A plain bank transfer unless a caller asks otherwise.
    fn default() -> (d: Self)
        ensures
            d is BankTransfer,
    {
        WisePayOutOption::BankTransfer
    }
}

/// The quote response. The quoted monetary amounts and the exchange rate are
/// serialization-layer concerns and are not read by this engine.
#[derive(Clone, Debug, PartialEq, Eq)]
pub struct WisePayoutQuoteResponse {
    pub client_id: String,
    pub id: String,
    pub status: WiseStatus,
    pub profile: i64,
    pub rate: i8,
    pub source_currency: String,
    pub target_currency: String,
    pub user: i64,
    pub rate_type: WiseRateType,
    pub pay_out: WisePayOutOption,
}

/// Whether a quoted rate is fixed or floating.
#[derive(Clone, Copy, Debug, PartialEq, Eq, Structural)]
pub enum WiseRateType {
    Fixed,
    Floating,
}

impl Default for WiseRateType {
    /// Wise quotes a fixed rate unless stated otherwise.
    fn default() -> (d: Self)
        ensures
            d is Fixed,
    {
        WiseRateType::Fixed
    }
}

/// The outbound transfer-creation request.
#[derive(Clone, Debug, PartialEq, Eq)]
pub struct WisePayoutCreateRequest {
    pub target_account: i64,
    pub quote_uuid: String,
    pub customer_transaction_id: String,
    pub details: WiseTransferDetails,
}

/// Free-text details a transfer may carry.
#[derive(Clone, Debug, PartialEq, Eq)]
pub struct WiseTransferDetails {
    pub transfer_purpose: Option<String>,
    pub source_of_funds: Option<String>,
    pub transfer_purpose_sub_transfer_purpose: Option<String>,
}

/// The transfer-creation response. The quoted values and the exchange rate
/// are serialization-layer concerns and are not read by this engine.
#[derive(Clone, Debug, PartialEq, Eq)]
pub struct WisePayoutCreateResponse {
    pub id: i64,
    pub user: i64,
    pub target_account: i64,
    pub source_account: Option<i64>,
    pub quote_uuid: String,
    pub status: WiseStatus,
    pub reference: String,
    pub business: Option<i64>,
    pub details: WiseTransferDetails,
    pub has_active_issues: bool,
    pub source_currency: String,
    pub target_currency: String,
    pub customer_transaction_id: String,
}

/// The outbound fulfillment request.
#[derive(Clone, Debug, PartialEq, Eq)]
pub struct WisePayoutFulfillRequest {
    pub fund_type: FundType,
}

/// How a transfer is funded; Wise only allows funding from balance.
#[derive(Clone, Copy, Debug, PartialEq, Eq, Structural)]
pub enum FundType {
    Balance,
}

impl Default for FundType {
    /// Funding from balance is the only option Wise offers.
    fn default() -> (d: Self)
        ensures
            d is Balance,
    {
        FundType::Balance
    }
}

/// The fulfillment response.
#[derive(Clone, Debug, PartialEq, Eq)]
pub struct WiseFulfillResponse {
    pub status: WiseStatus,
    pub error_code: Option<String>,
    pub error_message: Option<String>,
    pub balance_transaction_id: Option<i64>,
}

/// Wise's own status vocabulary for a transfer.
#[derive(Clone, Copy, Debug, PartialEq, Eq, Structural)]
pub enum WiseStatus {
    Completed,
    Pending,
    Rejected,
    Processing,
    IncomingPaymentWaiting,
}

/// The explicit, total status table of the Wise connector: each reported
/// status maps to exactly one canonical payout status, and an intermediate
/// report maps to `Pending`, never to a terminal state.
pub open spec fn spec_payout_status_of(w: WiseStatus) -> PayoutStatus {
    match w {
        WiseStatus::Completed => PayoutStatus::Success,
        WiseStatus::Rejected => PayoutStatus::Failed,
        WiseStatus::Pending | WiseStatus::Processing | WiseStatus::IncomingPaymentWaiting => {
            PayoutStatus::Pending
        },
    }
}

impl PayoutStatus {
    /// Map Wise's reported status onto the canonical payout status, by the
    /// connector's explicit table.
    pub fn foreign_from(wise_status: WiseStatus) -> (r: PayoutStatus)
        ensures
            r == spec_payout_status_of(wise_status),
    {
        match wise_status {
            WiseStatus::Completed => PayoutStatus::Success,
            WiseStatus::Rejected => PayoutStatus::Failed,
            WiseStatus::Pending | WiseStatus::Processing | WiseStatus::IncomingPaymentWaiting => {
                PayoutStatus::Pending
            },
        }
    }
}

/// Law: the status table is total, with every variant accounted for: the
/// connector's completed report and only it maps to `Success`, its rejected
/// report and only it maps to `Failed`, and every intermediate report maps
/// to `Pending`.
pub proof fn lemma_status_mapping_total(w: WiseStatus)
    ensures
        spec_payout_status_of(w) == PayoutStatus::Success <==> w is Completed,
        spec_payout_status_of(w) == PayoutStatus::Failed <==> w is Rejected,
        spec_payout_status_of(w) == PayoutStatus::Pending <==> (w is Pending || w is Processing
            || w is IncomingPaymentWaiting),
{
}

/// Law: the mapping never claims a terminal canonical status before the
/// connector's own authoritative confirmation.
pub proof fn lemma_status_mapping_never_premature(w: WiseStatus)
    ensures
        spec_payout_terminal(spec_payout_status_of(w)) <==> (w is Completed || w is Rejected),
{
}

/// Law: the mapping is deterministic: the canonical status is a function of
/// the reported status alone, so any two mapping results for the same report
/// are equal.
pub proof fn lemma_status_mapping_deterministic(
    w: WiseStatus,
    r1: PayoutStatus,
    r2: PayoutStatus,
)
    requires
        r1 == spec_payout_status_of(w),
        r2 == spec_payout_status_of(w),
    ensures
        r1 == r2,
{
}

/// The Wise address block built from a canonical billing address; absent
/// whenever the billing block or its address part is absent.
pub open spec fn spec_payout_address_details(address: Option<Address>) -> Option<
    WiseAddressDetails,
> {
    match address {
        Some(add) => match add.address {
            Some(a) => Some(
                WiseAddressDetails {
                    country: a.country,
                    country_code: a.country,
                    first_line: a.line1,
                    post_code: a.zip,
                    city: a.city,
                    state: a.state,
                },
            ),
            None => None,
        },
        None => None,
    }
}

/// Build Wise's address block from the canonical billing address.
pub fn get_payout_address_details(address: &Option<Address>) -> (r: Option<WiseAddressDetails>)
    ensures
        r == spec_payout_address_details(*address),
{
    match address {
        Some(add) => match &add.address {
            Some(a) => Some(
                WiseAddressDetails {
                    country: a.country,
                    country_code: a.country,
                    first_line: clone_opt_string(&a.line1),
                    post_code: clone_opt_string(&a.zip),
                    city: clone_opt_string(&a.city),
                    state: clone_opt_string(&a.state),
                },
            ),
            None => None,
        },
        None => None,
    }
}

/// A missing-field failure naming one canonical field.
pub open spec fn spec_missing_field<T>(r: Result<T, ConnectorError>, name: Seq<char>) -> bool {
    r matches Err(ConnectorError::MissingRequiredField { field_name }) && field_name@ == name
}

/// The unsupported-capability failure Wise raises for card payouts.
pub open spec fn spec_wise_card_error(e: ConnectorError, msg: Seq<char>) -> bool {
    e matches ConnectorError::NotSupported { message, connector, payment_experience } && {
        &&& message@ == msg
        &&& connector@ == "Wise"@
        &&& payment_experience@ == ""@
    }
}

/// Build the unsupported-capability failure for card payouts.
fn card_not_supported_error(message: &str) -> (e: ConnectorError)
    ensures
        spec_wise_card_error(e, message@),
{
    ConnectorError::NotSupported {
        message: message.to_owned(),
        connector: String::from_str("Wise"),
        payment_experience: String::from_str(""),
    }
}

/// The bank-detail block Wise receives for a bank payout: the counterparty's
/// legal classification, the address block, and the rail coordinates the
/// canonical request carries; everything else stays unset.
pub open spec fn spec_bank_details(
    b: BankPayout,
    wa: WiseAddressDetails,
    entity_type: EntityType,
) -> WiseBankDetails {
    WiseBankDetails {
        legal_type: spec_legal_type_of(entity_type),
        address: wa,
        post_code: None,
        nationality: None,
        account_holder_name: None,
        email: None,
        account_number: b.bank_account_number,
        city: None,
        sort_code: b.bank_sort_code,
        iban: b.iban,
        bic: b.bic,
        transit_number: b.bank_transit_number,
        routing_number: b.bank_routing_number,
        abartn: None,
        swift_code: None,
        payin_reference: None,
        psp_reference: None,
        tax_id: None,
        order_id: None,
        job: None,
    }
}

/// Build Wise's bank-detail block. The billing address is required; a card
/// funding instrument is a static capability failure, raised before any
/// request is constructed.
pub fn get_payout_bank_details(
    payout_method_data: &PayoutMethodData,
    address: &Option<Address>,
    entity_type: EntityType,
) -> (r: Result<WiseBankDetails, ConnectorError>)
    ensures
        spec_payout_address_details(*address) is None ==> spec_missing_field(r, "address"@),
        spec_payout_address_details(*address) matches Some(wa) ==> match *payout_method_data {
            PayoutMethodData::Bank(b) => r matches Ok(d) && d == spec_bank_details(
                b,
                wa,
                entity_type,
            ),
            PayoutMethodData::Card(_) => r matches Err(e) && spec_wise_card_error(
                e,
                "Card payout creation is not supported"@,
            ),
        },
{
    let wise_address_details = match get_payout_address_details(address) {
        Some(a) => a,
        None => {
            return Err(
                ConnectorError::MissingRequiredField { field_name: String::from_str("address") },
            );
        },
    };
    match payout_method_data {
        PayoutMethodData::Bank(b) => Ok(
            WiseBankDetails {
                legal_type: LegalType::foreign_from(entity_type),
                address: wise_address_details,
                post_code: None,
                nationality: None,
                account_holder_name: None,
                email: None,
                account_number: clone_opt_string(&b.bank_account_number),
                city: None,
                sort_code: clone_opt_string(&b.bank_sort_code),
                iban: clone_opt_string(&b.iban),
                bic: clone_opt_string(&b.bic),
                transit_number: clone_opt_string(&b.bank_transit_number),
                routing_number: clone_opt_string(&b.bank_routing_number),
                abartn: None,
                swift_code: None,
                payin_reference: None,
                psp_reference: None,
                tax_id: None,
                order_id: None,
                job: None,
            },
        ),
        PayoutMethodData::Card(_) => Err(
            card_not_supported_error("Card payout creation is not supported"),
        ),
    }
}

/// What recipient creation yields for each canonical request, in the order
/// the preconditions are checked: the funding instrument must be present,
/// then the billing address, then the instrument must be a bank account,
/// then the credential must carry a profile, then the payout type must be
/// bank, then the customer and a display name must be present; only then is
/// the request constructed.
pub open spec fn spec_recipient_create_result(
    item: PayoutsRouterData,
    r: Result<WiseRecipientCreateRequest, ConnectorError>,
) -> bool {
    match item.payout_method_data {
        None => spec_missing_field(r, "payout_method_data"@),
        Some(mdata) => match spec_payout_address_details(item.billing_address) {
            None => spec_missing_field(r, "address"@),
            Some(wa) => match mdata {
                PayoutMethodData::Card(_) => r matches Err(e) && spec_wise_card_error(
                    e,
                    "Card payout creation is not supported"@,
                ),
                PayoutMethodData::Bank(b) => match item.connector_auth_type {
                    ConnectorAuthType::BodyKey { api_key, key1 } => match item
                        .request
                        .payout_type {
                        PayoutType::Card => r matches Err(e) && spec_wise_card_error(
                            e,
                            "Card payout creation is not supported"@,
                        ),
                        PayoutType::Bank => match item.request.customer_details {
                            None => spec_missing_field(
                                r,
                                "customer_details for PayoutRecipient creation"@,
                            ),
                            Some(cd) => match cd.name {
                                None => spec_missing_field(
                                    r,
                                    "customer_details.name for PayoutRecipient creation"@,
                                ),
                                Some(name) => r matches Ok(req) && {
                                    &&& req.profile@ == key1@
                                    &&& req.currency@ == spec_currency_code(
                                        item.request.destination_currency,
                                    )
                                    &&& req.recipient_type is SortCode
                                    &&& req.account_holder_name@ == name@
                                    &&& req.details == spec_bank_details(
                                        b,
                                        wa,
                                        item.request.entity_type,
                                    )
                                },
                            },
                        },
                    },
                    _ => spec_missing_field(r, "source_id for PayoutRecipient creation"@),
                },
            },
        },
    }
}

impl WiseRecipientCreateRequest {
    /// Build the recipient-creation request from a canonical payout request.
    ///
    /// The recipient type is provisionally fixed to sort-code accounts; the
    /// mapping from the supplied bank-detail shape (IBAN, SWIFT, sort code)
    /// is an open requirement of the connector contract.
    pub fn try_from(item: &PayoutsRouterData) -> (r: Result<
        WiseRecipientCreateRequest,
        ConnectorError,
    >)
        ensures
            spec_recipient_create_result(*item, r),
    {
        let payout_method_data = match item.get_payout_method_data() {
            Ok(m) => m,
            Err(e) => {
                return Err(e);
            },
        };
        let bank_details = match get_payout_bank_details(
            payout_method_data,
            &item.billing_address,
            item.request.entity_type,
        ) {
            Ok(d) => d,
            Err(e) => {
                return Err(e);
            },
        };
        let source_id: String = match &item.connector_auth_type {
            ConnectorAuthType::BodyKey { api_key: _, key1 } => key1.clone(),
            _ => {
                return Err(
                    ConnectorError::MissingRequiredField {
                        field_name: String::from_str("source_id for PayoutRecipient creation"),
                    },
                );
            },
        };
        match item.request.payout_type {
            PayoutType::Card => Err(
                card_not_supported_error("Card payout creation is not supported"),
            ),
            PayoutType::Bank => {
                let customer_details = match &item.request.customer_details {
                    Some(c) => c,
                    None => {
                        return Err(
                            ConnectorError::MissingRequiredField {
                                field_name: String::from_str(
                                    "customer_details for PayoutRecipient creation",
                                ),
                            },
                        );
                    },
                };
                let account_holder_name = match &customer_details.name {
                    Some(n) => n.clone(),
                    None => {
                        return Err(
                            ConnectorError::MissingRequiredField {
                                field_name: String::from_str(
                                    "customer_details.name for PayoutRecipient creation",
                                ),
                            },
                        );
                    },
                };
                Ok(
                    WiseRecipientCreateRequest {
                        currency: item.request.destination_currency.code().to_owned(),
                        recipient_type: RecipientType::SortCode,
                        profile: source_id,
                        account_holder_name,
                        details: bank_details,
                    },
                )
            },
        }
    }
}

/// Law: a card payout is refused at recipient creation with an
/// unsupported-capability failure, before any request is constructed, on
/// every canonical request whose funding instrument, billing address and
/// credential are otherwise in order.
pub proof fn lemma_card_payout_rejected_at_recipient_creation(
    item: PayoutsRouterData,
    r: Result<WiseRecipientCreateRequest, ConnectorError>,
)
    requires
        spec_recipient_create_result(item, r),
        item.request.payout_type is Card,
        item.payout_method_data is Some,
        spec_payout_address_details(item.billing_address) is Some,
        item.connector_auth_type is BodyKey,
    ensures
        r matches Err(e) && spec_class_of(e) == ErrorClass::UnsupportedCapabilityError,
{
}

/// What the quote step sends: for a bank payout the source amount and both
/// currency codes as a bank-transfer quote; a card payout is a static
/// capability failure.
pub open spec fn spec_quote_request_result(
    item: PayoutsRouterData,
    r: Result<WisePayoutQuoteRequest, ConnectorError>,
) -> bool {
    match item.request.payout_type {
        PayoutType::Bank => r matches Ok(q) && {
            &&& q.source_amount == Some(item.request.amount)
            &&& q.source_currency@ == spec_currency_code(item.request.source_currency)
            &&& q.target_amount is None
            &&& q.target_currency@ == spec_currency_code(item.request.destination_currency)
            &&& q.pay_out is BankTransfer
        },
        PayoutType::Card => r matches Err(e) && spec_wise_card_error(
            e,
            "Card payout fulfillment is not supported"@,
        ),
    }
}

impl WisePayoutQuoteRequest {
    /// Build the quote request from a canonical payout request.
    pub fn try_from(item: &PayoutsRouterData) -> (r: Result<
        WisePayoutQuoteRequest,
        ConnectorError,
    >)
        ensures
            spec_quote_request_result(*item, r),
    {
        match item.request.payout_type {
            PayoutType::Bank => Ok(
                WisePayoutQuoteRequest {
                    source_currency: item.request.source_currency.code().to_owned(),
                    target_currency: item.request.destination_currency.code().to_owned(),
                    source_amount: Some(item.request.amount),
                    target_amount: None,
                    pay_out: WisePayOutOption::default(),
                },
            ),
            PayoutType::Card => Err(
                card_not_supported_error("Card payout fulfillment is not supported"),
            ),
        }
    }
}

/// What transfer creation yields: a card payout is a static capability
/// failure; a bank payout requires the connector-side customer id from the
/// recipient step, then a quote id from the quote step, and the customer id
/// must parse as Wise's numeric account identifier.
pub open spec fn spec_transfer_create_result(
    item: PayoutsRouterData,
    r: Result<WisePayoutCreateRequest, ConnectorError>,
) -> bool {
    match item.request.payout_type {
        PayoutType::Card => r matches Err(e) && spec_wise_card_error(
            e,
            "Card payout fulfillment is not supported"@,
        ),
        PayoutType::Bank => match item.connector_customer_id {
            None => spec_missing_field(r, "connector_customer_id"@),
            Some(cid) => match item.request.quote_id {
                None => spec_missing_field(r, "quote_id"@),
                Some(q) => match spec_parse_i64(cid@) {
                    None => spec_missing_field(r, "profile"@),
                    Some(target) => r matches Ok(req) && {
                        &&& req.target_account == target
                        &&& req.quote_uuid@ == q@
                        &&& req.customer_transaction_id@ == item.request.payout_id@
                        &&& req.details.transfer_purpose is None
                        &&& req.details.source_of_funds is None
                        &&& req.details.transfer_purpose_sub_transfer_purpose is None
                    },
                },
            },
        },
    }
}

impl WisePayoutCreateRequest {
    /// Build the transfer-creation request from a canonical payout request.
    pub fn try_from(item: &PayoutsRouterData) -> (r: Result<
        WisePayoutCreateRequest,
        ConnectorError,
    >)
        ensures
            spec_transfer_create_result(*item, r),
    {
        match item.request.payout_type {
            PayoutType::Bank => {
                let connector_customer_id = match item.get_connector_customer_id() {
                    Ok(id) => id,
                    Err(e) => {
                        return Err(e);
                    },
                };
                let quote_uuid = match &item.request.quote_id {
                    Some(q) => q.clone(),
                    None => {
                        return Err(
                            ConnectorError::MissingRequiredField {
                                field_name: String::from_str("quote_id"),
                            },
                        );
                    },
                };
                let target_account: i64 = match parse_i64(connector_customer_id.as_str()) {
                    Some(t) => t,
                    None => {
                        return Err(
                            ConnectorError::MissingRequiredField {
                                field_name: String::from_str("profile"),
                            },
                        );
                    },
                };
                Ok(
                    WisePayoutCreateRequest {
                        target_account,
                        quote_uuid,
                        customer_transaction_id: item.request.payout_id.clone(),
                        details: WiseTransferDetails {
                            transfer_purpose: None,
                            source_of_funds: None,
                            transfer_purpose_sub_transfer_purpose: None,
                        },
                    },
                )
            },
            PayoutType::Card => Err(
                card_not_supported_error("Card payout fulfillment is not supported"),
            ),
        }
    }
}

/// What fulfillment sends: funding from balance for a bank payout; a card
/// payout is a static capability failure.
pub open spec fn spec_fulfill_request_result(
    item: PayoutsRouterData,
    r: Result<WisePayoutFulfillRequest, ConnectorError>,
) -> bool {
    match item.request.payout_type {
        PayoutType::Bank => r matches Ok(f) && f.fund_type is Balance,
        PayoutType::Card => r matches Err(e) && spec_wise_card_error(
            e,
            "Card payout fulfillment is not supported"@,
        ),
    }
}

impl WisePayoutFulfillRequest {
    /// Build the fulfillment request from a canonical payout request.
    pub fn try_from(item: &PayoutsRouterData) -> (r: Result<
        WisePayoutFulfillRequest,
        ConnectorError,
    >)
        ensures
            spec_fulfill_request_result(*item, r),
    {
        match item.request.payout_type {
            PayoutType::Bank => Ok(WisePayoutFulfillRequest { fund_type: FundType::default() }),
            PayoutType::Card => Err(
                card_not_supported_error("Card payout fulfillment is not supported"),
            ),
        }
    }
}

impl PayoutsResponseData {
    /// Canonical outcome of the recipient-creation call: the flow still
    /// requires creation of the transfer, under the recipient's identifier.
    pub fn from_recipient_create(response: &WiseRecipientCreateResponse) -> (r:
        PayoutsResponseData)
        ensures
            r.status == Some(PayoutStatus::RequiresCreation),
            r.connector_payout_id@ == spec_int_dec(response.id as int),
            r.payout_eligible is None,
    {
        PayoutsResponseData {
            status: Some(PayoutStatus::RequiresCreation),
            connector_payout_id: i64_to_string(response.id),
            payout_eligible: None,
        }
    }

    /// Canonical outcome of the quote call: the flow still requires creation
    /// of the transfer, under the quote's identifier.
    pub fn from_quote(response: &WisePayoutQuoteResponse) -> (r: PayoutsResponseData)
        ensures
            r.status == Some(PayoutStatus::RequiresCreation),
            r.connector_payout_id@ == response.id@,
            r.payout_eligible is None,
    {
        PayoutsResponseData {
            status: Some(PayoutStatus::RequiresCreation),
            connector_payout_id: response.id.clone(),
            payout_eligible: None,
        }
    }

    /// Canonical outcome of the transfer-creation call: the flow now requires
    /// fulfillment, under the transfer's identifier.
    pub fn from_transfer_create(response: &WisePayoutCreateResponse) -> (r: PayoutsResponseData)
        ensures
            r.status == Some(PayoutStatus::RequiresFulfillment),
            r.connector_payout_id@ == spec_int_dec(response.id as int),
            r.payout_eligible is None,
    {
        PayoutsResponseData {
            status: Some(PayoutStatus::RequiresFulfillment),
            connector_payout_id: i64_to_string(response.id),
            payout_eligible: None,
        }
    }

    /// Canonical outcome of the fulfillment call: the connector's reported
    /// status, mapped through the explicit table.
    pub fn from_fulfill(response: &WiseFulfillResponse) -> (r: PayoutsResponseData)
        ensures
            r.status == Some(spec_payout_status_of(response.status)),
            r.connector_payout_id@ == ""@,
            r.payout_eligible is None,
    {
        PayoutsResponseData {
            status: Some(PayoutStatus::foreign_from(response.status)),
            connector_payout_id: String::from_str(""),
            payout_eligible: None,
        }
    }
}

} // verus!
