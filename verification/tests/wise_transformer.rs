use connector_core::errors::ConnectorError;
use connector_core::status::PayoutStatus;
use connector_core::types::{
    Address, AddressDetails, BankPayout, ConnectorAuthType, Country, Currency, CustomerDetails,
    EntityType, PayoutMethodData, PayoutType, PayoutsData, PayoutsResponseData, PayoutsRouterData,
};
use connector_core::wise::{
    FundType, LegalType, RecipientType, WiseAuthType, WiseFulfillResponse, WisePayOutOption,
    WisePayoutCreateRequest, WisePayoutCreateResponse, WisePayoutFulfillRequest,
    WisePayoutQuoteRequest, WisePayoutQuoteResponse, WiseRateType, WiseRecipientCreateRequest,
    WiseRecipientCreateResponse, WiseStatus, WiseTransferDetails,
};

fn bank_payout() -> PayoutMethodData {
    PayoutMethodData::Bank(BankPayout {
        bank_account_number: Some("28821822".to_string()),
        bank_sort_code: Some("231470".to_string()),
        bank_routing_number: None,
        iban: None,
        bic: None,
        bank_transit_number: None,
    })
}

fn billing_address() -> Address {
    Address {
        address: Some(AddressDetails {
            country: Some(Country::GB),
            line1: Some("1467 Harrison Street".to_string()),
            zip: Some("94122".to_string()),
            city: Some("London".to_string()),
            state: None,
        }),
    }
}

fn router_data() -> PayoutsRouterData {
    PayoutsRouterData {
        request: PayoutsData {
            payout_id: "payout_123".to_string(),
            amount: 1000,
            source_currency: Currency::GBP,
            destination_currency: Currency::GBP,
            payout_type: PayoutType::Bank,
            entity_type: EntityType::Individual,
            customer_details: Some(CustomerDetails { name: Some("John Doe".to_string()) }),
            quote_id: Some("quote_abc".to_string()),
        },
        connector_auth_type: ConnectorAuthType::BodyKey {
            api_key: "SECRET-REDACTED".to_string(),
            key1: "16938245".to_string(),
        },
        billing_address: Some(billing_address()),
        connector_customer_id: Some("16938245".to_string()),
        payout_method_data: Some(bank_payout()),
    }
}

#[test]
fn auth_accepts_body_key_only() {
    let auth = WiseAuthType::try_from(&ConnectorAuthType::BodyKey {
        api_key: "SECRET-REDACTED".to_string(),
        key1: "16938245".to_string(),
    })
    .expect("body key must be accepted");
    assert_eq!(auth.api_key, "SECRET-REDACTED");
    assert_eq!(auth.profile_id, "16938245");
}

#[test]
fn auth_rejects_other_credential_shapes() {
    for credential in [
        ConnectorAuthType::HeaderKey { api_key: "SECRET-REDACTED".to_string() },
        ConnectorAuthType::SignatureKey {
            api_key: "SECRET-REDACTED".to_string(),
            key1: "k".to_string(),
            api_secret: "SECRET-REDACTED".to_string(),
        },
        ConnectorAuthType::NoKey,
    ] {
        assert_eq!(
            WiseAuthType::try_from(&credential).unwrap_err(),
            ConnectorError::FailedToObtainAuthType
        );
    }
}

#[test]
fn recipient_create_happy_path() {
    let req = WiseRecipientCreateRequest::try_from(&router_data()).expect("must build");
    assert_eq!(req.currency, "GBP");
    assert_eq!(req.recipient_type, RecipientType::SortCode);
    assert_eq!(req.profile, "16938245");
    assert_eq!(req.account_holder_name, "John Doe");
    assert_eq!(req.details.legal_type, LegalType::Private);
    assert_eq!(req.details.account_number, Some("28821822".to_string()));
    assert_eq!(req.details.sort_code, Some("231470".to_string()));
    assert_eq!(req.details.iban, None);
    assert_eq!(req.details.address.country, Some(Country::GB));
    assert_eq!(req.details.address.country_code, Some(Country::GB));
    assert_eq!(req.details.address.first_line, Some("1467 Harrison Street".to_string()));
    assert_eq!(req.details.address.post_code, Some("94122".to_string()));
}

#[test]
fn entity_type_maps_to_legal_classification() {
    assert_eq!(LegalType::foreign_from(EntityType::Individual), LegalType::Private);
    assert_eq!(LegalType::foreign_from(EntityType::Personal), LegalType::Private);
    assert_eq!(LegalType::foreign_from(EntityType::NonProfit), LegalType::Private);
    assert_eq!(LegalType::foreign_from(EntityType::Company), LegalType::Business);
    assert_eq!(LegalType::foreign_from(EntityType::PublicSector), LegalType::Business);
    assert_eq!(LegalType::foreign_from(EntityType::Business), LegalType::Business);
}

#[test]
fn company_entity_reflected_in_bank_details() {
    let mut item = router_data();
    item.request.entity_type = EntityType::Company;
    let req = WiseRecipientCreateRequest::try_from(&item).expect("must build");
    assert_eq!(req.details.legal_type, LegalType::Business);
}

#[test]
fn card_payout_rejected_at_recipient_creation() {
    let mut item = router_data();
    item.request.payout_type = PayoutType::Card;
    match WiseRecipientCreateRequest::try_from(&item).unwrap_err() {
        ConnectorError::NotSupported { message, connector, .. } => {
            assert_eq!(message, "Card payout creation is not supported");
            assert_eq!(connector, "Wise");
        }
        other => panic!("unexpected error: {:?}", other),
    }
}

#[test]
fn card_method_data_rejected_at_recipient_creation() {
    let mut item = router_data();
    item.payout_method_data = Some(PayoutMethodData::Card(connector_core::types::CardPayout {
        card_number: Some("4242424242424242".to_string()),
        expiry_month: Some("10".to_string()),
        expiry_year: Some("25".to_string()),
    }));
    match WiseRecipientCreateRequest::try_from(&item).unwrap_err() {
        ConnectorError::NotSupported { message, .. } => {
            assert_eq!(message, "Card payout creation is not supported");
        }
        other => panic!("unexpected error: {:?}", other),
    }
}

#[test]
fn recipient_create_requires_method_data() {
    let mut item = router_data();
    item.payout_method_data = None;
    assert_eq!(
        WiseRecipientCreateRequest::try_from(&item).unwrap_err(),
        ConnectorError::MissingRequiredField { field_name: "payout_method_data".to_string() }
    );
}

#[test]
fn recipient_create_requires_address() {
    let mut item = router_data();
    item.billing_address = None;
    assert_eq!(
        WiseRecipientCreateRequest::try_from(&item).unwrap_err(),
        ConnectorError::MissingRequiredField { field_name: "address".to_string() }
    );
    let mut item = router_data();
    item.billing_address = Some(Address { address: None });
    assert_eq!(
        WiseRecipientCreateRequest::try_from(&item).unwrap_err(),
        ConnectorError::MissingRequiredField { field_name: "address".to_string() }
    );
}

#[test]
fn recipient_create_requires_profile_credential() {
    let mut item = router_data();
    item.connector_auth_type = ConnectorAuthType::HeaderKey { api_key: "SECRET-REDACTED".to_string() };
    assert_eq!(
        WiseRecipientCreateRequest::try_from(&item).unwrap_err(),
        ConnectorError::MissingRequiredField {
            field_name: "source_id for PayoutRecipient creation".to_string()
        }
    );
}

#[test]
fn recipient_create_requires_customer_name() {
    let mut item = router_data();
    item.request.customer_details = None;
    assert_eq!(
        WiseRecipientCreateRequest::try_from(&item).unwrap_err(),
        ConnectorError::MissingRequiredField {
            field_name: "customer_details for PayoutRecipient creation".to_string()
        }
    );
    let mut item = router_data();
    item.request.customer_details = Some(CustomerDetails { name: None });
    assert_eq!(
        WiseRecipientCreateRequest::try_from(&item).unwrap_err(),
        ConnectorError::MissingRequiredField {
            field_name: "customer_details.name for PayoutRecipient creation".to_string()
        }
    );
}

#[test]
fn quote_request_for_bank_payout() {
    let mut item = router_data();
    item.request.source_currency = Currency::USD;
    item.request.destination_currency = Currency::EUR;
    let req = WisePayoutQuoteRequest::try_from(&item).expect("must build");
    assert_eq!(req.source_currency, "USD");
    assert_eq!(req.target_currency, "EUR");
    assert_eq!(req.source_amount, Some(1000));
    assert_eq!(req.target_amount, None);
    assert_eq!(req.pay_out, WisePayOutOption::BankTransfer);
}

#[test]
fn quote_request_rejects_card_payout() {
    let mut item = router_data();
    item.request.payout_type = PayoutType::Card;
    match WisePayoutQuoteRequest::try_from(&item).unwrap_err() {
        ConnectorError::NotSupported { message, .. } => {
            assert_eq!(message, "Card payout fulfillment is not supported");
        }
        other => panic!("unexpected error: {:?}", other),
    }
}

#[test]
fn transfer_create_happy_path() {
    let req = WisePayoutCreateRequest::try_from(&router_data()).expect("must build");
    assert_eq!(req.target_account, 16938245);
    assert_eq!(req.quote_uuid, "quote_abc");
    assert_eq!(req.customer_transaction_id, "payout_123");
    assert_eq!(req.details.transfer_purpose, None);
    assert_eq!(req.details.source_of_funds, None);
    assert_eq!(req.details.transfer_purpose_sub_transfer_purpose, None);
}

#[test]
fn transfer_create_trims_customer_id() {
    let mut item = router_data();
    item.connector_customer_id = Some("  16938245 \n".to_string());
    let req = WisePayoutCreateRequest::try_from(&item).expect("must build");
    assert_eq!(req.target_account, 16938245);
}

#[test]
fn transfer_create_requires_quote_id() {
    let mut item = router_data();
    item.request.quote_id = None;
    assert_eq!(
        WisePayoutCreateRequest::try_from(&item).unwrap_err(),
        ConnectorError::MissingRequiredField { field_name: "quote_id".to_string() }
    );
}

#[test]
fn transfer_create_requires_connector_customer_id() {
    let mut item = router_data();
    item.connector_customer_id = None;
    assert_eq!(
        WisePayoutCreateRequest::try_from(&item).unwrap_err(),
        ConnectorError::MissingRequiredField { field_name: "connector_customer_id".to_string() }
    );
}

#[test]
fn transfer_create_requires_numeric_customer_id() {
    let mut item = router_data();
    item.connector_customer_id = Some("not-a-number".to_string());
    assert_eq!(
        WisePayoutCreateRequest::try_from(&item).unwrap_err(),
        ConnectorError::MissingRequiredField { field_name: "profile".to_string() }
    );
}

#[test]
fn transfer_create_rejects_card_payout() {
    let mut item = router_data();
    item.request.payout_type = PayoutType::Card;
    match WisePayoutCreateRequest::try_from(&item).unwrap_err() {
        ConnectorError::NotSupported { message, .. } => {
            assert_eq!(message, "Card payout fulfillment is not supported");
        }
        other => panic!("unexpected error: {:?}", other),
    }
}

#[test]
fn fulfill_request_funds_from_balance() {
    let req = WisePayoutFulfillRequest::try_from(&router_data()).expect("must build");
    assert_eq!(req.fund_type, FundType::Balance);
}

#[test]
fn fulfill_request_rejects_card_payout() {
    let mut item = router_data();
    item.request.payout_type = PayoutType::Card;
    assert!(WisePayoutFulfillRequest::try_from(&item).is_err());
}

fn bank_details_block() -> connector_core::wise::WiseBankDetails {
    connector_core::wise::WiseBankDetails {
        legal_type: LegalType::Private,
        address: connector_core::wise::WiseAddressDetails {
            country: Some(Country::GB),
            country_code: Some(Country::GB),
            first_line: None,
            post_code: None,
            city: None,
            state: None,
        },
        post_code: None,
        nationality: None,
        account_holder_name: None,
        email: None,
        account_number: Some("28821822".to_string()),
        city: None,
        sort_code: Some("231470".to_string()),
        iban: None,
        bic: None,
        transit_number: None,
        routing_number: None,
        abartn: None,
        swift_code: None,
        payin_reference: None,
        psp_reference: None,
        tax_id: None,
        order_id: None,
        job: None,
    }
}

#[test]
fn recipient_create_response_to_canonical() {
    let response = WiseRecipientCreateResponse {
        id: 148392,
        business: None,
        profile: Some(16938245),
        account_holder_name: "John Doe".to_string(),
        currency: "GBP".to_string(),
        country: "GB".to_string(),
        request_type: "sort_code".to_string(),
        details: bank_details_block(),
    };
    let r = PayoutsResponseData::from_recipient_create(&response);
    assert_eq!(r.status, Some(PayoutStatus::RequiresCreation));
    assert_eq!(r.connector_payout_id, "148392");
    assert_eq!(r.payout_eligible, None);
}

#[test]
fn quote_response_to_canonical() {
    let response = WisePayoutQuoteResponse {
        client_id: "client_1".to_string(),
        id: "quote_abc".to_string(),
        status: WiseStatus::Pending,
        profile: 16938245,
        rate: 1,
        source_currency: "GBP".to_string(),
        target_currency: "GBP".to_string(),
        user: 77,
        rate_type: WiseRateType::Fixed,
        pay_out: WisePayOutOption::BankTransfer,
    };
    let r = PayoutsResponseData::from_quote(&response);
    assert_eq!(r.status, Some(PayoutStatus::RequiresCreation));
    assert_eq!(r.connector_payout_id, "quote_abc");
    assert_eq!(r.payout_eligible, None);
}

#[test]
fn transfer_create_response_to_canonical() {
    let response = WisePayoutCreateResponse {
        id: 5553222,
        user: 77,
        target_account: 148392,
        source_account: None,
        quote_uuid: "quote_abc".to_string(),
        status: WiseStatus::IncomingPaymentWaiting,
        reference: "ref".to_string(),
        business: None,
        details: WiseTransferDetails {
            transfer_purpose: None,
            source_of_funds: None,
            transfer_purpose_sub_transfer_purpose: None,
        },
        has_active_issues: false,
        source_currency: "GBP".to_string(),
        target_currency: "GBP".to_string(),
        customer_transaction_id: "payout_123".to_string(),
    };
    let r = PayoutsResponseData::from_transfer_create(&response);
    assert_eq!(r.status, Some(PayoutStatus::RequiresFulfillment));
    assert_eq!(r.connector_payout_id, "5553222");
}

#[test]
fn fulfill_response_maps_reported_status() {
    let response = WiseFulfillResponse {
        status: WiseStatus::Completed,
        error_code: None,
        error_message: None,
        balance_transaction_id: Some(99),
    };
    let r = PayoutsResponseData::from_fulfill(&response);
    assert_eq!(r.status, Some(PayoutStatus::Success));
    assert_eq!(r.connector_payout_id, "");

    let rejected = WiseFulfillResponse {
        status: WiseStatus::Rejected,
        error_code: Some("balance.insufficient".to_string()),
        error_message: Some("not enough balance".to_string()),
        balance_transaction_id: None,
    };
    assert_eq!(PayoutsResponseData::from_fulfill(&rejected).status, Some(PayoutStatus::Failed));
}
