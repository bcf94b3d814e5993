use chrono::{DateTime, Utc};
use jarvis_tibber_price_exporter::error::{ErrorKind, RunError};
use jarvis_tibber_price_exporter::settings::Environment;
use jarvis_tibber_price_exporter::tibber_client::{
    classify_status, TibberClient, TibberClientConfig, ACCESS_TOKEN_VARIABLE, ENDPOINT, PRICE_QUERY,
};
use jarvis_tibber_price_exporter::time::Timestamp;
use jarvis_tibber_price_exporter::types::{
    Price, SpotPriceData, SpotPriceHome, SpotPriceInfo, SpotPricePrice, SpotPriceResponse,
    SpotPriceSubscription, SpotPriceViewer,
};

fn quotation(starts_at: Timestamp, energy: f64, tax: f64) -> SpotPricePrice {
    SpotPricePrice {
        energy: Price::from_bits(energy.to_bits()),
        tax: Price::from_bits(tax.to_bits()),
        currency: "EUR".to_string(),
        starts_at,
    }
}

fn home(today: Vec<SpotPricePrice>, tomorrow: Vec<SpotPricePrice>) -> SpotPriceHome {
    SpotPriceHome {
        current_subscription: SpotPriceSubscription { price_info: SpotPriceInfo { today, tomorrow } },
    }
}

fn response(homes: Vec<SpotPriceHome>) -> SpotPriceResponse {
    SpotPriceResponse { data: SpotPriceData { viewer: SpotPriceViewer { homes } } }
}

fn hours(from: i64, count: i64) -> Vec<SpotPricePrice> {
    (0..count).map(|h| quotation(Timestamp::new(from + h * 3600, 0), 0.1 * h as f64, 0.02)).collect()
}

/// Reads a response of the price source from its JSON text.
fn parse(text: &str) -> SpotPriceResponse {
    let value: serde_json::Value = serde_json::from_str(text).expect("JSON");
    let homes = value["data"]["viewer"]["homes"].as_array().expect("homes");
    let list = |v: &serde_json::Value| -> Vec<SpotPricePrice> {
        v.as_array()
            .expect("a list of quotations")
            .iter()
            .map(|q| {
                let starts_at: DateTime<Utc> = DateTime::parse_from_rfc3339(
                    q["startsAt"].as_str().expect("startsAt"),
                )
                .expect("a timestamp")
                .with_timezone(&Utc);
                SpotPricePrice {
                    energy: Price::from_bits(q["energy"].as_f64().expect("energy").to_bits()),
                    tax: Price::from_bits(q["tax"].as_f64().expect("tax").to_bits()),
                    currency: q["currency"].as_str().expect("currency").to_string(),
                    starts_at: Timestamp::new(starts_at.timestamp(), starts_at.timestamp_subsec_nanos()),
                }
            })
            .collect()
    };
    response(
        homes
            .iter()
            .map(|h| {
                let info = &h["currentSubscription"]["priceInfo"];
                home(list(&info["today"]), list(&info["tomorrow"]))
            })
            .collect(),
    )
}

#[test]
fn deserialize_spot_price_response() {
    let mut today = String::new();
    for h in 0..24 {
        if h > 0 {
            today.push(',');
        }
        today.push_str(&format!(
            "{{\"energy\":0.{:02},\"tax\":0.05,\"currency\":\"EUR\",\"startsAt\":\"2023-03-25T{:02}:00:00.000+01:00\"}}",
            h + 10,
            h
        ));
    }
    let text = format!(
        "{{\"data\":{{\"viewer\":{{\"homes\":[{{\"currentSubscription\":{{\"priceInfo\":{{\"today\":[{}],\"tomorrow\":[]}}}}}}]}}}}}}",
        today
    );
    let spot_price_response = parse(&text);

    assert_eq!(
        spot_price_response.data.viewer.homes[0].current_subscription.price_info.today.len(),
        24
    );
    assert_eq!(
        spot_price_response.data.viewer.homes[0].current_subscription.price_info.tomorrow.len(),
        0
    );

    let records = TibberClient::spot_prices(&spot_price_response).expect("records");
    assert_eq!(records.len(), 24);
    // 2023-03-25T00:00:00+01:00 is 2023-03-24T23:00:00Z
    assert_eq!(records[0].from, Timestamp::new(1_679_698_800, 0));
    assert_eq!(records[0].till, Timestamp::new(1_679_702_400, 0));
    assert_eq!(records[23].from, Timestamp::new(1_679_698_800 + 23 * 3600, 0));
    assert_eq!(f64::from_bits(records[3].market_price.to_bits()), 0.13);
    assert_eq!(f64::from_bits(records[3].market_price_tax.to_bits()), 0.05);
}

#[test]
fn records_are_those_of_today_then_those_of_tomorrow() {
    let today = hours(1_000_000, 24);
    let tomorrow = hours(1_000_000 + 86_400, 24);
    let r = response(vec![home(today, tomorrow), home(hours(0, 3), vec![])]);
    let records = TibberClient::spot_prices(&r).expect("records");
    assert_eq!(records.len(), 48);
    for (i, record) in records.iter().enumerate() {
        assert_eq!(record.id, None);
        assert_eq!(record.source, None);
        assert_eq!(record.from, Timestamp::new(1_000_000 + 3600 * i as i64, 0));
        assert_eq!(record.till, Timestamp::new(1_000_000 + 3600 * (i as i64 + 1), 0));
        assert_eq!(f64::from_bits(record.market_price.to_bits()), 0.1 * (i % 24) as f64);
        assert_eq!(f64::from_bits(record.market_price_tax.to_bits()), 0.02);
        assert_eq!(f64::from_bits(record.sourcing_markup_price.to_bits()), 0.0);
        assert_eq!(f64::from_bits(record.energy_tax_price.to_bits()), 0.0);
    }
}

#[test]
fn as_many_records_as_quotations() {
    for (a, b) in [(0, 0), (24, 0), (0, 24), (23, 25), (1, 1)] {
        let r = response(vec![home(hours(0, a), hours(86_400, b))]);
        assert_eq!(TibberClient::spot_prices(&r).expect("records").len() as i64, a + b);
    }
}

#[test]
fn a_response_without_a_home_is_a_fatal_failure() {
    let e = TibberClient::spot_prices(&response(vec![])).unwrap_err();
    assert_eq!(e.kind, ErrorKind::Fatal);
    assert_eq!(
        e.message,
        "the response holds no home, or a price window that ends beyond the last instant"
    );
}

#[test]
fn a_window_beyond_the_last_instant_is_a_fatal_failure() {
    let late = quotation(Timestamp::new(i64::MAX - 10, 0), 1.0, 0.1);
    let r = response(vec![home(hours(0, 2), vec![late])]);
    assert_eq!(TibberClient::spot_prices(&r).unwrap_err().kind, ErrorKind::Fatal);
    let late = quotation(Timestamp::new(i64::MAX, 0), 1.0, 0.1);
    let r = response(vec![home(vec![late], vec![])]);
    assert_eq!(TibberClient::spot_prices(&r).unwrap_err().kind, ErrorKind::Fatal);
}

#[test]
fn a_status_is_success_a_server_fault_or_fatal() {
    assert_eq!(classify_status(200), None);
    assert_eq!(classify_status(204), None);
    assert_eq!(classify_status(299), None);
    assert_eq!(classify_status(199), Some(ErrorKind::Fatal));
    assert_eq!(classify_status(300), Some(ErrorKind::Fatal));
    assert_eq!(classify_status(401), Some(ErrorKind::Fatal));
    assert_eq!(classify_status(499), Some(ErrorKind::Fatal));
    assert_eq!(classify_status(500), Some(ErrorKind::Transient));
    assert_eq!(classify_status(503), Some(ErrorKind::Transient));
    assert_eq!(classify_status(599), Some(ErrorKind::Transient));
    assert_eq!(classify_status(600), Some(ErrorKind::Fatal));
    assert_eq!(classify_status(0), Some(ErrorKind::Fatal));
    assert_eq!(TibberClient::status_failure(200, "x"), None);
    assert_eq!(
        TibberClient::status_failure(502, "Status code 502 indicates failure"),
        Some(RunError::transient("Status code 502 indicates failure"))
    );
    assert_eq!(TibberClient::status_failure(403, "no"), Some(RunError::fatal("no")));
}

#[test]
fn the_token_goes_into_the_authorization_header() {
    let client = TibberClient::new(TibberClientConfig::new("SECRET-REDACTED").expect("config"));
    assert_eq!(client.authorization(), "Bearer SECRET-REDACTED");
    let config = TibberClientConfig::new("t0k3n").expect("config");
    assert_eq!(config.access_token(), "t0k3n");
}

#[test]
fn the_token_comes_from_the_environment() {
    assert_eq!(ACCESS_TOKEN_VARIABLE, "TIBBER_ACCESS_TOKEN");
    let env = Environment::new(vec![
        ("HOME".to_string(), "/root".to_string()),
        ("TIBBER_ACCESS_TOKEN".to_string(), "abc".to_string()),
    ]);
    let client = TibberClient::from_env(&env).expect("client");
    assert_eq!(client.authorization(), "Bearer abc");
    let missing = Environment::new(vec![("HOME".to_string(), "/root".to_string())]);
    match TibberClient::from_env(&missing) {
        Err(e) => assert_eq!(e.variable, "TIBBER_ACCESS_TOKEN"),
        Ok(_) => panic!("a client without a token"),
    }
    assert_eq!(TibberClientConfig::from_env(&missing).err().expect("an error").variable, "TIBBER_ACCESS_TOKEN");
}

#[test]
fn the_request_asks_for_both_days() {
    assert_eq!(ENDPOINT, "https://api.tibber.com/v1-beta/gql");
    assert!(PRICE_QUERY.contains("today { energy tax currency startsAt }"));
    assert!(PRICE_QUERY.contains("tomorrow { energy tax currency startsAt }"));
    assert!(PRICE_QUERY.contains("currentSubscription"));
}
