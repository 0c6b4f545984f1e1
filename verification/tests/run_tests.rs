use lbsync::balance::ExtractError;
use lbsync::config::Settings;
use lbsync::portal::{FetchError, Region};
use lbsync::run::{conclude, plan_login, plan_write};
use lbsync::writer::{Backend, Method, WriteError};
use std::time::{SystemTime, UNIX_EPOCH};

fn string(s: &str) -> String {
    s.to_string()
}

fn settings(account: &str, backend: Backend) -> Settings {
    Settings {
        local_account_number: string(account),
        identity: string("max"),
        secret: string("1234"),
        region: Region::Bw,
        backend,
        host: string("localhost"),
        port: string(backend.default_port()),
        database: string("finance"),
    }
}

fn page_with(balance: &str) -> Result<String, FetchError> {
    Ok(format!(
        "<html><body><div id=\"rechner_tarif_details\"><table>\
         <tr class=\"odd\"><td>Vertrag</td><td>12345678</td></tr>\
         <tr class=\"odd\"><td>Guthaben</td><td>{}</td></tr>\
         </table></div></body></html>",
        balance
    ))
}

fn now() -> i64 {
    SystemTime::now().duration_since(UNIX_EPOCH).unwrap().as_secs() as i64
}

#[test]
fn a_run_begins_with_the_login() {
    let login = plan_login(&settings("ACC1", Backend::InfluxDb));
    assert_eq!(login.url, "https://kundenservice.lbs.de/lbs-bw/guiServlet");
    assert_eq!(
        login.form,
        vec![
            (string("REQ_ID"), string("LOGIN")),
            (string("IN_ID"), string("max")),
            (string("IN_PIN"), string("1234")),
        ]
    );
}

#[test]
fn a_page_with_a_balance_leads_to_a_point() {
    let before = now();
    let request = plan_write(&settings("ACC1", Backend::InfluxDb), page_with("1.234,56 EUR")).unwrap();
    let after = now();
    assert_eq!(request.method, Method::Post);
    assert_eq!(request.url, "http://localhost:8086/write?db=finance");
    let stamp = request
        .body
        .strip_prefix("balance,localAccountNumber=ACC1 balance=1234.56,currency=\"EUR\" ")
        .unwrap()
        .strip_suffix("000000000")
        .unwrap();
    let seconds: i64 = stamp.parse().unwrap();
    assert!(before <= seconds && seconds <= after);
}

#[test]
fn a_page_with_a_balance_leads_to_a_document() {
    let before = now();
    let request = plan_write(&settings("ACC1", Backend::CouchDb), page_with("1.234,56 EUR")).unwrap();
    let after = now();
    assert_eq!(request.method, Method::Put);
    let id = request.url.strip_prefix("http://localhost:5984/finance/").unwrap();
    assert_eq!(uuid::Uuid::parse_str(id).unwrap().get_version_num(), 4);
    let value: serde_json::Value = serde_json::from_str(&request.body).unwrap();
    assert_eq!(value["local_account_number"].as_str(), Some("ACC1"));
    assert_eq!(value["amount"].as_str(), Some("1234.56"));
    assert_eq!(value["currency"].as_str(), Some("EUR"));
    let seconds = value["timestamp"].as_i64().unwrap();
    assert!(before <= seconds && seconds <= after);
}

#[test]
fn a_fetch_that_failed_ends_the_run() {
    let failed = Err(FetchError::Transport(string("connection refused")));
    assert_eq!(
        plan_write(&settings("ACC1", Backend::InfluxDb), failed).unwrap_err(),
        "Unable to fetch balance: Fetching balance failed: connection refused"
    );
    let failed = Err(FetchError::Body(string("stream ended")));
    assert_eq!(
        plan_write(&settings("ACC1", Backend::CouchDb), failed).unwrap_err(),
        "Unable to fetch balance: Failed to get response html: stream ended"
    );
    let failed = Err(FetchError::Extract(ExtractError::UnexpectedFormat));
    assert_eq!(
        plan_write(&settings("ACC1", Backend::CouchDb), failed).unwrap_err(),
        "Unable to fetch balance: Balance field has unexpected format"
    );
}

#[test]
fn a_page_without_the_balance_ends_the_run() {
    let empty = Ok(string("<html><body><p>Wartungsarbeiten</p></body></html>"));
    assert_eq!(
        plan_write(&settings("ACC1", Backend::InfluxDb), empty).unwrap_err(),
        "Unable to fetch balance: Field with balance not found"
    );
}

#[test]
fn a_balance_of_one_word_ends_the_run() {
    assert_eq!(
        plan_write(&settings("ACC1", Backend::InfluxDb), page_with("gesperrt")).unwrap_err(),
        "Unable to fetch balance: Balance field has unexpected format"
    );
}

#[test]
fn an_incomplete_record_ends_the_run() {
    assert_eq!(
        plan_write(&settings("", Backend::InfluxDb), page_with("1.234,56 EUR")).unwrap_err(),
        "Account number is empty"
    );
    assert_eq!(
        plan_write(&settings("ACC1", Backend::CouchDb), page_with("... EUR")).unwrap_err(),
        "Amount is empty"
    );
}

#[test]
fn success_leaves_nothing_to_report() {
    for backend in [Backend::InfluxDb, Backend::CouchDb] {
        for status in [200u16, 201, 204, 299] {
            assert_eq!(conclude(backend, Ok(status)), None);
        }
    }
}

#[test]
fn any_other_status_is_reported() {
    assert_eq!(
        conclude(Backend::InfluxDb, Ok(404)),
        Some(string("Error posting data to InfluxDB: Failed to POST to influxdb: HTTP status 404"))
    );
    assert_eq!(
        conclude(Backend::CouchDb, Ok(500)),
        Some(string(
            "Error posting data to CouchDB: Failed to PUT new document into couchdb: HTTP status 500"
        ))
    );
    for backend in [Backend::InfluxDb, Backend::CouchDb] {
        for status in [0u16, 100, 199, 300, 302, 401, 409, 503] {
            assert!(conclude(backend, Ok(status)).is_some());
        }
    }
}

#[test]
fn a_write_that_did_not_get_through_is_reported() {
    assert_eq!(
        conclude(Backend::InfluxDb, Err(WriteError::Transport(string("timed out")))),
        Some(string("Error posting data to InfluxDB: Failed to POST to influxdb: timed out"))
    );
    assert_eq!(
        conclude(Backend::CouchDb, Err(WriteError::Status(412))),
        Some(string(
            "Error posting data to CouchDB: Failed to PUT new document into couchdb: HTTP status 412"
        ))
    );
}

#[test]
fn two_runs_on_one_page_write_two_documents() {
    let first = plan_write(&settings("ACC1", Backend::CouchDb), page_with("1.234,56 EUR")).unwrap();
    let second = plan_write(&settings("ACC1", Backend::CouchDb), page_with("1.234,56 EUR")).unwrap();
    assert_ne!(first.url, second.url);
    assert_eq!(first.method, second.method);
}
