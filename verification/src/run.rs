//! One run, step by step.
//!
//! A run logs in at the portal, reads the balance out of the page, and writes
//! it to the database: two requests, in this order, and never one of them
//! twice. Sending is not done here. `plan_login` says what to post; the page
//! that comes back goes to `plan_write`, which says what to send to the
//! database or with which line to give up; the answer of the database goes to
//! `conclude`, which says what is left to report.
//!
//! Whatever fails ends the run: nothing is tried again, and nothing is written
//! unless the record is complete.

use crate::balance::{
    balance_of_selection, extract_balance, selected_inner_html, BALANCE_SELECTOR,
};
use crate::config::{optional_view, Settings, SettingsView};
use crate::portal::{
    fetch_report, fetch_report_text, login_form_view, login_request, portal_url_text, FetchError,
    LoginRequest, LoginView,
};
use crate::record::{missing_field, BalanceRecord, RecordView};
use crate::writer::couch::is_document_id;
use crate::writer::{
    is_success, write_outcome, write_report, write_report_text, write_request, write_view,
    Backend, WriteError, WriteRequest,
};
use vstd::prelude::*;

verus! {

/// What the page holds: the amount and the currency, or the reason why the
/// run has none, be it that the page did not arrive or that the balance is
/// not in it.
pub open spec fn balance_of_page(page: Result<String, FetchError>) -> Result<
    (Seq<char>, Seq<char>),
    FetchError,
> {
    match page {
        Err(e) => Err(e),
        Ok(text) => match balance_of_selection(selected_inner_html(text@, BALANCE_SELECTOR@)) {
            Err(e) => Err(FetchError::Extract(e)),
            Ok(balance) => Ok(balance),
        },
    }
}

/// The line that ends the run at the page, if the run ends there: the report
/// of a failed fetch, or the field whose absence keeps the record from being
/// made. Where there is none, the run goes on to write.
pub open spec fn plan_failure(settings: SettingsView, page: Result<String, FetchError>) -> Option<
    Seq<char>,
> {
    match balance_of_page(page) {
        Err(e) => Some(fetch_report_text(e)),
        Ok((amount, currency)) => match missing_field(
            settings.local_account_number,
            amount,
            currency,
        ) {
            Some(e) => Some(e.message_text()),
            None => None,
        },
    }
}

/// The record that is written where the run goes on: the account number of
/// the settings, the balance of the page, and the moment at which the record
/// is made.
pub open spec fn planned_record(
    settings: SettingsView,
    page: Result<String, FetchError>,
    timestamp: int,
) -> RecordView {
    RecordView {
        local_account_number: settings.local_account_number,
        amount: balance_of_page(page)->Ok_0.0,
        currency: balance_of_page(page)->Ok_0.1,
        timestamp,
    }
}

/// What is left to report once the database has answered: nothing after a
/// status that means success, and the failure after any other status or
/// after no answer at all.
pub open spec fn concluded(backend: Backend, answer: Result<u16, WriteError>) -> Option<
    Seq<char>,
> {
    match answer {
        Ok(status) => if is_success(status) {
            None
        } else {
            Some(write_report_text(backend, WriteError::Status(status)))
        },
        Err(e) => Some(write_report_text(backend, e)),
    }
}

/// The first step: the login to post.
pub fn plan_login(settings: &Settings) -> (r: LoginRequest)
    ensures
        r@ == (LoginView {
            url: portal_url_text(settings.region),
            form: login_form_view(settings.identity@, settings.secret@),
        }),
{
    login_request(settings.identity.as_str(), settings.secret.as_str(), settings.region)
}

/// The second step: from the page that the login brought, or the reason why
/// it brought none, to the write to send, or to the line with which the run
/// gives up.
///
/// The record is stamped as it is made, and the document, if one is written,
/// gets its identifier here.
pub fn plan_write(settings: &Settings, page: Result<String, FetchError>) -> (r: Result<
    WriteRequest,
    String,
>)
    ensures
        match r {
            Err(line) => plan_failure(settings@, page) == Some(line@),
            Ok(request) => {
                &&& plan_failure(settings@, page) is None
                &&& exists|timestamp: int, id: Seq<char>|
                    (settings.backend == Backend::CouchDb ==> is_document_id(id)) && request@
                        == #[trigger] write_view(
                        settings.backend,
                        settings.host@,
                        settings.port@,
                        settings.database@,
                        planned_record(settings@, page, timestamp),
                        id,
                    )
            },
        },
{
    let text = match page {
        Ok(text) => text,
        Err(e) => {
            return Err(fetch_report(&e));
        },
    };
    let (amount, currency) = match extract_balance(text.as_str()) {
        Ok(balance) => balance,
        Err(e) => {
            return Err(fetch_report(&FetchError::Extract(e)));
        },
    };
    let record = match BalanceRecord::stamped_now(
        settings.local_account_number.clone(),
        amount,
        currency,
    ) {
        Ok(record) => record,
        Err(e) => {
            return Err(e.message().to_owned());
        },
    };
    assert(record@ == planned_record(settings@, page, record@.timestamp));
    Ok(
        write_request(
            settings.backend,
            settings.host.as_str(),
            settings.port.as_str(),
            settings.database.as_str(),
            &record,
        ),
    )
}

/// The last step: from the status that the database answered with, or the
/// reason why it did not answer, to the line that is left to print.
pub fn conclude(backend: Backend, answer: Result<u16, WriteError>) -> (r: Option<String>)
    ensures
        optional_view(r) == concluded(backend, answer),
{
    let outcome = match answer {
        Ok(status) => write_outcome(status),
        Err(e) => Err(e),
    };
    match outcome {
        Ok(()) => None,
        Err(e) => Some(write_report(backend, &e)),
    }
}

/// Nothing is written unless the record is complete: where the run goes on to
/// write, the account number, the amount and the currency of the record each
/// hold at least one character, whatever the moment of the reading.
pub proof fn lemma_written_records_are_complete(
    settings: SettingsView,
    page: Result<String, FetchError>,
    timestamp: int,
)
    requires
        plan_failure(settings, page) is None,
    ensures
        planned_record(settings, page, timestamp).is_complete(),
{
}

/// A run ends without a report exactly where the database answered, and with
/// a status from 200 to 299: any other status, and any failure to get an
/// answer, is reported and never taken for success.
pub proof fn lemma_only_success_is_silent(backend: Backend, answer: Result<u16, WriteError>)
    ensures
        concluded(backend, answer) is None <==> (answer matches Ok(status) && 200 <= status
            <= 299),
{
}

} // verus!
