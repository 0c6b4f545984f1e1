//! CouchDB: one JSON document, put under an identifier of its own.

use crate::record::{BalanceRecord, RecordView};
use crate::text::{decimal_text, push_decimal};
use crate::writer::{Method, RequestView, WriteRequest};
use vstd::prelude::*;

verus! {

/// The JSON string literal that `serde_json` writes for a text: the text in
/// double quotes, with the characters that JSON cannot hold as they are
/// written as escapes.
pub uninterp spec fn json_string_text(text: Seq<char>) -> Seq<char>;

/// One JSON object with the four fields of a record under their names. The
/// three texts stand in it as they are handed in, so they have to be JSON
/// string literals already; the moment is written as a number.
pub open spec fn framed_document_text(
    account_literal: Seq<char>,
    amount_literal: Seq<char>,
    currency_literal: Seq<char>,
    timestamp: int,
) -> Seq<char> {
    "{\"local_account_number\":"@ + account_literal + ",\"amount\":"@ + amount_literal
        + ",\"currency\":"@ + currency_literal + ",\"timestamp\":"@ + decimal_text(timestamp)
        + "}"@
}

/// The document that CouchDB is sent: the JSON object of the record, each
/// text written as the string literal that `serde_json` makes of it.
pub open spec fn document_text(record: RecordView) -> Seq<char> {
    framed_document_text(
        json_string_text(record.local_account_number),
        json_string_text(record.amount),
        json_string_text(record.currency),
        record.timestamp,
    )
}

/// The address of one document in one database of CouchDB.
pub open spec fn document_url_text(
    host: Seq<char>,
    port: Seq<char>,
    database: Seq<char>,
    id: Seq<char>,
) -> Seq<char> {
    "http://"@ + host + ":"@ + port + "/"@ + database + "/"@ + id
}

/// The write that CouchDB is sent for the document `id`.
pub open spec fn couch_request_view(
    host: Seq<char>,
    port: Seq<char>,
    database: Seq<char>,
    record: RecordView,
    id: Seq<char>,
) -> RequestView {
    RequestView {
        method: Method::Put,
        url: document_url_text(host, port, database, id),
        body: document_text(record),
    }
}

/// A digit of a lower case hexadecimal numeral.
pub open spec fn is_lower_hex(c: char) -> bool {
    let n = c as u32;
    ||| '0' as u32 <= n <= '9' as u32
    ||| 'a' as u32 <= n <= 'f' as u32
}

/// The shape of a random UUID written with hyphens: 32 lower case hexadecimal
/// digits in groups of 8, 4, 4, 4 and 12, the third group beginning with the
/// version, 4, and the fourth with one of the four digits of the variant.
pub open spec fn is_document_id(id: Seq<char>) -> bool {
    &&& id.len() == 36
    &&& forall|k: int|
        0 <= k < 36 ==> if k == 8 || k == 13 || k == 18 || k == 23 {
            #[trigger] id[k] == '-'
        } else {
            is_lower_hex(id[k])
        }
    &&& id[14] == '4'
    &&& (id[19] == '8' || id[19] == '9' || id[19] == 'a' || id[19] == 'b')
}

/// `serde_json::Error`, which `serde_json::to_string` returns where it fails.
#[verifier::external_type_specification]
#[verifier::external_body]
pub struct ExJsonError(serde_json::Error);

/// `serde_json::to_string` on a string slice.
///
/// The result is given the name `json_string_text`. It is always `Ok`: the
/// serializer fails only where the value's own `Serialize` does or where the
/// writer does, and a `str` is written by `serialize_str` into a `Vec<u8>`,
/// neither of which can fail.
#[verifier::external_body]
fn json_string(text: &str) -> (r: Result<String, serde_json::Error>)
    ensures
        r is Ok,
        r->Ok_0@ == json_string_text(text@),
{
    serde_json::to_string(text)
}

/// `uuid::Uuid::new_v4`, written out by `Uuid`'s `Display`.
///
/// The identifier is random, so the contract states its shape only: `new_v4`
/// sets the version to 4 and the variant to RFC 4122, and `Display` writes
/// the hyphenated form in lower case.
#[verifier::external_body]
pub(crate) fn fresh_document_id() -> (id: String)
    ensures
        is_document_id(id@),
{
    uuid::Uuid::new_v4().to_string()
}

/// Frames the JSON object of a record around three string literals and the
/// moment of the reading.
pub fn frame_document(
    account_literal: &str,
    amount_literal: &str,
    currency_literal: &str,
    timestamp: i64,
) -> (r: String)
    ensures
        r@ == framed_document_text(
            account_literal@,
            amount_literal@,
            currency_literal@,
            timestamp as int,
        ),
{
    let mut out = "{\"local_account_number\":".to_owned();
    out.append(account_literal);
    out.append(",\"amount\":");
    out.append(amount_literal);
    out.append(",\"currency\":");
    out.append(currency_literal);
    out.append(",\"timestamp\":");
    push_decimal(&mut out, timestamp);
    out.append("}");
    out
}

/// `text` as a JSON string literal.
fn json_literal(text: &str) -> (r: String)
    ensures
        r@ == json_string_text(text@),
{
    match json_string(text) {
        Ok(literal) => literal,
        Err(_) => {
            assert(false);
            String::new()
        },
    }
}

/// The document that CouchDB is sent for `record`.
pub fn document_body(record: &BalanceRecord) -> (r: String)
    ensures
        r@ == document_text(record@),
{
    let account = json_literal(record.local_account_number());
    let amount = json_literal(record.amount());
    let currency = json_literal(record.currency());
    frame_document(account.as_str(), amount.as_str(), currency.as_str(), record.timestamp())
}

/// The address of the document `id`.
pub fn document_url(host: &str, port: &str, database: &str, id: &str) -> (r: String)
    ensures
        r@ == document_url_text(host@, port@, database@, id@),
{
    let mut out = "http://".to_owned();
    out.append(host);
    out.append(":");
    out.append(port);
    out.append("/");
    out.append(database);
    out.append("/");
    out.append(id);
    out
}

/// The write that CouchDB is sent for `record`, to be stored as the document
/// `id`.
pub fn couch_request(host: &str, port: &str, database: &str, record: &BalanceRecord, id: &str) -> (r:
    WriteRequest)
    ensures
        r@ == couch_request_view(host@, port@, database@, record@, id@),
{
    WriteRequest {
        method: Method::Put,
        url: document_url(host, port, database, id),
        body: document_body(record),
    }
}

} // verus!
