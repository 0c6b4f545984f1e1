//! InfluxDB: one point in line protocol, posted to the write endpoint.

use crate::record::{BalanceRecord, RecordView};
use crate::text::{decimal_text, lemma_trailing_zeros, push_decimal, zeros};
use crate::writer::{Method, RequestView, WriteRequest};
use vstd::arithmetic::power::pow;
use vstd::prelude::*;

verus! {

/// The number of zeros that turn seconds into nanoseconds.
pub const NANOSECOND_DIGITS: usize = 9;

/// The point that InfluxDB is sent: the measurement `balance`, the account
/// number as a tag, the amount and the currency as fields, and the moment of
/// the reading with nine zeros behind the seconds.
pub open spec fn line_protocol_text(record: RecordView) -> Seq<char> {
    "balance,localAccountNumber="@ + record.local_account_number + " balance="@ + record.amount
        + ",currency=\""@ + record.currency + "\" "@ + decimal_text(record.timestamp) + zeros(
        NANOSECOND_DIGITS as nat,
    )
}

/// The address of InfluxDB's write endpoint for one database.
pub open spec fn influx_url_text(host: Seq<char>, port: Seq<char>, database: Seq<char>) -> Seq<
    char,
> {
    "http://"@ + host + ":"@ + port + "/write?db="@ + database
}

/// The write that InfluxDB is sent.
pub open spec fn influx_request_view(
    host: Seq<char>,
    port: Seq<char>,
    database: Seq<char>,
    record: RecordView,
) -> RequestView {
    RequestView {
        method: Method::Post,
        url: influx_url_text(host, port, database),
        body: line_protocol_text(record),
    }
}

/// The point that InfluxDB is sent for `record`.
pub fn line_protocol(record: &BalanceRecord) -> (r: String)
    ensures
        r@ == line_protocol_text(record@),
{
    let mut out = "balance,localAccountNumber=".to_owned();
    out.append(record.local_account_number());
    out.append(" balance=");
    out.append(record.amount());
    out.append(",currency=\"");
    out.append(record.currency());
    out.append("\" ");
    push_decimal(&mut out, record.timestamp());
    out.append("000000000");
    proof {
        reveal_strlit("000000000");
    }
    out
}

/// The address of InfluxDB's write endpoint.
pub fn influx_write_url(host: &str, port: &str, database: &str) -> (r: String)
    ensures
        r@ == influx_url_text(host@, port@, database@),
{
    let mut out = "http://".to_owned();
    out.append(host);
    out.append(":");
    out.append(port);
    out.append("/write?db=");
    out.append(database);
    out
}

/// The write that InfluxDB is sent for `record`.
pub fn influx_request(host: &str, port: &str, database: &str, record: &BalanceRecord) -> (r:
    WriteRequest)
    ensures
        r@ == influx_request_view(host@, port@, database@, record@),
{
    WriteRequest {
        method: Method::Post,
        url: influx_write_url(host, port, database),
        body: line_protocol(record),
    }
}

/// The last field of a point is the moment of the reading in nanoseconds:
/// the nine zeros multiply the seconds by ten, nine times over. (Zero seconds
/// are written as ten zeros, which is no numeral of its own but still reads
/// as zero.)
pub proof fn lemma_point_in_nanoseconds(seconds: int)
    requires
        seconds != 0,
    ensures
        decimal_text(seconds) + zeros(NANOSECOND_DIGITS as nat) == decimal_text(
            seconds * 1_000_000_000,
        ),
{
    assert(pow(10, 9) == 1_000_000_000) by {
        reveal_with_fuel(pow, 10);
    }
    if seconds > 0 {
        lemma_trailing_zeros(seconds as nat, 9);
    } else {
        lemma_trailing_zeros((-seconds) as nat, 9);
    }
}

} // verus!
