//! Writing a record to a database.
//!
//! Two databases are served. InfluxDB takes one point in line protocol, sent
//! with POST to its write endpoint. CouchDB takes one JSON document, sent with
//! PUT to an address that ends in an identifier made for this one write.
//! Both answer with an HTTP status, and only a status from 200 to 299 means
//! that the record was taken.
//!
//! Nothing here is sent: a `WriteRequest` says what has to go where, and
//! `write_outcome` judges the status that came back.

pub mod couch;
pub mod influx;

use crate::record::{BalanceRecord, RecordView};
use crate::text::{decimal_text, push_decimal, same_text};
use crate::writer::couch::{
    couch_request, couch_request_view, fresh_document_id, is_document_id,
};
use crate::writer::influx::{influx_request, influx_request_view};
use vstd::prelude::*;

verus! {

/// The database that takes the record.
#[derive(Debug, Clone, Copy, PartialEq, Eq, Structural)]
pub enum Backend {
    /// A time series database that reads line protocol.
    InfluxDb,
    /// A document store that reads JSON.
    CouchDb,
}

/// The database that a name stands for, if it stands for one.
pub open spec fn backend_of(name: Seq<char>) -> Option<Backend> {
    if name == "influxdb"@ {
        Some(Backend::InfluxDb)
    } else if name == "couchdb"@ {
        Some(Backend::CouchDb)
    } else {
        None
    }
}

impl Backend {
    /// The name by which the database is chosen.
    pub open spec fn name_text(self) -> Seq<char> {
        match self {
            Backend::InfluxDb => "influxdb"@,
            Backend::CouchDb => "couchdb"@,
        }
    }

    /// The port on which the database listens unless it is told otherwise.
    pub open spec fn default_port_text(self) -> Seq<char> {
        match self {
            Backend::InfluxDb => "8086"@,
            Backend::CouchDb => "5984"@,
        }
    }

    /// The name by which the database is chosen.
    pub fn name(self) -> (r: &'static str)
        ensures
            r@ == self.name_text(),
    {
        match self {
            Backend::InfluxDb => "influxdb",
            Backend::CouchDb => "couchdb",
        }
    }

    /// The port on which the database listens unless it is told otherwise.
    pub fn default_port(self) -> (r: &'static str)
        ensures
            r@ == self.default_port_text(),
    {
        match self {
            Backend::InfluxDb => "8086",
            Backend::CouchDb => "5984",
        }
    }

    /// The database that `name` stands for.
    pub fn parse(name: &str) -> (r: Option<Backend>)
        ensures
            r == backend_of(name@),
    {
        if same_text(name, "influxdb") {
            Some(Backend::InfluxDb)
        } else if same_text(name, "couchdb") {
            Some(Backend::CouchDb)
        } else {
            None
        }
    }
}

/// A name stands for a database exactly where it is that database's name.
pub proof fn lemma_backend_names(backend: Backend, name: Seq<char>)
    ensures
        backend_of(name) == Some(backend) <==> name == backend.name_text(),
{
    reveal_strlit("influxdb");
    reveal_strlit("couchdb");
    assert("influxdb"@[0] != "couchdb"@[0]);
}

/// The HTTP method of a write.
#[derive(Debug, Clone, Copy, PartialEq, Eq, Structural)]
pub enum Method {
    /// The body is handed to the endpoint, which files it where it sees fit.
    Post,
    /// The body is stored under the very address that it is sent to.
    Put,
}

/// One write, ready to be sent.
#[derive(Debug)]
pub struct WriteRequest {
    /// How the body is sent.
    pub method: Method,
    /// Where it is sent.
    pub url: String,
    /// What is sent.
    pub body: String,
}

/// A write as a value of specifications.
pub struct RequestView {
    pub method: Method,
    pub url: Seq<char>,
    pub body: Seq<char>,
}

impl View for WriteRequest {
    type V = RequestView;

    open spec fn view(&self) -> RequestView {
        RequestView { method: self.method, url: self.url@, body: self.body@ }
    }
}

/// Why a write did not succeed.
#[derive(Debug)]
pub enum WriteError {
    /// The request did not get through, or no answer came back; the text says
    /// what went wrong.
    Transport(String),
    /// The database answered with a status outside of 200 to 299.
    Status(u16),
}

impl WriteError {
    /// What went wrong, without what was being done.
    pub open spec fn detail_text(self) -> Seq<char> {
        match self {
            WriteError::Transport(cause) => cause@,
            WriteError::Status(status) => "HTTP status "@ + decimal_text(status as int),
        }
    }

    /// What the error says to a reader, for a write to `backend`: what was
    /// being done, and what went wrong.
    pub open spec fn message_text(self, backend: Backend) -> Seq<char> {
        match backend {
            Backend::InfluxDb => "Failed to POST to influxdb: "@ + self.detail_text(),
            Backend::CouchDb => "Failed to PUT new document into couchdb: "@ + self.detail_text(),
        }
    }

    /// What the error says to a reader, for a write to `backend`.
    pub fn message(&self, backend: Backend) -> (r: String)
        ensures
            r@ == self.message_text(backend),
    {
        let mut out = match backend {
            Backend::InfluxDb => "Failed to POST to influxdb: ".to_owned(),
            Backend::CouchDb => "Failed to PUT new document into couchdb: ".to_owned(),
        };
        match self {
            WriteError::Transport(cause) => {
                out.append(cause.as_str());
            },
            WriteError::Status(status) => {
                out.append("HTTP status ");
                push_decimal(&mut out, *status as i64);
            },
        }
        out
    }
}

/// The line that reports a failed write to `backend`.
pub open spec fn write_report_text(backend: Backend, e: WriteError) -> Seq<char> {
    match backend {
        Backend::InfluxDb => "Error posting data to InfluxDB: "@ + e.message_text(backend),
        Backend::CouchDb => "Error posting data to CouchDB: "@ + e.message_text(backend),
    }
}

/// The line that reports a failed write to `backend`.
pub fn write_report(backend: Backend, e: &WriteError) -> (r: String)
    ensures
        r@ == write_report_text(backend, *e),
{
    let mut out = match backend {
        Backend::InfluxDb => "Error posting data to InfluxDB: ".to_owned(),
        Backend::CouchDb => "Error posting data to CouchDB: ".to_owned(),
    };
    out.append(e.message(backend).as_str());
    out
}

/// An HTTP status that means success.
pub open spec fn is_success(status: u16) -> bool {
    200 <= status <= 299
}

/// The write that `backend` is sent for a record; `id` names the document
/// where the database stores documents, and goes unused where it does not.
pub open spec fn write_view(
    backend: Backend,
    host: Seq<char>,
    port: Seq<char>,
    database: Seq<char>,
    record: RecordView,
    id: Seq<char>,
) -> RequestView {
    match backend {
        Backend::InfluxDb => influx_request_view(host, port, database, record),
        Backend::CouchDb => couch_request_view(host, port, database, record, id),
    }
}

/// The write that `backend` is sent for `record`.
///
/// For CouchDB an identifier is made for this one write, so that the record
/// becomes a document of its own: no earlier document is looked for, and none
/// is replaced.
pub fn write_request(
    backend: Backend,
    host: &str,
    port: &str,
    database: &str,
    record: &BalanceRecord,
) -> (r: WriteRequest)
    ensures
        backend == Backend::InfluxDb ==> r@ == influx_request_view(
            host@,
            port@,
            database@,
            record@,
        ),
        exists|id: Seq<char>|
            (backend == Backend::CouchDb ==> is_document_id(id)) && r@ == #[trigger] write_view(
                backend,
                host@,
                port@,
                database@,
                record@,
                id,
            ),
{
    match backend {
        Backend::InfluxDb => influx_request(host, port, database, record),
        Backend::CouchDb => {
            let id = fresh_document_id();
            let r = couch_request(host, port, database, record, id.as_str());
            assert(r@ == write_view(backend, host@, port@, database@, record@, id@));
            r
        },
    }
}

/// Judges the answer of a database by its status alone: 200 to 299 is success,
/// and any other status is an error that carries it.
pub fn write_outcome(status: u16) -> (r: Result<(), WriteError>)
    ensures
        r is Ok <==> is_success(status),
        r is Err ==> r->Err_0 == WriteError::Status(status),
{
    if 200 <= status && status <= 299 {
        Ok(())
    } else {
        Err(WriteError::Status(status))
    }
}

} // verus!
