//! What a run is told, and what it takes for granted where it is told
//! nothing.
//!
//! The options arrive as texts, some of them missing. `Settings::resolve`
//! settles them: the state has to be one of the known regions, the kind of
//! database one of the two that are served, and a host or a port that is not
//! named gets its default.

use crate::portal::{region_of, Region};
use crate::writer::{backend_of, Backend};
use vstd::prelude::*;

verus! {

/// The host of the database where none is named.
pub const DEFAULT_HOST: &'static str = "localhost";

/// The kind of database where none is named.
pub const DEFAULT_DATABASE_TYPE: &'static str = "influxdb";

/// The options of a run as they were given.
#[derive(Debug)]
pub struct Options {
    /// The account number that the record is written under.
    pub account_number: String,
    /// The identity that logs in at the portal.
    pub id: String,
    /// The secret that logs in at the portal.
    pub pin: String,
    /// The code of the region whose portal is asked.
    pub state: String,
    /// The kind of database, `influxdb` or `couchdb`.
    pub database_type: Option<String>,
    /// The host of the database.
    pub host: Option<String>,
    /// The port of the database.
    pub port: Option<String>,
    /// The name of the database.
    pub database: String,
}

/// What a run works with, once its options are settled.
#[derive(Debug)]
pub struct Settings {
    /// The account number that the record is written under.
    pub local_account_number: String,
    /// The identity that logs in at the portal.
    pub identity: String,
    /// The secret that logs in at the portal.
    pub secret: String,
    /// The region whose portal is asked.
    pub region: Region,
    /// The database that takes the record.
    pub backend: Backend,
    /// The host of the database.
    pub host: String,
    /// The port of the database.
    pub port: String,
    /// The name of the database.
    pub database: String,
}

/// The options of a run as a value of specifications.
pub struct OptionsView {
    pub account_number: Seq<char>,
    pub id: Seq<char>,
    pub pin: Seq<char>,
    pub state: Seq<char>,
    pub database_type: Option<Seq<char>>,
    pub host: Option<Seq<char>>,
    pub port: Option<Seq<char>>,
    pub database: Seq<char>,
}

/// The settings of a run as a value of specifications.
pub struct SettingsView {
    pub local_account_number: Seq<char>,
    pub identity: Seq<char>,
    pub secret: Seq<char>,
    pub region: Region,
    pub backend: Backend,
    pub host: Seq<char>,
    pub port: Seq<char>,
    pub database: Seq<char>,
}

/// The view of a text that may be missing.
pub open spec fn optional_view(text: Option<String>) -> Option<Seq<char>> {
    match text {
        Some(named) => Some(named@),
        None => None,
    }
}

impl View for Options {
    type V = OptionsView;

    open spec fn view(&self) -> OptionsView {
        OptionsView {
            account_number: self.account_number@,
            id: self.id@,
            pin: self.pin@,
            state: self.state@,
            database_type: optional_view(self.database_type),
            host: optional_view(self.host),
            port: optional_view(self.port),
            database: self.database@,
        }
    }
}

impl View for Settings {
    type V = SettingsView;

    open spec fn view(&self) -> SettingsView {
        SettingsView {
            local_account_number: self.local_account_number@,
            identity: self.identity@,
            secret: self.secret@,
            region: self.region,
            backend: self.backend,
            host: self.host@,
            port: self.port@,
            database: self.database@,
        }
    }
}

/// Why the options cannot be settled.
#[derive(Debug, Clone, Copy, PartialEq, Eq, Structural)]
pub enum ConfigError {
    /// The state is none of the known regions.
    UnknownState,
    /// The kind of database is none of those that are served.
    UnknownDatabaseType,
}

impl ConfigError {
    /// What the error says to a reader.
    pub open spec fn message_text(self) -> Seq<char> {
        match self {
            ConfigError::UnknownState => "Unknown state"@,
            ConfigError::UnknownDatabaseType => "Unknown database type"@,
        }
    }

    /// What the error says to a reader.
    pub fn message(self) -> (r: &'static str)
        ensures
            r@ == self.message_text(),
    {
        match self {
            ConfigError::UnknownState => "Unknown state",
            ConfigError::UnknownDatabaseType => "Unknown database type",
        }
    }
}

/// The port of the database: the one that was named; where none was, the one
/// on which a database of this kind listens by default; and none for a kind
/// that is not known.
pub open spec fn resolved_port(database_type: Seq<char>, port: Option<Seq<char>>) -> Option<
    Seq<char>,
> {
    match port {
        Some(named) => Some(named),
        None => match backend_of(database_type) {
            Some(backend) => Some(backend.default_port_text()),
            None => None,
        },
    }
}

/// The kind of database that the options ask for.
pub open spec fn database_type_of(options: OptionsView) -> Seq<char> {
    match options.database_type {
        Some(named) => named,
        None => DEFAULT_DATABASE_TYPE@,
    }
}

/// What the options settle to: the texts as they were given, the state and
/// the kind of database as one of those that are known, and the host and the
/// port as named or by default. The state is looked at before the kind of
/// database.
pub open spec fn resolved(options: OptionsView) -> Result<SettingsView, ConfigError> {
    let database_type = database_type_of(options);
    match (region_of(options.state), backend_of(database_type)) {
        (None, _) => Err(ConfigError::UnknownState),
        (Some(_), None) => Err(ConfigError::UnknownDatabaseType),
        (Some(region), Some(backend)) => Ok(
            SettingsView {
                local_account_number: options.account_number,
                identity: options.id,
                secret: options.pin,
                region,
                backend,
                host: match options.host {
                    Some(named) => named,
                    None => DEFAULT_HOST@,
                },
                port: resolved_port(database_type, options.port)->0,
                database: options.database,
            },
        ),
    }
}

/// The view of what settling the options gave.
pub open spec fn resolution_view(r: Result<Settings, ConfigError>) -> Result<
    SettingsView,
    ConfigError,
> {
    match r {
        Ok(settings) => Ok(settings@),
        Err(e) => Err(e),
    }
}

/// Settles the port of the database once the options are read: a port that
/// was named stands, whatever the kind of database; without one the kind
/// decides, and a kind that is not known leaves the port open.
pub fn resolve_port(database_type: &str, port: Option<String>) -> (r: Option<String>)
    ensures
        optional_view(r) == resolved_port(database_type@, optional_view(port)),
{
    match port {
        Some(named) => Some(named),
        None => match Backend::parse(database_type) {
            Some(backend) => Some(backend.default_port().to_owned()),
            None => None,
        },
    }
}

impl Settings {
    /// Settles the options of a run.
    pub fn resolve(options: Options) -> (r: Result<Settings, ConfigError>)
        ensures
            resolution_view(r) == resolved(options@),
    {
        let region = match Region::parse(options.state.as_str()) {
            Some(region) => region,
            None => {
                return Err(ConfigError::UnknownState);
            },
        };
        let database_type = match options.database_type {
            Some(named) => named,
            None => DEFAULT_DATABASE_TYPE.to_owned(),
        };
        let backend = match Backend::parse(database_type.as_str()) {
            Some(backend) => backend,
            None => {
                return Err(ConfigError::UnknownDatabaseType);
            },
        };
        let host = match options.host {
            Some(named) => named,
            None => DEFAULT_HOST.to_owned(),
        };
        let port = match resolve_port(database_type.as_str(), options.port) {
            Some(port) => port,
            None => {
                return Err(ConfigError::UnknownDatabaseType);
            },
        };
        Ok(
            Settings {
                local_account_number: options.account_number,
                identity: options.id,
                secret: options.pin,
                region,
                backend,
                host,
                port,
                database: options.database,
            },
        )
    }
}

} // verus!
