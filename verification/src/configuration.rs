//! The settings of the service, made of the secrets it was started with.

use crate::error::{Error, Result};
use vstd::prelude::*;

verus! {

/// The name under which the scheme of the database address is kept.
pub const DB_SCHEME: &'static str = "DB_SCHEME";

/// The name under which the host of the database is kept.
pub const DB_HOST: &'static str = "DB_HOST";

/// The name under which the port of the database is kept.
pub const DB_PORT: &'static str = "DB_PORT";

/// The name under which the user name for the database is kept.
pub const DB_USERNAME: &'static str = "DB_USERNAME";

/// The name under which the password for the database is kept.
pub const DB_PASSWORD: &'static str = "DB_PASSWORD";

/// The name under which the namespace within the database is kept.
pub const DB_NS: &'static str = "DB_NS";

/// The name under which the name of the database is kept.
pub const DB_DB: &'static str = "DB_DB";

/// The name under which the secret for signing session tokens is kept.
pub const JWT_ENCODING_SECRET: &'static str = "JWT_ENCODING_SECRET";

/// The settings of the service.
#[derive(Debug)]
pub struct Settings {
    pub database: DatabaseSettings,
}

/// Where the database is and how to sign in to it.
#[derive(Debug)]
pub struct DatabaseSettings {
    pub host: String,
    pub port: String,
    pub secure: bool,
    pub username: String,
    pub password: String,
    pub ns: String,
    pub db: String,
}

/// What was found under each of the seven names, in the order in which the
/// settings ask for them.
pub struct Secrets {
    pub scheme: Option<String>,
    pub host: Option<String>,
    pub port: Option<String>,
    pub username: Option<String>,
    pub password: Option<String>,
    pub ns: Option<String>,
    pub db: Option<String>,
}

/// Each of the seven secrets was found.
pub open spec fn complete(secrets: Secrets) -> bool {
    &&& secrets.scheme is Some
    &&& secrets.host is Some
    &&& secrets.port is Some
    &&& secrets.username is Some
    &&& secrets.password is Some
    &&& secrets.ns is Some
    &&& secrets.db is Some
}

/// The address to reach the database at: the host, followed by a colon and
/// the port unless the port is 80.
pub open spec fn connection_string(host: Seq<char>, port: Seq<char>) -> Seq<char> {
    if port == "80"@ {
        host
    } else {
        host + ":"@ + port
    }
}

/// A secret that was found, or `MissingEnvVar`.
pub fn get_secret(found: Option<String>) -> (secret: Result<String>)
    ensures
        match found {
            Some(value) => secret == Ok::<String, Error>(value),
            None => secret == Err::<String, Error>(Error::MissingEnvVar),
        },
{
    match found {
        Some(secret) => Ok(secret),
        None => Err(Error::MissingEnvVar),
    }
}

impl Settings {
    /// The settings that the secrets make: complete secrets give settings that
    /// hold each of them as it was found, with a secure connection exactly for
    /// the scheme `https`; if any is missing, `MissingEnvVar`.
    pub fn try_from_secrets(secrets: Secrets) -> (settings: Result<Settings>)
        ensures
            complete(secrets) ==> settings is Ok && ({
                let database = settings->Ok_0.database;
                &&& database.host == secrets.host->Some_0
                &&& database.port == secrets.port->Some_0
                &&& database.secure == (secrets.scheme->Some_0@ == "https"@)
                &&& database.username == secrets.username->Some_0
                &&& database.password == secrets.password->Some_0
                &&& database.ns == secrets.ns->Some_0
                &&& database.db == secrets.db->Some_0
            }),
            !complete(secrets) ==> settings is Err && settings->Err_0 == Error::MissingEnvVar,
    {
        let scheme = get_secret(secrets.scheme)?;
        let secure = scheme == String::from_str("https");
        let settings = Settings {
            database: DatabaseSettings {
                host: get_secret(secrets.host)?,
                port: get_secret(secrets.port)?,
                secure,
                username: get_secret(secrets.username)?,
                password: get_secret(secrets.password)?,
                ns: get_secret(secrets.ns)?,
                db: get_secret(secrets.db)?,
            },
        };
        Ok(settings)
    }
}

impl DatabaseSettings {
    /// The address to reach the database at.
    pub fn get_connection_string(&self) -> (address: String)
        ensures
            address@ == connection_string(self.host@, self.port@),
    {
        let mut connection_string = self.host.clone();
        if !(self.port == String::from_str("80")) {
            connection_string.append(":");
            connection_string.append(self.port.as_str());
        }
        connection_string
    }
}

} // verus!
