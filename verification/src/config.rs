//! Where the server listens and how it reaches its database.

use vstd::prelude::*;
use vstd::string::StringExecFns;

verus! {

/// The settings of one server.
#[derive(Debug)]
pub struct Config {
    pub app_host: String,
    pub app_port: String,
    pub db_username: String,
    pub db_password: String,
    pub db_host: String,
    pub db_name: String,
}

/// The host that the server listens on where none is set.
pub open spec fn default_host() -> Seq<char> {
    "0.0.0.0"@
}

/// The port that the server listens on where none is set.
pub open spec fn default_port() -> Seq<char> {
    "3000"@
}

impl Config {
    /// The address that the server listens on: host, a colon, port.
    pub open spec fn socket_spec(self) -> Seq<char> {
        self.app_host@ + ":"@ + self.app_port@
    }

    /// The connection string of the database.
    pub open spec fn db_connection_spec(self) -> Seq<char> {
        "postgresql:///?user="@ + self.db_username@ + "&password="@ + self.db_password@
            + "&dbname="@ + self.db_name@ + "&host="@ + self.db_host@
    }

    /// The settings from what the environment holds: a host and a port that
    /// are not set fall back to `0.0.0.0` and `3000`; the four settings of
    /// the database have no fallback.
    pub fn new(
        app_host: Option<String>,
        app_port: Option<String>,
        db_username: String,
        db_password: String,
        db_host: String,
        db_name: String,
    ) -> (config: Config)
        ensures
            config.app_host@ == match app_host {
                Some(host) => host@,
                None => default_host(),
            },
            config.app_port@ == match app_port {
                Some(port) => port@,
                None => default_port(),
            },
            config.db_username == db_username,
            config.db_password == db_password,
            config.db_host == db_host,
            config.db_name == db_name,
    {
        let host: String = match app_host {
            Some(host) => host,
            None => String::from_str("0.0.0.0"),
        };
        let port: String = match app_port {
            Some(port) => port,
            None => String::from_str("3000"),
        };
        Config { app_host: host, app_port: port, db_username, db_password, db_host, db_name }
    }

    /// The address that the server listens on: host, a colon, port.
    pub fn socket(&self) -> (address: String)
        ensures
            address@ == self.socket_spec(),
    {
        let mut address: String = self.app_host.clone();
        address.append(":");
        address.append(self.app_port.as_str());
        address
    }

    /// The connection string of the database.
    pub fn db_connection_str(&self) -> (url: String)
        ensures
            url@ == self.db_connection_spec(),
    {
        let mut url: String = String::from_str("postgresql:///?user=");
        url.append(self.db_username.as_str());
        url.append("&password=");
        url.append(self.db_password.as_str());
        url.append("&dbname=");
        url.append(self.db_name.as_str());
        url.append("&host=");
        url.append(self.db_host.as_str());
        url
    }
}

} // verus!
