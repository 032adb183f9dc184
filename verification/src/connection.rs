//! The description of the server to connect to, and the client
//! configuration that is made from it.

use vstd::prelude::*;

verus! {

#[verifier::external_type_specification]
#[verifier::external_body]
pub struct ExConfig(tiberius::Config);

/// Which server certificates a configuration accepts.
pub ghost enum Trust {
    /// Those that the system's trust store validates.
    SystemStore,
    /// Any certificate, without validation.
    Any,
    /// Those that a given certificate authority file validates.
    AuthorityFile,
}

/// The settings of a client configuration, as far as this crate makes them.
pub ghost struct Settings {
    pub host: Option<Seq<char>>,
    pub port: Option<u16>,
    pub database: Option<Seq<char>>,
    /// User name and password of a SQL Server login.
    pub login: Option<(Seq<char>, Seq<char>)>,
    pub trust: Trust,
}

/// The settings that a `tiberius::Config` holds.
pub uninterp spec fn config_settings(config: tiberius::Config) -> Settings;

/// Calls `tiberius::Config::new`. The new configuration names no host, port
/// or database, holds no login, and validates certificates against the
/// system's trust store.
#[verifier::external_body]
fn new_config() -> (config: tiberius::Config)
    ensures
        config_settings(config) == (Settings {
            host: None,
            port: None,
            database: None,
            login: None,
            trust: Trust::SystemStore,
        }),
{
    tiberius::Config::new()
}

/// Calls `tiberius::Config::host`, which sets the host and nothing else.
#[verifier::external_body]
fn set_host(config: &mut tiberius::Config, host: &str)
    ensures
        config_settings(*final(config)) == (Settings {
            host: Some(host@),
            ..config_settings(*old(config))
        }),
{
    config.host(host)
}

/// Calls `tiberius::Config::port`, which sets the port and nothing else.
#[verifier::external_body]
fn set_port(config: &mut tiberius::Config, port: u16)
    ensures
        config_settings(*final(config)) == (Settings {
            port: Some(port),
            ..config_settings(*old(config))
        }),
{
    config.port(port)
}

/// Calls `tiberius::Config::database`, which sets the database and nothing
/// else.
#[verifier::external_body]
fn set_database(config: &mut tiberius::Config, database: &str)
    ensures
        config_settings(*final(config)) == (Settings {
            database: Some(database@),
            ..config_settings(*old(config))
        }),
{
    config.database(database)
}

/// Calls `tiberius::Config::authentication` with the method that
/// `tiberius::AuthMethod::sql_server` makes from the user name and the
/// password. The configuration then holds that login; nothing else changes.
#[verifier::external_body]
fn set_sql_login(config: &mut tiberius::Config, user: &str, password: &str)
    ensures
        config_settings(*final(config)) == (Settings {
            login: Some((user@, password@)),
            ..config_settings(*old(config))
        }),
{
    config.authentication(tiberius::AuthMethod::sql_server(user, password))
}

/// Calls `tiberius::Config::trust_cert`, after which any server certificate
/// is accepted; nothing else changes. The call panics on a configuration
/// that was given a certificate authority file, so that is required not to
/// be the case.
#[verifier::external_body]
fn trust_any_certificate(config: &mut tiberius::Config)
    requires
        config_settings(*old(config)).trust != Trust::AuthorityFile,
    ensures
        config_settings(*final(config)) == (Settings {
            trust: Trust::Any,
            ..config_settings(*old(config))
        }),
{
    config.trust_cert()
}

/// Where the server is and how to log in to it.
#[derive(Clone, PartialEq, Eq)]
pub struct ConnectionDescriptor {
    pub host: String,
    pub port: u16,
    pub database: String,
    pub user: String,
    pub password: String,
    /// Whether the server's certificate is accepted without validation.
    pub trust_certificate: bool,
}

impl ConnectionDescriptor {
    /// The settings that the descriptor asks for.
    pub open spec fn settings(&self) -> Settings {
        Settings {
            host: Some(self.host@),
            port: Some(self.port),
            database: Some(self.database@),
            login: Some((self.user@, self.password@)),
            trust: if self.trust_certificate {
                Trust::Any
            } else {
                Trust::SystemStore
            },
        }
    }

    /// The client configuration for this descriptor: host, port, database
    /// and SQL Server login as given, and the server's certificate accepted
    /// unvalidated exactly where the descriptor says so.
    pub fn to_config(&self) -> (config: tiberius::Config)
        ensures
            config_settings(config) == self.settings(),
    {
        let mut config = new_config();
        set_host(&mut config, self.host.as_str());
        set_port(&mut config, self.port);
        set_database(&mut config, self.database.as_str());
        set_sql_login(&mut config, self.user.as_str(), self.password.as_str());
        if self.trust_certificate {
            trust_any_certificate(&mut config);
        }
        config
    }
}

} // verus!
