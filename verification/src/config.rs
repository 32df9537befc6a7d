//! Configuration records: the root database credentials and the
//! management password. Loading them from the environment is the
//! surrounding application's work; the records themselves, and the one
//! default the loader applies, live here.

use vstd::prelude::*;

use vstd::string::StringExecFns;

verus! {

/// The management password the server was started with.
#[derive(Debug)]
pub struct ServerPassword(pub String);

/// Root credentials and coordinates of the database server.
#[derive(Debug)]
pub struct DatabaseConfig {
    /// Host of the database server.
    pub host: String,
    /// Port of the database server.
    pub port: u16,
    /// Root username used for provisioning.
    pub username: String,
    /// Root password used for provisioning.
    pub password: String,
    /// Secret-store entry holding the root credentials.
    pub root_secret_name: String,
}

impl Clone for DatabaseConfig {
    /// A clone is equal to the original in every field.
    fn clone(&self) -> (res: Self)
        ensures
            res == *self,
    {
        DatabaseConfig {
            host: self.host.clone(),
            port: self.port,
            username: self.username.clone(),
            password: self.password.clone(),
            root_secret_name: self.root_secret_name.clone(),
        }
    }
}

/// The secret name used when none is configured.
pub fn default_root_secret_name() -> (r: String)
    ensures
        r@ == "postgres/docbox/config"@,
{
    String::from_str("postgres/docbox/config")
}

/// The connection provider: opens a connection to any named logical
/// database with the fixed root credentials. Each call is independent;
/// the connecting itself is the surrounding application's work.
#[derive(Debug)]
pub struct DatabaseProvider {
    /// The credentials and coordinates every connection uses.
    pub config: DatabaseConfig,
}

} // verus!
