//! How the databases are reached.

use vstd::prelude::*;
use vstd::string::*;

verus! {

/// The port of a database server that none is given for.
pub const DEFAULT_PORT: &'static str = "5432";

/// The maintenance database of a server.
pub const ADMIN_DB: &'static str = "postgres";

/// Where a connection leads and who opens it.
pub struct Endpoint {
    pub host: String,
    pub port: Option<String>,
    pub user: String,
    pub password: String,
    pub db: String,
}

/// The port of an endpoint.
pub open spec fn port_of(port: Option<String>) -> Seq<char> {
    match port {
        Some(port) => port@,
        None => DEFAULT_PORT@,
    }
}

/// How a connection is asked for.
pub open spec fn connection_of(
    host: Seq<char>,
    port: Seq<char>,
    user: Seq<char>,
    password: Seq<char>,
    db: Seq<char>,
) -> Seq<char> {
    "host="@ + host + " port="@ + port + " user="@ + user + " password="@ + password + " dbname="@
        + db
}

/// How a connection to an endpoint is asked for.
pub fn connection_string(to: &Endpoint) -> (r: String)
    ensures
        r@ == connection_of(to.host@, port_of(to.port), to.user@, to.password@, to.db@),
{
    let port = match &to.port {
        Some(port) => port.as_str(),
        None => DEFAULT_PORT,
    };
    String::from_str("host=").concat(to.host.as_str()).concat(" port=").concat(port).concat(
        " user=",
    ).concat(to.user.as_str()).concat(" password=").concat(to.password.as_str()).concat(
        " dbname=",
    ).concat(to.db.as_str())
}

/// How a connection to an endpoint is asked for that has to be encrypted.
pub fn encrypted_connection_string(to: &Endpoint) -> (r: String)
    ensures
        r@ == connection_of(to.host@, port_of(to.port), to.user@, to.password@, to.db@)
            + " sslmode=require"@,
{
    connection_string(to).concat(" sslmode=require")
}

} // verus!
