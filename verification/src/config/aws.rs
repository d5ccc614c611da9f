//! Database credentials as the secrets manager stores them.
use vstd::prelude::*;

verus! {

/// The credentials entry: database user, password and connect string, and
/// an optional document-store connect string.
pub struct OracleConnectInfo {
    pub user: String,
    pub password: String,
    pub connect_string: String,
    pub mongodb_connect_string: Option<String>,
}

} // verus!
