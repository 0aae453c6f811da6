//! The game database: the address of its connection pool, and the Postgres
//! types of its schema.

use vstd::prelude::*;
use crate::text::{decimal, push_decimal};

verus! {

/// The address a connection pool is opened with.
pub open spec fn connection_url_spec(user: Seq<char>, password: Seq<char>, host: Seq<char>, port: u16, database: Seq<char>) -> Seq<char> {
    "postgres://"@ + user + ":"@ + password + "@"@ + host + ":"@ + decimal(port as nat) + "/"@ + database
}

/// The address a connection pool is opened with.
pub fn connection_url(user: &str, password: &str, host: &str, port: u16, database: &str) -> (r: String)
    ensures
        r@ == connection_url_spec(user@, password@, host@, port, database@),
{
    let mut url = String::new();
    url.append("postgres://");
    url.append(user);
    url.append(":");
    url.append(password);
    url.append("@");
    url.append(host);
    url.append(":");
    push_decimal(&mut url, port as u64);
    url.append("/");
    url.append(database);
    url
}

/// The Postgres type `location`.
#[derive(Debug, Clone, Copy)]
pub struct Location;

/// The Postgres type `race`.
#[derive(Debug, Clone, Copy)]
pub struct Race;

/// The Postgres type `vector3`.
#[derive(Debug, Clone, Copy)]
pub struct Vector3;

impl Location {
    /// The name of the type in the database.
    pub fn postgres_type_name() -> (r: &'static str)
        ensures
            r == "location",
    {
        "location"
    }
}

impl Race {
    /// The name of the type in the database.
    pub fn postgres_type_name() -> (r: &'static str)
        ensures
            r == "race",
    {
        "race"
    }
}

impl Vector3 {
    /// The name of the type in the database.
    pub fn postgres_type_name() -> (r: &'static str)
        ensures
            r == "vector3",
    {
        "vector3"
    }
}

} // verus!
