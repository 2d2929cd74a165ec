//! Connection context: what the run needs to reach the database.

use vstd::prelude::*;
use crate::error::Error;

verus! {

/// The connection parameters of one run. The driver's own context handle is
/// an external collaborator; this holds the plain values the run decides
/// with.
#[derive(Debug)]
pub struct Context {
    /// Connection string.
    pub conn_string: String,
    /// Username used for db connection.
    pub username: String,
    /// Password used for db connection.
    pub password: String,
}

impl Context {
    /// Build a context from its three parameters.
    pub fn new(conn_string: String, username: String, password: String) -> (c: Context)
        ensures
            c.conn_string@ == conn_string@,
            c.username@ == username@,
            c.password@ == password@,
    {
        Context { conn_string, username, password }
    }

    /// Build a context from the optional command line values: every one of
    /// the three is required, and any absence is the connection-string
    /// configuration error, before any database work begins.
    pub fn from_args(
        conn_string: Option<String>,
        username: Option<String>,
        password: Option<String>,
    ) -> (r: Result<Context, Error>)
        ensures
            r is Ok <==> (conn_string is Some && username is Some && password is Some),
            r is Ok ==> {
                &&& r->Ok_0.conn_string@ == conn_string->0@
                &&& r->Ok_0.username@ == username->0@
                &&& r->Ok_0.password@ == password->0@
            },
            r is Err ==> r->Err_0 is ConnectionString,
    {
        let c = match conn_string {
            Option::Some(c) => c,
            Option::None => {
                return Result::Err(Error::ConnectionString);
            },
        };
        let u = match username {
            Option::Some(u) => u,
            Option::None => {
                return Result::Err(Error::ConnectionString);
            },
        };
        let p = match password {
            Option::Some(p) => p,
            Option::None => {
                return Result::Err(Error::ConnectionString);
            },
        };
        Result::Ok(Context { conn_string: c, username: u, password: p })
    }

    /// Connection string.
    pub fn conn_string(&self) -> (s: &String)
        ensures
            s@ == self.conn_string@,
    {
        &self.conn_string
    }

    /// Username used for db connection.
    pub fn username(&self) -> (s: &String)
        ensures
            s@ == self.username@,
    {
        &self.username
    }

    /// Password used for db connection.
    pub fn password(&self) -> (s: &String)
        ensures
            s@ == self.password@,
    {
        &self.password
    }
}

} // verus!
