//! Connection parameters for the relational store, and the key=value
//! connection string they render to.

use vstd::prelude::*;
use vstd::string::*;
use crate::render::{dec_of, u64_text};

verus! {

/// Parameters of the relational store connection.
pub struct PostgresConfig {
    pub host: String,
    pub port: u16,
    pub username: String,
    pub password: String,
    pub dbname: String,
}

/// Mathematical image of `PostgresConfig`.
#[verifier::ext_equal]
pub struct PostgresConfigView {
    pub host: Seq<char>,
    pub port: u16,
    pub username: Seq<char>,
    pub password: Seq<char>,
    pub dbname: Seq<char>,
}

impl View for PostgresConfig {
    type V = PostgresConfigView;

    open spec fn view(&self) -> PostgresConfigView {
        PostgresConfigView {
            host: self.host@,
            port: self.port,
            username: self.username@,
            password: self.password@,
            dbname: self.dbname@,
        }
    }
}

/// The key=value connection string the store client is opened with.
pub open spec fn conn_string_of(c: PostgresConfigView) -> Seq<char> {
    "host="@ + c.host + " port="@ + dec_of(c.port as nat) + " user="@ + c.username + " password="@
        + c.password + " dbname="@ + c.dbname
}

impl PostgresConfig {
    /// Render the connection string for these parameters.
    pub fn connection_string(&self) -> (s: String)
        ensures
            s@ == conn_string_of(self@),
    {
        let mut s = String::new();
        s.append("host=");
        s.append(self.host.as_str());
        s.append(" port=");
        let port_text = u64_text(self.port as u64);
        s.append(port_text.as_str());
        s.append(" user=");
        s.append(self.username.as_str());
        s.append(" password=");
        s.append(self.password.as_str());
        s.append(" dbname=");
        s.append(self.dbname.as_str());
        proof {
            assert(s@ =~= conn_string_of(self@));
        }
        s
    }
}

} // verus!
