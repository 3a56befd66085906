//! Process configuration, read once at startup and immutable afterwards.
//! Loading it from the environment is the shell's business; this module owns
//! the value and the little that is decided from it.

use vstd::prelude::*;

verus! {

/// The decimal digit `d` as a one-character string view.
pub open spec fn spec_digit(d: nat) -> Seq<char> {
    if d == 0 {
        "0"@
    } else if d == 1 {
        "1"@
    } else if d == 2 {
        "2"@
    } else if d == 3 {
        "3"@
    } else if d == 4 {
        "4"@
    } else if d == 5 {
        "5"@
    } else if d == 6 {
        "6"@
    } else if d == 7 {
        "7"@
    } else if d == 8 {
        "8"@
    } else {
        "9"@
    }
}

/// The usual decimal rendering of `n`: most significant digit first, no
/// leading zero except for zero itself.
pub open spec fn spec_decimal(n: nat) -> Seq<char>
    decreases n,
{
    if n < 10 {
        spec_digit(n)
    } else {
        spec_decimal(n / 10) + spec_digit(n % 10)
    }
}

fn digit_str(d: u16) -> (r: &'static str)
    requires
        d < 10,
    ensures
        r@ == spec_digit(d as nat),
{
    match d {
        0 => "0",
        1 => "1",
        2 => "2",
        3 => "3",
        4 => "4",
        5 => "5",
        6 => "6",
        7 => "7",
        8 => "8",
        _ => "9",
    }
}

fn push_decimal(n: u16, out: &mut String)
    ensures
        final(out)@ == old(out)@ + spec_decimal(n as nat),
    decreases n,
{
    if n >= 10 {
        push_decimal(n / 10, out);
    }
    out.append(digit_str(n % 10));
    proof {
        if n >= 10 {
            assert(out@ =~= old(out)@ + spec_decimal(n as nat));
        }
    }
}

/// The base URL of the service's own API, `http://` before the host and the
/// port in decimal after it.
pub fn base_url_of(host: &str, port: u16) -> (r: String)
    ensures
        r@ == "http://"@ + host@ + ":"@ + spec_decimal(port as nat),
{
    let mut url: String = "http://".to_owned();
    url.append(host);
    url.append(":");
    push_decimal(port, &mut url);
    proof {
        assert(url@ =~= "http://"@ + host@ + ":"@ + spec_decimal(port as nat));
    }
    url
}

/// Everything the service reads at startup: where its own API listens, how
/// to reach the document store, the token secret, and which environment the
/// process believes it runs in.
pub struct Config {
    pub api_base_url: String,
    pub api_host: String,
    pub api_port: u16,
    pub couchdb_url: String,
    pub couchdb_user: String,
    pub couchdb_password: String,
    pub jwt_secret: String,
    pub environment: String,
}

impl Config {
    /// Whether the process runs in the development environment.
    pub fn is_development(&self) -> (r: bool)
        ensures
            r == (self.environment@ == "development"@),
    {
        let dev: String = "development".to_owned();
        self.environment == dev
    }

    /// Whether the process runs in the production environment.
    pub fn is_production(&self) -> (r: bool)
        ensures
            r == (self.environment@ == "production"@),
    {
        let prod: String = "production".to_owned();
        self.environment == prod
    }
}

} // verus!
