//! Where the database is: the connection settings are taken from a
//! connection URL where one is given, and from separate variables
//! otherwise, and a connection pool is made from them.

use vstd::prelude::*;

verus! {

/// The text of an optional string.
pub open spec fn opt_text(o: Option<String>) -> Option<Seq<char>> {
    match o {
        Some(s) => Some(s@),
        None => None,
    }
}

/// The texts of a list of optional strings, in order.
pub open spec fn opt_texts(v: Seq<Option<String>>) -> Seq<Option<Seq<char>>> {
    Seq::new(v.len(), |i: int| opt_text(v[i]))
}

/// Copies an optional string.
pub fn clone_opt(o: &Option<String>) -> (r: Option<String>)
    ensures
        opt_text(r) == opt_text(*o),
{
    match o {
        Some(s) => Some(s.clone()),
        None => None,
    }
}

/// The variables that say where the database is, each as it was found.
#[derive(Debug)]
pub struct DatabaseVars {
    /// A connection URL. Where it is there, the other variables are not
    /// looked at.
    pub url: Option<String>,
    pub user: Option<String>,
    pub password: Option<String>,
    pub host: Option<String>,
    pub port: Option<String>,
    pub dbname: Option<String>,
}

/// The mathematical content of [`DatabaseVars`].
pub ghost struct DatabaseVarsView {
    pub url: Option<Seq<char>>,
    pub user: Option<Seq<char>>,
    pub password: Option<Seq<char>>,
    pub host: Option<Seq<char>>,
    pub port: Option<Seq<char>>,
    pub dbname: Option<Seq<char>>,
}

impl View for DatabaseVars {
    type V = DatabaseVarsView;

    open spec fn view(&self) -> DatabaseVarsView {
        DatabaseVarsView {
            url: opt_text(self.url),
            user: opt_text(self.user),
            password: opt_text(self.password),
            host: opt_text(self.host),
            port: opt_text(self.port),
            dbname: opt_text(self.dbname),
        }
    }
}

/// What a connection URL holds, as far as the pool reads it. A host is
/// `None` where it is a socket path and not a host name.
#[derive(Debug)]
pub struct UrlParts {
    pub user: Option<String>,
    pub password: Option<String>,
    pub hosts: Vec<Option<String>>,
    pub ports: Vec<u16>,
    pub dbname: Option<String>,
}

/// The mathematical content of [`UrlParts`].
pub ghost struct UrlPartsView {
    pub user: Option<Seq<char>>,
    pub password: Option<Seq<char>>,
    pub hosts: Seq<Option<Seq<char>>>,
    pub ports: Seq<u16>,
    pub dbname: Option<Seq<char>>,
}

impl View for UrlParts {
    type V = UrlPartsView;

    open spec fn view(&self) -> UrlPartsView {
        UrlPartsView {
            user: opt_text(self.user),
            password: opt_text(self.password),
            hosts: opt_texts(self.hosts@),
            ports: self.ports@,
            dbname: opt_text(self.dbname),
        }
    }
}

/// The settings that a pool is made from.
#[derive(Debug)]
pub struct PoolSettings {
    pub user: Option<String>,
    pub password: Option<String>,
    pub host: Option<String>,
    pub port: Option<u16>,
    pub dbname: Option<String>,
}

/// The mathematical content of [`PoolSettings`].
pub ghost struct PoolSettingsView {
    pub user: Option<Seq<char>>,
    pub password: Option<Seq<char>>,
    pub host: Option<Seq<char>>,
    pub port: Option<u16>,
    pub dbname: Option<Seq<char>>,
}

impl View for PoolSettings {
    type V = PoolSettingsView;

    open spec fn view(&self) -> PoolSettingsView {
        PoolSettingsView {
            user: opt_text(self.user),
            password: opt_text(self.password),
            host: opt_text(self.host),
            port: self.port,
            dbname: opt_text(self.dbname),
        }
    }
}

/// Why no pool could be made.
#[derive(Debug, Clone, Copy, PartialEq, Eq, Structural)]
pub enum PoolSetupError {
    /// The connection URL could not be parsed.
    InvalidUrl,
    /// The settings name no database.
    MissingDatabaseName,
}

/// A pool of database connections, `deadpool_postgres::Pool`.
#[verifier::external_body]
pub struct DbPool {
    pub inner: deadpool_postgres::Pool,
}

/// What `tokio_postgres::Config` reads out of a connection string, or `None`
/// where it refuses the string. A host that begins with a slash is a socket
/// path on Unix targets, which this is stated for.
pub uninterp spec fn parsed_url(url: Seq<char>) -> Option<UrlPartsView>;

/// Parses a connection string with `tokio_postgres::Config::from_str` and
/// reads the user, the password, the hosts, the ports and the database name
/// out of what it returns. A password that is not UTF-8 is made text with
/// `String::from_utf8_lossy`.
///
/// Trusted: the outcome depends on the string alone.
#[verifier::external_body]
pub(crate) fn parse_url(url: &String) -> (r: Option<UrlParts>)
    ensures
        r is Some <==> parsed_url(url@) is Some,
        r matches Some(parts) ==> parsed_url(url@) == Some(parts@),
{
    let parsed = url.parse::<tokio_postgres::Config>().ok()?;
    Some(UrlParts {
        user: parsed.get_user().map(str::to_string),
        password: parsed.get_password().map(|p| String::from_utf8_lossy(p).to_string()),
        hosts: parsed.get_hosts().iter().map(|h| match h {
            tokio_postgres::config::Host::Tcp(name) => Some(name.clone()),
            _ => None,
        }).collect(),
        ports: parsed.get_ports().to_vec(),
        dbname: parsed.get_dbname().map(str::to_string),
    })
}

/// The settings that a pool was made from: what was put into the
/// `deadpool_postgres::Config` that made it. The pool keeps them in the
/// connection configuration of its manager, where a user that was not given
/// is filled in from the variable `USER`, and a host that was not given from
/// the usual socket directories.
pub uninterp spec fn pool_origin(pool: DbPool) -> PoolSettingsView;

/// The settings name a database.
pub open spec fn names_database(settings: PoolSettingsView) -> bool {
    settings.dbname matches Some(name) && name.len() > 0
}

/// Fills a `deadpool_postgres::Config` with the settings and calls its
/// `create_pool` with the Tokio runtime and without TLS.
///
/// Trusted: a pool is made exactly where the settings name a database, and
/// it is made from these settings and no others. No connection is opened by
/// this call.
#[verifier::external_body]
pub(crate) fn build_pool(settings: &PoolSettings) -> (r: Option<DbPool>)
    ensures
        r is Some <==> names_database(settings@),
        r matches Some(pool) ==> pool_origin(pool) == settings@,
{
    let mut cfg = deadpool_postgres::Config::new();
    cfg.user = settings.user.clone();
    cfg.password = settings.password.clone();
    cfg.host = settings.host.clone();
    cfg.port = settings.port;
    cfg.dbname = settings.dbname.clone();
    let pool = cfg.create_pool(Some(deadpool_postgres::Runtime::Tokio1), tokio_postgres::NoTls);
    pool.ok().map(|inner| DbPool { inner })
}

/// A decimal digit.
pub open spec fn is_digit(c: char) -> bool {
    '0' <= c && c <= '9'
}

/// The number that a string of digits writes.
pub open spec fn decimal(digits: Seq<char>) -> int
    decreases digits.len(),
{
    if digits.len() == 0 {
        0
    } else {
        decimal(digits.drop_last()) * 10 + (digits.last() as int - '0' as int)
    }
}

/// The digits of a port: the text without a leading plus sign.
pub open spec fn port_digits(text: Seq<char>) -> Seq<char> {
    if text.len() > 0 && text[0] == '+' {
        text.skip(1)
    } else {
        text
    }
}

/// The port that a text writes: one or more decimal digits, after at most
/// one plus sign, that make a number of at most 65535.
pub open spec fn port_of(text: Seq<char>) -> Option<u16> {
    let digits = port_digits(text);
    if digits.len() > 0 && (forall|i: int| 0 <= i < digits.len() ==> is_digit(#[trigger] digits[i]))
        && decimal(digits) <= 65535 {
        Some(decimal(digits) as u16)
    } else {
        None
    }
}

/// The number that digits write does not shrink when more digits follow.
proof fn lemma_decimal_grows(digits: Seq<char>, n: int)
    requires
        0 <= n <= digits.len(),
        forall|i: int| 0 <= i < digits.len() ==> is_digit(#[trigger] digits[i]),
    ensures
        0 <= decimal(digits.take(n)) <= decimal(digits),
    decreases digits.len() - n,
{
    if n == digits.len() {
        assert(digits.take(n) =~= digits);
        lemma_decimal_nonnegative(digits);
    } else {
        lemma_decimal_grows(digits, n + 1);
        assert(digits.take(n + 1).drop_last() =~= digits.take(n));
        assert(is_digit(digits[n]));
        assert(digits.take(n + 1).last() == digits[n]);
        lemma_decimal_nonnegative(digits.take(n));
    }
}

/// The number that digits write is not negative.
proof fn lemma_decimal_nonnegative(digits: Seq<char>)
    requires
        forall|i: int| 0 <= i < digits.len() ==> is_digit(#[trigger] digits[i]),
    ensures
        0 <= decimal(digits),
    decreases digits.len(),
{
    if digits.len() > 0 {
        lemma_decimal_nonnegative(digits.drop_last());
        assert(is_digit(digits[digits.len() - 1]));
    }
}

/// Reads a port number as `u16` is read from text: decimal digits after an
/// optional plus sign, nothing else, and no more than fits.
pub fn parse_port(text: &str) -> (r: Option<u16>)
    ensures
        r == port_of(text@),
{
    let len = text.unicode_len();
    let start: usize = if len > 0 && text.get_char(0) == '+' {
        1
    } else {
        0
    };
    let ghost digits = port_digits(text@);
    assert(digits =~= text@.skip(start as int));
    if start == len {
        return None;
    }
    let mut value: u32 = 0;
    let mut i: usize = start;
    while i < len
        invariant
            start <= i <= len,
            len == text@.len(),
            digits == text@.skip(start as int),
            digits == port_digits(text@),
            forall|j: int| 0 <= j < i - start ==> is_digit(#[trigger] digits[j]),
            value == decimal(digits.take(i - start)),
            value <= 65535,
        decreases len - i,
    {
        let c = text.get_char(i);
        assert(digits[i - start] == c);
        if !(c >= '0' && c <= '9') {
            assert(!is_digit(digits[i - start]));
            return None;
        }
        let digit: u32 = c as u32 - '0' as u32;
        proof {
            assert(digits.take(i - start + 1).drop_last() =~= digits.take(i - start));
            assert(digits.take(i - start + 1).last() == c);
            assert(decimal(digits.take(i - start + 1)) == value * 10 + digit);
        }
        if value * 10 + digit > 65535 {
            proof {
                if forall|j: int| 0 <= j < digits.len() ==> is_digit(#[trigger] digits[j]) {
                    lemma_decimal_grows(digits, i - start + 1);
                }
            }
            return None;
        }
        value = value * 10 + digit;
        i += 1;
    }
    assert(digits.take(i - start) =~= digits);
    Some(value as u16)
}

/// The settings that a parsed connection URL gives: its user, password and
/// database name, the first host where that is a host name, and the first
/// port.
pub open spec fn url_settings(parts: UrlPartsView) -> PoolSettingsView {
    PoolSettingsView {
        user: parts.user,
        password: parts.password,
        host: if parts.hosts.len() > 0 {
            parts.hosts[0]
        } else {
            None
        },
        port: if parts.ports.len() > 0 {
            Some(parts.ports[0])
        } else {
            None
        },
        dbname: parts.dbname,
    }
}

/// The settings that the separate variables give: each as it was found, and
/// the port where its text writes one.
pub open spec fn var_settings(vars: DatabaseVarsView) -> PoolSettingsView {
    PoolSettingsView {
        user: vars.user,
        password: vars.password,
        host: vars.host,
        port: match vars.port {
            Some(text) => port_of(text),
            None => None,
        },
        dbname: vars.dbname,
    }
}

/// The settings that the variables give: those of the connection URL
/// where there is one, and none where that cannot be parsed; else those of
/// the separate variables.
pub open spec fn settings_of(vars: DatabaseVarsView) -> Option<PoolSettingsView> {
    match vars.url {
        Some(url) => match parsed_url(url) {
            Some(parts) => Some(url_settings(parts)),
            None => None,
        },
        None => Some(var_settings(vars)),
    }
}

/// The settings that a parsed connection URL gives.
pub fn settings_from_url(parts: &UrlParts) -> (r: PoolSettings)
    ensures
        r@ == url_settings(parts@),
{
    let host = if parts.hosts.len() > 0 {
        clone_opt(&parts.hosts[0])
    } else {
        None
    };
    let port = if parts.ports.len() > 0 {
        Some(parts.ports[0])
    } else {
        None
    };
    PoolSettings {
        user: clone_opt(&parts.user),
        password: clone_opt(&parts.password),
        host,
        port,
        dbname: clone_opt(&parts.dbname),
    }
}

/// The settings that the separate variables give.
pub fn settings_from_vars(vars: &DatabaseVars) -> (r: PoolSettings)
    ensures
        r@ == var_settings(vars@),
{
    let port = match &vars.port {
        Some(text) => parse_port(text.as_str()),
        None => None,
    };
    PoolSettings {
        user: clone_opt(&vars.user),
        password: clone_opt(&vars.password),
        host: clone_opt(&vars.host),
        port,
        dbname: clone_opt(&vars.dbname),
    }
}

/// The settings that the variables give, or `None` where they hold a
/// connection URL that cannot be parsed.
pub fn pool_settings(vars: &DatabaseVars) -> (r: Option<PoolSettings>)
    ensures
        r is Some <==> settings_of(vars@) is Some,
        r matches Some(settings) ==> settings_of(vars@) == Some(settings@),
{
    match &vars.url {
        Some(url) => match parse_url(url) {
            Some(parts) => Some(settings_from_url(&parts)),
            None => None,
        },
        None => Some(settings_from_vars(vars)),
    }
}

/// The error that making a pool from the variables ends in, if any.
pub open spec fn pool_outcome(vars: DatabaseVarsView) -> Option<PoolSetupError> {
    match settings_of(vars) {
        None => Some(PoolSetupError::InvalidUrl),
        Some(settings) => if names_database(settings) {
            None
        } else {
            Some(PoolSetupError::MissingDatabaseName)
        },
    }
}

/// Makes a connection pool from the variables that say where the database
/// is: from the settings that they give, as [`settings_of`] says. No
/// connection is opened yet.
pub fn create_pool(vars: &DatabaseVars) -> (r: Result<DbPool, PoolSetupError>)
    ensures
        r is Ok <==> pool_outcome(vars@) is None,
        r matches Ok(pool) ==> settings_of(vars@) == Some(pool_origin(pool)),
        r matches Err(error) ==> pool_outcome(vars@) == Some(error),
{
    match pool_settings(vars) {
        None => Err(PoolSetupError::InvalidUrl),
        Some(settings) => match build_pool(&settings) {
            Some(pool) => Ok(pool),
            None => Err(PoolSetupError::MissingDatabaseName),
        },
    }
}

} // verus!
