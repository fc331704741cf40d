//! What a pool manager decides: its connection parameters, the settings of
//! the pools it builds, and when it gives up building one.
use vstd::prelude::*;
use std::str::FromStr;
use bb8::QueueStrategy;
use bb8_postgres::tokio_postgres;
use bb8_postgres::tokio_postgres::Config;
use crate::errors::ConnectorError;
use crate::errors::retries_exhausted_message;
use crate::errors::client_error_string;
use crate::errors::client_error_text;
use crate::text::decimal;
use crate::text::push_decimal;
use crate::text::opt_view;

verus! {

/// The connection configuration of the Postgres client, carried through
/// opaquely.
#[verifier::external_type_specification]
#[verifier::external_body]
pub struct ExConfig(Config);

/// bb8's queue strategy (FIFO or LIFO), carried through opaquely.
#[verifier::external_type_specification]
#[verifier::external_body]
pub struct ExQueueStrategy(QueueStrategy);

/// The key/value connection parameters of a server:
/// `"host=<host> port=<port> user=<user> password=<password>"`, followed by
/// `" dbname=<database>"` when a database is given.
pub open spec fn connection_params_text(
    host: Seq<char>,
    port: u16,
    user: Seq<char>,
    password: Seq<char>,
    database: Option<Seq<char>>,
) -> Seq<char> {
    "host="@ + host + " port="@ + decimal(port as nat) + " user="@ + user + " password="@ + password
        + match database {
        Some(db) => " dbname="@ + db,
        None => Seq::empty(),
    }
}

/// Builds the connection parameters of a server (see `connection_params_text`).
pub fn connection_params(
    host: &str,
    port: u16,
    user: &str,
    password: &str,
    database: Option<&str>,
) -> (r: String)
    ensures
        r@ == connection_params_text(host@, port, user@, password@, opt_view(database)),
        database is None ==> r@ == "host="@ + host@ + " port="@ + decimal(port as nat) + " user="@
            + user@ + " password="@ + password@,
        database matches Some(db) ==> r@ == "host="@ + host@ + " port="@ + decimal(port as nat)
            + " user="@ + user@ + " password="@ + password@ + " dbname="@ + db@,
{
    let mut out = "host=".to_owned();
    out.append(host);
    out.append(" port=");
    push_decimal(&mut out, port as u64);
    out.append(" user=");
    out.append(user);
    out.append(" password=");
    out.append(password);
    let ghost before = out@;
    match database {
        Some(db) => {
            out.append(" dbname=");
            out.append(db);
        },
        None => {},
    }
    assert(out@ =~= connection_params_text(host@, port, user@, password@, opt_view(database)));
    out
}

/// What `Config::from_str` of the Postgres client gives for `params`: the
/// parsed configuration, or the parse error.
pub uninterp spec fn parsed_config(params: Seq<char>) -> Result<Config, tokio_postgres::Error>;

/// Whether the Postgres client accepts the connection parameters `params`.
pub open spec fn config_parses(params: Seq<char>) -> bool {
    parsed_config(params) is Ok
}

/// `Config::from_str`: parses connection parameters; the result depends on
/// the text alone and is named `parsed_config`.
#[verifier::external_body]
fn parse_config(params: &str) -> (r: Result<Config, tokio_postgres::Error>)
    ensures
        r == parsed_config(params@),
{
    Config::from_str(params)
}

/// The parsed connection configuration of a server, from the parameters of
/// `connection_params`; an error exactly when the client does not accept
/// those parameters.
pub fn connection_config(
    host: &str,
    port: u16,
    user: &str,
    password: &str,
    database: Option<&str>,
) -> (r: Result<Config, tokio_postgres::Error>)
    ensures
        r == parsed_config(connection_params_text(host@, port, user@, password@, opt_view(database))),
{
    let params = connection_params(host, port, user, password, database);
    parse_config(params.as_str())
}

/// The connection data of one server, from which the pools of that server
/// are built: the parsed configuration and the TLS connector, with the
/// pause before the first build and the most builds to attempt.
#[verifier::reject_recursive_types(TLS)]
pub struct PoolManager<TLS> {
    /// Seconds to wait before the first build of a pool.
    pub first_connection_sleep_time: u64,
    /// The most builds attempted when retrying.
    pub max_retries: u32,
    config: Config,
    tls: TLS,
}

impl<TLS> PoolManager<TLS> {
    /// Seconds to wait before the first build of a pool.
    pub closed spec fn sleep_seconds(&self) -> u64 {
        self.first_connection_sleep_time
    }

    /// The most builds attempted when retrying.
    pub closed spec fn retry_limit(&self) -> u32 {
        self.max_retries
    }

    /// The TLS connector of the connections.
    pub closed spec fn tls_connector(&self) -> TLS {
        self.tls
    }

    /// The parsed connection configuration.
    pub closed spec fn connection_configuration(&self) -> Config {
        self.config
    }

    /// A manager for the server at `host:port`, logging in as `user` with
    /// `password`, into `database` if one is given. The client must accept
    /// the connection parameters (see `try_new` for when it does not).
    pub fn new(
        host: &str,
        port: u16,
        user: &str,
        password: &str,
        database: Option<&str>,
        first_connection_sleep_time: u64,
        max_retries: u32,
        tls: TLS,
    ) -> (r: Self)
        requires
            config_parses(connection_params_text(host@, port, user@, password@, opt_view(database))),
        ensures
            r.sleep_seconds() == first_connection_sleep_time,
            r.retry_limit() == max_retries,
            r.tls_connector() == tls,
            parsed_config(connection_params_text(host@, port, user@, password@, opt_view(database)))
                == Ok::<Config, tokio_postgres::Error>(r.connection_configuration()),
    {
        match connection_config(host, port, user, password, database) {
            Ok(config) => PoolManager {
                first_connection_sleep_time,
                max_retries,
                config,
                tls,
            },
            Err(_) => {
                assert(false);
                unreached()
            },
        }
    }

    /// As `new`, or `None` when the client does not accept the connection
    /// parameters.
    pub fn try_new(
        host: &str,
        port: u16,
        user: &str,
        password: &str,
        database: Option<&str>,
        first_connection_sleep_time: u64,
        max_retries: u32,
        tls: TLS,
    ) -> (r: Option<Self>)
        ensures
            r is Some <==> config_parses(
                connection_params_text(host@, port, user@, password@, opt_view(database)),
            ),
            r matches Some(m) ==> m.sleep_seconds() == first_connection_sleep_time
                && m.retry_limit() == max_retries && m.tls_connector() == tls && parsed_config(
                connection_params_text(host@, port, user@, password@, opt_view(database)),
            ) == Ok::<Config, tokio_postgres::Error>(m.connection_configuration()),
    {
        match connection_config(host, port, user, password, database) {
            Ok(_) => Some(
                Self::new(
                    host,
                    port,
                    user,
                    password,
                    database,
                    first_connection_sleep_time,
                    max_retries,
                    tls,
                ),
            ),
            Err(_) => None,
        }
    }

    /// Seconds to wait before the first build of a pool.
    pub fn first_connection_sleep_time(&self) -> (r: u64)
        ensures
            r == self.sleep_seconds(),
    {
        self.first_connection_sleep_time
    }

    /// The most builds attempted when retrying.
    pub fn max_retries(&self) -> (r: u32)
        ensures
            r == self.retry_limit(),
    {
        self.max_retries
    }

    /// The parsed connection configuration.
    pub fn config(&self) -> (r: &Config)
        ensures
            *r == self.connection_configuration(),
    {
        &self.config
    }

    /// The TLS connector of the connections.
    pub fn tls(&self) -> (r: &TLS)
        ensures
            *r == self.tls_connector(),
    {
        &self.tls
    }
}

/// The settings of the pools a manager builds.
pub struct PoolSettings {
    /// The most connections the pool holds.
    pub max_size: u32,
    /// The idle connections the pool tries to keep.
    pub min_idle: u32,
    /// The order in which waiting requests are served.
    pub queue_strategy: QueueStrategy,
    /// How long a request waits for a connection, in milliseconds.
    pub connection_timeout_millis: u64,
    /// How long a connection lives at most, in milliseconds; unlimited if none.
    pub max_lifetime_millis: Option<u64>,
}

/// `r` is the message `msg`.
pub open spec fn says(r: Option<&str>, msg: Seq<char>) -> bool {
    r matches Some(m) && m@ == msg
}

impl PoolSettings {
    /// The settings of a pool of `min_connections` to `max_connections`
    /// connections.
    pub fn new(
        min_connections: u32,
        max_connections: u32,
        connection_timeout_millis: u64,
        max_timeout_millis: Option<u64>,
        queue_strategy: QueueStrategy,
    ) -> (r: Self)
        ensures
            r.max_size == max_connections,
            r.min_idle == min_connections,
            r.queue_strategy == queue_strategy,
            r.connection_timeout_millis == connection_timeout_millis,
            r.max_lifetime_millis == max_timeout_millis,
    {
        PoolSettings {
            max_size: max_connections,
            min_idle: min_connections,
            queue_strategy,
            connection_timeout_millis,
            max_lifetime_millis: max_timeout_millis,
        }
    }

    /// Whether bb8 builds a pool with these settings: a positive size, a
    /// positive connection timeout, no zero lifetime, and no more idle
    /// connections than the size.
    pub open spec fn accepted(&self) -> bool {
        &&& self.max_size > 0
        &&& self.connection_timeout_millis > 0
        &&& self.max_lifetime_millis != Some(0u64)
        &&& self.min_idle <= self.max_size
    }

    /// Why bb8 refuses these settings, in the order in which its builder
    /// checks them (size, connection timeout, lifetime, then idle count at
    /// build time); `None` when they are accepted.
    pub fn rejection(&self) -> (r: Option<&'static str>)
        ensures
            r is None <==> self.accepted(),
            r is None <==> (self.max_size > 0 && self.connection_timeout_millis > 0
                && self.max_lifetime_millis != Some(0u64) && self.min_idle <= self.max_size),
            self.max_size == 0 ==> says(r, "max_size must be greater than zero!"@),
            self.max_size > 0 && self.connection_timeout_millis == 0 ==> says(
                r,
                "connection_timeout must be non-zero"@,
            ),
            self.max_size > 0 && self.connection_timeout_millis > 0 && self.max_lifetime_millis
                == Some(0u64) ==> says(r, "max_lifetime must be greater than zero!"@),
            self.max_size > 0 && self.connection_timeout_millis > 0 && self.max_lifetime_millis
                != Some(0u64) && self.min_idle > self.max_size ==> says(
                r,
                "min_idle must be no larger than max_size"@,
            ),
    {
        if self.max_size == 0 {
            Some("max_size must be greater than zero!")
        } else if self.connection_timeout_millis == 0 {
            Some("connection_timeout must be non-zero")
        } else if matches!(self.max_lifetime_millis, Some(0)) {
            Some("max_lifetime must be greater than zero!")
        } else if self.min_idle > self.max_size {
            Some("min_idle must be no larger than max_size")
        } else {
            None
        }
    }
}

/// The pause between two attempts to build a pool, in milliseconds.
pub const RETRY_DELAY_MILLIS: u64 = 250;

/// What to do after a pool failed to build.
pub enum PoolInitAction {
    /// Wait `delay_millis` milliseconds and build again; `attempts` builds
    /// have failed so far.
    Retry { attempts: u32, delay_millis: u64 },
    /// Stop, failing with this error.
    GiveUp(ConnectorError),
}

/// `r` stops with a pool error of message `msg`.
pub open spec fn gives_up_with(r: PoolInitAction, msg: Seq<char>) -> bool {
    r matches PoolInitAction::GiveUp(ConnectorError::PoolError(m)) && m@ == msg
}

/// Whether a manager stops after `attempts` failed builds: at once when it
/// does not retry, else once the attempts reach `max_retries`.
pub open spec fn gives_up(attempts: nat, max_retries: u32, retry_until_timeout: bool) -> bool {
    !retry_until_timeout || attempts >= max_retries
}

/// Whether `r` is what follows a failed build when `attempts_before` builds
/// had failed before it and it failed with the text `cause`: giving up
/// with the message that reports all failed builds and the cause, once
/// `gives_up` holds of them; otherwise another build after
/// `RETRY_DELAY_MILLIS`.
pub open spec fn decides_after_failure(
    r: PoolInitAction,
    attempts_before: u32,
    max_retries: u32,
    retry_until_timeout: bool,
    cause: Seq<char>,
) -> bool {
    if gives_up((attempts_before + 1) as nat, max_retries, retry_until_timeout) {
        gives_up_with(r, retries_exhausted_message((attempts_before + 1) as u32, cause))
    } else {
        r == (PoolInitAction::Retry {
            attempts: (attempts_before + 1) as u32,
            delay_millis: RETRY_DELAY_MILLIS,
        })
    }
}

/// Decides what follows a failed build, when `attempts_before` builds had
/// failed before this one and this one failed with the text `cause`.
pub fn after_failed_build(
    attempts_before: u32,
    max_retries: u32,
    retry_until_timeout: bool,
    cause: &str,
) -> (r: PoolInitAction)
    requires
        attempts_before < u32::MAX,
    ensures
        decides_after_failure(r, attempts_before, max_retries, retry_until_timeout, cause@),
        retry_until_timeout && attempts_before + 1 < max_retries ==> r == (PoolInitAction::Retry {
            attempts: (attempts_before + 1) as u32,
            delay_millis: 250,
        }),
        !retry_until_timeout || attempts_before + 1 >= max_retries ==> (r matches PoolInitAction::GiveUp(
            ConnectorError::PoolError(m),
        ) && m@ == "Max retries exceeded while initializing pool (attempted "@ + decimal(
            (attempts_before + 1) as nat,
        ) + "): "@ + cause@),
{
    let attempts = attempts_before + 1;
    if !retry_until_timeout || attempts >= max_retries {
        PoolInitAction::GiveUp(ConnectorError::retries_exhausted(attempts, cause))
    } else {
        PoolInitAction::Retry { attempts, delay_millis: RETRY_DELAY_MILLIS }
    }
}

/// Decides what follows a build that failed with the client error `err`
/// (see `after_failed_build`); the cause reported is the error's own text.
pub fn after_failed_build_with(
    attempts_before: u32,
    max_retries: u32,
    retry_until_timeout: bool,
    err: &tokio_postgres::Error,
) -> (r: PoolInitAction)
    requires
        attempts_before < u32::MAX,
    ensures
        decides_after_failure(
            r,
            attempts_before,
            max_retries,
            retry_until_timeout,
            client_error_text(*err),
        ),
        retry_until_timeout && attempts_before + 1 < max_retries ==> r == (PoolInitAction::Retry {
            attempts: (attempts_before + 1) as u32,
            delay_millis: 250,
        }),
        !retry_until_timeout || attempts_before + 1 >= max_retries ==> (r matches PoolInitAction::GiveUp(
            ConnectorError::PoolError(m),
        ) && m@ == "Max retries exceeded while initializing pool (attempted "@ + decimal(
            (attempts_before + 1) as nat,
        ) + "): "@ + client_error_text(*err)),
{
    let cause = client_error_string(err);
    after_failed_build(attempts_before, max_retries, retry_until_timeout, cause.as_str())
}

/// How many builds a manager whose builds all fail makes in all, when
/// `attempts` have failed so far: it builds again until `gives_up` holds.
pub open spec fn attempts_when_giving_up(attempts: nat, max_retries: u32, retry_until_timeout: bool) -> nat
    decreases max_retries - attempts,
{
    if gives_up(attempts + 1, max_retries, retry_until_timeout) {
        attempts + 1
    } else {
        attempts_when_giving_up(attempts + 1, max_retries, retry_until_timeout)
    }
}

/// The number of builds a manager makes before it gives up: `max_retries`
/// when it retries and that is more than one, else a single build.
pub open spec fn attempt_budget(max_retries: u32, retry_until_timeout: bool) -> nat {
    if retry_until_timeout && max_retries > 1 {
        max_retries as nat
    } else {
        1
    }
}

proof fn lemma_attempts_when_giving_up(attempts: nat, max_retries: u32, retry_until_timeout: bool)
    ensures
        attempts_when_giving_up(attempts, max_retries, retry_until_timeout) == if attempts + 1
            >= attempt_budget(max_retries, retry_until_timeout) {
            attempts + 1
        } else {
            attempt_budget(max_retries, retry_until_timeout)
        },
    decreases max_retries - attempts,
{
    if !gives_up(attempts + 1, max_retries, retry_until_timeout) {
        lemma_attempts_when_giving_up(attempts + 1, max_retries, retry_until_timeout);
    }
}

/// A manager whose every build fails makes exactly `attempt_budget` builds
/// before it gives up: one when it does not retry, `max_retries` (at least
/// one) when it does. Each decision on the way stays within `u32`.
pub proof fn law_builds_until_giving_up(max_retries: u32, retry_until_timeout: bool)
    ensures
        attempts_when_giving_up(0, max_retries, retry_until_timeout) == attempt_budget(
            max_retries,
            retry_until_timeout,
        ),
        !retry_until_timeout ==> attempts_when_giving_up(0, max_retries, retry_until_timeout) == 1,
        attempt_budget(max_retries, retry_until_timeout) <= u32::MAX,
        forall|a: nat|
            a < attempt_budget(max_retries, retry_until_timeout) ==> (#[trigger] gives_up(
                a + 1,
                max_retries,
                retry_until_timeout,
            ) <==> a + 1 == attempt_budget(max_retries, retry_until_timeout)),
{
    lemma_attempts_when_giving_up(0, max_retries, retry_until_timeout);
}

/// The connection parameters without a database are host, port, user and
/// password, in that order and unquoted; with a database `db` they are the
/// same text followed by `" dbname="` and `db`, whatever `db` is.
pub proof fn law_connection_params(
    host: Seq<char>,
    port: u16,
    user: Seq<char>,
    password: Seq<char>,
    db: Seq<char>,
)
    ensures
        connection_params_text(host, port, user, password, None) == "host="@ + host + " port="@
            + decimal(port as nat) + " user="@ + user + " password="@ + password,
        connection_params_text(host, port, user, password, Some(db)) == connection_params_text(
            host,
            port,
            user,
            password,
            None,
        ) + " dbname="@ + db,
{
    assert(connection_params_text(host, port, user, password, None) =~= "host="@ + host
        + " port="@ + decimal(port as nat) + " user="@ + user + " password="@ + password);
}

/// bb8 builds a pool with settings exactly when the size is positive, the
/// connection timeout is positive, the lifetime is not zero, and there are no
/// more idle connections than the size (a fixed-size pool, with as many idle
/// connections as its size, is accepted).
pub proof fn law_settings_accepted(s: PoolSettings)
    ensures
        s.accepted() <==> (s.max_size > 0 && s.connection_timeout_millis > 0
            && s.max_lifetime_millis != Some(0u64) && s.min_idle <= s.max_size),
        s.max_size > 0 && s.connection_timeout_millis > 0 && s.min_idle == s.max_size
            && s.max_lifetime_millis is None ==> s.accepted(),
{
}

/// After the `attempts_before + 1`-th failed build, a retrying manager builds
/// again after 250 ms while fewer than `max_retries` builds have failed; it
/// gives up once `max_retries` builds have failed, or at once when it does
/// not retry, with the message that reports the number of failed builds
/// and the cause.
pub proof fn law_retry_decision(
    r: PoolInitAction,
    attempts_before: u32,
    max_retries: u32,
    retry_until_timeout: bool,
    cause: Seq<char>,
)
    requires
        decides_after_failure(r, attempts_before, max_retries, retry_until_timeout, cause),
        attempts_before < u32::MAX,
    ensures
        retry_until_timeout && attempts_before + 1 < max_retries ==> r == (PoolInitAction::Retry {
            attempts: (attempts_before + 1) as u32,
            delay_millis: 250,
        }),
        !retry_until_timeout || attempts_before + 1 >= max_retries ==> (r matches PoolInitAction::GiveUp(
            ConnectorError::PoolError(m),
        ) && m@ == "Max retries exceeded while initializing pool (attempted "@ + decimal(
            (attempts_before + 1) as nat,
        ) + "): "@ + cause),
        r is Retry <==> attempts_before + 1 < attempt_budget(max_retries, retry_until_timeout),
{
}

} // verus!
