//! Errors of the connector, their classification and their rendering.
use vstd::prelude::*;
use bb8::RunError;
use bb8_postgres::tokio_postgres;
use bb8_postgres::tokio_postgres::error::DbError;
use bb8_postgres::tokio_postgres::error::SqlState;
use crate::text::decimal;
use crate::text::push_decimal;
use crate::text::opt_view;
use crate::text::opt_string_view;

verus! {

/// The error of the Postgres client, carried through opaquely.
#[verifier::external_type_specification]
#[verifier::external_body]
pub struct ExPgError(tokio_postgres::Error);

/// A server-reported error record of the Postgres client.
#[verifier::external_type_specification]
#[verifier::external_body]
pub struct ExDbError(DbError);

/// A SQLSTATE code of the Postgres client.
#[verifier::external_type_specification]
#[verifier::external_body]
pub struct ExSqlState(SqlState);

/// The error of a bb8 pool operation: a user (connection) error or a timeout.
#[verifier::external_type_specification]
#[verifier::external_body]
#[verifier::reject_recursive_types(E)]
pub struct ExRunError<E>(RunError<E>);

/// The server error record behind a client error, if there is one
/// (what `tokio_postgres::Error::as_db_error` returns).
pub uninterp spec fn server_record(err: tokio_postgres::Error) -> Option<DbError>;

/// `tokio_postgres::Error::as_db_error`: the server error record found by a
/// downcast of the error's cause; its result is named `server_record`.
pub assume_specification[ tokio_postgres::Error::as_db_error ](err: &tokio_postgres::Error) -> (r:
    Option<&DbError>)
    ensures
        match r {
            Some(d) => server_record(*err) == Some(*d),
            None => server_record(*err) is None,
        },
;

/// The SQLSTATE of a server error record (what `DbError::code` returns).
pub uninterp spec fn record_sqlstate(db: DbError) -> SqlState;

/// The text of a SQLSTATE: its five-character code, or for a code the
/// client does not know, the code as the server sent it (what
/// `SqlState::code` returns).
pub uninterp spec fn sqlstate_text(state: SqlState) -> Seq<char>;

/// The primary message of a record (what `DbError::message` returns).
pub uninterp spec fn record_message(db: DbError) -> Seq<char>;

/// The detail of a record (what `DbError::detail` returns).
pub uninterp spec fn record_detail(db: DbError) -> Option<Seq<char>>;

/// The hint of a record (what `DbError::hint` returns).
pub uninterp spec fn record_hint(db: DbError) -> Option<Seq<char>>;

/// The schema of a record (what `DbError::schema` returns).
pub uninterp spec fn record_schema(db: DbError) -> Option<Seq<char>>;

/// The table of a record (what `DbError::table` returns).
pub uninterp spec fn record_table(db: DbError) -> Option<Seq<char>>;

/// The column of a record (what `DbError::column` returns).
pub uninterp spec fn record_column(db: DbError) -> Option<Seq<char>>;

/// The data type of a record (what `DbError::datatype` returns).
pub uninterp spec fn record_datatype(db: DbError) -> Option<Seq<char>>;

/// The constraint of a record (what `DbError::constraint` returns).
pub uninterp spec fn record_constraint(db: DbError) -> Option<Seq<char>>;

/// The context trace of a record (what `DbError::where_` returns).
pub uninterp spec fn record_where(db: DbError) -> Option<Seq<char>>;

/// The source file of a record (what `DbError::file` returns).
pub uninterp spec fn record_file(db: DbError) -> Option<Seq<char>>;

/// The source line of a record (what `DbError::line` returns).
pub uninterp spec fn record_line(db: DbError) -> Option<u32>;

/// The source routine of a record (what `DbError::routine` returns).
pub uninterp spec fn record_routine(db: DbError) -> Option<Seq<char>>;

/// `DbError::code`: the record's SQLSTATE field, named `record_sqlstate`.
pub assume_specification[ DbError::code ](db: &DbError) -> (r: &SqlState)
    ensures
        *r == record_sqlstate(*db),
;

/// `SqlState::code`: the code's text, named `sqlstate_text`.
pub assume_specification[ SqlState::code ](state: &SqlState) -> (r: &str)
    ensures
        r@ == sqlstate_text(*state),
;

/// `DbError::message`: the record's message field, named `record_message`.
pub assume_specification[ DbError::message ](db: &DbError) -> (r: &str)
    ensures
        r@ == record_message(*db),
;

/// `DbError::detail`: the record's detail field, named `record_detail`.
pub assume_specification[ DbError::detail ](db: &DbError) -> (r: Option<&str>)
    ensures
        opt_view(r) == record_detail(*db),
;

/// `DbError::hint`: the record's hint field, named `record_hint`.
pub assume_specification[ DbError::hint ](db: &DbError) -> (r: Option<&str>)
    ensures
        opt_view(r) == record_hint(*db),
;

/// `DbError::schema`: the record's schema field, named `record_schema`.
pub assume_specification[ DbError::schema ](db: &DbError) -> (r: Option<&str>)
    ensures
        opt_view(r) == record_schema(*db),
;

/// `DbError::table`: the record's table field, named `record_table`.
pub assume_specification[ DbError::table ](db: &DbError) -> (r: Option<&str>)
    ensures
        opt_view(r) == record_table(*db),
;

/// `DbError::column`: the record's column field, named `record_column`.
pub assume_specification[ DbError::column ](db: &DbError) -> (r: Option<&str>)
    ensures
        opt_view(r) == record_column(*db),
;

/// `DbError::datatype`: the record's data type field, named `record_datatype`.
pub assume_specification[ DbError::datatype ](db: &DbError) -> (r: Option<&str>)
    ensures
        opt_view(r) == record_datatype(*db),
;

/// `DbError::constraint`: the record's constraint field, named
/// `record_constraint`.
pub assume_specification[ DbError::constraint ](db: &DbError) -> (r: Option<&str>)
    ensures
        opt_view(r) == record_constraint(*db),
;

/// `DbError::where_`: the record's context field, named `record_where`.
pub assume_specification[ DbError::where_ ](db: &DbError) -> (r: Option<&str>)
    ensures
        opt_view(r) == record_where(*db),
;

/// `DbError::file`: the record's file field, named `record_file`.
pub assume_specification[ DbError::file ](db: &DbError) -> (r: Option<&str>)
    ensures
        opt_view(r) == record_file(*db),
;

/// `DbError::line`: the record's line field, named `record_line`.
pub assume_specification[ DbError::line ](db: &DbError) -> (r: Option<u32>)
    ensures
        r == record_line(*db),
;

/// `DbError::routine`: the record's routine field, named `record_routine`.
pub assume_specification[ DbError::routine ](db: &DbError) -> (r: Option<&str>)
    ensures
        opt_view(r) == record_routine(*db),
;

/// The client error inside a pool error: `Some` for `RunError::User`,
/// `None` for `RunError::TimedOut`.
pub uninterp spec fn pool_user_error(err: RunError<tokio_postgres::Error>) -> Option<
    tokio_postgres::Error,
>;

/// `RunError::User` / `RunError::TimedOut`: tells the variants of a pool
/// error apart, moving out the user error; the result is named
/// `pool_user_error`.
#[verifier::external_body]
fn run_error_user(err: RunError<tokio_postgres::Error>) -> (r: Option<tokio_postgres::Error>)
    ensures
        r == pool_user_error(err),
{
    match err {
        RunError::User(e) => Some(e),
        RunError::TimedOut => None,
    }
}

/// The text of a client error, as its `Display` writes it.
pub uninterp spec fn client_error_text(err: tokio_postgres::Error) -> Seq<char>;

/// `<tokio_postgres::Error as Display>`, through `to_string`: the text
/// depends only on the error's kind; it is named `client_error_text`.
#[verifier::external_body]
pub(crate) fn client_error_string(err: &tokio_postgres::Error) -> (r: String)
    ensures
        r@ == client_error_text(*err),
{
    err.to_string()
}

/// The fields of a server-reported Postgres error.
#[derive(Debug)]
pub struct PostgresDetailedError {
    pub code: String,
    pub message: String,
    pub detail: Option<String>,
    pub hint: Option<String>,
    pub schema: Option<String>,
    pub table: Option<String>,
    pub column: Option<String>,
    pub datatype: Option<String>,
    pub constraint: Option<String>,
    pub where_context: Option<String>,
    pub file: Option<String>,
    pub line: Option<u32>,
    pub routine: Option<String>,
}

/// `label` followed by the value, or nothing when there is no value.
pub open spec fn labeled(label: Seq<char>, value: Option<String>) -> Seq<char> {
    match value {
        Some(v) => label + v@,
        None => Seq::empty(),
    }
}

/// The source location part: `"\nFile: <file>:<line>"`, the line being 0
/// when unknown; nothing when the file is unknown.
pub open spec fn file_part(file: Option<String>, line: Option<u32>) -> Seq<char> {
    match file {
        Some(f) => "\nFile: "@ + f@ + ":"@ + decimal(
            match line {
                Some(l) => l as nat,
                None => 0,
            },
        ),
        None => Seq::empty(),
    }
}

fn owned(value: Option<&str>) -> (r: Option<String>)
    ensures
        opt_string_view(r) == opt_view(value),
{
    match value {
        Some(v) => Some(v.to_owned()),
        None => None,
    }
}

fn push_labeled(out: &mut String, label: &str, value: &Option<String>)
    ensures
        final(out)@ == old(out)@ + labeled(label@, *value),
{
    match value {
        Some(v) => {
            out.append(label);
            out.append(v.as_str());
            assert(final(out)@ =~= old(out)@ + labeled(label@, *value));
        },
        None => {
            assert(final(out)@ =~= old(out)@ + labeled(label@, *value));
        },
    }
}

impl PostgresDetailedError {
    /// The rendered text: `"Postgres Error [<code>]: <message>"`, then one line
    /// each for detail, hint, schema, table, column, constraint and context
    /// where present, then the source location when the file is known.
    /// The data type and the routine are not rendered.
    pub open spec fn rendered(&self) -> Seq<char> {
        "Postgres Error ["@ + self.code@ + "]: "@ + self.message@
            + labeled("\nDetail: "@, self.detail)
            + labeled("\nHint: "@, self.hint)
            + labeled("\nSchema: "@, self.schema)
            + labeled("\nTable: "@, self.table)
            + labeled("\nColumn: "@, self.column)
            + labeled("\nConstraint: "@, self.constraint)
            + labeled("\nWhere: "@, self.where_context)
            + file_part(self.file, self.line)
    }

    /// Renders the error as text (see `rendered`).
    pub fn to_string(&self) -> (r: String)
        ensures
            r@ == self.rendered(),
    {
        let mut out = "Postgres Error [".to_owned();
        out.append(self.code.as_str());
        out.append("]: ");
        out.append(self.message.as_str());
        push_labeled(&mut out, "\nDetail: ", &self.detail);
        push_labeled(&mut out, "\nHint: ", &self.hint);
        push_labeled(&mut out, "\nSchema: ", &self.schema);
        push_labeled(&mut out, "\nTable: ", &self.table);
        push_labeled(&mut out, "\nColumn: ", &self.column);
        push_labeled(&mut out, "\nConstraint: ", &self.constraint);
        push_labeled(&mut out, "\nWhere: ", &self.where_context);
        let ghost before = out@;
        match &self.file {
            Some(f) => {
                out.append("\nFile: ");
                out.append(f.as_str());
                out.append(":");
                let line: u32 = match self.line {
                    Some(l) => l,
                    None => 0,
                };
                push_decimal(&mut out, line as u64);
                assert(out@ =~= before + file_part(self.file, self.line));
            },
            None => {
                assert(out@ =~= before + file_part(self.file, self.line));
            },
        }
        assert(out@ =~= self.rendered());
        out
    }

    /// Whether these fields are those of the server error record `db`:
    /// its SQLSTATE text, message, line, and each optional text field.
    pub open spec fn copies_record(&self, db: DbError) -> bool {
        &&& self.code@ == sqlstate_text(record_sqlstate(db))
        &&& self.message@ == record_message(db)
        &&& opt_string_view(self.detail) == record_detail(db)
        &&& opt_string_view(self.hint) == record_hint(db)
        &&& opt_string_view(self.schema) == record_schema(db)
        &&& opt_string_view(self.table) == record_table(db)
        &&& opt_string_view(self.column) == record_column(db)
        &&& opt_string_view(self.datatype) == record_datatype(db)
        &&& opt_string_view(self.constraint) == record_constraint(db)
        &&& opt_string_view(self.where_context) == record_where(db)
        &&& opt_string_view(self.file) == record_file(db)
        &&& self.line == record_line(db)
        &&& opt_string_view(self.routine) == record_routine(db)
    }

    /// Copies the fields of a server error record.
    fn from_db_error(db: &DbError) -> (r: Self)
        ensures
            r.copies_record(*db),
            r.code@ == sqlstate_text(record_sqlstate(*db)),
            r.message@ == record_message(*db),
            opt_string_view(r.detail) == record_detail(*db),
            opt_string_view(r.hint) == record_hint(*db),
            opt_string_view(r.schema) == record_schema(*db),
            opt_string_view(r.table) == record_table(*db),
            opt_string_view(r.column) == record_column(*db),
            opt_string_view(r.datatype) == record_datatype(*db),
            opt_string_view(r.constraint) == record_constraint(*db),
            opt_string_view(r.where_context) == record_where(*db),
            opt_string_view(r.file) == record_file(*db),
            r.line == record_line(*db),
            opt_string_view(r.routine) == record_routine(*db),
    {
        PostgresDetailedError {
            code: db.code().code().to_owned(),
            message: db.message().to_owned(),
            detail: owned(db.detail()),
            hint: owned(db.hint()),
            schema: owned(db.schema()),
            table: owned(db.table()),
            column: owned(db.column()),
            datatype: owned(db.datatype()),
            constraint: owned(db.constraint()),
            where_context: owned(db.where_()),
            file: owned(db.file()),
            line: db.line(),
            routine: owned(db.routine()),
        }
    }
}

/// An error of the connector.
#[derive(Debug)]
pub enum ConnectorError {
    /// The Postgres client failed without a server error record
    /// (I/O, TLS, configuration, ...).
    ConnectionError(tokio_postgres::Error),
    /// The server reported an error.
    PostgresError(PostgresDetailedError),
    /// The pool could not be set up; the message says why.
    PoolError(String),
    /// Waiting for a pooled connection timed out.
    TimeoutError,
}

/// The message of a pool that gave up after `attempts` failed builds, the
/// last one failing with `cause`.
pub open spec fn retries_exhausted_message(attempts: u32, cause: Seq<char>) -> Seq<char> {
    "Max retries exceeded while initializing pool (attempted "@ + decimal(attempts as nat) + "): "@
        + cause
}

/// Whether `r` is the conversion of the client error `err`: with a server
/// error record behind `err`, a `PostgresError` whose fields copy that
/// record; without one, `ConnectionError(err)`.
pub open spec fn converts_client_error(r: ConnectorError, err: tokio_postgres::Error) -> bool {
    match server_record(err) {
        Some(db) => r matches ConnectorError::PostgresError(d) && d.copies_record(db),
        None => r == ConnectorError::ConnectionError(err),
    }
}

/// Whether `r` is the conversion of the pool error `err`: `TimeoutError`
/// for a timeout, the conversion of the client error otherwise.
pub open spec fn converts_pool_error(r: ConnectorError, err: RunError<tokio_postgres::Error>) -> bool {
    match pool_user_error(err) {
        Some(e) => converts_client_error(r, e),
        None => r == ConnectorError::TimeoutError,
    }
}

impl ConnectorError {
    /// Classifies a client error: with the fields of a server error record it
    /// is a `PostgresError` carrying them, without one a `ConnectionError`
    /// carrying the client error itself.
    pub fn classify(err: tokio_postgres::Error, details: Option<PostgresDetailedError>) -> (r: Self)
        ensures
            match details {
                Some(d) => r == ConnectorError::PostgresError(d),
                None => r == ConnectorError::ConnectionError(err),
            },
    {
        match details {
            Some(d) => ConnectorError::PostgresError(d),
            None => ConnectorError::ConnectionError(err),
        }
    }

    /// Converts a client error: a server-reported error becomes a
    /// `PostgresError` with the record's fields, any other a
    /// `ConnectionError` holding the client error.
    pub fn from_postgres_error(err: tokio_postgres::Error) -> (r: Self)
        ensures
            converts_client_error(r, err),
    {
        let details = match err.as_db_error() {
            Some(db) => Some(PostgresDetailedError::from_db_error(db)),
            None => None,
        };
        Self::classify(err, details)
    }

    /// Converts the outcome of waiting on the pool: a timeout (`None`)
    /// becomes `TimeoutError`, a client error is converted as by
    /// `from_postgres_error`.
    pub fn from_pool_failure(user_error: Option<tokio_postgres::Error>) -> (r: Self)
        ensures
            match user_error {
                Some(e) => converts_client_error(r, e),
                None => r == ConnectorError::TimeoutError,
            },
    {
        match user_error {
            Some(e) => Self::from_postgres_error(e),
            None => ConnectorError::TimeoutError,
        }
    }

    /// Converts a pool error (see `from_pool_failure`).
    pub fn from_run_error(err: RunError<tokio_postgres::Error>) -> (r: Self)
        ensures
            converts_pool_error(r, err),
    {
        Self::from_pool_failure(run_error_user(err))
    }

    /// The error of a pool that gave up after `attempts` failed builds, the
    /// last failing with the text `cause`.
    pub fn retries_exhausted(attempts: u32, cause: &str) -> (r: Self)
        ensures
            r matches ConnectorError::PoolError(m) && m@ == retries_exhausted_message(attempts, cause@),
    {
        let mut m = "Max retries exceeded while initializing pool (attempted ".to_owned();
        push_decimal(&mut m, attempts as u64);
        m.append("): ");
        m.append(cause);
        assert(m@ =~= retries_exhausted_message(attempts, cause@));
        ConnectorError::PoolError(m)
    }

    /// The client error underneath, for a `ConnectionError`; `None` otherwise.
    pub fn source(&self) -> (r: Option<&tokio_postgres::Error>)
        ensures
            match self {
                ConnectorError::ConnectionError(e) => r == Some(e),
                _ => r is None,
            },
    {
        match self {
            ConnectorError::ConnectionError(e) => Some(e),
            _ => None,
        }
    }

    /// Renders the error as text: `"Postgres connection error: "` and the
    /// client error's own text; the rendered server error; `"BB8 pool error: "`
    /// and the message; or `"Operation timed out"`.
    pub fn to_string(&self) -> (r: String)
        ensures
            match self {
                ConnectorError::ConnectionError(e) => r@ == "Postgres connection error: "@
                    + client_error_text(*e),
                ConnectorError::PostgresError(d) => r@ == d.rendered(),
                ConnectorError::PoolError(m) => r@ == "BB8 pool error: "@ + m@,
                ConnectorError::TimeoutError => r@ == "Operation timed out"@,
            },
    {
        match self {
            ConnectorError::ConnectionError(e) => {
                let t = client_error_string(e);
                let mut out = "Postgres connection error: ".to_owned();
                out.append(t.as_str());
                out
            },
            ConnectorError::PostgresError(d) => d.to_string(),
            ConnectorError::PoolError(m) => {
                let mut out = "BB8 pool error: ".to_owned();
                out.append(m.as_str());
                out
            },
            ConnectorError::TimeoutError => "Operation timed out".to_owned(),
        }
    }
}

/// `s` begins with `prefix`.
pub open spec fn starts_with(s: Seq<char>, prefix: Seq<char>) -> bool {
    prefix.len() <= s.len() && s.subrange(0, prefix.len() as int) == prefix
}

/// A pool error that carries a client error converts exactly as that client
/// error does; a pool timeout converts to `TimeoutError`; neither is ever a
/// `PoolError`.
pub proof fn law_pool_error_converts_as_its_client_error(
    r: ConnectorError,
    err: RunError<tokio_postgres::Error>,
)
    requires
        converts_pool_error(r, err),
    ensures
        match pool_user_error(err) {
            Some(e) => converts_client_error(r, e),
            None => r == ConnectorError::TimeoutError,
        },
        !(r is PoolError),
{
}

/// The text of a converted server error begins with
/// `"Postgres Error [<SQLSTATE>]: <message>"` of the server's record.
pub proof fn law_server_error_text(r: ConnectorError, err: tokio_postgres::Error)
    requires
        converts_client_error(r, err),
        server_record(err) is Some,
    ensures
        r is PostgresError,
        starts_with(
            r->PostgresError_0.rendered(),
            "Postgres Error ["@ + sqlstate_text(record_sqlstate(server_record(err)->Some_0)) + "]: "@
                + record_message(server_record(err)->Some_0),
        ),
{
    let d = r->PostgresError_0;
    let prefix = "Postgres Error ["@ + d.code@ + "]: "@ + d.message@;
    assert(d.rendered().subrange(0, prefix.len() as int) =~= prefix);
}

/// A client error with a server error record converts to a `PostgresError`
/// each of whose fields is the record's field of the same name: code,
/// message, detail, hint, schema, table, column, data type, constraint,
/// context, file, line and routine.
pub proof fn law_server_error_fields(r: ConnectorError, err: tokio_postgres::Error)
    requires
        converts_client_error(r, err),
        server_record(err) is Some,
    ensures
        r is PostgresError,
        ({
            let d = r->PostgresError_0;
            let db = server_record(err)->Some_0;
            &&& d.code@ == sqlstate_text(record_sqlstate(db))
            &&& d.message@ == record_message(db)
            &&& opt_string_view(d.detail) == record_detail(db)
            &&& opt_string_view(d.hint) == record_hint(db)
            &&& opt_string_view(d.schema) == record_schema(db)
            &&& opt_string_view(d.table) == record_table(db)
            &&& opt_string_view(d.column) == record_column(db)
            &&& opt_string_view(d.datatype) == record_datatype(db)
            &&& opt_string_view(d.constraint) == record_constraint(db)
            &&& opt_string_view(d.where_context) == record_where(db)
            &&& opt_string_view(d.file) == record_file(db)
            &&& d.line == record_line(db)
            &&& opt_string_view(d.routine) == record_routine(db)
        }),
{
}

/// A client error without a server error record converts to
/// `ConnectionError` holding that very error.
pub proof fn law_client_error_without_record(r: ConnectorError, err: tokio_postgres::Error)
    requires
        converts_client_error(r, err),
        server_record(err) is None,
    ensures
        r == ConnectorError::ConnectionError(err),
{
}

impl From<tokio_postgres::Error> for ConnectorError {
    /// See `ConnectorError::from_postgres_error`.
    fn from(err: tokio_postgres::Error) -> (r: Self)
        ensures
            converts_client_error(r, err),
    {
        ConnectorError::from_postgres_error(err)
    }
}

impl vstd::std_specs::convert::FromSpecImpl<tokio_postgres::Error> for ConnectorError {
    /// The result depends on the opaque client error, so no function of it
    /// is claimed; `from` states what holds instead.
    open spec fn obeys_from_spec() -> bool {
        false
    }

    open spec fn from_spec(v: tokio_postgres::Error) -> Self {
        arbitrary()
    }
}

impl From<RunError<tokio_postgres::Error>> for ConnectorError {
    /// See `ConnectorError::from_run_error`.
    fn from(err: RunError<tokio_postgres::Error>) -> (r: Self)
        ensures
            converts_pool_error(r, err),
    {
        ConnectorError::from_run_error(err)
    }
}

impl vstd::std_specs::convert::FromSpecImpl<RunError<tokio_postgres::Error>> for ConnectorError {
    /// The result depends on the opaque pool error, so no function of it is
    /// claimed; `from` states what holds instead.
    open spec fn obeys_from_spec() -> bool {
        false
    }

    open spec fn from_spec(v: RunError<tokio_postgres::Error>) -> Self {
        arbitrary()
    }
}

} // verus!
