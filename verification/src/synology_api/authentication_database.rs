//! Persistent, schema-versioned session store backed by a local SQLite
//! database.
//!
//! The store maps an (endpoint, user) pair to at most one session record:
//! the device pairing id, if one was issued, and the session token. A
//! Metadata table records the schema version; opening a store probes the
//! version and applies any missing migration step, so a store that is
//! already current is left untouched.

use vstd::prelude::*;
use vstd::string::StrSliceExecFns;
use rusqlite::OptionalExtension;

verus! {

/// Errors of the session store.
#[derive(Debug)]
pub enum AuthenticationDatabaseError {
    /// The backing database has not been brought to a known schema version.
    DatabaseNotInitialized,
    /// The underlying SQLite call failed.
    SqliteError(rusqlite::Error),
}

#[verifier::external_type_specification]
#[verifier::external_body]
pub struct ExConnection(rusqlite::Connection);

#[verifier::external_type_specification]
#[verifier::external_body]
pub struct ExRusqliteError(rusqlite::Error);

/// The session rows the database holds: for each (endpoint, user) pair, the
/// device pairing id, if any, and the session token. Empty when the
/// Credentials table does not exist.
pub uninterp spec fn db_records(c: rusqlite::Connection) -> Map<
    (Seq<char>, Seq<char>),
    (Option<Seq<char>>, Seq<char>),
>;

/// Whether the Credentials table exists in the database.
pub uninterp spec fn db_has_credentials(c: rusqlite::Connection) -> bool;

/// Whether the Metadata table exists in the database.
pub uninterp spec fn db_has_metadata(c: rusqlite::Connection) -> bool;

/// The value of the version row of the Metadata table, `None` when the
/// table or the row is absent.
pub uninterp spec fn db_version_text(c: rusqlite::Connection) -> Option<Seq<char>>;

/// A decimal digit.
pub open spec fn is_ascii_digit(c: char) -> bool {
    '0' <= c && c <= '9'
}

/// Every character of the string is a decimal digit.
pub open spec fn all_digits(s: Seq<char>) -> bool {
    forall|i: int| 0 <= i < s.len() ==> is_ascii_digit(#[trigger] s[i])
}

/// The number a string of decimal digits denotes.
pub open spec fn digits_value(s: Seq<char>) -> int
    decreases s.len(),
{
    if s.len() == 0 {
        0
    } else {
        digits_value(s.drop_last()) * 10 + (s.last() as int - 48)
    }
}

/// How a version string is read: a nonempty, all-digit string whose value
/// fits in a `u32` denotes that value; anything else does not parse.
pub open spec fn parsed_u32(s: Seq<char>) -> Option<u32> {
    if s.len() > 0 && all_digits(s) && digits_value(s) <= u32::MAX {
        Some(digits_value(s) as u32)
    } else {
        None
    }
}

/// A store with no sessions at all.
pub open spec fn no_records() -> Map<(Seq<char>, Seq<char>), (Option<Seq<char>>, Seq<char>)> {
    Map::empty()
}

/// The effective schema version: 0 when no table exists yet or when no
/// version row parses, else the recorded value.
pub open spec fn db_version(c: rusqlite::Connection) -> nat {
    if !db_has_credentials(c) && !db_has_metadata(c) {
        0
    } else {
        match db_version_text(c) {
            None => 0,
            Some(t) => match parsed_u32(t) {
                None => 0,
                Some(v) => v as nat,
            },
        }
    }
}

proof fn lemma_digits_value_bounds(s: Seq<char>)
    requires
        all_digits(s),
    ensures
        digits_value(s) >= 0,
    decreases s.len(),
{
    if s.len() > 0 {
        assert(all_digits(s.drop_last()));
        lemma_digits_value_bounds(s.drop_last());
    }
}

proof fn lemma_digits_value_prefix_le(s: Seq<char>, i: int)
    requires
        0 <= i <= s.len(),
        all_digits(s),
    ensures
        digits_value(s.subrange(0, i)) <= digits_value(s),
    decreases s.len() - i,
{
    if i == s.len() {
        assert(s.subrange(0, i) =~= s);
    } else {
        assert(s.subrange(0, i + 1).drop_last() =~= s.subrange(0, i));
        assert(all_digits(s.subrange(0, i)));
        lemma_digits_value_bounds(s.subrange(0, i));
        assert(digits_value(s.subrange(0, i + 1)) == digits_value(s.subrange(0, i)) * 10 + (s[i]
            as int - 48));
        lemma_digits_value_prefix_le(s, i + 1);
    }
}

/// Reads a version string: `Some` exactly when the string is nonempty, all
/// digits, and its value fits in a `u32`.
pub fn parse_u32(s: &str) -> (r: Option<u32>)
    ensures
        r == parsed_u32(s@),
{
    let n = s.unicode_len();
    if n == 0 {
        return None;
    }
    let mut value: u32 = 0;
    let mut i: usize = 0;
    while i < n
        invariant
            0 < n == s@.len(),
            0 <= i <= n,
            all_digits(s@.subrange(0, i as int)),
            value == digits_value(s@.subrange(0, i as int)),
        decreases n - i,
    {
        let c = s.get_char(i);
        let v = c as u32;
        if v < 48 || v > 57 {
            assert(!is_ascii_digit(s@[i as int]));
            return None;
        }
        let d = v - 48;
        if value > (u32::MAX - d) / 10 {
            proof {
                let next = s@.subrange(0, i as int + 1);
                assert(next.drop_last() =~= s@.subrange(0, i as int));
                assert(digits_value(next) == value * 10 + d);
                assert(digits_value(next) > u32::MAX);
                if all_digits(s@) {
                    lemma_digits_value_prefix_le(s@, i as int + 1);
                }
            }
            return None;
        }
        proof {
            let next = s@.subrange(0, i as int + 1);
            assert(next.drop_last() =~= s@.subrange(0, i as int));
        }
        value = value * 10 + d;
        i = i + 1;
    }
    proof {
        assert(s@.subrange(0, n as int) =~= s@);
    }
    Some(value)
}

/// Relies on `rusqlite::Connection::open`: opens the database file at the
/// given path, creating it (and nothing else) when it does not exist.
#[verifier::external_body]
fn open_connection(path: &str) -> (r: Result<rusqlite::Connection, rusqlite::Error>) {
    rusqlite::Connection::open(path)
}

/// Relies on `rusqlite::Connection::open_in_memory`: a fresh connection to
/// an empty transient database, with no tables and no rows.
#[verifier::external_body]
fn open_memory_connection() -> (r: Result<rusqlite::Connection, rusqlite::Error>)
    ensures
        r matches Ok(c) ==> !db_has_credentials(c) && !db_has_metadata(c) && db_version_text(c)
            is None && db_records(c) == no_records(),
{
    rusqlite::Connection::open_in_memory()
}

/// Relies on `rusqlite::Connection::query_row` over `sqlite_master`: counts
/// how many of the two schema tables exist.
#[verifier::external_body]
fn count_auth_tables(conn: &rusqlite::Connection) -> (r: Result<i64, rusqlite::Error>)
    ensures
        r matches Ok(n) ==> n as int == (if db_has_credentials(*conn) {
            1int
        } else {
            0int
        }) + (if db_has_metadata(*conn) {
            1int
        } else {
            0int
        }),
{
    conn.query_row(
        "SELECT count(*) FROM sqlite_master WHERE type='table' AND name IN ('Credentials', 'Metadata')",
        [],
        |row| row.get(0),
    )
}

/// Relies on `rusqlite::Connection::query_row` on the Metadata table: the
/// value of the version row, `None` when there is no such row; an error
/// when the table itself is missing.
#[verifier::external_body]
fn read_version_text(conn: &rusqlite::Connection) -> (r: Result<Option<String>, rusqlite::Error>)
    ensures
        r matches Ok(t) ==> t.deep_view() == db_version_text(*conn),
{
    conn.query_row("SELECT value FROM Metadata WHERE key = 'version'", [], |row| row.get(0))
        .optional()
}

/// Relies on `rusqlite::Connection::execute`: creates the Credentials table
/// when it does not yet exist, touching no rows of any table.
#[verifier::external_body]
fn create_credentials_table(conn: &mut rusqlite::Connection) -> (r: Result<(), rusqlite::Error>)
    ensures
        r is Ok ==> db_has_credentials(*final(conn)),
        r is Ok ==> db_has_metadata(*final(conn)) == db_has_metadata(*old(conn)),
        r is Ok ==> db_version_text(*final(conn)) == db_version_text(*old(conn)),
        r is Ok ==> db_records(*final(conn)) == db_records(*old(conn)),
        r is Err ==> *final(conn) == *old(conn),
{
    match conn.execute(
        "CREATE TABLE IF NOT EXISTS Credentials (id INTEGER PRIMARY KEY, endpoint TEXT NOT NULL, user TEXT NOT NULL, device_id TEXT, token TEXT NOT NULL)",
        (),
    ) {
        Ok(_) => Ok(()),
        Err(e) => Err(e),
    }
}

/// Relies on `rusqlite::Connection::execute`: creates the Metadata table
/// when it does not yet exist, touching no rows of any table.
#[verifier::external_body]
fn create_metadata_table(conn: &mut rusqlite::Connection) -> (r: Result<(), rusqlite::Error>)
    ensures
        r is Ok ==> db_has_metadata(*final(conn)),
        r is Ok ==> db_has_credentials(*final(conn)) == db_has_credentials(*old(conn)),
        r is Ok ==> db_version_text(*final(conn)) == db_version_text(*old(conn)),
        r is Ok ==> db_records(*final(conn)) == db_records(*old(conn)),
        r is Err ==> *final(conn) == *old(conn),
{
    match conn.execute(
        "CREATE TABLE IF NOT EXISTS Metadata (id INTEGER PRIMARY KEY, key TEXT NOT NULL, value TEXT NOT NULL)",
        (),
    ) {
        Ok(_) => Ok(()),
        Err(e) => Err(e),
    }
}

/// Relies on `rusqlite::Connection::execute` with an INSERT OR REPLACE: the
/// version row of the Metadata table afterwards holds the decimal form of
/// the given number, any prior version row replaced; session rows and the
/// set of tables are untouched.
#[verifier::external_body]
fn write_version_row(conn: &mut rusqlite::Connection, version: u32) -> (r: Result<
    (),
    rusqlite::Error,
>)
    ensures
        r is Ok ==> (db_version_text(*final(conn)) matches Some(t) && parsed_u32(t) == Some(
            version,
        )),
        r is Ok ==> db_has_credentials(*final(conn)) == db_has_credentials(*old(conn)),
        r is Ok ==> db_has_metadata(*final(conn)) == db_has_metadata(*old(conn)),
        r is Ok ==> db_records(*final(conn)) == db_records(*old(conn)),
        r is Err ==> *final(conn) == *old(conn),
{
    match conn.execute(
        "INSERT OR REPLACE INTO Metadata (id, key, value) VALUES ((SELECT id FROM Metadata WHERE key = 'version'), 'version', ?1)",
        [version.to_string()],
    ) {
        Ok(_) => Ok(()),
        Err(e) => Err(e),
    }
}

/// Relies on `rusqlite::Connection::execute` with an INSERT OR REPLACE: the
/// one session row for the pair afterwards holds the given pairing id and
/// token, any prior row for the pair replaced; other rows, the Metadata
/// table and the set of tables are untouched.
#[verifier::external_body]
fn upsert_session_row(
    conn: &mut rusqlite::Connection,
    endpoint: &str,
    user: &str,
    device_id: &Option<String>,
    token: &str,
) -> (r: Result<(), rusqlite::Error>)
    ensures
        r is Ok ==> db_records(*final(conn)) == db_records(*old(conn)).insert(
            (endpoint@, user@),
            (device_id.deep_view(), token@),
        ),
        r is Ok ==> db_has_credentials(*final(conn)) == db_has_credentials(*old(conn)),
        r is Ok ==> db_has_metadata(*final(conn)) == db_has_metadata(*old(conn)),
        r is Ok ==> db_version_text(*final(conn)) == db_version_text(*old(conn)),
        r is Err ==> *final(conn) == *old(conn),
{
    match conn.execute(
        "INSERT OR REPLACE INTO Credentials (id, endpoint, user, device_id, token) VALUES ((SELECT id FROM Credentials WHERE endpoint = ?1 AND user = ?2), ?1, ?2, ?3, ?4)",
        (endpoint, user, device_id, token),
    ) {
        Ok(_) => Ok(()),
        Err(e) => Err(e),
    }
}

/// Relies on `rusqlite::Connection::execute` with a DELETE: the session row
/// for the pair is gone afterwards, whether or not one existed; other rows,
/// the Metadata table and the set of tables are untouched.
#[verifier::external_body]
fn delete_session_row(conn: &mut rusqlite::Connection, endpoint: &str, user: &str) -> (r: Result<
    (),
    rusqlite::Error,
>)
    ensures
        r is Ok ==> db_records(*final(conn)) == db_records(*old(conn)).remove((endpoint@, user@)),
        r is Ok ==> db_has_credentials(*final(conn)) == db_has_credentials(*old(conn)),
        r is Ok ==> db_has_metadata(*final(conn)) == db_has_metadata(*old(conn)),
        r is Ok ==> db_version_text(*final(conn)) == db_version_text(*old(conn)),
        r is Err ==> *final(conn) == *old(conn),
{
    match conn.execute("DELETE FROM Credentials WHERE endpoint = ?1 AND user = ?2", (endpoint, user))
    {
        Ok(_) => Ok(()),
        Err(e) => Err(e),
    }
}

/// Relies on `rusqlite::Connection::query_row` on the Credentials table:
/// the stored pairing id and token for the pair, `None` when the pair has
/// no row.
#[verifier::external_body]
fn query_session_row(conn: &rusqlite::Connection, endpoint: &str, user: &str) -> (r: Result<
    Option<(Option<String>, String)>,
    rusqlite::Error,
>)
    ensures
        r matches Ok(row) ==> (row is Some <==> db_records(*conn).contains_key(
            (endpoint@, user@),
        )),
        r matches Ok(Some(v)) ==> db_records(*conn)[(endpoint@, user@)] == (
            v.0.deep_view(),
            v.1@,
        ),
{
    conn.query_row(
        "SELECT device_id, token FROM Credentials WHERE endpoint = ?1 AND user = ?2",
        (endpoint, user),
        |row| Ok((row.get(0)?, row.get(1)?)),
    ).optional()
}

/// The persistent session store.
pub struct AuthenticationDatabase {
    connection: rusqlite::Connection,
}

impl AuthenticationDatabase {
    /// The sessions the store holds: (endpoint, user) to pairing id and
    /// token.
    pub closed spec fn records(self) -> Map<
        (Seq<char>, Seq<char>),
        (Option<Seq<char>>, Seq<char>),
    > {
        db_records(self.connection)
    }

    /// The store's effective schema version.
    pub closed spec fn version(self) -> nat {
        db_version(self.connection)
    }

    /// A well-formed store has been brought to at least schema version 1.
    pub open spec fn wf(self) -> bool {
        self.version() >= 1
    }

    /// Probes the schema version of a connection the way the store reads
    /// it: 0 when neither table exists or no version row parses.
    fn connection_version(conn: &rusqlite::Connection) -> (r: Result<
        u32,
        AuthenticationDatabaseError,
    >)
        ensures
            r matches Ok(v) ==> v as nat == db_version(*conn),
            r matches Err(e) ==> e is SqliteError,
    {
        let count = match count_auth_tables(conn) {
            Ok(n) => n,
            Err(e) => return Err(AuthenticationDatabaseError::SqliteError(e)),
        };
        if count == 0 {
            return Ok(0);
        }
        let text = match read_version_text(conn) {
            Ok(t) => t,
            Err(e) => return Err(AuthenticationDatabaseError::SqliteError(e)),
        };
        match text {
            None => Ok(0),
            Some(t) => match parse_u32(t.as_str()) {
                Some(v) => Ok(v),
                None => Ok(0),
            },
        }
    }

    /// Brings a connection from whatever version it is at to the current
    /// one. A store at version 0 gets both tables and version 1; a store
    /// already at version 1 or later is left exactly as it is; session rows
    /// are never touched.
    fn upgrade_connection(conn: &mut rusqlite::Connection) -> (r: Result<
        (),
        AuthenticationDatabaseError,
    >)
        ensures
            r is Ok ==> db_version(*final(conn)) >= 1,
            r is Ok ==> db_records(*final(conn)) == db_records(*old(conn)),
            r is Ok ==> db_version(*final(conn)) >= db_version(*old(conn)),
            r is Ok && db_version(*old(conn)) == 0 ==> db_version(*final(conn)) == 1
                && db_has_credentials(*final(conn)) && db_has_metadata(*final(conn)),
            r is Ok && db_version(*old(conn)) >= 1 ==> *final(conn) == *old(conn),
            r is Err ==> db_records(*final(conn)) == db_records(*old(conn)),
            r matches Err(e) ==> e is SqliteError,
    {
        let version = match Self::connection_version(conn) {
            Ok(v) => v,
            Err(e) => return Err(e),
        };
        if version == 0 {
            match create_credentials_table(conn) {
                Ok(()) => {},
                Err(e) => return Err(AuthenticationDatabaseError::SqliteError(e)),
            }
            match create_metadata_table(conn) {
                Ok(()) => {},
                Err(e) => return Err(AuthenticationDatabaseError::SqliteError(e)),
            }
            match write_version_row(conn, 1) {
                Ok(()) => {},
                Err(e) => return Err(AuthenticationDatabaseError::SqliteError(e)),
            }
        }
        Ok(())
    }

    /// Opens or creates the backing database at `path` and brings it to
    /// the current schema version. The caller resolves and creates the
    /// directory the path lies in.
    pub fn new(path: &str) -> (r: Result<Self, AuthenticationDatabaseError>)
        ensures
            r matches Ok(db) ==> db.wf(),
            r matches Err(e) ==> e is SqliteError,
    {
        let mut conn = match open_connection(path) {
            Ok(c) => c,
            Err(e) => return Err(AuthenticationDatabaseError::SqliteError(e)),
        };
        match Self::upgrade_connection(&mut conn) {
            Ok(()) => Ok(AuthenticationDatabase { connection: conn }),
            Err(e) => Err(e),
        }
    }

    /// Opens a fresh transient store that holds no sessions, for callers
    /// that need no persistence.
    pub fn new_in_memory() -> (r: Result<Self, AuthenticationDatabaseError>)
        ensures
            r matches Ok(db) ==> db.wf() && db.version() == 1 && db.records() == no_records(),
            r matches Err(e) ==> e is SqliteError,
    {
        let mut conn = match open_memory_connection() {
            Ok(c) => c,
            Err(e) => return Err(AuthenticationDatabaseError::SqliteError(e)),
        };
        match Self::upgrade_connection(&mut conn) {
            Ok(()) => Ok(AuthenticationDatabase { connection: conn }),
            Err(e) => Err(e),
        }
    }

    /// The store's current schema version as recorded in the database.
    pub fn get_database_version(&self) -> (r: Result<u32, AuthenticationDatabaseError>)
        ensures
            r matches Ok(v) ==> v as nat == self.version(),
            r matches Err(e) ==> e is SqliteError,
    {
        Self::connection_version(&self.connection)
    }

    /// Probes the schema version and applies any missing migration step; on
    /// a store that is already current this is a no-op, so running it again
    /// changes nothing.
    pub fn upgrade_database(&mut self) -> (r: Result<(), AuthenticationDatabaseError>)
        ensures
            r is Ok ==> final(self).version() >= 1,
            r is Ok ==> final(self).records() == old(self).records(),
            r is Ok ==> final(self).version() >= old(self).version(),
            r is Ok && old(self).version() == 0 ==> final(self).version() == 1,
            r is Ok && old(self).version() >= 1 ==> *final(self) == *old(self),
            r is Err ==> final(self).records() == old(self).records(),
            r matches Err(e) ==> e is SqliteError,
    {
        Self::upgrade_connection(&mut self.connection)
    }

    /// True iff a session record exists for the pair. No network call is
    /// made.
    pub fn is_logged_in(&self, endpoint: &str, user: &str) -> (r: Result<
        bool,
        AuthenticationDatabaseError,
    >)
        ensures
            r matches Ok(b) ==> b == self.records().contains_key((endpoint@, user@)),
            r matches Err(e) ==> e is SqliteError,
    {
        match query_session_row(&self.connection, endpoint, user) {
            Ok(row) => Ok(row.is_some()),
            Err(e) => Err(AuthenticationDatabaseError::SqliteError(e)),
        }
    }

    /// Upserts the session record for the pair: any prior record for the
    /// same pair is replaced, never duplicated. On an error nothing is
    /// written.
    pub fn save_session(
        &mut self,
        endpoint: &str,
        user: &str,
        device_id: &Option<String>,
        token: &str,
    ) -> (r: Result<(), AuthenticationDatabaseError>)
        ensures
            r is Ok ==> final(self).records() == old(self).records().insert(
                (endpoint@, user@),
                (device_id.deep_view(), token@),
            ),
            r is Ok ==> final(self).version() == old(self).version(),
            r is Err ==> *final(self) == *old(self),
            r matches Err(e) ==> e is SqliteError,
    {
        match upsert_session_row(&mut self.connection, endpoint, user, device_id, token) {
            Ok(()) => Ok(()),
            Err(e) => Err(AuthenticationDatabaseError::SqliteError(e)),
        }
    }

    /// Deletes the record for the pair; clearing a pair that has no record
    /// is a no-op, not an error. On an error nothing is written.
    pub fn clear_session(&mut self, endpoint: &str, user: &str) -> (r: Result<
        (),
        AuthenticationDatabaseError,
    >)
        ensures
            r is Ok ==> final(self).records() == old(self).records().remove((endpoint@, user@)),
            r is Ok ==> final(self).version() == old(self).version(),
            r is Err ==> *final(self) == *old(self),
            r matches Err(e) ==> e is SqliteError,
    {
        match delete_session_row(&mut self.connection, endpoint, user) {
            Ok(()) => Ok(()),
            Err(e) => Err(AuthenticationDatabaseError::SqliteError(e)),
        }
    }

    /// The device pairing id previously stored for the pair, which lets a
    /// later login skip the one-time-code challenge.
    pub fn get_device_id(&self, endpoint: &str, user: &str) -> (r: Result<
        Option<String>,
        AuthenticationDatabaseError,
    >)
        ensures
            r matches Ok(d) ==> d.deep_view() == (if self.records().contains_key(
                (endpoint@, user@),
            ) {
                self.records()[(endpoint@, user@)].0
            } else {
                None::<Seq<char>>
            }),
            r matches Err(e) ==> e is SqliteError,
    {
        match query_session_row(&self.connection, endpoint, user) {
            Ok(Some((device_id, _token))) => Ok(device_id),
            Ok(None) => Ok(None),
            Err(e) => Err(AuthenticationDatabaseError::SqliteError(e)),
        }
    }
}

/// A pair that was never saved is not logged in, and stays that way under
/// every store operation that is not a successful login for it: it is
/// absent from the empty store, and still absent after a session is saved
/// for a different pair or any session is cleared.
pub proof fn lemma_absent_pair_stays_absent(
    m: Map<(Seq<char>, Seq<char>), (Option<Seq<char>>, Seq<char>)>,
    p: (Seq<char>, Seq<char>),
    q: (Seq<char>, Seq<char>),
    v: (Option<Seq<char>>, Seq<char>),
)
    requires
        !m.contains_key(p),
        p != q,
    ensures
        !no_records().contains_key(p),
        !m.insert(q, v).contains_key(p),
        !m.remove(q).contains_key(p),
{
}

/// Round trip: right after a session is saved for a pair, the pair is
/// logged in; right after the session is cleared, it is not.
pub proof fn lemma_save_clear_round_trip(
    m: Map<(Seq<char>, Seq<char>), (Option<Seq<char>>, Seq<char>)>,
    p: (Seq<char>, Seq<char>),
    v: (Option<Seq<char>>, Seq<char>),
)
    ensures
        m.insert(p, v).contains_key(p),
        m.insert(p, v)[p] == v,
        !m.remove(p).contains_key(p),
{
}

/// Two saves for the same pair leave exactly the one record of the second
/// save: an earlier record is overwritten, never duplicated.
pub proof fn lemma_second_save_overwrites(
    m: Map<(Seq<char>, Seq<char>), (Option<Seq<char>>, Seq<char>)>,
    p: (Seq<char>, Seq<char>),
    v1: (Option<Seq<char>>, Seq<char>),
    v2: (Option<Seq<char>>, Seq<char>),
)
    ensures
        m.insert(p, v1).insert(p, v2) == m.insert(p, v2),
{
    assert(m.insert(p, v1).insert(p, v2) =~= m.insert(p, v2));
}

} // verus!

