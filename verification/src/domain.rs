//! The data model: server records, resolved settings, the action
//! vocabulary, the closed error taxonomy, and the configuration grammar.

use vstd::prelude::*;
use vstd::string::StrSliceExecFns;
use vstd::string::StringExecFns;

use crate::persistence::{db_action, init_db, CrudAction, Response};
use crate::text::{
    find_at, find_char_from, find_char_in, is_config_ws, lemma_find_at_absent, lemma_find_at_is_first,
    lemma_trim_left_head, lemma_trim_right_is_prefix, lemma_trimmed_preserves_absence, trim_left,
    trim_right, trim_str, trimmed,
};

verus! {

/// The logical database name used when no configuration is available.
pub const DEFAULT_DB_NAME: &'static str = "Server";

/// The single implicit account that owns every server record.
pub const DEFAULT_USER: &'static str = "root";

/// A connection profile for one remote server.
#[derive(Debug, PartialEq, Eq)]
pub struct Server {
    pub id: Option<i32>,
    pub title: String,
    pub domain: Option<String>,
    pub ip: Option<String>,
    pub user_name: String,
    pub owner: Option<String>,
}

impl Server {
    /// A fresh record, not yet persisted, owned by the default account.
    /// `content` is reserved and unused.
    #[allow(unused_variables)]
    pub fn new(
        title: String,
        content: String,
        domain: Option<String>,
        ip: Option<String>,
        user_name: String,
    ) -> (r: Self)
        ensures
            r.id is None,
            r.title == title,
            r.domain == domain,
            r.ip == ip,
            r.user_name == user_name,
            r.owner matches Some(o) && o@ == DEFAULT_USER@,
    {
        Self { id: None, title, domain, ip, user_name, owner: Some(DEFAULT_USER.to_owned()) }
    }
}

pub type ID = i64;

/// A typed user intent submitted to the action router.
pub enum Action {
    Save(Server),
    Fetch,
    FetchById(ID),
    Delete,
    DeleteById(ID),
    Connect(ID),
}

/// The closed result vocabulary of a successful action.
#[derive(Debug, PartialEq, Eq)]
pub enum ActionResponse {
    Done,
    One(Option<Server>),
    All(Vec<Server>),
    Empty,
}

/// The closed error taxonomy of the application.
#[derive(Debug)]
pub enum ActionErrType {
    InitNotAvailable,
    UnableToInitialize,
    TestFailed,
    RecordNotFound,
    ActionFailed(String),
}

/// An error with a human-readable message and a stored kind.
#[derive(Debug)]
pub struct ActionErr {
    msg: String,
    error_type: ActionErrType,
}

impl ActionErr {
    pub closed spec fn spec_msg(&self) -> Seq<char> {
        self.msg@
    }

    pub closed spec fn spec_error_type(&self) -> ActionErrType {
        self.error_type
    }

    pub fn msg(&self) -> (r: &String)
        ensures
            r@ == self.spec_msg(),
    {
        &self.msg
    }

    pub fn error_type(&self) -> (r: &ActionErrType)
        ensures
            *r == self.spec_error_type(),
    {
        &self.error_type
    }

    /// The fixed message table of the taxonomy. The stored kind for a
    /// failed test is `UnableToInitialize`, and for a failed action
    /// `RecordNotFound`.
    pub fn build(server: ActionErrType) -> (r: ActionErr)
        ensures
            match server {
                ActionErrType::InitNotAvailable => r.spec_error_type() is InitNotAvailable
                    && r.spec_msg() == "Please initialize application,use help"@,
                ActionErrType::UnableToInitialize => r.spec_error_type() is UnableToInitialize
                    && r.spec_msg() == "Unable to initizlize application, contact support"@,
                ActionErrType::TestFailed => r.spec_error_type() is UnableToInitialize
                    && r.spec_msg() == "Database check has failed"@,
                ActionErrType::RecordNotFound => r.spec_error_type() is RecordNotFound
                    && r.spec_msg() == "Record Not Found"@,
                ActionErrType::ActionFailed(message) => r.spec_error_type() is RecordNotFound
                    && r.spec_msg() == message@,
            },
    {
        match server {
            ActionErrType::InitNotAvailable => ActionErr {
                msg: "Please initialize application,use help".to_owned(),
                error_type: ActionErrType::InitNotAvailable,
            },
            ActionErrType::UnableToInitialize => ActionErr {
                msg: "Unable to initizlize application, contact support".to_owned(),
                error_type: ActionErrType::UnableToInitialize,
            },
            ActionErrType::TestFailed => ActionErr {
                msg: "Database check has failed".to_owned(),
                error_type: ActionErrType::UnableToInitialize,
            },
            ActionErrType::RecordNotFound => ActionErr {
                msg: "Record Not Found".to_owned(),
                error_type: ActionErrType::RecordNotFound,
            },
            ActionErrType::ActionFailed(message) => ActionErr {
                msg: message,
                error_type: ActionErrType::RecordNotFound,
            },
        }
    }
}

/// A request to the configuration router.
pub enum Setup {
    Init,
    Test,
}

/// A configuration line with its trailing carriage return removed.
pub open spec fn strip_cr(line: Seq<char>) -> Seq<char> {
    if line.len() > 0 && line.last() == '\r' {
        line.drop_last()
    } else {
        line
    }
}

/// Whether a configuration line assigns the recognized key `db`: the text
/// before its first `=` is exactly `db`.
pub open spec fn line_sets_db(line: Seq<char>) -> bool {
    let body = strip_cr(line);
    let e = find_at(body, '=', 0);
    e == 2 && body.len() > 2 && body[0] == 'd' && body[1] == 'b'
}

/// The value a `db` line assigns: the text between the first `=` and the
/// next `=` or the end of the line, trimmed on both sides.
pub open spec fn line_db_value(line: Seq<char>) -> Seq<char> {
    let body = strip_cr(line);
    let e = find_at(body, '=', 0);
    let rest = body.subrange(e + 1, body.len() as int);
    trimmed(rest.subrange(0, find_at(rest, '=', 0)))
}

/// The database name a configuration text resolves to, reading the lines
/// from position `i` on with `cur` as the name seen so far: each `db`
/// line replaces it, every other line is ignored.
///
/// `find_at` never returns an index below `i`; the extra `e < i` test
/// only keeps the termination measure of the recursion obvious.
pub open spec fn config_db(content: Seq<char>, i: int, cur: Seq<char>) -> Seq<char>
    decreases content.len() - i,
{
    if i < 0 || i >= content.len() {
        cur
    } else {
        let e = find_at(content, '\n', i);
        let line = content.subrange(i, e);
        let cur2 = if line_sets_db(line) {
            line_db_value(line)
        } else {
            cur
        };
        if e < i || e >= content.len() {
            cur2
        } else {
            config_db(content, e + 1, cur2)
        }
    }
}

/// The round trip of the configuration file: writing the line for a
/// database name and reading it back yields that name trimmed and with
/// its storage suffix stripped, whatever name was in force before —
/// provided the name holds no line break and no `=`, either of which
/// would split the written line.
pub proof fn lemma_config_round_trip(db: Seq<char>, prior: Seq<char>)
    requires
        forall|k: int| 0 <= k < db.len() ==> db[k] != '\n',
        forall|k: int| 0 <= k < db.len() ==> db[k] != '=',
    ensures
        config_db(spec_config_line(db), 0, prior) == trimmed(store_suffix_stripped(trimmed(db))),
{
    reveal_strlit("db=");
    reveal_strlit(" \n");
    let t = trimmed(db);
    let s = store_suffix_stripped(t);
    let n = s.len() as int;
    let content = spec_config_line(db);
    assert(content.len() == n + 5);
    // neither '\n' nor '=' survives into the stored name
    lemma_trimmed_preserves_absence(db, '\n');
    lemma_trimmed_preserves_absence(db, '=');
    assert(forall|k: int| 0 <= k < n ==> s[k] == t[k]);
    // the characters of the written line
    assert(content[0] == 'd');
    assert(content[1] == 'b');
    assert(content[2] == '=');
    assert(forall|k: int| 0 <= k < n ==> content[3 + k] == s[k]);
    assert(content[n + 3] == ' ');
    assert(content[n + 4] == '\n');
    // the line ends at the only line break
    lemma_find_at_is_first(content, '\n', 0, n + 4);
    let line = content.subrange(0, n + 4);
    assert(line.last() == ' ');
    assert(strip_cr(line) == line);
    // the key is exactly `db`
    lemma_find_at_is_first(line, '=', 0, 2);
    assert(line_sets_db(line));
    // the value is the stored name with the trailing blank
    let rest = line.subrange(3, n + 4);
    assert(forall|k: int| 0 <= k < n ==> rest[k] == s[k]);
    assert(rest[n] == ' ');
    lemma_find_at_absent(rest, '=', 0);
    assert(rest.subrange(0, n + 1) =~= rest);
    assert(line_db_value(line) == trimmed(rest));
    // trimming the value undoes only the trailing blank
    lemma_trim_left_head(db);
    lemma_trim_right_is_prefix(trim_left(db));
    if n == 0 {
        assert(rest.drop_first() =~= Seq::<char>::empty());
        assert(trim_left(rest) == trim_left(Seq::<char>::empty()));
        assert(trim_left(Seq::<char>::empty()) == Seq::<char>::empty());
        assert(trim_right(Seq::<char>::empty()) == Seq::<char>::empty());
        assert(trimmed(rest) == Seq::<char>::empty());
        assert(s =~= Seq::<char>::empty());
        assert(trimmed(s) == Seq::<char>::empty());
    } else {
        assert(s[0] == t[0]);
        assert(t[0] == trim_left(db)[0]);
        assert(!is_config_ws(s[0]));
        assert(rest[0] == s[0]);
        assert(trim_left(rest) == rest);
        assert(rest.drop_last() =~= s);
        assert(trim_right(rest) == trim_right(s));
        assert(trim_left(s) == s);
        assert(trimmed(rest) == trimmed(s));
    }
    // one `db` line, then the end of the content
    assert(config_db(content, 0, prior) == config_db(content, n + 5, line_db_value(line)));
    assert(config_db(content, n + 5, line_db_value(line)) == line_db_value(line));
}

/// Reads one configuration line, `text[start..end]`, and returns the
/// database name it leaves in force.
fn apply_line(text: &str, start: usize, end: usize, cur: String) -> (r: String)
    requires
        start <= end <= text@.len(),
    ensures
        ({
            let line = text@.subrange(start as int, end as int);
            r@ == if line_sets_db(line) {
                line_db_value(line)
            } else {
                cur@
            }
        }),
{
    let ghost line = text@.subrange(start as int, end as int);
    let mut body_end = end;
    if end > start && text.get_char(end - 1) == '\r' {
        body_end = end - 1;
    }
    proof {
        if end > start {
            assert(line.last() == text@[end - 1]);
        }
        assert(strip_cr(line) =~= text@.subrange(start as int, body_end as int));
    }
    let ghost body = strip_cr(line);
    let eq = find_char_in(text, '=', start, body_end);
    if body_end - start > 2 && eq == start + 2 && text.get_char(start) == 'd' && text.get_char(
        start + 1,
    ) == 'b' {
        proof {
            assert(body[0] == text@[start as int]);
            assert(body[1] == text@[start as int + 1]);
            assert(line_sets_db(line));
        }
        let e2 = find_char_in(text, '=', eq + 1, body_end);
        let value = trim_str(text.substring_char(eq + 1, e2));
        proof {
            let rest = body.subrange(find_at(body, '=', 0) + 1, body.len() as int);
            assert(rest =~= text@.subrange(eq as int + 1, body_end as int));
            assert(rest.subrange(0, find_at(rest, '=', 0)) =~= text@.subrange(
                eq as int + 1,
                e2 as int,
            ));
        }
        value.to_owned()
    } else {
        proof {
            if body.len() > 2 && body[0] == 'd' && body[1] == 'b' && find_at(body, '=', 0) == 2 {
                assert(text@[start as int] == body[0]);
                assert(text@[start as int + 1] == body[1]);
                assert(eq == start + 2);
            }
            assert(!line_sets_db(line));
        }
        cur
    }
}

/// The name with one trailing `.store` suffix removed, if it ends in one.
pub open spec fn store_suffix_stripped(s: Seq<char>) -> Seq<char> {
    if s.len() >= 6 && s.subrange(s.len() - 6, s.len() as int) == ".store"@ {
        s.subrange(0, s.len() - 6)
    } else {
        s
    }
}

/// The configuration file content for a database name: a single `db=`
/// line holding the name trimmed and with its storage suffix stripped.
pub open spec fn spec_config_line(db: Seq<char>) -> Seq<char> {
    "db="@ + store_suffix_stripped(trimmed(db)) + " \n"@
}

fn has_store_suffix(s: &str) -> (r: bool)
    ensures
        r == (s@.len() >= 6 && s@.subrange(s@.len() - 6, s@.len() as int) == ".store"@),
{
    let n = s.unicode_len();
    if n < 6 {
        return false;
    }
    let r = s.get_char(n - 6) == '.' && s.get_char(n - 5) == 's' && s.get_char(n - 4) == 't'
        && s.get_char(n - 3) == 'o' && s.get_char(n - 2) == 'r' && s.get_char(n - 1) == 'e';
    proof {
        reveal_strlit(".store");
        let tail = s@.subrange(s@.len() - 6, s@.len() as int);
        if r {
            assert(tail =~= ".store"@);
        }
        if tail == ".store"@ {
            assert(s@[s@.len() - 6] == tail[0]);
            assert(s@[s@.len() - 5] == tail[1]);
            assert(s@[s@.len() - 4] == tail[2]);
            assert(s@[s@.len() - 3] == tail[3]);
            assert(s@[s@.len() - 2] == tail[4]);
            assert(s@[s@.len() - 1] == tail[5]);
        }
    }
    r
}

/// Resolved runtime configuration: the logical database name, and whether
/// it came from a persisted configuration file.
#[derive(Debug, PartialEq, Eq)]
pub struct Settings {
    pub db: String,
    pub is_saved: bool,
}

impl Settings {
    /// The hard-coded default: the fixed database name, not yet saved.
    pub fn system_default() -> (r: Self)
        ensures
            r.db@ == DEFAULT_DB_NAME@,
            !r.is_saved,
    {
        Self { db: DEFAULT_DB_NAME.to_owned(), is_saved: false }
    }

    pub fn create(db: String, is_saved: bool) -> (r: Self)
        ensures
            r.db == db,
            r.is_saved == is_saved,
    {
        Self { db, is_saved }
    }

    /// A copy with a replaced database name; whether the settings were
    /// saved is preserved.
    pub fn update(&self, db: String) -> (r: Self)
        ensures
            r.db == db,
            r.is_saved == self.is_saved,
    {
        Self { db, is_saved: self.is_saved }
    }

    /// Whether these settings were loaded from a persisted configuration
    /// file; the sole gate for every data-bearing action.
    pub fn is_config_available(&self) -> (r: bool)
        ensures
            r == self.is_saved,
    {
        self.is_saved
    }

    /// The physical storage identifier: the database name with the fixed
    /// suffix appended.
    pub fn get_db(&self) -> (r: String)
        ensures
            r@ == self.db@ + ".store"@,
    {
        self.db.clone().concat(".store")
    }

    /// The content written to the configuration file for these settings.
    pub fn config_line(&self) -> (r: String)
        ensures
            r@ == spec_config_line(self.db@),
    {
        let core = trim_str(self.db.as_str());
        let stripped = if has_store_suffix(core) {
            core.substring_char(0, core.unicode_len() - 6)
        } else {
            core
        };
        let mut line = String::from_str("db=");
        line.append(stripped);
        line.append(" \n");
        line
    }

    /// Runs the health probe against the given physical identifier.
    pub fn test_setup(&self, db: String) -> (r: Result<ActionResponse, ActionErr>)
        ensures
            match r {
                Ok(resp) => resp is Done,
                Err(e) => e.spec_error_type() is InitNotAvailable && e.spec_msg()
                    == "Please initialize application,use help"@,
            },
    {
        match db_action(CrudAction::HealthCheck, db) {
            Response::Success => Ok(ActionResponse::Done),
            _ => Err(ActionErr::build(ActionErrType::InitNotAvailable)),
        }
    }

    /// Writes the configuration line for these settings through `writer`,
    /// which must put the given text into the configuration file and
    /// report whether that succeeded.
    pub fn write_default_config<F: Fn(String) -> bool>(&self, writer: F) -> (r: Result<
        ActionResponse,
        ActionErr,
    >)
        requires
            forall|content: String| #[trigger] call_requires(writer, (content,)),
        ensures
            match r {
                Ok(resp) => resp is Done,
                Err(e) => e.spec_error_type() is UnableToInitialize && e.spec_msg()
                    == "Unable to initizlize application, contact support"@,
            },
    {
        if writer(self.config_line()) {
            Ok(ActionResponse::Done)
        } else {
            Err(ActionErr::build(ActionErrType::UnableToInitialize))
        }
    }

    pub fn write_custom_config(&self) -> (r: Result<ActionResponse, ActionErr>)
        ensures
            r matches Ok(resp) && resp is Done,
    {
        Ok(ActionResponse::Done)
    }

    /// Creates the database schema at the resolved physical identifier.
    pub fn initalize_db(&self) -> (r: Result<ActionResponse, ActionErr>)
        ensures
            match r {
                Ok(resp) => resp is Done,
                Err(e) => e.spec_error_type() is UnableToInitialize && e.spec_msg()
                    == "Unable to initizlize application, contact support"@,
            },
    {
        let db = self.get_db();
        match init_db(&db) {
            Response::Success => Ok(ActionResponse::Done),
            _ => Err(ActionErr::build(ActionErrType::UnableToInitialize)),
        }
    }

    /// Settings resolved from the text of the configuration file, or the
    /// initialization error when the file is absent (`content` is `None`).
    /// A line without `=`, or whose key is not `db`, is skipped; when no
    /// line assigns `db`, the default database name stands.
    pub fn load_config(content: Option<&str>) -> (r: Result<Self, ActionErr>)
        ensures
            match r {
                Ok(s) => content matches Some(text) && s.is_saved && s.db@ == config_db(
                    text@,
                    0,
                    DEFAULT_DB_NAME@,
                ),
                Err(e) => content is None && e.spec_error_type() is InitNotAvailable
                    && e.spec_msg() == "Please initialize application,use help"@,
            },
    {
        match content {
            None => Err(ActionErr::build(ActionErrType::InitNotAvailable)),
            Some(text) => {
                let len = text.unicode_len();
                let mut db: String = DEFAULT_DB_NAME.to_owned();
                let mut i: usize = 0;
                while i < len
                    invariant
                        i <= len,
                        len == text@.len(),
                        config_db(text@, 0, DEFAULT_DB_NAME@) == config_db(text@, i as int, db@),
                    decreases len - i,
                {
                    let e = find_char_from(text, '\n', i);
                    let ghost before = db@;
                    db = apply_line(text, i, e, db);
                    if e < len {
                        proof {
                            assert(config_db(text@, i as int, before) == config_db(
                                text@,
                                e + 1,
                                db@,
                            ));
                        }
                        i = e + 1;
                    } else {
                        proof {
                            assert(config_db(text@, i as int, before) == db@);
                        }
                        i = len;
                    }
                }
                Ok(Settings::create(db, true))
            },
        }
    }
}

} // verus!

