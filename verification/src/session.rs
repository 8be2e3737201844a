//! The per-session decisions of the wire server: opening a COPY into a
//! table, and the SQL cursors a client declares, fetches from and closes
//! inside an explicit transaction. The server performs what these decide
//! (running queries, draining portals) and reports back.
use vstd::prelude::*;

use crate::sql_text::text_eq;

verus! {

/// An error as a client is answered: its SQLSTATE and its message.
#[derive(Clone, Debug)]
pub struct ClientError {
    pub sqlstate: &'static str,
    pub message: String,
}

/// Whether `e` answers with SQLSTATE `code` and message `message`.
pub open spec fn answers(e: ClientError, code: Seq<char>, message: Seq<char>) -> bool {
    e.sqlstate@ == code && e.message@ == message
}

/// An error with a fixed message.
pub fn client_error(sqlstate: &'static str, message: &str) -> (e: ClientError)
    ensures
        answers(e, sqlstate@, message@),
{
    ClientError { sqlstate, message: message.to_owned() }
}

/// What `{:?}` writes for a string: the text quoted and escaped as Rust
/// debug output does.
pub uninterp spec fn debug_text(s: Seq<char>) -> Seq<char>;

/// The debug form of a string, as error messages quote names (`{:?}`).
#[verifier::external_body]
fn debug_quoted(s: &str) -> (r: String)
    ensures
        r@ == debug_text(s@),
{
    format!("{s:?}")
}

/// `prefix`, the debug form of `name`, then `suffix`.
fn quoting_message(prefix: &str, name: &str, suffix: &str) -> (m: String)
    ensures
        m@ == prefix@ + debug_text(name@) + suffix@,
{
    let mut m = prefix.to_owned();
    let quoted = debug_quoted(name);
    m.append(quoted.as_str());
    m.append(suffix);
    m
}

// ─── COPY ───────────────────────────────────────────────────────────────────

/// Whether the table has a column named `name`.
pub open spec fn has_column(table: Seq<String>, name: Seq<char>) -> bool {
    exists|i: int| 0 <= i < table.len() && table[i]@ == name
}

/// Whether `i` is the first column of the table named `name`.
pub open spec fn first_column_named(table: Seq<String>, name: Seq<char>, i: int) -> bool {
    &&& 0 <= i < table.len()
    &&& table[i]@ == name
    &&& forall|j: int| 0 <= j < i ==> table[j]@ != name
}

/// The first table column named `name`.
pub fn column_index(table: &[String], name: &str) -> (r: Option<usize>)
    ensures
        match r {
            Some(i) => first_column_named(table@, name@, i as int),
            None => !has_column(table@, name@),
        },
{
    let mut i: usize = 0;
    while i < table.len()
        invariant
            i <= table.len(),
            forall|j: int| 0 <= j < i ==> table@[j]@ != name@,
        decreases table.len() - i,
    {
        if text_eq(table[i].as_str(), name) {
            return Some(i);
        }
        i = i + 1;
    }
    None
}

/// Open a COPY into a table with columns `table`, taking the `requested`
/// columns in order: each by the first table column of its name. The first
/// unknown column is refused (42703, naming it), then a COPY already active
/// in the session (55000).
pub fn copy_begin(active: bool, table: &[String], requested: &[String]) -> (r: Result<Vec<usize>, ClientError>)
    ensures
        match r {
            Ok(indices) => {
                &&& !active
                &&& indices.len() == requested.len()
                &&& forall|k: int|
                    0 <= k < requested.len() ==> first_column_named(
                        table@,
                        requested@[k]@,
                        #[trigger] indices@[k] as int,
                    )
            },
            Err(e) => {
                ||| exists|k: int|
                    0 <= k < requested.len() && !has_column(table@, #[trigger] requested@[k]@) && (forall|j: int|
                        0 <= j < k ==> has_column(table@, requested@[j]@)) && answers(
                        e,
                        "42703"@,
                        "COPY column does not exist: "@ + requested@[k]@,
                    )
                ||| (forall|j: int| 0 <= j < requested.len() ==> has_column(table@, requested@[j]@)) && active
                    && answers(e, "55000"@, "another COPY operation is already active"@)
            },
        },
{
    let mut indices: Vec<usize> = Vec::new();
    let mut k: usize = 0;
    while k < requested.len()
        invariant
            k <= requested.len(),
            indices.len() == k,
            forall|j: int| 0 <= j < k ==> first_column_named(table@, requested@[j]@, #[trigger] indices@[j] as int),
        decreases requested.len() - k,
    {
        match column_index(table, requested[k].as_str()) {
            Some(i) => indices.push(i),
            None => {
                let mut message = "COPY column does not exist: ".to_owned();
                message.append(requested[k].as_str());
                let e = ClientError { sqlstate: "42703", message };
                assert forall|j: int| 0 <= j < k implies has_column(table@, requested@[j]@) by {
                    assert(first_column_named(table@, requested@[j]@, indices@[j] as int));
                }
                assert(!has_column(table@, requested@[k as int]@));
                return Err(e);
            },
        }
        k = k + 1;
    }
    if active {
        assert forall|j: int| 0 <= j < requested.len() implies has_column(table@, requested@[j]@) by {
            assert(first_column_named(table@, requested@[j]@, indices@[j] as int));
        }
        return Err(client_error("55000", "another COPY operation is already active"));
    }
    Ok(indices)
}

// ─── SQL cursors ────────────────────────────────────────────────────────────

/// How many cursors one session may hold open.
pub const MAX_SQL_CURSORS_PER_SESSION: usize = 16;

/// A declared cursor: its name, whether it was declared BINARY, how many
/// columns its query returns, and the column formats fixed by its first
/// FETCH.
#[derive(Clone, Debug)]
pub struct CursorEntry {
    pub name: String,
    pub binary: bool,
    pub columns: usize,
    pub formats: Option<Vec<bool>>,
}

/// The mathematical content of a cursor; a format is `true` for binary.
pub struct CursorModel {
    pub name: Seq<char>,
    pub binary: bool,
    pub columns: nat,
    pub formats: Option<Seq<bool>>,
}

impl View for CursorEntry {
    type V = CursorModel;

    open spec fn view(&self) -> CursorModel {
        CursorModel {
            name: self.name@,
            binary: self.binary,
            columns: self.columns as nat,
            formats: match self.formats {
                Some(f) => Some(f@),
                None => None,
            },
        }
    }
}

/// The cursors of a session, in the order they were declared.
pub struct CursorTable {
    entries: Vec<CursorEntry>,
}

impl View for CursorTable {
    type V = Seq<CursorModel>;

    closed spec fn view(&self) -> Seq<CursorModel> {
        self.entries@.map_values(|e: CursorEntry| e@)
    }
}

/// The result format a FETCH asks for: all text, all binary, or one per
/// column (`true` for binary).
#[derive(Clone, Debug)]
pub enum ResultFormat {
    Text,
    Binary,
    Individual(Vec<bool>),
}

/// The state of a cursor's portal when a FETCH arrives.
#[derive(Clone, Copy, Debug)]
pub enum PortalState {
    Initial,
    Running,
    Finished,
}

/// What the server does for a FETCH: answer with no rows, start the
/// cursor's query with the given column formats and then fetch, or fetch
/// from the running query.
#[derive(Clone, Debug)]
pub enum FetchAction {
    Empty,
    Start { formats: Vec<bool> },
    Continue,
}

/// Whether a cursor named `name` is declared.
pub open spec fn has_cursor(s: Seq<CursorModel>, name: Seq<char>) -> bool {
    exists|i: int| 0 <= i < s.len() && s[i].name == name
}

/// Whether `i` is the first cursor named `name`.
pub open spec fn cursor_at(s: Seq<CursorModel>, name: Seq<char>, i: int) -> bool {
    &&& 0 <= i < s.len()
    &&& s[i].name == name
    &&& forall|j: int| 0 <= j < i ==> s[j].name != name
}

/// The column formats a FETCH result takes: one per column, or `None` when
/// an individual format list has the wrong length.
pub open spec fn requested_formats(format: ResultFormat, columns: nat) -> Option<Seq<bool>> {
    match format {
        ResultFormat::Text => Some(Seq::new(columns, |i: int| false)),
        ResultFormat::Binary => Some(Seq::new(columns, |i: int| true)),
        ResultFormat::Individual(v) => if v@.len() == columns {
            Some(v@)
        } else {
            None
        },
    }
}

/// The answer to a command outside an explicit transaction.
pub open spec fn no_transaction(e: ClientError) -> bool {
    answers(e, "25001"@, "PostgreSQL cursors require an explicit transaction"@)
}

/// The answer for a cursor that is not declared.
pub open spec fn unknown_cursor(e: ClientError, name: Seq<char>) -> bool {
    answers(e, "34000"@, "cursor "@ + debug_text(name) + " does not exist"@)
}

fn unknown_cursor_error(name: &str) -> (e: ClientError)
    ensures
        unknown_cursor(e, name@),
{
    ClientError { sqlstate: "34000", message: quoting_message("cursor ", name, " does not exist") }
}

fn formats_of(format: &ResultFormat, columns: usize) -> (r: Option<Vec<bool>>)
    ensures
        match r {
            Some(f) => requested_formats(*format, columns as nat) == Some(f@),
            None => requested_formats(*format, columns as nat) is None,
        },
{
    match format {
        ResultFormat::Text => {
            let f = vec_of(false, columns);
            assert(f@ =~= Seq::new(columns as nat, |i: int| false));
            Some(f)
        },
        ResultFormat::Binary => {
            let f = vec_of(true, columns);
            assert(f@ =~= Seq::new(columns as nat, |i: int| true));
            Some(f)
        },
        ResultFormat::Individual(v) => if v.len() == columns {
            Some(v.clone())
        } else {
            None
        },
    }
}

fn vec_of(b: bool, n: usize) -> (v: Vec<bool>)
    ensures
        v.len() == n,
        forall|i: int| 0 <= i < n ==> v@[i] == b,
{
    let mut v: Vec<bool> = Vec::new();
    while v.len() < n
        invariant
            v.len() <= n,
            forall|i: int| 0 <= i < v.len() ==> v@[i] == b,
        decreases n - v.len(),
    {
        v.push(b);
    }
    v
}

fn same_formats(a: &Vec<bool>, b: &Vec<bool>) -> (r: bool)
    ensures
        r == (a@ == b@),
{
    if a.len() != b.len() {
        return false;
    }
    let mut i: usize = 0;
    while i < a.len()
        invariant
            i <= a.len() == b.len(),
            forall|j: int| 0 <= j < i ==> a@[j] == b@[j],
        decreases a.len() - i,
    {
        if a[i] != b[i] {
            return false;
        }
        i = i + 1;
    }
    assert(a@ =~= b@);
    true
}

impl CursorTable {
    /// A session with no cursors.
    pub fn new() -> (t: Self)
        ensures
            t@ == Seq::<CursorModel>::empty(),
    {
        let t = CursorTable { entries: Vec::new() };
        assert(t@ =~= Seq::<CursorModel>::empty());
        t
    }

    /// How many cursors are open.
    pub fn len(&self) -> (n: usize)
        ensures
            n == self@.len(),
    {
        self.entries.len()
    }

    /// The cursor at position `i`.
    pub fn entry(&self, i: usize) -> (e: &CursorEntry)
        requires
            i < self@.len(),
        ensures
            e@ == self@[i as int],
    {
        &self.entries[i]
    }

    /// The first cursor named `name`.
    pub fn find(&self, name: &str) -> (r: Option<usize>)
        ensures
            match r {
                Some(i) => cursor_at(self@, name@, i as int),
                None => !has_cursor(self@, name@),
            },
    {
        let mut i: usize = 0;
        while i < self.entries.len()
            invariant
                i <= self.entries.len(),
                self@ == self.entries@.map_values(|e: CursorEntry| e@),
                forall|j: int| 0 <= j < i ==> self@[j].name != name@,
            decreases self.entries.len() - i,
        {
            assert(self@[i as int] == self.entries@[i as int]@);
            if text_eq(self.entries[i].name.as_str(), name) {
                return Some(i);
            }
            i = i + 1;
        }
        None
    }

    /// The checks a DECLARE passes before its query is prepared: an
    /// explicit transaction (25001), a new name (42P03), and room for one
    /// more cursor (54000).
    pub fn begin_declare(&self, in_transaction: bool, name: &str) -> (r: Result<(), ClientError>)
        ensures
            match r {
                Ok(()) => in_transaction && !has_cursor(self@, name@) && self@.len()
                    < MAX_SQL_CURSORS_PER_SESSION,
                Err(e) => {
                    ||| !in_transaction && no_transaction(e)
                    ||| in_transaction && has_cursor(self@, name@) && answers(
                        e,
                        "42P03"@,
                        "cursor "@ + debug_text(name@) + " already exists"@,
                    )
                    ||| in_transaction && !has_cursor(self@, name@) && self@.len() >= MAX_SQL_CURSORS_PER_SESSION
                        && answers(e, "54000"@, "session exceeds the 16-cursor limit"@)
                },
            },
    {
        if !in_transaction {
            return Err(client_error("25001", "PostgreSQL cursors require an explicit transaction"));
        }
        if self.find(name).is_some() {
            return Err(ClientError { sqlstate: "42P03", message: quoting_message("cursor ", name, " already exists") });
        }
        if self.entries.len() >= MAX_SQL_CURSORS_PER_SESSION {
            return Err(client_error("54000", "session exceeds the 16-cursor limit"));
        }
        Ok(())
    }

    /// Declare a cursor once its query is prepared: only a parameter-free
    /// read may back a cursor (0A000); the cursor then replaces any of the
    /// same name, or is added after the others.
    pub fn finish_declare(&mut self, name: String, binary: bool, parameter_free_read: bool, columns: usize) -> (r:
        Result<(), ClientError>)
        ensures
            match r {
                Ok(()) => parameter_free_read && {
                    let c = CursorModel { name: name@, binary, columns: columns as nat, formats: None };
                    if has_cursor(old(self)@, name@) {
                        exists|i: int| cursor_at(old(self)@, name@, i) && final(self)@ == old(self)@.update(i, c)
                    } else {
                        final(self)@ == old(self)@.push(c)
                    }
                },
                Err(e) => !parameter_free_read && final(self)@ == old(self)@ && answers(
                    e,
                    "0A000"@,
                    "DECLARE CURSOR supports parameter-free SELECT queries only"@,
                ),
            },
    {
        if !parameter_free_read {
            return Err(client_error("0A000", "DECLARE CURSOR supports parameter-free SELECT queries only"));
        }
        let found = self.find(name.as_str());
        let entry = CursorEntry { name, binary, columns, formats: None };
        let ghost c = entry@;
        match found {
            Some(i) => {
                self.entries.set(i, entry);
                assert(self@ =~= old(self)@.update(i as int, c));
            },
            None => {
                self.entries.push(entry);
                assert(self@ =~= old(self)@.push(c));
            },
        }
        Ok(())
    }

    /// Decide a FETCH of `rows` rows: the cursor must exist (34000); a
    /// BINARY cursor answers in binary whatever was asked; no rows asked
    /// answers empty; the formats must match the columns (08P01) and those
    /// of earlier fetches (0A000); a finished query answers empty, a query
    /// not started yet starts with these formats, a running one continues.
    pub fn fetch(&self, in_transaction: bool, name: &str, rows: usize, format: &ResultFormat, portal: PortalState) -> (r:
        Result<FetchAction, ClientError>)
        ensures
            !in_transaction ==> (r matches Err(e) && no_transaction(e)),
            in_transaction && !has_cursor(self@, name@) ==> (r matches Err(e) && unknown_cursor(e, name@)),
            in_transaction && has_cursor(self@, name@) ==> exists|i: int|
                #[trigger] cursor_at(self@, name@, i) && {
                    let c = self@[i];
                    let asked = if c.binary { ResultFormat::Binary } else { *format };
                    if rows == 0 {
                        r matches Ok(FetchAction::Empty)
                    } else {
                        match requested_formats(asked, c.columns) {
                            None => r matches Err(e) && answers(
                                e,
                                "08P01"@,
                                "cursor result format count does not match its columns"@,
                            ),
                            Some(f) => if c.formats is Some && c.formats != Some(f) {
                                r matches Err(e) && answers(
                                    e,
                                    "0A000"@,
                                    "PostgreSQL cursor result format cannot change between FETCH statements"@,
                                )
                            } else {
                                match portal {
                                    PortalState::Finished => r matches Ok(FetchAction::Empty),
                                    PortalState::Initial => r matches Ok(FetchAction::Start { formats }) && formats@
                                        == f,
                                    PortalState::Running => r matches Ok(FetchAction::Continue),
                                }
                            },
                        }
                    }
                },
    {
        if !in_transaction {
            return Err(client_error("25001", "PostgreSQL cursors require an explicit transaction"));
        }
        let i = match self.find(name) {
            Some(i) => i,
            None => return Err(unknown_cursor_error(name)),
        };
        let entry = &self.entries[i];
        assert(entry@ == self@[i as int]);
        assert(cursor_at(self@, name@, i as int));
        if rows == 0 {
            return Ok(FetchAction::Empty);
        }
        let found = if entry.binary {
            formats_of(&ResultFormat::Binary, entry.columns)
        } else {
            formats_of(format, entry.columns)
        };
        let requested = match found {
            Some(f) => f,
            None => {
                return Err(client_error("08P01", "cursor result format count does not match its columns"));
            },
        };
        if let Some(fixed) = &entry.formats {
            if !same_formats(fixed, &requested) {
                return Err(
                    client_error("0A000", "PostgreSQL cursor result format cannot change between FETCH statements"),
                );
            }
        }
        match portal {
            PortalState::Finished => Ok(FetchAction::Empty),
            PortalState::Initial => Ok(FetchAction::Start { formats: requested }),
            PortalState::Running => Ok(FetchAction::Continue),
        }
    }

    /// Record the column formats a cursor's first FETCH fixed.
    pub fn fix_formats(&mut self, name: &str, formats: Vec<bool>) -> (r: Result<(), ClientError>)
        ensures
            match r {
                Ok(()) => exists|i: int|
                    cursor_at(old(self)@, name@, i) && final(self)@ == old(self)@.update(
                        i,
                        CursorModel { formats: Some(formats@), ..old(self)@[i] },
                    ),
                Err(e) => !has_cursor(old(self)@, name@) && final(self)@ == old(self)@ && unknown_cursor(e, name@),
            },
    {
        match self.find(name) {
            None => Err(unknown_cursor_error(name)),
            Some(i) => {
                let e = &self.entries[i];
                let entry = CursorEntry { name: e.name.clone(), binary: e.binary, columns: e.columns, formats: Some(formats) };
                let ghost c = entry@;
                assert(c == CursorModel { formats: Some(formats@), ..old(self)@[i as int] });
                self.entries.set(i, entry);
                assert(self@ =~= old(self)@.update(i as int, c));
                Ok(())
            },
        }
    }

    /// Close the named cursor (34000 when it is not declared), or every
    /// cursor; the names closed are returned for their portals to be
    /// drained.
    pub fn close(&mut self, in_transaction: bool, name: Option<&str>) -> (r: Result<Vec<String>, ClientError>)
        ensures
            match r {
                Ok(closed) => in_transaction && match name {
                    Some(n) => exists|i: int|
                        cursor_at(old(self)@, n@, i) && final(self)@ == old(self)@.remove(i) && closed@.len() == 1
                            && closed@[0]@ == n@,
                    None => final(self)@ == Seq::<CursorModel>::empty() && closed@.len() == old(self)@.len()
                        && forall|i: int| 0 <= i < closed@.len() ==> #[trigger] closed@[i]@ == old(self)@[i].name,
                },
                Err(e) => final(self)@ == old(self)@ && {
                    ||| !in_transaction && no_transaction(e)
                    ||| in_transaction && (name matches Some(n) && !has_cursor(old(self)@, n@) && unknown_cursor(e, n@))
                },
            },
    {
        if !in_transaction {
            return Err(client_error("25001", "PostgreSQL cursors require an explicit transaction"));
        }
        match name {
            Some(n) => match self.find(n) {
                None => Err(unknown_cursor_error(n)),
                Some(i) => {
                    let ghost before = self@;
                    let _closed_entry = self.entries.remove(i);
                    assert(self@ =~= before.remove(i as int));
                    let mut closed: Vec<String> = Vec::new();
                    closed.push(n.to_owned());
                    Ok(closed)
                },
            },
            None => {
                let mut closed: Vec<String> = Vec::new();
                let mut i: usize = 0;
                while i < self.entries.len()
                    invariant
                        i <= self.entries.len(),
                        self@ == old(self)@,
                        self@ == self.entries@.map_values(|e: CursorEntry| e@),
                        closed@.len() == i,
                        forall|j: int| 0 <= j < i ==> #[trigger] closed@[j]@ == self@[j].name,
                    decreases self.entries.len() - i,
                {
                    assert(self@[i as int] == self.entries@[i as int]@);
                    closed.push(self.entries[i].name.clone());
                    i = i + 1;
                }
                self.entries = Vec::new();
                assert(self@ =~= Seq::<CursorModel>::empty());
                Ok(closed)
            },
        }
    }
}

} // verus!
