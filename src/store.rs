use vstd::prelude::*;

use crate::wire::{
    Instruction, InstructionView, Response, ResponseView, WireError, decode_instruction_spec,
    json_array_of, pair_view, response_fields,
};

verus! {

#[verifier::external_type_specification]
#[verifier::external_body]
pub struct ExConnection(sqlite::Connection);

#[verifier::external_type_specification]
#[verifier::external_body]
pub struct ExSqliteError(sqlite::Error);

/// Relies on `sqlite::open`: opens (or creates) the database at `path`.
#[verifier::external_body]
fn open_connection(path: &str) -> (r: Result<sqlite::Connection, sqlite::Error>) {
    sqlite::open(path)
}

/// Relies on `sqlite::Connection::execute`: runs `sql` and ignores any rows.
#[verifier::external_body]
fn execute(db: &sqlite::Connection, sql: &str) -> (r: Result<(), sqlite::Error>) {
    db.execute(sql)
}

/// Relies on `sqlite::Connection::prepare`, `Statement::bind` with a named
/// parameter, `Statement::next` and `Statement::read`: runs `sql` with each
/// parameter bound to its text and returns the first two columns of every
/// row it yields, as text. What comes back depends on the database's contents.
#[verifier::external_body]
fn run_statement(db: &sqlite::Connection, sql: &str, params: &Vec<(String, String)>) -> (r: Result<
    Vec<(String, String)>,
    sqlite::Error,
>) {
    let mut statement = db.prepare(sql)?;
    for (name, value) in params.iter() {
        statement.bind((name.as_str(), value.as_str()))?;
    }
    let mut rows = Vec::new();
    while let sqlite::State::Row = statement.next()? {
        rows.push((statement.read::<String, usize>(0)?, statement.read::<String, usize>(1)?));
    }
    Ok(rows)
}

/// A statement against the `users` table with its named text parameters.
pub struct Query {
    pub sql: String,
    pub params: Vec<(String, String)>,
}

pub struct QueryView {
    pub sql: Seq<char>,
    pub params: Seq<(Seq<char>, Seq<char>)>,
}

impl View for Query {
    type V = QueryView;

    open spec fn view(&self) -> QueryView {
        QueryView { sql: self.sql@, params: self.params@.map_values(|p: (String, String)| pair_view(p)) }
    }
}

/// The statement that carries out an instruction.
pub open spec fn query_spec(v: InstructionView) -> QueryView {
    match v {
        InstructionView::AddPhoneNumber { key, number } => QueryView {
            sql: "INSERT INTO users VALUES (:key, :number)"@,
            params: seq![(":key"@, key), (":number"@, number)],
        },
        InstructionView::EditNumber { key, number } => QueryView {
            sql: "UPDATE users SET number = :number WHERE name = :key"@,
            params: seq![(":key"@, key), (":number"@, number)],
        },
        InstructionView::DeleteUser { key } => QueryView {
            sql: "DELETE FROM users WHERE name = :key"@,
            params: seq![(":key"@, key)],
        },
        InstructionView::GetAllUsers => QueryView {
            sql: "SELECT name, number FROM users"@,
            params: seq![],
        },
    }
}

/// The text that opens the failure message of an instruction.
pub open spec fn failure_prefix(v: InstructionView) -> Seq<char> {
    match v {
        InstructionView::AddPhoneNumber { .. } => "Sqlite failure on adding user entry: "@,
        InstructionView::EditNumber { .. } => "Sqlite failure on editing user entry: "@,
        InstructionView::DeleteUser { .. } => "Sqlite failure on deleting user entry: "@,
        InstructionView::GetAllUsers => "Sqlite failure on reading user entries: "@,
    }
}

/// The answer to an instruction, given what running its statement gave: the
/// rows read, or the engine's error text. Every instruction gets exactly one
/// answer; a statement that matched no row is no failure.
pub open spec fn response_spec(
    v: InstructionView,
    outcome: Result<Seq<(Seq<char>, Seq<char>)>, Seq<char>>,
) -> ResponseView {
    match outcome {
        Err(text) => ResponseView::Fail { message: failure_prefix(v) + text },
        Ok(rows) => match v {
            InstructionView::GetAllUsers => ResponseView::AllUsers(rows),
            _ => ResponseView::Success,
        },
    }
}

/// Deleting is silent about missing rows: however many rows a delete matched
/// (none included), each run that the engine completes is answered `Success`,
/// so deleting the same key twice gives two successes.
pub proof fn lemma_delete_is_idempotent(
    key: Seq<char>,
    first: Seq<(Seq<char>, Seq<char>)>,
    second: Seq<(Seq<char>, Seq<char>)>,
)
    ensures
        response_spec(InstructionView::DeleteUser { key }, Ok(first)) == ResponseView::Success,
        response_spec(InstructionView::DeleteUser { key }, Ok(second)) == ResponseView::Success,
{
}

/// Whether `r` is an answer that `v` may get from some run of its statement.
pub open spec fn possible_response(v: InstructionView, r: ResponseView) -> bool {
    exists|outcome: Result<Seq<(Seq<char>, Seq<char>)>, Seq<char>>|
        r == #[trigger] response_spec(v, outcome)
}

/// What running a statement gave, as rows or error text.
pub open spec fn outcome_view(outcome: Result<Vec<(String, String)>, String>) -> Result<
    Seq<(Seq<char>, Seq<char>)>,
    Seq<char>,
> {
    match outcome {
        Ok(rows) => Ok(rows@.map_values(|p: (String, String)| pair_view(p))),
        Err(text) => Err(text@),
    }
}

/// The statement that carries out `ins`.
pub fn query_for(ins: &Instruction) -> (q: Query)
    ensures
        q@ == query_spec(ins@),
{
    let mut params: Vec<(String, String)> = Vec::new();
    let sql = match ins {
        Instruction::AddPhoneNumber { key, number } => {
            params.push((":key".to_owned(), key.clone()));
            params.push((":number".to_owned(), number.clone()));
            "INSERT INTO users VALUES (:key, :number)".to_owned()
        },
        Instruction::EditNumber { key, number } => {
            params.push((":key".to_owned(), key.clone()));
            params.push((":number".to_owned(), number.clone()));
            "UPDATE users SET number = :number WHERE name = :key".to_owned()
        },
        Instruction::DeleteUser { key } => {
            params.push((":key".to_owned(), key.clone()));
            "DELETE FROM users WHERE name = :key".to_owned()
        },
        Instruction::GetAllUsers => "SELECT name, number FROM users".to_owned(),
    };
    let q = Query { sql, params };
    assert(q@.params =~= query_spec(ins@).params);
    q
}

/// The answer to `ins` once its statement has run with `outcome`.
pub fn respond(ins: &Instruction, outcome: Result<Vec<(String, String)>, String>) -> (r: Response)
    ensures
        r@ == response_spec(ins@, outcome_view(outcome)),
{
    match outcome {
        Err(text) => {
            let prefix = match ins {
                Instruction::AddPhoneNumber { .. } => "Sqlite failure on adding user entry: ",
                Instruction::EditNumber { .. } => "Sqlite failure on editing user entry: ",
                Instruction::DeleteUser { .. } => "Sqlite failure on deleting user entry: ",
                Instruction::GetAllUsers => "Sqlite failure on reading user entries: ",
            };
            Response::Fail { message: prefix.to_owned().concat(text.as_str()) }
        },
        Ok(rows) => match ins {
            Instruction::GetAllUsers => Response::AllUsers(rows),
            _ => Response::Success,
        },
    }
}

/// The authoritative contact table, held in an SQL database.
pub struct Store {
    db: sqlite::Connection,
}

impl Store {
    /// A store over a fresh in-memory database holding an empty `users` table.
    pub fn open_in_memory() -> (r: Result<Store, String>) {
        let db = match open_connection(":memory:") {
            Ok(db) => db,
            Err(e) => return Err(e.to_string()),
        };
        match execute(&db, "CREATE TABLE users (name TEXT, number TEXT)") {
            Ok(()) => Ok(Store { db }),
            Err(e) => Err(e.to_string()),
        }
    }

    /// Carries out one instruction and gives its answer: `Success` for a
    /// change, `AllUsers` with every row for a read, `Fail` with the engine's
    /// error text when the statement fails.
    pub fn handle(&self, ins: &Instruction) -> (r: Response)
        ensures
            possible_response(ins@, r@),
    {
        let q = query_for(ins);
        let outcome = match run_statement(&self.db, q.sql.as_str(), &q.params) {
            Ok(rows) => Ok(rows),
            Err(e) => Err(e.to_string()),
        };
        let ghost o = outcome_view(outcome);
        let r = respond(ins, outcome);
        assert(r@ == response_spec(ins@, o));
        r
    }

    /// Answers one datagram payload: the encoded answer to the instruction it
    /// carries, or `MalformedMessage` when it carries none, so that the caller
    /// can skip it and go on serving.
    pub fn serve(&self, payload: &[u8]) -> (r: Result<Vec<u8>, WireError>)
        ensures
            match decode_instruction_spec(payload@) {
                None => r is Err,
                Some(v) => r is Ok && exists|resp: ResponseView|
                    possible_response(v, resp) && r->Ok_0@ == json_array_of(
                        #[trigger] response_fields(resp),
                    ),
            },
    {
        match Instruction::decode(payload) {
            Err(e) => Err(e),
            Ok(ins) => {
                let resp = self.handle(&ins);
                let bytes = resp.encode();
                assert(possible_response(ins@, resp@) && bytes@ == json_array_of(
                    response_fields(resp@),
                ));
                Ok(bytes)
            },
        }
    }
}

} // verus!
