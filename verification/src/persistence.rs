//! The persistence engine: the schema, the CRUD statements, and the
//! health probe. Every call opens the database file fresh, executes, and
//! reports a driver failure as a generic `Error` outcome.

use vstd::prelude::*;

use crate::domain::{Server, DEFAULT_USER};
use crate::sqlite::{
    execute_sql, execute_sql_id, execute_sql_id_text, execute_sql_texts, last_insert_rowid,
    open_connection, prepare_sql, query_stmt, query_stmt_id_name, row_get_i32, row_get_opt_string,
    row_get_string, rows_next,
};

verus! {

/// A CRUD request to the persistence engine.
pub enum CrudAction {
    Save(Server),
    Find(i64),
    Remove(i64),
    FindAll,
    RemoveAll,
    HealthCheck,
}

/// A storage outcome as the action router sees it.
pub enum Response {
    List(Vec<Server>),
    One(Option<Server>),
    Success,
    Error(String),
}

const CREATE_USER_TABLE: &'static str = "create table if not exists user (
             id integer primary key,
             name text not null unique
         )";

const CREATE_SERVER_TABLE: &'static str = "create table if not exists server (
             id integer primary key,
             title text,
             domain text,
             ip text,
             user_name text not null,
             owner_id integer not null references user(id)
         )";

const CREATE_HEALTH_TABLE: &'static str = "create table if not exists health (
             name text not null
         )";

const INSERT_USER: &'static str = "INSERT INTO user (id,name) values (?1,?2)";

const INSERT_SERVER: &'static str =
    "INSERT INTO server (title,domain,ip,user_name,owner_id) values (?1,?2,?3,?4,(SELECT id FROM user where name = ?5));";

const SELECT_ONE: &'static str = "SELECT s.id,s.title,s.domain,s.ip,s.user_name,u.name from server s
        INNER JOIN user u
        ON u.id = s.owner_id where s.id = :id and u.id = (SELECT id FROM user where name = :name)";

const SELECT_ALL: &'static str = "SELECT s.id,s.title,s.domain,s.ip,s.user_name,u.name from server s
        INNER JOIN user u
        ON u.id = s.owner_id;";

const DELETE_ALL: &'static str = "DELETE FROM Server";

const DELETE_ONE: &'static str = "DELETE FROM Server where id =?";

const INSERT_HEALTH: &'static str = "INSERT INTO health (name) values (?1)";

const SELECT_HEALTH: &'static str = "SELECT * FROM health;";

const DELETE_HEALTH: &'static str = "DELETE FROM health";

/// The message reported when the database file cannot be opened.
const OPEN_FAILURE_MSG: &'static str = "Db store is not found, Please setup application";

/// The message reported when a statement fails against an open database.
const STATEMENT_FAILURE_MSG: &'static str = "Failure";

/// The column values a record is stored with, in binding order: title,
/// domain, ip, login user, and the owning account name. An absent domain
/// or ip is stored as the empty string, not as NULL.
pub fn server_params(server: Server) -> (r: Vec<String>)
    ensures
        r@.len() == 5,
        r@[0]@ == server.title@,
        r@[1]@ == match server.domain {
            Some(d) => d@,
            None => Seq::<char>::empty(),
        },
        r@[2]@ == match server.ip {
            Some(i) => i@,
            None => Seq::<char>::empty(),
        },
        r@[3]@ == server.user_name@,
        r@[4]@ == DEFAULT_USER@,
{
    let mut params: Vec<String> = Vec::new();
    params.push(server.title);
    params.push(
        match server.domain {
            Some(d) => d,
            None => String::new(),
        },
    );
    params.push(
        match server.ip {
            Some(i) => i,
            None => String::new(),
        },
    );
    params.push(server.user_name);
    params.push(DEFAULT_USER.to_owned());
    params
}

fn insert_server(server: Server, conn: &rusqlite::Connection) -> bool {
    let params = server_params(server);
    execute_sql_texts(conn, INSERT_SERVER, &params)
}

fn insert_user(name: &str, conn: &rusqlite::Connection) -> bool {
    let last_id = last_insert_rowid(conn);
    execute_sql_id_text(conn, INSERT_USER, last_id, name)
}

/// One record by id, joined to the default owner. `Ok(None)` when no row
/// matched; `Err` when the query could not be prepared, started, or read.
/// A returned record always carries the storage-assigned id.
fn read_one(id: i64, conn: &rusqlite::Connection) -> (r: Result<Option<Server>, ()>)
    ensures
        r matches Ok(found) ==> (found matches Some(s) ==> s.id is Some),
{
    let mut stmt = match prepare_sql(conn, SELECT_ONE) {
        Some(stmt) => stmt,
        None => {
            return Err(());
        },
    };
    let mut rows = match query_stmt_id_name(&mut stmt, id, DEFAULT_USER) {
        Some(rows) => rows,
        None => {
            return Err(());
        },
    };
    let mut result: Option<Server> = None;
    // The budget only bounds the loop for the termination check; no table
    // holds that many rows.
    let mut budget: u64 = u64::MAX;
    loop
        invariant
            result matches Some(s) ==> s.id is Some,
        decreases budget,
    {
        if budget == 0 {
            return Err(());
        }
        budget = budget - 1;
        match rows_next(&mut rows) {
            Err(()) => {
                return Err(());
            },
            Ok(None) => {
                break ;
            },
            Ok(Some(row)) => {
                let row_id = match row_get_i32(row, 0) {
                    Ok(v) => v,
                    Err(()) => {
                        return Err(());
                    },
                };
                let title = match row_get_string(row, 1) {
                    Ok(v) => v,
                    Err(()) => {
                        return Err(());
                    },
                };
                let domain = match row_get_opt_string(row, 2) {
                    Ok(v) => v,
                    Err(()) => {
                        return Err(());
                    },
                };
                let ip = match row_get_opt_string(row, 3) {
                    Ok(v) => v,
                    Err(()) => {
                        return Err(());
                    },
                };
                let user_name = match row_get_string(row, 4) {
                    Ok(v) => v,
                    Err(()) => {
                        return Err(());
                    },
                };
                let owner = match row_get_opt_string(row, 5) {
                    Ok(v) => v,
                    Err(()) => {
                        return Err(());
                    },
                };
                result = Some(Server { id: Some(row_id), title, domain, ip, user_name, owner });
            },
        }
    }
    Ok(result)
}

/// Every record joined to the default owner. A failure to prepare or
/// start the query is an `Err`; a failure while reading the rows yields
/// the empty list. On this read path every returned record carries the
/// storage-assigned id and a present (possibly empty) domain and ip.
fn read_all(conn: &rusqlite::Connection) -> (r: Result<Vec<Server>, ()>)
    ensures
        r matches Ok(list) ==> forall|k: int|
            0 <= k < list@.len() ==> (#[trigger] list@[k]).id is Some && list@[k].domain is Some
                && list@[k].ip is Some,
{
    let mut stmt = match prepare_sql(conn, SELECT_ALL) {
        Some(stmt) => stmt,
        None => {
            return Err(());
        },
    };
    let mut rows = match query_stmt(&mut stmt) {
        Some(rows) => rows,
        None => {
            return Err(());
        },
    };
    let mut list: Vec<Server> = Vec::new();
    // The budget only bounds the loop for the termination check; no table
    // holds that many rows.
    let mut budget: u64 = u64::MAX;
    loop
        invariant
            forall|k: int|
                0 <= k < list@.len() ==> (#[trigger] list@[k]).id is Some && list@[k].domain
                    is Some && list@[k].ip is Some,
        decreases budget,
    {
        if budget == 0 {
            return Err(());
        }
        budget = budget - 1;
        match rows_next(&mut rows) {
            Err(()) => {
                return Ok(Vec::new());
            },
            Ok(None) => {
                break ;
            },
            Ok(Some(row)) => {
                let row_id = match row_get_i32(row, 0) {
                    Ok(v) => v,
                    Err(()) => {
                        return Ok(Vec::new());
                    },
                };
                let title = match row_get_string(row, 1) {
                    Ok(v) => v,
                    Err(()) => {
                        return Ok(Vec::new());
                    },
                };
                let domain = match row_get_string(row, 2) {
                    Ok(v) => v,
                    Err(()) => {
                        return Ok(Vec::new());
                    },
                };
                let ip = match row_get_string(row, 3) {
                    Ok(v) => v,
                    Err(()) => {
                        return Ok(Vec::new());
                    },
                };
                let user_name = match row_get_string(row, 4) {
                    Ok(v) => v,
                    Err(()) => {
                        return Ok(Vec::new());
                    },
                };
                let owner = match row_get_opt_string(row, 5) {
                    Ok(v) => v,
                    Err(()) => {
                        return Ok(Vec::new());
                    },
                };
                list.push(
                    Server {
                        id: Some(row_id),
                        title,
                        domain: Some(domain),
                        ip: Some(ip),
                        user_name,
                        owner,
                    },
                );
            },
        }
    }
    Ok(list)
}

fn remove_all_records(conn: &rusqlite::Connection) -> bool {
    execute_sql(conn, DELETE_ALL)
}

fn remove_record(id: i64, conn: &rusqlite::Connection) -> bool {
    execute_sql_id(conn, DELETE_ONE, id)
}

/// The health probe: inserts a row into the scratch table, reads the
/// table back, and deletes every row from it; any failing step is an
/// `Error`.
pub fn check(conn: &rusqlite::Connection) -> (r: Response)
    ensures
        r is Success || r is Error,
{
    let mut params: Vec<String> = Vec::new();
    params.push("health str".to_owned());
    if !execute_sql_texts(conn, INSERT_HEALTH, &params) {
        return Response::Error(STATEMENT_FAILURE_MSG.to_owned());
    }
    let mut stmt = match prepare_sql(conn, SELECT_HEALTH) {
        Some(stmt) => stmt,
        None => {
            return Response::Error(STATEMENT_FAILURE_MSG.to_owned());
        },
    };
    let mut rows = match query_stmt(&mut stmt) {
        Some(rows) => rows,
        None => {
            return Response::Error(STATEMENT_FAILURE_MSG.to_owned());
        },
    };
    // The budget only bounds the loop for the termination check; no table
    // holds that many rows.
    let mut budget: u64 = u64::MAX;
    loop
        decreases budget,
    {
        if budget == 0 {
            return Response::Error(STATEMENT_FAILURE_MSG.to_owned());
        }
        budget = budget - 1;
        match rows_next(&mut rows) {
            Err(()) => {
                return Response::Error(STATEMENT_FAILURE_MSG.to_owned());
            },
            Ok(None) => {
                break ;
            },
            Ok(Some(row)) => {
                match row_get_string(row, 0) {
                    Ok(_) => (),
                    Err(()) => {
                        return Response::Error(STATEMENT_FAILURE_MSG.to_owned());
                    },
                }
            },
        }
    }
    if !execute_sql(conn, DELETE_HEALTH) {
        return Response::Error(STATEMENT_FAILURE_MSG.to_owned());
    }
    Response::Success
}

/// Creates the three tables when absent and inserts the default owner
/// row. A failure to insert the owner again is ignored, so repeating the
/// initialization succeeds.
pub fn init_db(db: &String) -> (r: Response)
    ensures
        r is Success || r is Error,
{
    let conn = match open_connection(db.as_str()) {
        Some(conn) => conn,
        None => {
            return Response::Error(OPEN_FAILURE_MSG.to_owned());
        },
    };
    if !execute_sql(&conn, CREATE_USER_TABLE) {
        return Response::Error(STATEMENT_FAILURE_MSG.to_owned());
    }
    if !execute_sql(&conn, CREATE_SERVER_TABLE) {
        return Response::Error(STATEMENT_FAILURE_MSG.to_owned());
    }
    if !execute_sql(&conn, CREATE_HEALTH_TABLE) {
        return Response::Error(STATEMENT_FAILURE_MSG.to_owned());
    }
    // A unique-constraint failure here means the owner row already exists.
    let _ = insert_user(DEFAULT_USER, &conn);
    Response::Success
}

/// Executes one CRUD request against the database file `db`, reporting
/// any driver failure as a generic `Error` outcome.
pub fn db_action(action: CrudAction, db: String) -> (r: Response)
    ensures
        action is Save ==> (r is Success || r is Error),
        action is Remove ==> (r is Success || r is Error),
        action is RemoveAll ==> (r is Success || r is Error),
        action is HealthCheck ==> (r is Success || r is Error),
        action is Find ==> (r is One || r is Error),
        action is FindAll ==> (r is List || r is Error),
        r matches Response::One(found) ==> (found matches Some(s) ==> s.id is Some),
        r matches Response::List(list) ==> forall|k: int|
            0 <= k < list@.len() ==> (#[trigger] list@[k]).id is Some && list@[k].domain is Some
                && list@[k].ip is Some,
{
    let conn = match open_connection(db.as_str()) {
        Some(conn) => conn,
        None => {
            return Response::Error(OPEN_FAILURE_MSG.to_owned());
        },
    };
    match action {
        CrudAction::Save(server) => {
            if insert_server(server, &conn) {
                Response::Success
            } else {
                Response::Error(STATEMENT_FAILURE_MSG.to_owned())
            }
        },
        CrudAction::Find(id) => match read_one(id, &conn) {
            Ok(result) => Response::One(result),
            Err(()) => Response::Error(STATEMENT_FAILURE_MSG.to_owned()),
        },
        CrudAction::FindAll => match read_all(&conn) {
            Ok(list) => Response::List(list),
            Err(()) => Response::Error(STATEMENT_FAILURE_MSG.to_owned()),
        },
        CrudAction::Remove(id) => {
            if remove_record(id, &conn) {
                Response::Success
            } else {
                Response::Error(STATEMENT_FAILURE_MSG.to_owned())
            }
        },
        CrudAction::RemoveAll => {
            if remove_all_records(&conn) {
                Response::Success
            } else {
                Response::Error(STATEMENT_FAILURE_MSG.to_owned())
            }
        },
        CrudAction::HealthCheck => check(&conn),
    }
}

} // verus!
