//! The action router: the single entry point that checks the
//! initialization gate, dispatches a user intent to the persistence
//! engine, and translates storage outcomes into the closed response and
//! error vocabulary. Opening a terminal session is outside work, so the
//! router receives it as a `connector` closure and only decides when and
//! with which host it is called.

use vstd::prelude::*;

use crate::domain::{Action, ActionErr, ActionErrType, ActionResponse, Server, Settings, ID};
use crate::persistence::{db_action, CrudAction, Response};

verus! {

/// Whether an optional field carries a usable value: present and
/// non-empty.
pub open spec fn populated(field: Option<String>) -> bool {
    field matches Some(s) && s@.len() > 0
}

/// The host a record connects to: its domain when populated, else its ip
/// when populated, else none.
pub open spec fn chosen_host(server: Server) -> Option<String> {
    if populated(server.domain) {
        server.domain
    } else if populated(server.ip) {
        server.ip
    } else {
        None
    }
}

/// Picks the host a record connects to, exactly as `chosen_host` says.
pub fn connect_target(server: &Server) -> (r: Option<String>)
    ensures
        r == chosen_host(*server),
{
    if let Some(d) = &server.domain {
        if d.as_str().unicode_len() > 0 {
            return Some(d.clone());
        }
    }
    if let Some(i) = &server.ip {
        if i.as_str().unicode_len() > 0 {
            return Some(i.clone());
        }
    }
    None
}

/// Translates a storage outcome of a save: success is `Done`, anything
/// else the fixed save failure.
pub fn save_outcome(outcome: Response) -> (r: Result<ActionResponse, ActionErr>)
    ensures
        match outcome {
            Response::Success => r matches Ok(resp) && resp is Done,
            _ => r matches Err(e) && e.spec_error_type() is RecordNotFound && e.spec_msg()
                == "Save action failed"@,
        },
{
    match outcome {
        Response::Success => Ok(ActionResponse::Done),
        _ => Err(ActionErr::build(ActionErrType::ActionFailed("Save action failed".to_owned()))),
    }
}

/// Translates a list outcome: an empty list is `Empty`, never `All` of an
/// empty list; anything but a list is also `Empty`.
pub fn fetch_outcome(outcome: Response) -> (r: ActionResponse)
    ensures
        match outcome {
            Response::List(list) => if list@.len() == 0 {
                r is Empty
            } else {
                r matches ActionResponse::All(l) && l == list
            },
            _ => r is Empty,
        },
{
    match outcome {
        Response::List(result) => {
            if result.len() == 0 {
                ActionResponse::Empty
            } else {
                ActionResponse::All(result)
            }
        },
        _ => ActionResponse::Empty,
    }
}

/// Translates a lookup outcome: a one-shaped outcome is passed through,
/// anything else collapses to `Empty`.
pub fn fetch_by_id_outcome(outcome: Response) -> (r: ActionResponse)
    ensures
        match outcome {
            Response::One(result) => r matches ActionResponse::One(x) && x == result,
            _ => r is Empty,
        },
{
    match outcome {
        Response::One(result) => ActionResponse::One(result),
        _ => ActionResponse::Empty,
    }
}

/// Translates a delete outcome: success is `Done`; anything else the
/// initialization error, which doubles as the generic delete failure.
pub fn delete_outcome(outcome: Response) -> (r: Result<ActionResponse, ActionErr>)
    ensures
        match outcome {
            Response::Success => r matches Ok(resp) && resp is Done,
            _ => r matches Err(e) && e.spec_error_type() is InitNotAvailable && e.spec_msg()
                == "Please initialize application,use help"@,
        },
{
    match outcome {
        Response::Success => Ok(ActionResponse::Done),
        _ => Err(ActionErr::build(ActionErrType::InitNotAvailable)),
    }
}

/// Decides a connect request from the lookup's outcome: a missing record,
/// or one whose domain and ip are both unpopulated, fails without the
/// connector being consulted; otherwise the session is opened through
/// `connector` with the record's login user and its chosen host, and the
/// connector's answer decides the result.
pub fn connect_outcome<F: Fn(String, String) -> bool>(response: ActionResponse, connector: F) -> (r:
    Result<ActionResponse, ActionErr>)
    requires
        forall|user: String, host: String| #[trigger] call_requires(connector, (user, host)),
    ensures
        match r {
            Ok(resp) => resp is Done,
            Err(e) => e.spec_error_type() is RecordNotFound && e.spec_msg()
                == "Connect Action failed"@,
        },
        !(response matches ActionResponse::One(Some(_))) ==> r is Err,
        (response matches ActionResponse::One(Some(server)) ==> match chosen_host(server) {
            None => r is Err,
            Some(host) => (r is Ok && call_ensures(connector, (server.user_name, host), true)) || (
            r is Err && call_ensures(connector, (server.user_name, host), false)),
        }),
{
    match response {
        ActionResponse::One(Some(server)) => match connect_target(&server) {
            Some(host) => {
                if connector(server.user_name.clone(), host) {
                    Ok(ActionResponse::Done)
                } else {
                    Err(
                        ActionErr::build(
                            ActionErrType::ActionFailed("Connect Action failed".to_owned()),
                        ),
                    )
                }
            },
            None => Err(
                ActionErr::build(ActionErrType::ActionFailed("Connect Action failed".to_owned())),
            ),
        },
        _ => Err(ActionErr::build(ActionErrType::ActionFailed("Connect Action failed".to_owned()))),
    }
}

fn save(server: Server, db: String) -> (r: Result<ActionResponse, ActionErr>)
    ensures
        match r {
            Ok(resp) => resp is Done,
            Err(e) => e.spec_error_type() is RecordNotFound && e.spec_msg()
                == "Save action failed"@,
        },
{
    save_outcome(db_action(CrudAction::Save(server), db))
}

fn fetch(db: String) -> (r: Result<ActionResponse, ActionErr>)
    ensures
        r matches Ok(resp) && (resp is Empty || (resp matches ActionResponse::All(l) && l@.len()
            > 0)),
        r matches Ok(ActionResponse::All(list)) ==> forall|k: int|
            0 <= k < list@.len() ==> (#[trigger] list@[k]).id is Some && list@[k].domain is Some
                && list@[k].ip is Some,
{
    Ok(fetch_outcome(db_action(CrudAction::FindAll, db)))
}

fn fetch_by_id(id: ID, db: String) -> (r: Result<ActionResponse, ActionErr>)
    ensures
        r matches Ok(resp) && (resp is One || resp is Empty),
        r matches Ok(ActionResponse::One(Some(s))) ==> s.id is Some,
{
    Ok(fetch_by_id_outcome(db_action(CrudAction::Find(id), db)))
}

fn delete(db: String) -> (r: Result<ActionResponse, ActionErr>)
    ensures
        match r {
            Ok(resp) => resp is Done,
            Err(e) => e.spec_error_type() is InitNotAvailable && e.spec_msg()
                == "Please initialize application,use help"@,
        },
{
    delete_outcome(db_action(CrudAction::RemoveAll, db))
}

fn delete_by_id(id: ID, db: String) -> (r: Result<ActionResponse, ActionErr>)
    ensures
        match r {
            Ok(resp) => resp is Done,
            Err(e) => e.spec_error_type() is InitNotAvailable && e.spec_msg()
                == "Please initialize application,use help"@,
        },
{
    delete_outcome(db_action(CrudAction::Remove(id), db))
}

/// Resolves the record, then decides through `connect_outcome`: a missing
/// record, a record with no populated host, and a refused session all
/// fail the same way, and in the first two cases the connector is never
/// called.
fn connect<F: Fn(String, String) -> bool>(id: ID, db: String, connector: F) -> (r: Result<
    ActionResponse,
    ActionErr,
>)
    requires
        forall|user: String, host: String| #[trigger] call_requires(connector, (user, host)),
    ensures
        match r {
            Ok(resp) => resp is Done,
            Err(e) => e.spec_error_type() is RecordNotFound && e.spec_msg()
                == "Connect Action failed"@,
        },
{
    match fetch_by_id(id, db) {
        Ok(response) => connect_outcome(response, connector),
        // A lookup never fails, so this arm is unreachable; it keeps the
        // match total.
        Err(_) => Err(ActionErr::build(ActionErrType::InitNotAvailable)),
    }
}

/// The single entry point for data actions. Settings that were never
/// saved fail every action with the initialization error before any
/// persistence or connector call; otherwise the action is dispatched and
/// its storage outcome translated.
pub fn action_router<F: Fn(String, String) -> bool>(
    configuration: &Settings,
    action: Action,
    connector: F,
) -> (r: Result<ActionResponse, ActionErr>)
    requires
        forall|user: String, host: String| #[trigger] call_requires(connector, (user, host)),
    ensures
        !configuration.is_saved ==> (r matches Err(e) && e.spec_error_type() is InitNotAvailable
            && e.spec_msg() == "Please initialize application,use help"@),
        configuration.is_saved ==> match action {
            Action::Save(_) => (r matches Ok(resp) && resp is Done) || (r matches Err(e)
                && e.spec_error_type() is RecordNotFound && e.spec_msg() == "Save action failed"@),
            Action::Fetch => r matches Ok(resp) && (resp is Empty || (resp
                matches ActionResponse::All(l) && l@.len() > 0)) && (resp
                matches ActionResponse::All(list) ==> forall|k: int|
                0 <= k < list@.len() ==> (#[trigger] list@[k]).id is Some && list@[k].domain
                    is Some && list@[k].ip is Some),
            Action::FetchById(_) => r matches Ok(resp) && (resp is One || resp is Empty) && (resp
                matches ActionResponse::One(Some(s)) ==> s.id is Some),
            Action::Delete => (r matches Ok(resp) && resp is Done) || (r matches Err(e)
                && e.spec_error_type() is InitNotAvailable),
            Action::DeleteById(_) => (r matches Ok(resp) && resp is Done) || (r matches Err(e)
                && e.spec_error_type() is InitNotAvailable),
            Action::Connect(_) => (r matches Ok(resp) && resp is Done) || (r matches Err(e)
                && e.spec_error_type() is RecordNotFound && e.spec_msg()
                == "Connect Action failed"@),
        },
{
    let db = configuration.get_db();
    if configuration.is_config_available() {
        match action {
            Action::Save(server) => save(server, db),
            Action::Fetch => fetch(db),
            Action::FetchById(id) => fetch_by_id(id, db),
            Action::Delete => delete(db),
            Action::DeleteById(id) => delete_by_id(id, db),
            Action::Connect(id) => connect(id, db, connector),
        }
    } else {
        Err(ActionErr::build(ActionErrType::InitNotAvailable))
    }
}

} // verus!
