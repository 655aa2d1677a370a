//! The HTTP surface as pure request/response logic: what each route
//! answers, as a status code and a body, computed from the route's inputs.
//! Reading the dataset file is the caller's work; a route that needs the
//! dataset takes either its text or the read error's message.

use vstd::prelude::*;
use vstd::string::StringExecFns;
use crate::lookup::{find_unit_from_text, found_unit, units_from_text};
use crate::model::{UnitView, project_all};
use crate::parse::parsed_dataset;
use crate::render::{json_unit, json_units, render_unit, render_units};

verus! {

/// One HTTP response: a status code and its body.
pub struct Response {
    pub status: u16,
    pub body: String,
}

/// The unit the lookup route answers with: the dataset text must have been
/// read, it must parse, and some record must match the queried name.
pub open spec fn lookup_success(load: Result<String, String>, n: Seq<char>) -> Option<UnitView> {
    match load {
        Ok(t) => match parsed_dataset(t@) {
            Ok(rs) => found_unit(rs, n),
            Err(_) => None,
        },
        Err(_) => None,
    }
}

/// The usage banner of the root route: always `200`.
pub fn handle_root() -> (r: Response)
    ensures
        r.status == 200,
        r.body@ == "
        Welcome to the Warhammer 40k army roster API. Here are instructions on how to use this API:
        To see a full list of all the army units then add a suffix of the army name. 
        For example `/tyranids` will return a list of all the tyranid units
        "@,
{
    Response {
        status: 200,
        body: String::from_str(
            "
        Welcome to the Warhammer 40k army roster API. Here are instructions on how to use this API:
        To see a full list of all the army units then add a suffix of the army name. 
        For example `/tyranids` will return a list of all the tyranid units
        ",
        ),
    }
}

/// The greeting route: always `200`.
pub fn handle_hey() -> (r: Response)
    ensures
        r.status == 200,
        r.body@ == "Hey there!"@,
{
    Response { status: 200, body: String::from_str("Hey there!") }
}

/// The echo route: `200`, with the request body returned verbatim.
pub fn handle_echo(body: String) -> (r: Response)
    ensures
        r.status == 200,
        r.body == body,
{
    Response { status: 200, body }
}

fn load_failure_response(msg: &str) -> (r: Response)
    ensures
        r.status == 500,
        r.body@ == "Failed to read units: "@ + msg@,
{
    let mut body = String::from_str("Failed to read units: ");
    body.append(msg);
    Response { status: 500, body }
}

/// The list route: `200` with all projected units as a JSON array when the
/// dataset text was read and parses; otherwise `500`, the body naming the
/// failure's detail after a fixed prefix.
pub fn handle_list(load: Result<String, String>) -> (r: Response)
    ensures
        (load matches Err(m) ==> (r.status == 500 && r.body@ == "Failed to read units: "@ + m@)),
        (load matches Ok(t) ==> (match parsed_dataset(t@) {
            Err(pm) => r.status == 500 && r.body@ == "Failed to read units: "@ + pm,
            Ok(rs) => r.status == 200 && r.body@ == json_units(project_all(rs)),
        })),
{
    match load {
        Err(m) => load_failure_response(m.as_str()),
        Ok(t) => match units_from_text(t.as_str()) {
            Err(pm) => load_failure_response(pm.as_str()),
            Ok(us) => Response { status: 200, body: render_units(&us) },
        },
    }
}

/// The lookup route: `200` with the first matching unit as a JSON object;
/// `404` otherwise, whether no record matched or the dataset could not be
/// read or parsed — the route does not tell those apart.
pub fn handle_unit(load: Result<String, String>, name: &str) -> (r: Response)
    ensures
        (lookup_success(load, name@) matches Some(u) ==> (r.status == 200 && r.body@ == json_unit(
            u,
        ))),
        (lookup_success(load, name@) is None ==> (r.status == 404 && r.body@
            == "No unit found with name: "@ + name@)),
{
    match load {
        Err(_) => not_found_response(name),
        Ok(t) => match find_unit_from_text(t.as_str(), name) {
            Ok(u) => Response { status: 200, body: render_unit(&u) },
            Err(_) => not_found_response(name),
        },
    }
}

fn not_found_response(name: &str) -> (r: Response)
    ensures
        r.status == 404,
        r.body@ == "No unit found with name: "@ + name@,
{
    let mut body = String::from_str("No unit found with name: ");
    body.append(name);
    Response { status: 404, body }
}

} // verus!
