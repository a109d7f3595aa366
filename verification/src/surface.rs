//! The HTTP control surface: four operations over the shared device state.
//!
//! Each handler takes the declared payload length and the payload bytes as
//! plain values and returns the status code and body to send; the server
//! runtime that accepts connections, reads bodies and writes responses is
//! an external collaborator.  The payload size is checked against the
//! declared length before the body is consulted, so an oversized body is
//! rejected without being buffered.  Parse and validation failures are
//! degraded responses: a normal 200 whose body names the problem, never a
//! crashed handler.
//!
//! The outcome of every operation — the new device state, the status code
//! and the body — is pinned down by a spec-level result function, and the
//! handlers are proved to return exactly it.

use vstd::prelude::*;
use crate::json::form_fields_of;
use crate::json::parse_form_fields;
use crate::json::parse_status_field;
use crate::json::status_field_of;
use crate::state::DeviceState;
use crate::state::Status;
use crate::text::dec_of;
use crate::text::str_eq;
use crate::text::u32_to_string;
use vstd::string::StringExecFns;

verus! {

/// Payloads above this many bytes are rejected with 413 before being read.
pub const MAX_PAYLOAD_LEN: usize = 128;

/// An HTTP-shaped response: a status code and a bounded text body.
pub struct Response {
    pub code: u16,
    pub body: String,
}

/// What one operation leaves behind: the device state afterwards, the
/// status code, and the body text.
pub struct OpResult {
    pub state: DeviceState,
    pub code: u16,
    pub body: Seq<char>,
}

/// The fixed page served at the root: a status panel with a toggle for the
/// Do Not Disturb flag.
pub const INDEX_HTML: &'static str = r#"<!DOCTYPE html>
<html>
<head>
    <title>ESP32 Status Controller</title>
    <style>
        body {
            font-family: Arial, sans-serif;
            margin: 0;
            padding: 20px;
            text-align: center;
            background-color: #f5f5f5;
        }
        h1 {
            color: #333366;
            margin-bottom: 30px;
        }
        .container {
            max-width: 600px;
            margin: 0 auto;
            background-color: white;
            padding: 30px;
            border-radius: 8px;
            box-shadow: 0 2px 10px rgba(0,0,0,0.1);
        }
        button {
            background-color: #4CAF50;
            color: white;
            padding: 12px 25px;
            border: none;
            border-radius: 4px;
            cursor: pointer;
            margin: 10px;
            font-size: 16px;
            transition: all 0.3s;
        }
        button:hover {
            opacity: 0.9;
            transform: translateY(-2px);
        }
        .dnd-button {
            background-color: #f44336;
        }
        .free-button {
            background-color: #4CAF50;
        }
        .status-panel {
            margin: 20px 0;
            padding: 25px;
            border: 1px solid #ddd;
            border-radius: 5px;
            background-color: #fafafa;
        }
        .current-status {
            font-weight: bold;
            font-size: 1.4em;
            display: block;
            margin: 10px 0 20px 0;
        }
    </style>
</head>
<body>
    <div class="container">
        <h1>ESP32 Status Controller</h1>

        <div class="status-panel">
            <p>Current Status:</p>
            <span id="current-status" class="current-status">Loading...</span>
            <div>
                <button id="dnd-button" class="dnd-button" onclick="setStatus('dnd')">Do Not Disturb</button>
                <button id="free-button" class="free-button" onclick="setStatus('free')">Free</button>
            </div>
        </div>
    </div>

    <script>
        window.onload = function() {
            fetchCurrentStatus();
        };

        function fetchCurrentStatus() {
            fetch('/status')
                .then(response => response.text())
                .then(status => {
                    document.getElementById('current-status').textContent =
                        status === 'dnd' ? 'Do Not Disturb' : 'Free';
                });
        }

        function setStatus(status) {
            fetch('/status', {
                method: 'POST',
                headers: {
                    'Content-Type': 'application/json',
                },
                body: JSON.stringify({ status: status }),
            })
            .then(response => response.text())
            .then(result => {
                document.getElementById('current-status').textContent =
                    status === 'dnd' ? 'Do Not Disturb' : 'Free';
            });
        }
    </script>
</body>
</html>"#;

/// The body of a status read: exactly `dnd` or `free`.
pub open spec fn status_body(s: Status) -> Seq<char> {
    if s == Status::DoNotDisturb {
        "dnd"@
    } else {
        "free"@
    }
}

/// The greeting composed for a well-formed greeting payload.
pub open spec fn greeting_of(name: Seq<char>, age: u32, place: Seq<char>) -> Seq<char> {
    "Hello, "@ + dec_of(age as nat) + "-year-old "@ + name + " from "@ + place + "!"@
}

/// The body answered for a greeting payload's extracted fields: the
/// greeting, or the degraded parse-error text.
pub open spec fn greet_body(fields: Option<(Seq<char>, u32, Seq<char>)>) -> Seq<char> {
    match fields {
        Some(f) => greeting_of(f.0, f.1, f.2),
        None => "JSON error"@,
    }
}

/// The status value a status payload's extracted field sets: `dnd` and
/// `free` name the two flag values; anything else is invalid and sets
/// nothing.
pub open spec fn status_of_field(field: Seq<char>) -> Option<Status> {
    if field == "dnd"@ {
        Some(Status::DoNotDisturb)
    } else if field == "free"@ {
        Some(Status::Free)
    } else {
        None
    }
}

/// The state a status update leaves behind, given the payload's extracted
/// field: changed only by a valid value.
pub open spec fn set_status_state(d: DeviceState, field: Option<Seq<char>>) -> DeviceState {
    match field {
        Some(f) => match status_of_field(f) {
            Some(s) => d.with_status(s),
            None => d,
        },
        None => d,
    }
}

/// The body a status update answers, given the payload's extracted field.
pub open spec fn set_status_body(field: Option<Seq<char>>) -> Seq<char> {
    match field {
        Some(f) => if f == "dnd"@ {
            "Status set to Do Not Disturb"@
        } else if f == "free"@ {
            "Status set to Free"@
        } else {
            "Invalid status"@
        },
        None => "JSON error"@,
    }
}

/// Serving the index page: counts the request and answers the fixed page.
pub open spec fn index_result(d: DeviceState) -> OpResult {
    OpResult { state: d.with_request_counted(), code: 200u16, body: INDEX_HTML@ }
}

/// The greeting operation: counts the request (also when rejecting), then
/// rejects an oversized payload with 413 without reading it, and otherwise
/// answers 200 with the greeting or the degraded parse-error body.  The
/// status flag is never touched.
pub open spec fn greet_result(d: DeviceState, content_len: usize, body: Seq<u8>) -> OpResult {
    if content_len > MAX_PAYLOAD_LEN {
        OpResult { state: d.with_request_counted(), code: 413u16, body: "Request too big"@ }
    } else {
        OpResult {
            state: d.with_request_counted(),
            code: 200u16,
            body: greet_body(form_fields_of(body)),
        }
    }
}

/// The status read: answers the current flag and changes nothing.
pub open spec fn get_status_result(d: DeviceState) -> OpResult {
    OpResult { state: d, code: 200u16, body: status_body(d.status) }
}

/// The status update: rejects an oversized payload with 413 without
/// reading it and leaves the state unchanged; otherwise answers 200 and
/// sets the flag exactly when the payload carries a valid value, answering
/// the confirmation, `Invalid status`, or `JSON error` body.  The request
/// counter is never touched.
pub open spec fn set_status_result(d: DeviceState, content_len: usize, body: Seq<u8>) -> OpResult {
    if content_len > MAX_PAYLOAD_LEN {
        OpResult { state: d, code: 413u16, body: "Request too big"@ }
    } else {
        OpResult {
            state: set_status_state(d, status_field_of(body)),
            code: 200u16,
            body: set_status_body(status_field_of(body)),
        }
    }
}

/// Serves the fixed index page.
pub fn serve_index(state: &mut DeviceState) -> (r: Response)
    ensures
        *final(state) == index_result(*old(state)).state,
        r.code == index_result(*old(state)).code,
        r.body@ == index_result(*old(state)).body,
{
    state.increment_request_count();
    Response { code: 200, body: String::from_str(INDEX_HTML) }
}

/// Handles a greeting payload.  The caller checks the declared length
/// before reading the body, so the body is only trusted to match the
/// declared length when that length is within bounds.
pub fn handle_greet(state: &mut DeviceState, content_len: usize, body: &[u8]) -> (r: Response)
    requires
        content_len <= MAX_PAYLOAD_LEN ==> body@.len() == content_len,
    ensures
        *final(state) == greet_result(*old(state), content_len, body@).state,
        r.code == greet_result(*old(state), content_len, body@).code,
        r.body@ == greet_result(*old(state), content_len, body@).body,
{
    state.increment_request_count();
    if content_len > MAX_PAYLOAD_LEN {
        return Response { code: 413, body: String::from_str("Request too big") };
    }
    match parse_form_fields(body) {
        Some(fields) => {
            let mut text = String::from_str("Hello, ");
            let age_text = u32_to_string(fields.1);
            text.append(age_text.as_str());
            text.append("-year-old ");
            text.append(fields.0.as_str());
            text.append(" from ");
            text.append(fields.2.as_str());
            text.append("!");
            proof {
                assert(text@ =~= greet_body(form_fields_of(body@)));
            }
            Response { code: 200, body: text }
        },
        None => Response { code: 200, body: String::from_str("JSON error") },
    }
}

/// Answers the current status flag as `dnd` or `free`.
pub fn handle_get_status(state: &DeviceState) -> (r: Response)
    ensures
        r.code == get_status_result(*state).code,
        r.body@ == get_status_result(*state).body,
{
    let s = state.get_status();
    if s == Status::DoNotDisturb {
        Response { code: 200, body: String::from_str("dnd") }
    } else {
        Response { code: 200, body: String::from_str("free") }
    }
}

/// Handles a status update payload.  As with the greeting payload, the
/// body is only trusted to match the declared length when that length is
/// within bounds.
pub fn handle_set_status(state: &mut DeviceState, content_len: usize, body: &[u8]) -> (r: Response)
    requires
        content_len <= MAX_PAYLOAD_LEN ==> body@.len() == content_len,
    ensures
        *final(state) == set_status_result(*old(state), content_len, body@).state,
        r.code == set_status_result(*old(state), content_len, body@).code,
        r.body@ == set_status_result(*old(state), content_len, body@).body,
{
    if content_len > MAX_PAYLOAD_LEN {
        return Response { code: 413, body: String::from_str("Request too big") };
    }
    match parse_status_field(body) {
        Some(field) => {
            if str_eq(field.as_str(), "dnd") {
                state.set_status(Status::DoNotDisturb);
                Response { code: 200, body: String::from_str("Status set to Do Not Disturb") }
            } else if str_eq(field.as_str(), "free") {
                state.set_status(Status::Free);
                Response { code: 200, body: String::from_str("Status set to Free") }
            } else {
                Response { code: 200, body: String::from_str("Invalid status") }
            }
        },
        None => Response { code: 200, body: String::from_str("JSON error") },
    }
}

/// The request methods the surface distinguishes.
#[derive(Clone, Copy, PartialEq, Eq, Structural, Debug)]
pub enum Method {
    Get,
    Post,
}

/// The routing table: the operation's result for a method and path, or
/// `None` where no route is registered (the server answers such requests
/// itself).
pub open spec fn route_result(
    d: DeviceState,
    method: Method,
    path: Seq<char>,
    content_len: usize,
    body: Seq<u8>,
) -> Option<OpResult> {
    if method == Method::Get && path == "/"@ {
        Some(index_result(d))
    } else if method == Method::Post && path == "/post"@ {
        Some(greet_result(d, content_len, body))
    } else if method == Method::Get && path == "/status"@ {
        Some(get_status_result(d))
    } else if method == Method::Post && path == "/status"@ {
        Some(set_status_result(d, content_len, body))
    } else {
        None
    }
}

/// Dispatches one request to its handler.  Handlers coordinate only
/// through the shared state, so any number of these calls may run from
/// independent contexts; each call is one linearized operation on it.
pub fn handle_request(
    state: &mut DeviceState,
    method: Method,
    path: &str,
    content_len: usize,
    body: &[u8],
) -> (r: Option<Response>)
    requires
        content_len <= MAX_PAYLOAD_LEN ==> body@.len() == content_len,
    ensures
        (r is Some) == (route_result(*old(state), method, path@, content_len, body@) is Some),
        r matches Some(resp) ==> {
            let op = route_result(*old(state), method, path@, content_len, body@)->Some_0;
            &&& *final(state) == op.state
            &&& resp.code == op.code
            &&& resp.body@ == op.body
        },
        r is None ==> *final(state) == *old(state),
{
    if matches!(method, Method::Get) && str_eq(path, "/") {
        Some(serve_index(state))
    } else if matches!(method, Method::Post) && str_eq(path, "/post") {
        Some(handle_greet(state, content_len, body))
    } else if matches!(method, Method::Get) && str_eq(path, "/status") {
        Some(handle_get_status(state))
    } else if matches!(method, Method::Post) && str_eq(path, "/status") {
        Some(handle_set_status(state, content_len, body))
    } else {
        None
    }
}

/// Setting a status and reading it back: a payload whose `status` field is
/// `dnd` leaves the device answering `dnd` to a status read, and likewise
/// for `free` — whatever state the device was in before.
pub proof fn lemma_status_round_trip(d: DeviceState)
    ensures
        status_body(set_status_state(d, Some("dnd"@)).status) == "dnd"@,
        status_body(set_status_state(d, Some("free"@)).status) == "free"@,
{
    reveal_strlit("dnd");
    reveal_strlit("free");
}

/// Oversized payloads are rejected uniformly: any declared length above
/// the bound draws a 413 with `Request too big` from both accepting
/// endpoints, and the status flag is left exactly as it was.
pub proof fn lemma_oversized_rejected(
    d: DeviceState,
    content_len: usize,
    body: Seq<u8>,
)
    requires
        content_len > MAX_PAYLOAD_LEN,
    ensures
        greet_result(d, content_len, body).code == 413,
        greet_result(d, content_len, body).body == "Request too big"@,
        greet_result(d, content_len, body).state.status == d.status,
        set_status_result(d, content_len, body).code == 413,
        set_status_result(d, content_len, body).body == "Request too big"@,
        set_status_result(d, content_len, body).state == d,
{
}

/// An invalid status value is a degraded response, not an update: a
/// payload whose `status` field names neither flag value draws a 200 with
/// `Invalid status` and leaves the state untouched.
pub proof fn lemma_invalid_status_changes_nothing(d: DeviceState, field: Seq<char>)
    requires
        field != "dnd"@,
        field != "free"@,
    ensures
        set_status_state(d, Some(field)) == d,
        set_status_body(Some(field)) == "Invalid status"@,
{
}

} // verus!
