//! The route contracts of the HTTP surface.
//!
//! The listener itself is plumbing outside this library; these functions are
//! the whole behaviour behind the three routes.  The write endpoint checks
//! the credential, reads the action, and either answers at once or names the
//! one script to apply; the two query routes render the current posture and
//! never mutate it.

use vstd::prelude::*;

use crate::controller::ControllerConfig;
use crate::controller::ControllerState;
use crate::controller::TransitionPlan;
use crate::controller::finish_transition;
use crate::controller::plan_transition;
use crate::controller::step_spec;
use crate::mode::Mode;
use crate::mode::mode_str_spec;
use crate::rules::ruleset_spec;
use crate::text::json_escape;
use crate::text::json_escape_spec;
use crate::text::str_eq;

verus! {

/// The structured answer of the write endpoint: an HTTP status code and the
/// response document's fields, absent fields left out of the rendering.
pub struct MaintenanceResponse {
    /// The HTTP status code to answer with.
    pub code: u16,
    /// `"ok"` or `"error"`.
    pub status: String,
    /// The posture now in force, on success.
    pub mode: Option<String>,
    /// The posture previously in force, on success.
    pub previous_mode: Option<String>,
    /// Diagnostic or informational text, when there is any.
    pub message: Option<String>,
}

/// An optional response field as rendered: nothing when absent, a comma and
/// a quoted escaped member otherwise.
pub open spec fn opt_field_spec(name: Seq<char>, v: Option<String>) -> Seq<char> {
    match v {
        Some(s) => ",\""@ + name + "\":\""@ + json_escape_spec(s@) + "\""@,
        None => Seq::empty(),
    }
}

/// The JSON document a response renders to, fields in their fixed order and
/// absent fields skipped.
pub open spec fn response_json_spec(r: MaintenanceResponse) -> Seq<char> {
    "{\"status\":\""@ + json_escape_spec(r.status@) + "\""@ + opt_field_spec("mode"@, r.mode)
        + opt_field_spec("previous_mode"@, r.previous_mode) + opt_field_spec(
        "message"@,
        r.message,
    ) + "}"@
}

impl MaintenanceResponse {
    /// Renders the response document.
    pub fn to_json(&self) -> (s: String)
        ensures
            s@ == response_json_spec(*self),
    {
        let mut s = String::from_str("{\"status\":\"");
        let esc = json_escape(self.status.as_str());
        s.append(esc.as_str());
        s.append("\"");
        append_opt_field(&mut s, "mode", &self.mode);
        append_opt_field(&mut s, "previous_mode", &self.previous_mode);
        append_opt_field(&mut s, "message", &self.message);
        s.append("}");
        s
    }
}

fn append_opt_field(s: &mut String, name: &str, v: &Option<String>)
    ensures
        final(s)@ == old(s)@ + opt_field_spec(name@, *v),
{
    match v {
        Some(value) => {
            s.append(",\"");
            s.append(name);
            s.append("\":\"");
            let esc = json_escape(value.as_str());
            s.append(esc.as_str());
            s.append("\"");
        },
        None => {
            proof {
                assert(old(s)@ + Seq::<char>::empty() =~= old(s)@);
            }
        },
    }
}

/// The credential a request carries: what follows `Bearer ` in the
/// authorization header, or empty when the header has no such prefix.
pub open spec fn bearer_token_spec(h: Seq<char>) -> Seq<char> {
    if h.len() >= 7 && h.subrange(0, 7) == "Bearer "@ {
        h.skip(7)
    } else {
        Seq::empty()
    }
}

fn bearer_token<'a>(h: &'a str) -> (t: &'a str)
    ensures
        t@ == bearer_token_spec(h@),
{
    proof {
        reveal_strlit("");
        assert(""@ =~= Seq::<char>::empty());
    }
    let n: usize = h.unicode_len();
    if n < 7 {
        return "";
    }
    let p = h.substring_char(0, 7);
    if str_eq(p, "Bearer ") {
        h.substring_char(7, n)
    } else {
        ""
    }
}

/// Whether a request's credential is accepted: a key is configured and the
/// bearer token matches it byte for byte.  With no key configured nothing
/// is accepted.
pub open spec fn authorized_spec(api_key: Option<String>, h: Seq<char>) -> bool {
    api_key matches Some(k) && bearer_token_spec(h) == k@
}

/// The target posture an action word requests.
pub open spec fn action_target_spec(a: Seq<char>) -> Option<Mode> {
    if a == "enable"@ {
        Some(Mode::InternetOnly)
    } else if a == "disable"@ {
        Some(Mode::ToolNodeOnly)
    } else {
        None
    }
}

/// The complaint about an unrecognized action word.
pub open spec fn invalid_action_message_spec(a: Seq<char>) -> Seq<char> {
    "Invalid action '"@ + a + "'. Use 'enable' or 'disable'."@
}

/// The response carries this code and exactly these fields.
pub open spec fn resp_is(
    r: MaintenanceResponse,
    code: u16,
    status: Seq<char>,
    mode: Option<Seq<char>>,
    previous_mode: Option<Seq<char>>,
    message: Option<Seq<char>>,
) -> bool {
    &&& r.code == code
    &&& r.status@ == status
    &&& match mode {
        Some(s) => r.mode matches Some(x) && x@ == s,
        None => r.mode is None,
    }
    &&& match previous_mode {
        Some(s) => r.previous_mode matches Some(x) && x@ == s,
        None => r.previous_mode is None,
    }
    &&& match message {
        Some(s) => r.message matches Some(x) && x@ == s,
        None => r.message is None,
    }
}

/// What the write endpoint does with one request before any external
/// effect.
pub enum MaintenanceStep {
    /// Answer at once; the firewall and the posture stay untouched.
    Respond(MaintenanceResponse),
    /// Apply the script as one atomic transaction, then answer through
    /// `finish_maintenance`.
    Apply { target: Mode, script: String },
}

/// Decides one `POST /maintenance` request from the current posture, the
/// configured credential, the request's authorization header and its action
/// word.  Every rejection and the idempotent short-circuit answer here;
/// only a real posture change asks for a script to be applied.
pub fn handle_maintenance(
    current: Mode,
    config: &ControllerConfig,
    auth_header: &str,
    action: &str,
) -> (step: MaintenanceStep)
    ensures
        config.api_key is None ==> (step matches MaintenanceStep::Respond(r) && resp_is(
            r,
            401,
            "error"@,
            None,
            None,
            Some("API key not configured on server"@),
        )),
        config.api_key is Some && !authorized_spec(config.api_key, auth_header@) ==> (step matches
            MaintenanceStep::Respond(r) && resp_is(
            r,
            401,
            "error"@,
            None,
            None,
            Some("Invalid or missing API key"@),
        )),
        authorized_spec(config.api_key, auth_header@) && action_target_spec(action@) is None ==> (
        step matches MaintenanceStep::Respond(r) && resp_is(
            r,
            400,
            "error"@,
            None,
            None,
            Some(invalid_action_message_spec(action@)),
        )),
        authorized_spec(config.api_key, auth_header@) && action_target_spec(action@) == Some(
            current,
        ) ==> (step matches MaintenanceStep::Respond(r) && resp_is(
            r,
            200,
            "ok"@,
            Some(mode_str_spec(current)),
            Some(mode_str_spec(current)),
            Some("Already in requested mode"@),
        )),
        authorized_spec(config.api_key, auth_header@) && (action_target_spec(action@) matches Some(
            t,
        ) && t != current) ==> (step matches MaintenanceStep::Apply { target, script } && target
            == action_target_spec(action@).unwrap() && script@ == ruleset_spec(
            target,
            config.tool_node_ip@,
            config.node_net_subnet@,
        )),
{
    match &config.api_key {
        None => {
            return MaintenanceStep::Respond(
                MaintenanceResponse {
                    code: 401,
                    status: String::from_str("error"),
                    mode: None,
                    previous_mode: None,
                    message: Some(String::from_str("API key not configured on server")),
                },
            );
        },
        Some(expected_key) => {
            let provided_key = bearer_token(auth_header);
            if !str_eq(provided_key, expected_key.as_str()) {
                return MaintenanceStep::Respond(
                    MaintenanceResponse {
                        code: 401,
                        status: String::from_str("error"),
                        mode: None,
                        previous_mode: None,
                        message: Some(String::from_str("Invalid or missing API key")),
                    },
                );
            }
        },
    }
    let target: Mode;
    if str_eq(action, "enable") {
        target = Mode::InternetOnly;
    } else if str_eq(action, "disable") {
        target = Mode::ToolNodeOnly;
    } else {
        let mut msg = String::from_str("Invalid action '");
        msg.append(action);
        msg.append("'. Use 'enable' or 'disable'.");
        return MaintenanceStep::Respond(
            MaintenanceResponse {
                code: 400,
                status: String::from_str("error"),
                mode: None,
                previous_mode: None,
                message: Some(msg),
            },
        );
    }
    match plan_transition(current, target, config) {
        TransitionPlan::AlreadyInMode => {
            let cur = current.as_str();
            MaintenanceStep::Respond(
                MaintenanceResponse {
                    code: 200,
                    status: String::from_str("ok"),
                    mode: Some(String::from_str(cur)),
                    previous_mode: Some(String::from_str(cur)),
                    message: Some(String::from_str("Already in requested mode")),
                },
            )
        },
        TransitionPlan::Apply { script } => MaintenanceStep::Apply { target, script },
    }
}

/// Commits the applied (or failed) transition and phrases the endpoint's
/// answer.  Success reports both postures; failure reports the tool's
/// diagnostic and leaves the posture exactly as it was.
pub fn finish_maintenance(
    state: &mut ControllerState,
    target: Mode,
    applied: Result<(), String>,
) -> (r: MaintenanceResponse)
    ensures
        final(state).mode == step_spec(old(state).mode, target, applied is Ok),
        applied is Ok ==> resp_is(
            r,
            200,
            "ok"@,
            Some(mode_str_spec(target)),
            Some(mode_str_spec(old(state).mode)),
            None,
        ),
        applied matches Err(e) ==> (final(state).mode == old(state).mode && resp_is(
            r,
            500,
            "error"@,
            None,
            None,
            Some("Failed to apply mode: "@ + e@),
        )),
{
    match finish_transition(state, target, applied) {
        Ok(outcome) => MaintenanceResponse {
            code: 200,
            status: String::from_str("ok"),
            mode: Some(String::from_str(outcome.current.as_str())),
            previous_mode: Some(String::from_str(outcome.previous.as_str())),
            message: None,
        },
        Err(diag) => {
            let mut msg = String::from_str("Failed to apply mode: ");
            msg.append(diag.as_str());
            MaintenanceResponse {
                code: 500,
                status: String::from_str("error"),
                mode: None,
                previous_mode: None,
                message: Some(msg),
            }
        },
    }
}

/// The body of `GET /mode`: the bare posture string.
pub fn get_mode(state: &ControllerState) -> (r: String)
    ensures
        r@ == mode_str_spec(state.mode),
{
    String::from_str(state.mode.as_str())
}

/// The body of `GET /status`: the posture as a JSON document, the enum's
/// external representation.
pub open spec fn status_json_spec(m: Mode) -> Seq<char> {
    "\""@ + mode_str_spec(m) + "\""@
}

/// Renders the `GET /status` document.
pub fn get_status(state: &ControllerState) -> (r: String)
    ensures
        r@ == status_json_spec(state.mode),
{
    let mut r = String::from_str("\"");
    r.append(state.mode.as_str());
    r.append("\"");
    r
}

} // verus!
