//! The deployment entity: the request payloads and URLs it sends, and
//! the reading of the provider's answers.
//!
//! Creation and status update each come in two halves. A request
//! builder says exactly which URL and JSON text the POST must carry;
//! the surrounding program performs the POST and hands the outcome
//! back to `create` or `update_status`, which decide — with an exact
//! contract — what the outcome means. A deployment value exists only
//! after a fully successful creation, so it always carries the
//! server-assigned id (the hard error policy: a creation that yields
//! no id is an error, never a degraded deployment).

use vstd::prelude::*;
use vstd::string::StringExecFns;

use crate::http::DeployError;
use crate::http::HttpOutcome;
use crate::http::HttpRequest;
use crate::http::response_text;
use crate::http::spec_response_text;
use crate::json::json_str_field;
use crate::json::json_str_field_of;
use crate::json::json_u64_field;
use crate::json::json_u64_field_of;
use crate::json::json_well_formed;
use crate::json::json_wf;
use crate::status::Status;
use crate::text::dec_str;
use crate::text::push_decimal;

verus! {

/// One deployment record: the server-assigned identifier, the owning
/// repository slug (`owner/name`), the deployed ref, and the ref of
/// the previous deployment, if one was given.
#[derive(Debug)]
pub struct Deployment {
    id: u64,
    repo: String,
    head: String,
    base: Option<String>,
}

/// The mathematical content of a `Deployment`.
pub ghost struct DeploymentView {
    pub id: u64,
    pub repo: Seq<char>,
    pub head: Seq<char>,
    pub base: Option<Seq<char>>,
}

impl View for Deployment {
    type V = DeploymentView;

    closed spec fn view(&self) -> DeploymentView {
        DeploymentView {
            id: self.id,
            repo: self.repo@,
            head: self.head@,
            base: match self.base {
                Some(b) => Some(b@),
                None => None,
            },
        }
    }
}

/// The views of an optional borrowed string.
pub open spec fn opt_str_view(s: Option<&str>) -> Option<Seq<char>> {
    match s {
        Some(b) => Some(b@),
        None => None,
    }
}

/// The JSON body of a creation request: the ref to deploy, no auto
/// merge, the production environment, and — only when a previous ref
/// was given — a payload object holding it.
pub open spec fn spec_payload(head: Seq<char>, base: Option<Seq<char>>) -> Seq<char> {
    "{\"ref\": \""@ + head + "\", \"auto_merge\": false, \"environment\": \"production\""@ + (match base {
        Some(b) => ", \"payload\": {\"previous_ref\": \""@ + b + "\"}"@,
        None => Seq::<char>::empty(),
    }) + "}"@
}

/// The URL a creation request is posted to.
pub open spec fn spec_create_url(repo: Seq<char>) -> Seq<char> {
    "https://api.github.com/repos/"@ + repo + "/deployments"@
}

/// The URL a status update for deployment `id` is posted to.
pub open spec fn spec_status_url(repo: Seq<char>, id: u64) -> Seq<char> {
    "https://api.github.com/repos/"@ + repo + "/deployments/"@ + dec_str(id as nat)
        + "/statuses"@
}

/// The JSON body of a status update request.
pub open spec fn spec_state_payload(status: Status) -> Seq<char> {
    "{\"state\": \""@ + status.wire_spec() + "\"}"@
}

/// What a creation response body means once decoded: invalid JSON and
/// a missing or malformed `id` are errors; otherwise the deployment
/// exists, keyed by the extracted id.
pub open spec fn spec_create_from_text(
    repo: Seq<char>,
    head: Seq<char>,
    base: Option<Seq<char>>,
    text: Seq<char>,
) -> Result<DeploymentView, DeployError> {
    if !json_wf(text) {
        Err(DeployError::InvalidJson)
    } else {
        match json_u64_field_of(text, "id"@) {
            Some(id) => Ok(DeploymentView { id, repo, head, base }),
            None => Err(DeployError::MissingField),
        }
    }
}

/// What one creation attempt comes to, for every possible outcome of
/// the POST.
pub open spec fn spec_create(
    repo: Seq<char>,
    head: Seq<char>,
    base: Option<Seq<char>>,
    outcome: &HttpOutcome,
) -> Result<DeploymentView, DeployError> {
    match *outcome {
        HttpOutcome::Transport => Err(DeployError::Transport),
        HttpOutcome::Reply { code, body } => match spec_response_text(code, body@) {
            Ok(text) => spec_create_from_text(repo, head, base, text),
            Err(e) => Err(e),
        },
    }
}

/// What a status update response body means once decoded: the update
/// succeeded exactly when the reported `state`, read back as a status,
/// is the one that was requested.
pub open spec fn spec_update_from_text(status: Status, text: Seq<char>) -> Result<
    (),
    DeployError,
> {
    if !json_wf(text) {
        Err(DeployError::InvalidJson)
    } else {
        match json_str_field_of(text, "state"@) {
            Some(s) => if Status::from_wire_spec(s) == status {
                Ok(())
            } else {
                Err(DeployError::StateMismatch)
            },
            None => Err(DeployError::MissingField),
        }
    }
}

/// What one status update attempt comes to, for every possible outcome
/// of the POST.
pub open spec fn spec_update_status(status: Status, outcome: &HttpOutcome) -> Result<
    (),
    DeployError,
> {
    match *outcome {
        HttpOutcome::Transport => Err(DeployError::Transport),
        HttpOutcome::Reply { code, body } => match spec_response_text(code, body@) {
            Ok(text) => spec_update_from_text(status, text),
            Err(e) => Err(e),
        },
    }
}

impl Deployment {
    /// The server-assigned identifier, the sole key of every status
    /// update.
    pub fn id(&self) -> (r: u64)
        ensures
            r == self@.id,
    {
        self.id
    }

    /// The owning repository slug.
    pub fn repo(&self) -> (r: &str)
        ensures
            r@ == self@.repo,
    {
        self.repo.as_str()
    }

    /// The deployed ref.
    pub fn head(&self) -> (r: &str)
        ensures
            r@ == self@.head,
    {
        self.head.as_str()
    }

    /// The previous ref, if one was given.
    pub fn base(&self) -> (r: Option<&str>)
        ensures
            opt_str_view(r) == self@.base,
    {
        match &self.base {
            Some(b) => Some(b.as_str()),
            None => None,
        }
    }

    /// Builds the JSON body of a creation request. The `previous_ref`
    /// field appears exactly when a base ref is given.
    pub fn payload(head: &str, base: Option<&str>) -> (r: String)
        ensures
            r@ == spec_payload(head@, opt_str_view(base)),
    {
        let mut out = "{\"ref\": \"".to_owned();
        out.append(head);
        out.append("\", \"auto_merge\": false, \"environment\": \"production\"");
        match base {
            Some(b) => {
                out.append(", \"payload\": {\"previous_ref\": \"");
                out.append(b);
                out.append("\"}");
            },
            None => {},
        }
        out.append("}");
        proof {
            assert(out@ =~= spec_payload(head@, opt_str_view(base)));
        }
        out
    }

    /// The POST that creates a deployment of `head` in `repo`.
    pub fn create_request(repo: &str, head: &str, base: Option<&str>) -> (r: HttpRequest)
        ensures
            r.url@ == spec_create_url(repo@),
            r.body@ == spec_payload(head@, opt_str_view(base)),
    {
        let mut url = "https://api.github.com/repos/".to_owned();
        url.append(repo);
        url.append("/deployments");
        proof {
            assert(url@ =~= spec_create_url(repo@));
        }
        HttpRequest { url, body: Deployment::payload(head, base) }
    }

    /// Reads the outcome of a creation POST. On full success the
    /// deployment holds the repo, head, base and the id the server
    /// assigned; every failure is reported as its exact error kind.
    pub fn create(repo: &str, head: &str, base: Option<&str>, outcome: &HttpOutcome) -> (r:
        Result<Deployment, DeployError>)
        ensures
            match r {
                Ok(d) => spec_create(repo@, head@, opt_str_view(base), outcome) == Ok::<
                    DeploymentView,
                    DeployError,
                >(d@),
                Err(e) => spec_create(repo@, head@, opt_str_view(base), outcome) == Err::<
                    DeploymentView,
                    DeployError,
                >(e),
            },
    {
        let text = match outcome {
            HttpOutcome::Transport => {
                return Err(DeployError::Transport);
            },
            HttpOutcome::Reply { code, body } => {
                match response_text(*code, body.as_slice()) {
                    Ok(t) => t,
                    Err(e) => {
                        return Err(e);
                    },
                }
            },
        };
        if !json_well_formed(text) {
            return Err(DeployError::InvalidJson);
        }
        match json_u64_field(text, "id") {
            Some(id) => Ok(
                Deployment {
                    id,
                    repo: repo.to_owned(),
                    head: head.to_owned(),
                    base: match base {
                        Some(b) => Some(b.to_owned()),
                        None => None,
                    },
                },
            ),
            None => Err(DeployError::MissingField),
        }
    }

    /// The POST that asks the provider to move this deployment to
    /// `status`. `Unknown` is never a wire value, so it cannot be
    /// requested.
    pub fn status_request(&self, status: &Status) -> (r: HttpRequest)
        requires
            status.is_valid_wire(),
        ensures
            r.url@ == spec_status_url(self@.repo, self@.id),
            r.body@ == spec_state_payload(*status),
    {
        let mut url = "https://api.github.com/repos/".to_owned();
        url.append(self.repo.as_str());
        url.append("/deployments/");
        push_decimal(&mut url, self.id);
        url.append("/statuses");
        proof {
            assert(url@ =~= spec_status_url(self@.repo, self@.id));
        }
        let mut body = "{\"state\": \"".to_owned();
        let wire = status.wire();
        body.append(wire.as_str());
        body.append("\"}");
        proof {
            assert(body@ =~= spec_state_payload(*status));
        }
        HttpRequest { url, body }
    }

    /// Reads the outcome of a status update POST. The update counts as
    /// done exactly when the server reports back the requested state;
    /// a different state, a missing field, malformed JSON, a non-2xx
    /// status and a transport failure are each their own error.
    pub fn update_status(&self, status: &Status, outcome: &HttpOutcome) -> (r: Result<
        (),
        DeployError,
    >)
        requires
            status.is_valid_wire(),
        ensures
            match r {
                Ok(u) => spec_update_status(*status, outcome) == Ok::<(), DeployError>(u),
                Err(e) => spec_update_status(*status, outcome) == Err::<(), DeployError>(e),
            },
    {
        let text = match outcome {
            HttpOutcome::Transport => {
                return Err(DeployError::Transport);
            },
            HttpOutcome::Reply { code, body } => {
                match response_text(*code, body.as_slice()) {
                    Ok(t) => t,
                    Err(e) => {
                        return Err(e);
                    },
                }
            },
        };
        if !json_well_formed(text) {
            return Err(DeployError::InvalidJson);
        }
        match json_str_field(text, "state") {
            Some(s) => {
                if Status::from_wire(s.as_str()) == *status {
                    Ok(())
                } else {
                    Err(DeployError::StateMismatch)
                }
            },
            None => Err(DeployError::MissingField),
        }
    }
}

} // verus!
