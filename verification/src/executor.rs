//! The per-call state machine that ties the engine together.
//!
//! One API call walks the phases idle → scopes resolved → authenticated
//! → request built → finished, and every transition is a verified
//! decision: scope fallback, request assembly, response interpretation.
//! The two suspension points of a call — obtaining the token and the
//! network round trip — belong to the caller, who hands their results in
//! with [`Execution::supply_token`] and [`Execution::supply_transport`].
//! A failure at any transition is terminal: nothing is retried, and the
//! machine holds no state shared between calls.

use vstd::prelude::*;

use crate::descriptor::OperationDescriptor;
use crate::path::path_resolvable;
use crate::request::{
    body_bytes, build_request, header_views, request_headers, request_url, ParameterSet, Payload,
    RawRequest,
};
use crate::response::{buffered_outcome_matches, interpret_buffered, ApiSuccess};
use crate::util::clone_strings;
use crate::ApiError;

verus! {

/// The observable phase of a call, for callers that drive the machine.
#[derive(Clone, Copy, PartialEq, Eq, Structural, Debug)]
pub enum ExecPhase {
    Idle,
    ScopeResolved,
    Authenticated,
    RequestBuilt,
    Finished,
}

/// The phase of a call together with the data computed so far.
pub enum ExecState {
    Idle { caller_scopes: Vec<String> },
    ScopeResolved { scopes: Vec<String> },
    Authenticated { token: Vec<u8> },
    RequestBuilt { request: RawRequest },
    Finished { outcome: Result<ApiSuccess, ApiError> },
}

/// One in-flight API call: the immutable call data and the machine state.
/// Every invocation starts fresh; two concurrent calls share nothing.
pub struct Execution {
    pub descriptor: OperationDescriptor,
    pub params: ParameterSet,
    pub payload: Payload,
    pub state: ExecState,
}

impl Execution {
    /// The phase the machine is in.
    pub open spec fn spec_phase(&self) -> ExecPhase {
        match self.state {
            ExecState::Idle { .. } => ExecPhase::Idle,
            ExecState::ScopeResolved { .. } => ExecPhase::ScopeResolved,
            ExecState::Authenticated { .. } => ExecPhase::Authenticated,
            ExecState::RequestBuilt { .. } => ExecPhase::RequestBuilt,
            ExecState::Finished { .. } => ExecPhase::Finished,
        }
    }

    /// The descriptor invariant: every placeholder of the path template
    /// has a path parameter to fill it. Checked once, at `start`.
    pub open spec fn wf(&self) -> bool {
        path_resolvable(self.descriptor.path@, self.params.path@)
    }

    /// The call data is carried unchanged through every transition.
    pub open spec fn same_call(&self, other: &Execution) -> bool {
        &&& self.descriptor == other.descriptor
        &&& self.params == other.params
        &&& self.payload == other.payload
    }

    /// The phase the machine is in, for an unverified driver to branch on.
    pub fn phase(&self) -> (p: ExecPhase)
        ensures
            p == self.spec_phase(),
    {
        match &self.state {
            ExecState::Idle { .. } => ExecPhase::Idle,
            ExecState::ScopeResolved { .. } => ExecPhase::ScopeResolved,
            ExecState::Authenticated { .. } => ExecPhase::Authenticated,
            ExecState::RequestBuilt { .. } => ExecPhase::RequestBuilt,
            ExecState::Finished { .. } => ExecPhase::Finished,
        }
    }

    /// Open a call. Returns `None` exactly when the parameter set cannot
    /// fill the descriptor's path template — the one input error there
    /// is, found before anything else happens.
    pub fn start(
        descriptor: OperationDescriptor,
        params: ParameterSet,
        payload: Payload,
        caller_scopes: Vec<String>,
    ) -> (r: Option<Execution>)
        ensures
            r is Some <==> path_resolvable(descriptor.path@, params.path@),
            r matches Some(e) ==> {
                &&& e.descriptor == descriptor
                &&& e.params == params
                &&& e.payload == payload
                &&& e.state matches ExecState::Idle { caller_scopes: cs } && cs == caller_scopes
                &&& e.wf()
            },
    {
        let probe = crate::path::resolve_path(&descriptor.path, &params.path);
        if probe.is_none() {
            return None;
        }
        Some(Execution { descriptor, params, payload, state: ExecState::Idle { caller_scopes } })
    }

    /// Resolve the scopes for this call: an explicit non-empty selection
    /// by the caller wins; otherwise the descriptor's defaults stand in,
    /// so the fallback varies per operation.
    pub fn resolve_scopes(self) -> (r: Execution)
        requires
            self.state matches ExecState::Idle { .. },
        ensures
            r.same_call(&self),
            self.state matches ExecState::Idle { caller_scopes } ==> r.state
                matches ExecState::ScopeResolved { scopes } && scopes@ == (
            if caller_scopes@.len() > 0 {
                caller_scopes@
            } else {
                self.descriptor.default_scopes@
            }),
    {
        let Execution { descriptor, params, payload, state } = self;
        let caller_scopes = match state {
            ExecState::Idle { caller_scopes } => caller_scopes,
            _ => unreached(),
        };
        let scopes = if caller_scopes.len() > 0 {
            caller_scopes
        } else {
            clone_strings(&descriptor.default_scopes)
        };
        Execution { descriptor, params, payload, state: ExecState::ScopeResolved { scopes } }
    }

    /// The scopes to request a token for.
    pub fn scopes(&self) -> (r: &Vec<String>)
        requires
            self.state matches ExecState::ScopeResolved { .. },
        ensures
            self.state matches ExecState::ScopeResolved { scopes } ==> r@ == scopes@,
    {
        match &self.state {
            ExecState::ScopeResolved { scopes } => scopes,
            _ => unreached(),
        }
    }

    /// Hand in the token source's answer. A failure there is fatal to the
    /// call and never retried.
    pub fn supply_token(self, token: Result<Vec<u8>, String>) -> (r: Execution)
        requires
            self.state matches ExecState::ScopeResolved { .. },
        ensures
            r.same_call(&self),
            token matches Ok(t) ==> r.state matches ExecState::Authenticated { token: t2 } && t2
                == t,
            token matches Err(m) ==> r.state matches ExecState::Finished { outcome } && outcome
                == Result::<ApiSuccess, ApiError>::Err(ApiError::Auth(m)),
    {
        let Execution { descriptor, params, payload, state: _ } = self;
        let state = match token {
            Result::Ok(t) => ExecState::Authenticated { token: t },
            Result::Err(m) => ExecState::Finished { outcome: Err(ApiError::Auth(m)) },
        };
        Execution { descriptor, params, payload, state }
    }

    /// Assemble the request from the call data and the token.
    pub fn build(self) -> (r: Execution)
        requires
            self.state matches ExecState::Authenticated { .. },
            self.wf(),
        ensures
            r.same_call(&self),
            self.state matches ExecState::Authenticated { token } ==> r.state
                matches ExecState::RequestBuilt { request } && {
                &&& request.method == self.descriptor.method
                &&& request.url@ == request_url(self.descriptor, self.params, token@)
                &&& header_views(request.headers@) == request_headers(self.payload)
                &&& request.body@ == body_bytes(self.payload)
            },
    {
        let Execution { descriptor, params, payload, state } = self;
        let token = match state {
            ExecState::Authenticated { token } => token,
            _ => unreached(),
        };
        let request = match build_request(&descriptor, &params, token.as_slice(), &payload) {
            Option::Some(q) => q,
            Option::None => unreached(),
        };
        Execution { descriptor, params, payload, state: ExecState::RequestBuilt { request } }
    }

    /// The request for the transport to send.
    pub fn request(&self) -> (r: &RawRequest)
        requires
            self.state matches ExecState::RequestBuilt { .. },
        ensures
            self.state matches ExecState::RequestBuilt { request } ==> r == request,
    {
        match &self.state {
            ExecState::RequestBuilt { request } => request,
            _ => unreached(),
        }
    }

    /// Hand in the transport's answer — the status and buffered body, or
    /// the transport's own failure — and interpret it. A streamed
    /// response does not come here; its chunks go through the relay.
    pub fn supply_transport(self, outcome: Result<(u16, Vec<u8>), String>) -> (r: Execution)
        requires
            self.state matches ExecState::RequestBuilt { .. },
            !(self.descriptor.response is Stream),
        ensures
            r.same_call(&self),
            outcome matches Err(m) ==> r.state matches ExecState::Finished { outcome: o } && o
                == Result::<ApiSuccess, ApiError>::Err(ApiError::Transport(m)),
            outcome matches Ok(sb) ==> r.state matches ExecState::Finished { outcome: o }
                && buffered_outcome_matches(self.descriptor.response, sb.0, sb.1@, o),
    {
        let Execution { descriptor, params, payload, state: _ } = self;
        let state = match outcome {
            Result::Err(m) => ExecState::Finished { outcome: Err(ApiError::Transport(m)) },
            Result::Ok((status, body)) => {
                let o = interpret_buffered(descriptor.response, status, body);
                ExecState::Finished { outcome: o }
            },
        };
        Execution { descriptor, params, payload, state }
    }

    /// Close the call and take its outcome.
    pub fn outcome(self) -> (r: Result<ApiSuccess, ApiError>)
        requires
            self.state matches ExecState::Finished { .. },
        ensures
            self.state matches ExecState::Finished { outcome } ==> r == outcome,
    {
        match self.state {
            ExecState::Finished { outcome } => outcome,
            _ => unreached(),
        }
    }
}

} // verus!
