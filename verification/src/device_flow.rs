//! The device-authorization flow: exchanging client credentials for a
//! device code, presenting the verification prompt, and polling the token
//! endpoint until the token is issued or the flow reaches a terminal
//! failure.
//!
//! The transport - issuing the two POST requests and sleeping between
//! polls - lives outside the library. The library decides: it builds the
//! form bodies, classifies every token-endpoint reply, and steps the flow
//! state until a terminal outcome.

use vstd::prelude::*;

use crate::errors::Error;
use crate::trakt::TraktOAuthToken;

verus! {

/// What the device-code issuance endpoint granted: the code pair, where the
/// operator approves, how long the code stays valid, and the minimum poll
/// interval, both in seconds.
pub struct DeviceCodeGrant {
    pub device_code: String,
    pub user_code: String,
    pub verification_url: String,
    pub expires_in: u64,
    pub interval: u64,
}

/// One decoded reply of the token endpoint. A reply carries either the
/// protocol error word or the token fields; the transport decodes the JSON
/// body into these plain fields and the library classifies them.
pub struct TokenEndpointReply {
    pub error: Option<String>,
    pub access_token: Option<String>,
    pub refresh_token: Option<String>,
    pub expires_in: Option<u64>,
}

/// The classification of one token-endpoint reply.
pub enum PollClassModel {
    /// The operator has not decided yet: the expected steady state.
    Pending,
    /// The operator declined: terminal.
    Denied,
    /// The endpoint reports the device code expired: terminal.
    Expired,
    /// A token was issued, with a refresh token beside it.
    Granted { access: Seq<char>, refresh: Seq<char>, expires_in: Option<u64> },
    /// A token without the expected refresh token: terminal, since the
    /// caller assumes refresh capability exists.
    MissingRefresh,
    /// A reply matching no known form.
    Invalid,
}

/// How a reply classifies: the error word decides first; otherwise a
/// non-empty access token grants, and anything else is malformed.
pub open spec fn classify_model(rep: TokenEndpointReply) -> PollClassModel {
    match rep.error {
        Some(e) => if e@ == "authorization_pending"@ {
            PollClassModel::Pending
        } else if e@ == "access_denied"@ {
            PollClassModel::Denied
        } else if e@ == "expired_token"@ {
            PollClassModel::Expired
        } else {
            PollClassModel::Invalid
        },
        None => match rep.access_token {
            Some(at) => if at@.len() > 0 {
                match rep.refresh_token {
                    Some(rt) => PollClassModel::Granted {
                        access: at@,
                        refresh: rt@,
                        expires_in: rep.expires_in,
                    },
                    None => PollClassModel::MissingRefresh,
                }
            } else {
                PollClassModel::Invalid
            },
            None => PollClassModel::Invalid,
        },
    }
}

/// The error kinds of the taxonomy, without their diagnostic text.
#[derive(Clone, Copy, PartialEq, Eq, Structural, Debug)]
pub enum ErrorKind {
    Transport,
    Decode,
    Protocol,
    Unresolvable,
    Configuration,
}

/// The kind of an error.
pub open spec fn error_kind(e: Error) -> ErrorKind {
    match e {
        Error::TransportError(_) => ErrorKind::Transport,
        Error::DecodeError(_) => ErrorKind::Decode,
        Error::ProtocolError(_) => ErrorKind::Protocol,
        Error::UnresolvableContent => ErrorKind::Unresolvable,
        Error::ConfigurationError(_) => ErrorKind::Configuration,
    }
}

/// What one polling step tells the caller.
pub enum FlowStep {
    /// Still pending: wait at least `wait_secs`, then poll again.
    Continue { wait_secs: u64 },
    /// Terminal success: the credential pair.
    Success(TraktOAuthToken),
    /// Terminal failure.
    Failed(Error),
}

/// A polling step reduced to its mathematical content; a failure reduces to
/// its error kind, the diagnostic text aside.
pub enum FlowStepModel {
    Continue { wait_secs: u64 },
    Success { access: Seq<char>, refresh: Seq<char>, expires_in: Option<u64> },
    Failed { kind: ErrorKind },
}

/// The model of a step value.
pub open spec fn flow_step_model(s: FlowStep) -> FlowStepModel {
    match s {
        FlowStep::Continue { wait_secs } => FlowStepModel::Continue { wait_secs },
        FlowStep::Success(t) => FlowStepModel::Success {
            access: t.access_token@,
            refresh: t.refresh_token@,
            expires_in: t.expires_in,
        },
        FlowStep::Failed(e) => FlowStepModel::Failed { kind: error_kind(e) },
    }
}

/// The polling budget consumed after one more wait, capped at the integer
/// ceiling.
pub open spec fn next_waited_model(waited: u64, interval: u64) -> u64 {
    if waited + interval > u64::MAX {
        u64::MAX
    } else {
        (waited + interval) as u64
    }
}

/// What one step on a reply class yields, given the grant's validity window
/// `expires_in`, the poll `interval`, and the budget `waited` consumed so
/// far. A pending reply continues the flow unless the next poll would fall
/// outside the validity window; every other class is terminal.
pub open spec fn step_result_model(
    expires_in: u64,
    interval: u64,
    waited: u64,
    c: PollClassModel,
) -> FlowStepModel {
    match c {
        PollClassModel::Pending => if next_waited_model(waited, interval) >= expires_in {
            FlowStepModel::Failed { kind: ErrorKind::Protocol }
        } else {
            FlowStepModel::Continue { wait_secs: interval }
        },
        PollClassModel::Denied => FlowStepModel::Failed { kind: ErrorKind::Protocol },
        PollClassModel::Expired => FlowStepModel::Failed { kind: ErrorKind::Protocol },
        PollClassModel::Granted { access, refresh, expires_in: e } => FlowStepModel::Success {
            access,
            refresh,
            expires_in: e,
        },
        PollClassModel::MissingRefresh => FlowStepModel::Failed { kind: ErrorKind::Protocol },
        PollClassModel::Invalid => FlowStepModel::Failed { kind: ErrorKind::Decode },
    }
}

/// The device flow once a code was granted: it awaits approval and polls,
/// tracking how much of the validity window the waits have consumed.
pub struct DeviceFlow {
    pub grant: DeviceCodeGrant,
    pub waited: u64,
}

impl DeviceFlow {
    /// Enters the flow from the issuance outcome. A failure to obtain the
    /// device code is fatal to this flow instance - no retry.
    pub fn begin(issued: Result<DeviceCodeGrant, Error>) -> (r: Result<DeviceFlow, Error>)
        ensures
            match issued {
                Ok(g) => r matches Ok(f) && f.grant == g && f.waited == 0,
                Err(e) => r matches Err(e2) && e2 == e,
            },
    {
        match issued {
            Ok(grant) => Ok(DeviceFlow { grant, waited: 0 }),
            Err(e) => Err(e),
        }
    }

    /// The operator-facing prompt: where to approve and which code to
    /// enter. Purely informational; it does not advance the flow.
    pub fn approval_prompt(&self) -> (r: String)
        ensures
            r@ == "Open this URL in your browser:\n"@ + self.grant.verification_url@
                + "\nand enter the code: "@ + self.grant.user_code@,
    {
        String::from_str("Open this URL in your browser:\n").concat(
            self.grant.verification_url.as_str(),
        ).concat("\nand enter the code: ").concat(self.grant.user_code.as_str())
    }

    /// Steps the flow on one token-endpoint reply: pending keeps polling
    /// within the validity window; a granted token with its refresh token
    /// succeeds; everything else fails with the taxonomy's kind.
    pub fn poll_step(&mut self, rep: &TokenEndpointReply) -> (r: FlowStep)
        ensures
            flow_step_model(r) == step_result_model(
                old(self).grant.expires_in,
                old(self).grant.interval,
                old(self).waited,
                classify_model(*rep),
            ),
            final(self).grant == old(self).grant,
            final(self).waited == if r is Continue {
                next_waited_model(old(self).waited, old(self).grant.interval)
            } else {
                old(self).waited
            },
    {
        match &rep.error {
            Some(e) => {
                if *e == String::from_str("authorization_pending") {
                    let next = self.waited.saturating_add(self.grant.interval);
                    if next >= self.grant.expires_in {
                        FlowStep::Failed(Error::ProtocolError(String::from_str(
                            "device code validity window elapsed before approval",
                        )))
                    } else {
                        self.waited = next;
                        FlowStep::Continue { wait_secs: self.grant.interval }
                    }
                } else if *e == String::from_str("access_denied") {
                    FlowStep::Failed(Error::ProtocolError(String::from_str(
                        "the user declined the authorization",
                    )))
                } else if *e == String::from_str("expired_token") {
                    FlowStep::Failed(Error::ProtocolError(String::from_str(
                        "the device code expired before approval",
                    )))
                } else {
                    FlowStep::Failed(Error::DecodeError(String::from_str(
                        "unrecognized token endpoint error word",
                    )))
                }
            },
            None => {
                match (&rep.access_token, &rep.refresh_token) {
                    (Some(at), Some(rt)) => {
                        if at.as_str().is_empty() {
                            FlowStep::Failed(Error::DecodeError(String::from_str(
                                "token reply carried neither error nor token",
                            )))
                        } else {
                            FlowStep::Success(TraktOAuthToken {
                                access_token: at.clone(),
                                refresh_token: rt.clone(),
                                expires_in: rep.expires_in,
                            })
                        }
                    },
                    (Some(at), None) => {
                        if at.as_str().is_empty() {
                            FlowStep::Failed(Error::DecodeError(String::from_str(
                                "token reply carried neither error nor token",
                            )))
                        } else {
                            FlowStep::Failed(Error::ProtocolError(String::from_str(
                                "token response carried no refresh token",
                            )))
                        }
                    },
                    (None, _) => FlowStep::Failed(Error::DecodeError(String::from_str(
                        "token reply carried neither error nor token",
                    ))),
                }
            },
        }
    }
}

/// The classifications of a reply sequence, in order.
pub open spec fn classes_of(reps: Seq<TokenEndpointReply>) -> Seq<PollClassModel> {
    reps.map_values(|r: TokenEndpointReply| classify_model(r))
}

/// The outcome of feeding the replies to the flow in order: the first
/// terminal step, or nothing if every reply left the flow polling.
pub open spec fn polling_outcome_model(
    expires_in: u64,
    interval: u64,
    waited: u64,
    classes: Seq<PollClassModel>,
) -> Option<FlowStepModel>
    decreases classes.len(),
{
    if classes.len() == 0 {
        None
    } else {
        let s = step_result_model(expires_in, interval, waited, classes[0]);
        if s is Continue {
            polling_outcome_model(
                expires_in,
                interval,
                next_waited_model(waited, interval),
                classes.drop_first(),
            )
        } else {
            Some(s)
        }
    }
}

impl DeviceFlow {
    /// Feeds the replies to the flow in order, stopping at the first
    /// terminal step; pending replies keep the flow polling to the next
    /// reply, so a run of them never terminates the flow early.
    pub fn run_polling(&mut self, replies: &Vec<TokenEndpointReply>) -> (r: Option<FlowStep>)
        ensures
            final(self).grant == old(self).grant,
            match r {
                Some(s) => Some(flow_step_model(s)) == polling_outcome_model(
                    old(self).grant.expires_in,
                    old(self).grant.interval,
                    old(self).waited,
                    classes_of(replies@),
                ),
                None => polling_outcome_model(
                    old(self).grant.expires_in,
                    old(self).grant.interval,
                    old(self).waited,
                    classes_of(replies@),
                ) is None,
            },
    {
        let ghost expires_in = self.grant.expires_in;
        let ghost interval = self.grant.interval;
        let ghost all = classes_of(replies@);
        proof {
            assert(all.skip(0) =~= all);
        }
        let mut i: usize = 0;
        while i < replies.len()
            invariant
                i <= replies.len(),
                self.grant == old(self).grant,
                all == classes_of(replies@),
                expires_in == self.grant.expires_in,
                interval == self.grant.interval,
                polling_outcome_model(expires_in, interval, old(self).waited, all)
                    == polling_outcome_model(expires_in, interval, self.waited, all.skip(i as int)),
            decreases replies.len() - i,
        {
            let ghost pre_waited = self.waited;
            let step = self.poll_step(&replies[i]);
            proof {
                assert(all.skip(i as int)[0] == classify_model(replies@[i as int]));
                assert(all.skip(i as int).drop_first() =~= all.skip(i + 1 as int));
                assert(flow_step_model(step) == step_result_model(
                    expires_in,
                    interval,
                    pre_waited,
                    all.skip(i as int)[0],
                ));
            }
            match step {
                FlowStep::Continue { wait_secs: _ } => {
                    proof {
                        assert(step_result_model(expires_in, interval, pre_waited, all.skip(i as int)[0])
                            is Continue);
                        assert(polling_outcome_model(expires_in, interval, pre_waited, all.skip(i as int))
                            == polling_outcome_model(
                            expires_in,
                            interval,
                            next_waited_model(pre_waited, interval),
                            all.skip(i + 1 as int),
                        ));
                    }
                },
                _ => {
                    proof {
                        assert(!(step_result_model(expires_in, interval, pre_waited, all.skip(i as int)[0])
                            is Continue));
                        assert(polling_outcome_model(expires_in, interval, pre_waited, all.skip(i as int))
                            == Some(flow_step_model(step)));
                    }
                    return Some(step);
                },
            }
            i = i + 1;
        }
        proof {
            assert(all.skip(replies@.len() as int) =~= Seq::<PollClassModel>::empty());
        }
        None
    }
}

/// Law: pending replies never terminate the flow early. Feeding any run of
/// pending replies whose waits stay inside the validity window, followed by
/// one granted reply, yields exactly that reply's token.
pub proof fn lemma_pending_run_then_granted(
    expires_in: u64,
    interval: u64,
    waited: u64,
    classes: Seq<PollClassModel>,
    access: Seq<char>,
    refresh: Seq<char>,
    token_expiry: Option<u64>,
)
    requires
        classes.len() >= 1,
        forall|j: int| 0 <= j < classes.len() - 1 ==> classes[j] == PollClassModel::Pending,
        classes.last() == (PollClassModel::Granted {
            access,
            refresh,
            expires_in: token_expiry,
        }),
        waited + (classes.len() - 1) * interval < expires_in,
    ensures
        polling_outcome_model(expires_in, interval, waited, classes) == Some(
            FlowStepModel::Success { access, refresh, expires_in: token_expiry },
        ),
    decreases classes.len(),
{
    let n = classes.len() as int;
    if n == 1 {
        assert(classes[0] == classes.last());
    } else {
        assert(classes[0] == PollClassModel::Pending);
        assert((n - 1) * (interval as int) >= interval as int) by (nonlinear_arith)
            requires
                n >= 2,
                interval as int >= 0,
        ;
        assert(waited + interval < expires_in);
        let next = next_waited_model(waited, interval);
        assert(next == waited + interval);
        assert(step_result_model(expires_in, interval, waited, classes[0])
            == (FlowStepModel::Continue { wait_secs: interval }));
        let rest = classes.drop_first();
        assert(rest.len() == n - 1);
        assert(rest.last() == classes.last());
        assert((n - 1) * (interval as int) == interval as int + (n - 2) * (interval as int))
            by (nonlinear_arith)
            requires
                n >= 2,
        ;
        assert(next + (rest.len() - 1) * interval < expires_in);
        lemma_pending_run_then_granted(
            expires_in,
            interval,
            next,
            rest,
            access,
            refresh,
            token_expiry,
        );
    }
}

/// The form body of the device-code issuance request.
pub fn device_code_request(client_id: &String) -> (ps: Vec<(String, String)>)
    ensures
        ps.deep_view() =~= seq![("client_id"@, client_id@)],
{
    let mut ps: Vec<(String, String)> = Vec::new();
    ps.push((String::from_str("client_id"), client_id.clone()));
    ps
}

/// The form body of the token-exchange request.
pub fn token_request(client_id: &String, client_secret: &String, device_code: &String) -> (ps: Vec<
    (String, String),
>)
    ensures
        ps.deep_view() =~= seq![
            ("client_id"@, client_id@),
            ("client_secret"@, client_secret@),
            ("code"@, device_code@),
            ("grant_type"@, "urn:ietf:params:oauth:grant-type:device_code"@),
        ],
{
    let mut ps: Vec<(String, String)> = Vec::new();
    ps.push((String::from_str("client_id"), client_id.clone()));
    ps.push((String::from_str("client_secret"), client_secret.clone()));
    ps.push((String::from_str("code"), device_code.clone()));
    ps.push((
        String::from_str("grant_type"),
        String::from_str("urn:ietf:params:oauth:grant-type:device_code"),
    ));
    ps
}

/// The token endpoint's protocol quirk: certain transports synthesize no
/// body while approval is pending. An empty body therefore reads as the
/// pending condition, never as a failure.
pub fn normalize_token_body(text: String) -> (r: String)
    ensures
        text@.len() == 0 ==> r@ == "{\"error\": \"authorization_pending\"}"@,
        text@.len() > 0 ==> r@ == text@,
{
    if text.as_str().is_empty() {
        String::from_str("{\"error\": \"authorization_pending\"}")
    } else {
        text
    }
}

} // verus!
