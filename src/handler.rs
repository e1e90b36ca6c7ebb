//! Dispatch of decoded requests and the per-tab render state they share.
//!
//! Work that touches a live session (writing to it, resizing, searching,
//! spawning) happens on the owning execution context outside this module:
//! `process_one` says what to run; `follow_up` and `complete` take what that
//! work produced and decide the render push and the response.
use crate::pdu::{
    reason_of, respond, DecodedPdu, HandlerError, KeyEvent, MouseEvent, Pdu, SearchResult, Spawn,
    TabSize,
};
use crate::render::{committed, lines_view, PerTab, RenderChanges, RenderState};
use crate::rows::span;
use crate::tab::{max_int, LiveTab, TabState};
use std::collections::HashMap;
use vstd::prelude::*;
use vstd::string::StringExecFns;

verus! {

broadcast use vstd::std_specs::hash::group_hash_axioms;

/// Work to run on the owning execution context for one request.
pub enum Job {
    ListTabs,
    WriteToTab { tab_id: u64, data: Vec<u8> },
    SendPaste { tab_id: u64, data: String },
    SearchScrollback { tab_id: u64, pattern: String },
    Resize { tab_id: u64, size: TabSize },
    SendKeyDown { tab_id: u64, event: KeyEvent, input_serial: u64 },
    SendMouseEvent { tab_id: u64, event: MouseEvent },
    Spawn(Spawn),
    GetTabRenderChanges { tab_id: u64 },
    GetLines { tab_id: u64, lines: Vec<(i64, i64)> },
    GetTlsCreds,
    /// An unsolicited render push for a tab.
    PushChanges { tab_id: u64 },
}

/// What to do with one decoded message.
pub enum Dispatch {
    /// Send this response now.
    Reply(DecodedPdu),
    /// Run `job`; its outcome is answered with `serial`.
    Schedule { serial: u64, job: Job },
}

/// The job that a request calls for; `None` for what is answered at once or
/// is no request.
pub open spec fn job_for(p: Pdu) -> Option<Job> {
    match p {
        Pdu::ListTabs => Some(Job::ListTabs),
        Pdu::WriteToTab { tab_id, data } => Some(Job::WriteToTab { tab_id, data }),
        Pdu::SendPaste { tab_id, data } => Some(Job::SendPaste { tab_id, data }),
        Pdu::SearchTabScrollbackRequest { tab_id, pattern } => Some(
            Job::SearchScrollback { tab_id, pattern },
        ),
        Pdu::Resize { tab_id, size } => Some(Job::Resize { tab_id, size }),
        Pdu::SendKeyDown { tab_id, event, input_serial } => Some(
            Job::SendKeyDown { tab_id, event, input_serial },
        ),
        Pdu::SendMouseEvent { tab_id, event } => Some(Job::SendMouseEvent { tab_id, event }),
        Pdu::Spawn(s) => Some(Job::Spawn(s)),
        Pdu::GetTabRenderChanges { tab_id } => Some(Job::GetTabRenderChanges { tab_id }),
        Pdu::GetLines { tab_id, lines } => Some(Job::GetLines { tab_id, lines }),
        Pdu::GetTlsCreds => Some(Job::GetTlsCreds),
        _ => None,
    }
}

/// The request variants.
pub open spec fn is_request(p: Pdu) -> bool {
    job_for(p) is Some || p is Ping || p is GetCodecVersion
}

/// The tab whose render state a request uses.
pub open spec fn tracked_tab(p: Pdu) -> Option<u64> {
    match p {
        Pdu::WriteToTab { tab_id, .. } => Some(tab_id),
        Pdu::SendPaste { tab_id, .. } => Some(tab_id),
        Pdu::SendKeyDown { tab_id, .. } => Some(tab_id),
        Pdu::SendMouseEvent { tab_id, .. } => Some(tab_id),
        Pdu::GetTabRenderChanges { tab_id } => Some(tab_id),
        Pdu::GetLines { tab_id, .. } => Some(tab_id),
        _ => None,
    }
}

/// Row indices of a list of rows.
pub open spec fn rows_listed(v: Seq<(int, Seq<char>)>) -> Set<int> {
    Set::new(|x: int| exists|k: int| 0 <= k < v.len() && v[k].0 == x)
}

proof fn lemma_listed_push(s: Seq<(int, Seq<char>)>, e: (int, Seq<char>))
    ensures
        rows_listed(s.push(e)) == rows_listed(s).insert(e.0),
{
    assert forall|x: int| rows_listed(s.push(e)).contains(x) <==> rows_listed(s).insert(e.0).contains(
        x,
    ) by {
        if rows_listed(s).contains(x) {
            let k = choose|k: int| 0 <= k < s.len() && s[k].0 == x;
            assert(s.push(e)[k] == s[k]);
        }
        if x == e.0 {
            assert(s.push(e)[s.len() as int] == e);
        }
        if rows_listed(s.push(e)).contains(x) {
            let k = choose|k: int| 0 <= k < s.push(e).len() && s.push(e)[k].0 == x;
            if k < s.len() {
                assert(s.push(e)[k] == s[k]);
            }
        }
    }
    assert(rows_listed(s.push(e)) =~= rows_listed(s).insert(e.0));
}

proof fn lemma_listed_concat(a: Seq<(int, Seq<char>)>, b: Seq<(int, Seq<char>)>)
    ensures
        rows_listed(a + b) == rows_listed(a).union(rows_listed(b)),
{
    assert forall|x: int| rows_listed(a + b).contains(x) <==> rows_listed(a).union(
        rows_listed(b),
    ).contains(x) by {
        if rows_listed(a).contains(x) {
            let k = choose|k: int| 0 <= k < a.len() && a[k].0 == x;
            assert((a + b)[k] == a[k]);
        }
        if rows_listed(b).contains(x) {
            let k = choose|k: int| 0 <= k < b.len() && b[k].0 == x;
            assert((a + b)[a.len() + k] == b[k]);
        }
        if rows_listed(a + b).contains(x) {
            let k = choose|k: int| 0 <= k < (a + b).len() && (a + b)[k].0 == x;
            if k < a.len() {
                assert((a + b)[k] == a[k]);
            } else {
                assert((a + b)[k] == b[k - a.len()]);
            }
        }
    }
    assert(rows_listed(a + b) =~= rows_listed(a).union(rows_listed(b)));
}

proof fn lemma_listed_rows_in(t: LiveTab, lo: int, hi: int)
    ensures
        rows_listed(t.rows_in(lo, hi)) == span(lo, hi).intersect(t.held()),
{
    let c = t.rows_in(lo, hi);
    let a = max_int(lo, t.first_row);
    assert forall|x: int| rows_listed(c).contains(x) <==> span(lo, hi).intersect(t.held()).contains(
        x,
    ) by {
        if span(lo, hi).intersect(t.held()).contains(x) {
            assert(c[x - a].0 == x);
        }
    }
    assert(rows_listed(c) =~= span(lo, hi).intersect(t.held()));
}

/// The rows of `t` named by `ranges`, range after range.
pub open spec fn rows_for(t: LiveTab, ranges: Seq<(i64, i64)>) -> Seq<(int, Seq<char>)>
    decreases ranges.len(),
{
    if ranges.len() == 0 {
        Seq::empty()
    } else {
        rows_for(t, ranges.drop_last()) + t.rows_in(ranges.last().0 as int, ranges.last().1 as int)
    }
}

/// Name of a message variant that is no request.
pub open spec fn message_name(p: Pdu) -> Seq<char> {
    match p {
        Pdu::Pong => "Pong"@,
        Pdu::ListTabsResponse { .. } => "ListTabsResponse"@,
        Pdu::SearchTabScrollbackResponse { .. } => "SearchTabScrollbackResponse"@,
        Pdu::SpawnResponse { .. } => "SpawnResponse"@,
        Pdu::GetTabRenderChangesResponse(..) => "GetTabRenderChangesResponse"@,
        Pdu::UnitResponse => "UnitResponse"@,
        Pdu::TabLivenessResponse { .. } => "TabLivenessResponse"@,
        Pdu::GetLinesResponse { .. } => "GetLinesResponse"@,
        Pdu::GetCodecVersionResponse { .. } => "GetCodecVersionResponse"@,
        Pdu::GetTlsCredsResponse { .. } => "GetTlsCredsResponse"@,
        Pdu::SetClipboard { .. } => "SetClipboard"@,
        Pdu::ErrorResponse { .. } => "ErrorResponse"@,
        _ => "a request"@,
    }
}

/// Why a message that is no request is refused.
pub open spec fn misuse_reason(p: Pdu) -> Seq<char> {
    match p {
        Pdu::Invalid { ident } => reason_of(HandlerError::InvalidPdu(ident)),
        _ => "expected a request, got "@ + message_name(p),
    }
}

/// What a job produced on the owning execution context.
pub enum Outcome {
    /// The session accepted the input, or the tab was found.
    Done,
    Searched(Vec<SearchResult>),
    Spawned { tab_id: u64, window_id: u64 },
    Creds { client_cert_pem: String, ca_cert_pem: String },
    /// The listing, from `Registry::list_tabs`.
    Listed(Pdu),
    /// The rows read, from `SessionHandler::read_lines`.
    Lines(Pdu),
    /// Whether the tab of a render-changes request is alive.
    Alive(bool),
    Failed(HandlerError),
}

/// `outcome` is what `job` produces when it succeeds.
pub open spec fn fits(job: Job, outcome: Outcome) -> bool {
    match job {
        Job::ListTabs => outcome is Listed && outcome->Listed_0 is ListTabsResponse,
        Job::WriteToTab { .. } => outcome is Done,
        Job::SendPaste { .. } => outcome is Done,
        Job::SearchScrollback { .. } => outcome is Searched,
        Job::Resize { .. } => outcome is Done,
        Job::SendKeyDown { .. } => outcome is Done,
        Job::SendMouseEvent { .. } => outcome is Done,
        Job::Spawn(..) => outcome is Spawned,
        Job::GetTabRenderChanges { .. } => outcome is Alive,
        Job::GetLines { .. } => outcome is Lines && outcome->Lines_0 is GetLinesResponse,
        Job::GetTlsCreds => outcome is Creds,
        Job::PushChanges { .. } => outcome is Done,
    }
}

/// The response to a job that produced `outcome`, when it fits.
pub open spec fn response_for(job: Job, outcome: Outcome) -> Pdu {
    match job {
        Job::ListTabs => outcome->Listed_0,
        Job::SearchScrollback { .. } => Pdu::SearchTabScrollbackResponse {
            results: outcome->Searched_0,
        },
        Job::Spawn(..) => Pdu::SpawnResponse {
            tab_id: outcome->Spawned_tab_id,
            window_id: outcome->Spawned_window_id,
        },
        Job::GetTabRenderChanges { tab_id } => Pdu::TabLivenessResponse {
            tab_id,
            tab_alive: outcome->Alive_0,
        },
        Job::GetLines { .. } => outcome->Lines_0,
        Job::GetTlsCreds => Pdu::GetTlsCredsResponse {
            client_cert_pem: outcome->Creds_client_cert_pem,
            ca_cert_pem: outcome->Creds_ca_cert_pem,
        },
        _ => Pdu::UnitResponse,
    }
}

/// Forms the answer to a job: its response, its own failure, or a mismatch.
fn answer(job: &Job, outcome: Outcome) -> (r: Result<Pdu, HandlerError>)
    ensures
        outcome is Failed ==> r == Err::<Pdu, HandlerError>(outcome->Failed_0),
        !(outcome is Failed) && fits(*job, outcome) ==> r == Ok::<Pdu, HandlerError>(
            response_for(*job, outcome),
        ),
        !(outcome is Failed) && !fits(*job, outcome) ==> r == Err::<Pdu, HandlerError>(
            HandlerError::OutcomeMismatch,
        ),
{
    let outcome = match outcome {
        Outcome::Failed(e) => {
            return Err(e);
        },
        o => o,
    };
    match job {
        Job::ListTabs => match outcome {
            Outcome::Listed(Pdu::ListTabsResponse { tabs }) => Ok(Pdu::ListTabsResponse { tabs }),
            _ => Err(HandlerError::OutcomeMismatch),
        },
        Job::SearchScrollback { .. } => match outcome {
            Outcome::Searched(results) => Ok(Pdu::SearchTabScrollbackResponse { results }),
            _ => Err(HandlerError::OutcomeMismatch),
        },
        Job::Spawn(..) => match outcome {
            Outcome::Spawned { tab_id, window_id } => Ok(Pdu::SpawnResponse { tab_id, window_id }),
            _ => Err(HandlerError::OutcomeMismatch),
        },
        Job::GetTabRenderChanges { tab_id } => match outcome {
            Outcome::Alive(tab_alive) => Ok(Pdu::TabLivenessResponse { tab_id: *tab_id, tab_alive }),
            _ => Err(HandlerError::OutcomeMismatch),
        },
        Job::GetLines { .. } => match outcome {
            Outcome::Lines(Pdu::GetLinesResponse { tab_id, lines }) => Ok(
                Pdu::GetLinesResponse { tab_id, lines },
            ),
            _ => Err(HandlerError::OutcomeMismatch),
        },
        Job::GetTlsCreds => match outcome {
            Outcome::Creds { client_cert_pem, ca_cert_pem } => Ok(
                Pdu::GetTlsCredsResponse { client_cert_pem, ca_cert_pem },
            ),
            _ => Err(HandlerError::OutcomeMismatch),
        },
        _ => match outcome {
            Outcome::Done => Ok(Pdu::UnitResponse),
            _ => Err(HandlerError::OutcomeMismatch),
        },
    }
}

/// Answers a job that ran with the request's serial; an unsolicited push
/// job gets no answer.
pub fn complete(serial: u64, job: &Job, outcome: Outcome) -> (r: Option<DecodedPdu>)
    ensures
        (job is PushChanges) <==> r is None,
        r matches Some(d) ==> d.serial == serial,
        r is Some && outcome is Failed ==> {
            &&& r->Some_0.pdu is ErrorResponse
            &&& r->Some_0.pdu->ErrorResponse_reason@ == "Error: "@ + reason_of(outcome->Failed_0)
        },
        r is Some && !(outcome is Failed) && fits(*job, outcome) ==> r->Some_0.pdu == response_for(
            *job,
            outcome,
        ),
        r is Some && !(outcome is Failed) && !fits(*job, outcome) ==> {
            &&& r->Some_0.pdu is ErrorResponse
            &&& r->Some_0.pdu->ErrorResponse_reason@ == "Error: "@ + reason_of(
                HandlerError::OutcomeMismatch,
            )
        },
{
    match job {
        Job::PushChanges { .. } => None,
        _ => Some(respond(serial, answer(job, outcome))),
    }
}

/// A render push that a job calls for once it ran.
pub enum FollowUp {
    Nothing,
    Push { tab_id: u64 },
    /// A push even when nothing changed, carrying a key's input serial.
    ForcedPush { tab_id: u64, input_serial: u64 },
}

/// Input to a session is followed by a push, a key press by a forced one; a
/// render-changes request pushes only for a live tab.
pub open spec fn follow_up_for(job: Job, outcome: Outcome) -> FollowUp {
    match job {
        Job::WriteToTab { tab_id, .. } => if outcome is Done { FollowUp::Push { tab_id } } else { FollowUp::Nothing },
        Job::SendPaste { tab_id, .. } => if outcome is Done { FollowUp::Push { tab_id } } else { FollowUp::Nothing },
        Job::SendMouseEvent { tab_id, .. } => if outcome is Done { FollowUp::Push { tab_id } } else { FollowUp::Nothing },
        Job::PushChanges { tab_id } => if outcome is Done { FollowUp::Push { tab_id } } else { FollowUp::Nothing },
        Job::SendKeyDown { tab_id, input_serial, .. } => if outcome is Done {
            FollowUp::ForcedPush { tab_id, input_serial }
        } else {
            FollowUp::Nothing
        },
        Job::GetTabRenderChanges { tab_id } => if outcome is Alive && outcome->Alive_0 {
            FollowUp::Push { tab_id }
        } else {
            FollowUp::Nothing
        },
        _ => FollowUp::Nothing,
    }
}

/// The push that `job` calls for after producing `outcome`.
pub fn follow_up(job: &Job, outcome: &Outcome) -> (r: FollowUp)
    ensures
        r == follow_up_for(*job, *outcome),
{
    let done = match outcome {
        Outcome::Done => true,
        _ => false,
    };
    match job {
        Job::WriteToTab { tab_id, .. } | Job::SendPaste { tab_id, .. } | Job::SendMouseEvent {
            tab_id,
            ..
        } | Job::PushChanges { tab_id } => if done {
            FollowUp::Push { tab_id: *tab_id }
        } else {
            FollowUp::Nothing
        },
        Job::SendKeyDown { tab_id, input_serial, .. } => if done {
            FollowUp::ForcedPush { tab_id: *tab_id, input_serial: *input_serial }
        } else {
            FollowUp::Nothing
        },
        Job::GetTabRenderChanges { tab_id } => match outcome {
            Outcome::Alive(true) => FollowUp::Push { tab_id: *tab_id },
            _ => FollowUp::Nothing,
        },
        _ => FollowUp::Nothing,
    }
}

/// Serves one client connection: keeps what the client was told about each
/// tab and turns requests into work and responses.
pub struct SessionHandler {
    per_tab: HashMap<u64, PerTab>,
    codec_version: u64,
    version_string: String,
}

impl SessionHandler {
    /// What the client was told about each tab seen so far.
    pub closed spec fn states(&self) -> Map<u64, RenderState> {
        self.per_tab@.map_values(|p: PerTab| p@)
    }

    /// What the client was told about `tab_id`.
    pub open spec fn state(&self, tab_id: u64) -> RenderState {
        if self.states().contains_key(tab_id) {
            self.states()[tab_id]
        } else {
            RenderState::initial()
        }
    }

    pub closed spec fn codec_version_spec(&self) -> u64 {
        self.codec_version
    }

    pub closed spec fn version_string_spec(&self) -> Seq<char> {
        self.version_string@
    }

    /// A handler that has told the client nothing yet; it answers version
    /// queries with `codec_version` and `version_string`.
    pub fn new(codec_version: u64, version_string: String) -> (r: SessionHandler)
        ensures
            r.states() == Map::<u64, RenderState>::empty(),
            r.codec_version_spec() == codec_version,
            r.version_string_spec() == version_string@,
    {
        let r = SessionHandler { per_tab: HashMap::new(), codec_version, version_string };
        assert(r.states() =~= Map::<u64, RenderState>::empty());
        r
    }

    /// Makes sure that `tab_id` has a render state.
    fn per_tab(&mut self, tab_id: u64)
        ensures
            final(self).states() == if old(self).states().contains_key(tab_id) {
                old(self).states()
            } else {
                old(self).states().insert(tab_id, RenderState::initial())
            },
            final(self).codec_version_spec() == old(self).codec_version_spec(),
            final(self).version_string_spec() == old(self).version_string_spec(),
    {
        if !self.per_tab.contains_key(&tab_id) {
            self.per_tab.insert(tab_id, PerTab::new());
            assert(self.states() =~= old(self).states().insert(tab_id, RenderState::initial()));
        }
    }

    /// Takes the render state of `tab_id` out of the map.
    fn take(&mut self, tab_id: u64) -> (r: PerTab)
        ensures
            r@ == old(self).state(tab_id),
            final(self).states() == old(self).states().remove(tab_id),
            final(self).codec_version_spec() == old(self).codec_version_spec(),
            final(self).version_string_spec() == old(self).version_string_spec(),
    {
        let r = match self.per_tab.remove(&tab_id) {
            Some(p) => p,
            None => PerTab::new(),
        };
        assert(self.states() =~= old(self).states().remove(tab_id));
        r
    }

    /// Puts the render state of `tab_id` back.
    fn put(&mut self, tab_id: u64, p: PerTab)
        ensures
            final(self).states() == old(self).states().insert(tab_id, p@),
            final(self).codec_version_spec() == old(self).codec_version_spec(),
            final(self).version_string_spec() == old(self).version_string_spec(),
    {
        self.per_tab.insert(tab_id, p);
        assert(self.states() =~= old(self).states().insert(tab_id, p@));
    }

    /// Drops the render state of a tab that has closed.
    pub fn forget_tab(&mut self, tab_id: u64)
        ensures
            final(self).states() == old(self).states().remove(tab_id),
            final(self).codec_version_spec() == old(self).codec_version_spec(),
            final(self).version_string_spec() == old(self).version_string_spec(),
    {
        let _ = self.per_tab.remove(&tab_id);
        assert(self.states() =~= old(self).states().remove(tab_id));
    }

    /// Prepares an unsolicited push for `tab_id`: makes sure that the tab has
    /// a render state and names the work to run, `push_tab_changes` on the
    /// live tab.
    pub fn schedule_tab_push(&mut self, tab_id: u64) -> (r: Job)
        ensures
            r == (Job::PushChanges { tab_id }),
            final(self).states() == if old(self).states().contains_key(tab_id) {
                old(self).states()
            } else {
                old(self).states().insert(tab_id, RenderState::initial())
            },
    {
        self.per_tab(tab_id);
        Job::PushChanges { tab_id }
    }

    /// Routes one decoded message. A ping and a version query are answered
    /// at once; every other request becomes a job answered with its serial;
    /// anything else is answered with an error.
    pub fn process_one(&mut self, decoded: DecodedPdu) -> (r: Dispatch)
        ensures
            job_for(decoded.pdu) matches Some(j) ==> r == (Dispatch::Schedule {
                serial: decoded.serial,
                job: j,
            }),
            decoded.pdu is Ping ==> r == Dispatch::Reply(
                DecodedPdu { serial: decoded.serial, pdu: Pdu::Pong },
            ),
            decoded.pdu is GetCodecVersion ==> {
                &&& r is Reply
                &&& r->Reply_0.serial == decoded.serial
                &&& r->Reply_0.pdu == (Pdu::GetCodecVersionResponse {
                    codec_vers: old(self).codec_version_spec(),
                    version_string: r->Reply_0.pdu->GetCodecVersionResponse_version_string,
                })
                &&& r->Reply_0.pdu->GetCodecVersionResponse_version_string@
                    == old(self).version_string_spec()
            },
            !is_request(decoded.pdu) ==> {
                &&& r is Reply
                &&& r->Reply_0.serial == decoded.serial
                &&& r->Reply_0.pdu is ErrorResponse
                &&& r->Reply_0.pdu->ErrorResponse_reason@ == "Error: "@ + misuse_reason(decoded.pdu)
            },
            final(self).states() == match tracked_tab(decoded.pdu) {
                Some(id) => if old(self).states().contains_key(id) {
                    old(self).states()
                } else {
                    old(self).states().insert(id, RenderState::initial())
                },
                None => old(self).states(),
            },
            final(self).codec_version_spec() == old(self).codec_version_spec(),
            final(self).version_string_spec() == old(self).version_string_spec(),
    {
        let serial = decoded.serial;
        match decoded.pdu {
            Pdu::Ping => Dispatch::Reply(DecodedPdu { serial, pdu: Pdu::Pong }),
            Pdu::ListTabs => Dispatch::Schedule { serial, job: Job::ListTabs },
            Pdu::WriteToTab { tab_id, data } => {
                self.per_tab(tab_id);
                Dispatch::Schedule { serial, job: Job::WriteToTab { tab_id, data } }
            },
            Pdu::SendPaste { tab_id, data } => {
                self.per_tab(tab_id);
                Dispatch::Schedule { serial, job: Job::SendPaste { tab_id, data } }
            },
            Pdu::SearchTabScrollbackRequest { tab_id, pattern } => Dispatch::Schedule {
                serial,
                job: Job::SearchScrollback { tab_id, pattern },
            },
            Pdu::Resize { tab_id, size } => Dispatch::Schedule {
                serial,
                job: Job::Resize { tab_id, size },
            },
            Pdu::SendKeyDown { tab_id, event, input_serial } => {
                self.per_tab(tab_id);
                Dispatch::Schedule { serial, job: Job::SendKeyDown { tab_id, event, input_serial } }
            },
            Pdu::SendMouseEvent { tab_id, event } => {
                self.per_tab(tab_id);
                Dispatch::Schedule { serial, job: Job::SendMouseEvent { tab_id, event } }
            },
            Pdu::Spawn(spawn) => Dispatch::Schedule { serial, job: Job::Spawn(spawn) },
            Pdu::GetTabRenderChanges { tab_id } => {
                self.per_tab(tab_id);
                Dispatch::Schedule { serial, job: Job::GetTabRenderChanges { tab_id } }
            },
            Pdu::GetLines { tab_id, lines } => {
                self.per_tab(tab_id);
                Dispatch::Schedule { serial, job: Job::GetLines { tab_id, lines } }
            },
            Pdu::GetCodecVersion => Dispatch::Reply(
                DecodedPdu {
                    serial,
                    pdu: Pdu::GetCodecVersionResponse {
                        codec_vers: self.codec_version,
                        version_string: self.version_string.clone(),
                    },
                },
            ),
            Pdu::GetTlsCreds => Dispatch::Schedule { serial, job: Job::GetTlsCreds },
            Pdu::Invalid { ident } => Dispatch::Reply(
                respond(serial, Err(HandlerError::InvalidPdu(ident))),
            ),
            other => {
                let name = response_name(&other);
                Dispatch::Reply(respond(serial, Err(HandlerError::ExpectedRequest(name))))
            },
        }
    }

    /// Pushes what changed in `tab` since the client was last told, if
    /// anything did.
    pub fn push_tab_changes(&mut self, tab: &mut TabState) -> (r: Option<DecodedPdu>)
        requires
            old(tab)@.wf(),
        ensures
            r is None <==> !old(self).state(old(tab)@.tab_id).differs(old(tab)@),
            r is None ==> final(self).states() == old(self).states() || final(self).states()
                == old(self).states().insert(old(tab)@.tab_id, old(self).state(old(tab)@.tab_id)),
            r is None ==> final(tab)@ == old(tab)@,
            r matches Some(d) ==> {
                &&& d.serial == 0
                &&& d.pdu is GetTabRenderChangesResponse
                &&& d.pdu->GetTabRenderChangesResponse_0.describes(
                    old(self).state(old(tab)@.tab_id),
                    old(tab)@,
                    None,
                )
            },
            r is Some ==> final(self).states() == old(self).states().insert(
                old(tab)@.tab_id,
                committed(old(tab)@),
            ),
            final(self).state(old(tab)@.tab_id) == if r is None {
                old(self).state(old(tab)@.tab_id)
            } else {
                committed(old(tab)@)
            },
            final(tab)@.wf(),
            final(self).codec_version_spec() == old(self).codec_version_spec(),
            final(self).version_string_spec() == old(self).version_string_spec(),
    {
        let tab_id = tab.tab_id;
        let mut p = self.take(tab_id);
        let changes = p.compute_changes(tab, None);
        self.put(tab_id, p);
        match changes {
            Some(c) => Some(DecodedPdu { serial: 0, pdu: Pdu::GetTabRenderChangesResponse(c) }),
            None => None,
        }
    }

    /// After a key press: always pushes the tab's state, carrying the key's
    /// input serial and the cursor's row.
    pub fn key_down_push(&mut self, tab: &mut TabState, input_serial: u64) -> (r: DecodedPdu)
        requires
            old(tab)@.wf(),
        ensures
            r.serial == 0,
            r.pdu is GetTabRenderChangesResponse,
            r.pdu->GetTabRenderChangesResponse_0.describes(
                old(self).state(old(tab)@.tab_id),
                old(tab)@,
                Some(input_serial),
            ),
            final(self).states() == old(self).states().insert(old(tab)@.tab_id, committed(old(tab)@)),
            final(tab)@.wf(),
            final(self).codec_version_spec() == old(self).codec_version_spec(),
            final(self).version_string_spec() == old(self).version_string_spec(),
    {
        let tab_id = tab.tab_id;
        let mut p = self.take(tab_id);
        let changes = p.compute_changes(tab, Some(input_serial));
        self.put(tab_id, p);
        match changes {
            Some(c) => DecodedPdu { serial: 0, pdu: Pdu::GetTabRenderChangesResponse(c) },
            None => {
                assert(false);
                DecodedPdu { serial: 0, pdu: Pdu::UnitResponse }
            },
        }
    }

    /// Answers a direct line read: returns the held rows of each range, in
    /// order, and forgets that they are dirty, both in what the client was
    /// told and in the session.
    pub fn read_lines(&mut self, tab: &mut TabState, ranges: &Vec<(i64, i64)>) -> (r: Pdu)
        requires
            old(tab)@.wf(),
        ensures
            r is GetLinesResponse,
            r->GetLinesResponse_tab_id == old(tab)@.tab_id,
            lines_view(r->GetLinesResponse_lines@) == rows_for(old(tab)@, ranges@),
            forall|k: int|
                0 <= k < rows_for(old(tab)@, ranges@).len() ==> {
                    let row = #[trigger] rows_for(old(tab)@, ranges@)[k].0;
                    &&& !final(self).state(old(tab)@.tab_id).dirty.contains(row)
                    &&& !final(tab)@.dirty.contains(row)
                },
            final(self).state(old(tab)@.tab_id) == (RenderState {
                dirty: final(self).state(old(tab)@.tab_id).dirty,
                ..old(self).state(old(tab)@.tab_id)
            }),
            final(self).state(old(tab)@.tab_id).dirty == old(self).state(
                old(tab)@.tab_id,
            ).dirty.difference(rows_listed(rows_for(old(tab)@, ranges@))),
            final(self).states() == old(self).states().insert(
                old(tab)@.tab_id,
                final(self).state(old(tab)@.tab_id),
            ),
            final(tab)@ == (LiveTab { dirty: final(tab)@.dirty, ..old(tab)@ }),
            final(tab)@.dirty == old(tab)@.dirty.difference(rows_listed(rows_for(old(tab)@, ranges@))),
            final(tab)@.wf(),
            final(self).codec_version_spec() == old(self).codec_version_spec(),
            final(self).version_string_spec() == old(self).version_string_spec(),
    {
        let tab_id = tab.tab_id;
        let mut p = self.take(tab_id);
        let ghost s0 = p@;
        let ghost t0 = tab@;
        let mut out: Vec<(i64, String)> = Vec::new();
        let mut i: usize = 0;
        assert(ranges@.take(0) =~= Seq::<(i64, i64)>::empty());
        assert(lines_view(out@) =~= Seq::<(int, Seq<char>)>::empty());
        while i < ranges.len()
            invariant
                0 <= i <= ranges@.len(),
                t0.wf(),
                tab_id == t0.tab_id,
                tab@ == (LiveTab { dirty: tab@.dirty, ..t0 }),
                tab@.dirty == t0.dirty.difference(rows_listed(lines_view(out@))),
                p@ == (RenderState { dirty: p@.dirty, ..s0 }),
                p@.dirty == s0.dirty.difference(rows_listed(lines_view(out@))),
                lines_view(out@) == rows_for(t0, ranges@.take(i as int)),
                forall|k: int|
                    0 <= k < out@.len() ==> !p@.dirty.contains(#[trigger] out@[k].0 as int)
                        && !tab@.dirty.contains(out@[k].0 as int),
                self.states() == old(self).states().remove(tab_id),
                self.codec_version_spec() == old(self).codec_version_spec(),
                self.version_string_spec() == old(self).version_string_spec(),
            decreases ranges@.len() - i,
        {
            let (lo, hi) = ranges[i];
            let ghost before = out@;
            let ghost tprev = tab@;
            assert(tprev.rows_in(lo as int, hi as int) =~= t0.rows_in(lo as int, hi as int));
            let (first, lines) = tab.get_lines(lo, hi);
            let ghost chunk = t0.rows_in(lo as int, hi as int);
            proof {
                lemma_listed_rows_in(t0, lo as int, hi as int);
                lemma_listed_concat(lines_view(before), chunk);
                assert(tab@.dirty =~= t0.dirty.difference(rows_listed(lines_view(before) + chunk)));
            }
            assert(lines@.len() == chunk.len());
            assert(forall|k: int| 0 <= k < out@.len() ==> !tab@.dirty.contains(#[trigger] out@[k].0 as int));
            let mut j: usize = 0;
            while j < lines.len()
                invariant
                    0 <= j <= lines@.len(),
                    lines@.len() == chunk.len(),
                    chunk == t0.rows_in(lo as int, hi as int),
                    t0.wf(),
                    first == max_int(lo as int, t0.first_row),
                    lines@.map_values(|l: String| l@) == chunk.map_values(|q: (int, Seq<char>)| q.1),
                    tab@ == tprev.after_read(lo as int, hi as int),
                    tprev == (LiveTab { dirty: tprev.dirty, ..t0 }),
                    p@ == (RenderState { dirty: p@.dirty, ..s0 }),
                    p@.dirty == s0.dirty.difference(rows_listed(lines_view(out@))),
                    tab@.dirty == t0.dirty.difference(rows_listed(lines_view(before) + chunk)),
                    out@.len() == before.len() + j,
                    forall|k: int| 0 <= k < before.len() ==> out@[k] == before[k],
                    forall|k: int|
                        0 <= k < j ==> lines_view(out@)[before.len() + k] == #[trigger] chunk[k],
                    forall|k: int|
                        0 <= k < out@.len() ==> !p@.dirty.contains(#[trigger] out@[k].0 as int)
                            && !tab@.dirty.contains(out@[k].0 as int),
                decreases lines@.len() - j,
            {
                assert(chunk[j as int].0 == first + j);
                let row: i64 = first + j as i64;
                p.mark_clean(row);
                let line = lines[j].clone();
                assert(lines@.map_values(|l: String| l@)[j as int] == line@);
                let ghost mid = out@;
                out.push((row, line));
                assert(forall|k: int| 0 <= k < mid.len() ==> out@[k] == mid[k]);
                proof {
                    assert(lines_view(out@) =~= lines_view(mid).push((row as int, line@)));
                    lemma_listed_push(lines_view(mid), (row as int, line@));
                    assert(p@.dirty =~= s0.dirty.difference(rows_listed(lines_view(out@))));
                }
                j = j + 1;
            }
            assert(ranges@.take(i + 1).drop_last() =~= ranges@.take(i as int));
            assert(lines_view(out@) =~= lines_view(before) + chunk);
            i = i + 1;
        }
        assert(ranges@.take(i as int) =~= ranges@);
        let ghost pv = p@;
        self.put(tab_id, p);
        assert(self.state(tab_id) == pv);
        Pdu::GetLinesResponse { tab_id, lines: out }
    }
}

/// A row that a direct line read returned, and so acknowledged, is not
/// reported dirty by a later push unless it was marked dirty again: `s` and
/// `t` are the client's and the session's state after the read, `fresh` the
/// rows marked dirty since.
pub proof fn lemma_read_row_stays_quiet(
    s: RenderState,
    t: LiveTab,
    later: LiveTab,
    fresh: Set<int>,
    row: int,
)
    requires
        !s.dirty.contains(row),
        !t.dirty.contains(row),
        later.dirty.subset_of(t.dirty.union(fresh)),
        !fresh.contains(row),
    ensures
        !s.dirty_delta(later).contains(row),
{
}

/// Relays a session's clipboard to the client.
pub struct RemoteClipboard {
    pub tab_id: u64,
}

impl RemoteClipboard {
    /// Reading the client's clipboard is not supported: always empty.
    pub fn get_contents(&self) -> (r: String)
        ensures
            r@ == Seq::<char>::empty(),
    {
        String::new()
    }

    /// The push that carries a clipboard change of the session to the client.
    pub fn set_contents(&self, clipboard: Option<String>) -> (r: DecodedPdu)
        ensures
            r == (DecodedPdu { serial: 0, pdu: Pdu::SetClipboard { tab_id: self.tab_id, clipboard } }),
    {
        DecodedPdu { serial: 0, pdu: Pdu::SetClipboard { tab_id: self.tab_id, clipboard } }
    }
}

/// Name of a message variant that is no request.
fn response_name(p: &Pdu) -> (r: String)
    ensures
        r@ == message_name(*p),
{
    let name: &str = match p {
        Pdu::Pong => "Pong",
        Pdu::ListTabsResponse { .. } => "ListTabsResponse",
        Pdu::SearchTabScrollbackResponse { .. } => "SearchTabScrollbackResponse",
        Pdu::SpawnResponse { .. } => "SpawnResponse",
        Pdu::GetTabRenderChangesResponse(..) => "GetTabRenderChangesResponse",
        Pdu::UnitResponse => "UnitResponse",
        Pdu::TabLivenessResponse { .. } => "TabLivenessResponse",
        Pdu::GetLinesResponse { .. } => "GetLinesResponse",
        Pdu::GetCodecVersionResponse { .. } => "GetCodecVersionResponse",
        Pdu::GetTlsCredsResponse { .. } => "GetTlsCredsResponse",
        Pdu::SetClipboard { .. } => "SetClipboard",
        Pdu::ErrorResponse { .. } => "ErrorResponse",
        _ => "a request",
    };
    String::from_str(name)
}

} // verus!
