//! The wireless session manager: one state machine per workflow call.
//!
//! A [`Session`] is opened for exactly one workflow (scan, list, connect, or
//! remove).  The surrounding process owns the control socket; it performs
//! each [`Request`] the machine emits and feeds the answer back as an
//! [`Event`].  The machine is the whole decision layer: which request comes
//! next, how the known-network table is searched, when the workflow's result
//! is fixed, and that the shutdown request goes out on every exit path —
//! success, early return on a table match, or error — exactly once.
//!
//! The ghost `trace` field records every request the machine has emitted, so
//! the teardown and ordering guarantees are stated and proved over it.

use vstd::prelude::*;

use crate::wifi::{opt_req_view, Cmd, Event, KnownNetwork, Request, ScanResult, WifiError, WifiModule};

verus! {

/// Which operation a session runs.  A session is single-use: one workflow,
/// then shutdown.
pub enum Workflow {
    /// Report every discovered network, verbatim.
    Scan,
    /// Report the known-network table, verbatim.
    ListKnown,
    /// Activate the first table entry with this SSID, creating one if none
    /// exists.
    Connect { ssid: String, psk: String },
    /// Remove this entry from the table.
    Remove { network_id: usize },
}

/// Where in its workflow a session stands, named after the request in
/// flight.
#[derive(Clone, Copy, Debug)]
pub enum Phase {
    /// A scan request is in flight.
    AwaitScan,
    /// A table request is in flight, for the list workflow.
    AwaitNetworks,
    /// A table request is in flight, for the connect workflow.
    AwaitTable,
    /// An add-network request is in flight.
    AwaitAdd,
    /// An SSID write is in flight.
    AwaitSsidAck,
    /// A PSK write is in flight.
    AwaitPskAck,
    /// A select (activate) request is in flight.
    AwaitSelectAck,
    /// A remove request is in flight.
    AwaitRemoveAck,
    /// The shutdown request is in flight; the result is already fixed.
    ShuttingDown,
    /// All done; nothing more will be asked.
    Closed,
}

/// The value a workflow produces on success.
#[derive(Debug)]
pub enum Outcome {
    /// The scan report, exactly as the supplicant gave it.
    ScanList(Vec<ScanResult>),
    /// The known-network table, exactly as the supplicant gave it.
    KnownList(Vec<KnownNetwork>),
    /// A connect or remove workflow completed.
    Accepted,
}

/// True when entry `i` of the table exists and bears the given SSID.
/// SSID comparison is exact: case-sensitive, character for character.
pub open spec fn matches_at(t: Seq<KnownNetwork>, ssid: Seq<char>, i: int) -> bool {
    0 <= i < t.len() && t[i].ssid@ == ssid
}

/// True when some entry of the table bears the given SSID.
pub open spec fn has_match(t: Seq<KnownNetwork>, ssid: Seq<char>) -> bool {
    exists|i: int| matches_at(t, ssid, i)
}

/// True when entry `i` bears the given SSID and no earlier entry does.
pub open spec fn is_first_match(t: Seq<KnownNetwork>, ssid: Seq<char>, i: int) -> bool {
    &&& matches_at(t, ssid, i)
    &&& forall|j: int| 0 <= j < i ==> !matches_at(t, ssid, j)
}

/// The index of the first entry bearing the given SSID; meaningful when
/// `has_match` holds (see `lemma_first_match_exists`).
pub open spec fn first_match_idx(t: Seq<KnownNetwork>, ssid: Seq<char>) -> int {
    choose|i: int| is_first_match(t, ssid, i)
}

/// At most one index is the first match.
pub proof fn lemma_first_match_unique(t: Seq<KnownNetwork>, ssid: Seq<char>, i: int, j: int)
    requires
        is_first_match(t, ssid, i),
        is_first_match(t, ssid, j),
    ensures
        i == j,
{
    if i < j {
        assert(matches_at(t, ssid, i));
        assert(!matches_at(t, ssid, i));
    } else if j < i {
        assert(matches_at(t, ssid, j));
        assert(!matches_at(t, ssid, j));
    }
}

proof fn lemma_first_from(t: Seq<KnownNetwork>, ssid: Seq<char>, i: int)
    requires
        matches_at(t, ssid, i),
    ensures
        exists|k: int| is_first_match(t, ssid, k),
    decreases i,
{
    if forall|j: int| 0 <= j < i ==> !matches_at(t, ssid, j) {
        assert(is_first_match(t, ssid, i));
    } else {
        let j = choose|j: int| 0 <= j < i && matches_at(t, ssid, j);
        lemma_first_from(t, ssid, j);
    }
}

/// When some entry matches, `first_match_idx` names a first match.
pub proof fn lemma_first_match_exists(t: Seq<KnownNetwork>, ssid: Seq<char>)
    requires
        has_match(t, ssid),
    ensures
        is_first_match(t, ssid, first_match_idx(t, ssid)),
{
    let i = choose|i: int| matches_at(t, ssid, i);
    lemma_first_from(t, ssid, i);
}

/// The request sequence of a connect that creates a new entry: fetch the
/// table, create, set the SSID, then the PSK, then select — in that exact
/// order.  The SSID write comes before the PSK write because the table
/// accepts a key only for an entry that already has a name.
pub open spec fn create_plan(ssid: Seq<char>, psk: Seq<char>, id: usize) -> Seq<Cmd> {
    seq![
        Cmd::GetNetworks,
        Cmd::AddNetwork,
        Cmd::SetSsid(id, ssid),
        Cmd::SetPsk(id, psk),
        Cmd::SelectNetwork(id),
    ]
}

/// A result that has already been obtained is authoritative: a failure
/// reported while tearing the session down only replaces a success.
pub open spec fn degraded(
    o: Option<Result<Outcome, WifiError>>,
    e: WifiError,
) -> Option<Result<Outcome, WifiError>> {
    match o {
        Some(Ok(_)) => Some(Err(e)),
        Some(Err(e0)) => Some(Err(e0)),
        None => Some(Err(e)),
    }
}

/// The complete image of one step: every field of the next session state
/// and the emitted request, as one value.
pub struct StepResult {
    pub phase: Phase,
    pub chosen_id: usize,
    pub outcome: Option<Result<Outcome, WifiError>>,
    pub table: Option<Seq<KnownNetwork>>,
    pub trace: Seq<Cmd>,
    pub req: Option<Cmd>,
}

/// One control-socket session, driving one workflow to completion.
pub struct Session {
    /// The operation this session runs.
    pub workflow: Workflow,
    /// Where the session stands.
    pub phase: Phase,
    /// The network id chosen for a connect: the matched entry's id, or the
    /// id the supplicant assigned to a fresh entry.
    pub chosen_id: usize,
    /// The workflow's result, fixed before shutdown is requested.
    pub outcome: Option<Result<Outcome, WifiError>>,
    /// The request trace: every request emitted so far, in order.
    pub trace: Ghost<Seq<Cmd>>,
    /// The known-network table as received, for the connect workflow.
    pub table: Ghost<Option<Seq<KnownNetwork>>>,
}

impl Session {
    /// The connect workflow's target SSID (empty for other workflows).
    pub open spec fn connect_ssid(self) -> Seq<char> {
        match self.workflow {
            Workflow::Connect { ssid, .. } => ssid@,
            _ => Seq::<char>::empty(),
        }
    }

    /// The connect workflow's supplied PSK (empty for other workflows).
    pub open spec fn connect_psk(self) -> Seq<char> {
        match self.workflow {
            Workflow::Connect { psk, .. } => psk@,
            _ => Seq::<char>::empty(),
        }
    }

    /// The remove workflow's target id (zero for other workflows).
    pub open spec fn remove_target(self) -> usize {
        match self.workflow {
            Workflow::Remove { network_id } => network_id,
            _ => 0,
        }
    }

    /// Whether the known-network table has been received.
    pub open spec fn got_table(self) -> bool {
        self.table@ is Some
    }

    /// The known-network table as received (empty until `got_table`).
    pub open spec fn the_table(self) -> Seq<KnownNetwork> {
        match self.table@ {
            Some(t) => t,
            None => Seq::<KnownNetwork>::empty(),
        }
    }

    /// The requests a session may have emitted before its shutdown request,
    /// given its workflow and what it had learned.
    pub open spec fn pre_shutdown_trace_ok(self, pre: Seq<Cmd>) -> bool {
        match self.workflow {
            Workflow::Scan => pre =~= seq![Cmd::GetScan],
            Workflow::ListKnown => pre =~= seq![Cmd::GetNetworks],
            Workflow::Remove { network_id } => pre =~= seq![Cmd::RemoveNetwork(network_id)],
            Workflow::Connect { .. } => match self.table@ {
                None => {
                    &&& pre =~= seq![Cmd::GetNetworks]
                    &&& self.outcome matches Some(Err(_))
                },
                Some(t) => {
                    if has_match(t, self.connect_ssid()) {
                        &&& self.chosen_id == t[first_match_idx(t, self.connect_ssid())].network_id
                        &&& pre =~= seq![Cmd::GetNetworks, Cmd::SelectNetwork(self.chosen_id)]
                    } else {
                        &&& 2 <= pre.len() <= 5
                        &&& pre =~= create_plan(
                            self.connect_ssid(),
                            self.connect_psk(),
                            self.chosen_id,
                        ).take(pre.len() as int)
                        &&& (self.outcome matches Some(Ok(_)) ==> pre.len() == 5)
                    }
                },
            },
        }
    }

    /// Well-formedness: what a session looks like in each phase.  Every
    /// session returned by `start` satisfies it, and `step` preserves it.
    pub open spec fn wf(self) -> bool {
        match self.phase {
            Phase::AwaitScan => {
                &&& self.workflow is Scan
                &&& self.outcome is None
                &&& self.table@ is None
                &&& self.trace@ =~= seq![Cmd::GetScan]
            },
            Phase::AwaitNetworks => {
                &&& self.workflow is ListKnown
                &&& self.outcome is None
                &&& self.table@ is None
                &&& self.trace@ =~= seq![Cmd::GetNetworks]
            },
            Phase::AwaitTable => {
                &&& self.workflow is Connect
                &&& self.outcome is None
                &&& self.table@ is None
                &&& self.trace@ =~= seq![Cmd::GetNetworks]
            },
            Phase::AwaitAdd => {
                &&& self.workflow is Connect
                &&& self.outcome is None
                &&& self.got_table()
                &&& !has_match(self.the_table(), self.connect_ssid())
                &&& self.trace@ =~= seq![Cmd::GetNetworks, Cmd::AddNetwork]
            },
            Phase::AwaitSsidAck => {
                &&& self.workflow is Connect
                &&& self.outcome is None
                &&& self.got_table()
                &&& !has_match(self.the_table(), self.connect_ssid())
                &&& self.trace@ =~= create_plan(
                    self.connect_ssid(),
                    self.connect_psk(),
                    self.chosen_id,
                ).take(3)
            },
            Phase::AwaitPskAck => {
                &&& self.workflow is Connect
                &&& self.outcome is None
                &&& self.got_table()
                &&& !has_match(self.the_table(), self.connect_ssid())
                &&& self.trace@ =~= create_plan(
                    self.connect_ssid(),
                    self.connect_psk(),
                    self.chosen_id,
                ).take(4)
            },
            Phase::AwaitSelectAck => {
                &&& self.workflow is Connect
                &&& self.outcome is None
                &&& self.got_table()
                &&& if has_match(self.the_table(), self.connect_ssid()) {
                    &&& self.chosen_id == self.the_table()[first_match_idx(
                        self.the_table(),
                        self.connect_ssid(),
                    )].network_id
                    &&& self.trace@ =~= seq![
                        Cmd::GetNetworks,
                        Cmd::SelectNetwork(self.chosen_id),
                    ]
                } else {
                    self.trace@ =~= create_plan(
                        self.connect_ssid(),
                        self.connect_psk(),
                        self.chosen_id,
                    )
                }
            },
            Phase::AwaitRemoveAck => {
                &&& self.workflow is Remove
                &&& self.outcome is None
                &&& self.trace@ =~= seq![Cmd::RemoveNetwork(self.remove_target())]
            },
            Phase::ShuttingDown | Phase::Closed => {
                &&& self.outcome is Some
                &&& self.trace@.len() >= 2
                &&& self.trace@.last() == Cmd::Shutdown
                &&& forall|k: int|
                    0 <= k < self.trace@.len() - 1 ==> self.trace@[k] != Cmd::Shutdown
                &&& self.pre_shutdown_trace_ok(self.trace@.drop_last())
            },
        }
    }

    /// The step image when the workflow ends with the given result: record
    /// it and ask for the shutdown.
    pub open spec fn finish_image(self, out: Result<Outcome, WifiError>) -> StepResult {
        StepResult {
            phase: Phase::ShuttingDown,
            chosen_id: self.chosen_id,
            outcome: Some(out),
            table: self.table@,
            trace: self.trace@.push(Cmd::Shutdown),
            req: Some(Cmd::Shutdown),
        }
    }

    /// The step image when nothing changes and nothing is asked.
    pub open spec fn idle_image(self) -> StepResult {
        StepResult {
            phase: self.phase,
            chosen_id: self.chosen_id,
            outcome: self.outcome,
            table: self.table@,
            trace: self.trace@,
            req: None,
        }
    }

    /// The machine's full transition function: from the current state and
    /// the supplicant's answer to the next state and the next request.  An
    /// answer of the wrong shape for the phase counts as a protocol error;
    /// any failure fixes the result and still asks for the shutdown.
    pub open spec fn spec_step(self, ev: Event) -> StepResult {
        match self.phase {
            Phase::AwaitScan => match ev {
                Event::ScanResults(list) => self.finish_image(Ok(Outcome::ScanList(list))),
                Event::Failed(e) => self.finish_image(Err(e)),
                _ => self.finish_image(Err(WifiError::ProtocolError)),
            },
            Phase::AwaitNetworks => match ev {
                Event::Networks(list) => self.finish_image(Ok(Outcome::KnownList(list))),
                Event::Failed(e) => self.finish_image(Err(e)),
                _ => self.finish_image(Err(WifiError::ProtocolError)),
            },
            Phase::AwaitTable => match ev {
                Event::Networks(list) => {
                    if has_match(list@, self.connect_ssid()) {
                        let id = list@[first_match_idx(list@, self.connect_ssid())].network_id;
                        StepResult {
                            phase: Phase::AwaitSelectAck,
                            chosen_id: id,
                            outcome: self.outcome,
                            table: Some(list@),
                            trace: self.trace@.push(Cmd::SelectNetwork(id)),
                            req: Some(Cmd::SelectNetwork(id)),
                        }
                    } else {
                        StepResult {
                            phase: Phase::AwaitAdd,
                            chosen_id: self.chosen_id,
                            outcome: self.outcome,
                            table: Some(list@),
                            trace: self.trace@.push(Cmd::AddNetwork),
                            req: Some(Cmd::AddNetwork),
                        }
                    }
                },
                Event::Failed(e) => self.finish_image(Err(e)),
                _ => self.finish_image(Err(WifiError::ProtocolError)),
            },
            Phase::AwaitAdd => match ev {
                Event::NetworkAdded(id) => StepResult {
                    phase: Phase::AwaitSsidAck,
                    chosen_id: id,
                    outcome: self.outcome,
                    table: self.table@,
                    trace: self.trace@.push(Cmd::SetSsid(id, self.connect_ssid())),
                    req: Some(Cmd::SetSsid(id, self.connect_ssid())),
                },
                Event::Failed(e) => self.finish_image(Err(e)),
                _ => self.finish_image(Err(WifiError::ProtocolError)),
            },
            Phase::AwaitSsidAck => match ev {
                Event::Ack => StepResult {
                    phase: Phase::AwaitPskAck,
                    chosen_id: self.chosen_id,
                    outcome: self.outcome,
                    table: self.table@,
                    trace: self.trace@.push(Cmd::SetPsk(self.chosen_id, self.connect_psk())),
                    req: Some(Cmd::SetPsk(self.chosen_id, self.connect_psk())),
                },
                Event::Failed(e) => self.finish_image(Err(e)),
                _ => self.finish_image(Err(WifiError::ProtocolError)),
            },
            Phase::AwaitPskAck => match ev {
                Event::Ack => StepResult {
                    phase: Phase::AwaitSelectAck,
                    chosen_id: self.chosen_id,
                    outcome: self.outcome,
                    table: self.table@,
                    trace: self.trace@.push(Cmd::SelectNetwork(self.chosen_id)),
                    req: Some(Cmd::SelectNetwork(self.chosen_id)),
                },
                Event::Failed(e) => self.finish_image(Err(e)),
                _ => self.finish_image(Err(WifiError::ProtocolError)),
            },
            Phase::AwaitSelectAck => match ev {
                Event::Ack => self.finish_image(Ok(Outcome::Accepted)),
                Event::Failed(e) => self.finish_image(Err(e)),
                _ => self.finish_image(Err(WifiError::ProtocolError)),
            },
            Phase::AwaitRemoveAck => match ev {
                Event::Ack => self.finish_image(Ok(Outcome::Accepted)),
                Event::Failed(e) => self.finish_image(Err(e)),
                _ => self.finish_image(Err(WifiError::ProtocolError)),
            },
            Phase::ShuttingDown => {
                let out = match ev {
                    Event::ShutdownComplete => self.outcome,
                    Event::Failed(e) => degraded(self.outcome, e),
                    _ => degraded(self.outcome, WifiError::ProtocolError),
                };
                StepResult {
                    phase: Phase::Closed,
                    chosen_id: self.chosen_id,
                    outcome: out,
                    table: self.table@,
                    trace: self.trace@,
                    req: None,
                }
            },
            Phase::Closed => self.idle_image(),
        }
    }

    /// The first request of each workflow and the phase awaiting its answer.
    pub open spec fn start_image(w: Workflow) -> (Phase, Cmd) {
        match w {
            Workflow::Scan => (Phase::AwaitScan, Cmd::GetScan),
            Workflow::ListKnown => (Phase::AwaitNetworks, Cmd::GetNetworks),
            Workflow::Connect { .. } => (Phase::AwaitTable, Cmd::GetNetworks),
            Workflow::Remove { network_id } => (
                Phase::AwaitRemoveAck,
                Cmd::RemoveNetwork(network_id),
            ),
        }
    }

    /// Open a session for the given workflow: the machine, and the first
    /// request to put on the wire.
    pub fn start(w: Workflow) -> (r: (Session, Request))
        ensures
            r.0.wf(),
            r.0.workflow == w,
            r.0.phase == Session::start_image(w).0,
            r.0.chosen_id == 0,
            r.0.outcome is None,
            r.0.table@ is None,
            r.1@ == Session::start_image(w).1,
            r.0.trace@ =~= seq![r.1@],
    {
        let req = match &w {
            Workflow::Scan => Request::GetScan,
            Workflow::ListKnown => Request::GetNetworks,
            Workflow::Connect { .. } => Request::GetNetworks,
            Workflow::Remove { network_id } => Request::RemoveNetwork(*network_id),
        };
        let phase = match &w {
            Workflow::Scan => Phase::AwaitScan,
            Workflow::ListKnown => Phase::AwaitNetworks,
            Workflow::Connect { .. } => Phase::AwaitTable,
            Workflow::Remove { .. } => Phase::AwaitRemoveAck,
        };
        let ghost tr: Seq<Cmd> = seq![req@];
        let s = Session {
            workflow: w,
            phase,
            chosen_id: 0,
            outcome: None,
            trace: Ghost(tr),
            table: Ghost(None),
        };
        (s, req)
    }

    /// End the workflow with the given result and ask for the shutdown.
    fn finish(&mut self, out: Result<Outcome, WifiError>) -> (req: Option<Request>)
        ensures
            final(self).workflow == old(self).workflow,
            final(self).phase is ShuttingDown,
            final(self).chosen_id == old(self).chosen_id,
            final(self).outcome == Some(out),
            final(self).table@ == old(self).table@,
            final(self).trace@ == old(self).trace@.push(Cmd::Shutdown),
            req == Some(Request::Shutdown),
    {
        self.phase = Phase::ShuttingDown;
        self.outcome = Some(out);
        self.trace = Ghost(self.trace@.push(Cmd::Shutdown));
        Some(Request::Shutdown)
    }

    /// Feed the answer to the previous request; returns the next request to
    /// perform, or `None` once the session is closed.  The transition is
    /// exactly `spec_step`, and a well-formed session stays well-formed.
    pub fn step(&mut self, ev: Event) -> (req: Option<Request>)
        ensures
            ({
                let r = old(self).spec_step(ev);
                &&& final(self).workflow == old(self).workflow
                &&& final(self).phase == r.phase
                &&& final(self).chosen_id == r.chosen_id
                &&& final(self).outcome == r.outcome
                &&& final(self).table@ == r.table
                &&& final(self).trace@ == r.trace
                &&& opt_req_view(req) == r.req
            }),
            old(self).wf() ==> final(self).wf(),
    {
        match self.phase {
            Phase::AwaitScan => match ev {
                Event::ScanResults(list) => self.finish(Ok(Outcome::ScanList(list))),
                Event::Failed(e) => self.finish(Err(e)),
                _ => self.finish(Err(WifiError::ProtocolError)),
            },
            Phase::AwaitNetworks => match ev {
                Event::Networks(list) => self.finish(Ok(Outcome::KnownList(list))),
                Event::Failed(e) => self.finish(Err(e)),
                _ => self.finish(Err(WifiError::ProtocolError)),
            },
            Phase::AwaitTable => match ev {
                Event::Networks(list) => self.receive_table(list),
                Event::Failed(e) => self.finish(Err(e)),
                _ => self.finish(Err(WifiError::ProtocolError)),
            },
            Phase::AwaitAdd => match ev {
                Event::NetworkAdded(id) => {
                    let ssid_s = match &self.workflow {
                        Workflow::Connect { ssid, .. } => ssid.clone(),
                        _ => String::new(),
                    };
                    self.phase = Phase::AwaitSsidAck;
                    self.chosen_id = id;
                    let req = Request::SetSsid(id, ssid_s);
                    self.trace = Ghost(self.trace@.push(req@));
                    Some(req)
                },
                Event::Failed(e) => self.finish(Err(e)),
                _ => self.finish(Err(WifiError::ProtocolError)),
            },
            Phase::AwaitSsidAck => match ev {
                Event::Ack => {
                    let psk_s = match &self.workflow {
                        Workflow::Connect { psk, .. } => psk.clone(),
                        _ => String::new(),
                    };
                    self.phase = Phase::AwaitPskAck;
                    let req = Request::SetPsk(self.chosen_id, psk_s);
                    self.trace = Ghost(self.trace@.push(req@));
                    Some(req)
                },
                Event::Failed(e) => self.finish(Err(e)),
                _ => self.finish(Err(WifiError::ProtocolError)),
            },
            Phase::AwaitPskAck => match ev {
                Event::Ack => {
                    self.phase = Phase::AwaitSelectAck;
                    let req = Request::SelectNetwork(self.chosen_id);
                    self.trace = Ghost(self.trace@.push(req@));
                    Some(req)
                },
                Event::Failed(e) => self.finish(Err(e)),
                _ => self.finish(Err(WifiError::ProtocolError)),
            },
            Phase::AwaitSelectAck => match ev {
                Event::Ack => self.finish(Ok(Outcome::Accepted)),
                Event::Failed(e) => self.finish(Err(e)),
                _ => self.finish(Err(WifiError::ProtocolError)),
            },
            Phase::AwaitRemoveAck => match ev {
                Event::Ack => self.finish(Ok(Outcome::Accepted)),
                Event::Failed(e) => self.finish(Err(e)),
                _ => self.finish(Err(WifiError::ProtocolError)),
            },
            Phase::ShuttingDown => {
                match ev {
                    Event::ShutdownComplete => {},
                    Event::Failed(e) => {
                        let cur = self.outcome.take();
                        self.outcome = match cur {
                            Some(Ok(_)) => Some(Err(e)),
                            Some(Err(e0)) => Some(Err(e0)),
                            None => Some(Err(e)),
                        };
                    },
                    _ => {
                        let cur = self.outcome.take();
                        self.outcome = match cur {
                            Some(Ok(_)) => Some(Err(WifiError::ProtocolError)),
                            Some(Err(e0)) => Some(Err(e0)),
                            None => Some(Err(WifiError::ProtocolError)),
                        };
                    },
                }
                self.phase = Phase::Closed;
                None
            },
            Phase::Closed => None,
        }
    }

    /// Receive the known-network table: select the first entry bearing the
    /// target SSID, or ask for a fresh entry when none does.
    fn receive_table(&mut self, list: Vec<KnownNetwork>) -> (req: Option<Request>)
        requires
            old(self).phase is AwaitTable,
        ensures
            ({
                let r = old(self).spec_step(Event::Networks(list));
                &&& final(self).workflow == old(self).workflow
                &&& final(self).phase == r.phase
                &&& final(self).chosen_id == r.chosen_id
                &&& final(self).outcome == r.outcome
                &&& final(self).table@ == r.table
                &&& final(self).trace@ == r.trace
                &&& opt_req_view(req) == r.req
            }),
    {
        let ghost t = list@;
        let ssid_s = match &self.workflow {
            Workflow::Connect { ssid, .. } => ssid.clone(),
            _ => String::new(),
        };
        let n = list.len();
        let mut k: usize = 0;
        let mut found: Option<usize> = None;
        let ghost mut fi: int = 0;
        while k < n
            invariant
                n == list@.len(),
                list@ == t,
                k <= n,
                ssid_s@ == old(self).connect_ssid(),
                match found {
                    None => forall|j: int| 0 <= j < k ==> !matches_at(t, ssid_s@, j),
                    Some(id) => is_first_match(t, ssid_s@, fi) && 0 <= fi < t.len() && id == t[fi].network_id,
                },
            decreases n - k,
        {
            if found.is_none() {
                if list[k].ssid == ssid_s {
                    found = Some(list[k].network_id);
                    proof {
                        fi = k as int;
                    }
                }
            }
            k = k + 1;
        }
        match found {
            Some(id) => {
                proof {
                    assert(matches_at(t, ssid_s@, fi));
                    lemma_first_match_exists(t, ssid_s@);
                    lemma_first_match_unique(t, ssid_s@, fi, first_match_idx(t, ssid_s@));
                }
                self.phase = Phase::AwaitSelectAck;
                self.chosen_id = id;
                self.table = Ghost(Some(t));
                let req = Request::SelectNetwork(id);
                self.trace = Ghost(self.trace@.push(req@));
                Some(req)
            },
            None => {
                proof {
                    assert(!has_match(t, ssid_s@)) by {
                        assert forall|i: int| !matches_at(t, ssid_s@, i) by {
                            if 0 <= i < t.len() {
                                assert(!matches_at(t, ssid_s@, i));
                            }
                        }
                    }
                }
                self.phase = Phase::AwaitAdd;
                self.table = Ghost(Some(t));
                self.trace = Ghost(self.trace@.push(Cmd::AddNetwork));
                Some(Request::AddNetwork)
            },
        }
    }

    /// Whether the session has fully closed.
    pub fn is_closed(&self) -> (r: bool)
        ensures
            r == (self.phase is Closed),
    {
        match self.phase {
            Phase::Closed => true,
            _ => false,
        }
    }

    /// The workflow's result.  `None` only for a session that has not
    /// finished its workflow yet.
    pub fn into_result(self) -> (r: Option<Result<Outcome, WifiError>>)
        ensures
            r == self.outcome,
    {
        self.outcome
    }
}

impl WifiModule {
    /// Begin a scan workflow: every discovered network will be reported
    /// verbatim.
    pub fn scan_networks(&self) -> (r: (Session, Request))
        ensures
            r.0.wf(),
            r.0.workflow is Scan,
            r.0.phase is AwaitScan,
            r.1@ == Cmd::GetScan,
            r.0.trace@ =~= seq![Cmd::GetScan],
    {
        Session::start(Workflow::Scan)
    }

    /// Begin a list workflow: the known-network table will be reported
    /// verbatim.
    pub fn list_known_networks(&self) -> (r: (Session, Request))
        ensures
            r.0.wf(),
            r.0.workflow is ListKnown,
            r.0.phase is AwaitNetworks,
            r.1@ == Cmd::GetNetworks,
            r.0.trace@ =~= seq![Cmd::GetNetworks],
    {
        Session::start(Workflow::ListKnown)
    }

    /// Begin a connect workflow for the given SSID and PSK.  The first table
    /// entry bearing the SSID is reused as stored — the supplied PSK is not
    /// written over an existing entry's credentials; only a fresh entry gets
    /// the SSID and then the PSK written, and is then selected.
    pub fn connect_network(&self, ssid: String, psk: String) -> (r: (Session, Request))
        ensures
            r.0.wf(),
            r.0.workflow is Connect,
            r.0.phase is AwaitTable,
            r.0.connect_ssid() == ssid@,
            r.0.connect_psk() == psk@,
            r.1@ == Cmd::GetNetworks,
            r.0.trace@ =~= seq![Cmd::GetNetworks],
    {
        Session::start(Workflow::Connect { ssid, psk })
    }

    /// Begin a remove workflow for the given network id.  No existence check
    /// is made first; a missing id surfaces the table's own error.
    pub fn remove_network(&self, network_id: usize) -> (r: (Session, Request))
        ensures
            r.0.wf(),
            r.0.workflow is Remove,
            r.0.phase is AwaitRemoveAck,
            r.0.remove_target() == network_id,
            r.1@ == Cmd::RemoveNetwork(network_id),
            r.0.trace@ =~= seq![Cmd::RemoveNetwork(network_id)],
    {
        Session::start(Workflow::Remove { network_id })
    }
}

/// Teardown discipline: once a session is shutting down or closed — and a
/// workflow result exists only then — its trace holds the shutdown request
/// exactly once, as its last element.  Every exit path, error paths
/// included, tears the channel down, and never twice.
pub proof fn lemma_shutdown_exactly_once(m: Session)
    requires
        m.wf(),
        m.phase is ShuttingDown || m.phase is Closed,
    ensures
        m.outcome is Some,
        m.trace@.len() >= 2,
        forall|k: int|
            0 <= k < m.trace@.len() ==> ((m.trace@[k] == Cmd::Shutdown) <==> k == m.trace@.len()
                - 1),
{
    assert(m.trace@.last() == m.trace@[m.trace@.len() - 1]);
}

/// A workflow result exists only while shutting down or closed: a session
/// still in its request phases has not produced one, so no result is ever
/// returned before the shutdown request went out.
pub proof fn lemma_no_result_before_shutdown(m: Session)
    requires
        m.wf(),
        m.outcome is Some,
    ensures
        m.phase is ShuttingDown || m.phase is Closed,
        m.trace@.last() == Cmd::Shutdown,
{
}

/// Reuse-as-is: when the received known-network table bears the target SSID
/// at entry `i` and at none earlier, the connect workflow never creates an
/// entry and never writes an SSID or PSK, and any select it asks for names
/// exactly that entry's id.  The stored credentials win over the supplied
/// PSK.
pub proof fn lemma_connect_reuses_existing(m: Session, i: int)
    requires
        m.wf(),
        m.workflow is Connect,
        m.got_table(),
        is_first_match(m.the_table(), m.connect_ssid(), i),
    ensures
        forall|k: int| 0 <= k < m.trace@.len() ==> !((#[trigger] m.trace@[k]) is AddNetwork),
        forall|k: int| 0 <= k < m.trace@.len() ==> !((#[trigger] m.trace@[k]) is SetSsid),
        forall|k: int| 0 <= k < m.trace@.len() ==> !((#[trigger] m.trace@[k]) is SetPsk),
        forall|k: int|
            0 <= k < m.trace@.len() ==> ((#[trigger] m.trace@[k]) matches Cmd::SelectNetwork(id)
                ==> id == m.the_table()[i].network_id),
        m.trace@.len() >= 2,
        m.trace@[0] == Cmd::GetNetworks,
        m.trace@[1] == Cmd::SelectNetwork(m.the_table()[i].network_id),
{
    assert(matches_at(m.the_table(), m.connect_ssid(), i));
    lemma_first_match_exists(m.the_table(), m.connect_ssid());
    lemma_first_match_unique(
        m.the_table(),
        m.connect_ssid(),
        i,
        first_match_idx(m.the_table(), m.connect_ssid()),
    );
}

/// Create-then-configure order: when no entry of the received table bears
/// the target SSID and the workflow succeeded, the session asked for
/// exactly: the table, one add-network, the SSID write, the PSK write, the
/// select of the fresh id, and the shutdown — in that order.
pub proof fn lemma_connect_creates_in_order(m: Session)
    requires
        m.wf(),
        m.workflow is Connect,
        m.got_table(),
        !has_match(m.the_table(), m.connect_ssid()),
        m.outcome matches Some(Ok(_)),
    ensures
        m.trace@ =~= create_plan(m.connect_ssid(), m.connect_psk(), m.chosen_id).push(
            Cmd::Shutdown,
        ),
{
    let plan = create_plan(m.connect_ssid(), m.connect_psk(), m.chosen_id);
    let tr = m.trace@;
    assert(tr =~= tr.drop_last().push(tr.last()));
    assert(plan.take(5) =~= plan);
}

/// Removal: the session asks for exactly one removal, of exactly the given
/// id, and then the shutdown — whether or not the removal succeeded.
pub proof fn lemma_remove_exact(m: Session)
    requires
        m.wf(),
        m.workflow is Remove,
        m.phase is ShuttingDown || m.phase is Closed,
    ensures
        m.trace@ =~= seq![Cmd::RemoveNetwork(m.remove_target()), Cmd::Shutdown],
{
    let tr = m.trace@;
    assert(tr =~= tr.drop_last().push(tr.last()));
}

/// A successful scan's result is the reported list verbatim: same order,
/// same multiplicity, no deduplication — and the session then goes straight
/// to shutdown.
pub proof fn lemma_scan_list_verbatim(m: Session, list: Vec<ScanResult>)
    requires
        m.wf(),
        m.phase is AwaitScan,
    ensures
        m.spec_step(Event::ScanResults(list)).outcome == Some(Ok::<Outcome, WifiError>(Outcome::ScanList(list))),
        m.spec_step(Event::ScanResults(list)).req == Some(Cmd::Shutdown),
{
}

/// A successful list's result is the reported table verbatim: no filtering
/// — and the session then goes straight to shutdown.
pub proof fn lemma_known_list_verbatim(m: Session, list: Vec<KnownNetwork>)
    requires
        m.wf(),
        m.phase is AwaitNetworks,
    ensures
        m.spec_step(Event::Networks(list)).outcome == Some(Ok::<Outcome, WifiError>(Outcome::KnownList(list))),
        m.spec_step(Event::Networks(list)).req == Some(Cmd::Shutdown),
{
}

} // verus!

