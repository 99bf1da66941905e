use vstd::prelude::*;
use vstd::string::StringExecFns;

verus! {

/// A fault of the transport with what caused it: its own message, then the message
/// of its cause, of the cause of that one, and so on to the last.
#[derive(Clone, Debug, PartialEq, Eq)]
pub struct ErrorChain {
    pub message: String,
    pub causes: Vec<String>,
}

/// What an [`ErrorChain`] stands for.
pub struct ErrorChainView {
    pub message: Seq<char>,
    pub causes: Seq<Seq<char>>,
}

/// The characters of each string of a run, in order.
pub open spec fn texts(strings: Seq<String>) -> Seq<Seq<char>> {
    Seq::new(strings.len(), |i: int| strings[i]@)
}

impl View for ErrorChain {
    type V = ErrorChainView;

    open spec fn view(&self) -> ErrorChainView {
        ErrorChainView { message: self.message@, causes: texts(self.causes@) }
    }
}

/// How the loop that talks to the peer came to its end.
#[derive(Clone, Debug, PartialEq, Eq)]
pub enum LoopResult {
    /// The task that ran the loop could not be joined.
    JoinFailed(String),
    /// The loop ran to its end.
    Finished,
    /// The loop stopped on a fault of the transport.
    Faulted(ErrorChain),
}

/// What a [`LoopResult`] stands for.
pub enum LoopResultView {
    JoinFailed(Seq<char>),
    Finished,
    Faulted(ErrorChainView),
}

impl View for LoopResult {
    type V = LoopResultView;

    open spec fn view(&self) -> LoopResultView {
        match self {
            LoopResult::JoinFailed(cause) => LoopResultView::JoinFailed(cause@),
            LoopResult::Finished => LoopResultView::Finished,
            LoopResult::Faulted(chain) => LoopResultView::Faulted(chain@),
        }
    }
}

/// What the end of a session amounts to.
#[derive(Clone, Debug, PartialEq, Eq)]
pub enum SessionOutcome {
    /// Reading from the peer failed.
    ReaderFault(ErrorChain),
    /// The fault did not come from reading: the way to the peer may still work.
    WriterFault(ErrorChain),
    /// The peer closed the channel, as it does when it quits.
    ChannelClosed,
    /// The loop's result could not be had.
    JoinFault(String),
    Clean,
}

/// What a [`SessionOutcome`] stands for.
pub enum SessionOutcomeView {
    ReaderFault(ErrorChainView),
    WriterFault(ErrorChainView),
    ChannelClosed,
    JoinFault(Seq<char>),
    Clean,
}

impl View for SessionOutcome {
    type V = SessionOutcomeView;

    open spec fn view(&self) -> SessionOutcomeView {
        match self {
            SessionOutcome::ReaderFault(chain) => SessionOutcomeView::ReaderFault(chain@),
            SessionOutcome::WriterFault(chain) => SessionOutcomeView::WriterFault(chain@),
            SessionOutcome::ChannelClosed => SessionOutcomeView::ChannelClosed,
            SessionOutcome::JoinFault(cause) => SessionOutcomeView::JoinFault(cause@),
            SessionOutcome::Clean => SessionOutcomeView::Clean,
        }
    }
}

/// What [`classify`] returns. The two answers of the transport count only where
/// the loop stopped on a fault, and a closed channel is no fault of either side.
pub open spec fn classify_spec(
    result: LoopResultView,
    is_reader_fault: bool,
    is_channel_closed: bool,
) -> SessionOutcomeView {
    match result {
        LoopResultView::JoinFailed(cause) => SessionOutcomeView::JoinFault(cause),
        LoopResultView::Finished => SessionOutcomeView::Clean,
        LoopResultView::Faulted(chain) => if is_channel_closed {
            SessionOutcomeView::ChannelClosed
        } else if is_reader_fault {
            SessionOutcomeView::ReaderFault(chain)
        } else {
            SessionOutcomeView::WriterFault(chain)
        },
    }
}

/// Says what the end of the loop amounts to, from the loop's result and from what
/// the transport answers of its fault: whether it came from reading, and whether
/// it means that the peer closed the channel.
pub fn classify(result: LoopResult, is_reader_fault: bool, is_channel_closed: bool) -> (outcome:
    SessionOutcome)
    ensures
        outcome@ == classify_spec(result@, is_reader_fault, is_channel_closed),
{
    match result {
        LoopResult::JoinFailed(cause) => SessionOutcome::JoinFault(cause),
        LoopResult::Finished => SessionOutcome::Clean,
        LoopResult::Faulted(chain) => {
            if is_channel_closed {
                SessionOutcome::ChannelClosed
            } else if is_reader_fault {
                SessionOutcome::ReaderFault(chain)
            } else {
                SessionOutcome::WriterFault(chain)
            }
        },
    }
}

/// One thing to tell whoever watches the client.
#[derive(Clone, Debug, PartialEq, Eq)]
pub enum Diagnostic {
    /// The loop's result could not be had.
    JoinFault(String),
    /// The one line for the peer could not be written.
    NotifyFailed(String),
    /// The fault that ended the session.
    Fault(String),
    /// One cause in the chain behind that fault.
    CausedBy(String),
}

/// What a [`Diagnostic`] stands for.
pub enum DiagnosticView {
    JoinFault(Seq<char>),
    NotifyFailed(Seq<char>),
    Fault(Seq<char>),
    CausedBy(Seq<char>),
}

impl DiagnosticView {
    /// The line that shows the diagnostic: what happened, then the message in quotes.
    pub open spec fn rendered(self) -> Seq<char> {
        match self {
            DiagnosticView::JoinFault(cause) => "Error joining IO loop: '"@ + cause + "'"@,
            DiagnosticView::NotifyFailed(cause) => "Well, dang... '"@ + cause + "'"@,
            DiagnosticView::Fault(message) => "Error: '"@ + message + "'"@,
            DiagnosticView::CausedBy(cause) => "Caused by: '"@ + cause + "'"@,
        }
    }
}

impl View for Diagnostic {
    type V = DiagnosticView;

    open spec fn view(&self) -> DiagnosticView {
        match self {
            Diagnostic::JoinFault(cause) => DiagnosticView::JoinFault(cause@),
            Diagnostic::NotifyFailed(cause) => DiagnosticView::NotifyFailed(cause@),
            Diagnostic::Fault(message) => DiagnosticView::Fault(message@),
            Diagnostic::CausedBy(cause) => DiagnosticView::CausedBy(cause@),
        }
    }
}

/// The views of a run of diagnostics, in order.
pub open spec fn diagnostic_views(report: Seq<Diagnostic>) -> Seq<DiagnosticView> {
    Seq::new(report.len(), |i: int| report[i]@)
}

fn quoted(lead: &str, text: &String) -> (line: String)
    ensures
        line@ == lead@ + text@ + "'"@,
{
    String::from_str(lead).concat(text.as_str()).concat("'")
}

impl Diagnostic {
    /// The line that shows this diagnostic.
    pub fn render(&self) -> (line: String)
        ensures
            line@ == self@.rendered(),
    {
        match self {
            Diagnostic::JoinFault(cause) => quoted("Error joining IO loop: '", cause),
            Diagnostic::NotifyFailed(cause) => quoted("Well, dang... '", cause),
            Diagnostic::Fault(message) => quoted("Error: '", message),
            Diagnostic::CausedBy(cause) => quoted("Caused by: '", cause),
        }
    }
}

/// What is reported of a fault: the fault itself, then each of its causes in order.
pub open spec fn fault_report(chain: ErrorChainView) -> Seq<DiagnosticView> {
    seq![DiagnosticView::Fault(chain.message)] + Seq::new(
        chain.causes.len(),
        |i: int| DiagnosticView::CausedBy(chain.causes[i]),
    )
}

/// What is to be done once the outcome of a session is known.
#[derive(Clone, Debug, PartialEq, Eq)]
pub enum Followup {
    /// Write `line` to the peer, once, and hand what came of it to
    /// [`after_notify`] together with `chain`.
    Notify { line: String, chain: ErrorChain },
    /// Write nothing to the peer, and report these.
    Report(Vec<Diagnostic>),
}

/// What a [`Followup`] stands for.
pub enum FollowupView {
    Notify { line: Seq<char>, chain: ErrorChainView },
    Report(Seq<DiagnosticView>),
}

impl View for Followup {
    type V = FollowupView;

    open spec fn view(&self) -> FollowupView {
        match self {
            Followup::Notify { line, chain } => FollowupView::Notify { line: line@, chain: chain@ },
            Followup::Report(report) => FollowupView::Report(diagnostic_views(report@)),
        }
    }
}

/// What [`on_fault`] returns. Only a fault that did not come from reading has
/// the peer told of it. A closed channel and a clean end have nothing reported.
pub open spec fn on_fault_spec(outcome: SessionOutcomeView) -> FollowupView {
    match outcome {
        SessionOutcomeView::WriterFault(chain) => FollowupView::Notify {
            line: DiagnosticView::Fault(chain.message).rendered(),
            chain,
        },
        SessionOutcomeView::ReaderFault(chain) => FollowupView::Report(fault_report(chain)),
        SessionOutcomeView::JoinFault(cause) => FollowupView::Report(
            seq![DiagnosticView::JoinFault(cause)],
        ),
        SessionOutcomeView::ChannelClosed => FollowupView::Report(Seq::empty()),
        SessionOutcomeView::Clean => FollowupView::Report(Seq::empty()),
    }
}

/// Why the one line for the peer could not be written.
#[derive(Clone, Debug, PartialEq, Eq)]
pub struct NotifyFault {
    pub message: String,
}

/// The message of the failure, where the write failed.
pub open spec fn failure_of(reply: Result<(), NotifyFault>) -> Option<Seq<char>> {
    match reply {
        Ok(_) => None,
        Err(fault) => Some(fault.message@),
    }
}

/// What [`after_notify`] returns: the failure of the write, if it failed, and
/// then what is reported of the fault in any case.
pub open spec fn after_notify_spec(chain: ErrorChainView, failure: Option<Seq<char>>) -> Seq<
    DiagnosticView,
> {
    match failure {
        Some(cause) => seq![DiagnosticView::NotifyFailed(cause)] + fault_report(chain),
        None => fault_report(chain),
    }
}

fn report_fault(report: &mut Vec<Diagnostic>, chain: ErrorChain)
    ensures
        diagnostic_views(final(report)@) == diagnostic_views(old(report)@) + fault_report(chain@),
{
    let ghost before = diagnostic_views(report@);
    report.push(Diagnostic::Fault(chain.message));
    let mut i: usize = 0;
    while i < chain.causes.len()
        invariant
            i <= chain.causes.len(),
            report.len() == before.len() + 1 + i,
            diagnostic_views(report@) == before + seq![DiagnosticView::Fault(chain.message@)]
                + Seq::new(i as nat, |j: int| DiagnosticView::CausedBy(chain.causes@[j]@)),
        decreases chain.causes.len() - i,
    {
        let ghost so_far = diagnostic_views(report@);
        report.push(Diagnostic::CausedBy(chain.causes[i].clone()));
        proof {
            assert(diagnostic_views(report@) =~= so_far.push(
                DiagnosticView::CausedBy(chain.causes@[i as int]@),
            ));
            assert(diagnostic_views(report@) =~= before + seq![
                DiagnosticView::Fault(chain.message@),
            ] + Seq::new((i + 1) as nat, |j: int| DiagnosticView::CausedBy(chain.causes@[j]@)));
        }
        i += 1;
    }
    proof {
        assert(diagnostic_views(report@) =~= before + fault_report(chain@));
    }
}

fn nothing_to_report() -> (next: Followup)
    ensures
        next@ == FollowupView::Report(Seq::empty()),
{
    let report: Vec<Diagnostic> = Vec::new();
    proof {
        assert(diagnostic_views(report@) =~= Seq::empty());
    }
    Followup::Report(report)
}

/// Decides what follows the end of a session.
///
/// The peer is told of a fault only where the fault did not come from reading,
/// and then it is told once: the answer to that one write goes to
/// [`after_notify`], which asks for no other. A fault that came from reading is
/// reported with its causes, a failed join with its cause; a closed channel and a
/// clean end are not reported at all.
pub fn on_fault(outcome: SessionOutcome) -> (next: Followup)
    ensures
        next@ == on_fault_spec(outcome@),
{
    match outcome {
        SessionOutcome::WriterFault(chain) => {
            let line = quoted("Error: '", &chain.message);
            Followup::Notify { line, chain }
        },
        SessionOutcome::ReaderFault(chain) => {
            let mut report: Vec<Diagnostic> = Vec::new();
            report_fault(&mut report, chain);
            proof {
                assert(diagnostic_views(report@) =~= fault_report(chain@));
            }
            Followup::Report(report)
        },
        SessionOutcome::JoinFault(cause) => {
            let mut report: Vec<Diagnostic> = Vec::new();
            report.push(Diagnostic::JoinFault(cause));
            proof {
                assert(diagnostic_views(report@) =~= seq![DiagnosticView::JoinFault(cause@)]);
            }
            Followup::Report(report)
        },
        SessionOutcome::ChannelClosed => nothing_to_report(),
        SessionOutcome::Clean => nothing_to_report(),
    }
}

/// Takes what came of the one write to the peer, and says what is reported.
///
/// A write that failed is reported and not tried again. The fault that ended the
/// session is reported with its causes, whether the peer could be told or not.
pub fn after_notify(chain: ErrorChain, reply: Result<(), NotifyFault>) -> (report: Vec<Diagnostic>)
    ensures
        diagnostic_views(report@) == after_notify_spec(chain@, failure_of(reply)),
{
    let mut report: Vec<Diagnostic> = Vec::new();
    match reply {
        Ok(_) => {},
        Err(fault) => {
            report.push(Diagnostic::NotifyFailed(fault.message));
        },
    }
    proof {
        assert(diagnostic_views(report@) =~= match failure_of(reply) {
            Some(cause) => seq![DiagnosticView::NotifyFailed(cause)],
            None => Seq::empty(),
        });
    }
    report_fault(&mut report, chain);
    report
}

/// The peer is written to exactly where the loop stopped on a fault that did not
/// come from reading and that does not mean a closed channel.
pub proof fn lemma_peer_told(result: LoopResultView, is_reader_fault: bool, is_channel_closed: bool)
    ensures
        on_fault_spec(classify_spec(result, is_reader_fault, is_channel_closed)) is Notify <==> (
        result is Faulted && !is_reader_fault && !is_channel_closed),
{
}

/// Where the loop ran to its end, or stopped because the peer closed the channel,
/// nothing is written and nothing is reported, whatever else the transport says.
pub proof fn lemma_quiet_end(result: LoopResultView, is_reader_fault: bool, is_channel_closed: bool)
    requires
        result is Finished || (result is Faulted && is_channel_closed),
    ensures
        on_fault_spec(classify_spec(result, is_reader_fault, is_channel_closed))
            == FollowupView::Report(Seq::empty()),
{
}

} // verus!
