use nvim_redraw::session::{
    after_notify, classify, on_fault, Diagnostic, ErrorChain, Followup, LoopResult, NotifyFault,
    SessionOutcome,
};

fn chain() -> ErrorChain {
    ErrorChain {
        message: "Error reading message".to_string(),
        causes: vec![
            "Error while reading".to_string(),
            "early eof".to_string(),
        ],
    }
}

fn faulted() -> LoopResult {
    LoopResult::Faulted(chain())
}

#[test]
fn closed_channel_reports_nothing_and_skips_the_write() {
    let outcome = classify(faulted(), false, true);
    assert_eq!(outcome, SessionOutcome::ChannelClosed);
    assert_eq!(on_fault(outcome), Followup::Report(vec![]));
}

#[test]
fn closed_channel_counts_before_the_side_of_the_fault() {
    let outcome = classify(faulted(), true, true);
    assert_eq!(outcome, SessionOutcome::ChannelClosed);
    assert_eq!(on_fault(outcome), Followup::Report(vec![]));
}

#[test]
fn writer_fault_is_written_to_the_peer_once() {
    let outcome = classify(faulted(), false, false);
    assert_eq!(outcome, SessionOutcome::WriterFault(chain()));
    let (line, kept) = match on_fault(outcome) {
        Followup::Notify { line, chain } => (line, chain),
        other => panic!("unexpected followup {:?}", other),
    };
    assert_eq!(line, "Error: 'Error reading message'");
    assert_eq!(kept, chain());
    let reply = Err(NotifyFault {
        message: "Error sending request 'nvim_err_writeln'".to_string(),
    });
    assert_eq!(
        after_notify(kept, reply),
        vec![
            Diagnostic::NotifyFailed("Error sending request 'nvim_err_writeln'".to_string()),
            Diagnostic::Fault("Error reading message".to_string()),
            Diagnostic::CausedBy("Error while reading".to_string()),
            Diagnostic::CausedBy("early eof".to_string()),
        ]
    );
}

#[test]
fn writer_fault_is_reported_after_a_write_that_went_through() {
    assert_eq!(
        after_notify(chain(), Ok(())),
        vec![
            Diagnostic::Fault("Error reading message".to_string()),
            Diagnostic::CausedBy("Error while reading".to_string()),
            Diagnostic::CausedBy("early eof".to_string()),
        ]
    );
}

#[test]
fn reader_fault_is_reported_and_not_written() {
    let outcome = classify(faulted(), true, false);
    assert_eq!(outcome, SessionOutcome::ReaderFault(chain()));
    assert_eq!(
        on_fault(outcome),
        Followup::Report(vec![
            Diagnostic::Fault("Error reading message".to_string()),
            Diagnostic::CausedBy("Error while reading".to_string()),
            Diagnostic::CausedBy("early eof".to_string()),
        ])
    );
}

#[test]
fn fault_without_causes_is_reported_alone() {
    let lone = ErrorChain {
        message: "Could not find Msgid '4' in the Queue".to_string(),
        causes: vec![],
    };
    assert_eq!(
        on_fault(SessionOutcome::ReaderFault(ErrorChain {
            message: lone.message.clone(),
            causes: vec![],
        })),
        Followup::Report(vec![Diagnostic::Fault(lone.message.clone())])
    );
    assert_eq!(
        after_notify(lone, Ok(())),
        vec![Diagnostic::Fault(
            "Could not find Msgid '4' in the Queue".to_string()
        )]
    );
}

#[test]
fn failed_join_is_reported_and_not_written() {
    for (reader, closed) in [(false, false), (false, true), (true, false), (true, true)] {
        let outcome = classify(
            LoopResult::JoinFailed("task 7 was cancelled".to_string()),
            reader,
            closed,
        );
        assert_eq!(
            outcome,
            SessionOutcome::JoinFault("task 7 was cancelled".to_string())
        );
        assert_eq!(
            on_fault(outcome),
            Followup::Report(vec![Diagnostic::JoinFault(
                "task 7 was cancelled".to_string()
            )])
        );
    }
}

#[test]
fn clean_end_needs_nothing() {
    for (reader, closed) in [(false, false), (false, true), (true, false), (true, true)] {
        let outcome = classify(LoopResult::Finished, reader, closed);
        assert_eq!(outcome, SessionOutcome::Clean);
        assert_eq!(on_fault(outcome), Followup::Report(vec![]));
    }
}

#[test]
fn diagnostics_render_as_lines() {
    assert_eq!(
        Diagnostic::JoinFault("cancelled".to_string()).render(),
        "Error joining IO loop: 'cancelled'"
    );
    assert_eq!(
        Diagnostic::NotifyFailed("broken pipe".to_string()).render(),
        "Well, dang... 'broken pipe'"
    );
    assert_eq!(
        Diagnostic::Fault("Error reading message".to_string()).render(),
        "Error: 'Error reading message'"
    );
    assert_eq!(
        Diagnostic::CausedBy("early eof".to_string()).render(),
        "Caused by: 'early eof'"
    );
    assert_eq!(Diagnostic::Fault(String::new()).render(), "Error: ''");
}
