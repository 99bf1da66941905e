use vstd::prelude::*;
use vstd::string::StringExecFns;

use crate::decode::{decode, decode_spec};
use crate::event::{event_views, RedrawEvent, RedrawEventView};
use crate::fault::{DecodeFault, DecodeFaultView};
use crate::scan::{first_index, lemma_first_index_found, lemma_first_index_none};
use crate::value::{views, Value, ValueView};

verus! {

/// What became of one notification.
#[derive(Clone, Debug, PartialEq, Eq)]
pub enum Dispatch {
    /// The notification has a name that means nothing here. That is no fault.
    Ignored,
    /// A redraw notification: the events of its batches, in the order in which
    /// they arrived, up to the first batch that could not be decoded, and the
    /// fault of that batch if there was one.
    Redraw { events: Vec<RedrawEvent>, fault: Option<DecodeFault> },
}

/// What a [`Dispatch`] stands for.
pub enum DispatchView {
    Ignored,
    Redraw { events: Seq<RedrawEventView>, fault: Option<DecodeFaultView> },
}

/// The view of a fault that may be absent.
pub open spec fn optional_fault_view(fault: Option<DecodeFault>) -> Option<DecodeFaultView> {
    match fault {
        Some(fault) => Some(fault@),
        None => None,
    }
}

impl View for Dispatch {
    type V = DispatchView;

    open spec fn view(&self) -> DispatchView {
        match self {
            Dispatch::Ignored => DispatchView::Ignored,
            Dispatch::Redraw { events, fault } => DispatchView::Redraw {
                events: event_views(events@),
                fault: optional_fault_view(*fault),
            },
        }
    }
}

/// The name of the notification that carries UI events.
pub open spec fn redraw_name() -> Seq<char> {
    "redraw"@
}

/// Whether the batch at an index cannot be decoded.
pub open spec fn batch_is_bad(args: Seq<ValueView>) -> spec_fn(int) -> bool {
    |i: int| decode_spec(args[i]) is Err
}

/// The events of the first `n` batches, one batch after the other.
pub open spec fn events_of(args: Seq<ValueView>, n: nat) -> Seq<RedrawEventView>
    decreases n,
{
    if n == 0 {
        Seq::empty()
    } else {
        events_of(args, (n - 1) as nat) + match decode_spec(args[n - 1]) {
            Ok(events) => events,
            Err(_) => Seq::empty(),
        }
    }
}

/// What a redraw notification gives: the events of the batches before the first
/// one that cannot be decoded, and the fault of that one.
pub open spec fn redraw_spec(args: Seq<ValueView>) -> DispatchView {
    match first_index(args.len(), batch_is_bad(args)) {
        Some(i) => DispatchView::Redraw {
            events: events_of(args, i as nat),
            fault: Some(decode_spec(args[i])->Err_0),
        },
        None => DispatchView::Redraw { events: events_of(args, args.len()), fault: None },
    }
}

/// What [`dispatch`] returns.
pub open spec fn dispatch_spec(name: Seq<char>, args: Seq<ValueView>) -> DispatchView {
    if name == redraw_name() {
        redraw_spec(args)
    } else {
        DispatchView::Ignored
    }
}

fn is_redraw(name: &str) -> (r: bool)
    ensures
        r == (name@ == redraw_name()),
{
    let given = name.to_owned();
    let wanted = String::from_str("redraw");
    given == wanted
}

/// Routes one notification by its name.
///
/// The arguments of a `redraw` notification are batches, which are decoded one
/// after the other. Decoding stops at the first batch that is at fault: the
/// events of the batches before it are returned together with the fault. A
/// notification of any other name is ignored, whatever its arguments are.
pub fn dispatch(name: &str, args: &[Value]) -> (r: Dispatch)
    ensures
        r@ == dispatch_spec(name@, views(args@)),
{
    if !is_redraw(name) {
        return Dispatch::Ignored;
    }
    let ghost shown = views(args@);
    let mut events: Vec<RedrawEvent> = Vec::new();
    let mut i: usize = 0;
    while i < args.len()
        invariant
            i <= args.len(),
            shown == views(args@),
            name@ == redraw_name(),
            forall|j: int| 0 <= j < i ==> !(#[trigger] batch_is_bad(shown)(j)),
            event_views(events@) == events_of(shown, i as nat),
        decreases args.len() - i,
    {
        match decode(&args[i]) {
            Ok(mut batch) => {
                let ghost before = events@;
                let ghost added = batch@;
                events.append(&mut batch);
                proof {
                    assert(event_views(before + added) =~= event_views(before) + event_views(added));
                    assert(batch_is_bad(shown)(i as int) == false);
                }
            },
            Err(fault) => {
                proof {
                    assert(batch_is_bad(shown)(i as int));
                    lemma_first_index_found(shown.len(), batch_is_bad(shown), i as int);
                }
                return Dispatch::Redraw { events, fault: Some(fault) };
            },
        }
        i += 1;
    }
    proof {
        lemma_first_index_none(shown.len(), batch_is_bad(shown));
    }
    Dispatch::Redraw { events, fault: None }
}

/// A redraw notification whose first batch is no array that starts with a string
/// tag is a malformed envelope, and gives no event.
pub proof fn lemma_malformed_first_batch(args: Seq<ValueView>)
    requires
        args.len() >= 1,
        crate::decode::envelope_tag(args[0]) is None,
    ensures
        dispatch_spec(redraw_name(), args) == (DispatchView::Redraw {
            events: Seq::empty(),
            fault: Some(DecodeFaultView::MalformedEnvelope),
        }),
{
    assert(batch_is_bad(args)(0));
    lemma_first_index_found(args.len(), batch_is_bad(args), 0);
}

} // verus!
