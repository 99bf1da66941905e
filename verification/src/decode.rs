use vstd::prelude::*;
use vstd::string::StringExecFns;

use crate::cmdline_show::{extract, extract_spec, tag};
use crate::event::{event_views, RedrawEvent, RedrawEventView};
use crate::fault::{DecodeFault, DecodeFaultView, FaultDetail, Field, Found};
use crate::scan::{first_index, lemma_first_index_found, lemma_first_index_none};
use crate::value::{lemma_view_of_containers, Value, ValueView};

verus! {

/// The tag of a batch: the string that an array starts with. Anything else has none.
pub open spec fn envelope_tag(batch: ValueView) -> Option<Seq<char>> {
    match batch {
        ValueView::Array(items) => if items.len() >= 1 {
            match items[0] {
                ValueView::Str(tag) => Some(tag),
                _ => None,
            }
        } else {
            None
        },
        _ => None,
    }
}

/// What follows the tag of a batch: its occurrences, in order.
pub open spec fn occurrences(batch: ValueView) -> Seq<ValueView> {
    batch->Array_0.subrange(1, batch->Array_0.len() as int)
}

/// One occurrence under a tag. A `cmdline_show` is an array of fields that
/// `extract` reads; an occurrence of any other kind is kept as it is.
pub open spec fn occurrence_spec(kind: Seq<char>, occurrence: ValueView) -> Result<
    RedrawEventView,
    DecodeFaultView,
> {
    if kind == tag() {
        match occurrence {
            ValueView::Array(fields) => match extract_spec(fields) {
                Ok(event) => Ok(RedrawEventView::CmdlineShow(event)),
                Err(fault) => Err(fault),
            },
            other => Err(
                DecodeFaultView::MalformedOccurrence {
                    kind,
                    detail: FaultDetail {
                        field: Field::Occurrence,
                        found: Found::Kind(other.kind()),
                    },
                },
            ),
        }
    } else {
        Ok(RedrawEventView::Unrecognized { kind, raw: occurrence })
    }
}

/// Whether the occurrence at an index is at fault.
pub open spec fn occurrence_is_bad(kind: Seq<char>, occurrences: Seq<ValueView>) -> spec_fn(
    int,
) -> bool {
    |i: int| occurrence_spec(kind, occurrences[i]) is Err
}

/// What [`decode`] returns for a batch: one event for each occurrence, in order,
/// or the fault of the first occurrence that has one.
pub open spec fn decode_spec(batch: ValueView) -> Result<Seq<RedrawEventView>, DecodeFaultView> {
    match envelope_tag(batch) {
        None => Err(DecodeFaultView::MalformedEnvelope),
        Some(kind) => {
            let all = occurrences(batch);
            match first_index(all.len(), occurrence_is_bad(kind, all)) {
                Some(i) => Err(occurrence_spec(kind, all[i])->Err_0),
                None => Ok(Seq::new(all.len(), |i: int| occurrence_spec(kind, all[i])->Ok_0)),
            }
        },
    }
}

fn is_cmdline_show(kind: &String) -> (r: bool)
    ensures
        r == (kind@ == tag()),
{
    let wanted = String::from_str("cmdline_show");
    *kind == wanted
}

fn occurrence_of(kind: &String, known: bool, occurrence: &Value) -> (r: Result<
    RedrawEvent,
    DecodeFault,
>)
    requires
        known == (kind@ == tag()),
    ensures
        occurrence_spec(kind@, occurrence@) == match r {
            Ok(event) => Ok(event@),
            Err(fault) => Err(fault@),
        },
{
    if known {
        match occurrence {
            Value::Array(fields) => {
                proof {
                    lemma_view_of_containers(*occurrence);
                }
                match extract(fields.as_slice()) {
                    Ok(event) => Ok(RedrawEvent::CmdlineShow(event)),
                    Err(fault) => Err(fault),
                }
            },
            other => Err(
                DecodeFault::MalformedOccurrence {
                    kind: kind.clone(),
                    detail: FaultDetail {
                        field: Field::Occurrence,
                        found: Found::Kind(other.kind()),
                    },
                },
            ),
        }
    } else {
        Ok(RedrawEvent::Unrecognized { kind: kind.clone(), raw: occurrence.clone() })
    }
}

/// Decodes one batch of a redraw notification.
///
/// A batch is an array: first the tag that names the kind of event, then one
/// occurrence of that kind after another. Without such a tag the batch is a
/// malformed envelope. Each occurrence becomes one event, in order; the first
/// one that does not have the shape of its kind ends the decoding with its
/// fault, and no event of the batch is returned.
pub fn decode(batch: &Value) -> (r: Result<Vec<RedrawEvent>, DecodeFault>)
    ensures
        decode_spec(batch@) == match r {
            Ok(events) => Ok(event_views(events@)),
            Err(fault) => Err(fault@),
        },
{
    let items = match batch {
        Value::Array(items) => items,
        _ => {
            return Err(DecodeFault::MalformedEnvelope);
        },
    };
    proof {
        lemma_view_of_containers(*batch);
    }
    if items.len() == 0 {
        return Err(DecodeFault::MalformedEnvelope);
    }
    let kind = match &items[0] {
        Value::Str(kind) => kind,
        _ => {
            return Err(DecodeFault::MalformedEnvelope);
        },
    };
    let known = is_cmdline_show(kind);
    let ghost all = occurrences(batch@);
    let mut events: Vec<RedrawEvent> = Vec::new();
    let mut i: usize = 1;
    while i < items.len()
        invariant
            1 <= i <= items.len(),
            known == (kind@ == tag()),
            envelope_tag(batch@) == Some(kind@),
            all == occurrences(batch@),
            all.len() == items.len() - 1,
            forall|j: int| 0 <= j < all.len() ==> all[j] == items@[j + 1]@,
            events.len() == i - 1,
            forall|j: int|
                0 <= j < i - 1 ==> occurrence_spec(kind@, all[j]) == Ok::<
                    RedrawEventView,
                    DecodeFaultView,
                >(events@[j]@),
        decreases items.len() - i,
    {
        match occurrence_of(kind, known, &items[i]) {
            Ok(event) => {
                events.push(event);
            },
            Err(fault) => {
                proof {
                    lemma_first_index_found(all.len(), occurrence_is_bad(kind@, all), i - 1);
                }
                return Err(fault);
            },
        }
        i += 1;
    }
    proof {
        lemma_first_index_none(all.len(), occurrence_is_bad(kind@, all));
        assert(decode_spec(batch@)->Ok_0 =~= event_views(events@));
    }
    Ok(events)
}

/// A batch is a malformed envelope exactly where it has no tag: a fault of an
/// occurrence is never reported as one of the envelope.
pub proof fn lemma_malformed_envelope(batch: ValueView)
    ensures
        decode_spec(batch) == Err::<Seq<RedrawEventView>, DecodeFaultView>(
            DecodeFaultView::MalformedEnvelope,
        ) <==> envelope_tag(batch) is None,
{
    if let Some(kind) = envelope_tag(batch) {
        let all = occurrences(batch);
        crate::scan::lemma_first_index(all.len(), occurrence_is_bad(kind, all));
    }
}

/// Under a tag other than `cmdline_show` no occurrence is at fault: each is kept
/// as it arrived, under that tag.
pub proof fn lemma_unrecognized_kept(batch: ValueView)
    requires
        envelope_tag(batch) matches Some(kind) && kind != tag(),
    ensures
        decode_spec(batch) is Ok,
        decode_spec(batch)->Ok_0.len() == occurrences(batch).len(),
        forall|i: int|
            0 <= i < occurrences(batch).len() ==> (#[trigger] decode_spec(batch)->Ok_0[i])
                == (RedrawEventView::Unrecognized {
                kind: envelope_tag(batch)->Some_0,
                raw: occurrences(batch)[i],
            }),
{
    let kind = envelope_tag(batch)->Some_0;
    let all = occurrences(batch);
    lemma_first_index_none(all.len(), occurrence_is_bad(kind, all));
}

} // verus!
