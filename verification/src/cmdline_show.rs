use vstd::prelude::*;
use vstd::string::StringExecFns;

use crate::convert::{
    expect_i64, expect_items, expect_optional_text, expect_text, expect_u64, int_at, items_at,
    optional_text_at, text_at,
};
use crate::event::{chunk_views, lemma_event_in_range, CmdlineShowEvent, CmdlineShowEventView};
use crate::fault::{DecodeFault, DecodeFaultView, FaultDetail, Field, Found};
use crate::scan::{first_index, lemma_first_index_found, lemma_first_index_none};
use crate::value::{lemma_view_of_containers, views, Value, ValueView};

verus! {

/// The tag under which the editor sends this kind of event.
pub open spec fn tag() -> Seq<char> {
    "cmdline_show"@
}

/// One chunk of content: an array of an attribute id and a text, and nothing more.
pub open spec fn chunk_spec(chunk: ValueView) -> Result<(int, Seq<char>), FaultDetail> {
    match chunk {
        ValueView::Array(pair) => {
            let attr = int_at(pair, 0, Field::ChunkAttr, i64::MIN as int, i64::MAX as int);
            let text = text_at(pair, 1, Field::ChunkText);
            if pair.len() != 2 {
                Err(FaultDetail { field: Field::Chunk, found: Found::WrongLength })
            } else if attr is Err {
                Err(attr->Err_0)
            } else if text is Err {
                Err(text->Err_0)
            } else {
                Ok((attr->Ok_0, text->Ok_0))
            }
        },
        other => Err(FaultDetail { field: Field::Chunk, found: Found::Kind(other.kind()) }),
    }
}

/// Whether the chunk at an index is at fault.
pub open spec fn chunk_is_bad(items: Seq<ValueView>) -> spec_fn(int) -> bool {
    |i: int| chunk_spec(items[i]) is Err
}

/// The chunks of a content in order, or the fault of the first chunk that has one.
pub open spec fn content_spec(items: Seq<ValueView>) -> Result<Seq<(int, Seq<char>)>, FaultDetail> {
    match first_index(items.len(), chunk_is_bad(items)) {
        Some(i) => Err(chunk_spec(items[i])->Err_0),
        None => Ok(Seq::new(items.len(), |i: int| chunk_spec(items[i])->Ok_0)),
    }
}

/// The content at position 0: an array of chunks.
pub open spec fn content_at(fields: Seq<ValueView>) -> Result<Seq<(int, Seq<char>)>, FaultDetail> {
    match items_at(fields, 0, Field::Content) {
        Ok(items) => content_spec(items),
        Err(d) => Err(d),
    }
}

/// The event that the fields of one occurrence describe. The positions are read in
/// order, content first, and the first one at fault decides the error. What
/// follows position 5 is not looked at.
pub open spec fn fields_spec(fields: Seq<ValueView>) -> Result<CmdlineShowEventView, FaultDetail> {
    let content = content_at(fields);
    let pos = int_at(fields, 1, Field::Pos, i64::MIN as int, i64::MAX as int);
    let firstc = optional_text_at(fields, 2, Field::Firstc);
    let prompt = text_at(fields, 3, Field::Prompt);
    let indent = int_at(fields, 4, Field::Indent, 0, u64::MAX as int);
    let level = int_at(fields, 5, Field::Level, i64::MIN as int, i64::MAX as int);
    if content is Err {
        Err(content->Err_0)
    } else if pos is Err {
        Err(pos->Err_0)
    } else if firstc is Err {
        Err(firstc->Err_0)
    } else if prompt is Err {
        Err(prompt->Err_0)
    } else if indent is Err {
        Err(indent->Err_0)
    } else if level is Err {
        Err(level->Err_0)
    } else {
        Ok(
            CmdlineShowEventView {
                content: content->Ok_0,
                pos: pos->Ok_0,
                firstc: firstc->Ok_0,
                prompt: prompt->Ok_0,
                indent: indent->Ok_0,
                level: level->Ok_0,
            },
        )
    }
}

/// What [`extract`] returns for the fields of one occurrence.
pub open spec fn extract_spec(fields: Seq<ValueView>) -> Result<
    CmdlineShowEventView,
    DecodeFaultView,
> {
    match fields_spec(fields) {
        Ok(event) => Ok(event),
        Err(detail) => Err(DecodeFaultView::MalformedOccurrence { kind: tag(), detail }),
    }
}

/// The positional layout that stands for an event.
pub open spec fn encode_spec(event: CmdlineShowEventView) -> Seq<ValueView> {
    seq![
        ValueView::Array(
            Seq::new(
                event.content.len(),
                |i: int|
                    ValueView::Array(
                        seq![ValueView::Int(event.content[i].0), ValueView::Str(event.content[i].1)],
                    ),
            ),
        ),
        ValueView::Int(event.pos),
        match event.firstc {
            Some(text) => ValueView::Str(text),
            None => ValueView::Nil,
        },
        ValueView::Str(event.prompt),
        ValueView::Int(event.indent),
        ValueView::Int(event.level),
    ]
}

fn chunk_of(chunk: &Value) -> (r: Result<(i64, String), FaultDetail>)
    ensures
        chunk_spec(chunk@) == match r {
            Ok(pair) => Ok((pair.0 as int, pair.1@)),
            Err(d) => Err(d),
        },
{
    match chunk {
        Value::Array(pair) => {
            proof {
                lemma_view_of_containers(*chunk);
            }
            if pair.len() != 2 {
                return Err(FaultDetail { field: Field::Chunk, found: Found::WrongLength });
            }
            let attr = match expect_i64(pair.as_slice(), 0, Field::ChunkAttr) {
                Ok(attr) => attr,
                Err(d) => {
                    return Err(d);
                },
            };
            match expect_text(pair.as_slice(), 1, Field::ChunkText) {
                Ok(text) => Ok((attr, text)),
                Err(d) => Err(d),
            }
        },
        other => Err(FaultDetail { field: Field::Chunk, found: Found::Kind(other.kind()) }),
    }
}

fn content_of(items: &Vec<Value>) -> (r: Result<Vec<(i64, String)>, FaultDetail>)
    ensures
        content_spec(views(items@)) == match r {
            Ok(content) => Ok(chunk_views(content@)),
            Err(d) => Err(d),
        },
{
    let ghost shown = views(items@);
    let mut content: Vec<(i64, String)> = Vec::new();
    let mut i: usize = 0;
    while i < items.len()
        invariant
            i <= items.len(),
            shown == views(items@),
            content.len() == i,
            forall|j: int| 0 <= j < i ==> chunk_spec(shown[j]) == Ok::<(int, Seq<char>), FaultDetail>(
                (content@[j].0 as int, content@[j].1@),
            ),
        decreases items.len() - i,
    {
        match chunk_of(&items[i]) {
            Ok(pair) => {
                content.push(pair);
            },
            Err(d) => {
                proof {
                    lemma_first_index_found(shown.len(), chunk_is_bad(shown), i as int);
                }
                return Err(d);
            },
        }
        i += 1;
    }
    proof {
        lemma_first_index_none(shown.len(), chunk_is_bad(shown));
        assert(content_spec(shown)->Ok_0 =~= chunk_views(content@));
    }
    Ok(content)
}

fn fields_of(fields: &[Value]) -> (r: Result<CmdlineShowEvent, FaultDetail>)
    ensures
        fields_spec(views(fields@)) == match r {
            Ok(event) => Ok(event@),
            Err(d) => Err(d),
        },
{
    let content = match expect_items(fields, 0, Field::Content) {
        Ok(items) => match content_of(items) {
            Ok(content) => content,
            Err(d) => {
                return Err(d);
            },
        },
        Err(d) => {
            return Err(d);
        },
    };
    let pos = match expect_i64(fields, 1, Field::Pos) {
        Ok(pos) => pos,
        Err(d) => {
            return Err(d);
        },
    };
    let firstc = match expect_optional_text(fields, 2, Field::Firstc) {
        Ok(firstc) => firstc,
        Err(d) => {
            return Err(d);
        },
    };
    let prompt = match expect_text(fields, 3, Field::Prompt) {
        Ok(prompt) => prompt,
        Err(d) => {
            return Err(d);
        },
    };
    let indent = match expect_u64(fields, 4, Field::Indent) {
        Ok(indent) => indent,
        Err(d) => {
            return Err(d);
        },
    };
    let level = match expect_i64(fields, 5, Field::Level) {
        Ok(level) => level,
        Err(d) => {
            return Err(d);
        },
    };
    Ok(CmdlineShowEvent { content, pos, firstc, prompt, indent, level })
}

/// Reads the fields of one `cmdline_show` occurrence into an event.
///
/// Position 0 holds the content, an array of chunks that are each an array of
/// just an attribute id and a text; 1 the cursor position; 2 the first
/// character, a string or nil; 3 the prompt; 4 the indent, which is not
/// negative; 5 the level. What follows is not looked at. The first position that
/// holds anything else, or that the fields do not reach, is reported, and no
/// event is built.
pub fn extract(fields: &[Value]) -> (r: Result<CmdlineShowEvent, DecodeFault>)
    ensures
        extract_spec(views(fields@)) == match r {
            Ok(event) => Ok(event@),
            Err(fault) => Err(fault@),
        },
{
    match fields_of(fields) {
        Ok(event) => Ok(event),
        Err(detail) => Err(
            DecodeFault::MalformedOccurrence { kind: String::from_str("cmdline_show"), detail },
        ),
    }
}

impl CmdlineShowEvent {
    /// Lays the event out as the fields of an occurrence, which [`extract`] reads
    /// back into an equal event.
    pub fn to_fields(&self) -> (fields: Vec<Value>)
        ensures
            views(fields@) == encode_spec(self@),
    {
        let mut chunks: Vec<Value> = Vec::new();
        let mut i: usize = 0;
        while i < self.content.len()
            invariant
                i <= self.content.len(),
                chunks.len() == i,
                forall|j: int|
                    0 <= j < i ==> chunks@[j]@ == ValueView::Array(
                        seq![
                            ValueView::Int(self.content@[j].0 as int),
                            ValueView::Str(self.content@[j].1@),
                        ],
                    ),
            decreases self.content.len() - i,
        {
            let mut pair: Vec<Value> = Vec::new();
            pair.push(Value::Int(self.content[i].0 as i128));
            pair.push(Value::Str(self.content[i].1.clone()));
            let chunk = Value::Array(pair);
            proof {
                lemma_view_of_containers(chunk);
                assert(views(pair@) =~= seq![
                    ValueView::Int(self.content@[i as int].0 as int),
                    ValueView::Str(self.content@[i as int].1@),
                ]);
            }
            chunks.push(chunk);
            i += 1;
        }
        let content = Value::Array(chunks);
        let firstc = match &self.firstc {
            Some(text) => Value::Str(text.clone()),
            None => Value::Nil,
        };
        let mut fields: Vec<Value> = Vec::new();
        fields.push(content);
        fields.push(Value::Int(self.pos as i128));
        fields.push(firstc);
        fields.push(Value::Str(self.prompt.clone()));
        fields.push(Value::Int(self.indent as i128));
        fields.push(Value::Int(self.level as i128));
        proof {
            lemma_view_of_containers(content);
            assert(views(chunks@) =~= encode_spec(self@)[0]->Array_0);
            assert(views(fields@) =~= encode_spec(self@));
        }
        fields
    }
}

/// Every position but that of the first character holds what it should.
pub open spec fn rest_in_order(fields: Seq<ValueView>) -> bool {
    &&& content_at(fields) is Ok
    &&& int_at(fields, 1, Field::Pos, i64::MIN as int, i64::MAX as int) is Ok
    &&& text_at(fields, 3, Field::Prompt) is Ok
    &&& int_at(fields, 4, Field::Indent, 0, u64::MAX as int) is Ok
    &&& int_at(fields, 5, Field::Level, i64::MIN as int, i64::MAX as int) is Ok
}

/// With a string at position 2, an occurrence whose other fields are in order
/// gives an event whose first character is that string.
pub proof fn lemma_first_character_given(fields: Seq<ValueView>, text: Seq<char>)
    requires
        rest_in_order(fields),
        fields[2] == ValueView::Str(text),
    ensures
        extract_spec(fields) is Ok,
        extract_spec(fields)->Ok_0.firstc == Some(text),
{
}

/// With nil at position 2, an occurrence whose other fields are in order gives
/// an event without a first character, and no fault.
pub proof fn lemma_first_character_absent(fields: Seq<ValueView>)
    requires
        rest_in_order(fields),
        fields[2] == ValueView::Nil,
    ensures
        extract_spec(fields) is Ok,
        extract_spec(fields)->Ok_0.firstc == None::<Seq<char>>,
{
}

/// With anything but a string or nil at position 2, no event is built: the
/// occurrence is malformed, and where content and position are in order the
/// fault names the first character and the kind of value that stood there.
pub proof fn lemma_first_character_of_wrong_kind(fields: Seq<ValueView>)
    requires
        2 < fields.len(),
        !(fields[2] is Str),
        !(fields[2] is Nil),
    ensures
        extract_spec(fields) is Err,
        extract_spec(fields)->Err_0 is MalformedOccurrence,
        extract_spec(fields)->Err_0->kind == tag(),
        content_at(fields) is Ok && int_at(fields, 1, Field::Pos, i64::MIN as int, i64::MAX as int)
            is Ok ==> extract_spec(fields)->Err_0->detail == (FaultDetail {
            field: Field::Firstc,
            found: Found::Kind(fields[2].kind()),
        }),
{
}

/// Laying an event out as fields and reading the fields back gives the event
/// again, with its chunks in the same order.
pub proof fn lemma_round_trip(event: CmdlineShowEventView)
    requires
        event.in_range(),
    ensures
        extract_spec(encode_spec(event)) == Ok::<CmdlineShowEventView, DecodeFaultView>(event),
{
    let fields = encode_spec(event);
    let items = fields[0]->Array_0;
    assert forall|i: int| 0 <= i < items.len() implies chunk_spec(#[trigger] items[i]) == Ok::<
        (int, Seq<char>),
        FaultDetail,
    >(event.content[i]) by {}
    lemma_first_index_none(items.len(), chunk_is_bad(items));
    assert(content_spec(items)->Ok_0 =~= event.content);
}

/// The fields that any event is laid out as read back as that event: what
/// `to_fields` returns, `extract` accepts.
pub proof fn lemma_fields_read_back(event: CmdlineShowEvent)
    ensures
        extract_spec(encode_spec(event@)) == Ok::<CmdlineShowEventView, DecodeFaultView>(event@),
{
    lemma_event_in_range(event);
    lemma_round_trip(event@);
}

} // verus!
