use crate::channel::{views, Channel, ChannelView};
use crate::json::{error_text, json_of, member, parse, parsed_json, JsonModel};
use crate::schema::{
    channel_of, describes, lemma_decodes_iff_well_formed, lemma_decodes_to_described, FieldFault,
    FieldName, RawRecord, RawRecordView, Slot, SlotView,
};
use vstd::prelude::*;

verus! {

/// One element of a lineup document: a record, or a value of another kind.
#[derive(Clone, Debug, PartialEq, Eq)]
pub enum RawItem {
    Record(RawRecord),
    Other,
}

pub enum RawItemView {
    Record(RawRecordView),
    Other,
}

impl View for RawItem {
    type V = RawItemView;

    open spec fn view(&self) -> RawItemView {
        match self {
            RawItem::Record(raw) => RawItemView::Record(raw@),
            RawItem::Other => RawItemView::Other,
        }
    }
}

/// The views of a run of items, in the same order.
pub open spec fn item_views(items: Seq<RawItem>) -> Seq<RawItemView> {
    items.map_values(|item: RawItem| item@)
}

/// Why a response body is no lineup.
#[derive(Clone, Debug, PartialEq, Eq)]
pub enum DecodeError {
    /// The body is not one JSON document; `message` is the parser's account.
    Syntax { message: String },
    /// The document is not an array.
    NotAList,
    /// The element at `index` is not an object.
    NotARecord { index: usize },
    /// A field of the record at `index` cannot be read.
    Field { index: usize, field: FieldName, fault: FieldFault },
}

/// A `DecodeError` without the parser's words.
pub enum DecodeFault {
    Syntax,
    NotAList,
    NotARecord { index: int },
    Field { index: int, field: FieldName, fault: FieldFault },
}

impl View for DecodeError {
    type V = DecodeFault;

    open spec fn view(&self) -> DecodeFault {
        match self {
            DecodeError::Syntax { message } => DecodeFault::Syntax,
            DecodeError::NotAList => DecodeFault::NotAList,
            DecodeError::NotARecord { index } => DecodeFault::NotARecord { index: *index as int },
            DecodeError::Field { index, field, fault } => DecodeFault::Field {
                index: *index as int,
                field: *field,
                fault: *fault,
            },
        }
    }
}

/// A decoding's outcome as a mathematical value.
pub open spec fn outcome_view(r: Result<Vec<Channel>, DecodeError>) -> Result<
    Seq<ChannelView>,
    DecodeFault,
> {
    match r {
        Ok(channels) => Ok(views(channels@)),
        Err(error) => Err(error@),
    }
}

/// The channel of the item at `index`, or why the item gives none.
pub open spec fn channel_at(item: RawItemView, index: int) -> Result<ChannelView, DecodeFault> {
    match item {
        RawItemView::Other => Err(DecodeFault::NotARecord { index }),
        RawItemView::Record(raw) => match channel_of(raw) {
            Ok(channel) => Ok(channel),
            Err(error) => Err(DecodeFault::Field { index, field: error.field, fault: error.fault }),
        },
    }
}

/// The lineup that a run of items describes: one channel for each item, in the
/// items' order, or the fault of the first item that gives no channel.
pub open spec fn decoded(items: Seq<RawItemView>) -> Result<Seq<ChannelView>, DecodeFault>
    decreases items.len(),
{
    if items.len() == 0 {
        Ok(Seq::empty())
    } else {
        match decoded(items.drop_last()) {
            Err(fault) => Err(fault),
            Ok(channels) => match channel_at(items.last(), items.len() - 1) {
                Ok(channel) => Ok(channels.push(channel)),
                Err(fault) => Err(fault),
            },
        }
    }
}

/// Decodes a run of items into a lineup.
pub fn decode_items(items: &Vec<RawItem>) -> (r: Result<Vec<Channel>, DecodeError>)
    ensures
        outcome_view(r) == decoded(item_views(items@)),
{
    let mut channels: Vec<Channel> = Vec::new();
    let mut i: usize = 0;
    proof {
        assert(views(channels@) =~= Seq::empty());
    }
    while i < items.len()
        invariant
            0 <= i <= items.len(),
            decoded(item_views(items@).take(i as int)) == Ok::<Seq<ChannelView>, DecodeFault>(
                views(channels@),
            ),
        decreases items.len() - i,
    {
        let ghost all = item_views(items@);
        proof {
            assert(all.take(i + 1).drop_last() =~= all.take(i as int));
            assert(all.take(i + 1).last() == items@[i as int]@);
        }
        match &items[i] {
            RawItem::Other => {
                proof {
                    lemma_fault_stays(all, i + 1);
                }
                return Err(DecodeError::NotARecord { index: i });
            },
            RawItem::Record(raw) => match Channel::from_raw(raw) {
                Ok(channel) => {
                    proof {
                        assert(views(channels@.push(channel)) =~= views(channels@).push(channel@));
                    }
                    channels.push(channel);
                },
                Err(error) => {
                    proof {
                        lemma_fault_stays(all, i + 1);
                    }
                    return Err(
                        DecodeError::Field { index: i, field: error.field, fault: error.fault },
                    );
                },
            },
        }
        i += 1;
    }
    proof {
        assert(item_views(items@).take(i as int) =~= item_views(items@));
    }
    Ok(channels)
}

/// A fault among the first `n` items is the fault of the whole run.
pub proof fn lemma_fault_stays(items: Seq<RawItemView>, n: int)
    requires
        0 <= n <= items.len(),
        decoded(items.take(n)) is Err,
    ensures
        decoded(items) == decoded(items.take(n)),
    decreases items.len() - n,
{
    if n < items.len() {
        assert(items.take(n + 1).drop_last() =~= items.take(n));
        lemma_fault_stays(items, n + 1);
    } else {
        assert(items.take(n) =~= items);
    }
}

/// What a JSON value holds under `key`, as far as the schema tells values
/// apart. A value that is no object holds nothing under any key.
pub open spec fn slot_at(record: JsonModel, key: Seq<char>) -> SlotView {
    if record is Record && record->Record_0.dom().contains(key) {
        match record->Record_0[key] {
            JsonModel::Null => SlotView::Null,
            JsonModel::Text(s) => SlotView::Text(s),
            JsonModel::Integer(n) => if i64::MIN <= n <= i64::MAX {
                SlotView::Integer(n as i64)
            } else {
                SlotView::Other
            },
            _ => SlotView::Other,
        }
    } else {
        SlotView::Absent
    }
}

/// What a JSON value holds under each of the seven field names.
pub open spec fn record_of(value: JsonModel) -> RawRecordView {
    RawRecordView {
        guide_number: slot_at(value, FieldName::GuideNumber.key_spec()),
        guide_name: slot_at(value, FieldName::GuideName.key_spec()),
        video_codec: slot_at(value, FieldName::VideoCodec.key_spec()),
        audio_codec: slot_at(value, FieldName::AudioCodec.key_spec()),
        url: slot_at(value, FieldName::Url.key_spec()),
        hd: slot_at(value, FieldName::Hd.key_spec()),
        favorite: slot_at(value, FieldName::Favorite.key_spec()),
    }
}

/// A JSON value as an element of a lineup document.
pub open spec fn item_of(value: JsonModel) -> RawItemView {
    if value is Record {
        RawItemView::Record(record_of(value))
    } else {
        RawItemView::Other
    }
}

/// The elements of a JSON array as items, in the array's order.
pub open spec fn items_of(elements: Seq<JsonModel>) -> Seq<RawItemView> {
    elements.map_values(|value: JsonModel| item_of(value))
}

/// The lineup that a JSON document describes.
pub open spec fn lineup_of(document: JsonModel) -> Result<Seq<ChannelView>, DecodeFault> {
    match document {
        JsonModel::List(elements) => decoded(items_of(elements)),
        _ => Err(DecodeFault::NotAList),
    }
}

/// The lineup that a response body describes.
pub open spec fn lineup_of_body(body: Seq<u8>) -> Result<Seq<ChannelView>, DecodeFault> {
    match parsed_json(body) {
        Some(document) => lineup_of(document),
        None => Err(DecodeFault::Syntax),
    }
}

/// Looks up one field in a JSON value.
pub fn read_slot(record: &serde_json::Value, field: FieldName) -> (slot: Slot)
    ensures
        slot@ == slot_at(json_of(*record), field.key_spec()),
{
    match member(record, field.key()) {
        None => Slot::Absent,
        Some(value) => {
            if value.is_null() {
                Slot::Null
            } else {
                match value.as_str() {
                    Some(text) => Slot::Text(text.to_owned()),
                    None => match value.as_i64() {
                        Some(n) => Slot::Integer(n),
                        None => Slot::Other,
                    },
                }
            }
        },
    }
}

/// Reads one element of a lineup document.
pub fn read_item(value: &serde_json::Value) -> (item: RawItem)
    ensures
        item@ == item_of(json_of(*value)),
{
    if value.is_object() {
        RawItem::Record(
            RawRecord {
                guide_number: read_slot(value, FieldName::GuideNumber),
                guide_name: read_slot(value, FieldName::GuideName),
                video_codec: read_slot(value, FieldName::VideoCodec),
                audio_codec: read_slot(value, FieldName::AudioCodec),
                url: read_slot(value, FieldName::Url),
                hd: read_slot(value, FieldName::Hd),
                favorite: read_slot(value, FieldName::Favorite),
            },
        )
    } else {
        RawItem::Other
    }
}

/// Reads the elements of a lineup document, in their order; `None` where the
/// document is not an array.
pub fn read_items(document: &serde_json::Value) -> (r: Option<Vec<RawItem>>)
    ensures
        match json_of(*document) {
            JsonModel::List(elements) => r is Some && item_views(r->Some_0@) == items_of(elements),
            _ => r is None,
        },
{
    match document.as_array() {
        None => None,
        Some(elements) => {
            let ghost model = json_of(*document)->List_0;
            let mut items: Vec<RawItem> = Vec::new();
            let mut i: usize = 0;
            while i < elements.len()
                invariant
                    0 <= i <= elements.len(),
                    elements@.len() == model.len(),
                    forall|k: int|
                        0 <= k < elements@.len() ==> #[trigger] json_of(elements@[k]) == model[k],
                    items@.len() == i,
                    forall|k: int| 0 <= k < i ==> (#[trigger] items@[k])@ == item_of(model[k]),
                decreases elements.len() - i,
            {
                let item = read_item(&elements[i]);
                items.push(item);
                i += 1;
            }
            proof {
                assert(item_views(items@) =~= items_of(model));
            }
            Some(items)
        },
    }
}

/// Decodes a JSON document into a lineup.
pub fn decode_document(document: &serde_json::Value) -> (r: Result<Vec<Channel>, DecodeError>)
    ensures
        outcome_view(r) == lineup_of(json_of(*document)),
{
    match read_items(document) {
        None => Err(DecodeError::NotAList),
        Some(items) => decode_items(&items),
    }
}

/// Decodes a response body into a lineup: one channel for each record of the
/// array, in the array's order. A body that is no lineup gives an error and
/// nothing else happens.
pub fn decode_body(body: &[u8]) -> (r: Result<Vec<Channel>, DecodeError>)
    ensures
        outcome_view(r) == lineup_of_body(body@),
{
    match parse(body) {
        Ok(document) => decode_document(&document),
        Err(error) => Err(DecodeError::Syntax { message: error_text(&error) }),
    }
}

/// Whether an item is a record whose every field can be read.
pub open spec fn item_well_formed(item: RawItemView) -> bool {
    item is Record && item->Record_0.well_formed()
}

/// A run of well-formed items decodes to as many channels, in the items'
/// order, each the channel that its record describes.
pub proof fn lemma_well_formed_items_decode(items: Seq<RawItemView>)
    requires
        forall|i: int| 0 <= i < items.len() ==> item_well_formed(#[trigger] items[i]),
    ensures
        decoded(items) is Ok,
        decoded(items)->Ok_0.len() == items.len(),
        forall|i: int|
            0 <= i < items.len() ==> describes(
                (#[trigger] items[i])->Record_0,
                decoded(items)->Ok_0[i],
            ),
    decreases items.len(),
{
    if items.len() > 0 {
        let front = items.drop_last();
        assert forall|i: int| 0 <= i < front.len() implies item_well_formed(
            #[trigger] front[i],
        ) by {
            assert(front[i] == items[i]);
        }
        lemma_well_formed_items_decode(front);
        let raw = items.last()->Record_0;
        lemma_decodes_iff_well_formed(raw);
        lemma_decodes_to_described(raw, channel_of(raw)->Ok_0);
        assert forall|i: int| 0 <= i < items.len() implies describes(
            (#[trigger] items[i])->Record_0,
            decoded(items)->Ok_0[i],
        ) by {
            if i < front.len() {
                assert(front[i] == items[i]);
            }
        }
    }
}

/// The first item that is not well formed decides the outcome: the run gives
/// that item's fault, with its place in the run.
pub proof fn lemma_first_fault_decides(items: Seq<RawItemView>, k: int)
    requires
        0 <= k < items.len(),
        forall|i: int| 0 <= i < k ==> item_well_formed(#[trigger] items[i]),
        !item_well_formed(items[k]),
    ensures
        channel_at(items[k], k) is Err,
        decoded(items) == Err::<Seq<ChannelView>, DecodeFault>(channel_at(items[k], k)->Err_0),
{
    let front = items.take(k);
    assert forall|i: int| 0 <= i < front.len() implies item_well_formed(#[trigger] front[i]) by {
        assert(front[i] == items[i]);
    }
    lemma_well_formed_items_decode(front);
    if items[k] is Record {
        lemma_decodes_iff_well_formed(items[k]->Record_0);
    }
    assert(items.take(k + 1).drop_last() =~= front);
    assert(items.take(k + 1).last() == items[k]);
    lemma_fault_stays(items, k + 1);
}

/// A run decodes exactly when every item is well formed; one item that is
/// not makes the whole run fail.
pub proof fn lemma_decodes_iff_all_well_formed(items: Seq<RawItemView>)
    ensures
        decoded(items) is Ok <==> forall|i: int|
            0 <= i < items.len() ==> item_well_formed(#[trigger] items[i]),
    decreases items.len(),
{
    if items.len() > 0 {
        let front = items.drop_last();
        lemma_decodes_iff_all_well_formed(front);
        if items.last() is Record {
            lemma_decodes_iff_well_formed(items.last()->Record_0);
        }
        if decoded(items) is Ok {
            assert forall|i: int| 0 <= i < items.len() implies item_well_formed(
                #[trigger] items[i],
            ) by {
                if i < front.len() {
                    assert(front[i] == items[i]);
                }
            }
        }
        if forall|i: int| 0 <= i < items.len() ==> item_well_formed(#[trigger] items[i]) {
            lemma_well_formed_items_decode(items);
        }
    }
}

/// A JSON array of well-formed channel records is a lineup of as many
/// channels, in the array's order, each the channel that its record describes.
pub proof fn lemma_well_formed_document_decodes(elements: Seq<JsonModel>)
    requires
        forall|i: int| 0 <= i < elements.len() ==> item_well_formed(item_of(#[trigger] elements[i])),
    ensures
        lineup_of(JsonModel::List(elements)) is Ok,
        lineup_of(JsonModel::List(elements))->Ok_0.len() == elements.len(),
        forall|i: int|
            0 <= i < elements.len() ==> describes(
                record_of(#[trigger] elements[i]),
                lineup_of(JsonModel::List(elements))->Ok_0[i],
            ),
{
    let items = items_of(elements);
    assert forall|i: int| 0 <= i < items.len() implies item_well_formed(#[trigger] items[i]) by {
        assert(items[i] == item_of(elements[i]));
    }
    lemma_well_formed_items_decode(items);
    assert forall|i: int| 0 <= i < elements.len() implies describes(
        record_of(#[trigger] elements[i]),
        lineup_of(JsonModel::List(elements))->Ok_0[i],
    ) by {
        assert(items[i] == item_of(elements[i]));
    }
}

/// A document that is no array, or an array with an element that is no
/// well-formed channel record, is no lineup.
pub proof fn lemma_malformed_document_fails(document: JsonModel)
    requires
        !(document is List) || exists|i: int|
            0 <= i < document->List_0.len() && !item_well_formed(
                item_of(#[trigger] document->List_0[i]),
            ),
    ensures
        lineup_of(document) is Err,
{
    if document is List {
        let elements = document->List_0;
        let k = choose|i: int|
            0 <= i < elements.len() && !item_well_formed(item_of(#[trigger] elements[i]));
        let items = items_of(elements);
        assert(items[k] == item_of(elements[k]));
        lemma_decodes_iff_all_well_formed(items);
    }
}

} // verus!
