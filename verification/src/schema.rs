use crate::channel::{Channel, ChannelView};
use vstd::prelude::*;

verus! {

/// The seven fields of a channel record, in the order in which they are read.
#[derive(Clone, Copy, Debug, PartialEq, Eq)]
pub enum FieldName {
    GuideNumber,
    GuideName,
    VideoCodec,
    AudioCodec,
    Url,
    Hd,
    Favorite,
}

impl FieldName {
    /// The name under which a record holds the field.
    pub open spec fn key_spec(self) -> Seq<char> {
        match self {
            FieldName::GuideNumber => "GuideNumber"@,
            FieldName::GuideName => "GuideName"@,
            FieldName::VideoCodec => "VideoCodec"@,
            FieldName::AudioCodec => "AudioCodec"@,
            FieldName::Url => "URL"@,
            FieldName::Hd => "HD"@,
            FieldName::Favorite => "Favorite"@,
        }
    }

    /// Whether a record may leave the field out.
    pub open spec fn optional_spec(self) -> bool {
        self == FieldName::Hd || self == FieldName::Favorite
    }

    /// The name under which a record holds the field.
    pub fn key(self) -> (name: &'static str)
        ensures
            name@ == self.key_spec(),
    {
        match self {
            FieldName::GuideNumber => "GuideNumber",
            FieldName::GuideName => "GuideName",
            FieldName::VideoCodec => "VideoCodec",
            FieldName::AudioCodec => "AudioCodec",
            FieldName::Url => "URL",
            FieldName::Hd => "HD",
            FieldName::Favorite => "Favorite",
        }
    }
}

/// Why a field of a record cannot be read.
#[derive(Clone, Copy, Debug, PartialEq, Eq)]
pub enum FieldFault {
    /// A required field is not in the record.
    Missing,
    /// The field holds a value of another kind than the schema asks for.
    WrongType,
    /// A flag holds an integer that does not fit in 32 bits.
    OutOfRange,
}

/// A field that cannot be read, and why.
#[derive(Clone, Copy, Debug, PartialEq, Eq)]
pub struct FieldError {
    pub field: FieldName,
    pub fault: FieldFault,
}

/// What a record holds under one field name.
#[derive(Clone, Debug, PartialEq, Eq)]
pub enum Slot {
    /// The record has no such field.
    Absent,
    Null,
    Text(String),
    /// A number that is an integer and fits in 64 bits.
    Integer(i64),
    /// Any other value: a boolean, another number, an array, an object.
    Other,
}

pub enum SlotView {
    Absent,
    Null,
    Text(Seq<char>),
    Integer(i64),
    Other,
}

impl View for Slot {
    type V = SlotView;

    open spec fn view(&self) -> SlotView {
        match self {
            Slot::Absent => SlotView::Absent,
            Slot::Null => SlotView::Null,
            Slot::Text(s) => SlotView::Text(s@),
            Slot::Integer(n) => SlotView::Integer(*n),
            Slot::Other => SlotView::Other,
        }
    }
}

/// The text of a required field: the field must be there and hold a string.
pub open spec fn text_of(slot: SlotView) -> Result<Seq<char>, FieldFault> {
    match slot {
        SlotView::Text(s) => Ok(s),
        SlotView::Absent => Err(FieldFault::Missing),
        _ => Err(FieldFault::WrongType),
    }
}

/// The value of an optional flag: absent where the field is left out or null,
/// present where it holds an integer of 32 bits.
pub open spec fn flag_of(slot: SlotView) -> Result<Option<i32>, FieldFault> {
    match slot {
        SlotView::Absent => Ok(None),
        SlotView::Null => Ok(None),
        SlotView::Integer(n) => if i32::MIN <= n <= i32::MAX {
            Ok(Some(n as i32))
        } else {
            Err(FieldFault::OutOfRange)
        },
        _ => Err(FieldFault::WrongType),
    }
}

impl Slot {
    /// Reads the slot as a required text.
    pub fn text(&self) -> (r: Result<String, FieldFault>)
        ensures
            match r {
                Ok(s) => text_of(self@) == Ok::<Seq<char>, FieldFault>(s@),
                Err(fault) => text_of(self@) == Err::<Seq<char>, FieldFault>(fault),
            },
    {
        match self {
            Slot::Text(s) => Ok(s.clone()),
            Slot::Absent => Err(FieldFault::Missing),
            _ => Err(FieldFault::WrongType),
        }
    }

    /// Reads the slot as an optional flag.
    pub fn flag(&self) -> (r: Result<Option<i32>, FieldFault>)
        ensures
            r == flag_of(self@),
    {
        match self {
            Slot::Absent => Ok(None),
            Slot::Null => Ok(None),
            Slot::Integer(n) => {
                if -2147483648 <= *n && *n <= 2147483647 {
                    Ok(Some(*n as i32))
                } else {
                    Err(FieldFault::OutOfRange)
                }
            },
            _ => Err(FieldFault::WrongType),
        }
    }
}

/// What one record holds under each of the seven field names.
#[derive(Clone, Debug, PartialEq, Eq)]
pub struct RawRecord {
    pub guide_number: Slot,
    pub guide_name: Slot,
    pub video_codec: Slot,
    pub audio_codec: Slot,
    pub url: Slot,
    pub hd: Slot,
    pub favorite: Slot,
}

pub struct RawRecordView {
    pub guide_number: SlotView,
    pub guide_name: SlotView,
    pub video_codec: SlotView,
    pub audio_codec: SlotView,
    pub url: SlotView,
    pub hd: SlotView,
    pub favorite: SlotView,
}

impl View for RawRecord {
    type V = RawRecordView;

    open spec fn view(&self) -> RawRecordView {
        RawRecordView {
            guide_number: self.guide_number@,
            guide_name: self.guide_name@,
            video_codec: self.video_codec@,
            audio_codec: self.audio_codec@,
            url: self.url@,
            hd: self.hd@,
            favorite: self.favorite@,
        }
    }
}

impl RawRecordView {
    /// The slot of one field.
    pub open spec fn slot(self, field: FieldName) -> SlotView {
        match field {
            FieldName::GuideNumber => self.guide_number,
            FieldName::GuideName => self.guide_name,
            FieldName::VideoCodec => self.video_codec,
            FieldName::AudioCodec => self.audio_codec,
            FieldName::Url => self.url,
            FieldName::Hd => self.hd,
            FieldName::Favorite => self.favorite,
        }
    }

    /// Whether one field can be read: a required one as a text, an optional
    /// one as a flag.
    pub open spec fn readable(self, field: FieldName) -> bool {
        if field.optional_spec() {
            flag_of(self.slot(field)) is Ok
        } else {
            text_of(self.slot(field)) is Ok
        }
    }

    /// Whether every field can be read.
    pub open spec fn well_formed(self) -> bool {
        forall|field: FieldName| self.readable(field)
    }
}

/// The channel that a record describes, or the first field, in the order of
/// `FieldName`, that cannot be read.
pub open spec fn channel_of(raw: RawRecordView) -> Result<ChannelView, FieldError> {
    if text_of(raw.guide_number) is Err {
        Err(FieldError { field: FieldName::GuideNumber, fault: text_of(raw.guide_number)->Err_0 })
    } else if text_of(raw.guide_name) is Err {
        Err(FieldError { field: FieldName::GuideName, fault: text_of(raw.guide_name)->Err_0 })
    } else if text_of(raw.video_codec) is Err {
        Err(FieldError { field: FieldName::VideoCodec, fault: text_of(raw.video_codec)->Err_0 })
    } else if text_of(raw.audio_codec) is Err {
        Err(FieldError { field: FieldName::AudioCodec, fault: text_of(raw.audio_codec)->Err_0 })
    } else if text_of(raw.url) is Err {
        Err(FieldError { field: FieldName::Url, fault: text_of(raw.url)->Err_0 })
    } else if flag_of(raw.hd) is Err {
        Err(FieldError { field: FieldName::Hd, fault: flag_of(raw.hd)->Err_0 })
    } else if flag_of(raw.favorite) is Err {
        Err(FieldError { field: FieldName::Favorite, fault: flag_of(raw.favorite)->Err_0 })
    } else {
        Ok(
            ChannelView {
                guide_number: text_of(raw.guide_number)->Ok_0,
                guide_name: text_of(raw.guide_name)->Ok_0,
                video_codec: text_of(raw.video_codec)->Ok_0,
                audio_codec: text_of(raw.audio_codec)->Ok_0,
                url: text_of(raw.url)->Ok_0,
                hd: flag_of(raw.hd)->Ok_0,
                favorite: flag_of(raw.favorite)->Ok_0,
            },
        )
    }
}

impl Channel {
    /// Builds the channel that a record describes. Fails on the first field
    /// that cannot be read, and says which and why.
    pub fn from_raw(raw: &RawRecord) -> (r: Result<Channel, FieldError>)
        ensures
            match r {
                Ok(channel) => channel_of(raw@) == Ok::<ChannelView, FieldError>(channel@),
                Err(error) => channel_of(raw@) == Err::<ChannelView, FieldError>(error),
            },
    {
        let guide_number = match raw.guide_number.text() {
            Ok(s) => s,
            Err(fault) => { return Err(FieldError { field: FieldName::GuideNumber, fault }); },
        };
        let guide_name = match raw.guide_name.text() {
            Ok(s) => s,
            Err(fault) => { return Err(FieldError { field: FieldName::GuideName, fault }); },
        };
        let video_codec = match raw.video_codec.text() {
            Ok(s) => s,
            Err(fault) => { return Err(FieldError { field: FieldName::VideoCodec, fault }); },
        };
        let audio_codec = match raw.audio_codec.text() {
            Ok(s) => s,
            Err(fault) => { return Err(FieldError { field: FieldName::AudioCodec, fault }); },
        };
        let url = match raw.url.text() {
            Ok(s) => s,
            Err(fault) => { return Err(FieldError { field: FieldName::Url, fault }); },
        };
        let hd = match raw.hd.flag() {
            Ok(flag) => flag,
            Err(fault) => { return Err(FieldError { field: FieldName::Hd, fault }); },
        };
        let favorite = match raw.favorite.flag() {
            Ok(flag) => flag,
            Err(fault) => { return Err(FieldError { field: FieldName::Favorite, fault }); },
        };
        Ok(Channel { guide_number, guide_name, video_codec, audio_codec, url, hd, favorite })
    }
}

/// Whether `flag` is what a slot says of an optional flag: absent for a slot
/// that is left out or null, present with the slot's integer otherwise.
pub open spec fn flag_describes(slot: SlotView, flag: Option<i32>) -> bool {
    match flag {
        None => slot is Absent || slot is Null,
        Some(n) => slot == SlotView::Integer(n as i64),
    }
}

/// Whether `channel` is what a record says: each text as it stands in the
/// record, each flag as `flag_describes` has it.
pub open spec fn describes(raw: RawRecordView, channel: ChannelView) -> bool {
    &&& raw.guide_number == SlotView::Text(channel.guide_number)
    &&& raw.guide_name == SlotView::Text(channel.guide_name)
    &&& raw.video_codec == SlotView::Text(channel.video_codec)
    &&& raw.audio_codec == SlotView::Text(channel.audio_codec)
    &&& raw.url == SlotView::Text(channel.url)
    &&& flag_describes(raw.hd, channel.hd)
    &&& flag_describes(raw.favorite, channel.favorite)
}

/// A record decodes exactly when each of its fields can be read.
pub proof fn lemma_decodes_iff_well_formed(raw: RawRecordView)
    ensures
        channel_of(raw) is Ok <==> raw.well_formed(),
{
    if channel_of(raw) is Ok {
        assert forall|field: FieldName| raw.readable(field) by {}
    }
    if raw.well_formed() {
        assert(raw.readable(FieldName::GuideNumber));
        assert(raw.readable(FieldName::GuideName));
        assert(raw.readable(FieldName::VideoCodec));
        assert(raw.readable(FieldName::AudioCodec));
        assert(raw.readable(FieldName::Url));
        assert(raw.readable(FieldName::Hd));
        assert(raw.readable(FieldName::Favorite));
    }
}

/// A record decodes to the one channel that it describes: every text is
/// carried over as it stands, a flag that is left out or null is absent, and a
/// flag that is given is present with its value.
pub proof fn lemma_decodes_to_described(raw: RawRecordView, channel: ChannelView)
    ensures
        channel_of(raw) == Ok::<ChannelView, FieldError>(channel) <==> describes(raw, channel),
{
}

} // verus!
