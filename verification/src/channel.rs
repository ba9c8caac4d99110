use vstd::prelude::*;

verus! {

/// One entry of a tuner's lineup. A value is never changed once it is built.
#[derive(Debug, PartialEq, Eq)]
pub struct Channel {
    pub guide_number: String,
    pub guide_name: String,
    pub video_codec: String,
    pub audio_codec: String,
    pub url: String,
    pub hd: Option<i32>,
    pub favorite: Option<i32>,
}

/// What a `Channel` stands for: its texts as sequences of characters, its two
/// flags as they are, present or absent.
pub struct ChannelView {
    pub guide_number: Seq<char>,
    pub guide_name: Seq<char>,
    pub video_codec: Seq<char>,
    pub audio_codec: Seq<char>,
    pub url: Seq<char>,
    pub hd: Option<i32>,
    pub favorite: Option<i32>,
}

impl View for Channel {
    type V = ChannelView;

    open spec fn view(&self) -> ChannelView {
        ChannelView {
            guide_number: self.guide_number@,
            guide_name: self.guide_name@,
            video_codec: self.video_codec@,
            audio_codec: self.audio_codec@,
            url: self.url@,
            hd: self.hd,
            favorite: self.favorite,
        }
    }
}

/// The views of a run of channels, in the same order.
pub open spec fn views(channels: Seq<Channel>) -> Seq<ChannelView> {
    channels.map_values(|c: Channel| c@)
}

impl Clone for Channel {
    /// A second value with the same contents.
    fn clone(&self) -> (copy: Channel)
        ensures
            copy@ == self@,
    {
        Channel {
            guide_number: self.guide_number.clone(),
            guide_name: self.guide_name.clone(),
            video_codec: self.video_codec.clone(),
            audio_codec: self.audio_codec.clone(),
            url: self.url.clone(),
            hd: self.hd,
            favorite: self.favorite,
        }
    }
}

} // verus!
