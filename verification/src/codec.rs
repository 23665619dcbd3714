//! What is shown of the codec of the selected file.

use vstd::prelude::*;

verus! {

/// How the channels of a track are laid out.
#[derive(Clone, Copy, Debug, PartialEq, Eq)]
pub enum ChannelLayout {
    Mono,
    Stereo,
    TwoPointOne,
    FivePointOne,
}

/// The parameters of the default track of an audio file, each as far as the
/// file gives it.
#[derive(Clone, Copy, Debug, PartialEq, Eq)]
pub struct SoundFileCodecData {
    pub sample_rate: Option<u32>,
    pub bit_depth: Option<u32>,
    pub file_layout: Option<ChannelLayout>,
}

/// The words that name a channel layout.
pub open spec fn layout_words(layout: ChannelLayout) -> Seq<char> {
    match layout {
        ChannelLayout::Mono => "Mono"@,
        ChannelLayout::Stereo => "Stereo"@,
        ChannelLayout::TwoPointOne => "2.1"@,
        ChannelLayout::FivePointOne => "5.1"@,
    }
}

/// Names a channel layout.
pub fn layout_label(layout: ChannelLayout) -> (label: &'static str)
    ensures
        label@ == layout_words(layout),
{
    match layout {
        ChannelLayout::Mono => "Mono",
        ChannelLayout::Stereo => "Stereo",
        ChannelLayout::TwoPointOne => "2.1",
        ChannelLayout::FivePointOne => "5.1",
    }
}

/// The data of which nothing is known.
pub open spec fn no_codec_data() -> SoundFileCodecData {
    SoundFileCodecData { sample_rate: None, bit_depth: None, file_layout: None }
}

impl SoundFileCodecData {
    /// No parameter is known.
    pub open spec fn is_absent(&self) -> bool {
        self.sample_rate is None && self.bit_depth is None && self.file_layout is None
    }

    /// The data of which nothing is known.
    pub fn absent() -> (data: Self)
        ensures
            data == no_codec_data(),
            data.is_absent(),
    {
        SoundFileCodecData { sample_rate: None, bit_depth: None, file_layout: None }
    }
}

} // verus!
