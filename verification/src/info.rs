use vstd::prelude::*;

use crate::error::HelperError;
use crate::error::HelperErrorView;
use crate::formats::AudioFormat;
use crate::formats::AudioFormatView;
use crate::formats::RawFormat;
use crate::formats::RawFormatView;
use crate::formats::VideoFormat;
use crate::formats::VideoFormatView;
use crate::formats::audio_formats_of;
use crate::formats::classify_formats;
use crate::formats::format_consistent;
use crate::formats::formats_consistent;
use crate::formats::video_formats_of;

verus! {

/// The raw metadata document a successful helper run describes: top-level
/// fields plus the ordered list of format descriptors.
pub struct VideoInfo {
    pub title: String,
    /// Duration in whole seconds.
    pub duration: u64,
    /// URL of the thumbnail image.
    pub thumbnail: String,
    pub formats: Vec<RawFormat>,
}

/// The normalized metadata handed to the caller: the top-level fields
/// unchanged, and the format list split into video and audio lists.
pub struct NormalizedVideoInfo {
    pub title: String,
    pub duration: u64,
    pub thumbnail: String,
    pub video_formats: Vec<VideoFormat>,
    pub audio_formats: Vec<AudioFormat>,
}

/// Mathematical image of a `VideoInfo`.
pub ghost struct VideoInfoView {
    pub title: Seq<char>,
    pub duration: u64,
    pub thumbnail: Seq<char>,
    pub formats: Seq<RawFormatView>,
}

/// Mathematical image of a `NormalizedVideoInfo`.
pub ghost struct NormalizedVideoInfoView {
    pub title: Seq<char>,
    pub duration: u64,
    pub thumbnail: Seq<char>,
    pub video_formats: Seq<VideoFormatView>,
    pub audio_formats: Seq<AudioFormatView>,
}

impl View for VideoInfo {
    type V = VideoInfoView;

    open spec fn view(&self) -> VideoInfoView {
        VideoInfoView {
            title: self.title@,
            duration: self.duration,
            thumbnail: self.thumbnail@,
            formats: self.formats.deep_view(),
        }
    }
}

impl DeepView for VideoInfo {
    type V = VideoInfoView;

    open spec fn deep_view(&self) -> VideoInfoView {
        self.view()
    }
}

impl View for NormalizedVideoInfo {
    type V = NormalizedVideoInfoView;

    open spec fn view(&self) -> NormalizedVideoInfoView {
        NormalizedVideoInfoView {
            title: self.title@,
            duration: self.duration,
            thumbnail: self.thumbnail@,
            video_formats: self.video_formats.deep_view(),
            audio_formats: self.audio_formats.deep_view(),
        }
    }
}

impl DeepView for NormalizedVideoInfo {
    type V = NormalizedVideoInfoView;

    open spec fn deep_view(&self) -> NormalizedVideoInfoView {
        self.view()
    }
}

/// The normalized document owed for a raw one whose format list honours the
/// data contract.
pub open spec fn normalized_of(v: VideoInfoView) -> NormalizedVideoInfoView {
    NormalizedVideoInfoView {
        title: v.title,
        duration: v.duration,
        thumbnail: v.thumbnail,
        video_formats: video_formats_of(v.formats),
        audio_formats: audio_formats_of(v.formats),
    }
}

/// Normalize a raw metadata document: copy title, duration and thumbnail
/// unchanged and partition the format list.
///
/// Succeeds exactly when every format descriptor honours the data contract;
/// otherwise fails with `ContractViolation` naming the first descriptor that
/// claims a video stream without a frame rate.
pub fn parse_video_info(video_info: VideoInfo) -> (r: Result<NormalizedVideoInfo, HelperError>)
    ensures
        r is Ok <==> formats_consistent(video_info@.formats),
        r is Ok ==> r->Ok_0@ == normalized_of(video_info@),
        r is Err ==> exists|i: int|
            0 <= i < video_info@.formats.len() && !format_consistent(
                #[trigger] video_info@.formats[i],
            ) && (forall|j: int|
                0 <= j < i ==> format_consistent(#[trigger] video_info@.formats[j])) && r->Err_0@
                == (HelperErrorView::ContractViolation {
                format_id: video_info@.formats[i].format_id,
            }),
{
    let (video_formats, audio_formats) = match classify_formats(&video_info.formats) {
        Ok(lists) => lists,
        Err(e) => {
            return Err(e);
        },
    };
    Ok(
        NormalizedVideoInfo {
            title: video_info.title,
            duration: video_info.duration,
            thumbnail: video_info.thumbnail,
            video_formats,
            audio_formats,
        },
    )
}

/// Interpret the decode step that follows a successful helper run: a decoder
/// failure message becomes `DecodeFailure`, a decoded document is normalized.
///
/// Succeeds exactly when a document was decoded and its format list honours
/// the data contract.
pub fn decode_info(parsed: Result<VideoInfo, String>) -> (r: Result<
    NormalizedVideoInfo,
    HelperError,
>)
    ensures
        parsed is Err ==> r == Result::<NormalizedVideoInfo, HelperError>::Err(
            HelperError::DecodeFailure { cause: parsed->Err_0 },
        ),
        parsed is Ok ==> (r is Ok <==> formats_consistent(parsed->Ok_0@.formats)),
        parsed is Ok && r is Ok ==> r->Ok_0@ == normalized_of(parsed->Ok_0@),
        parsed is Ok && r is Err ==> exists|i: int|
            0 <= i < parsed->Ok_0@.formats.len() && !format_consistent(
                #[trigger] parsed->Ok_0@.formats[i],
            ) && (forall|j: int|
                0 <= j < i ==> format_consistent(#[trigger] parsed->Ok_0@.formats[j]))
                && r->Err_0@ == (HelperErrorView::ContractViolation {
                format_id: parsed->Ok_0@.formats[i].format_id,
            }),
{
    match parsed {
        Ok(video_info) => parse_video_info(video_info),
        Err(cause) => Err(HelperError::DecodeFailure { cause }),
    }
}

} // verus!
