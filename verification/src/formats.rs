use vstd::prelude::*;

use crate::error::HelperError;
use crate::error::HelperErrorView;

verus! {

/// One raw format descriptor from the helper's metadata document.
///
/// A present `resolution` means the stream carries video.  Bitrate and frame
/// rate are floating-point values in the helper's document; the classifier
/// never computes with them, only tests their presence and carries them
/// through, so they are held here as the raw bit pattern of the reported
/// value (the shell converts at the boundary).
pub struct RawFormat {
    /// Identifier of the stream variant, as the helper reports it.
    pub format_id: String,
    /// Vertical resolution; present exactly when the stream carries video.
    pub resolution: Option<u32>,
    /// Total bitrate, as the bit pattern of the reported value.
    pub tbr: Option<u32>,
    /// Frame rate, as the bit pattern of the reported value.
    pub fps: Option<u32>,
    /// File extension / container name.
    pub ext: String,
}

/// A format descriptor that carries video: resolution and frame rate are
/// unwrapped, so a value of this type can only come from a `RawFormat` whose
/// `resolution` and `fps` were both present.
pub struct VideoFormat {
    pub format_id: String,
    pub resolution: u32,
    pub tbr: Option<u32>,
    pub fps: u32,
    pub ext: String,
}

/// An audio-only format descriptor: no resolution and no frame-rate field at
/// all, only the identifier, the optional bitrate and the container.
pub struct AudioFormat {
    pub format_id: String,
    pub tbr: Option<u32>,
    pub ext: String,
}

/// Mathematical image of a `RawFormat`.
pub ghost struct RawFormatView {
    pub format_id: Seq<char>,
    pub resolution: Option<u32>,
    pub tbr: Option<u32>,
    pub fps: Option<u32>,
    pub ext: Seq<char>,
}

/// Mathematical image of a `VideoFormat`.
pub ghost struct VideoFormatView {
    pub format_id: Seq<char>,
    pub resolution: u32,
    pub tbr: Option<u32>,
    pub fps: u32,
    pub ext: Seq<char>,
}

/// Mathematical image of an `AudioFormat`.
pub ghost struct AudioFormatView {
    pub format_id: Seq<char>,
    pub tbr: Option<u32>,
    pub ext: Seq<char>,
}

impl View for RawFormat {
    type V = RawFormatView;

    open spec fn view(&self) -> RawFormatView {
        RawFormatView {
            format_id: self.format_id@,
            resolution: self.resolution,
            tbr: self.tbr,
            fps: self.fps,
            ext: self.ext@,
        }
    }
}

impl DeepView for RawFormat {
    type V = RawFormatView;

    open spec fn deep_view(&self) -> RawFormatView {
        self.view()
    }
}

impl View for VideoFormat {
    type V = VideoFormatView;

    open spec fn view(&self) -> VideoFormatView {
        VideoFormatView {
            format_id: self.format_id@,
            resolution: self.resolution,
            tbr: self.tbr,
            fps: self.fps,
            ext: self.ext@,
        }
    }
}

impl DeepView for VideoFormat {
    type V = VideoFormatView;

    open spec fn deep_view(&self) -> VideoFormatView {
        self.view()
    }
}

impl View for AudioFormat {
    type V = AudioFormatView;

    open spec fn view(&self) -> AudioFormatView {
        AudioFormatView {
            format_id: self.format_id@,
            tbr: self.tbr,
            ext: self.ext@,
        }
    }
}

impl DeepView for AudioFormat {
    type V = AudioFormatView;

    open spec fn deep_view(&self) -> AudioFormatView {
        self.view()
    }
}

/// A descriptor is classified as video exactly when its resolution is present.
pub open spec fn is_video_format(f: RawFormatView) -> bool {
    f.resolution is Some
}

/// A descriptor honours the helper's data contract: whenever it claims a
/// video stream it also reports a frame rate.
pub open spec fn format_consistent(f: RawFormatView) -> bool {
    is_video_format(f) ==> f.fps is Some
}

/// Every descriptor of the list honours the data contract.
pub open spec fn formats_consistent(s: Seq<RawFormatView>) -> bool {
    forall|i: int| 0 <= i < s.len() ==> format_consistent(#[trigger] s[i])
}

/// The video-list entry built from a video-capable descriptor: resolution and
/// frame rate unwrapped, everything else carried through unchanged.
pub open spec fn video_of(f: RawFormatView) -> VideoFormatView
    recommends
        is_video_format(f),
        f.fps is Some,
{
    VideoFormatView {
        format_id: f.format_id,
        resolution: f.resolution->0,
        tbr: f.tbr,
        fps: f.fps->0,
        ext: f.ext,
    }
}

/// The audio-list entry built from a descriptor: resolution and frame rate
/// dropped, everything else carried through unchanged.
pub open spec fn audio_of(f: RawFormatView) -> AudioFormatView {
    AudioFormatView { format_id: f.format_id, tbr: f.tbr, ext: f.ext }
}

/// The video list the classifier owes: the video-capable descriptors, in
/// input order, each reshaped by `video_of`.
pub open spec fn video_formats_of(s: Seq<RawFormatView>) -> Seq<VideoFormatView>
    decreases s.len(),
{
    if s.len() == 0 {
        Seq::empty()
    } else if is_video_format(s.last()) {
        video_formats_of(s.drop_last()).push(video_of(s.last()))
    } else {
        video_formats_of(s.drop_last())
    }
}

/// The audio list the classifier owes: the audio-only descriptors, in input
/// order, each reshaped by `audio_of`.
pub open spec fn audio_formats_of(s: Seq<RawFormatView>) -> Seq<AudioFormatView>
    decreases s.len(),
{
    if s.len() == 0 {
        Seq::empty()
    } else if is_video_format(s.last()) {
        audio_formats_of(s.drop_last())
    } else {
        audio_formats_of(s.drop_last()).push(audio_of(s.last()))
    }
}

/// The format identifiers of a raw list, in order.
pub open spec fn raw_format_ids(s: Seq<RawFormatView>) -> Seq<Seq<char>> {
    s.map_values(|f: RawFormatView| f.format_id)
}

/// The format identifiers of a video list, in order.
pub open spec fn video_format_ids(s: Seq<VideoFormatView>) -> Seq<Seq<char>> {
    s.map_values(|f: VideoFormatView| f.format_id)
}

/// The format identifiers of an audio list, in order.
pub open spec fn audio_format_ids(s: Seq<AudioFormatView>) -> Seq<Seq<char>> {
    s.map_values(|f: AudioFormatView| f.format_id)
}

/// Classification is a true partition: every descriptor lands in exactly one
/// of the two lists, so the lengths add up, and the identifiers of the video
/// list followed by those of the audio list form the same multiset as the
/// identifiers of the input.
pub proof fn lemma_partition_preserves_ids(s: Seq<RawFormatView>)
    ensures
        video_formats_of(s).len() + audio_formats_of(s).len() == s.len(),
        (video_format_ids(video_formats_of(s)) + audio_format_ids(
            audio_formats_of(s),
        )).to_multiset() == raw_format_ids(s).to_multiset(),
    decreases s.len(),
{
    broadcast use vstd::seq_lib::lemma_multiset_commutative;
    broadcast use vstd::seq_lib::to_multiset_build;
    broadcast use Seq::lemma_push_map_commute;
    broadcast use vstd::multiset::group_multiset_axioms;

    if s.len() == 0 {
        assert(video_formats_of(s) =~= Seq::<VideoFormatView>::empty());
        assert(audio_formats_of(s) =~= Seq::<AudioFormatView>::empty());
        assert(video_format_ids(video_formats_of(s)) + audio_format_ids(audio_formats_of(s))
            =~= raw_format_ids(s));
    } else {
        let t = s.drop_last();
        let x = s.last();
        let id = x.format_id;
        lemma_partition_preserves_ids(t);
        assert(s =~= t.push(x));
        assert(raw_format_ids(t.push(x)) == raw_format_ids(t).push(id));
        let vids = video_format_ids(video_formats_of(t));
        let aids = audio_format_ids(audio_formats_of(t));
        if is_video_format(x) {
            assert(video_format_ids(video_formats_of(t).push(video_of(x))) == vids.push(id));
            assert((vids.push(id) + aids).to_multiset() =~= (vids + aids).to_multiset().insert(
                id,
            )) by {
                assert(vids.push(id).to_multiset() == vids.to_multiset().insert(id));
            }
        } else {
            assert(audio_format_ids(audio_formats_of(t).push(audio_of(x))) == aids.push(id));
            assert((vids + aids.push(id)).to_multiset() =~= (vids + aids).to_multiset().insert(
                id,
            )) by {
                assert(aids.push(id).to_multiset() == aids.to_multiset().insert(id));
            }
        }
    }
}

/// A descriptor that reports both a resolution and a frame rate always lands
/// in the video list, with its resolution and frame rate (and everything
/// else) carried through unchanged, as `video_of` spells out field by field.
pub proof fn lemma_video_descriptor_carried(s: Seq<RawFormatView>, i: int)
    requires
        0 <= i < s.len(),
        s[i].resolution is Some,
        s[i].fps is Some,
    ensures
        video_formats_of(s).contains(video_of(s[i])),
    decreases s.len(),
{
    let t = s.drop_last();
    if i == s.len() - 1 {
        let q = video_formats_of(s);
        assert(q.last() == video_of(s[i]));
        assert(q.contains(video_of(s[i])));
    } else {
        lemma_video_descriptor_carried(t, i);
        let j = choose|j: int|
            0 <= j < video_formats_of(t).len() && video_formats_of(t)[j] == video_of(t[i]);
        assert(t[i] == s[i]);
        assert(video_formats_of(s)[j] == video_of(s[i]));
    }
}

/// A descriptor without a resolution always lands in the audio list,
/// whatever its frame rate says, and its entry (see `audio_of`) carries no
/// resolution and no frame rate: `AudioFormatView` has no such fields.
pub proof fn lemma_audio_descriptor_carried(s: Seq<RawFormatView>, i: int)
    requires
        0 <= i < s.len(),
        s[i].resolution is None,
    ensures
        audio_formats_of(s).contains(audio_of(s[i])),
    decreases s.len(),
{
    let t = s.drop_last();
    if i == s.len() - 1 {
        let q = audio_formats_of(s);
        assert(q.last() == audio_of(s[i]));
        assert(q.contains(audio_of(s[i])));
    } else {
        lemma_audio_descriptor_carried(t, i);
        let j = choose|j: int|
            0 <= j < audio_formats_of(t).len() && audio_formats_of(t)[j] == audio_of(t[i]);
        assert(t[i] == s[i]);
        assert(audio_formats_of(s)[j] == audio_of(s[i]));
    }
}

/// An empty input list yields two empty output lists.
pub proof fn lemma_empty_input_empty_lists(s: Seq<RawFormatView>)
    requires
        s.len() == 0,
    ensures
        video_formats_of(s) == Seq::<VideoFormatView>::empty(),
        audio_formats_of(s) == Seq::<AudioFormatView>::empty(),
{
}

/// The partition is stable: the video list is exactly the video-capable
/// descriptors in their original relative order (the input filtered, then
/// reshaped), and the audio list likewise — no reordering by any other key.
pub proof fn lemma_partition_keeps_order(s: Seq<RawFormatView>)
    ensures
        video_formats_of(s) == s.filter(|f: RawFormatView| is_video_format(f)).map_values(
            |f: RawFormatView| video_of(f),
        ),
        audio_formats_of(s) == s.filter(|f: RawFormatView| !is_video_format(f)).map_values(
            |f: RawFormatView| audio_of(f),
        ),
    decreases s.len(),
{
    broadcast use Seq::lemma_push_map_commute;

    reveal(Seq::filter);
    if s.len() == 0 {
        assert(video_formats_of(s) =~= s.filter(|f: RawFormatView| is_video_format(f)).map_values(
            |f: RawFormatView| video_of(f),
        ));
        assert(audio_formats_of(s) =~= s.filter(|f: RawFormatView| !is_video_format(f)).map_values(
            |f: RawFormatView| audio_of(f),
        ));
    } else {
        lemma_partition_keeps_order(s.drop_last());
    }
}

/// Partition a raw format list into its video and audio lists (a stable
/// partition, not a sort).
///
/// Succeeds exactly when every descriptor honours the data contract; a
/// descriptor with a resolution but no frame rate makes the whole call fail
/// with `ContractViolation` naming the first such descriptor.
pub fn classify_formats(formats: &Vec<RawFormat>) -> (r: Result<
    (Vec<VideoFormat>, Vec<AudioFormat>),
    HelperError,
>)
    ensures
        r is Ok <==> formats_consistent(formats.deep_view()),
        r is Ok ==> r->Ok_0.0.deep_view() == video_formats_of(formats.deep_view()),
        r is Ok ==> r->Ok_0.1.deep_view() == audio_formats_of(formats.deep_view()),
        r is Err ==> exists|i: int|
            0 <= i < formats.deep_view().len() && !format_consistent(
                #[trigger] formats.deep_view()[i],
            ) && (forall|j: int| 0 <= j < i ==> format_consistent(#[trigger] formats.deep_view()[j]))
                && r->Err_0@ == (HelperErrorView::ContractViolation {
                format_id: formats.deep_view()[i].format_id,
            }),
{
    let ghost s = formats.deep_view();
    let mut video_formats: Vec<VideoFormat> = Vec::new();
    let mut audio_formats: Vec<AudioFormat> = Vec::new();
    let mut i: usize = 0;
    while i < formats.len()
        invariant
            0 <= i <= formats.len(),
            s == formats.deep_view(),
            s.len() == formats.len(),
            forall|j: int| 0 <= j < i ==> format_consistent(#[trigger] s[j]),
            video_formats.deep_view() == video_formats_of(s.take(i as int)),
            audio_formats.deep_view() == audio_formats_of(s.take(i as int)),
        decreases formats.len() - i,
    {
        let f = &formats[i];
        assert(f@ == s[i as int]);
        assert(s.take(i as int + 1).drop_last() =~= s.take(i as int));
        assert(s.take(i as int + 1).last() == s[i as int]);
        match f.resolution {
            Some(res) => {
                let fps = match f.fps {
                    Some(fps) => fps,
                    None => {
                        return Err(HelperError::ContractViolation {
                            format_id: f.format_id.clone(),
                        });
                    },
                };
                let ghost old_dv = video_formats.deep_view();
                video_formats.push(VideoFormat {
                    format_id: f.format_id.clone(),
                    resolution: res,
                    tbr: f.tbr,
                    fps,
                    ext: f.ext.clone(),
                });
                assert(video_formats.deep_view() =~= old_dv.push(video_of(s[i as int])));
            },
            None => {
                let ghost old_dv = audio_formats.deep_view();
                audio_formats.push(AudioFormat {
                    format_id: f.format_id.clone(),
                    tbr: f.tbr,
                    ext: f.ext.clone(),
                });
                assert(audio_formats.deep_view() =~= old_dv.push(audio_of(s[i as int])));
            },
        }
        i = i + 1;
    }
    assert(s.take(i as int) =~= s);
    Ok((video_formats, audio_formats))
}

} // verus!
