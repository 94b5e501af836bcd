//! Video sources and the chains of processing stages built for them.

use vstd::prelude::*;

verus! {

/// The kind of source a video player decodes.
#[derive(Debug, PartialEq, Eq)]
pub enum VideoType {
    NoSource,
    RtpStream { port: i32 },
    RtpRawStream { port: i32 },
    Decodebin { uri: String, v3_enabled: bool },
    H264File { uri: String },
    VP8File { uri: String },
    VP9File { uri: String },
}

/// `s` begins with `p`.
pub open spec fn has_prefix(s: Seq<char>, p: Seq<char>) -> bool {
    p.len() <= s.len() && s.subrange(0, p.len() as int) == p
}

/// Whether `s` begins with `p`, compared character by character.
pub fn starts_with(s: &str, p: &str) -> (r: bool)
    ensures
        r == has_prefix(s@, p@),
{
    let n = s.unicode_len();
    let m = p.unicode_len();
    if m > n {
        return false;
    }
    let mut i: usize = 0;
    while i < m
        invariant
            m == p@.len(),
            n == s@.len(),
            m <= n,
            i <= m,
            forall|j: int| 0 <= j < i ==> s@[j] == p@[j],
        decreases m - i,
    {
        if s.get_char(i) != p.get_char(i) {
            assert(s@.subrange(0, m as int)[i as int] != p@[i as int]);
            return false;
        }
        i = i + 1;
    }
    assert(s@.subrange(0, m as int) =~= p@);
    true
}


/// Pixel layout asked of a video sink.
#[derive(Debug, Clone, Copy, PartialEq, Eq)]
pub enum VideoFormat {
    Rgbx,
    Rgba,
}

/// Capabilities announced for an RTP network source.
#[derive(Debug, Clone, Copy, PartialEq, Eq)]
pub enum RtpCaps {
    /// H.264 payload (payload type 96).
    H264,
    /// Uncompressed YCbCr 4:2:0 frames of the given size.
    Raw { width: i32, height: i32 },
}

/// One processing stage of a pipeline, with the settings it is built with.
#[derive(Debug, PartialEq, Eq)]
pub enum Element {
    UdpSrc { port: i32, caps: RtpCaps, buffer_size: Option<i32> },
    RtpH264Depay,
    RtpVRawDepay,
    H264Parse,
    AvDecH264,
    OpenH264Dec,
    Vp8Dec,
    Faad,
    VorbisDec,
    VideoRate,
    VideoConvert,
    VideoScale,
    AudioConvert,
    AudioResample,
    Queue,
    FileSrc { location: String },
    UriDecodeBin { uri: String, v3: bool },
    DecodeBin { v3: bool },
    QtDemux,
    MatroskaDemux,
    /// Three-band equalizer; gains in decibels.
    Equalizer3Bands { band1_db: i32, band2_db: i32 },
    /// Application sink handing out video frames of the given format and size.
    VideoSink { format: VideoFormat, width: i32, height: i32 },
    /// Application sink handing out interleaved mono 32-bit float samples.
    AudioSink,
    PlayBin { uri: String, v3: bool },
}

/// Name of the element factory that builds `e`.
pub open spec fn factory_name_of(e: Element) -> Seq<char> {
    match e {
        Element::UdpSrc { .. } => "udpsrc"@,
        Element::RtpH264Depay => "rtph264depay"@,
        Element::RtpVRawDepay => "rtpvrawdepay"@,
        Element::H264Parse => "h264parse"@,
        Element::AvDecH264 => "avdec_h264"@,
        Element::OpenH264Dec => "openh264dec"@,
        Element::Vp8Dec => "vp8dec"@,
        Element::Faad => "faad"@,
        Element::VorbisDec => "vorbisdec"@,
        Element::VideoRate => "videorate"@,
        Element::VideoConvert => "videoconvert"@,
        Element::VideoScale => "videoscale"@,
        Element::AudioConvert => "audioconvert"@,
        Element::AudioResample => "audioresample"@,
        Element::Queue => "queue"@,
        Element::FileSrc { .. } => "filesrc"@,
        Element::UriDecodeBin { v3, .. } => if v3 {
            "uridecodebin3"@
        } else {
            "uridecodebin"@
        },
        Element::DecodeBin { v3 } => if v3 {
            "decodebin3"@
        } else {
            "decodebin"@
        },
        Element::QtDemux => "qtdemux"@,
        Element::MatroskaDemux => "matroskademux"@,
        Element::Equalizer3Bands { .. } => "equalizer-3bands"@,
        Element::VideoSink { .. } => "appsink"@,
        Element::AudioSink => "appsink"@,
        Element::PlayBin { v3, .. } => if v3 {
            "playbin3"@
        } else {
            "playbin"@
        },
    }
}

impl Element {
    /// Name of the element factory that builds this stage.
    pub fn factory_name(&self) -> (r: &'static str)
        ensures
            r@ == factory_name_of(*self),
    {
        match self {
            Element::UdpSrc { .. } => "udpsrc",
            Element::RtpH264Depay => "rtph264depay",
            Element::RtpVRawDepay => "rtpvrawdepay",
            Element::H264Parse => "h264parse",
            Element::AvDecH264 => "avdec_h264",
            Element::OpenH264Dec => "openh264dec",
            Element::Vp8Dec => "vp8dec",
            Element::Faad => "faad",
            Element::VorbisDec => "vorbisdec",
            Element::VideoRate => "videorate",
            Element::VideoConvert => "videoconvert",
            Element::VideoScale => "videoscale",
            Element::AudioConvert => "audioconvert",
            Element::AudioResample => "audioresample",
            Element::Queue => "queue",
            Element::FileSrc { .. } => "filesrc",
            Element::UriDecodeBin { v3, .. } => if *v3 {
                "uridecodebin3"
            } else {
                "uridecodebin"
            },
            Element::DecodeBin { v3 } => if *v3 {
                "decodebin3"
            } else {
                "decodebin"
            },
            Element::QtDemux => "qtdemux",
            Element::MatroskaDemux => "matroskademux",
            Element::Equalizer3Bands { .. } => "equalizer-3bands",
            Element::VideoSink { .. } => "appsink",
            Element::AudioSink => "appsink",
            Element::PlayBin { v3, .. } => if *v3 {
                "playbin3"
            } else {
                "playbin"
            },
        }
    }
}

/// The stages attached to each new output of a demuxer or decoder, by the
/// kind of stream that output carries.
pub struct Branches {
    pub audio: Vec<Element>,
    pub video: Vec<Element>,
}

pub struct BranchesView {
    pub audio: Seq<Element>,
    pub video: Seq<Element>,
}

impl View for Branches {
    type V = BranchesView;

    open spec fn view(&self) -> BranchesView {
        BranchesView { audio: self.audio@, video: self.video@ }
    }
}

/// A pipeline to build: the head chain is added and linked in order; where
/// `branches` is present its chains are attached to the outputs that the
/// last head stage opens while playing.
pub struct PipelinePlan {
    pub head: Vec<Element>,
    /// Bring each head stage to the pipeline's state once linked.
    pub sync_head: bool,
    pub branches: Option<Branches>,
}

pub struct PlanView {
    pub head: Seq<Element>,
    pub sync_head: bool,
    pub branches: Option<BranchesView>,
}

impl View for PipelinePlan {
    type V = PlanView;

    open spec fn view(&self) -> PlanView {
        PlanView {
            head: self.head@,
            sync_head: self.sync_head,
            branches: match self.branches {
                Some(b) => Some(b@),
                None => None,
            },
        }
    }
}

/// Frames are scaled to the player's size and handed out as RGBx.
pub open spec fn frame_sink(width: i32, height: i32) -> Element {
    Element::VideoSink { format: VideoFormat::Rgbx, width, height }
}

/// A URI that a URI decoder opens itself; anything else is read as a local path.
pub open spec fn is_decoder_uri(uri: Seq<char>) -> bool {
    has_prefix(uri, "file:"@) || has_prefix(uri, "https://"@)
}

/// The chains attached to a decoder's outputs: audio goes through `audio_decoder`
/// (where the stream still needs one) before conversion, video through
/// `video_decoder` stages before conversion and scaling.
pub open spec fn branches_of(
    audio_decoder: Seq<Element>,
    video_decoder: Seq<Element>,
    width: i32,
    height: i32,
) -> BranchesView {
    BranchesView {
        audio: seq![Element::Queue] + audio_decoder + seq![
            Element::AudioConvert,
            Element::AudioResample,
            Element::AudioSink,
        ],
        video: seq![Element::Queue] + video_decoder + seq![
            Element::VideoConvert,
            Element::VideoScale,
            frame_sink(width, height),
        ],
    }
}

/// The pipeline built for a source of type `t` shown at `width` x `height`;
/// `None` for the types that have no pipeline.
pub open spec fn plan_of(t: VideoType, width: i32, height: i32) -> Option<PlanView> {
    match t {
        VideoType::RtpStream { port } => Some(
            PlanView {
                head: seq![
                    Element::UdpSrc { port, caps: RtpCaps::H264, buffer_size: None },
                    Element::RtpH264Depay,
                    Element::H264Parse,
                    Element::AvDecH264,
                    Element::VideoConvert,
                    Element::VideoScale,
                    frame_sink(width, height),
                ],
                sync_head: true,
                branches: None,
            },
        ),
        VideoType::RtpRawStream { port } => Some(
            PlanView {
                head: seq![
                    Element::UdpSrc {
                        port,
                        caps: RtpCaps::Raw { width, height },
                        buffer_size: Some(200000),
                    },
                    Element::RtpVRawDepay,
                    Element::VideoRate,
                    frame_sink(width, height),
                ],
                sync_head: true,
                branches: None,
            },
        ),
        VideoType::Decodebin { uri, v3_enabled } => Some(
            PlanView {
                head: if is_decoder_uri(uri@) {
                    seq![Element::UriDecodeBin { uri, v3: v3_enabled }]
                } else {
                    seq![Element::FileSrc { location: uri }, Element::DecodeBin { v3: v3_enabled }]
                },
                sync_head: false,
                branches: Some(branches_of(seq![], seq![], width, height)),
            },
        ),
        VideoType::H264File { uri } => Some(
            PlanView {
                head: seq![Element::FileSrc { location: uri }, Element::QtDemux],
                sync_head: false,
                branches: Some(
                    branches_of(
                        seq![Element::Faad],
                        seq![Element::H264Parse, Element::OpenH264Dec],
                        width,
                        height,
                    ),
                ),
            },
        ),
        VideoType::VP8File { uri } => Some(
            PlanView {
                head: seq![Element::FileSrc { location: uri }, Element::MatroskaDemux],
                sync_head: false,
                branches: Some(
                    branches_of(seq![Element::VorbisDec], seq![Element::Vp8Dec], width, height),
                ),
            },
        ),
        _ => None,
    }
}

fn rtp_plan(port: i32, width: i32, height: i32) -> (r: PipelinePlan)
    ensures
        Some(r@) == plan_of(VideoType::RtpStream { port }, width, height),
{
    let r = PipelinePlan {
        head: vec![
            Element::UdpSrc { port, caps: RtpCaps::H264, buffer_size: None },
            Element::RtpH264Depay,
            Element::H264Parse,
            Element::AvDecH264,
            Element::VideoConvert,
            Element::VideoScale,
            Element::VideoSink { format: VideoFormat::Rgbx, width, height },
        ],
        sync_head: true,
        branches: None,
    };
    assert(r@.head =~= plan_of(VideoType::RtpStream { port }, width, height)->0.head);
    r
}

fn rtp_raw_plan(port: i32, width: i32, height: i32) -> (r: PipelinePlan)
    ensures
        Some(r@) == plan_of(VideoType::RtpRawStream { port }, width, height),
{
    let r = PipelinePlan {
        head: vec![
            Element::UdpSrc {
                port,
                caps: RtpCaps::Raw { width, height },
                buffer_size: Some(200000),
            },
            Element::RtpVRawDepay,
            Element::VideoRate,
            Element::VideoSink { format: VideoFormat::Rgbx, width, height },
        ],
        sync_head: true,
        branches: None,
    };
    assert(r@.head =~= plan_of(VideoType::RtpRawStream { port }, width, height)->0.head);
    r
}

fn decoder_branches(audio_decoder: Vec<Element>, video_decoder: Vec<Element>, width: i32, height: i32) -> (r: Branches)
    ensures
        r@ == branches_of(audio_decoder@, video_decoder@, width, height),
{
    let ghost want = branches_of(audio_decoder@, video_decoder@, width, height);
    let mut audio_decoder = audio_decoder;
    let mut video_decoder = video_decoder;
    let mut audio = vec![Element::Queue];
    audio.append(&mut audio_decoder);
    audio.push(Element::AudioConvert);
    audio.push(Element::AudioResample);
    audio.push(Element::AudioSink);
    let mut video = vec![Element::Queue];
    video.append(&mut video_decoder);
    video.push(Element::VideoConvert);
    video.push(Element::VideoScale);
    video.push(Element::VideoSink { format: VideoFormat::Rgbx, width, height });
    let r = Branches { audio, video };
    assert(r@.audio =~= want.audio);
    assert(r@.video =~= want.video);
    r
}

fn decodebin_plan(uri: &String, v3_enabled: bool, width: i32, height: i32) -> (r: PipelinePlan)
    ensures
        Some(r@) == plan_of(VideoType::Decodebin { uri: *uri, v3_enabled }, width, height),
{
    let ghost want = plan_of(VideoType::Decodebin { uri: *uri, v3_enabled }, width, height)->0;
    let head = if starts_with(uri.as_str(), "file:") || starts_with(uri.as_str(), "https://") {
        vec![Element::UriDecodeBin { uri: uri.clone(), v3: v3_enabled }]
    } else {
        vec![Element::FileSrc { location: uri.clone() }, Element::DecodeBin { v3: v3_enabled }]
    };
    assert(head@ =~= want.head);
    let branches = decoder_branches(vec![], vec![], width, height);
    assert(branches@.audio =~= want.branches->0.audio);
    assert(branches@.video =~= want.branches->0.video);
    PipelinePlan { head, sync_head: false, branches: Some(branches) }
}

fn h264_file_plan(uri: &String, width: i32, height: i32) -> (r: PipelinePlan)
    ensures
        Some(r@) == plan_of(VideoType::H264File { uri: *uri }, width, height),
{
    let ghost want = plan_of(VideoType::H264File { uri: *uri }, width, height)->0;
    let head = vec![Element::FileSrc { location: uri.clone() }, Element::QtDemux];
    assert(head@ =~= want.head);
    let branches = decoder_branches(
        vec![Element::Faad],
        vec![Element::H264Parse, Element::OpenH264Dec],
        width,
        height,
    );
    assert(branches@.audio =~= want.branches->0.audio);
    assert(branches@.video =~= want.branches->0.video);
    PipelinePlan { head, sync_head: false, branches: Some(branches) }
}

fn vp8_file_plan(uri: &String, width: i32, height: i32) -> (r: PipelinePlan)
    ensures
        Some(r@) == plan_of(VideoType::VP8File { uri: *uri }, width, height),
{
    let ghost want = plan_of(VideoType::VP8File { uri: *uri }, width, height)->0;
    let head = vec![Element::FileSrc { location: uri.clone() }, Element::MatroskaDemux];
    assert(head@ =~= want.head);
    let branches = decoder_branches(vec![Element::VorbisDec], vec![Element::Vp8Dec], width, height);
    assert(branches@.audio =~= want.branches->0.audio);
    assert(branches@.video =~= want.branches->0.video);
    PipelinePlan { head, sync_head: false, branches: Some(branches) }
}

/// Builds the pipeline plan for a source of type `t` shown at `width` x
/// `height`; `None` for the types that have no pipeline (`NoSource`, `VP9File`).
pub fn plan_for(t: &VideoType, width: i32, height: i32) -> (r: Option<PipelinePlan>)
    ensures
        r is None <==> plan_of(*t, width, height) is None,
        r matches Some(p) ==> Some(p@) == plan_of(*t, width, height),
{
    match t {
        VideoType::RtpStream { port } => Some(rtp_plan(*port, width, height)),
        VideoType::RtpRawStream { port } => Some(rtp_raw_plan(*port, width, height)),
        VideoType::Decodebin { uri, v3_enabled } => Some(
            decodebin_plan(uri, *v3_enabled, width, height),
        ),
        VideoType::H264File { uri } => Some(h264_file_plan(uri, width, height)),
        VideoType::VP8File { uri } => Some(vp8_file_plan(uri, width, height)),
        VideoType::NoSource => None,
        VideoType::VP9File { .. } => None,
    }
}

/// The kind of stream that a new decoder output carries, read from the
/// media type name of its capabilities.
#[derive(Debug, Clone, Copy, PartialEq, Eq)]
pub enum MediaKind {
    Audio,
    Video,
    Other,
}

pub open spec fn media_kind_of(caps_name: Seq<char>) -> MediaKind {
    if has_prefix(caps_name, "audio/"@) {
        MediaKind::Audio
    } else if has_prefix(caps_name, "video/"@) {
        MediaKind::Video
    } else {
        MediaKind::Other
    }
}

/// Classifies a stream by its media type name (`audio/...`, `video/...`).
pub fn media_kind(caps_name: &str) -> (r: MediaKind)
    ensures
        r == media_kind_of(caps_name@),
{
    if starts_with(caps_name, "audio/") {
        MediaKind::Audio
    } else if starts_with(caps_name, "video/") {
        MediaKind::Video
    } else {
        MediaKind::Other
    }
}

impl Branches {
    /// The chain to attach to an output carrying `kind`; none for streams
    /// that are neither audio nor video.
    pub fn chain_for(&self, kind: MediaKind) -> (r: Option<&Vec<Element>>)
        ensures
            kind == MediaKind::Audio ==> (r matches Some(c) && c@ == self.audio@),
            kind == MediaKind::Video ==> (r matches Some(c) && c@ == self.video@),
            kind == MediaKind::Other ==> r is None,
    {
        match kind {
            MediaKind::Audio => Some(&self.audio),
            MediaKind::Video => Some(&self.video),
            MediaKind::Other => None,
        }
    }
}

/// A playbin that decodes `uri` itself, with a bin of its own for each of
/// the audio and video outputs.
pub struct PlaybinPlan {
    pub playbin: Element,
    pub audio_bin: Vec<Element>,
    pub video_bin: Vec<Element>,
}

pub struct PlaybinView {
    pub playbin: Element,
    pub audio_bin: Seq<Element>,
    pub video_bin: Seq<Element>,
}

impl View for PlaybinPlan {
    type V = PlaybinView;

    open spec fn view(&self) -> PlaybinView {
        PlaybinView { playbin: self.playbin, audio_bin: self.audio_bin@, video_bin: self.video_bin@ }
    }
}

/// Gain, in decibels, applied to the two upper equalizer bands of the playbin's audio.
pub const EQUALIZER_CUT_DB: i32 = -24;

/// The playbin for `uri`: audio is equalized, converted and resampled into
/// a sample sink; video is converted and scaled to `width` x `height` RGBA.
pub open spec fn playbin_plan_of(uri: String, v3_enabled: bool, width: i32, height: i32) -> PlaybinView {
    PlaybinView {
        playbin: Element::PlayBin { uri, v3: v3_enabled },
        audio_bin: seq![
            Element::Equalizer3Bands { band1_db: EQUALIZER_CUT_DB, band2_db: EQUALIZER_CUT_DB },
            Element::AudioConvert,
            Element::AudioResample,
            Element::AudioSink,
        ],
        video_bin: seq![
            Element::VideoConvert,
            Element::VideoScale,
            Element::VideoSink { format: VideoFormat::Rgba, width, height },
        ],
    }
}

/// Builds the playbin plan for `uri`.
pub fn playbin_plan(uri: &String, v3_enabled: bool, width: i32, height: i32) -> (r: PlaybinPlan)
    ensures
        r@ == playbin_plan_of(*uri, v3_enabled, width, height),
{
    let r = PlaybinPlan {
        playbin: Element::PlayBin { uri: uri.clone(), v3: v3_enabled },
        audio_bin: vec![
            Element::Equalizer3Bands { band1_db: EQUALIZER_CUT_DB, band2_db: EQUALIZER_CUT_DB },
            Element::AudioConvert,
            Element::AudioResample,
            Element::AudioSink,
        ],
        video_bin: vec![
            Element::VideoConvert,
            Element::VideoScale,
            Element::VideoSink { format: VideoFormat::Rgba, width, height },
        ],
    };
    let ghost want = playbin_plan_of(*uri, v3_enabled, width, height);
    assert(r@.audio_bin =~= want.audio_bin);
    assert(r@.video_bin =~= want.video_bin);
    r
}

} // verus!
