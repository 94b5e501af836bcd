//! The demo's control panel: which players its toggles add and remove,
//! what each one plays and where its screen stands.

use vstd::prelude::*;
use vstd::string::*;
use crate::media::VideoType;
use crate::video1::{video1_fresh, Video1, DEFAULT_HEIGHT, DEFAULT_WIDTH};
use crate::video2::{video2_defaults, Video2};

verus! {

/// The sky shown behind the scene.
#[derive(Debug, Clone, Copy, PartialEq, Eq, Structural)]
pub enum Sky {
    /// A generated gradient from black through blues to white.
    BlueLight,
    /// The sky the engine started with.
    DefaultLight,
}

/// The panel's toggles.
#[derive(Debug, Clone, Copy, PartialEq, Eq, Structural)]
pub enum Toggle {
    ShowLog,
    Decodebin3,
    RtpStream,
    PlaybinMp4,
    VideoMp4,
    VideoVp8,
    VideoMp4Dec,
    VideoVp8Dec,
    VideoVp8HttpsDec,
}

/// What a look-up of a sample file in the external storage found.
#[derive(Debug)]
pub enum MediaFile {
    /// The platform offers no external storage path.
    NoExternalPath,
    /// The file is not there.
    Missing,
    /// The file is there, at `path`.
    Found { path: String },
}

/// Where a player's screen stands, in centimetres.
#[derive(Debug, Clone, Copy, PartialEq, Eq, Structural)]
pub struct Placement {
    pub x_cm: i32,
    pub y_cm: i32,
    pub z_cm: i32,
}

/// What the panel asks of the scene after a toggle changed.
#[derive(Debug)]
pub enum PanelRequest {
    Nothing,
    /// Show or hide the log window.
    ShowLogWindow { shown: bool },
    /// Add a stepper named `name` playing `video`.
    AddVideo1 { name: String, video: Video1, placement: Placement },
    /// Add a stepper named `name` playing `video`.
    AddVideo2 { name: String, player: Video2, placement: Placement },
    /// Remove the stepper named `name`.
    Remove { name: String },
}

/// State of the panel's widgets.
#[derive(Debug, Clone, Copy, PartialEq, Eq, Structural)]
pub struct Panel {
    pub sky: Sky,
    pub show_log: bool,
    /// Whether the log window was last asked to be shown.
    pub log_window_shown: bool,
    /// Decoders use their third generation.
    pub v3_enabled: bool,
    pub rtp_stream: bool,
    pub playbin_mp4: bool,
    pub video_mp4: bool,
    pub video_vp8: bool,
    pub video_mp4_dec: bool,
    pub video_vp8_dec: bool,
    pub video_vp8_https_dec: bool,
}

/// Port the RTP stream is received on.
pub const RTP_PORT: i32 = 5000;

pub open spec fn initial_panel() -> Panel {
    Panel {
        sky: Sky::BlueLight,
        show_log: false,
        log_window_shown: false,
        v3_enabled: false,
        rtp_stream: false,
        playbin_mp4: false,
        video_mp4: false,
        video_vp8: false,
        video_mp4_dec: false,
        video_vp8_dec: false,
        video_vp8_https_dec: false,
    }
}

pub open spec fn flag_of(p: Panel, t: Toggle) -> bool {
    match t {
        Toggle::ShowLog => p.show_log,
        Toggle::Decodebin3 => p.v3_enabled,
        Toggle::RtpStream => p.rtp_stream,
        Toggle::PlaybinMp4 => p.playbin_mp4,
        Toggle::VideoMp4 => p.video_mp4,
        Toggle::VideoVp8 => p.video_vp8,
        Toggle::VideoMp4Dec => p.video_mp4_dec,
        Toggle::VideoVp8Dec => p.video_vp8_dec,
        Toggle::VideoVp8HttpsDec => p.video_vp8_https_dec,
    }
}

/// `p` with toggle `t` set to `on`.
pub open spec fn with_flag(p: Panel, t: Toggle, on: bool) -> Panel {
    match t {
        Toggle::ShowLog => Panel { show_log: on, log_window_shown: !p.log_window_shown, ..p },
        Toggle::Decodebin3 => Panel { v3_enabled: on, ..p },
        Toggle::RtpStream => Panel { rtp_stream: on, ..p },
        Toggle::PlaybinMp4 => Panel { playbin_mp4: on, ..p },
        Toggle::VideoMp4 => Panel { video_mp4: on, ..p },
        Toggle::VideoVp8 => Panel { video_vp8: on, ..p },
        Toggle::VideoMp4Dec => Panel { video_mp4_dec: on, ..p },
        Toggle::VideoVp8Dec => Panel { video_vp8_dec: on, ..p },
        Toggle::VideoVp8HttpsDec => Panel { video_vp8_https_dec: on, ..p },
    }
}

pub open spec fn with_sky(p: Panel, sky: Sky) -> Panel {
    Panel { sky, ..p }
}

/// The toggle adds and removes a player.
pub open spec fn is_player(t: Toggle) -> bool {
    t != Toggle::ShowLog && t != Toggle::Decodebin3
}

/// The sample file a toggle's player reads, relative to the external storage.
pub open spec fn media_path_of(t: Toggle) -> Option<Seq<char>> {
    match t {
        Toggle::PlaybinMp4 | Toggle::VideoMp4 | Toggle::VideoMp4Dec => Some("videos/test.mp4"@),
        Toggle::VideoVp8 | Toggle::VideoVp8Dec => Some("videos/sintel_trailer-480p.webm"@),
        _ => None,
    }
}

/// The player opens its file through a `file:` URI rather than a path.
pub open spec fn wants_file_uri(t: Toggle) -> bool {
    t == Toggle::PlaybinMp4 || t == Toggle::VideoMp4Dec || t == Toggle::VideoVp8Dec
}

/// The address played by the network toggle.
pub open spec fn remote_uri() -> Seq<char> {
    "https://gstreamer.freedesktop.org/data/media/sintel_trailer-480p.webm"@
}

/// What a toggle's player is given to play, from what the look-up found.
pub open spec fn uri_of(t: Toggle, media: MediaFile) -> Seq<char> {
    if t == Toggle::VideoVp8HttpsDec {
        remote_uri()
    } else {
        match media {
            MediaFile::Found { path } => if wants_file_uri(t) {
                "file:"@ + path@
            } else {
                path@
            },
            MediaFile::Missing => if t == Toggle::VideoVp8 || t == Toggle::VideoVp8Dec {
                "!!!!!!No File"@
            } else {
                "!!!!!!!No File"@
            },
            MediaFile::NoExternalPath => if t == Toggle::PlaybinMp4 || t == Toggle::VideoMp4 {
                "!!!!!!!No external path"@
            } else {
                "!!!!!!No external path"@
            },
        }
    }
}

/// Name of the stepper that plays for toggle `t`.
pub open spec fn stepper_name_of(t: Toggle) -> Seq<char> {
    match t {
        Toggle::RtpStream => "RtpStream1"@,
        Toggle::PlaybinMp4 => "PlaybinH264"@,
        Toggle::VideoMp4 => "VideoH264"@,
        Toggle::VideoVp8 => "Videomkv_vp8"@,
        Toggle::VideoMp4Dec => "VideoH264_dec"@,
        Toggle::VideoVp8Dec => "Videovp8_dec"@,
        Toggle::VideoVp8HttpsDec => "video_VP8_dec"@,
        _ => Seq::empty(),
    }
}

pub open spec fn placement_of(t: Toggle) -> Placement {
    let (x_cm, y_cm) = match t {
        Toggle::RtpStream => (-50i32, 200i32),
        Toggle::PlaybinMp4 | Toggle::VideoMp4 => (-50i32, 80i32),
        Toggle::VideoVp8 => (150i32, 80i32),
        Toggle::VideoMp4Dec => (-50i32, -40i32),
        Toggle::VideoVp8Dec => (150i32, -40i32),
        _ => (350i32, -40i32),
    };
    Placement { x_cm, y_cm, z_cm: -150i32 }
}

/// `v` is the player that toggle `t` starts, given the look-up result
/// `media` and the decoder generation `v3`.
pub open spec fn video1_for(v: Video1, t: Toggle, media: MediaFile, v3: bool) -> bool {
    &&& video1_fresh(v)
    &&& match t {
        Toggle::RtpStream => v.video_type == VideoType::RtpStream { port: RTP_PORT } && v.width
            == 2288 && v.height == 1430,
        Toggle::VideoMp4 => (v.video_type matches VideoType::H264File { uri } && uri@ == uri_of(
            t,
            media,
        )) && v.width == DEFAULT_WIDTH && v.height == DEFAULT_HEIGHT,
        Toggle::VideoVp8 => (v.video_type matches VideoType::VP8File { uri } && uri@ == uri_of(
            t,
            media,
        )) && v.width == 854 && v.height == 480,
        Toggle::VideoMp4Dec | Toggle::VideoVp8Dec | Toggle::VideoVp8HttpsDec => (
        v.video_type matches VideoType::Decodebin { uri, v3_enabled } && uri@ == uri_of(t, media)
            && v3_enabled == v3) && v.width == DEFAULT_WIDTH && v.height == DEFAULT_HEIGHT,
        _ => false,
    }
}

/// `r` is what the panel in state `p` asks for when toggle `t` is switched
/// to `on`, given the look-up result `media`.
pub open spec fn request_for(r: PanelRequest, p: Panel, t: Toggle, on: bool, media: MediaFile) -> bool {
    if t == Toggle::ShowLog {
        r == PanelRequest::ShowLogWindow { shown: !p.log_window_shown }
    } else if t == Toggle::Decodebin3 {
        r is Nothing
    } else if !on {
        r matches PanelRequest::Remove { name } && name@ == stepper_name_of(t)
    } else if t == Toggle::PlaybinMp4 {
        &&& r matches PanelRequest::AddVideo2 { name, player, placement }
        &&& name@ == stepper_name_of(t)
        &&& placement == placement_of(t)
        &&& video2_defaults(player)
        &&& player.uri@ == uri_of(t, media)
        &&& player.v3_enabled == p.v3_enabled
    } else {
        &&& r matches PanelRequest::AddVideo1 { name, video, placement }
        &&& name@ == stepper_name_of(t)
        &&& placement == placement_of(t)
        &&& video1_for(video, t, media, p.v3_enabled)
    }
}

/// The sample file that toggle `t`'s player reads, relative to the
/// external storage; none for toggles that read no file.
pub fn media_path(t: Toggle) -> (r: Option<&'static str>)
    ensures
        r is None <==> media_path_of(t) is None,
        r matches Some(s) ==> Some(s@) == media_path_of(t),
{
    match t {
        Toggle::PlaybinMp4 | Toggle::VideoMp4 | Toggle::VideoMp4Dec => Some("videos/test.mp4"),
        Toggle::VideoVp8 | Toggle::VideoVp8Dec => Some("videos/sintel_trailer-480p.webm"),
        _ => None,
    }
}

/// What toggle `t`'s player is given to play, from the look-up result `media`.
pub fn uri_for(t: Toggle, media: MediaFile) -> (r: String)
    ensures
        r@ == uri_of(t, media),
{
    if t == Toggle::VideoVp8HttpsDec {
        return String::from_str(
            "https://gstreamer.freedesktop.org/data/media/sintel_trailer-480p.webm",
        );
    }
    let six = t == Toggle::VideoVp8 || t == Toggle::VideoVp8Dec;
    match media {
        MediaFile::Found { path } => if t == Toggle::PlaybinMp4 || t == Toggle::VideoMp4Dec || t
            == Toggle::VideoVp8Dec {
            String::from_str("file:").concat(path.as_str())
        } else {
            path
        },
        MediaFile::Missing => if six {
            String::from_str("!!!!!!No File")
        } else {
            String::from_str("!!!!!!!No File")
        },
        MediaFile::NoExternalPath => if t == Toggle::PlaybinMp4 || t == Toggle::VideoMp4 {
            String::from_str("!!!!!!!No external path")
        } else {
            String::from_str("!!!!!!No external path")
        },
    }
}

/// Name of the stepper that plays for toggle `t`.
pub fn stepper_name(t: Toggle) -> (r: String)
    ensures
        r@ == stepper_name_of(t),
{
    match t {
        Toggle::RtpStream => String::from_str("RtpStream1"),
        Toggle::PlaybinMp4 => String::from_str("PlaybinH264"),
        Toggle::VideoMp4 => String::from_str("VideoH264"),
        Toggle::VideoVp8 => String::from_str("Videomkv_vp8"),
        Toggle::VideoMp4Dec => String::from_str("VideoH264_dec"),
        Toggle::VideoVp8Dec => String::from_str("Videovp8_dec"),
        Toggle::VideoVp8HttpsDec => String::from_str("video_VP8_dec"),
        _ => String::new(),
    }
}

/// Where the screen of toggle `t`'s player stands.
pub fn placement(t: Toggle) -> (r: Placement)
    ensures
        r == placement_of(t),
{
    let (x_cm, y_cm) = match t {
        Toggle::RtpStream => (-50i32, 200i32),
        Toggle::PlaybinMp4 | Toggle::VideoMp4 => (-50i32, 80i32),
        Toggle::VideoVp8 => (150i32, 80i32),
        Toggle::VideoMp4Dec => (-50i32, -40i32),
        Toggle::VideoVp8Dec => (150i32, -40i32),
        _ => (350i32, -40i32),
    };
    Placement { x_cm, y_cm, z_cm: -150i32 }
}

/// The player that toggle `t` starts.
fn video1_for_toggle(t: Toggle, media: MediaFile, v3_enabled: bool) -> (r: Video1)
    requires
        is_player(t),
        t != Toggle::PlaybinMp4,
    ensures
        video1_for(r, t, media, v3_enabled),
{
    match t {
        Toggle::RtpStream => {
            let mut v = Video1::new(VideoType::RtpStream { port: RTP_PORT });
            v.width = 2288;
            v.height = 1430;
            v
        },
        Toggle::VideoMp4 => Video1::new(VideoType::H264File { uri: uri_for(t, media) }),
        Toggle::VideoVp8 => {
            let mut v = Video1::new(VideoType::VP8File { uri: uri_for(t, media) });
            v.width = 854;
            v.height = 480;
            v
        },
        _ => Video1::new(VideoType::Decodebin { uri: uri_for(t, media), v3_enabled }),
    }
}

impl Panel {
    /// The panel as the demo opens: the blue sky, every toggle off.
    pub fn new() -> (r: Panel)
        ensures
            r == initial_panel(),
    {
        Panel {
            sky: Sky::BlueLight,
            show_log: false,
            log_window_shown: false,
            v3_enabled: false,
            rtp_stream: false,
            playbin_mp4: false,
            video_mp4: false,
            video_vp8: false,
            video_mp4_dec: false,
            video_vp8_dec: false,
            video_vp8_https_dec: false,
        }
    }

    /// Whether toggle `t` is on.
    pub fn is_on(&self, t: Toggle) -> (r: bool)
        ensures
            r == flag_of(*self, t),
    {
        match t {
            Toggle::ShowLog => self.show_log,
            Toggle::Decodebin3 => self.v3_enabled,
            Toggle::RtpStream => self.rtp_stream,
            Toggle::PlaybinMp4 => self.playbin_mp4,
            Toggle::VideoMp4 => self.video_mp4,
            Toggle::VideoVp8 => self.video_vp8,
            Toggle::VideoMp4Dec => self.video_mp4_dec,
            Toggle::VideoVp8Dec => self.video_vp8_dec,
            Toggle::VideoVp8HttpsDec => self.video_vp8_https_dec,
        }
    }

    /// Records the sky picked with the radio buttons.
    pub fn select_sky(&mut self, sky: Sky)
        ensures
            final(self).sky == sky,
            *final(self) == with_sky(*old(self), sky),
    {
        self.sky = sky;
    }

    /// What the scene must do when toggle `t` is switched to `on`; `media`
    /// is what the look-up of `media_path(t)` found, and is read only when a
    /// player reading that file is switched on.
    pub fn request(&self, t: Toggle, on: bool, media: MediaFile) -> (r: PanelRequest)
        ensures
            request_for(r, *self, t, on, media),
    {
        match t {
            Toggle::ShowLog => PanelRequest::ShowLogWindow { shown: !self.log_window_shown },
            Toggle::Decodebin3 => PanelRequest::Nothing,
            _ => if !on {
                PanelRequest::Remove { name: stepper_name(t) }
            } else if t == Toggle::PlaybinMp4 {
                PanelRequest::AddVideo2 {
                    name: stepper_name(t),
                    player: Video2::new(uri_for(t, media), self.v3_enabled),
                    placement: placement(t),
                }
            } else {
                PanelRequest::AddVideo1 {
                    name: stepper_name(t),
                    video: video1_for_toggle(t, media, self.v3_enabled),
                    placement: placement(t),
                }
            },
        }
    }

    /// Records that toggle `t` is now `on`.
    pub fn set(&mut self, t: Toggle, on: bool)
        ensures
            *final(self) == with_flag(*old(self), t, on),
    {
        let p = *self;
        *self = match t {
            Toggle::ShowLog => Panel { show_log: on, log_window_shown: !p.log_window_shown, ..p },
            Toggle::Decodebin3 => Panel { v3_enabled: on, ..p },
            Toggle::RtpStream => Panel { rtp_stream: on, ..p },
            Toggle::PlaybinMp4 => Panel { playbin_mp4: on, ..p },
            Toggle::VideoMp4 => Panel { video_mp4: on, ..p },
            Toggle::VideoVp8 => Panel { video_vp8: on, ..p },
            Toggle::VideoMp4Dec => Panel { video_mp4_dec: on, ..p },
            Toggle::VideoVp8Dec => Panel { video_vp8_dec: on, ..p },
            Toggle::VideoVp8HttpsDec => Panel { video_vp8_https_dec: on, ..p },
        };
    }

    /// Toggle `t` was switched to `on`: records it and returns what the
    /// scene must do (see `request`).
    pub fn toggle(&mut self, t: Toggle, on: bool, media: MediaFile) -> (r: PanelRequest)
        ensures
            *final(self) == with_flag(*old(self), t, on),
            request_for(r, *old(self), t, on, media),
    {
        let r = self.request(t, on, media);
        self.set(t, on);
        r
    }
}

} // verus!
