use video_stage::media::{
    media_kind, plan_for, playbin_plan, starts_with, Element, MediaKind, PipelinePlan, RtpCaps,
    VideoFormat, VideoType, EQUALIZER_CUT_DB,
};

fn names(chain: &[Element]) -> Vec<&'static str> {
    chain.iter().map(|e| e.factory_name()).collect()
}

fn plan(t: VideoType) -> PipelinePlan {
    plan_for(&t, 640, 360).expect("a pipeline")
}

#[test]
fn rtp_stream_chain() {
    let p = plan(VideoType::RtpStream { port: 5000 });
    assert_eq!(
        names(&p.head),
        vec!["udpsrc", "rtph264depay", "h264parse", "avdec_h264", "videoconvert", "videoscale", "appsink"]
    );
    assert_eq!(p.head[0], Element::UdpSrc { port: 5000, caps: RtpCaps::H264, buffer_size: None });
    assert_eq!(p.head[6], Element::VideoSink { format: VideoFormat::Rgbx, width: 640, height: 360 });
    assert!(p.sync_head);
    assert!(p.branches.is_none());
}

#[test]
fn rtp_raw_stream_chain() {
    let p = plan(VideoType::RtpRawStream { port: 6000 });
    assert_eq!(names(&p.head), vec!["udpsrc", "rtpvrawdepay", "videorate", "appsink"]);
    assert_eq!(
        p.head[0],
        Element::UdpSrc { port: 6000, caps: RtpCaps::Raw { width: 640, height: 360 }, buffer_size: Some(200000) }
    );
    assert!(p.sync_head);
    assert!(p.branches.is_none());
}

#[test]
fn decodebin_opens_file_uri_itself() {
    let p = plan(VideoType::Decodebin { uri: "file:/data/test.mp4".to_string(), v3_enabled: true });
    assert_eq!(names(&p.head), vec!["uridecodebin3"]);
    assert_eq!(p.head[0], Element::UriDecodeBin { uri: "file:/data/test.mp4".to_string(), v3: true });
    assert!(!p.sync_head);
    let b = p.branches.expect("branches");
    assert_eq!(names(&b.audio), vec!["queue", "audioconvert", "audioresample", "appsink"]);
    assert_eq!(names(&b.video), vec!["queue", "videoconvert", "videoscale", "appsink"]);
    assert_eq!(b.audio[3], Element::AudioSink);
}

#[test]
fn decodebin_https_uri_first_generation() {
    let p = plan(VideoType::Decodebin { uri: "https://host/a.webm".to_string(), v3_enabled: false });
    assert_eq!(names(&p.head), vec!["uridecodebin"]);
}

#[test]
fn decodebin_reads_plain_path_from_file() {
    let p = plan(VideoType::Decodebin { uri: "/data/test.mp4".to_string(), v3_enabled: false });
    assert_eq!(names(&p.head), vec!["filesrc", "decodebin"]);
    assert_eq!(p.head[0], Element::FileSrc { location: "/data/test.mp4".to_string() });
    let p3 = plan(VideoType::Decodebin { uri: "http://host/a.webm".to_string(), v3_enabled: true });
    assert_eq!(names(&p3.head), vec!["filesrc", "decodebin3"]);
}

#[test]
fn h264_file_chains() {
    let p = plan(VideoType::H264File { uri: "/v/test.mp4".to_string() });
    assert_eq!(names(&p.head), vec!["filesrc", "qtdemux"]);
    let b = p.branches.expect("branches");
    assert_eq!(names(&b.audio), vec!["queue", "faad", "audioconvert", "audioresample", "appsink"]);
    assert_eq!(
        names(&b.video),
        vec!["queue", "h264parse", "openh264dec", "videoconvert", "videoscale", "appsink"]
    );
    assert_eq!(b.video[5], Element::VideoSink { format: VideoFormat::Rgbx, width: 640, height: 360 });
}

#[test]
fn vp8_file_chains() {
    let p = plan(VideoType::VP8File { uri: "/v/a.webm".to_string() });
    assert_eq!(names(&p.head), vec!["filesrc", "matroskademux"]);
    let b = p.branches.expect("branches");
    assert_eq!(names(&b.audio), vec!["queue", "vorbisdec", "audioconvert", "audioresample", "appsink"]);
    assert_eq!(names(&b.video), vec!["queue", "vp8dec", "videoconvert", "videoscale", "appsink"]);
}

#[test]
fn sources_without_pipeline() {
    assert!(plan_for(&VideoType::NoSource, 640, 360).is_none());
    assert!(plan_for(&VideoType::VP9File { uri: "/v/a.webm".to_string() }, 640, 360).is_none());
}

#[test]
fn stream_kinds() {
    assert_eq!(media_kind("audio/x-raw"), MediaKind::Audio);
    assert_eq!(media_kind("video/x-raw"), MediaKind::Video);
    assert_eq!(media_kind("text/x-raw"), MediaKind::Other);
    assert_eq!(media_kind("audio"), MediaKind::Other);
    assert_eq!(media_kind(""), MediaKind::Other);
}

#[test]
fn chain_by_kind() {
    let b = plan(VideoType::H264File { uri: "/v/test.mp4".to_string() }).branches.expect("branches");
    assert_eq!(names(b.chain_for(MediaKind::Audio).unwrap())[1], "faad");
    assert_eq!(names(b.chain_for(MediaKind::Video).unwrap())[1], "h264parse");
    assert!(b.chain_for(MediaKind::Other).is_none());
}

#[test]
fn playbin_bins() {
    let p = playbin_plan(&"file:/v/test.mp4".to_string(), true, 1920, 1080);
    assert_eq!(p.playbin, Element::PlayBin { uri: "file:/v/test.mp4".to_string(), v3: true });
    assert_eq!(p.playbin.factory_name(), "playbin3");
    assert_eq!(names(&p.audio_bin), vec!["equalizer-3bands", "audioconvert", "audioresample", "appsink"]);
    assert_eq!(p.audio_bin[0], Element::Equalizer3Bands { band1_db: -24, band2_db: -24 });
    assert_eq!(EQUALIZER_CUT_DB, -24);
    assert_eq!(names(&p.video_bin), vec!["videoconvert", "videoscale", "appsink"]);
    assert_eq!(p.video_bin[2], Element::VideoSink { format: VideoFormat::Rgba, width: 1920, height: 1080 });
    let p1 = playbin_plan(&"x".to_string(), false, 10, 20);
    assert_eq!(p1.playbin.factory_name(), "playbin");
}

#[test]
fn prefix_test() {
    assert!(starts_with("file:/a", "file:"));
    assert!(starts_with("abc", ""));
    assert!(!starts_with("fil", "file:"));
    assert!(!starts_with("xfile:", "file:"));
    assert!(starts_with("\u{2023}\u{2023}x", "\u{2023}"));
}
