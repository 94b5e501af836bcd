use video_stage::media::VideoType;
use video_stage::panel::{
    media_path, placement, stepper_name, uri_for, MediaFile, Panel, PanelRequest, Placement, Sky, Toggle,
};

fn found(p: &str) -> MediaFile {
    MediaFile::Found { path: p.to_string() }
}

#[test]
fn panel_starts_off() {
    let p = Panel::new();
    assert_eq!(p.sky, Sky::BlueLight);
    for t in [Toggle::ShowLog, Toggle::Decodebin3, Toggle::RtpStream, Toggle::VideoVp8HttpsDec] {
        assert!(!p.is_on(t));
    }
}

#[test]
fn sky_selection() {
    let mut p = Panel::new();
    p.select_sky(Sky::DefaultLight);
    assert_eq!(p.sky, Sky::DefaultLight);
}

#[test]
fn media_paths() {
    assert_eq!(media_path(Toggle::PlaybinMp4), Some("videos/test.mp4"));
    assert_eq!(media_path(Toggle::VideoMp4Dec), Some("videos/test.mp4"));
    assert_eq!(media_path(Toggle::VideoVp8), Some("videos/sintel_trailer-480p.webm"));
    assert_eq!(media_path(Toggle::VideoVp8HttpsDec), None);
    assert_eq!(media_path(Toggle::RtpStream), None);
}

#[test]
fn uris_from_lookup() {
    assert_eq!(uri_for(Toggle::PlaybinMp4, found("/sd/videos/test.mp4")), "file:/sd/videos/test.mp4");
    assert_eq!(uri_for(Toggle::VideoMp4, found("/sd/videos/test.mp4")), "/sd/videos/test.mp4");
    assert_eq!(uri_for(Toggle::VideoVp8Dec, found("/sd/a.webm")), "file:/sd/a.webm");
    assert_eq!(uri_for(Toggle::PlaybinMp4, MediaFile::Missing), "!!!!!!!No File");
    assert_eq!(uri_for(Toggle::VideoVp8, MediaFile::Missing), "!!!!!!No File");
    assert_eq!(uri_for(Toggle::VideoMp4, MediaFile::NoExternalPath), "!!!!!!!No external path");
    assert_eq!(uri_for(Toggle::VideoMp4Dec, MediaFile::NoExternalPath), "!!!!!!No external path");
    assert_eq!(
        uri_for(Toggle::VideoVp8HttpsDec, MediaFile::Missing),
        "https://gstreamer.freedesktop.org/data/media/sintel_trailer-480p.webm"
    );
}

#[test]
fn names_and_placements() {
    assert_eq!(stepper_name(Toggle::RtpStream), "RtpStream1");
    assert_eq!(stepper_name(Toggle::VideoVp8), "Videomkv_vp8");
    assert_eq!(stepper_name(Toggle::VideoVp8HttpsDec), "video_VP8_dec");
    assert_eq!(placement(Toggle::RtpStream), Placement { x_cm: -50, y_cm: 200, z_cm: -150 });
    assert_eq!(placement(Toggle::VideoVp8HttpsDec), Placement { x_cm: 350, y_cm: -40, z_cm: -150 });
}

#[test]
fn rtp_toggle_adds_sized_player() {
    let mut p = Panel::new();
    match p.toggle(Toggle::RtpStream, true, MediaFile::NoExternalPath) {
        PanelRequest::AddVideo1 { name, video, placement } => {
            assert_eq!(name, "RtpStream1");
            assert_eq!(video.video_type, VideoType::RtpStream { port: 5000 });
            assert_eq!((video.width, video.height), (2288, 1430));
            assert_eq!(placement, Placement { x_cm: -50, y_cm: 200, z_cm: -150 });
        }
        other => panic!("unexpected {:?}", other),
    }
    assert!(p.is_on(Toggle::RtpStream));
    match p.toggle(Toggle::RtpStream, false, MediaFile::NoExternalPath) {
        PanelRequest::Remove { name } => assert_eq!(name, "RtpStream1"),
        other => panic!("unexpected {:?}", other),
    }
    assert!(!p.rtp_stream);
}

#[test]
fn decoder_toggles_follow_generation() {
    let mut p = Panel::new();
    assert!(matches!(p.toggle(Toggle::Decodebin3, true, MediaFile::Missing), PanelRequest::Nothing));
    assert!(p.v3_enabled);
    match p.toggle(Toggle::VideoVp8Dec, true, found("/sd/a.webm")) {
        PanelRequest::AddVideo1 { video, .. } => {
            assert_eq!(video.video_type, VideoType::Decodebin { uri: "file:/sd/a.webm".to_string(), v3_enabled: true });
            assert_eq!((video.width, video.height), (1920, 1080));
        }
        other => panic!("unexpected {:?}", other),
    }
    match p.toggle(Toggle::PlaybinMp4, true, found("/sd/t.mp4")) {
        PanelRequest::AddVideo2 { name, player, .. } => {
            assert_eq!(name, "PlaybinH264");
            assert_eq!(player.uri, "file:/sd/t.mp4");
            assert!(player.v3_enabled);
        }
        other => panic!("unexpected {:?}", other),
    }
}

#[test]
fn vp8_file_toggle() {
    let mut p = Panel::new();
    match p.toggle(Toggle::VideoVp8, true, MediaFile::Missing) {
        PanelRequest::AddVideo1 { video, placement, .. } => {
            assert_eq!(video.video_type, VideoType::VP8File { uri: "!!!!!!No File".to_string() });
            assert_eq!((video.width, video.height), (854, 480));
            assert_eq!(placement, Placement { x_cm: 150, y_cm: 80, z_cm: -150 });
        }
        other => panic!("unexpected {:?}", other),
    }
}

#[test]
fn show_log_flips_window() {
    let mut p = Panel::new();
    assert!(matches!(p.toggle(Toggle::ShowLog, true, MediaFile::Missing), PanelRequest::ShowLogWindow { shown: true }));
    assert!(p.show_log);
    assert!(matches!(p.toggle(Toggle::ShowLog, false, MediaFile::Missing), PanelRequest::ShowLogWindow { shown: false }));
    assert!(!p.show_log);
}
