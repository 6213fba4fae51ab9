use video_embed::VideoProvider;

#[test]
fn youtube_markers() {
    assert_eq!(VideoProvider::from_host("www.youtube.com"), Ok(VideoProvider::Youtube));
    assert_eq!(VideoProvider::from_host("youtu.be"), Ok(VideoProvider::Youtube));
    assert_eq!(VideoProvider::from_host("m.youtube-nocookie.com"), Ok(VideoProvider::Youtube));
}

#[test]
fn substring_match_is_not_domain_match() {
    assert_eq!(
        VideoProvider::from_host("notyoutube.example.com"),
        Ok(VideoProvider::Youtube)
    );
}

#[test]
fn youtube_checked_before_vimeo() {
    assert_eq!(VideoProvider::from_host("vimeo.youtube.com"), Ok(VideoProvider::Youtube));
    assert_eq!(VideoProvider::from_host("dailymotion.vimeo.com"), Ok(VideoProvider::Vimeo));
}

#[test]
fn vimeo_and_dailymotion() {
    assert_eq!(VideoProvider::from_host("player.vimeo.com"), Ok(VideoProvider::Vimeo));
    assert_eq!(VideoProvider::from_host("www.dailymotion.com"), Ok(VideoProvider::Dailymotion));
}

#[test]
fn unknown_host_is_other() {
    assert_eq!(
        VideoProvider::from_host("cdn.example.net"),
        Err(VideoProvider::Other("cdn.example.net".to_string()))
    );
    assert_eq!(VideoProvider::from_host(""), Err(VideoProvider::Other(String::new())));
}

#[test]
fn matching_is_case_sensitive() {
    assert_eq!(
        VideoProvider::from_host("YouTube.com"),
        Err(VideoProvider::Other("YouTube.com".to_string()))
    );
}

#[test]
fn partial_marker_is_not_a_match() {
    assert_eq!(
        VideoProvider::from_host("youtu.example"),
        Err(VideoProvider::Other("youtu.example".to_string()))
    );
    assert_eq!(
        VideoProvider::from_host("vime"),
        Err(VideoProvider::Other("vime".to_string()))
    );
}

#[test]
fn non_ascii_host() {
    assert_eq!(VideoProvider::from_host("ü.vimeo.de"), Ok(VideoProvider::Vimeo));
    assert_eq!(
        VideoProvider::from_host("bücher.de"),
        Err(VideoProvider::Other("bücher.de".to_string()))
    );
}
