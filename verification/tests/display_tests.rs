use sha2::Digest;
use spotifyfetch::api::{Album, Api, Image as CoverArt, SimpleArtist, Track};
use spotifyfetch::config::{Config, ItemType, TimeRange};
use spotifyfetch::image::Image;
use spotifyfetch::render::RenderLayout;

fn cover(url: &str, width: u32, height: u32) -> CoverArt {
    CoverArt { url: url.to_string(), width, height }
}

#[test]
fn track_display_joins_artists() {
    let track = Track {
        name: "Song".to_string(),
        artists: vec![
            SimpleArtist { name: "Alpha".to_string() },
            SimpleArtist { name: "Beta".to_string() },
            SimpleArtist { name: "Gamma".to_string() },
        ],
        album: Album { name: "Record".to_string(), images: vec![] },
    };
    assert_eq!(track.format_track_display(), "Song - Alpha, Beta, Gamma (Record)");
}

#[test]
fn track_display_single_artist() {
    let track = Track {
        name: "Solo".to_string(),
        artists: vec![SimpleArtist { name: "One".to_string() }],
        album: Album { name: "LP".to_string(), images: vec![] },
    };
    assert_eq!(track.format_track_display(), "Solo - One (LP)");
}

#[test]
fn track_display_no_artists() {
    let track = Track {
        name: "Ghost".to_string(),
        artists: vec![],
        album: Album { name: "LP".to_string(), images: vec![] },
    };
    assert_eq!(track.format_track_display(), "Ghost -  (LP)");
}

#[test]
fn api_url_is_exact() {
    let api = Api::new("tok".to_string(), TimeRange::Medium);
    assert_eq!(
        api.build_url("artists", 10),
        "https://api.spotify.com/v1/me/top/artists?time_range=medium_term&limit=10"
    );
    let api = Api::new("tok".to_string(), TimeRange::Short);
    assert_eq!(
        api.build_url("tracks", 1),
        "https://api.spotify.com/v1/me/top/tracks?time_range=short_term&limit=1"
    );
}

#[test]
fn zero_limit_needs_no_request() {
    let api = Api::new("tok".to_string(), TimeRange::Long);
    assert!(api.top_artists_url(0).is_none());
    assert!(api.top_tracks_url(0).is_none());
    assert!(api.top_tracks_url(5).unwrap().ends_with("time_range=long_term&limit=5"));
}

#[test]
fn item_counts_per_view() {
    let mut config = Config::default();
    config.list_count = 7;
    config.image_view = ItemType::Track;
    config.list_view = ItemType::Artist;
    assert_eq!(config.get_item_count(), (1, 7));
    config.image_view = ItemType::Track;
    config.list_view = ItemType::Track;
    assert_eq!(config.get_item_count(), (7, 0));
    config.image_view = ItemType::Artist;
    config.list_view = ItemType::Track;
    assert_eq!(config.get_item_count(), (7, 1));
    config.image_view = ItemType::Artist;
    config.list_view = ItemType::Artist;
    assert_eq!(config.get_item_count(), (0, 7));
}

#[test]
fn config_resolution_falls_back_to_default() {
    let valid = Config { image_width: 25, list_count: 20, ..Config::default() };
    assert_eq!(Config::resolve(Some(valid)), valid);
    let narrow = Config { image_width: 24, ..Config::default() };
    assert_eq!(Config::resolve(Some(narrow)), Config::default());
    let long = Config { list_count: 21, ..Config::default() };
    assert_eq!(Config::resolve(Some(long)), Config::default());
    assert_eq!(Config::resolve(None), Config::default());
}

#[test]
fn time_range_wordings() {
    assert_eq!(TimeRange::Short.query_value(), "short_term");
    assert_eq!(TimeRange::Medium.query_value(), "medium_term");
    assert_eq!(TimeRange::Long.query_value(), "long_term");
    assert_eq!(TimeRange::Short.message(), "4 weeks");
    assert_eq!(TimeRange::Medium.message(), "6 months");
    assert_eq!(TimeRange::Long.message(), "12 months");
}

#[test]
fn best_image_is_largest_area() {
    let images = vec![cover("small", 64, 64), cover("big", 640, 640), cover("mid", 300, 300)];
    assert_eq!(Image::get_best_image_url(&images).unwrap(), "big");
    assert!(Image::get_best_image_url(&[]).is_none());
}

#[test]
fn best_image_tie_takes_the_last() {
    let images = vec![cover("first", 10, 10), cover("second", 10, 10)];
    assert_eq!(Image::get_best_image_url(&images).unwrap(), "second");
}

#[test]
fn terminal_height_rounds_up() {
    let img = Image { path: "p".to_string(), width: 100, height: 100 };
    assert_eq!(img.get_terminal_height(30), 15);
    let tall = Image { path: "p".to_string(), width: 100, height: 101 };
    assert_eq!(tall.get_terminal_height(30), 16);
    let wide = Image { path: "p".to_string(), width: 200, height: 100 };
    assert_eq!(wide.get_terminal_height(30), 8);
}

#[test]
fn cache_name_is_digest_of_url() {
    let url = "https://i.scdn.co/image/abc";
    let digest = sha2::Sha256::digest(url.as_bytes());
    let mut expected = String::new();
    for b in digest.iter() {
        expected.push_str(&format!("{:02x}", b));
    }
    expected.push_str(".jpg");
    assert_eq!(Image::hash_url(url), expected);
}

#[test]
fn render_layout_is_exact() {
    let config = Config { offset_x: 2, gap: 5, image_width: 30, ..Config::default() };
    let img = Image { path: "p".to_string(), width: 100, height: 100 };
    // 15 rows of image, one caption line, 20 text lines.
    let layout = RenderLayout::compute(&config, &img, 20);
    assert_eq!(layout.image_term_height, 15);
    assert_eq!(layout.total_height, 20);
    assert_eq!(layout.text_column, 37);
    // A short text block: the image and its caption set the height.
    let layout = RenderLayout::compute(&config, &img, 3);
    assert_eq!(layout.total_height, 16);
}
