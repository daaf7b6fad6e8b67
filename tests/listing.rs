use spotify_search::listing::{join_artist_names, tracks_into_string};
use spotify_search::model::{Album, Artist, ExternalUrls, Track};

fn urls(link: &str) -> ExternalUrls {
    ExternalUrls { spotify: link.to_string() }
}

fn artist(name: &str) -> Artist {
    Artist { name: name.to_string(), external_urls: urls("http://example.com") }
}

fn track(name: &str, album: &str, artists: Vec<Artist>, link: &str) -> Track {
    Track {
        name: name.to_string(),
        album: Album {
            name: album.to_string(),
            artists,
            external_urls: urls("http://example.com/album"),
        },
        href: "http://example.com/href".to_string(),
        popularity: 50,
        external_urls: urls(link),
    }
}

const SEPARATOR: &str =
    "------------------------------------------------------------------------------------------------------- \n";

#[test]
fn test_tracks() {
    let test_track = Track {
        name: "Song".to_string(),
        album: Album {
            name: "Album".to_string(),
            artists: vec![
                Artist {
                    name: "Artist 1".to_string(),
                    external_urls: ExternalUrls {
                        spotify: "http://example.com".to_string(),
                    },
                },
                Artist {
                    name: "Artist 2".to_string(),
                    external_urls: ExternalUrls {
                        spotify: "http://example.com".to_string(),
                    },
                },
            ],
            external_urls: ExternalUrls {
                spotify: "http://example.com".to_string(),
            },
        },
        href: "http://example.com".to_string(),
        popularity: 1,
        external_urls: ExternalUrls {
            spotify: "http://example.com".to_string(),
        },
    };

    let result = tracks_into_string(vec![test_track]);

    let expected_result = "🎶 TITLE: Song \n💿 ALBUM: Album \n🕺 ARTIST: Artist 1, Artist 2 \n🌎 LINK: http://example.com \n------------------------------------------------------------------------------------------------------- \n";

    assert_eq!(result, expected_result);
}

#[test]
fn empty_listing_is_empty_text() {
    assert_eq!(tracks_into_string(vec![]), "");
}

#[test]
fn two_artists_are_joined_with_comma() {
    let names = join_artist_names(&vec![artist("Artist 1"), artist("Artist 2")]);
    assert_eq!(names, "Artist 1, Artist 2");
}

#[test]
fn single_artist_has_no_comma() {
    assert_eq!(join_artist_names(&vec![artist("Solo")]), "Solo");
}

#[test]
fn no_artists_give_empty_names() {
    assert_eq!(join_artist_names(&vec![]), "");
    let out = tracks_into_string(vec![track("Song", "Album", vec![], "http://x")]);
    let lines: Vec<&str> = out.split('\n').collect();
    assert_eq!(lines[2], "🕺 ARTIST:  ");
}

#[test]
fn three_artists_keep_their_order() {
    let names = join_artist_names(&vec![artist("C"), artist("A"), artist("B")]);
    assert_eq!(names, "C, A, B");
}

#[test]
fn blocks_follow_track_order_five_lines_each() {
    let tracks = vec![
        track("First", "One", vec![artist("X")], "http://first"),
        track("Second", "Two", vec![artist("Y"), artist("Z")], "http://second"),
    ];
    let out = tracks_into_string(tracks);
    assert_eq!(out.matches('\n').count(), 10);
    let expected = format!(
        "🎶 TITLE: First \n💿 ALBUM: One \n🕺 ARTIST: X \n🌎 LINK: http://first \n{}\
         🎶 TITLE: Second \n💿 ALBUM: Two \n🕺 ARTIST: Y, Z \n🌎 LINK: http://second \n{}",
        SEPARATOR, SEPARATOR
    );
    assert_eq!(out, expected);
}

#[test]
fn link_line_uses_the_tracks_own_link() {
    let out = tracks_into_string(vec![track("S", "A", vec![artist("X")], "http://track-link")]);
    let lines: Vec<&str> = out.split('\n').collect();
    assert_eq!(lines[3], "🌎 LINK: http://track-link ");
    assert!(!out.contains("http://example.com/album"));
    assert!(!out.contains("http://example.com/href"));
}
