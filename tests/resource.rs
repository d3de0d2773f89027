use media_shell::resource::{
    build_response, content_type, content_type_for_extension, decode_resource_path,
    resource_uri_path, ResourceResponse,
};

fn file_of(n: usize) -> Vec<u8> {
    (0..n).map(|i| (i * 7 % 251) as u8).collect()
}

fn header<'a>(r: &'a ResourceResponse, name: &str) -> Option<&'a str> {
    r.headers.iter().find(|(k, _)| k == name).map(|(_, v)| v.as_str())
}

#[test]
fn closed_range_gives_partial_content() {
    let file = file_of(1000);
    let r = build_response(Some(file.clone()), "video/mp4", Some("bytes=100-199"));
    assert_eq!(r.status, 206);
    assert_eq!(header(&r, "Content-Range"), Some("bytes 100-199/1000"));
    assert_eq!(header(&r, "Content-Length"), Some("100"));
    assert_eq!(header(&r, "Content-Type"), Some("video/mp4"));
    assert_eq!(header(&r, "Accept-Ranges"), Some("bytes"));
    assert_eq!(r.body, file[100..200].to_vec());
}

#[test]
fn open_range_gives_the_tail() {
    let file = file_of(1000);
    let r = build_response(Some(file.clone()), "video/mp4", Some("bytes=900-"));
    assert_eq!(r.status, 206);
    assert_eq!(header(&r, "Content-Range"), Some("bytes 900-999/1000"));
    assert_eq!(header(&r, "Content-Length"), Some("100"));
    assert_eq!(r.body, file[900..1000].to_vec());
}

#[test]
fn malformed_range_gives_the_whole_file() {
    let file = file_of(1000);
    let r = build_response(Some(file.clone()), "video/mp4", Some("bytes=abc-def"));
    assert_eq!(r.status, 200);
    assert_eq!(r.body.len(), 1000);
    assert_eq!(r.body, file);
    assert_eq!(header(&r, "Content-Range"), None);
    assert_eq!(header(&r, "Accept-Ranges"), Some("bytes"));
}

#[test]
fn unsatisfiable_range_gives_the_whole_file() {
    let file = file_of(10);
    let r = build_response(Some(file.clone()), "image/png", Some("bytes=5-10"));
    assert_eq!(r.status, 200);
    assert_eq!(r.body, file);
}

#[test]
fn absent_range_gives_the_whole_file() {
    let file = file_of(300);
    let r = build_response(Some(file.clone()), "audio/mpeg", None);
    assert_eq!(r.status, 200);
    assert_eq!(r.body, file);
    assert_eq!(r.headers.len(), 2);
    assert_eq!(header(&r, "Content-Type"), Some("audio/mpeg"));
}

#[test]
fn single_byte_range() {
    let file = file_of(50);
    let r = build_response(Some(file.clone()), "font/ttf", Some("bytes=7-7"));
    assert_eq!(r.status, 206);
    assert_eq!(header(&r, "Content-Length"), Some("1"));
    assert_eq!(header(&r, "Content-Range"), Some("bytes 7-7/50"));
    assert_eq!(r.body, vec![file[7]]);
}

#[test]
fn unreadable_file_gives_not_found() {
    let r = build_response(None, "video/mp4", Some("bytes=0-10"));
    assert_eq!(r.status, 404);
    assert!(r.body.is_empty());
    assert!(r.headers.is_empty());
}

#[test]
fn empty_file_is_served_whole() {
    let r = build_response(Some(Vec::new()), "text/css", Some("bytes=0-"));
    assert_eq!(r.status, 200);
    assert!(r.body.is_empty());
}

#[test]
fn content_type_from_extension() {
    assert_eq!(content_type("clip.mp4"), "video/mp4");
    assert_eq!(content_type("data.json"), "application/json");
    assert_eq!(content_type("blob.unknownext"), "application/octet-stream");
    assert_eq!(content_type("/home/user/music/song.mp3"), "audio/mpeg");
    assert_eq!(content_type("/srv/app/index.html"), "text/html");
    assert_eq!(content_type("photo.jpeg"), "image/jpeg");
    assert_eq!(content_type("photo.jpg"), "image/jpeg");
    assert_eq!(content_type("font.woff2"), "font/woff2");
    assert_eq!(content_type("README"), "application/octet-stream");
    assert_eq!(content_type(".mp4"), "application/octet-stream");
}

#[test]
fn content_type_match_is_case_sensitive() {
    assert_eq!(content_type("CLIP.MP4"), "application/octet-stream");
    assert_eq!(content_type_for_extension(Some("Json")), "application/octet-stream");
}

#[test]
fn content_type_table() {
    assert_eq!(content_type_for_extension(Some("js")), "application/javascript");
    assert_eq!(content_type_for_extension(Some("css")), "text/css");
    assert_eq!(content_type_for_extension(Some("png")), "image/png");
    assert_eq!(content_type_for_extension(Some("gif")), "image/gif");
    assert_eq!(content_type_for_extension(Some("svg")), "image/svg+xml");
    assert_eq!(content_type_for_extension(Some("webm")), "video/webm");
    assert_eq!(content_type_for_extension(Some("wav")), "audio/wav");
    assert_eq!(content_type_for_extension(Some("woff")), "font/woff");
    assert_eq!(content_type_for_extension(Some("ttf")), "font/ttf");
    assert_eq!(content_type_for_extension(Some("")), "application/octet-stream");
    assert_eq!(content_type_for_extension(None), "application/octet-stream");
}

#[test]
fn resource_path_is_percent_decoded() {
    assert_eq!(decode_resource_path("C%3A%2FMusic%2Fmy%20song.mp3"), "C:/Music/my song.mp3");
    assert_eq!(decode_resource_path("%E9%9F%B3%E4%B9%90.mp3"), "音乐.mp3");
    assert_eq!(decode_resource_path("a+b.mp3"), "a+b.mp3");
    assert_eq!(decode_resource_path("plain/path.png"), "plain/path.png");
    assert_eq!(decode_resource_path("100%"), "100%");
    assert_eq!(decode_resource_path("%zz"), "%zz");
}

#[test]
fn undecodable_path_is_used_as_is() {
    assert_eq!(decode_resource_path("bad%FF.mp3"), "bad%FF.mp3");
}

#[test]
fn uri_path_is_taken_after_the_scheme() {
    assert_eq!(
        resource_uri_path("theme://localhost/C%3A%2Fa.mp4"),
        Some("C%3A%2Fa.mp4")
    );
    assert_eq!(resource_uri_path("theme://localhost/"), Some(""));
    assert_eq!(resource_uri_path("asset://localhost/a.mp4"), None);
    assert_eq!(resource_uri_path("theme://local"), None);
}

#[test]
fn content_type_of_paths_with_directories() {
    assert_eq!(content_type("home/u/a.mp4"), "video/mp4");
    assert_eq!(content_type("C:/Music/list.json"), "application/json");
    assert_eq!(content_type("/data/x.unknownext"), "application/octet-stream");
    assert_eq!(content_type("music.v2/README"), "application/octet-stream");
    assert_eq!(content_type("home/u/.mp4"), "application/octet-stream");
    assert_eq!(content_type("home/u/clip.MP4"), "application/octet-stream");
}
