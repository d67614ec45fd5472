use wallcat::wallcat::{
    decode_envelope, decode_image, url_of_channels, url_of_image, ActiveDate, Channel,
    ErrorPayload, Image, ImagePayload, OptionalResponse, Response, UrlMap, WallcatError,
};

fn url_map(original: &str) -> UrlMap {
    UrlMap {
        small: "https://x/s.jpg".to_string(),
        middle: "https://x/m.jpg".to_string(),
        large: "https://x/l.jpg".to_string(),
        original: original.to_string(),
    }
}

fn image(id: &str) -> Image {
    Image {
        id: id.to_string(),
        channel: Channel {
            id: "c1".to_string(),
            title: "Nature".to_string(),
            description: "Trees".to_string(),
            url: "https://x/c1".to_string(),
        },
        title: "A tree".to_string(),
        url: url_map("https://x/o.jpg"),
        source_url: "https://x/src".to_string(),
        web_location: "https://x/web".to_string(),
        active_date: ActiveDate {
            raw: "2018-10-10T00:00:00.000Z".to_string(),
            normalized: "Oct 10th 2018".to_string(),
            calendar: "2018-10-10".to_string(),
        },
    }
}

fn failure(message: &str) -> Response<ErrorPayload> {
    Response { success: false, payload: ErrorPayload { message: message.to_string() } }
}

#[test]
fn crop_appends_width_query() {
    assert_eq!(url_map("https://x/o.jpg").crop(1000), "https://x/o.jpg?crop=fit&w=1000");
}

#[test]
fn crop_edge_widths() {
    assert_eq!(url_map("https://x/o.jpg").crop(0), "https://x/o.jpg?crop=fit&w=0");
    assert_eq!(url_map("https://x/o.jpg").crop(7), "https://x/o.jpg?crop=fit&w=7");
    assert_eq!(url_map("https://x/o.jpg").crop(65535), "https://x/o.jpg?crop=fit&w=65535");
}

#[test]
fn crop_keeps_stored_url() {
    let urls = url_map("https://x/o.jpg");
    let _ = urls.crop(500);
    assert_eq!(urls.original, "https://x/o.jpg");
}

#[test]
fn success_shape_decodes_to_payload() {
    let ok: Result<Vec<u32>, WallcatError> =
        decode_envelope(Some(Response { success: true, payload: vec![1, 2, 3] }), None);
    assert_eq!(ok.ok(), Some(vec![1, 2, 3]));
}

#[test]
fn failure_shape_decodes_to_bad_request() {
    let r: Result<Vec<u32>, WallcatError> = decode_envelope(None, Some(failure("no such channel")));
    match r {
        Err(WallcatError::BadRequest { reason }) => assert_eq!(reason, "no such channel"),
        _ => panic!("expected a bad request"),
    }
}

#[test]
fn neither_shape_is_malformed() {
    let r: Result<Vec<u32>, WallcatError> = decode_envelope(None, None);
    assert!(matches!(r, Err(WallcatError::Malformed)));
}

#[test]
fn success_shape_wins_when_both_fit() {
    let r: Result<u32, WallcatError> =
        decode_envelope(Some(Response { success: true, payload: 9 }), Some(failure("odd")));
    assert_eq!(r.ok(), Some(9));
}

#[test]
fn optional_response_collapses() {
    let s: OptionalResponse<u8> = OptionalResponse::Success(Response { success: true, payload: 4 });
    assert_eq!(s.into_result().ok(), Some(4));
    let f: OptionalResponse<u8> = OptionalResponse::Fail(failure("down"));
    match f.into_result() {
        Err(WallcatError::BadRequest { reason }) => assert_eq!(reason, "down"),
        _ => panic!("expected a bad request"),
    }
}

#[test]
fn image_response_yields_the_image() {
    let r = decode_image(
        Some(Response { success: true, payload: ImagePayload { image: image("i7") } }),
        None,
    );
    assert_eq!(r.ok().map(|i| i.id), Some("i7".to_string()));
    let e = decode_image(None, Some(failure("no image today")));
    match e {
        Err(WallcatError::BadRequest { reason }) => assert_eq!(reason, "no image today"),
        _ => panic!("expected a bad request"),
    }
    assert!(matches!(decode_image(None, None), Err(WallcatError::Malformed)));
}

#[test]
fn feed_addresses() {
    assert_eq!(url_of_channels(), "https://beta.wall.cat/api/v1/channels");
    assert_eq!(
        url_of_image("abc", "2019-12-01T00:00:00+00:00"),
        "https://beta.wall.cat/api/v1/channels/abc/image/2019-12-01T00:00:00+00:00"
    );
}
