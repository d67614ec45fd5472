//! The wall.cat feed: its data, its response envelope, and its endpoints.

use vstd::prelude::*;

verus! {

/// The envelope that wraps every response of the feed.
pub struct Response<T> {
    pub success: bool,
    pub payload: T,
}

/// The payload of a response that reports a failure.
pub struct ErrorPayload {
    pub message: String,
}

/// What can go wrong when talking to the feed.
pub enum WallcatError {
    /// The feed answered, but reported a failure inside the envelope.
    BadRequest { reason: String },
    /// The feed could not be reached.
    Network,
    /// The body matched neither the success nor the failure shape.
    Malformed,
}

/// A response body that decoded into one of the two envelope shapes.
pub enum OptionalResponse<T> {
    Fail(Response<ErrorPayload>),
    Success(Response<T>),
}

impl<T> OptionalResponse<T> {
    /// Collapses the envelope into the payload or the reported failure.
    pub fn into_result(self) -> (r: Result<T, WallcatError>)
        ensures
            match self {
                OptionalResponse::Fail(err) => r == Err::<T, WallcatError>(
                    WallcatError::BadRequest { reason: err.payload.message },
                ),
                OptionalResponse::Success(value) => r == Ok::<T, WallcatError>(value.payload),
            },
    {
        match self {
            OptionalResponse::Fail(err) => Err(WallcatError::BadRequest { reason: err.payload.message }),
            OptionalResponse::Success(value) => Ok(value.payload),
        }
    }
}

/// Resolves a response body from the two ways it was read: as the success
/// shape and as the failure shape (`None` where the body did not fit).
///
/// The success shape is tried first, so a body that fits both is a success;
/// a body that fits neither is `Malformed`.
pub fn decode_envelope<T>(
    as_success: Option<Response<T>>,
    as_failure: Option<Response<ErrorPayload>>,
) -> (r: Result<T, WallcatError>)
    ensures
        match as_success {
            Some(s) => r == Ok::<T, WallcatError>(s.payload),
            None => match as_failure {
                Some(f) => r == Err::<T, WallcatError>(
                    WallcatError::BadRequest { reason: f.payload.message },
                ),
                None => r == Err::<T, WallcatError>(WallcatError::Malformed),
            },
        },
{
    let shape: Option<OptionalResponse<T>> = match as_success {
        Some(s) => Some(OptionalResponse::Success(s)),
        None => match as_failure {
            Some(f) => Some(OptionalResponse::Fail(f)),
            None => None,
        },
    };
    match shape {
        Some(response) => response.into_result(),
        None => Err(WallcatError::Malformed),
    }
}

/// A source of pictures on the feed.
pub struct Channel {
    pub id: String,
    pub title: String,
    pub description: String,
    pub url: String,
}

/// The four sizes in which the feed offers a picture.
pub struct UrlMap {
    /// 20px
    pub small: String,
    /// 100px
    pub middle: String,
    /// 500px
    pub large: String,
    /// maximum size
    pub original: String,
}

/// The decimal digit `d` as a character.
pub open spec fn digit_char(d: nat) -> char {
    if d == 0 { '0' }
    else if d == 1 { '1' }
    else if d == 2 { '2' }
    else if d == 3 { '3' }
    else if d == 4 { '4' }
    else if d == 5 { '5' }
    else if d == 6 { '6' }
    else if d == 7 { '7' }
    else if d == 8 { '8' }
    else { '9' }
}

/// `n` written in decimal, without leading zeros.
pub open spec fn decimal(n: nat) -> Seq<char>
    decreases n,
{
    if n < 10 {
        seq![digit_char(n)]
    } else {
        decimal(n / 10).push(digit_char(n % 10))
    }
}

/// The query that asks the image host for a picture scaled down to `width`.
pub open spec fn crop_query(width: nat) -> Seq<char> {
    "?crop=fit&w="@ + decimal(width)
}

fn digit_str(d: u16) -> (s: &'static str)
    requires
        d < 10,
    ensures
        s@ == seq![digit_char(d as nat)],
{
    let s: &'static str = if d == 0 { "0" } else if d == 1 { "1" } else if d == 2 { "2" }
        else if d == 3 { "3" } else if d == 4 { "4" } else if d == 5 { "5" }
        else if d == 6 { "6" } else if d == 7 { "7" } else if d == 8 { "8" } else { "9" };
    proof {
        reveal_strlit("0");
        reveal_strlit("1");
        reveal_strlit("2");
        reveal_strlit("3");
        reveal_strlit("4");
        reveal_strlit("5");
        reveal_strlit("6");
        reveal_strlit("7");
        reveal_strlit("8");
        reveal_strlit("9");
    }
    assert(s@ =~= seq![digit_char(d as nat)]);
    s
}

fn append_decimal(out: &mut String, n: u16)
    ensures
        final(out)@ == old(out)@ + decimal(n as nat),
    decreases n,
{
    if n >= 10 {
        append_decimal(out, n / 10);
    }
    out.append(digit_str(n % 10));
    assert(final(out)@ =~= old(out)@ + decimal(n as nat));
}

impl UrlMap {
    /// The original picture, scaled down by the host to at most `width` pixels.
    pub fn crop(&self, width: u16) -> (r: String)
        ensures
            r@ == self.original@ + crop_query(width as nat),
    {
        let mut r = self.original.clone();
        r.append("?crop=fit&w=");
        append_decimal(&mut r, width);
        assert(r@ =~= self.original@ + crop_query(width as nat));
        r
    }
}

/// The day on which a picture is shown, in the feed's three spellings.
pub struct ActiveDate {
    /// 2018-10-10T00:00:00.000Z
    pub raw: String,
    /// Oct 10th 2018
    pub normalized: String,
    /// 2018-10-10
    pub calendar: String,
}

/// One day's picture of one channel.
pub struct Image {
    pub id: String,
    pub channel: Channel,
    pub title: String,
    pub url: UrlMap,
    pub source_url: String,
    pub web_location: String,
    pub active_date: ActiveDate,
}

/// The payload of a successful image request.
pub struct ImagePayload {
    pub image: Image,
}

/// The base address of the feed's API.
pub open spec fn api_base() -> Seq<char> {
    "https://beta.wall.cat/api/v1"@
}

/// The address that lists the feed's channels.
pub fn url_of_channels() -> (r: String)
    ensures
        r@ == api_base() + "/channels"@,
{
    let mut r = String::from_str("https://beta.wall.cat/api/v1");
    r.append("/channels");
    r
}

/// The address of a channel's picture for a date; both go into the path as given.
pub fn url_of_image(channel_id: &str, datetime: &str) -> (r: String)
    ensures
        r@ == api_base() + "/channels/"@ + channel_id@ + "/image/"@ + datetime@,
{
    let mut r = String::from_str("https://beta.wall.cat/api/v1");
    r.append("/channels/");
    r.append(channel_id);
    r.append("/image/");
    r.append(datetime);
    r
}

/// Resolves the body of an image request (see `decode_envelope`) to the image.
pub fn decode_image(
    as_success: Option<Response<ImagePayload>>,
    as_failure: Option<Response<ErrorPayload>>,
) -> (r: Result<Image, WallcatError>)
    ensures
        match as_success {
            Some(s) => r == Ok::<Image, WallcatError>(s.payload.image),
            None => match as_failure {
                Some(f) => r == Err::<Image, WallcatError>(
                    WallcatError::BadRequest { reason: f.payload.message },
                ),
                None => r == Err::<Image, WallcatError>(WallcatError::Malformed),
            },
        },
{
    match decode_envelope(as_success, as_failure) {
        Ok(payload) => Ok(payload.image),
        Err(e) => Err(e),
    }
}

} // verus!
