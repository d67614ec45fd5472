//! A publishing run: list the channels, fetch one picture per channel, and
//! post the heading, the album and one document per picture.
//!
//! The run is a state machine. The caller performs each `Action` that it
//! returns and hands back what came of it as an `Event`.
//!
//! A channel whose picture cannot be fetched is left out and the run goes on.
//! Every other failure ends the run: the channel list, and each message to
//! the bot platform. An album that is not delivered thus stops the documents
//! too, and a document that is not delivered stops the ones after it.

use vstd::prelude::*;
use crate::wallcat::{Channel, Image, WallcatError, crop_query};
use crate::telegram::{InputMediaPhoto, SendDocument, SendMediaGroup, SendMessage};

verus! {

/// `s` with every space taken out.
pub open spec fn strip_spaces(s: Seq<char>) -> Seq<char>
    decreases s.len(),
{
    if s.len() == 0 {
        Seq::empty()
    } else if s.last() == ' ' {
        strip_spaces(s.drop_last())
    } else {
        strip_spaces(s.drop_last()).push(s.last())
    }
}

/// The hashtag under which a channel's pictures are posted.
pub open spec fn caption_of(title: Seq<char>) -> Seq<char> {
    seq!['#'] + strip_spaces(title)
}

proof fn lemma_strip_leaves_no_space(s: Seq<char>)
    ensures
        forall|i: int| 0 <= i < strip_spaces(s).len() ==> #[trigger] strip_spaces(s)[i] != ' ',
    decreases s.len(),
{
    if s.len() > 0 {
        let rest = strip_spaces(s.drop_last());
        lemma_strip_leaves_no_space(s.drop_last());
        if s.last() != ' ' {
            assert forall|i: int| 0 <= i < rest.len() + 1 implies #[trigger] rest.push(s.last())[i] != ' ' by {
                if i < rest.len() {
                    assert(rest.push(s.last())[i] == rest[i]);
                }
            }
        }
    }
}

proof fn lemma_strip_keeps_space_free(s: Seq<char>)
    requires
        forall|i: int| 0 <= i < s.len() ==> #[trigger] s[i] != ' ',
    ensures
        strip_spaces(s) == s,
    decreases s.len(),
{
    if s.len() > 0 {
        let init = s.drop_last();
        assert forall|i: int| 0 <= i < init.len() implies #[trigger] init[i] != ' ' by {
            assert(init[i] == s[i]);
        }
        lemma_strip_keeps_space_free(init);
        assert(s.last() == s[s.len() - 1]);
        assert(init.push(s.last()) =~= s);
    }
}

/// A caption starts with `#` and holds no space, and taking the spaces out of
/// a title before deriving its caption changes nothing.
pub proof fn lemma_caption_idempotent(title: Seq<char>)
    ensures
        caption_of(title).len() >= 1,
        caption_of(title)[0] == '#',
        forall|i: int| 1 <= i < caption_of(title).len() ==> #[trigger] caption_of(title)[i] != ' ',
        strip_spaces(strip_spaces(title)) == strip_spaces(title),
        caption_of(strip_spaces(title)) == caption_of(title),
{
    lemma_strip_leaves_no_space(title);
    lemma_strip_keeps_space_free(strip_spaces(title));
    assert forall|i: int| 1 <= i < caption_of(title).len() implies #[trigger] caption_of(title)[i] != ' ' by {
        assert(caption_of(title)[i] == strip_spaces(title)[i - 1]);
    }
}

/// The hashtag for a title: `#` and the title without its spaces.
pub fn create_caption(title: &str) -> (r: String)
    ensures
        r@ == caption_of(title@),
{
    let n = title.unicode_len();
    let mut r = String::from_str("#");
    proof {
        reveal_strlit("#");
    }
    let mut i: usize = 0;
    while i < n
        invariant
            n == title@.len(),
            i <= n,
            r@ == caption_of(title@.subrange(0, i as int)),
        decreases n - i,
    {
        let c = title.get_char(i);
        assert(title@.subrange(0, i as int + 1).drop_last() =~= title@.subrange(0, i as int));
        if c != ' ' {
            r.append(title.substring_char(i, i + 1));
            assert(r@ =~= caption_of(title@.subrange(0, i as int + 1)));
        }
        i = i + 1;
    }
    assert(title@.subrange(0, n as int) =~= title@);
    r
}


/// The width, in pixels, of the album's pictures.
pub const ALBUM_WIDTH: u16 = 1000;

/// The heading of a run: the day, in bold.
pub open spec fn heading_text(day: Seq<char>) -> Seq<char> {
    "<b>"@ + day + "</b>"@
}

/// `m` is the silent heading, in HTML, that names `day` to `chat`.
pub open spec fn is_heading(m: SendMessage, chat: Seq<char>, day: Seq<char>) -> bool {
    &&& m.chat_id@ == chat
    &&& m.text@ == heading_text(day)
    &&& m.disable_notification
    &&& m.parse_mode@ == "HTML"@
}

/// `p` shows `image` in the album: scaled down, under its channel's title.
pub open spec fn is_album_photo(p: InputMediaPhoto, image: Image) -> bool {
    &&& p.photo_type@ == "photo"@
    &&& p.media@ == image.url.original@ + crop_query(ALBUM_WIDTH as nat)
    &&& p.caption matches Some(c) && c@ == image.channel.title@
    &&& p.parse_mode@ == "HTML"@
}

/// `g` is the album of `images` for `chat`, one photo per image, in order.
pub open spec fn is_album(g: SendMediaGroup, chat: Seq<char>, images: Seq<Image>) -> bool {
    &&& g.chat_id@ == chat
    &&& !g.disable_notification
    &&& g.media@.len() == images.len()
    &&& forall|i: int| 0 <= i < images.len() ==> is_album_photo(#[trigger] g.media@[i], images[i])
}

/// `d` posts `image` to `chat` in full resolution, with its small size as
/// thumbnail and its channel's hashtag as caption.
pub open spec fn is_document(d: SendDocument, chat: Seq<char>, image: Image) -> bool {
    &&& d.chat_id@ == chat
    &&& d.document@ == image.url.original@
    &&& d.thumb matches Some(t) && t@ == image.url.small@
    &&& d.caption matches Some(c) && c@ == caption_of(image.channel.title@)
}

/// The heading message for a day already written out as text.
pub fn heading_request(chat_id: &str, day: &str) -> (r: SendMessage)
    ensures
        is_heading(r, chat_id@, day@),
{
    let mut text = String::from_str("<b>");
    text.append(day);
    text.append("</b>");
    SendMessage {
        chat_id: String::from_str(chat_id),
        text,
        disable_notification: true,
        parse_mode: String::from_str("HTML"),
    }
}

/// The album of the collected images, each scaled down to the album's width.
pub fn album_request(chat_id: &str, images: &Vec<Image>) -> (r: SendMediaGroup)
    ensures
        is_album(r, chat_id@, images@),
{
    let mut group = SendMediaGroup::new(String::from_str(chat_id));
    let mut i: usize = 0;
    while i < images.len()
        invariant
            i <= images@.len(),
            group.chat_id@ == chat_id@,
            !group.disable_notification,
            group.media@.len() == i,
            forall|j: int| 0 <= j < i ==> is_album_photo(#[trigger] group.media@[j], images@[j]),
        decreases images@.len() - i,
    {
        let image = &images[i];
        let photo = InputMediaPhoto::new(image.url.crop(ALBUM_WIDTH), image.channel.title.clone());
        group.add_photo(photo);
        i = i + 1;
    }
    group
}

/// The request that publishes one image as a document.
pub fn publish_document(channel_id: &str, image: &Image) -> (r: SendDocument)
    ensures
        is_document(r, channel_id@, *image),
{
    let caption = create_caption(image.channel.title.as_str());
    SendDocument {
        chat_id: String::from_str(channel_id),
        document: image.url.original.clone(),
        caption: Some(caption),
        thumb: Some(image.url.small.clone()),
    }
}

/// What chrono writes as `%d.%m.%Y` for an RFC 3339 timestamp, or `None`
/// where chrono does not read the text as one.
pub uninterp spec fn rfc3339_day_month_year(date: Seq<char>) -> Option<Seq<char>>;

/// Relies on chrono's `DateTime::parse_from_rfc3339`, and on its formatting of
/// the parsed value as `%d.%m.%Y`: the result depends on the text alone.
#[verifier::external_body]
fn day_month_year(date: &str) -> (r: Option<String>)
    ensures
        match r {
            Some(day) => rfc3339_day_month_year(date@) == Some(day@),
            None => rfc3339_day_month_year(date@) is None,
        },
{
    match chrono::DateTime::parse_from_rfc3339(date) {
        Ok(parsed) => Some(parsed.format("%d.%m.%Y").to_string()),
        Err(_) => None,
    }
}

/// The images among the outcomes of the fetches, in the order of the fetches.
pub open spec fn kept_images(fetched: Seq<Result<Image, WallcatError>>) -> Seq<Image>
    decreases fetched.len(),
{
    if fetched.len() == 0 {
        Seq::empty()
    } else {
        let rest = kept_images(fetched.drop_last());
        match fetched.last() {
            Ok(image) => rest.push(image),
            Err(_) => rest,
        }
    }
}

/// Collecting never yields more images than there were fetches, and keeps
/// their order: the images of earlier fetches come first.
pub proof fn lemma_collection_bounded_and_ordered(
    fetched: Seq<Result<Image, WallcatError>>,
    later: Seq<Result<Image, WallcatError>>,
)
    ensures
        kept_images(fetched).len() <= fetched.len(),
        kept_images(fetched + later) == kept_images(fetched) + kept_images(later),
    decreases later.len(),
{
    lemma_collection_bounded(fetched);
    if later.len() == 0 {
        assert(fetched + later =~= fetched);
        assert(kept_images(fetched) + kept_images(later) =~= kept_images(fetched));
    } else {
        lemma_collection_bounded_and_ordered(fetched, later.drop_last());
        assert((fetched + later).drop_last() =~= fetched + later.drop_last());
        assert((fetched + later).last() == later.last());
        let head = kept_images(fetched);
        let tail = kept_images(later.drop_last());
        match later.last() {
            Ok(image) => {
                assert(head + tail.push(image) =~= (head + tail).push(image));
            },
            Err(_) => {},
        }
    }
}

proof fn lemma_kept_one(fetched: Result<Image, WallcatError>)
    ensures
        kept_images(seq![fetched]) == match fetched {
            Ok(image) => seq![image],
            Err(_) => Seq::<Image>::empty(),
        },
{
    let one = seq![fetched];
    assert(one.drop_last() =~= Seq::<Result<Image, WallcatError>>::empty());
    assert(kept_images(one.drop_last()) == Seq::<Image>::empty());
    assert(one.last() == fetched);
    match fetched {
        Ok(image) => assert(Seq::<Image>::empty().push(image) =~= seq![image]),
        Err(_) => {},
    }
}

proof fn lemma_collection_bounded(fetched: Seq<Result<Image, WallcatError>>)
    ensures
        kept_images(fetched).len() <= fetched.len(),
    decreases fetched.len(),
{
    if fetched.len() > 0 {
        lemma_collection_bounded(fetched.drop_last());
    }
}

/// Where a run stands.
#[derive(Clone, Copy, PartialEq, Eq, Structural)]
pub enum Phase {
    /// Waiting for the channel list.
    Listing,
    /// Waiting for the picture of channel `next`.
    Collecting,
    /// Waiting for the heading to be delivered.
    Heading,
    /// Waiting for the album to be delivered.
    Album,
    /// Waiting for the document of image `next` to be delivered.
    Documents,
    /// The run is over.
    Finished,
}

/// How a run that did not fail ended.
#[derive(Clone, Copy, PartialEq, Eq, Structural)]
pub enum Outcome {
    /// No channel had a picture for the day: nothing was sent.
    NothingToPublish,
    /// The heading, the album and every document were delivered.
    Published,
}

/// Why a run stopped early.
pub enum PublishError {
    /// The channel list could not be had.
    Feed(WallcatError),
    /// A message to the bot platform was not delivered.
    Transport,
    /// The day of the run is not an RFC 3339 timestamp.
    InvalidDate,
    /// An event came that the run was not waiting for.
    UnexpectedEvent,
}

/// What came of the last action.
pub enum Event {
    ChannelsListed(Result<Vec<Channel>, WallcatError>),
    ImageFetched(Result<Image, WallcatError>),
    /// Whether the message was delivered.
    Delivered(bool),
}

/// What the caller is to do next.
pub enum Action {
    ListChannels,
    FetchImage { channel_id: String, date: String },
    SendMessage(SendMessage),
    SendMediaGroup(SendMediaGroup),
    SendDocument(SendDocument),
    /// Stop: the run ended this way.
    Finish(Result<Outcome, PublishError>),
}

/// A run that publishes the pictures of the day `date` to the chat `chat_id`.
pub struct Publication {
    pub chat_id: String,
    pub date: String,
    pub phase: Phase,
    pub channels: Vec<Channel>,
    pub next: usize,
    pub images: Vec<Image>,
}

impl Publication {
    /// What each phase needs of the counters. While collecting, no more
    /// images are held than channels were tried; after it, no more than there
    /// are channels.
    pub open spec fn wf(&self) -> bool {
        match self.phase {
            Phase::Listing => self.images@.len() == 0,
            Phase::Collecting => self.next < self.channels@.len() && self.images@.len() <= self.next,
            Phase::Heading | Phase::Album => 0 < self.images@.len() <= self.channels@.len(),
            Phase::Documents => self.next < self.images@.len() <= self.channels@.len(),
            Phase::Finished => true,
        }
    }
}

/// `a` fetches the picture of `channel` for `date`.
pub open spec fn fetches(a: Action, channel: Channel, date: Seq<char>) -> bool {
    a matches Action::FetchImage { channel_id, date: d } && channel_id@ == channel.id@ && d@ == date
}

/// The run ends with `result`.
pub open spec fn finishes(post: Publication, a: Action, result: Result<Outcome, PublishError>) -> bool {
    post.phase == Phase::Finished && a == Action::Finish(result)
}

/// The step once every channel was tried: stop if nothing was collected,
/// else send the heading for the day.
pub open spec fn gated(post: Publication, a: Action) -> bool {
    if post.images@.len() == 0 {
        finishes(post, a, Ok(Outcome::NothingToPublish))
    } else {
        match rfc3339_day_month_year(post.date@) {
            None => finishes(post, a, Err(PublishError::InvalidDate)),
            Some(day) => post.phase == Phase::Heading
                && (a matches Action::SendMessage(m) && is_heading(m, post.chat_id@, day)),
        }
    }
}

/// How the run goes from `pre` to `post` on `event`, and what it asks for.
pub open spec fn transition(pre: Publication, event: Event, post: Publication, a: Action) -> bool {
    &&& post.chat_id == pre.chat_id
    &&& post.date == pre.date
    &&& match pre.phase {
        Phase::Listing => match event {
            Event::ChannelsListed(Ok(channels)) => {
                &&& post.channels == channels
                &&& post.images == pre.images
                &&& if channels@.len() == 0 {
                    gated(post, a)
                } else {
                    post.phase == Phase::Collecting && post.next == 0
                        && fetches(a, channels@[0], pre.date@)
                }
            },
            Event::ChannelsListed(Err(e)) => finishes(post, a, Err(PublishError::Feed(e))),
            _ => finishes(post, a, Err(PublishError::UnexpectedEvent)),
        },
        Phase::Collecting => match event {
            Event::ImageFetched(fetched) => {
                &&& post.channels == pre.channels
                &&& post.images@ == pre.images@ + kept_images(seq![fetched])
                &&& if pre.next + 1 < pre.channels@.len() {
                    post.phase == Phase::Collecting && post.next == pre.next + 1
                        && fetches(a, pre.channels@[pre.next + 1], pre.date@)
                } else {
                    gated(post, a)
                }
            },
            _ => finishes(post, a, Err(PublishError::UnexpectedEvent)),
        },
        Phase::Heading => match event {
            Event::Delivered(true) => post.phase == Phase::Album && post.images == pre.images
                && (a matches Action::SendMediaGroup(g) && is_album(g, pre.chat_id@, pre.images@)),
            Event::Delivered(false) => finishes(post, a, Err(PublishError::Transport)),
            _ => finishes(post, a, Err(PublishError::UnexpectedEvent)),
        },
        Phase::Album => match event {
            Event::Delivered(true) => post.phase == Phase::Documents && post.next == 0
                && post.images == pre.images
                && (a matches Action::SendDocument(d) && is_document(d, pre.chat_id@, pre.images@[0])),
            Event::Delivered(false) => finishes(post, a, Err(PublishError::Transport)),
            _ => finishes(post, a, Err(PublishError::UnexpectedEvent)),
        },
        Phase::Documents => match event {
            Event::Delivered(true) => if pre.next + 1 < pre.images@.len() {
                post.phase == Phase::Documents && post.next == pre.next + 1
                    && post.images == pre.images
                    && (a matches Action::SendDocument(d)
                        && is_document(d, pre.chat_id@, pre.images@[pre.next + 1]))
            } else {
                finishes(post, a, Ok(Outcome::Published))
            },
            Event::Delivered(false) => finishes(post, a, Err(PublishError::Transport)),
            _ => finishes(post, a, Err(PublishError::UnexpectedEvent)),
        },
        Phase::Finished => finishes(post, a, Err(PublishError::UnexpectedEvent)),
    }
}

impl Publication {
    /// A run that has not started yet.
    pub fn new(chat_id: String, date: String) -> (r: Publication)
        ensures
            r.wf(),
            r.chat_id == chat_id,
            r.date == date,
            r.phase == Phase::Listing,
            r.images@.len() == 0,
    {
        Publication { chat_id, date, phase: Phase::Listing, channels: Vec::new(), next: 0, images: Vec::new() }
    }

    /// The first action of a run.
    pub fn start(&self) -> (a: Action)
        ensures
            a == Action::ListChannels,
    {
        Action::ListChannels
    }

    fn fetch_next(&self) -> (a: Action)
        requires
            self.next < self.channels@.len(),
        ensures
            fetches(a, self.channels@[self.next as int], self.date@),
    {
        Action::FetchImage {
            channel_id: self.channels[self.next].id.clone(),
            date: self.date.clone(),
        }
    }

    fn finish(&mut self, result: Result<Outcome, PublishError>) -> (a: Action)
        ensures
            finishes(*final(self), a, result),
            final(self).chat_id == old(self).chat_id,
            final(self).date == old(self).date,
            final(self).channels == old(self).channels,
            final(self).images == old(self).images,
    {
        self.phase = Phase::Finished;
        Action::Finish(result)
    }

    fn gate(&mut self) -> (a: Action)
        requires
            old(self).images@.len() <= old(self).channels@.len(),
        ensures
            gated(*final(self), a),
            final(self).wf(),
            final(self).chat_id == old(self).chat_id,
            final(self).date == old(self).date,
            final(self).channels == old(self).channels,
            final(self).images == old(self).images,
    {
        if self.images.len() == 0 {
            return self.finish(Ok(Outcome::NothingToPublish));
        }
        match day_month_year(self.date.as_str()) {
            None => self.finish(Err(PublishError::InvalidDate)),
            Some(day) => {
                self.phase = Phase::Heading;
                Action::SendMessage(heading_request(self.chat_id.as_str(), day.as_str()))
            },
        }
    }

    /// Takes in what came of the last action and says what to do next.
    pub fn on_event(&mut self, event: Event) -> (a: Action)
        requires
            old(self).wf(),
        ensures
            final(self).wf(),
            transition(*old(self), event, *final(self), a),
    {
        match self.phase {
            Phase::Listing => match event {
                Event::ChannelsListed(Ok(channels)) => {
                    self.channels = channels;
                    if self.channels.len() == 0 {
                        self.gate()
                    } else {
                        self.phase = Phase::Collecting;
                        self.next = 0;
                        self.fetch_next()
                    }
                },
                Event::ChannelsListed(Err(e)) => self.finish(Err(PublishError::Feed(e))),
                _ => self.finish(Err(PublishError::UnexpectedEvent)),
            },
            Phase::Collecting => match event {
                Event::ImageFetched(fetched) => {
                    let ghost before = self.images@;
                    let ghost outcome = fetched;
                    match fetched {
                        Ok(image) => self.images.push(image),
                        Err(_) => {},
                    }
                    proof {
                        lemma_kept_one(outcome);
                    }
                    assert(self.images@ =~= before + kept_images(seq![outcome]));
                    if self.next < self.channels.len() - 1 {
                        self.next = self.next + 1;
                        self.fetch_next()
                    } else {
                        self.gate()
                    }
                },
                _ => self.finish(Err(PublishError::UnexpectedEvent)),
            },
            Phase::Heading => match event {
                Event::Delivered(true) => {
                    self.phase = Phase::Album;
                    Action::SendMediaGroup(album_request(self.chat_id.as_str(), &self.images))
                },
                Event::Delivered(false) => self.finish(Err(PublishError::Transport)),
                _ => self.finish(Err(PublishError::UnexpectedEvent)),
            },
            Phase::Album => match event {
                Event::Delivered(true) => {
                    self.phase = Phase::Documents;
                    self.next = 0;
                    Action::SendDocument(publish_document(self.chat_id.as_str(), &self.images[0]))
                },
                Event::Delivered(false) => self.finish(Err(PublishError::Transport)),
                _ => self.finish(Err(PublishError::UnexpectedEvent)),
            },
            Phase::Documents => match event {
                Event::Delivered(true) => {
                    if self.next < self.images.len() - 1 {
                        self.next = self.next + 1;
                        Action::SendDocument(publish_document(self.chat_id.as_str(), &self.images[self.next]))
                    } else {
                        self.finish(Ok(Outcome::Published))
                    }
                },
                Event::Delivered(false) => self.finish(Err(PublishError::Transport)),
                _ => self.finish(Err(PublishError::UnexpectedEvent)),
            },
            Phase::Finished => self.finish(Err(PublishError::UnexpectedEvent)),
        }
    }
}

} // verus!
