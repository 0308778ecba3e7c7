//! The hand-over of fetched articles from a background fetch to the owner of
//! the displayed article list, one record at a time over a channel.

use vstd::prelude::*;
use std::sync::mpsc::{Receiver, Sender};
use crate::model::{Article, ArticleView, NewsApiError, NewsApiResponse};

verus! {

/// Relied on as an opaque value: the receiving end of a `std::sync::mpsc` channel.
#[verifier::external_type_specification]
#[verifier::external_body]
#[verifier::reject_recursive_types(T)]
pub struct ExReceiver<T>(Receiver<T>);

/// Relied on as an opaque value: the sending end of a `std::sync::mpsc` channel.
#[verifier::external_type_specification]
#[verifier::external_body]
#[verifier::reject_recursive_types(T)]
pub struct ExSender<T>(Sender<T>);

/// The description of a record whose article has none.
pub const NO_DESCRIPTION: &'static str = "...";

/// What a delivery record holds, as mathematical values.
pub struct CardView {
    pub title: Seq<char>,
    pub url: Seq<char>,
    pub desc: Seq<char>,
}

/// One article as it crosses over to the display: its description is never
/// missing.
#[derive(Debug, Clone, PartialEq, Eq)]
pub struct NewsCardData {
    pub title: String,
    pub url: String,
    pub desc: String,
}

impl View for NewsCardData {
    type V = CardView;

    open spec fn view(&self) -> CardView {
        CardView { title: self.title@, url: self.url@, desc: self.desc@ }
    }
}

/// The record that delivers article `a`.
pub open spec fn card_of(a: ArticleView) -> CardView {
    CardView {
        title: a.title,
        url: a.url,
        desc: match a.description {
            Some(d) => d,
            None => NO_DESCRIPTION@,
        },
    }
}

/// The records that deliver `articles`, in their order.
pub open spec fn cards_of(articles: Seq<ArticleView>) -> Seq<CardView> {
    articles.map_values(|a: ArticleView| card_of(a))
}

impl NewsCardData {
    /// The record of one article; `"..."` stands in for a missing description.
    pub fn from_article(a: &Article) -> (r: NewsCardData)
        ensures
            r@ == card_of(a@),
    {
        let desc = match a.desc() {
            Some(d) => d.to_string(),
            None => NO_DESCRIPTION.to_string(),
        };
        NewsCardData { title: a.title().to_string(), url: a.url().to_string(), desc }
    }
}

/// The records of the articles of a response, in response order.
pub fn delivery_records(response: &NewsApiResponse) -> (r: Vec<NewsCardData>)
    ensures
        r@.map_values(|c: NewsCardData| c@) == cards_of(response@.articles),
{
    let articles = response.articles();
    let mut records: Vec<NewsCardData> = Vec::new();
    let mut i: usize = 0;
    while i < articles.len()
        invariant
            i <= articles@.len(),
            articles@.map_values(|a: Article| a@) == response@.articles,
            records@.len() == i,
            forall|j: int| 0 <= j < i ==> #[trigger] records@[j]@ == card_of(articles@[j]@),
        decreases articles@.len() - i,
    {
        records.push(NewsCardData::from_article(&articles[i]));
        i = i + 1;
    }
    assert(records@.map_values(|c: NewsCardData| c@) =~= cards_of(response@.articles));
    records
}

/// The sending end of the channel of a fetch, with a record of what the
/// channel took so far and whether its receiving end is known to be gone.
pub struct CardSender {
    tx: Sender<NewsCardData>,
    sent: Ghost<Seq<CardView>>,
    closed: Ghost<bool>,
}

impl CardSender {
    /// The records that the channel took through this sender, in order.
    pub closed spec fn log(&self) -> Seq<CardView> {
        self.sent@
    }

    /// Whether a send failed: the receiving end is gone, for good.
    pub closed spec fn is_closed(&self) -> bool {
        self.closed@
    }

    /// A sender over `tx` that has sent nothing yet.
    pub fn new(tx: Sender<NewsCardData>) -> (r: CardSender)
        ensures
            r.log() == Seq::<CardView>::empty(),
            !r.is_closed(),
    {
        CardSender { tx, sent: Ghost(Seq::empty()), closed: Ghost(false) }
    }

    /// Relies on `Sender::send`: it hands `card` to the channel, and fails
    /// only where the receiving end has been dropped, which lasts; so once a
    /// send failed, every later one fails too.
    #[verifier::external_body]
    fn send(&mut self, card: NewsCardData) -> (r: bool)
        ensures
            r ==> final(self).log() == old(self).log().push(card@),
            r ==> final(self).is_closed() == old(self).is_closed(),
            !r ==> final(self).log() == old(self).log(),
            !r ==> final(self).is_closed(),
            old(self).is_closed() ==> !r,
    {
        self.tx.send(card).is_ok()
    }
}

/// Sends the records of `response` down the channel, one per article in
/// response order, and returns how many the channel took: those are the
/// first ones, and where any was refused the receiving end is gone.
pub fn deliver(tx: &mut CardSender, response: &NewsApiResponse) -> (r: usize)
    ensures
        r <= response@.articles.len(),
        final(tx).log() == old(tx).log() + cards_of(response@.articles).take(r as int),
        r < response@.articles.len() ==> final(tx).is_closed(),
        r == response@.articles.len() ==> final(tx).is_closed() == old(tx).is_closed(),
        r == response@.articles.len() ==> final(tx).log() == old(tx).log() + cards_of(response@.articles),
        old(tx).is_closed() ==> r == 0,
{
    let articles = response.articles();
    let ghost cards = cards_of(response@.articles);
    let mut sent: usize = 0;
    let mut i: usize = 0;
    while i < articles.len()
        invariant
            sent <= i <= articles@.len(),
            articles@.map_values(|a: Article| a@) == response@.articles,
            cards.len() == articles@.len(),
            forall|j: int| 0 <= j < cards.len() ==> #[trigger] cards[j] == card_of(articles@[j]@),
            tx.log() == old(tx).log() + cards.take(sent as int),
            sent < i ==> tx.is_closed(),
            sent == i ==> tx.is_closed() == old(tx).is_closed(),
            old(tx).is_closed() ==> tx.is_closed() && sent == 0,
        decreases articles@.len() - i,
    {
        let card = NewsCardData::from_article(&articles[i]);
        if tx.send(card) {
            assert(cards.take(sent as int + 1) =~= cards.take(sent as int).push(cards[sent as int]));
            assert(old(tx).log() + cards.take(sent as int + 1) =~= (old(tx).log() + cards.take(sent as int)).push(cards[sent as int]));
            sent = sent + 1;
        }
        i = i + 1;
    }
    assert(sent == articles@.len() ==> cards.take(sent as int) =~= cards);
    sent
}

/// What the background fetch does with its outcome: the records of a
/// response go down the channel as `deliver` sends them; a failed fetch sends
/// nothing. Returns how many records the channel took.
pub fn deliver_fetched(tx: &mut CardSender, fetched: &Result<NewsApiResponse, NewsApiError>) -> (r: usize)
    ensures
        match fetched {
            Ok(response) => {
                &&& r <= response@.articles.len()
                &&& final(tx).log() == old(tx).log() + cards_of(response@.articles).take(r as int)
                &&& r < response@.articles.len() ==> final(tx).is_closed()
                &&& r == response@.articles.len() ==> final(tx).is_closed() == old(tx).is_closed()
                &&& r == response@.articles.len() ==> final(tx).log() == old(tx).log() + cards_of(response@.articles)
            },
            Err(_) => r == 0 && final(tx).log() == old(tx).log() && final(tx).is_closed() == old(tx).is_closed(),
        },
{
    match fetched {
        Ok(response) => deliver(tx, response),
        Err(_) => 0,
    }
}

/// Relies on `std::sync::mpsc::channel`: a new channel, its sending end and
/// its receiving end.
#[verifier::external_body]
fn open_channel() -> (r: (Sender<NewsCardData>, Receiver<NewsCardData>)) {
    std::sync::mpsc::channel()
}

/// Relies on `Receiver::try_recv`: a record that is waiting in the channel,
/// or `None` where none is waiting or the sending end is gone. What comes
/// back depends on the other end of the channel, so nothing is stated of it.
#[verifier::external_body]
fn try_receive(rx: &Receiver<NewsCardData>) -> (r: Option<NewsCardData>) {
    rx.try_recv().ok()
}

/// The settings of the display.
#[derive(Debug, Clone)]
pub struct ReadlinesConfig {
    pub dark_mode: bool,
    pub api_key: String,
}

impl Default for ReadlinesConfig {
    fn default() -> (r: ReadlinesConfig)
        ensures
            !r.dark_mode,
            r.api_key@ == Seq::<char>::empty(),
    {
        ReadlinesConfig { dark_mode: false, api_key: String::new() }
    }
}

/// The display's state: the article list that it alone owns, its settings,
/// and the receiving end of the channel of a running fetch.
pub struct Readlines {
    pub articles: Vec<NewsCardData>,
    pub config: ReadlinesConfig,
    pub api_key_initialized: bool,
    pub news_rx: Option<Receiver<NewsCardData>>,
}

/// The article list after one poll of the channel gave `polled`.
pub open spec fn after_poll(articles: Seq<NewsCardData>, polled: Option<NewsCardData>) -> Seq<NewsCardData> {
    match polled {
        Some(c) => articles.push(c),
        None => articles,
    }
}

/// The views of a list of records.
pub open spec fn cards_view(cards: Seq<NewsCardData>) -> Seq<CardView> {
    cards.map_values(|c: NewsCardData| c@)
}

/// The article list after successive polls of the channel gave `polls`.
pub open spec fn after_polls(articles: Seq<NewsCardData>, polls: Seq<Option<NewsCardData>>) -> Seq<NewsCardData>
    decreases polls.len(),
{
    if polls.len() == 0 {
        articles
    } else {
        after_polls(after_poll(articles, polls[0]), polls.drop_first())
    }
}

/// The records among the outcomes `polls`, in the order they came.
pub open spec fn received(polls: Seq<Option<NewsCardData>>) -> Seq<NewsCardData>
    decreases polls.len(),
{
    if polls.len() == 0 {
        Seq::empty()
    } else {
        match polls[0] {
            Some(c) => seq![c] + received(polls.drop_first()),
            None => received(polls.drop_first()),
        }
    }
}

/// Polling keeps order: whatever the polls gave is appended to the article
/// list in the order it came, none twice and none left out; a poll that gave
/// nothing (the channel empty or drained) changes nothing.
pub proof fn polls_append_in_order(articles: Seq<NewsCardData>, polls: Seq<Option<NewsCardData>>)
    ensures
        after_polls(articles, polls) == articles + received(polls),
    decreases polls.len(),
{
    if polls.len() == 0 {
        assert(articles + Seq::<NewsCardData>::empty() =~= articles);
    } else {
        polls_append_in_order(after_poll(articles, polls[0]), polls.drop_first());
        match polls[0] {
            Some(c) => {
                assert(articles.push(c) + received(polls.drop_first()) =~= articles + (seq![c] + received(polls.drop_first())));
            },
            None => {},
        }
    }
}

/// Delivery order: when the channel hands over the records of a response in
/// the order they were sent, the article list ends with the records of the
/// response's articles in response order, whatever empty polls came between
/// or after them.
pub proof fn delivery_keeps_response_order(
    articles: Seq<NewsCardData>,
    response: NewsApiResponse,
    polls: Seq<Option<NewsCardData>>,
)
    requires
        cards_view(received(polls)) == cards_of(response@.articles),
    ensures
        cards_view(after_polls(articles, polls)) == cards_view(articles) + cards_of(response@.articles),
        after_polls(articles, polls).len() == articles.len() + response@.articles.len(),
{
    polls_append_in_order(articles, polls);
    assert(cards_view(articles + received(polls)) =~= cards_view(articles) + cards_view(received(polls)));
}

impl Readlines {
    /// The state at start-up with the settings `config`: no articles and no
    /// fetch running; the API key counts as set where it is not empty.
    pub fn new(config: ReadlinesConfig) -> (r: Readlines)
        ensures
            r.articles@.len() == 0,
            r.config == config,
            r.api_key_initialized == (config.api_key@.len() > 0),
            r.news_rx is None,
    {
        let initialized = !config.api_key.as_str().is_empty();
        Readlines { api_key_initialized: initialized, articles: Vec::new(), config, news_rx: None }
    }

    /// Takes in what one poll of the channel gave: a record is appended to
    /// the article list, nothing leaves it unchanged.
    pub fn accept_polled(&mut self, polled: Option<NewsCardData>)
        ensures
            final(self).articles@ == after_poll(old(self).articles@, polled),
            final(self).config == old(self).config,
            final(self).api_key_initialized == old(self).api_key_initialized,
            final(self).news_rx == old(self).news_rx,
    {
        match polled {
            Some(card) => {
                self.articles.push(card);
            },
            None => {},
        }
    }

    /// Opens the channel of a new fetch: the display keeps the receiving end,
    /// the sending end is returned for the background fetch. Records of an
    /// earlier fetch that were not polled yet are dropped with its channel.
    pub fn start_delivery(&mut self) -> (r: CardSender)
        ensures
            r.log() == Seq::<CardView>::empty(),
            !r.is_closed(),
            final(self).news_rx is Some,
            final(self).articles == old(self).articles,
            final(self).config == old(self).config,
            final(self).api_key_initialized == old(self).api_key_initialized,
    {
        let (tx, rx) = open_channel();
        self.news_rx = Some(rx);
        CardSender::new(tx)
    }

    /// Polls the channel once, without waiting, and appends the record that
    /// was waiting, if any. Without a channel nothing changes.
    pub fn preload_articles(&mut self)
        ensures
            old(self).news_rx is None ==> final(self).articles@ == old(self).articles@,
            exists|polled: Option<NewsCardData>|
                final(self).articles@ == #[trigger] after_poll(old(self).articles@, polled),
            final(self).config == old(self).config,
            final(self).api_key_initialized == old(self).api_key_initialized,
            final(self).news_rx == old(self).news_rx,
    {
        let polled = match &self.news_rx {
            Some(rx) => try_receive(rx),
            None => None,
        };
        self.accept_polled(polled);
    }
}

} // verus!
