//! The metadata poller: which endpoint to ask next, and what to publish.
//!
//! A cycle starts on a tick with a request to the primary endpoint. Each reply
//! either yields a record, which is published and ends the cycle, or sends the
//! poller on to the next fallback endpoint in list order. A cycle in which no
//! endpoint yields a record publishes nothing, and the record published before
//! stays current. The poller only decides; the surrounding program makes the
//! requests and hands back the replies.

use crate::json::{decode, decoded};
use crate::metadata::{
    parse_plaza_api, parse_possible_metadata, plaza_api, possible_metadata, said, NowPlaying,
    NowPlayingView,
};
use vstd::prelude::*;

verus! {

/// Seconds between the starts of two cycles.
pub const POLL_INTERVAL_SECS: u64 = 5;

/// Seconds after which a request is given up.
pub const REQUEST_TIMEOUT_SECS: u64 = 30;

/// How the client names itself to the endpoints.
pub const USER_AGENT: &'static str = "plaza_term_rs/0.2.0";

/// The endpoint asked first in every cycle.
pub const PRIMARY_URL: &'static str = "https://api.plaza.one/radio/broadcast";

/// How a request ended.
#[derive(Debug)]
pub enum Reply {
    /// No response came, or its body could not be read.
    Failed,
    /// A response came: whether its status reports success, and its body.
    Answered { success: bool, body: Vec<u8> },
}

/// Where the poller stands in its cycle.
#[derive(Clone, Copy, Debug, PartialEq, Eq)]
pub enum Stage {
    /// Between cycles.
    Idle,
    /// Waiting for the primary endpoint's reply.
    Primary,
    /// Waiting for the reply of the fallback endpoint at this index.
    Fallback(usize),
}

/// What the surrounding program is to do next.
#[derive(Debug)]
pub enum Action {
    /// Nothing until the next tick: the cycle is over and nothing new is known.
    Rest,
    /// Request this URL and hand back the reply.
    Fetch(String),
    /// Publish this record; the cycle is over.
    Publish(NowPlaying),
}

/// An action, as plain values.
pub enum ActionView {
    Rest,
    Fetch(Seq<char>),
    Publish(NowPlayingView),
}

impl View for Action {
    type V = ActionView;

    open spec fn view(&self) -> ActionView {
        match self {
            Action::Rest => ActionView::Rest,
            Action::Fetch(url) => ActionView::Fetch(url@),
            Action::Publish(record) => ActionView::Publish(record@),
        }
    }
}

/// The state of a poller: its endpoints, where it stands, and the record
/// published last.
pub struct PollerState {
    pub primary: Seq<char>,
    pub fallbacks: Seq<Seq<char>>,
    pub stage: Stage,
    pub latest: NowPlayingView,
}

/// The record that a reply yields. Only a response with a success status whose
/// body decodes as JSON can yield one: the primary endpoint's document is read
/// by the priority chain, a fallback's as a document of unknown shape.
pub open spec fn reading(primary: bool, reply: Reply) -> Option<NowPlayingView> {
    match reply {
        Reply::Failed => None,
        Reply::Answered { success, body } => if !success {
            None
        } else {
            match decoded(body@) {
                Some(document) => if primary {
                    plaza_api(document)
                } else {
                    possible_metadata(document)
                },
                None => None,
            }
        },
    }
}

/// The state and action with which a cycle goes on after the endpoints before
/// fallback `index` have yielded nothing: a request to that fallback, or rest
/// when the list is exhausted.
pub open spec fn moved_on(state: PollerState, index: int) -> (PollerState, ActionView) {
    if 0 <= index < state.fallbacks.len() {
        (
            PollerState { stage: Stage::Fallback(index as usize), ..state },
            ActionView::Fetch(state.fallbacks[index]),
        )
    } else {
        (PollerState { stage: Stage::Idle, ..state }, ActionView::Rest)
    }
}

/// The state and action after a reply that yielded `record`.
pub open spec fn settled(state: PollerState, record: NowPlayingView) -> (PollerState, ActionView) {
    (PollerState { stage: Stage::Idle, latest: record, ..state }, ActionView::Publish(record))
}

/// The state and action after a tick: a new cycle starts with the primary
/// endpoint, wherever the poller stood.
pub open spec fn ticked(state: PollerState) -> (PollerState, ActionView) {
    (PollerState { stage: Stage::Primary, ..state }, ActionView::Fetch(state.primary))
}

/// The state and action after a reply. A reply that yields a record settles
/// the cycle; any other sends the poller on to the next fallback. A reply that
/// arrives between cycles is ignored.
pub open spec fn replied(state: PollerState, reply: Reply) -> (PollerState, ActionView) {
    match state.stage {
        Stage::Idle => (state, ActionView::Rest),
        Stage::Primary => match reading(true, reply) {
            Some(record) => settled(state, record),
            None => moved_on(state, 0),
        },
        Stage::Fallback(index) => match reading(false, reply) {
            Some(record) => settled(state, record),
            None => moved_on(state, index + 1),
        },
    }
}

/// The state a poller reaches and the actions it gives when it takes in
/// `replies` one after another.
pub open spec fn run(state: PollerState, replies: Seq<Reply>) -> (PollerState, Seq<ActionView>)
    decreases replies.len(),
{
    if replies.len() == 0 {
        (state, Seq::empty())
    } else {
        let (next, action) = replied(state, replies[0]);
        let (last, actions) = run(next, replies.skip(1));
        (last, seq![action] + actions)
    }
}

/// Requests to `urls`, one after another.
pub open spec fn fetches(urls: Seq<Seq<char>>) -> Seq<ActionView> {
    Seq::new(urls.len(), |i: int| ActionView::Fetch(urls[i]))
}

/// The stage of a poller that waits for the reply of the endpoint at
/// `position` in the order of asking: the primary endpoint at 0, then the
/// fallbacks.
pub open spec fn waiting_at(position: int) -> Stage {
    if position == 0 {
        Stage::Primary
    } else {
        Stage::Fallback((position - 1) as usize)
    }
}

/// Whether none of `replies` yields a record, the first of them being the
/// reply of the endpoint at position `from`.
pub open spec fn all_in_vain(replies: Seq<Reply>, from: int) -> bool {
    forall|i: int| 0 <= i < replies.len() ==> reading(from + i == 0, #[trigger] replies[i]) is None
}

proof fn lemma_run_in_vain(state: PollerState, replies: Seq<Reply>, from: int)
    requires
        state.fallbacks.len() <= usize::MAX,
        0 <= from <= state.fallbacks.len(),
        state.stage == waiting_at(from),
        replies.len() == state.fallbacks.len() + 1 - from,
        all_in_vain(replies, from),
    ensures
        run(state, replies) == (
            PollerState { stage: Stage::Idle, ..state },
            fetches(state.fallbacks.subrange(from, state.fallbacks.len() as int)) + seq![
                ActionView::Rest,
            ],
        ),
    decreases replies.len(),
{
    let (next, action) = replied(state, replies[0]);
    let tail = replies.skip(1);
    assert(run(state, replies) == (run(next, tail).0, seq![action] + run(next, tail).1));
    if from < state.fallbacks.len() {
        assert forall|i: int| 0 <= i < tail.len() implies reading(
            from + 1 + i == 0,
            #[trigger] tail[i],
        ) is None by {
            assert(tail[i] == replies[i + 1]);
        }
        lemma_run_in_vain(next, tail, from + 1);
    }
}

proof fn lemma_run_to_first_usable(
    state: PollerState,
    replies: Seq<Reply>,
    from: int,
    winner: int,
    record: NowPlayingView,
)
    requires
        state.fallbacks.len() <= usize::MAX,
        0 <= from <= winner <= state.fallbacks.len(),
        state.stage == waiting_at(from),
        replies.len() == winner - from + 1,
        all_in_vain(replies.drop_last(), from),
        reading(winner == 0, replies.last()) == Some(record),
    ensures
        run(state, replies) == (
            PollerState { stage: Stage::Idle, latest: record, ..state },
            fetches(state.fallbacks.subrange(from, winner)) + seq![ActionView::Publish(record)],
        ),
    decreases replies.len(),
{
    let (next, action) = replied(state, replies[0]);
    let tail = replies.skip(1);
    assert(run(state, replies) == (run(next, tail).0, seq![action] + run(next, tail).1));
    if from < winner {
        assert(replies.drop_last()[0] == replies[0]);
        assert forall|i: int| 0 <= i < tail.drop_last().len() implies reading(
            from + 1 + i == 0,
            #[trigger] tail.drop_last()[i],
        ) is None by {
            assert(tail.drop_last()[i] == replies.drop_last()[i + 1]);
        }
        lemma_run_to_first_usable(next, tail, from + 1, winner, record);
    }
}

/// The first endpoint whose reply yields a record wins the cycle. When the
/// endpoints before position `winner` reply in vain and the one at `winner`
/// yields `record`, the cycle asks the fallbacks before it strictly in list
/// order, publishes `record`, makes it the current one and ends: the
/// fallbacks after the winner are not asked.
pub proof fn lemma_first_usable_reply_wins(
    state: PollerState,
    replies: Seq<Reply>,
    winner: int,
    record: NowPlayingView,
)
    requires
        state.fallbacks.len() <= usize::MAX,
        0 <= winner <= state.fallbacks.len(),
        replies.len() == winner + 1,
        all_in_vain(replies.drop_last(), 0),
        reading(winner == 0, replies.last()) == Some(record),
    ensures
        run(ticked(state).0, replies) == (
            PollerState { stage: Stage::Idle, latest: record, ..state },
            fetches(state.fallbacks.take(winner)) + seq![ActionView::Publish(record)],
        ),
{
    lemma_run_to_first_usable(ticked(state).0, replies, 0, winner, record);
}

/// A cycle in which no endpoint yields a record asks every fallback, in list
/// order, publishes nothing and leaves the record published before as the
/// current one.
pub proof fn lemma_cycle_in_vain_keeps_the_record(state: PollerState, replies: Seq<Reply>)
    requires
        state.fallbacks.len() <= usize::MAX,
        replies.len() == state.fallbacks.len() + 1,
        all_in_vain(replies, 0),
    ensures
        run(ticked(state).0, replies) == (
            PollerState { stage: Stage::Idle, ..state },
            fetches(state.fallbacks) + seq![ActionView::Rest],
        ),
        run(ticked(state).0, replies).0.latest == state.latest,
{
    lemma_run_in_vain(ticked(state).0, replies, 0);
}

/// What each of `urls` holds, in order.
pub open spec fn urls_of(urls: Seq<String>) -> Seq<Seq<char>> {
    urls.map_values(|url: String| url@)
}

/// The fallback endpoints asked when the primary one yields nothing, in the
/// order in which they are asked.
pub open spec fn known_fallbacks() -> Seq<Seq<char>> {
    seq![
        "https://api.plaza.one/status"@,
        "https://api.plaza.one/now_playing"@,
        "http://radio.plaza.one/status-json.xsl"@,
    ]
}

/// The fallback endpoints, in the order in which they are asked.
pub fn fallback_urls() -> (urls: Vec<String>)
    ensures
        urls_of(urls@) == known_fallbacks(),
{
    let mut urls: Vec<String> = Vec::new();
    urls.push("https://api.plaza.one/status".to_owned());
    urls.push("https://api.plaza.one/now_playing".to_owned());
    urls.push("http://radio.plaza.one/status-json.xsl".to_owned());
    urls
}

/// Reads the record that a reply yields.
pub fn read_reply(primary: bool, reply: &Reply) -> (record: Option<NowPlaying>)
    ensures
        said(record) == reading(primary, *reply),
{
    match reply {
        Reply::Failed => None,
        Reply::Answered { success, body } => {
            if !*success {
                return None;
            }
            match decode(body.as_slice()) {
                Some(document) => if primary {
                    parse_plaza_api(&document)
                } else {
                    parse_possible_metadata(&document)
                },
                None => None,
            }
        },
    }
}

/// A copy of an optional string.
fn copy_text(field: &Option<String>) -> (copy: Option<String>)
    ensures
        copy == *field,
{
    match field {
        Some(text) => Some(text.clone()),
        None => None,
    }
}

/// A copy of a record.
pub fn copy_record(record: &NowPlaying) -> (copy: NowPlaying)
    ensures
        copy@ == record@,
{
    NowPlaying {
        artist: copy_text(&record.artist),
        title: copy_text(&record.title),
        art_url: copy_text(&record.art_url),
    }
}

/// The scheduler of metadata requests.
pub struct Poller {
    primary: String,
    fallbacks: Vec<String>,
    stage: Stage,
    latest: NowPlaying,
}

impl View for Poller {
    type V = PollerState;

    closed spec fn view(&self) -> PollerState {
        PollerState {
            primary: self.primary@,
            fallbacks: urls_of(self.fallbacks@),
            stage: self.stage,
            latest: self.latest@,
        }
    }
}

impl Poller {
    /// A poller waiting for a fallback's reply knows which fallback it asked.
    #[verifier::type_invariant]
    closed spec fn stage_in_list(self) -> bool {
        self.stage matches Stage::Fallback(index) ==> index < self.fallbacks.len()
    }

    /// A poller over the given endpoints, between cycles, with the empty
    /// record as the one published last.
    pub fn new(primary: String, fallbacks: Vec<String>) -> (poller: Poller)
        ensures
            poller@ == (PollerState {
                primary: primary@,
                fallbacks: urls_of(fallbacks@),
                stage: Stage::Idle,
                latest: NowPlayingView { artist: None, title: None, art_url: None },
            }),
    {
        Poller { primary, fallbacks, stage: Stage::Idle, latest: NowPlaying::default() }
    }

    /// A poller over the broadcast's own endpoints.
    pub fn standard() -> (poller: Poller)
        ensures
            poller@ == (PollerState {
                primary: PRIMARY_URL@,
                fallbacks: known_fallbacks(),
                stage: Stage::Idle,
                latest: NowPlayingView { artist: None, title: None, art_url: None },
            }),
    {
        Poller::new(PRIMARY_URL.to_owned(), fallback_urls())
    }

    /// The record published last.
    pub fn latest(&self) -> (record: &NowPlaying)
        ensures
            record@ == self@.latest,
    {
        &self.latest
    }

    /// Where the poller stands in its cycle.
    pub fn stage(&self) -> (stage: Stage)
        ensures
            stage == self@.stage,
    {
        self.stage
    }

    /// Starts a cycle.
    pub fn on_tick(&mut self) -> (action: Action)
        ensures
            (final(self)@, action@) == ticked(old(self)@),
    {
        proof {
            use_type_invariant(&*self);
        }
        self.stage = Stage::Primary;
        Action::Fetch(self.primary.clone())
    }

    /// Goes on to the fallback at `index`, or rests when there is none.
    fn move_on(&mut self, index: usize) -> (action: Action)
        ensures
            (final(self)@, action@) == moved_on(old(self)@, index as int),
    {
        proof {
            use_type_invariant(&*self);
        }
        if index < self.fallbacks.len() {
            self.stage = Stage::Fallback(index);
            Action::Fetch(self.fallbacks[index].clone())
        } else {
            self.stage = Stage::Idle;
            Action::Rest
        }
    }

    /// Takes the record that a reply yielded as the one published last.
    fn settle(&mut self, record: NowPlaying) -> (action: Action)
        ensures
            (final(self)@, action@) == settled(old(self)@, record@),
    {
        proof {
            use_type_invariant(&*self);
        }
        let copy = copy_record(&record);
        self.stage = Stage::Idle;
        self.latest = record;
        Action::Publish(copy)
    }

    /// Takes in the reply to the request made last.
    pub fn on_reply(&mut self, reply: Reply) -> (action: Action)
        ensures
            (final(self)@, action@) == replied(old(self)@, reply),
    {
        proof {
            use_type_invariant(&*self);
        }
        match self.stage {
            Stage::Idle => Action::Rest,
            Stage::Primary => match read_reply(true, &reply) {
                Some(record) => self.settle(record),
                None => self.move_on(0),
            },
            Stage::Fallback(index) => match read_reply(false, &reply) {
                Some(record) => self.settle(record),
                None => self.move_on(index + 1),
            },
        }
    }
}

} // verus!
