//! The orchestrator: the stages of a run, one after the other.
//!
//! A run never performs a request itself. [`Run::start`] and [`Run::step`]
//! name the next [`Action`]; the driver performs it and hands what came of it
//! back as an [`Event`]. Resolving the channel, finding its uploads playlist
//! and reading the playlist's pages each end the run at their first failure.
//! Once the downloads are out, nothing fails the run any more.

use crate::endpoints::{channel_details_url, channel_details_url_of};
use crate::enumerator::{
    uploads_outcome,
    uploads_playlist_id,
    Enumeration,
    EnumerationView,
    Progress,
    ProgressView,
};
use crate::error::{found_view, Error, ErrorView};
use crate::fetcher::{
    fetch_jobs,
    job_views,
    jobs_of,
    outcome_views,
    DownloadOutcome,
    DownloadOutcomeView,
    FetchJob,
    FetchJobView,
};
use crate::reference::url_path;
use crate::resolver::{
    channel_from_lookup,
    channel_from_search,
    lookup_outcome,
    plan_path,
    planned_view,
    search_outcome,
    Resolution,
    ResolutionView,
};
use crate::responses::{
    ChannelItemView,
    ChannelListResponse,
    PageView,
    PlaylistItemListResponse,
    SearchListResponse,
};
use vstd::prelude::*;
use vstd::string::StringExecFns;

verus! {

/// The shape of the answer that a request is to be decoded as.
#[derive(Clone, Copy, Debug, PartialEq, Eq, Structural)]
pub enum Expect {
    /// A [`SearchListResponse`].
    Search,
    /// A [`ChannelListResponse`].
    Channels,
    /// A [`PlaylistItemListResponse`].
    Page,
}

/// What the driver does next.
#[derive(Debug, PartialEq, Eq)]
pub enum Action {
    /// Send one GET request to `url` and decode the answer as `expect` says.
    Get { url: String, expect: Expect },
    /// Perform every one of these downloads, all at once, and wait until each
    /// has ended, however it ended.
    Download { jobs: Vec<FetchJob> },
}

/// An [`Action`] with its texts as sequences of characters.
pub enum ActionView {
    Get { url: Seq<char>, expect: Expect },
    Download { jobs: Seq<FetchJobView> },
}

impl View for Action {
    type V = ActionView;

    open spec fn view(&self) -> ActionView {
        match self {
            Action::Get { url, expect } => ActionView::Get { url: url@, expect: *expect },
            Action::Download { jobs } => ActionView::Download { jobs: job_views(jobs@) },
        }
    }
}

/// What came of an action.
#[derive(Debug)]
pub enum Event {
    /// The decoded answer to a search.
    Search(SearchListResponse),
    /// The decoded answer to a channel lookup.
    Channels(ChannelListResponse),
    /// A decoded page of playlist items.
    Page(PlaylistItemListResponse),
    /// The request failed in transport, or its answer could not be decoded;
    /// the text is the cause.
    Failed(String),
    /// Every download has ended; these are their outcomes, in the order of
    /// the jobs.
    Fetched(Vec<DownloadOutcome>),
}

/// An [`Event`] with its contents as views.
pub enum EventView {
    Search(Seq<Seq<char>>),
    Channels(Seq<ChannelItemView>),
    Page(PageView),
    Failed(Seq<char>),
    Fetched(Seq<DownloadOutcomeView>),
}

impl View for Event {
    type V = EventView;

    open spec fn view(&self) -> EventView {
        match self {
            Event::Search(response) => EventView::Search(response@),
            Event::Channels(response) => EventView::Channels(response@),
            Event::Page(response) => EventView::Page(response@),
            Event::Failed(cause) => EventView::Failed(cause@),
            Event::Fetched(outcomes) => EventView::Fetched(outcome_views(outcomes@)),
        }
    }
}

/// A run that waits for the outcome of its last action.
#[derive(Debug, PartialEq, Eq)]
pub enum Run {
    /// For the answer to the search for `handle`.
    Searching { api_key: String, handle: String },
    /// For the answer to the lookup of `username`.
    LookingUp { api_key: String, username: String },
    /// For the details of the channel `channel_id`.
    LocatingUploads { api_key: String, channel_id: String },
    /// For the page of the uploads playlist that the enumeration is owed.
    Enumerating(Enumeration),
    /// For the downloads to end.
    Fetching,
}

/// A [`Run`] with its texts as sequences of characters.
pub enum RunView {
    Searching { api_key: Seq<char>, handle: Seq<char> },
    LookingUp { api_key: Seq<char>, username: Seq<char> },
    LocatingUploads { api_key: Seq<char>, channel_id: Seq<char> },
    Enumerating(EnumerationView),
    Fetching,
}

impl View for Run {
    type V = RunView;

    open spec fn view(&self) -> RunView {
        match self {
            Run::Searching { api_key, handle } => RunView::Searching {
                api_key: api_key@,
                handle: handle@,
            },
            Run::LookingUp { api_key, username } => RunView::LookingUp {
                api_key: api_key@,
                username: username@,
            },
            Run::LocatingUploads { api_key, channel_id } => RunView::LocatingUploads {
                api_key: api_key@,
                channel_id: channel_id@,
            },
            Run::Enumerating(enumeration) => RunView::Enumerating(enumeration@),
            Run::Fetching => RunView::Fetching,
        }
    }
}

/// Where a run stands after a step.
#[derive(Debug, PartialEq, Eq)]
pub enum Step {
    /// The driver performs `action` and hands its outcome to `run`.
    Continue { run: Run, action: Action },
    /// The run is over: with the outcomes of its downloads, or with the
    /// error that ended it before any download began.
    Finish(Result<Vec<DownloadOutcome>, Error>),
}

/// A [`Step`] with its contents as views.
pub enum StepView {
    Continue { run: RunView, action: ActionView },
    Finish(Result<Seq<DownloadOutcomeView>, ErrorView>),
}

impl View for Step {
    type V = StepView;

    open spec fn view(&self) -> StepView {
        match self {
            Step::Continue { run, action } => StepView::Continue { run: run@, action: action@ },
            Step::Finish(Ok(outcomes)) => StepView::Finish(Ok(outcome_views(outcomes@))),
            Step::Finish(Err(error)) => StepView::Finish(Err(error@)),
        }
    }
}

/// The cause that is reported where an answer is of another kind than the
/// one that was asked for.
pub open spec fn unexpected_answer() -> Seq<char> {
    "unexpected response"@
}

/// The first step of a run, from what the reference leaves to do.
pub open spec fn first_step(
    api_key: Seq<char>,
    planned: Result<ResolutionView, ErrorView>,
) -> StepView {
    match planned {
        Err(error) => StepView::Finish(Err(error)),
        Ok(ResolutionView::Known { channel_id }) => step_to_uploads(api_key, Ok(channel_id)),
        Ok(ResolutionView::Search { handle, url }) => StepView::Continue {
            run: RunView::Searching { api_key, handle },
            action: ActionView::Get { url, expect: Expect::Search },
        },
        Ok(ResolutionView::Lookup { username, url }) => StepView::Continue {
            run: RunView::LookingUp { api_key, username },
            action: ActionView::Get { url, expect: Expect::Channels },
        },
    }
}

/// The step that follows resolution: with the channel's identifier the run
/// asks for the channel's details, and without it the run is over.
pub open spec fn step_to_uploads(
    api_key: Seq<char>,
    resolved: Result<Seq<char>, ErrorView>,
) -> StepView {
    match resolved {
        Ok(channel_id) => StepView::Continue {
            run: RunView::LocatingUploads { api_key, channel_id },
            action: ActionView::Get {
                url: channel_details_url_of(api_key, channel_id),
                expect: Expect::Channels,
            },
        },
        Err(error) => StepView::Finish(Err(error)),
    }
}

/// The step that follows the channel's details: with the uploads playlist
/// the run asks for its first page, and without it the run is over.
pub open spec fn step_to_pages(
    api_key: Seq<char>,
    found: Result<Seq<char>, ErrorView>,
) -> StepView {
    match found {
        Ok(playlist_id) => step_after_page(
            ProgressView::More(EnumerationView::start(api_key, playlist_id)),
        ),
        Err(error) => StepView::Finish(Err(error)),
    }
}

/// The step that follows a page: the run asks for the page that is owed,
/// or, after the last page, sends out one download for each video.
pub open spec fn step_after_page(progress: ProgressView) -> StepView {
    match progress {
        ProgressView::More(enumeration) => StepView::Continue {
            run: RunView::Enumerating(enumeration),
            action: ActionView::Get { url: enumeration.request(), expect: Expect::Page },
        },
        ProgressView::Done(video_ids) => StepView::Continue {
            run: RunView::Fetching,
            action: ActionView::Download { jobs: jobs_of(video_ids) },
        },
    }
}

impl RunView {
    /// Whether the downloads have not been sent out yet.
    pub open spec fn is_resolving(self) -> bool {
        !(self is Fetching)
    }

    /// The step that `event` leads to.
    ///
    /// While the downloads are out, the run ends well on whatever comes: with
    /// the outcomes that `Fetched` hands in, and with none on any other
    /// event. Before that, a failure ends the run with its cause; the answer
    /// that the run waits for leads on as its stage says; and an answer of
    /// another kind ends the run as an upstream error.
    pub open spec fn step(self, event: EventView) -> StepView {
        match (self, event) {
            (RunView::Fetching, EventView::Fetched(outcomes)) => StepView::Finish(Ok(outcomes)),
            (RunView::Fetching, _) => StepView::Finish(Ok(Seq::empty())),
            (_, EventView::Failed(cause)) => StepView::Finish(Err(ErrorView::Upstream(cause))),
            (RunView::Searching { api_key, handle }, EventView::Search(found)) => step_to_uploads(
                api_key,
                search_outcome(handle, found),
            ),
            (RunView::LookingUp { api_key, username }, EventView::Channels(found)) =>
                step_to_uploads(api_key, lookup_outcome(username, found)),
            (RunView::LocatingUploads { api_key, .. }, EventView::Channels(found)) => step_to_pages(
                api_key,
                uploads_outcome(found),
            ),
            (RunView::Enumerating(enumeration), EventView::Page(page)) => step_after_page(
                enumeration.accept(page),
            ),
            _ => StepView::Finish(Err(ErrorView::Upstream(unexpected_answer()))),
        }
    }
}

impl Run {
    /// Goes on from the end of resolution.
    fn to_uploads(api_key: String, resolved: Result<String, Error>) -> (step: Step)
        ensures
            step@ == step_to_uploads(api_key@, found_view(resolved)),
    {
        match resolved {
            Ok(channel_id) => {
                let url = channel_details_url(api_key.as_str(), channel_id.as_str());
                Step::Continue {
                    run: Run::LocatingUploads { api_key, channel_id },
                    action: Action::Get { url, expect: Expect::Channels },
                }
            },
            Err(error) => Step::Finish(Err(error)),
        }
    }

    /// Goes on from where the enumeration stands.
    fn after_page(progress: Progress) -> (step: Step)
        ensures
            step@ == step_after_page(progress@),
    {
        match progress {
            Progress::More(enumeration) => {
                let url = enumeration.request();
                Step::Continue {
                    run: Run::Enumerating(enumeration),
                    action: Action::Get { url, expect: Expect::Page },
                }
            },
            Progress::Done(video_ids) => Step::Continue {
                run: Run::Fetching,
                action: Action::Download { jobs: fetch_jobs(&video_ids) },
            },
        }
    }

    /// Begins with what the reference leaves to do.
    fn first(api_key: &str, planned: Result<Resolution, Error>) -> (step: Step)
        ensures
            step@ == first_step(api_key@, planned_view(planned)),
    {
        match planned {
            Err(error) => Step::Finish(Err(error)),
            Ok(Resolution::Known { channel_id }) => Run::to_uploads(
                api_key.to_owned(),
                Ok(channel_id),
            ),
            Ok(Resolution::Search { handle, url }) => Step::Continue {
                run: Run::Searching { api_key: api_key.to_owned(), handle },
                action: Action::Get { url, expect: Expect::Search },
            },
            Ok(Resolution::Lookup { username, url }) => Step::Continue {
                run: Run::LookingUp { api_key: api_key.to_owned(), username },
                action: Action::Get { url, expect: Expect::Channels },
            },
        }
    }

    /// Starts a run on a reference whose URL has the path `path`.
    pub fn start_at_path(api_key: &str, path: &str) -> (step: Step)
        ensures
            step@ == first_step(api_key@, plan_path(api_key@, path@)),
    {
        Run::first(api_key, Resolution::of_path(api_key, path))
    }

    /// Starts a run on a channel reference. A reference that is no URL ends
    /// the run as [`Error::InvalidUrl`]; a URL is judged by its path.
    pub fn start(api_key: &str, reference: &str) -> (step: Step)
        ensures
            match url_path(reference@) {
                Some(path) => step@ == first_step(api_key@, plan_path(api_key@, path)),
                None => step matches Step::Finish(Err(Error::InvalidUrl(_))),
            },
    {
        Run::first(api_key, Resolution::of_reference(api_key, reference))
    }

    /// Takes the outcome of the action that the run waits for.
    pub fn step(self, event: Event) -> (step: Step)
        ensures
            step@ == self@.step(event@),
    {
        match (self, event) {
            (Run::Fetching, Event::Fetched(outcomes)) => Step::Finish(Ok(outcomes)),
            (Run::Fetching, _) => {
                let outcomes: Vec<DownloadOutcome> = Vec::new();
                assert(outcome_views(outcomes@) =~= Seq::empty());
                Step::Finish(Ok(outcomes))
            },
            (_, Event::Failed(cause)) => Step::Finish(Err(Error::Upstream(cause))),
            (Run::Searching { api_key, handle }, Event::Search(response)) => {
                let resolved = channel_from_search(handle.as_str(), &response);
                Run::to_uploads(api_key, resolved)
            },
            (Run::LookingUp { api_key, username }, Event::Channels(response)) => {
                let resolved = channel_from_lookup(username.as_str(), &response);
                Run::to_uploads(api_key, resolved)
            },
            (Run::LocatingUploads { api_key, .. }, Event::Channels(response)) => {
                match uploads_playlist_id(&response) {
                    Ok(playlist_id) => {
                        let enumeration = Enumeration::start(
                            api_key.as_str(),
                            playlist_id.as_str(),
                        );
                        Run::after_page(Progress::More(enumeration))
                    },
                    Err(error) => Step::Finish(Err(error)),
                }
            },
            (Run::Enumerating(enumeration), Event::Page(page)) => Run::after_page(
                enumeration.accept(page),
            ),
            _ => Step::Finish(Err(Error::Upstream(String::from_str("unexpected response")))),
        }
    }
}

/// A failed request ends a run at once, with the cause, as long as the
/// downloads have not been sent out: nothing is tried again, and nothing of
/// what was gathered is handed on.
pub proof fn lemma_failure_ends_run(run: RunView, cause: Seq<char>)
    requires
        run.is_resolving(),
    ensures
        run.step(EventView::Failed(cause)) == StepView::Finish(Err(ErrorView::Upstream(cause))),
{
}

/// After the last page of the uploads playlist the run sends out exactly one
/// download for each video, in the order of the videos.
pub proof fn lemma_one_download_per_video(enumeration: EnumerationView, page: PageView)
    requires
        page.next_page_token is None,
    ensures
        ({
            let video_ids = enumeration.video_ids + page.video_ids;
            &&& RunView::Enumerating(enumeration).step(EventView::Page(page))
                == (StepView::Continue {
                run: RunView::Fetching,
                action: ActionView::Download { jobs: jobs_of(video_ids) },
            })
            &&& jobs_of(video_ids).len() == video_ids.len()
            &&& forall|i: int|
                0 <= i < video_ids.len() ==> #[trigger] jobs_of(video_ids)[i] == FetchJobView::of(
                    video_ids[i],
                )
        }),
{
}

/// Once the downloads are out the run succeeds, whatever became of them: it
/// ends with their outcomes as they were handed in.
pub proof fn lemma_downloads_never_fail_run(event: EventView)
    ensures
        RunView::Fetching.step(event) is Finish,
        RunView::Fetching.step(event)->Finish_0 is Ok,
        event matches EventView::Fetched(outcomes) ==> RunView::Fetching.step(event)
            == StepView::Finish(Ok(outcomes)),
{
}

} // verus!
