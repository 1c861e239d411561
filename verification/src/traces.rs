//! Whole runs: what the orchestrator asks for, from the first step to the
//! last, while a driver hands in one event for each action.

use crate::endpoints::{channel_details_url_of, search_url_of, username_lookup_url_of};
use crate::enumerator::{
    gathered,
    is_chain,
    lemma_chain_tail,
    uploads_outcome,
    EnumerationView,
    ProgressView,
};
use crate::error::ErrorView;
use crate::fetcher::{jobs_of, DownloadOutcomeView};
use crate::orchestrator::{
    first_step,
    step_after_page,
    step_to_uploads,
    ActionView,
    EventView,
    Expect,
    RunView,
    StepView,
};
use crate::reference::{is_channel_shape, is_handle_shape, is_user_shape};
use crate::resolver::{
    lemma_channel_takes_no_request,
    lemma_user_takes_one_lookup,
    lookup_outcome,
    plan_path,
    search_outcome,
};
use crate::responses::{ChannelItemView, PageView};
use crate::segments::segments_of;
use vstd::prelude::*;

verus! {

/// What a run comes to.
pub struct Trace {
    /// The actions that the driver was asked for, in order.
    pub actions: Seq<ActionView>,
    /// How the run ended, if it has.
    pub end: Option<Result<Seq<DownloadOutcomeView>, ErrorView>>,
}

impl StepView {
    /// Drives on from this step while the driver hands in `events`, one for
    /// each action that it was asked for.
    pub open spec fn drive(self, events: Seq<EventView>) -> Trace
        decreases events.len(),
    {
        match self {
            StepView::Finish(result) => Trace { actions: Seq::empty(), end: Some(result) },
            StepView::Continue { run, action } => {
                if events.len() == 0 {
                    Trace { actions: seq![action], end: None }
                } else {
                    let rest = run.step(events[0]).drive(events.skip(1));
                    Trace { actions: seq![action] + rest.actions, end: rest.end }
                }
            },
        }
    }
}

/// The pages as the events that hand them in.
pub open spec fn page_events(pages: Seq<PageView>) -> Seq<EventView> {
    pages.map_values(|page: PageView| EventView::Page(page))
}

/// The requests for pages at these addresses.
pub open spec fn page_requests(urls: Seq<Seq<char>>) -> Seq<ActionView> {
    urls.map_values(|url: Seq<char>| ActionView::Get { url, expect: Expect::Page })
}

/// A run that is owed a page, driven through a chain of pages and on: it
/// asks for the pages as reading the playlist does, and goes on as the run
/// that has all their videos and sends out the downloads.
proof fn lemma_drive_pages(
    enumeration: EnumerationView,
    pages: Seq<PageView>,
    then: Seq<EventView>,
)
    requires
        is_chain(pages),
    ensures
        ({
            let trace = step_after_page(ProgressView::More(enumeration)).drive(
                page_events(pages) + then,
            );
            let rest = step_after_page(
                ProgressView::Done(enumeration.video_ids + gathered(pages)),
            ).drive(then);
            &&& trace.actions == page_requests(enumeration.read(pages).requests) + rest.actions
            &&& trace.end == rest.end
        }),
    decreases pages.len(),
{
    let events = page_events(pages) + then;
    let later = pages.skip(1);
    assert(events.skip(1) =~= page_events(later) + then);
    if pages.len() == 1 {
        assert(gathered(later) =~= Seq::empty());
    } else {
        let following = enumeration.accept(pages[0])->More_0;
        lemma_chain_tail(pages);
        lemma_drive_pages(following, later, then);
        assert(following.video_ids + gathered(later) =~= enumeration.video_ids + gathered(pages));
    }
}

/// A whole run from the channel's identifier on. Where the channel's details
/// name its uploads playlist, the playlist comes as a chain of pages and the
/// downloads end with `outcomes`, the run asks for the details, then for
/// every page as reading the playlist does, then sends out one download for
/// each video of all the pages, and ends well with `outcomes`.
pub proof fn lemma_run_from_channel(
    api_key: Seq<char>,
    channel_id: Seq<char>,
    details: Seq<ChannelItemView>,
    pages: Seq<PageView>,
    outcomes: Seq<DownloadOutcomeView>,
)
    requires
        uploads_outcome(details) is Ok,
        is_chain(pages),
    ensures
        ({
            let playlist_id = uploads_outcome(details)->Ok_0;
            let reading = EnumerationView::start(api_key, playlist_id).read(pages);
            let events = seq![EventView::Channels(details)] + page_events(pages)
                + seq![EventView::Fetched(outcomes)];
            step_to_uploads(api_key, Ok(channel_id)).drive(events) == (Trace {
                actions: seq![
                    ActionView::Get {
                        url: channel_details_url_of(api_key, channel_id),
                        expect: Expect::Channels,
                    },
                ] + page_requests(reading.requests) + seq![
                    ActionView::Download { jobs: jobs_of(gathered(pages)) },
                ],
                end: Some(Ok(outcomes)),
            })
        }),
{
    let playlist_id = uploads_outcome(details)->Ok_0;
    let enumeration = EnumerationView::start(api_key, playlist_id);
    let fetched = seq![EventView::Fetched(outcomes)];
    let events = seq![EventView::Channels(details)] + page_events(pages) + fetched;
    let download = ActionView::Download { jobs: jobs_of(gathered(pages)) };
    let trace = step_to_uploads(api_key, Ok(channel_id)).drive(events);
    assert(events.skip(1) =~= page_events(pages) + fetched);
    lemma_drive_pages(enumeration, pages, fetched);
    let last = step_after_page(ProgressView::Done(gathered(pages))).drive(fetched);
    assert(last.actions =~= seq![download] && last.end == Some(
        Ok::<Seq<DownloadOutcomeView>, ErrorView>(outcomes),
    )) by {
        reveal_with_fuel(StepView::drive, 2);
    }
    assert(trace.actions =~= seq![
        ActionView::Get {
            url: channel_details_url_of(api_key, channel_id),
            expect: Expect::Channels,
        },
    ] + page_requests(enumeration.read(pages).requests) + seq![download]);
}

/// A run on a path that begins with a handle asks for the search first, and
/// for nothing else before it knows the channel: with the answer it goes on
/// as the run from the channel of the first result does, or is over where
/// the search found none.
pub proof fn lemma_run_from_handle(
    api_key: Seq<char>,
    path: Seq<char>,
    found: Seq<Seq<char>>,
    then: Seq<EventView>,
)
    requires
        is_handle_shape(segments_of(path)),
    ensures
        ({
            let handle = segments_of(path)[0].skip(1);
            let trace = first_step(api_key, plan_path(api_key, path)).drive(
                seq![EventView::Search(found)] + then,
            );
            let rest = step_to_uploads(api_key, search_outcome(handle, found)).drive(then);
            &&& trace.actions == seq![
                ActionView::Get { url: search_url_of(api_key, handle), expect: Expect::Search },
            ] + rest.actions
            &&& trace.end == rest.end
            &&& found.len() == 0 ==> rest.actions == Seq::<ActionView>::empty() && rest.end == Some(
                Err::<Seq<DownloadOutcomeView>, ErrorView>(ErrorView::HandleNotFound(handle)),
            )
        }),
{
    let events = seq![EventView::Search(found)] + then;
    assert(events.skip(1) =~= then);
}

/// A run on a path of `user` and a name asks for the lookup of the name
/// first, and for nothing else before it knows the channel: with the answer
/// it goes on as the run from that channel does, or is over where the lookup
/// found none.
pub proof fn lemma_run_from_user(
    api_key: Seq<char>,
    path: Seq<char>,
    found: Seq<ChannelItemView>,
    then: Seq<EventView>,
)
    requires
        is_user_shape(segments_of(path)),
    ensures
        ({
            let username = segments_of(path)[1];
            let trace = first_step(api_key, plan_path(api_key, path)).drive(
                seq![EventView::Channels(found)] + then,
            );
            let rest = step_to_uploads(api_key, lookup_outcome(username, found)).drive(then);
            &&& trace.actions == seq![
                ActionView::Get {
                    url: username_lookup_url_of(api_key, username),
                    expect: Expect::Channels,
                },
            ] + rest.actions
            &&& trace.end == rest.end
            &&& lookup_outcome(username, found) is Err ==> rest.actions == Seq::<
                ActionView,
            >::empty() && rest.end == Some(
                Err::<Seq<DownloadOutcomeView>, ErrorView>(ErrorView::UsernameNotFound(username)),
            )
        }),
{
    lemma_user_takes_one_lookup(api_key, path, found);
    let events = seq![EventView::Channels(found)] + then;
    assert(events.skip(1) =~= then);
}

/// A run on a path of `channel` and an identifier begins as the run from
/// that channel does: no request goes before the one for its details.
pub proof fn lemma_run_from_channel_path(api_key: Seq<char>, path: Seq<char>)
    requires
        is_channel_shape(segments_of(path)),
    ensures
        first_step(api_key, plan_path(api_key, path)) == step_to_uploads(
            api_key,
            Ok(segments_of(path)[1]),
        ),
{
    lemma_channel_takes_no_request(api_key, path);
}

/// A run on a path in none of the three shapes, a path without a segment
/// too, is over before any action, as `UnsupportedFormat`, whatever the
/// driver hands in.
pub proof fn lemma_refused_path_takes_no_action(
    api_key: Seq<char>,
    path: Seq<char>,
    events: Seq<EventView>,
)
    requires
        !is_handle_shape(segments_of(path)),
        !is_channel_shape(segments_of(path)),
        !is_user_shape(segments_of(path)),
    ensures
        ({
            let trace = first_step(api_key, plan_path(api_key, path)).drive(events);
            &&& trace.actions == Seq::<ActionView>::empty()
            &&& trace.end == Some(
                Err::<Seq<DownloadOutcomeView>, ErrorView>(ErrorView::UnsupportedFormat),
            )
        }),
{
}

/// A failed request is the last thing that a run before its downloads asks
/// for: the run is over with the cause, whatever the driver hands in after
/// it. Nothing is asked for again, and no download is sent out.
pub proof fn lemma_failure_stops_run(
    run: RunView,
    action: ActionView,
    cause: Seq<char>,
    then: Seq<EventView>,
)
    requires
        run.is_resolving(),
    ensures
        (StepView::Continue { run, action }).drive(seq![EventView::Failed(cause)] + then)
            == (Trace {
            actions: seq![action],
            end: Some(Err(ErrorView::Upstream(cause))),
        }),
{
    let events = seq![EventView::Failed(cause)] + then;
    let rest = run.step(events[0]).drive(events.skip(1));
    assert(seq![action] + rest.actions =~= seq![action]);
}

} // verus!
