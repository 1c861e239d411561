//! The asset fetcher: one cover image per video, in the highest resolution
//! and in no other.
//!
//! A [`FetchJob`] says where the image of a video is and under which name it
//! is stored. Once the image host has answered, [`FetchJob::decide`] says
//! whether the body is stored or the video is passed over.

use crate::endpoints::{thumbnail_url, thumbnail_url_of};
use crate::text::texts;
use vstd::prelude::*;
use vstd::string::StringExecFns;

verus! {

/// Whether an HTTP status reports success: the statuses from 200 to 299 do.
pub open spec fn is_success(status: u16) -> bool {
    200 <= status < 300
}

/// The name of the file that holds the image of a video.
pub open spec fn file_name_of(video_id: Seq<char>) -> Seq<char> {
    video_id + ".jpg"@
}

/// Builds the name of the file that holds the image of a video.
pub fn thumbnail_file_name(video_id: &str) -> (name: String)
    ensures
        name@ == file_name_of(video_id@),
{
    String::from_str(video_id).concat(".jpg")
}

/// The download of one video's image.
#[derive(Debug, PartialEq, Eq)]
pub struct FetchJob {
    pub video_id: String,
    /// Where the image is.
    pub url: String,
    /// The name of the file that it goes to, inside the output directory.
    pub file_name: String,
}

/// A [`FetchJob`] with its texts as sequences of characters.
pub struct FetchJobView {
    pub video_id: Seq<char>,
    pub url: Seq<char>,
    pub file_name: Seq<char>,
}

impl View for FetchJob {
    type V = FetchJobView;

    open spec fn view(&self) -> FetchJobView {
        FetchJobView { video_id: self.video_id@, url: self.url@, file_name: self.file_name@ }
    }
}

/// What is done with the answer of the image host.
#[derive(Debug, PartialEq, Eq)]
pub enum FetchDecision {
    /// The body of the answer goes to the file of this name, in place of
    /// whatever the file held.
    Store { file_name: String },
    /// The video is passed over: the host answered with this status. Nothing
    /// is written, and no other resolution is asked for.
    Skip { status: u16 },
}

/// A [`FetchDecision`] with its text as a sequence of characters.
pub enum FetchDecisionView {
    Store { file_name: Seq<char> },
    Skip { status: u16 },
}

impl View for FetchDecision {
    type V = FetchDecisionView;

    open spec fn view(&self) -> FetchDecisionView {
        match self {
            FetchDecision::Store { file_name } => FetchDecisionView::Store {
                file_name: file_name@,
            },
            FetchDecision::Skip { status } => FetchDecisionView::Skip { status: *status },
        }
    }
}

/// What became of one download.
#[derive(Debug, PartialEq, Eq)]
pub enum DownloadOutcome {
    /// The image was written to the file at this path.
    Written { path: String },
    /// The host answered with this status, which is no success.
    Skipped { status: u16 },
    /// The request or the writing failed; the text is the cause.
    Failed { reason: String },
}

/// A [`DownloadOutcome`] with its texts as sequences of characters.
pub enum DownloadOutcomeView {
    Written { path: Seq<char> },
    Skipped { status: u16 },
    Failed { reason: Seq<char> },
}

impl View for DownloadOutcome {
    type V = DownloadOutcomeView;

    open spec fn view(&self) -> DownloadOutcomeView {
        match self {
            DownloadOutcome::Written { path } => DownloadOutcomeView::Written { path: path@ },
            DownloadOutcome::Skipped { status } => DownloadOutcomeView::Skipped { status: *status },
            DownloadOutcome::Failed { reason } => DownloadOutcomeView::Failed { reason: reason@ },
        }
    }
}

/// The views of a sequence of outcomes, in order.
pub open spec fn outcome_views(outcomes: Seq<DownloadOutcome>) -> Seq<DownloadOutcomeView> {
    outcomes.map_values(|outcome: DownloadOutcome| outcome@)
}

/// The views of a sequence of jobs, in order.
pub open spec fn job_views(jobs: Seq<FetchJob>) -> Seq<FetchJobView> {
    jobs.map_values(|job: FetchJob| job@)
}

impl FetchJobView {
    /// The download of the image of `video_id`.
    pub open spec fn of(video_id: Seq<char>) -> FetchJobView {
        FetchJobView {
            video_id,
            url: thumbnail_url_of(video_id),
            file_name: file_name_of(video_id),
        }
    }

    /// What is done once the host has answered with `status`.
    pub open spec fn decide(self, status: u16) -> FetchDecisionView {
        if is_success(status) {
            FetchDecisionView::Store { file_name: self.file_name }
        } else {
            FetchDecisionView::Skip { status }
        }
    }
}

/// The downloads of the images of `video_ids`: one for each, in their order.
pub open spec fn jobs_of(video_ids: Seq<Seq<char>>) -> Seq<FetchJobView> {
    video_ids.map_values(|video_id: Seq<char>| FetchJobView::of(video_id))
}

/// The names of the files that a batch of downloads stores, where the host
/// answers the download of `video_ids[i]` with `statuses[i]`.
pub open spec fn stored_files(video_ids: Seq<Seq<char>>, statuses: Seq<u16>) -> Set<Seq<char>> {
    Set::new(
        |name: Seq<char>|
            exists|i: int|
                0 <= i < video_ids.len() && #[trigger] jobs_of(video_ids)[i].decide(statuses[i])
                    == (FetchDecisionView::Store { file_name: name }),
    )
}

/// What is done with an answer goes by its status alone. A success stores the
/// body under the video's identifier and `.jpg`: the answer 200 is one. Any
/// other status stores nothing and is handed on as it is: the answer 404
/// passes the video over.
pub proof fn lemma_status_decides(video_id: Seq<char>, status: u16)
    ensures
        is_success(status) ==> FetchJobView::of(video_id).decide(status)
            == (FetchDecisionView::Store { file_name: video_id + ".jpg"@ }),
        !is_success(status) ==> FetchJobView::of(video_id).decide(status)
            == (FetchDecisionView::Skip { status }),
        is_success(200),
        !is_success(404),
{
}

/// Two videos never share a file.
pub proof fn lemma_file_names_differ(first: Seq<char>, second: Seq<char>)
    requires
        first != second,
    ensures
        file_name_of(first) != file_name_of(second),
{
    if file_name_of(first) == file_name_of(second) {
        // Equal names are equally long, so the identifiers are; each
        // identifier is the name without its ending.
        assert(file_name_of(first).len() == first.len() + ".jpg"@.len());
        assert(file_name_of(second).len() == second.len() + ".jpg"@.len());
        assert(file_name_of(first).subrange(0, first.len() as int) =~= first);
        assert(file_name_of(second).subrange(0, second.len() as int) =~= second);
    }
}

/// A batch stores exactly the images that the host answered with a success:
/// of videos that are all different, the file of a video is stored if and
/// only if the status of its own answer is a success, whatever became of the
/// others.
pub proof fn lemma_batch_stores_successes(video_ids: Seq<Seq<char>>, statuses: Seq<u16>)
    requires
        video_ids.no_duplicates(),
        statuses.len() == video_ids.len(),
    ensures
        forall|i: int|
            0 <= i < video_ids.len() ==> (stored_files(video_ids, statuses).contains(
                file_name_of(#[trigger] video_ids[i]),
            ) <==> is_success(statuses[i])),
        forall|name: Seq<char>| #[trigger]
            stored_files(video_ids, statuses).contains(name) ==> exists|i: int|
                0 <= i < video_ids.len() && is_success(statuses[i]) && name == file_name_of(
                    #[trigger] video_ids[i],
                ),
{
    let stored = stored_files(video_ids, statuses);
    assert forall|i: int| 0 <= i < video_ids.len() implies (stored.contains(
        file_name_of(#[trigger] video_ids[i]),
    ) <==> is_success(statuses[i])) by {
        let name = file_name_of(video_ids[i]);
        if is_success(statuses[i]) {
            assert(jobs_of(video_ids)[i].decide(statuses[i]) == (FetchDecisionView::Store {
                file_name: name,
            }));
        }
        if stored.contains(name) {
            let j = choose|j: int|
                0 <= j < video_ids.len() && #[trigger] jobs_of(video_ids)[j].decide(statuses[j])
                    == (FetchDecisionView::Store { file_name: name });
            if j != i {
                lemma_file_names_differ(video_ids[j], video_ids[i]);
            }
        }
    }
    assert forall|name: Seq<char>| #[trigger] stored.contains(name) implies exists|i: int|
        0 <= i < video_ids.len() && is_success(statuses[i]) && name == file_name_of(
            #[trigger] video_ids[i],
        ) by {
        let j = choose|j: int|
            0 <= j < video_ids.len() && #[trigger] jobs_of(video_ids)[j].decide(statuses[j])
                == (FetchDecisionView::Store { file_name: name });
        assert(name == file_name_of(video_ids[j]));
    }
}

impl FetchJob {
    /// The download of the image of `video_id`.
    pub fn new(video_id: &str) -> (job: FetchJob)
        ensures
            job@ == FetchJobView::of(video_id@),
    {
        FetchJob {
            video_id: video_id.to_owned(),
            url: thumbnail_url(video_id),
            file_name: thumbnail_file_name(video_id),
        }
    }

    /// Decides what is done once the host has answered with `status`.
    pub fn decide(&self, status: u16) -> (decision: FetchDecision)
        ensures
            decision@ == self@.decide(status),
    {
        if 200 <= status && status < 300 {
            FetchDecision::Store { file_name: self.file_name.clone() }
        } else {
            FetchDecision::Skip { status }
        }
    }
}

/// Plans the downloads of the images of `video_ids`.
pub fn fetch_jobs(video_ids: &Vec<String>) -> (jobs: Vec<FetchJob>)
    ensures
        job_views(jobs@) == jobs_of(texts(video_ids@)),
{
    let mut jobs: Vec<FetchJob> = Vec::new();
    for i in 0..video_ids.len()
        invariant
            job_views(jobs@) == jobs_of(texts(video_ids@).take(i as int)),
    {
        let job = FetchJob::new(video_ids[i].as_str());
        proof {
            assert(jobs_of(texts(video_ids@).take(i + 1)) == jobs_of(
                texts(video_ids@).take(i as int),
            ).push(job@));
        }
        jobs.push(job);
    }
    jobs
}

} // verus!
