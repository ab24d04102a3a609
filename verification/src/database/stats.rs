//! Decisions of the statistics of the registry.
//!
//! The statistics are gathered with five questions to the store, asked in a
//! fixed order. The first failure ends the gathering, and names the question
//! that failed.

use super::Database;
use crate::apierror::{ToErrorCode, HTTP_BACKEND_FAILURE};
use vstd::prelude::*;

verus! {

/// A couple describing a crate with its name and the associated version
#[derive(Debug, Clone)]
pub struct CrateVersion {
    /// The name of the crate
    pub package: String,
    /// The crate's version
    pub version: String,
}

/// The global statistics of the registry.
#[derive(Debug, Clone)]
pub struct GlobalStats {
    /// Total number of downloads
    pub total_downloads: i64,
    /// Total number of crates
    pub total_crates: i64,
    /// The newest crates in the registry
    pub crates_newest: Vec<CrateVersion>,
    /// The most downloaded crates in the registry
    pub crates_most_downloaded: Vec<CrateVersion>,
    /// The last updated crates in the registry
    pub crates_last_updated: Vec<CrateVersion>,
}

/// Why the statistics could not be gathered: the question that failed.
#[derive(Debug)]
pub enum CratesStatsError {
    /// The crates could not be counted
    CountCrates(sqlx::Error),
    /// The downloads could not be counted
    CountDownload(sqlx::Error),
    /// The newest crates could not be listed
    NewestCrates(sqlx::Error),
    /// The most downloaded crates could not be listed
    MostDownloaded(sqlx::Error),
    /// The last updated crates could not be listed
    LastUpdated(sqlx::Error),
}

impl ToErrorCode for CratesStatsError {
    /// Every failure of the statistics is a failure of the store: an internal
    /// fault.
    fn error_code(&self) -> (code: u16)
        ensures
            code == HTTP_BACKEND_FAILURE,
    {
        HTTP_BACKEND_FAILURE
    }
}

/// A question to the store.
#[derive(Debug, Clone, Copy, PartialEq, Eq, Structural)]
pub enum StatsQuery {
    /// How many crates are there
    CountCrates,
    /// How many downloads were there, over all versions
    CountDownloads,
    /// Which crates have a single version, newest upload first, ten at most
    NewestCrates,
    /// Which crates were downloaded most, ten at most
    MostDownloaded,
    /// Which versions were uploaded last, ten at most
    LastUpdated,
}

/// An answer of the store.
#[derive(Debug)]
pub enum StatsAnswer {
    /// The question failed
    Failed(sqlx::Error),
    /// A count
    Count(i64),
    /// A sum, which is absent where there was nothing to add up
    Sum(Option<i64>),
    /// Crates with a version each
    Versions(Vec<CrateVersion>),
    /// Names of crates
    Names(Vec<String>),
}

/// How far the gathering has come, with what was gathered.
#[derive(Debug)]
pub enum StatsProgress {
    CountingCrates,
    CountingDownloads { total_crates: i64 },
    ListingNewest { total_crates: i64, total_downloads: i64 },
    ListingMostDownloaded {
        total_crates: i64,
        total_downloads: i64,
        crates_newest: Vec<CrateVersion>,
    },
    ListingLastUpdated {
        total_crates: i64,
        total_downloads: i64,
        crates_newest: Vec<CrateVersion>,
        crates_most_downloaded: Vec<CrateVersion>,
    },
    Finished,
}

/// What to do next for the statistics.
#[derive(Debug)]
pub enum StatsStep {
    /// Ask the store this question
    Ask(StatsQuery),
    /// Return this result
    Finish(Result<GlobalStats, CratesStatsError>),
    /// The answer fits no pending question: go on waiting
    Ignore,
}

/// The question that a phase waits for.
pub open spec fn pending_query(progress: StatsProgress) -> Option<StatsQuery> {
    match progress {
        StatsProgress::CountingCrates => Some(StatsQuery::CountCrates),
        StatsProgress::CountingDownloads { .. } => Some(StatsQuery::CountDownloads),
        StatsProgress::ListingNewest { .. } => Some(StatsQuery::NewestCrates),
        StatsProgress::ListingMostDownloaded { .. } => Some(StatsQuery::MostDownloaded),
        StatsProgress::ListingLastUpdated { .. } => Some(StatsQuery::LastUpdated),
        StatsProgress::Finished => None,
    }
}

/// The error that names a failed question.
pub open spec fn failure_of(query: StatsQuery, source: sqlx::Error) -> CratesStatsError {
    match query {
        StatsQuery::CountCrates => CratesStatsError::CountCrates(source),
        StatsQuery::CountDownloads => CratesStatsError::CountDownload(source),
        StatsQuery::NewestCrates => CratesStatsError::NewestCrates(source),
        StatsQuery::MostDownloaded => CratesStatsError::MostDownloaded(source),
        StatsQuery::LastUpdated => CratesStatsError::LastUpdated(source),
    }
}

/// Whether `list` names the crates of `names`, in order, each without a
/// version.
pub open spec fn are_unversioned(list: Seq<CrateVersion>, names: Seq<String>) -> bool {
    &&& list.len() == names.len()
    &&& forall|i: int|
        0 <= i < names.len() ==> (#[trigger] list[i]).package@ == names[i]@ && list[i].version@
            == Seq::<char>::empty()
}

/// Whether `after` and `step` are what an answer leads to from `progress`.
///
/// A failure ends the gathering with the error of the pending question. An
/// answer of the fitting sort is kept, and the next question is asked; the
/// answer to the last question ends the gathering with the statistics. A sum
/// that is absent counts as zero. The most downloaded crates are listed
/// without versions.
pub open spec fn stats_transition(
    progress: StatsProgress,
    answer: StatsAnswer,
    after: StatsProgress,
    step: StatsStep,
) -> bool {
    match (progress, answer) {
        (StatsProgress::Finished, _) => after is Finished && step is Ignore,
        (_, StatsAnswer::Failed(source)) => after is Finished && step == StatsStep::Finish(
            Err(failure_of(pending_query(progress)->0, source)),
        ),
        (StatsProgress::CountingCrates, StatsAnswer::Count(n)) => after
            == (StatsProgress::CountingDownloads { total_crates: n }) && step == StatsStep::Ask(
            StatsQuery::CountDownloads,
        ),
        (StatsProgress::CountingDownloads { total_crates }, StatsAnswer::Sum(sum)) => after
            == (StatsProgress::ListingNewest {
            total_crates,
            total_downloads: match sum {
                Some(n) => n,
                None => 0,
            },
        }) && step == StatsStep::Ask(StatsQuery::NewestCrates),
        (
            StatsProgress::ListingNewest { total_crates, total_downloads },
            StatsAnswer::Versions(crates_newest),
        ) => after == (StatsProgress::ListingMostDownloaded {
            total_crates,
            total_downloads,
            crates_newest,
        }) && step == StatsStep::Ask(StatsQuery::MostDownloaded),
        (
            StatsProgress::ListingMostDownloaded { total_crates, total_downloads, crates_newest },
            StatsAnswer::Names(names),
        ) => {
            &&& after matches StatsProgress::ListingLastUpdated {
                total_crates: tc,
                total_downloads: td,
                crates_newest: cn,
                crates_most_downloaded: cmd,
            }
            &&& tc == total_crates
            &&& td == total_downloads
            &&& cn == crates_newest
            &&& are_unversioned(cmd@, names@)
            &&& step == StatsStep::Ask(StatsQuery::LastUpdated)
        },
        (
            StatsProgress::ListingLastUpdated {
                total_crates,
                total_downloads,
                crates_newest,
                crates_most_downloaded,
            },
            StatsAnswer::Versions(crates_last_updated),
        ) => after is Finished && step == StatsStep::Finish(
            Ok(
                GlobalStats {
                    total_downloads,
                    total_crates,
                    crates_newest,
                    crates_most_downloaded,
                    crates_last_updated,
                },
            ),
        ),
        _ => after == progress && step is Ignore,
    }
}

/// Whether an answer answers a question: it is a failure, or of the sort
/// that the question asks for.
pub open spec fn answers_query(query: StatsQuery, answer: StatsAnswer) -> bool {
    answer is Failed || match query {
        StatsQuery::CountCrates => answer is Count,
        StatsQuery::CountDownloads => answer is Sum,
        StatsQuery::NewestCrates => answer is Versions,
        StatsQuery::MostDownloaded => answer is Names,
        StatsQuery::LastUpdated => answer is Versions,
    }
}

/// A gathering that is driven as it asks is never stuck: an answer to the
/// pending question is not ignored, and the question that a step asks is the
/// one that the next phase waits for.
pub proof fn lemma_stats_answer_is_never_ignored(
    progress: StatsProgress,
    answer: StatsAnswer,
    after: StatsProgress,
    step: StatsStep,
)
    requires
        stats_transition(progress, answer, after, step),
        pending_query(progress) matches Some(query) && answers_query(query, answer),
    ensures
        !(step is Ignore),
        step matches StatsStep::Ask(next) ==> pending_query(after) == Some(next),
        step is Finish <==> after is Finished,
{
}

/// The crates of `names`, in order, each without a version.
pub fn unversioned(names: Vec<String>) -> (list: Vec<CrateVersion>)
    ensures
        are_unversioned(list@, names@),
{
    let mut list: Vec<CrateVersion> = Vec::new();
    let mut i: usize = 0;
    while i < names.len()
        invariant
            i <= names@.len(),
            list@.len() == i,
            forall|j: int|
                0 <= j < i ==> (#[trigger] list@[j]).package@ == names@[j]@ && list@[j].version@
                    == Seq::<char>::empty(),
        decreases names@.len() - i,
    {
        list.push(CrateVersion { package: names[i].clone(), version: String::new() });
        i += 1;
    }
    list
}

impl StatsProgress {
    /// The phase in which the gathering starts.
    pub fn start() -> (progress: StatsProgress)
        ensures
            progress is CountingCrates,
    {
        StatsProgress::CountingCrates
    }

    /// The question that this phase waits for, if it waits for one.
    pub fn pending(&self) -> (query: Option<StatsQuery>)
        ensures
            query == pending_query(*self),
    {
        match self {
            StatsProgress::CountingCrates => Some(StatsQuery::CountCrates),
            StatsProgress::CountingDownloads { .. } => Some(StatsQuery::CountDownloads),
            StatsProgress::ListingNewest { .. } => Some(StatsQuery::NewestCrates),
            StatsProgress::ListingMostDownloaded { .. } => Some(StatsQuery::MostDownloaded),
            StatsProgress::ListingLastUpdated { .. } => Some(StatsQuery::LastUpdated),
            StatsProgress::Finished => None,
        }
    }
}

impl Database {
    /// Gets the global statistics for the registry, one answer at a time.
    /// The gathering starts in the phase `CountingCrates`, whose question is
    /// the first to ask.
    pub fn get_crates_stats(progress: StatsProgress, answer: StatsAnswer) -> (step: (
        StatsProgress,
        StatsStep,
    ))
        ensures
            stats_transition(progress, answer, step.0, step.1),
    {
        match progress {
            StatsProgress::Finished => (StatsProgress::Finished, StatsStep::Ignore),
            StatsProgress::CountingCrates => match answer {
                StatsAnswer::Failed(source) => (
                    StatsProgress::Finished,
                    StatsStep::Finish(Err(CratesStatsError::CountCrates(source))),
                ),
                StatsAnswer::Count(n) => (
                    StatsProgress::CountingDownloads { total_crates: n },
                    StatsStep::Ask(StatsQuery::CountDownloads),
                ),
                _ => (StatsProgress::CountingCrates, StatsStep::Ignore),
            },
            StatsProgress::CountingDownloads { total_crates } => match answer {
                StatsAnswer::Failed(source) => (
                    StatsProgress::Finished,
                    StatsStep::Finish(Err(CratesStatsError::CountDownload(source))),
                ),
                StatsAnswer::Sum(sum) => {
                    let total_downloads = match sum {
                        Some(n) => n,
                        None => 0,
                    };
                    (
                        StatsProgress::ListingNewest { total_crates, total_downloads },
                        StatsStep::Ask(StatsQuery::NewestCrates),
                    )
                },
                _ => (StatsProgress::CountingDownloads { total_crates }, StatsStep::Ignore),
            },
            StatsProgress::ListingNewest { total_crates, total_downloads } => match answer {
                StatsAnswer::Failed(source) => (
                    StatsProgress::Finished,
                    StatsStep::Finish(Err(CratesStatsError::NewestCrates(source))),
                ),
                StatsAnswer::Versions(crates_newest) => (
                    StatsProgress::ListingMostDownloaded {
                        total_crates,
                        total_downloads,
                        crates_newest,
                    },
                    StatsStep::Ask(StatsQuery::MostDownloaded),
                ),
                _ => (
                    StatsProgress::ListingNewest { total_crates, total_downloads },
                    StatsStep::Ignore,
                ),
            },
            StatsProgress::ListingMostDownloaded {
                total_crates,
                total_downloads,
                crates_newest,
            } => match answer {
                StatsAnswer::Failed(source) => (
                    StatsProgress::Finished,
                    StatsStep::Finish(Err(CratesStatsError::MostDownloaded(source))),
                ),
                StatsAnswer::Names(names) => (
                    StatsProgress::ListingLastUpdated {
                        total_crates,
                        total_downloads,
                        crates_newest,
                        crates_most_downloaded: unversioned(names),
                    },
                    StatsStep::Ask(StatsQuery::LastUpdated),
                ),
                _ => (
                    StatsProgress::ListingMostDownloaded {
                        total_crates,
                        total_downloads,
                        crates_newest,
                    },
                    StatsStep::Ignore,
                ),
            },
            StatsProgress::ListingLastUpdated {
                total_crates,
                total_downloads,
                crates_newest,
                crates_most_downloaded,
            } => match answer {
                StatsAnswer::Failed(source) => (
                    StatsProgress::Finished,
                    StatsStep::Finish(Err(CratesStatsError::LastUpdated(source))),
                ),
                StatsAnswer::Versions(crates_last_updated) => (
                    StatsProgress::Finished,
                    StatsStep::Finish(
                        Ok(
                            GlobalStats {
                                total_downloads,
                                total_crates,
                                crates_newest,
                                crates_most_downloaded,
                                crates_last_updated,
                            },
                        ),
                    ),
                ),
                _ => (
                    StatsProgress::ListingLastUpdated {
                        total_crates,
                        total_downloads,
                        crates_newest,
                        crates_most_downloaded,
                    },
                    StatsStep::Ignore,
                ),
            },
        }
    }
}

} // verus!
