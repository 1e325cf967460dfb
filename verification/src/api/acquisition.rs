//! The order of an acquisition: choose the archive, download it, hold it
//! against its digest, unpack it.
//!
//! The caller does the work and reports what came of it; what follows from
//! each report is decided here.

use crate::api::checksum::text_of;
use crate::api::checksum::verification;
use crate::api::checksum::verify;
use crate::api::checksum::VerificationOutcome;
use crate::api::client::ClientError;
use crate::api::releases::first_archive;
use crate::api::releases::has_no_archive;
use crate::api::releases::lemma_no_archive;
use crate::api::releases::Release;
use vstd::prelude::*;

verus! {

/// Where an acquisition stands.
#[derive(Debug, PartialEq, Eq)]
pub enum Stage {
    /// Nothing has been done yet.
    Fetching,
    /// The archive is being downloaded. `checksum` is the digest that the
    /// bytes will be held against.
    Downloading { checksum: Option<String> },
    /// The archive has arrived and was held against the digest; the outcome
    /// is being made known.
    Verifying { bytes: Vec<u8> },
    /// The archive is being unpacked.
    Extracting,
    /// The archive was unpacked.
    Done,
    /// The acquisition has ended without the archive being unpacked.
    Failed(ClientError),
}

/// What the caller reports.
#[derive(Debug)]
pub enum Event<'a> {
    /// An acquisition of `release` is wanted, its archive to be held against
    /// `checksum`.
    Start { release: &'a Release, checksum: Option<String> },
    /// The download has ended, with the bytes of the archive or a failure.
    Downloaded(Result<Vec<u8>, ClientError>),
    /// The outcome of the verification was made known.
    Reported,
    /// The unpacking has ended; a failure comes with its description.
    Unpacked(Result<(), String>),
}

/// What the caller is to do next.
#[derive(Debug, PartialEq, Eq)]
pub enum Action {
    /// Download what is at this address.
    Download(String),
    /// Make this outcome known.
    Report(VerificationOutcome),
    /// Unpack these bytes into the destination.
    Unpack(Vec<u8>),
    /// The acquisition has ended: `Done` or `Failed` says how.
    Finish,
    /// Nothing: the report was not awaited.
    Nothing,
}

/// One step of an acquisition: the stage after a report, and what to do
/// next.
///
/// A release without an archive fails before anything is downloaded. A
/// failed download fails the acquisition with the same error. A digest that
/// does not match is reported and the archive is unpacked all the same. A
/// failed unpacking is a `DecodeError`. A report that the stage does not
/// await changes nothing.
pub open spec fn transition(stage: Stage, event: Event) -> (Stage, Action) {
    match (stage, event) {
        (Stage::Fetching, Event::Start { release, checksum }) => match first_archive(
            release.assets@,
        ) {
            Some(asset) => (
                Stage::Downloading { checksum },
                Action::Download(asset.browser_download_url),
            ),
            None => (Stage::Failed(ClientError::NoAsset), Action::Finish),
        },
        (Stage::Downloading { checksum }, Event::Downloaded(Ok(bytes))) => (
            Stage::Verifying { bytes },
            Action::Report(verification(bytes@, text_of(checksum))),
        ),
        (Stage::Downloading { .. }, Event::Downloaded(Err(error))) => (
            Stage::Failed(error),
            Action::Finish,
        ),
        (Stage::Verifying { bytes }, Event::Reported) => (Stage::Extracting, Action::Unpack(bytes)),
        (Stage::Extracting, Event::Unpacked(Ok(_))) => (Stage::Done, Action::Finish),
        (Stage::Extracting, Event::Unpacked(Err(description))) => (
            Stage::Failed(ClientError::DecodeError(description)),
            Action::Finish,
        ),
        _ => (stage, Action::Nothing),
    }
}

/// Takes one report of the caller and says what to do next.
pub fn advance(stage: Stage, event: Event) -> (next: (Stage, Action))
    ensures
        next == transition(stage, event),
{
    match (stage, event) {
        (Stage::Fetching, Event::Start { release, checksum }) => {
            match release.get_download_link() {
                Some(link) => (Stage::Downloading { checksum }, Action::Download(link)),
                None => (Stage::Failed(ClientError::NoAsset), Action::Finish),
            }
        },
        (Stage::Downloading { checksum }, Event::Downloaded(Ok(bytes))) => {
            let outcome = verify(bytes.as_slice(), &checksum);
            (Stage::Verifying { bytes }, Action::Report(outcome))
        },
        (Stage::Downloading { .. }, Event::Downloaded(Err(error))) => (
            Stage::Failed(error),
            Action::Finish,
        ),
        (Stage::Verifying { bytes }, Event::Reported) => (Stage::Extracting, Action::Unpack(bytes)),
        (Stage::Extracting, Event::Unpacked(Ok(_))) => (Stage::Done, Action::Finish),
        (Stage::Extracting, Event::Unpacked(Err(description))) => (
            Stage::Failed(ClientError::DecodeError(description)),
            Action::Finish,
        ),
        (stage, _) => (stage, Action::Nothing),
    }
}

impl Stage {
    /// What the acquisition came to, once it has ended.
    pub fn into_result(self) -> (result: Option<Result<(), ClientError>>)
        ensures
            result == match self {
                Stage::Done => Some(Ok::<(), ClientError>(())),
                Stage::Failed(error) => Some(Err::<(), ClientError>(error)),
                _ => None,
            },
    {
        match self {
            Stage::Done => Some(Ok(())),
            Stage::Failed(error) => Some(Err(error)),
            _ => None,
        }
    }
}

/// A release without an archive, be it without assets at all, fails at the
/// first step, and no download is asked for.
pub proof fn lemma_no_archive_no_download(release: &Release, checksum: Option<String>)
    requires
        has_no_archive(release.assets@),
    ensures
        transition(Stage::Fetching, Event::Start { release, checksum }) == (
            Stage::Failed(ClientError::NoAsset),
            Action::Finish,
        ),
{
    lemma_no_archive(release.assets@);
}

} // verus!
