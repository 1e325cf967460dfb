use prefix_manager::api::acquisition::advance;
use prefix_manager::api::acquisition::Action;
use prefix_manager::api::acquisition::Event;
use prefix_manager::api::acquisition::Stage;
use prefix_manager::api::checksum::VerificationOutcome;
use prefix_manager::api::client::ClientError;
use prefix_manager::api::releases::Asset;
use prefix_manager::api::releases::Release;

const HELLO_WORLD: &str = "sha256:b94d27b9934d3e08a52e52d7da7dabfac484efe37a5380ee9088f7ace2efcde9";

fn named(name: &str) -> Asset {
    Asset {
        browser_download_url: format!("https://example.net/download/{}", name),
        name: name.to_string(),
        content_type: "application/gzip".to_string(),
        digest: None,
        size: 11,
    }
}

fn release(names: &[&str]) -> Release {
    Release {
        url: "https://example.net/releases/1".to_string(),
        tag_name: "GE-Proton9-1".to_string(),
        assets: names.iter().map(|n| named(n)).collect(),
    }
}

#[test]
fn whole_acquisition() {
    let r = release(&["notes.txt", "proton.tar.gz"]);
    let checksum = Some(HELLO_WORLD.to_string());
    let (stage, action) = advance(Stage::Fetching, Event::Start { release: &r, checksum: checksum.clone() });
    assert_eq!(stage, Stage::Downloading { checksum });
    assert_eq!(action, Action::Download("https://example.net/download/proton.tar.gz".to_string()));
    let (stage, action) = advance(stage, Event::Downloaded(Ok(b"hello world".to_vec())));
    assert_eq!(stage, Stage::Verifying { bytes: b"hello world".to_vec() });
    assert_eq!(action, Action::Report(VerificationOutcome::Verified));
    let (stage, action) = advance(stage, Event::Reported);
    assert_eq!(stage, Stage::Extracting);
    assert_eq!(action, Action::Unpack(b"hello world".to_vec()));
    let (stage, action) = advance(stage, Event::Unpacked(Ok(())));
    assert_eq!(stage, Stage::Done);
    assert_eq!(action, Action::Finish);
    assert_eq!(stage.into_result(), Some(Ok(())));
}

#[test]
fn release_without_assets_fails_before_any_download() {
    let r = release(&[]);
    let (stage, action) = advance(Stage::Fetching, Event::Start { release: &r, checksum: None });
    assert_eq!(stage, Stage::Failed(ClientError::NoAsset));
    assert_eq!(action, Action::Finish);
    assert_eq!(stage.into_result(), Some(Err(ClientError::NoAsset)));
}

#[test]
fn release_without_archive_fails_before_any_download() {
    let r = release(&["notes.txt", "proton.tar.xz", "proton.sha512sum"]);
    let checksum = Some(HELLO_WORLD.to_string());
    let (stage, action) = advance(Stage::Fetching, Event::Start { release: &r, checksum });
    assert_eq!(stage, Stage::Failed(ClientError::NoAsset));
    assert_eq!(action, Action::Finish);
}

#[test]
fn failed_download_fails_the_acquisition() {
    let stage = Stage::Downloading { checksum: None };
    let error = ClientError::Http { status: 404, body: "not found".to_string() };
    let (stage, action) = advance(stage, Event::Downloaded(Err(error)));
    assert_eq!(stage, Stage::Failed(ClientError::Http { status: 404, body: "not found".to_string() }));
    assert_eq!(action, Action::Finish);
    assert_eq!(
        stage.into_result(),
        Some(Err(ClientError::Http { status: 404, body: "not found".to_string() }))
    );
}

#[test]
fn broken_stream_fails_the_acquisition() {
    let stage = Stage::Downloading { checksum: Some(HELLO_WORLD.to_string()) };
    let error = ClientError::RequestError("connection reset".to_string());
    let (stage, action) = advance(stage, Event::Downloaded(Err(error)));
    assert_eq!(stage, Stage::Failed(ClientError::RequestError("connection reset".to_string())));
    assert_eq!(action, Action::Finish);
}

#[test]
fn mismatch_is_reported_and_the_archive_unpacked() {
    let stage = Stage::Downloading { checksum: Some(HELLO_WORLD.to_string()) };
    let (stage, action) = advance(stage, Event::Downloaded(Ok(b"other bytes".to_vec())));
    assert_eq!(action, Action::Report(VerificationOutcome::Mismatched));
    let (stage, action) = advance(stage, Event::Reported);
    assert_eq!(stage, Stage::Extracting);
    assert_eq!(action, Action::Unpack(b"other bytes".to_vec()));
}

#[test]
fn download_without_checksum_is_reported_as_skipped() {
    let stage = Stage::Downloading { checksum: None };
    let (stage, action) = advance(stage, Event::Downloaded(Ok(vec![1, 2, 3])));
    assert_eq!(stage, Stage::Verifying { bytes: vec![1, 2, 3] });
    assert_eq!(action, Action::Report(VerificationOutcome::Skipped));
}

#[test]
fn failed_unpacking_is_a_decode_error() {
    let (stage, action) = advance(Stage::Extracting, Event::Unpacked(Err("unexpected end of file".to_string())));
    assert_eq!(stage, Stage::Failed(ClientError::DecodeError("unexpected end of file".to_string())));
    assert_eq!(action, Action::Finish);
}

#[test]
fn ended_acquisition_asks_for_nothing() {
    let r = release(&["proton.tar.gz"]);
    assert_eq!(
        advance(Stage::Done, Event::Start { release: &r, checksum: None }),
        (Stage::Done, Action::Nothing)
    );
    assert_eq!(advance(Stage::Done, Event::Reported), (Stage::Done, Action::Nothing));
    assert_eq!(
        advance(Stage::Failed(ClientError::NoAsset), Event::Unpacked(Ok(()))),
        (Stage::Failed(ClientError::NoAsset), Action::Nothing)
    );
    assert_eq!(
        advance(Stage::Failed(ClientError::NoAsset), Event::Downloaded(Ok(vec![]))),
        (Stage::Failed(ClientError::NoAsset), Action::Nothing)
    );
}

#[test]
fn report_out_of_turn_changes_nothing() {
    let r = release(&["proton.tar.gz"]);
    assert_eq!(advance(Stage::Fetching, Event::Reported), (Stage::Fetching, Action::Nothing));
    assert_eq!(
        advance(Stage::Fetching, Event::Downloaded(Ok(vec![1]))),
        (Stage::Fetching, Action::Nothing)
    );
    assert_eq!(
        advance(Stage::Downloading { checksum: None }, Event::Start { release: &r, checksum: None }),
        (Stage::Downloading { checksum: None }, Action::Nothing)
    );
    assert_eq!(
        advance(Stage::Verifying { bytes: vec![1] }, Event::Unpacked(Ok(()))),
        (Stage::Verifying { bytes: vec![1] }, Action::Nothing)
    );
    assert_eq!(advance(Stage::Extracting, Event::Reported), (Stage::Extracting, Action::Nothing));
}

#[test]
fn result_exists_only_at_the_end() {
    assert_eq!(Stage::Fetching.into_result(), None);
    assert_eq!(Stage::Downloading { checksum: None }.into_result(), None);
    assert_eq!(Stage::Verifying { bytes: vec![] }.into_result(), None);
    assert_eq!(Stage::Extracting.into_result(), None);
    assert_eq!(Stage::Done.into_result(), Some(Ok(())));
}
