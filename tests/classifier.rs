use cardano_book_image_fetcher::metadata::{classify, find_member, AssetMetadata, DownloadJob, JobError, Json, Member};

fn member(key: &str, value: Json) -> Member {
    Member { key: key.to_string(), value }
}

fn text(s: &str) -> Json {
    Json::Str(s.to_string())
}

fn with_files(id: &str, files: Vec<Json>) -> AssetMetadata {
    AssetMetadata {
        asset: id.to_string(),
        onchain_metadata: Some(Json::Object(vec![
            member("name", text("A book")),
            member("files", Json::Array(files)),
        ])),
    }
}

fn file(fields: Vec<Member>) -> Json {
    Json::Object(fields)
}

#[test]
fn ipfs_source_is_accepted() {
    let meta = with_files("A", vec![file(vec![member("src", text("ipfs://CID1"))])]);
    let c = classify(&meta).unwrap();
    assert_eq!(c.asset.asset, "A");
    assert_eq!(c.asset.src, "ipfs://CID1");
    assert_eq!(c.job.url, "https://ipfs.io/ipfs/CID1");
    assert_eq!(c.job.filename, "A.png");
}

#[test]
fn png_media_type_names_png_file() {
    let meta = with_files(
        "B",
        vec![file(vec![member("mediaType", text("image/png")), member("src", text("ipfs://CID2"))])],
    );
    assert_eq!(classify(&meta).unwrap().job.filename, "B.png");
}

#[test]
fn unknown_media_type_falls_back_to_png() {
    let meta = with_files(
        "C",
        vec![file(vec![member("src", text("ipfs://CID3")), member("mediaType", text("image/jpeg"))])],
    );
    assert_eq!(classify(&meta).unwrap().job.filename, "C.png");
}

#[test]
fn only_first_file_is_inspected() {
    let meta = with_files(
        "D",
        vec![
            file(vec![member("src", text("https://example.com/x.png"))]),
            file(vec![member("src", text("ipfs://CID4"))]),
        ],
    );
    assert!(classify(&meta).is_none());
}

#[test]
fn missing_metadata_is_rejected() {
    let meta = AssetMetadata { asset: "E".to_string(), onchain_metadata: None };
    assert!(classify(&meta).is_none());
}

#[test]
fn missing_files_is_rejected() {
    let meta = AssetMetadata {
        asset: "B".to_string(),
        onchain_metadata: Some(Json::Object(vec![member("name", text("no files"))])),
    };
    assert!(classify(&meta).is_none());
}

#[test]
fn empty_files_is_rejected() {
    assert!(classify(&with_files("F", vec![])).is_none());
}

#[test]
fn files_not_a_list_is_rejected() {
    let meta = AssetMetadata {
        asset: "G".to_string(),
        onchain_metadata: Some(Json::Object(vec![member("files", text("ipfs://CID1"))])),
    };
    assert!(classify(&meta).is_none());
}

#[test]
fn missing_source_is_rejected() {
    let meta = with_files("H", vec![file(vec![member("mediaType", text("image/png"))])]);
    assert!(classify(&meta).is_none());
}

#[test]
fn non_string_source_is_rejected() {
    let meta = with_files("I", vec![file(vec![member("src", Json::Number("7".to_string()))])]);
    assert!(classify(&meta).is_none());
}

#[test]
fn non_ipfs_source_is_rejected() {
    let meta = with_files("J", vec![file(vec![member("src", text("ar://CID1"))])]);
    assert!(classify(&meta).is_none());
}

#[test]
fn first_matching_member_is_found() {
    let ms = vec![member("a", Json::Null), member("b", Json::Bool(true)), member("b", Json::Null)];
    assert_eq!(find_member(&ms, "b"), Some(1));
    assert_eq!(find_member(&ms, "a"), Some(0));
    assert_eq!(find_member(&ms, "c"), None);
}

#[test]
fn gateway_job_url_parses() {
    let meta = with_files("K", vec![file(vec![member("src", text("ipfs://CID1"))])]);
    let job = classify(&meta).unwrap().job;
    let url = job.target().ok().unwrap();
    assert_eq!(url.as_str(), "https://ipfs.io/ipfs/CID1");
    assert_eq!(url.host_str(), Some("ipfs.io"));
}

#[test]
fn relative_job_url_is_refused() {
    let job = DownloadJob { url: "not a url".to_string(), filename: "x.png".to_string() };
    assert!(job.target().err() == Some(JobError::InvalidUrl));
}
