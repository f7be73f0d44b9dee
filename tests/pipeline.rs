use cardano_book_image_fetcher::metadata::{AssetMetadata, Json, Member};
use cardano_book_image_fetcher::pipeline::MetadataPipeline;

fn ids(names: &[&str]) -> Vec<String> {
    names.iter().map(|s| s.to_string()).collect()
}

fn image_asset(id: &str, cid: &str) -> AssetMetadata {
    let file = Json::Object(vec![Member { key: "src".to_string(), value: Json::Str(format!("ipfs://{}", cid)) }]);
    AssetMetadata {
        asset: id.to_string(),
        onchain_metadata: Some(Json::Object(vec![Member {
            key: "files".to_string(),
            value: Json::Array(vec![file]),
        }])),
    }
}

fn no_files(id: &str) -> AssetMetadata {
    AssetMetadata { asset: id.to_string(), onchain_metadata: Some(Json::Object(vec![])) }
}

#[test]
fn first_fetches_fill_the_window() {
    let (p, first) = MetadataPipeline::new(ids(&["A", "B", "C"]), 2);
    assert_eq!(first, ids(&["A", "B"]));
    assert_eq!(p.in_flight(), 2);
    let (p, first) = MetadataPipeline::new(ids(&["A"]), 4);
    assert_eq!(first, ids(&["A"]));
    assert_eq!(p.in_flight(), 1);
}

#[test]
fn empty_listing_is_drained_at_once() {
    let (p, first) = MetadataPipeline::new(vec![], 3);
    assert!(first.is_empty());
    assert!(p.is_drained());
    assert!(p.into_results().is_empty());
}

#[test]
fn two_assets_one_valid_window_one() {
    let (mut p, first) = MetadataPipeline::new(ids(&["A", "B"]), 1);
    assert_eq!(first, ids(&["A"]));
    let step = p.on_outcome(Some(image_asset("A", "CID1")));
    let job = step.download.unwrap();
    assert_eq!(job.url, "https://ipfs.io/ipfs/CID1");
    assert_eq!(job.filename, "A.png");
    assert!(step.fetch_next.is_none());
    assert!(p.is_drained());
    let results = p.into_results();
    assert_eq!(results.len(), 1);
    assert_eq!(results[0].asset, "A");
    assert_eq!(results[0].src, "ipfs://CID1");
}

#[test]
fn rejected_asset_is_replaced_by_next_id() {
    let (mut p, first) = MetadataPipeline::new(ids(&["B", "A"]), 1);
    assert_eq!(first, ids(&["B"]));
    let step = p.on_outcome(Some(no_files("B")));
    assert!(step.download.is_none());
    assert_eq!(step.fetch_next, Some("A".to_string()));
    assert_eq!(p.in_flight(), 1);
    let step = p.on_outcome(Some(image_asset("A", "CID1")));
    assert_eq!(step.download.unwrap().filename, "A.png");
    assert!(p.is_drained());
    let results = p.into_results();
    assert_eq!(results.len(), 1);
    assert_eq!(results[0].asset, "A");
}

#[test]
fn failed_fetch_is_replaced_and_not_retried() {
    let (mut p, _) = MetadataPipeline::new(ids(&["X", "Y"]), 1);
    let step = p.on_outcome(None);
    assert_eq!(step.fetch_next, Some("Y".to_string()));
    let step = p.on_outcome(None);
    assert!(step.fetch_next.is_none());
    assert!(step.download.is_none());
    assert!(p.is_drained());
    assert!(p.into_results().is_empty());
}

#[test]
fn outstanding_fetches_never_exceed_window() {
    let (mut p, first) = MetadataPipeline::new(ids(&["a", "b", "c", "d", "e"]), 2);
    assert_eq!(first.len(), 2);
    let mut handed_out = 2;
    while !p.is_drained() {
        assert!(p.in_flight() <= 2);
        let step = p.on_outcome(None);
        if step.fetch_next.is_some() {
            handed_out += 1;
        }
    }
    assert_eq!(handed_out, 5);
}

#[test]
fn accepted_outcomes_shrink_the_window() {
    let (mut p, _) = MetadataPipeline::new(ids(&["a", "b", "c"]), 2);
    let step = p.on_outcome(Some(image_asset("a", "C1")));
    assert!(step.fetch_next.is_none());
    assert_eq!(p.in_flight(), 1);
    let step = p.on_outcome(Some(image_asset("b", "C2")));
    assert!(step.fetch_next.is_none());
    assert!(p.is_drained());
    let results = p.into_results();
    assert_eq!(results.len(), 2);
    assert_eq!(results[1].asset, "b");
}
