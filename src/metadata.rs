//! The metadata document of an asset and the classification of an asset as
//! image-bearing.

use vstd::prelude::*;

use reqwest::Url;

use crate::util::{gateway_url, ipfs_to_http, is_ipfs_uri};

verus! {

/// A JSON value, as the metadata service returns it.
pub enum Json {
    Null,
    Bool(bool),
    /// A number, kept as its decimal text.
    Number(String),
    Str(String),
    Array(Vec<Json>),
    Object(Vec<Member>),
}

/// One `"key": value` entry of a JSON object.
pub struct Member {
    pub key: String,
    pub value: Json,
}

/// The metadata of one asset: its id and, where the asset carries one, its
/// on-chain metadata document.
pub struct AssetMetadata {
    pub asset: String,
    pub onchain_metadata: Option<Json>,
}

/// An asset whose metadata names a resolvable image: its id and the image's source.
pub struct Asset {
    pub asset: String,
    pub src: String,
}

/// Where to fetch an image from, and the name of the file to store it under.
pub struct DownloadJob {
    pub url: String,
    pub filename: String,
}

#[verifier::external_type_specification]
#[verifier::external_body]
pub struct ExUrl(Url);

/// `Url::parse` accepts `s` as an absolute URL.
pub uninterp spec fn parses_as_url(s: Seq<char>) -> bool;

/// Relies on `Url::parse` of the url crate, which reqwest re-exports: whether it
/// accepts a text as an absolute URL depends on the text alone.
#[verifier::external_body]
fn parse_url(s: &str) -> (r: Option<Url>)
    ensures
        r is Some <==> parses_as_url(s@),
{
    Url::parse(s).ok()
}

/// Why a download job cannot be started.
#[derive(Clone, Copy, PartialEq, Eq, Structural)]
pub enum JobError {
    /// The job's URL is not a valid absolute URL.
    InvalidUrl,
}

impl DownloadJob {
    /// The job's URL, parsed for the HTTP request.
    pub fn target(&self) -> (r: Result<Url, JobError>)
        ensures
            r is Ok <==> parses_as_url(self.url@),
            r matches Err(e) ==> e == JobError::InvalidUrl,
    {
        match parse_url(self.url.as_str()) {
            Some(u) => Ok(u),
            None => Err(JobError::InvalidUrl),
        }
    }
}

/// The outcome of accepting an asset: the asset as reported, and its download job.
pub struct Classified {
    pub asset: Asset,
    pub job: DownloadJob,
}

/// `i` is the first position of `members` whose key is `key`.
pub open spec fn is_first_key(members: Seq<Member>, key: Seq<char>, i: int) -> bool {
    &&& 0 <= i < members.len()
    &&& members[i].key@ == key
    &&& forall|j: int| 0 <= j < i ==> members[j].key@ != key
}

/// The value under `key` in `v`, if `v` is an object that has that key (the
/// first such entry).
pub open spec fn member_value(v: Json, key: Seq<char>) -> Option<Json> {
    match v {
        Json::Object(ms) => if exists|i: int| is_first_key(ms@, key, i) {
            Some(ms@[choose|i: int| is_first_key(ms@, key, i)].value)
        } else {
            None
        },
        _ => None,
    }
}

/// The first file descriptor of the asset's on-chain metadata, if the document
/// has a non-empty `files` list.
pub open spec fn first_file(meta: AssetMetadata) -> Option<Json> {
    match meta.onchain_metadata {
        Some(doc) => match member_value(doc, "files"@) {
            Some(Json::Array(files)) => if files@.len() > 0 {
                Some(files@[0])
            } else {
                None
            },
            _ => None,
        },
        None => None,
    }
}

/// The string field `key` of the first file descriptor.
pub open spec fn file_field(meta: AssetMetadata, key: Seq<char>) -> Option<Seq<char>> {
    match first_file(meta) {
        Some(f) => match member_value(f, key) {
            Some(Json::Str(s)) => Some(s@),
            _ => None,
        },
        None => None,
    }
}

/// The source locator of the asset's image.
pub open spec fn image_source(meta: AssetMetadata) -> Option<Seq<char>> {
    file_field(meta, "src"@)
}

/// The media type that the asset declares for its image.
pub open spec fn declared_media_type(meta: AssetMetadata) -> Option<Seq<char>> {
    file_field(meta, "mediaType"@)
}

/// The media type of PNG images.
pub open spec fn png_media_type() -> Seq<char> {
    "image/png"@
}

/// The file extension for a declared media type: PNG maps to `png`, and every
/// other or missing type falls back to the default, which is `png` as well.
pub open spec fn extension_for(media: Option<Seq<char>>) -> Seq<char> {
    if media == Some(png_media_type()) {
        "png"@
    } else {
        "png"@
    }
}

/// The name of the file that stores the image of asset `id`.
pub open spec fn file_name(id: Seq<char>, extension: Seq<char>) -> Seq<char> {
    id + "."@ + extension
}

/// The asset is accepted: it names an image source in the IPFS scheme.
pub open spec fn is_image_asset(meta: AssetMetadata) -> bool {
    image_source(meta) matches Some(s) && is_ipfs_uri(s)
}

/// What accepting `meta` yields.
pub open spec fn classified_as(meta: AssetMetadata, c: Classified) -> bool {
    let s = image_source(meta)->0;
    &&& c.asset.asset@ == meta.asset@
    &&& c.asset.src@ == s
    &&& c.job.url@ == gateway_url(s)
    &&& c.job.filename@ == file_name(meta.asset@, extension_for(declared_media_type(meta)))
}

/// The position of the first member of `members` whose key is `key`.
pub fn find_member(members: &Vec<Member>, key: &str) -> (r: Option<usize>)
    ensures
        r matches Some(i) ==> is_first_key(members@, key@, i as int),
        r is None ==> forall|i: int| 0 <= i < members@.len() ==> members@[i].key@ != key@,
{
    let wanted = String::from_str(key);
    let mut i: usize = 0;
    while i < members.len()
        invariant
            i <= members@.len(),
            wanted@ == key@,
            forall|j: int| 0 <= j < i ==> members@[j].key@ != key@,
        decreases members@.len() - i,
    {
        if members[i].key == wanted {
            return Some(i);
        }
        i = i + 1;
    }
    None
}

impl Json {
    /// The value under `key`, if this is an object that has that key.
    pub fn member(&self, key: &str) -> (r: Option<&Json>)
        ensures
            r matches Some(v) ==> member_value(*self, key@) == Some(*v),
            r is None ==> member_value(*self, key@) is None,
    {
        match self {
            Json::Object(ms) => match find_member(ms, key) {
                Some(i) => {
                    assert(is_first_key(ms@, key@, i as int));
                    proof {
                        let c = choose|c: int| is_first_key(ms@, key@, c);
                        assert(c == i as int) by {
                            if c < i as int {
                                assert(ms@[c].key@ != key@);
                            } else if c > i as int {
                                assert(ms@[i as int].key@ != key@);
                            }
                        }
                    }
                    Some(&ms[i].value)
                },
                None => None,
            },
            _ => None,
        }
    }
}

/// The file extension for a declared media type.
pub fn extension_for_media_type(media: Option<&String>) -> (r: &'static str)
    ensures
        r@ == extension_for(
            match media {
                Some(t) => Some(t@),
                None => None,
            },
        ),
{
    let png = String::from_str("image/png");
    match media {
        Some(t) => if *t == png {
            "png"
        } else {
            "png"
        },
        None => "png",
    }
}

/// Decides whether an asset carries a resolvable image, and if so yields the
/// asset as reported and the job that downloads its image.
pub fn classify(meta: &AssetMetadata) -> (r: Option<Classified>)
    ensures
        r is Some <==> is_image_asset(*meta),
        r matches Some(c) ==> classified_as(*meta, c),
{
    let doc = match &meta.onchain_metadata {
        Some(d) => d,
        None => return None,
    };
    let files = match doc.member("files") {
        Some(Json::Array(files)) => files,
        _ => return None,
    };
    if files.len() == 0 {
        return None;
    }
    let first = &files[0];
    let src = match first.member("src") {
        Some(Json::Str(s)) => s,
        _ => return None,
    };
    let url = match ipfs_to_http(src.as_str()) {
        Ok(u) => u,
        Err(_) => return None,
    };
    let media = match first.member("mediaType") {
        Some(Json::Str(t)) => Some(t),
        _ => None,
    };
    let extension = extension_for_media_type(media);
    let mut filename = meta.asset.clone();
    filename.append(".");
    filename.append(extension);
    let asset = Asset { asset: meta.asset.clone(), src: src.clone() };
    Some(Classified { asset, job: DownloadJob { url, filename } })
}

/// An asset whose metadata has no non-empty file list, or whose first file
/// descriptor has no string source, is rejected.
pub proof fn missing_files_or_source_is_rejected(meta: AssetMetadata)
    requires
        first_file(meta) is None || !(member_value(first_file(meta)->0, "src"@) matches Some(
            Json::Str(_),
        )),
    ensures
        !is_image_asset(meta),
        image_source(meta) is None,
{
}

/// An asset whose image source is not an IPFS locator is rejected, even though
/// its metadata arrived.
pub proof fn non_ipfs_source_is_rejected(meta: AssetMetadata)
    requires
        image_source(meta) matches Some(s) && !is_ipfs_uri(s),
    ensures
        !is_image_asset(meta),
{
}

} // verus!
