//! The client of the BlockFrost API, which lists a policy's assets and serves
//! each asset's metadata.

use vstd::prelude::*;

use blockfrost::BlockfrostAPI;

verus! {

#[verifier::external_type_specification]
#[verifier::external_body]
pub struct ExBlockfrostAPI(BlockfrostAPI);

/// How many items one page of a listing holds.
pub const PAGE_SIZE: usize = 20;

/// Why the service could not be set up.
#[derive(Clone, Copy, PartialEq, Eq, Structural)]
pub enum ConfigError {
    /// The project id cannot be sent as an HTTP header value.
    InvalidProjectId,
    /// The HTTP client could not be built (for instance, no TLS root
    /// certificates could be loaded).
    ClientUnavailable,
}

/// `c` may stand in an HTTP header value: a tab, or no control character.
pub open spec fn is_header_char(c: char) -> bool {
    c == '\t' || (c as u32 >= 32 && c as u32 != 127)
}

/// Every character of `s` may stand in an HTTP header value.
pub open spec fn is_header_value(s: Seq<char>) -> bool {
    forall|i: int| 0 <= i < s.len() ==> is_header_char(#[trigger] s[i])
}

/// Relies on blockfrost's `BlockfrostAPI::new_with_client` with default settings
/// and a default reqwest `ClientBuilder`: it panics where the project id is not a
/// valid HTTP header value (a byte below 32 other than tab, or 127), and returns
/// an error where the HTTP client cannot be built.
#[verifier::external_body]
fn blockfrost_client(project_id: &str) -> (r: Option<BlockfrostAPI>)
    requires
        is_header_value(project_id@),
{
    BlockfrostAPI::new_with_client(
        project_id,
        blockfrost::BlockFrostSettings::new(),
        reqwest::ClientBuilder::new(),
    ).ok()
}

/// The BlockFrost API client of this program, with its listing page size.
pub struct BlockFrostService {
    client: BlockfrostAPI,
    page_size: usize,
}

impl BlockFrostService {
    /// Sets up the client for the project `project_id`.
    pub fn new(project_id: &str) -> (r: Result<BlockFrostService, ConfigError>)
        ensures
            !is_header_value(project_id@) ==> r == Err::<BlockFrostService, ConfigError>(
                ConfigError::InvalidProjectId,
            ),
            is_header_value(project_id@) ==> (r is Ok || r == Err::<BlockFrostService, ConfigError>(
                ConfigError::ClientUnavailable,
            )),
            r matches Ok(s) ==> s.page_size() == PAGE_SIZE,
    {
        let n: usize = project_id.unicode_len();
        let mut i: usize = 0;
        while i < n
            invariant
                n == project_id@.len(),
                i <= n,
                forall|j: int| 0 <= j < i ==> is_header_char(#[trigger] project_id@[j]),
            decreases n - i,
        {
            let c = project_id.get_char(i);
            let code = c as u32;
            if !(c == '\t' || (code >= 32 && code != 127)) {
                return Err(ConfigError::InvalidProjectId);
            }
            i = i + 1;
        }
        match blockfrost_client(project_id) {
            Some(client) => Ok(BlockFrostService { client, page_size: PAGE_SIZE }),
            None => Err(ConfigError::ClientUnavailable),
        }
    }

    pub closed spec fn page_size(&self) -> usize {
        self.page_size
    }

    /// The number of items per listing page.
    pub fn listing_page_size(&self) -> (r: usize)
        ensures
            r == self.page_size(),
    {
        self.page_size
    }

    /// The API client.
    pub fn client(&self) -> &BlockfrostAPI {
        &self.client
    }
}

} // verus!
