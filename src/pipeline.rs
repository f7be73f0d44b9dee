//! The decisions of the metadata fetch pipeline: which asset ids to fetch, when to
//! refill the fetch window, and which downloads to start.
//!
//! The pipeline is driven from outside: the driver starts the fetches that the
//! pipeline hands out, and reports each fetch's outcome back with
//! [`MetadataPipeline::on_outcome`].

use vstd::prelude::*;

use crate::metadata::{classify, classified_as, is_image_asset, Asset, AssetMetadata, Classified, DownloadJob};

verus! {

/// What the driver does after an outcome: start a download, start the fetch of
/// another asset id, or neither.
pub struct FetchStep {
    pub download: Option<DownloadJob>,
    pub fetch_next: Option<String>,
}

/// The outcome of a fetch is accepted: the metadata came back and names an image.
pub open spec fn accepts(outcome: Option<AssetMetadata>) -> bool {
    outcome matches Some(m) && is_image_asset(m)
}

/// The state of one pipeline run.
///
/// The asset ids are handed out in listing order; an id is handed out at most
/// once, and at most `limit` fetches are outstanding at any time.
pub struct MetadataPipeline {
    ids: Vec<String>,
    next: usize,
    in_flight: usize,
    limit: usize,
    results: Vec<Asset>,
}

impl MetadataPipeline {
    /// The asset ids of the run, in listing order.
    pub closed spec fn ids(&self) -> Seq<String> {
        self.ids@
    }

    /// How many ids have been handed out for fetching.
    pub closed spec fn issued(&self) -> nat {
        self.next as nat
    }

    /// How many fetches are outstanding.
    pub closed spec fn outstanding(&self) -> nat {
        self.in_flight as nat
    }

    /// The most fetches that may be outstanding at once.
    pub closed spec fn window(&self) -> nat {
        self.limit as nat
    }

    /// The accepted assets, in the order their outcomes arrived.
    pub closed spec fn accepted(&self) -> Seq<Asset> {
        self.results@
    }

    /// The ids not yet handed out, next one first.
    pub open spec fn pending(&self) -> Seq<String> {
        self.ids().skip(self.issued() as int)
    }

    pub closed spec fn wf(&self) -> bool {
        &&& self.limit >= 1
        &&& self.next <= self.ids@.len()
        &&& self.in_flight <= self.next
        &&& self.in_flight <= self.limit
    }

    /// Starts a run over `asset_ids` with at most `limit` concurrent fetches.
    /// Returns the pipeline and the ids to fetch first: the first `limit` ids, or
    /// all of them if there are fewer.
    pub fn new(asset_ids: Vec<String>, limit: usize) -> (r: (MetadataPipeline, Vec<String>))
        requires
            limit >= 1,
        ensures
            r.0.wf(),
            r.0.ids() == asset_ids@,
            r.0.window() == limit,
            r.0.issued() == if asset_ids@.len() < limit { asset_ids@.len() } else { limit as nat },
            r.0.outstanding() == r.0.issued(),
            r.0.accepted() == Seq::<Asset>::empty(),
            r.1@ == asset_ids@.take(r.0.issued() as int),
    {
        let n: usize = if asset_ids.len() < limit { asset_ids.len() } else { limit };
        let mut first: Vec<String> = Vec::new();
        let mut i: usize = 0;
        while i < n
            invariant
                n <= asset_ids@.len(),
                i <= n,
                first@ == asset_ids@.take(i as int),
            decreases n - i,
        {
            first.push(asset_ids[i].clone());
            assert(first@ =~= asset_ids@.take(i + 1));
            i = i + 1;
        }
        let p = MetadataPipeline { ids: asset_ids, next: n, in_flight: n, limit, results: Vec::new() };
        (p, first)
    }

    /// Takes the outcome of one outstanding fetch (`None` where the fetch failed).
    ///
    /// An accepted outcome adds its asset to the results and yields its download;
    /// the fetch window then shrinks by one. A failed or rejected outcome is dropped
    /// and, while ids remain, the next one is handed out in its place.
    pub fn on_outcome(&mut self, outcome: Option<AssetMetadata>) -> (step: FetchStep)
        requires
            old(self).wf(),
            old(self).outstanding() > 0,
        ensures
            final(self).wf(),
            final(self).ids() == old(self).ids(),
            final(self).window() == old(self).window(),
            accepts(outcome) ==> {
                &&& step.download is Some
                &&& step.fetch_next is None
                &&& final(self).accepted() == old(self).accepted().push(final(self).accepted().last())
                &&& classified_as(
                    outcome->0,
                    (Classified { asset: final(self).accepted().last(), job: step.download->0 }),
                )
                &&& final(self).issued() == old(self).issued()
                &&& final(self).outstanding() == old(self).outstanding() - 1
            },
            !accepts(outcome) ==> {
                &&& step.download is None
                &&& final(self).accepted() == old(self).accepted()
                &&& old(self).pending().len() > 0 ==> {
                    &&& step.fetch_next == Some(old(self).pending()[0])
                    &&& final(self).issued() == old(self).issued() + 1
                    &&& final(self).outstanding() == old(self).outstanding()
                }
                &&& old(self).pending().len() == 0 ==> {
                    &&& step.fetch_next is None
                    &&& final(self).issued() == old(self).issued()
                    &&& final(self).outstanding() == old(self).outstanding() - 1
                }
            },
    {
        self.in_flight = self.in_flight - 1;
        let classified = match &outcome {
            Some(meta) => classify(meta),
            None => None,
        };
        match classified {
            Some(c) => {
                self.results.push(c.asset);
                FetchStep { download: Some(c.job), fetch_next: None }
            },
            None => {
                if self.next < self.ids.len() {
                    let id = self.ids[self.next].clone();
                    self.next = self.next + 1;
                    self.in_flight = self.in_flight + 1;
                    FetchStep { download: None, fetch_next: Some(id) }
                } else {
                    FetchStep { download: None, fetch_next: None }
                }
            },
        }
    }

    /// No fetch is outstanding: the run has drained.
    pub fn is_drained(&self) -> (r: bool)
        ensures
            r == (self.outstanding() == 0),
    {
        self.in_flight == 0
    }

    /// The number of outstanding fetches.
    pub fn in_flight(&self) -> (r: usize)
        ensures
            r == self.outstanding(),
    {
        self.in_flight
    }

    /// Ends the run, handing back the accepted assets.
    pub fn into_results(self) -> (r: Vec<Asset>)
        ensures
            r@ == self.accepted(),
    {
        self.results
    }
}

/// In every state of a run, at most `window` fetches are outstanding, and no
/// more ids have been handed out than the run was given.
pub proof fn fetch_window_is_bounded(p: &MetadataPipeline)
    requires
        p.wf(),
    ensures
        p.outstanding() <= p.window(),
        p.outstanding() <= p.issued() <= p.ids().len(),
{
}

} // verus!
