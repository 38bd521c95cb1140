//! Posts: attaching stored assets to a new post, and the feed's cursors.
use vstd::prelude::*;

use crate::asset::StoredAsset;

verus! {

/// The body of a request to publish a post with its media, in order.
#[derive(Clone, Debug, PartialEq, Eq)]
pub struct PublishPostRequest {
    pub description: Option<String>,
    pub media_ids: Vec<i32>,
}

/// A window of the feed, newest first: posts with ids at least `after`
/// and at most `before`, `per_page` at a time.
#[derive(Clone, Copy, Debug, PartialEq, Eq, Structural)]
pub struct Pagination {
    pub before: Option<i64>,
    pub after: Option<i64>,
    pub per_page: u64,
}

/// The query that selects a feed window, newest first.
#[derive(Clone, Copy, Debug, PartialEq, Eq, Structural)]
pub enum FeedQuery {
    /// Every post with `after <= id <= before`.
    Between { after: i64, before: i64 },
    /// At most `limit` posts with `after <= id`.
    From { after: i64, limit: u64 },
    /// At most `limit` posts with `id <= before`.
    Until { before: i64, limit: u64 },
    /// The `limit` newest posts.
    Latest { limit: u64 },
}

pub fn feed_query(p: &Pagination) -> (r: FeedQuery)
    ensures
        r == match (p.before, p.after) {
            (Some(b), Some(a)) => FeedQuery::Between { after: a, before: b },
            (None, Some(a)) => FeedQuery::From { after: a, limit: p.per_page },
            (Some(b), None) => FeedQuery::Until { before: b, limit: p.per_page },
            (None, None) => FeedQuery::Latest { limit: p.per_page },
        },
{
    match (p.before, p.after) {
        (Some(b), Some(a)) => FeedQuery::Between { after: a, before: b },
        (None, Some(a)) => FeedQuery::From { after: a, limit: p.per_page },
        (Some(b), None) => FeedQuery::Until { before: b, limit: p.per_page },
        (None, None) => FeedQuery::Latest { limit: p.per_page },
    }
}

/// One hit of a post search.
#[derive(Clone, Debug, PartialEq, Eq)]
pub struct PostSearchResult {
    pub id: i32,
    pub username: String,
    pub nickname: String,
    pub description: Option<String>,
}

#[derive(Clone, Debug, PartialEq, Eq)]
pub struct PostSearchResults {
    pub hits: Vec<PostSearchResult>,
}

#[derive(Clone, Copy, Debug, PartialEq, Eq, Structural)]
pub enum AttachError {
    /// No stored asset has this id.
    NotFound(i32),
    /// The asset is already attached to a post, or named twice.
    AlreadyAttached(i32),
}

pub open spec fn has_asset(assets: Seq<StoredAsset>, id: i32) -> bool {
    exists|k: int| 0 <= k < assets.len() && #[trigger] assets[k].id == id
}

pub open spec fn is_claimed(assets: Seq<StoredAsset>, id: i32) -> bool {
    exists|k: int| 0 <= k < assets.len() && #[trigger] assets[k].id == id && assets[k].post_id.is_some()
}

/// Why the id `id`, coming after `earlier`, cannot be attached.
pub open spec fn entry_error(assets: Seq<StoredAsset>, earlier: Seq<i32>, id: i32) -> Option<
    AttachError,
> {
    if !has_asset(assets, id) {
        Some(AttachError::NotFound(id))
    } else if is_claimed(assets, id) || earlier.contains(id) {
        Some(AttachError::AlreadyAttached(id))
    } else {
        None
    }
}

/// The error of the first id, in submission order, that cannot be attached.
pub open spec fn first_attach_error(assets: Seq<StoredAsset>, ids: Seq<i32>) -> Option<AttachError>
    decreases ids.len(),
{
    if ids.len() == 0 {
        None
    } else {
        match first_attach_error(assets, ids.drop_last()) {
            Some(e) => Some(e),
            None => entry_error(assets, ids.drop_last(), ids.last()),
        }
    }
}

/// `b` is `a` attached to `post_id` at position `sort`.
pub open spec fn attached_as(b: StoredAsset, a: StoredAsset, post_id: i32, sort: int) -> bool {
    b == (StoredAsset { post_id: Some(post_id), sort_index: Some(sort as u32), ..a })
}

/// `after` is `before` with every asset that `ids` names attached to
/// `post_id`, at the position of its id in `ids`, and every other asset
/// unchanged.
pub open spec fn attached_all(
    before: Seq<StoredAsset>,
    after: Seq<StoredAsset>,
    post_id: i32,
    ids: Seq<i32>,
) -> bool {
    &&& after.len() == before.len()
    &&& forall|k: int, j: int|
        0 <= k < before.len() && 0 <= j < ids.len() && #[trigger] before[k].id == #[trigger] ids[j]
            ==> attached_as(after[k], before[k], post_id, j)
    &&& forall|k: int| 0 <= k < before.len() && !ids.contains(#[trigger] before[k].id) ==> after[k]
        == before[k]
}

/// Once a prefix of the ids fails, the whole list fails with the same error.
proof fn lemma_error_persists(assets: Seq<StoredAsset>, ids: Seq<i32>, i: int)
    requires
        0 <= i <= ids.len(),
        first_attach_error(assets, ids.subrange(0, i)) is Some,
    ensures
        first_attach_error(assets, ids) == first_attach_error(assets, ids.subrange(0, i)),
    decreases ids.len(),
{
    if i < ids.len() {
        assert(ids.drop_last().subrange(0, i) =~= ids.subrange(0, i));
        lemma_error_persists(assets, ids.drop_last(), i);
    } else {
        assert(ids.subrange(0, i) =~= ids);
    }
}

/// An attachment that names an asset already attached to a post fails;
/// `attach_assets` then leaves every asset, that one's post included, as it
/// was.
pub proof fn lemma_claimed_asset_blocks_attachment(assets: Seq<StoredAsset>, ids: Seq<i32>, j: int)
    requires
        0 <= j < ids.len(),
        is_claimed(assets, ids[j]),
    ensures
        first_attach_error(assets, ids) is Some,
{
    if first_attach_error(assets, ids.subrange(0, j)) is Some {
        lemma_error_persists(assets, ids, j);
    } else {
        assert(ids.subrange(0, j + 1).drop_last() =~= ids.subrange(0, j));
        assert(has_asset(assets, ids[j]));
        lemma_error_persists(assets, ids, j + 1);
    }
}

/// Without an error, the ids are distinct and each names an unclaimed asset.
proof fn lemma_no_error_facts(assets: Seq<StoredAsset>, ids: Seq<i32>)
    requires
        first_attach_error(assets, ids) is None,
    ensures
        forall|j: int| 0 <= j < ids.len() ==> has_asset(assets, #[trigger] ids[j]) && !is_claimed(assets, ids[j]),
        forall|j1: int, j2: int| 0 <= j1 < ids.len() && 0 <= j2 < ids.len() && #[trigger] ids[j1] == #[trigger] ids[j2] ==> j1 == j2,
    decreases ids.len(),
{
    if ids.len() > 0 {
        let rest = ids.drop_last();
        lemma_no_error_facts(assets, rest);
        assert(entry_error(assets, rest, ids.last()) is None);
        assert forall|j1: int, j2: int| 0 <= j1 < ids.len() && 0 <= j2 < ids.len() && #[trigger] ids[j1] == #[trigger] ids[j2] implies j1 == j2 by {
            if j1 < ids.len() - 1 && j2 == ids.len() - 1 {
                assert(rest[j1] == ids[j1]);
                assert(rest.contains(ids.last()));
            } else if j2 < ids.len() - 1 && j1 == ids.len() - 1 {
                assert(rest[j2] == ids[j2]);
                assert(rest.contains(ids.last()));
            } else if j1 < ids.len() - 1 && j2 < ids.len() - 1 {
                assert(rest[j1] == ids[j1] && rest[j2] == ids[j2]);
            }
        }
        assert forall|j: int| 0 <= j < ids.len() implies has_asset(assets, #[trigger] ids[j]) && !is_claimed(assets, ids[j]) by {
            if j < ids.len() - 1 {
                assert(rest[j] == ids[j]);
            }
        }
    }
}

/// Finds the first position of `id` in `ids`.
fn position_of(ids: &Vec<i32>, id: i32) -> (r: Option<usize>)
    ensures
        match r {
            Some(j) => j < ids@.len() && ids@[j as int] == id,
            None => !ids@.contains(id),
        },
{
    let mut j: usize = 0;
    while j < ids.len()
        invariant
            j <= ids@.len(),
            forall|t: int| 0 <= t < j ==> ids@[t] != id,
        decreases ids@.len() - j,
    {
        if ids[j] == id {
            return Some(j);
        }
        j = j + 1;
    }
    None
}

/// Attaches the assets named by `media_ids` to the post `post_id`, each at
/// the position of its id. The whole attachment happens or none of it: the
/// first id that names no asset, names an asset already attached to a post,
/// or repeats an earlier id, fails it and leaves every asset as it was.
pub fn attach_assets(assets: &mut Vec<StoredAsset>, post_id: i32, media_ids: &Vec<i32>) -> (r: Result<
    (),
    AttachError,
>)
    requires
        media_ids@.len() <= u32::MAX,
    ensures
        r == match first_attach_error(old(assets)@, media_ids@) {
            Some(e) => Err::<(), AttachError>(e),
            None => Ok(()),
        },
        r.is_err() ==> final(assets)@ == old(assets)@,
        r.is_ok() ==> attached_all(old(assets)@, final(assets)@, post_id, media_ids@),
{
    let n = assets.len();
    let m = media_ids.len();
    let mut i: usize = 0;
    while i < m
        invariant
            i <= m == media_ids@.len(),
            n == assets@.len(),
            first_attach_error(assets@, media_ids@.subrange(0, i as int)) is None,
        decreases m - i,
    {
        let id = media_ids[i];
        let mut found = false;
        let mut claimed = false;
        let mut k: usize = 0;
        while k < n
            invariant
                k <= n == assets@.len(),
                found == (exists|t: int| 0 <= t < k && #[trigger] assets@[t].id == id),
                claimed == (exists|t: int| 0 <= t < k && #[trigger] assets@[t].id == id && assets@[t].post_id.is_some()),
            decreases n - k,
        {
            if assets[k].id == id {
                found = true;
                if assets[k].post_id.is_some() {
                    claimed = true;
                }
            }
            k = k + 1;
        }
        let mut repeated = false;
        let mut t: usize = 0;
        while t < i
            invariant
                t <= i < m == media_ids@.len(),
                repeated == (exists|u: int| 0 <= u < t && media_ids@[u] == id),
            decreases i - t,
        {
            if media_ids[t] == id {
                repeated = true;
            }
            t = t + 1;
        }
        let ghost prefix = media_ids@.subrange(0, i as int);
        assert(media_ids@.subrange(0, i + 1).drop_last() =~= prefix);
        assert(repeated == prefix.contains(id)) by {
            if repeated {
                let u = choose|u: int| 0 <= u < i && media_ids@[u] == id;
                assert(prefix[u] == id);
            }
        }
        if !found {
            proof {
                lemma_error_persists(assets@, media_ids@, i + 1);
            }
            return Err(AttachError::NotFound(id));
        }
        if claimed || repeated {
            proof {
                lemma_error_persists(assets@, media_ids@, i + 1);
            }
            return Err(AttachError::AlreadyAttached(id));
        }
        i = i + 1;
    }
    assert(media_ids@.subrange(0, m as int) =~= media_ids@);
    proof {
        lemma_no_error_facts(assets@, media_ids@);
    }
    let ghost before = assets@;
    let mut k: usize = 0;
    while k < n
        invariant
            k <= n == assets@.len() == before.len(),
            m == media_ids@.len() <= u32::MAX,
            forall|t: int| k <= t < n ==> assets@[t] == before[t],
            forall|t: int, j: int|
                0 <= t < k && 0 <= j < m && #[trigger] before[t].id == #[trigger] media_ids@[j]
                    ==> attached_as(assets@[t], before[t], post_id, j),
            forall|t: int| 0 <= t < k && !media_ids@.contains(#[trigger] before[t].id) ==> assets@[t] == before[t],
            forall|j1: int, j2: int| 0 <= j1 < m && 0 <= j2 < m && #[trigger] media_ids@[j1] == #[trigger] media_ids@[j2] ==> j1 == j2,
        decreases n - k,
    {
        let id = assets[k].id;
        match position_of(media_ids, id) {
            Some(j) => {
                assets[k].post_id = Some(post_id);
                assets[k].sort_index = Some(j as u32);
                assert(attached_as(assets@[k as int], before[k as int], post_id, j as int));
            },
            None => {},
        }
        k = k + 1;
    }
    Ok(())
}

} // verus!
