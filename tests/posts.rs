use media_share::asset::StoredAsset;
use media_share::history::{history_response, page_index, Pagination as HistoryPage};
use media_share::post::{attach_assets, feed_query, AttachError, FeedQuery, Pagination};

fn asset(id: i32, post_id: Option<i32>) -> StoredAsset {
    StoredAsset {
        id,
        owner_id: 1,
        relative_path: format!("2024/01/01/{}.png", id),
        original_file_name: "a.png".to_string(),
        mime_type: "image/png".to_string(),
        size_bytes: 1,
        width_pixels: Some(1),
        height_pixels: Some(1),
        upload_timestamp: 0,
        post_id,
        sort_index: post_id.map(|_| 0),
    }
}

#[test]
fn attach_in_submission_order() {
    let mut assets = vec![asset(1, None), asset(2, None), asset(3, None)];
    assert_eq!(attach_assets(&mut assets, 10, &vec![3, 1]), Ok(()));
    assert_eq!((assets[0].post_id, assets[0].sort_index), (Some(10), Some(1)));
    assert_eq!((assets[1].post_id, assets[1].sort_index), (None, None));
    assert_eq!((assets[2].post_id, assets[2].sort_index), (Some(10), Some(0)));
}

#[test]
fn attaching_a_claimed_asset_fails_unchanged() {
    let mut assets = vec![asset(1, None), asset(5, Some(7))];
    let before = assets.clone();
    assert_eq!(attach_assets(&mut assets, 8, &vec![1, 5]), Err(AttachError::AlreadyAttached(5)));
    assert_eq!(assets, before);
    assert_eq!(assets[1].post_id, Some(7));
    assert_eq!(assets[0].post_id, None);
}

#[test]
fn attaching_a_missing_asset_fails() {
    let mut assets = vec![asset(1, None)];
    assert_eq!(attach_assets(&mut assets, 8, &vec![1, 4]), Err(AttachError::NotFound(4)));
    assert_eq!(assets[0].post_id, None);
}

#[test]
fn repeated_id_fails() {
    let mut assets = vec![asset(1, None)];
    assert_eq!(attach_assets(&mut assets, 8, &vec![1, 1]), Err(AttachError::AlreadyAttached(1)));
    assert_eq!(assets[0].post_id, None);
}

#[test]
fn first_failure_wins() {
    let mut assets = vec![asset(5, Some(7))];
    assert_eq!(attach_assets(&mut assets, 8, &vec![9, 5]), Err(AttachError::NotFound(9)));
}

#[test]
fn empty_attachment_succeeds() {
    let mut assets: Vec<StoredAsset> = vec![];
    assert_eq!(attach_assets(&mut assets, 8, &vec![]), Ok(()));
}

#[test]
fn feed_window_queries() {
    let p = |before, after| Pagination { before, after, per_page: 20 };
    assert_eq!(feed_query(&p(Some(9), Some(3))), FeedQuery::Between { after: 3, before: 9 });
    assert_eq!(feed_query(&p(None, Some(3))), FeedQuery::From { after: 3, limit: 20 });
    assert_eq!(feed_query(&p(Some(9), None)), FeedQuery::Until { before: 9, limit: 20 });
    assert_eq!(feed_query(&p(None, None)), FeedQuery::Latest { limit: 20 });
}

#[test]
fn history_pages() {
    assert_eq!(page_index(&HistoryPage { page: 1, per_page: 10 }), Some(0));
    assert_eq!(page_index(&HistoryPage { page: 4, per_page: 10 }), Some(3));
    assert_eq!(page_index(&HistoryPage { page: 0, per_page: 10 }), None);
    assert_eq!(page_index(&HistoryPage { page: 2, per_page: 0 }), None);
    let r = history_response(&HistoryPage { page: 2, per_page: 10 }, 25, 3, vec![asset(1, None)]);
    assert!(r.has_next);
    assert_eq!((r.total, r.total_pages, r.items.len()), (25, 3, 1));
    let last = history_response(&HistoryPage { page: 3, per_page: 10 }, 25, 3, vec![]);
    assert!(!last.has_next);
}
