use std::collections::HashSet;

use imagehost::image::{
    get_image, get_images, new_group, resolve_image, upload_images, upload_step,
};
use imagehost::model::{
    object_path, FileGroup, ImageError, S3Data, UploadRequest, Variant, MAX_FILES_PER_REQUEST,
};
use imagehost::presign::get_bucket;
use imagehost::store::GroupStore;

fn config() -> Option<S3Data> {
    Some(S3Data {
        endpoint: "https://s3.example.com".to_string(),
        region: "eu-west-1".to_string(),
        access_key: "access".to_string(),
        secret_key: "SECRET-REDACTED".to_string(),
    })
}

fn group(small: &str, medium: &str, original: &str) -> FileGroup {
    FileGroup {
        small: small.to_string(),
        medium: medium.to_string(),
        original: original.to_string(),
    }
}

fn names(groups: &[FileGroup]) -> Vec<String> {
    let mut out = Vec::new();
    for g in groups {
        out.push(g.small.clone());
        out.push(g.medium.clone());
        out.push(g.original.clone());
    }
    out
}

#[test]
fn upload_returns_requested_count() {
    for count in [0u32, 1, 5, 32] {
        let mut store = GroupStore::new();
        let groups = upload_images(&mut store, 7, &config(), &UploadRequest { number: count })
            .unwrap();
        assert_eq!(groups.len(), count as usize);
        assert_eq!(store.len(), count as usize);
        let listed = get_images(&store, 7);
        assert_eq!(listed.len(), count as usize);
        for (urls, stored) in groups.iter().zip(listed.iter()) {
            for (url, name) in [
                (&urls.small, &stored.small),
                (&urls.medium, &stored.medium),
                (&urls.original, &stored.original),
            ] {
                assert!(url.starts_with("https://"));
                assert!(url.contains(&format!("/{}?", name)));
                assert!(url.contains("X-Amz-Expires=600"));
                assert!(url.contains("X-Amz-Signature="));
            }
        }
    }
}

#[test]
fn upload_names_are_fresh_uuids() {
    let mut store = GroupStore::new();
    upload_images(&mut store, 1, &config(), &UploadRequest { number: 3 }).unwrap();
    let all = names(&get_images(&store, 1));
    let distinct: HashSet<&String> = all.iter().collect();
    assert_eq!(distinct.len(), 9);
    for n in &all {
        assert_eq!(n.len(), 36);
        assert_eq!(n.matches('-').count(), 4);
    }
}

#[test]
fn upload_over_limit_is_bad_request() {
    let mut store = GroupStore::new();
    let r = upload_images(
        &mut store,
        7,
        &config(),
        &UploadRequest { number: MAX_FILES_PER_REQUEST + 1 },
    );
    assert_eq!(r.unwrap_err(), ImageError::BadRequest);
    assert_eq!(store.len(), 0);
    let r = upload_images(&mut store, 7, &config(), &UploadRequest { number: u32::MAX });
    assert_eq!(r.unwrap_err(), ImageError::BadRequest);
    assert_eq!(store.len(), 0);
}

#[test]
fn upload_without_config_is_bad_request() {
    let mut store = GroupStore::new();
    let r = upload_images(&mut store, 7, &None, &UploadRequest { number: 2 });
    assert_eq!(r.unwrap_err(), ImageError::BadRequest);
    assert_eq!(store.len(), 0);
}

#[test]
fn lookup_resolves_each_variant() {
    let mut store = GroupStore::new();
    upload_images(&mut store, 3, &config(), &UploadRequest { number: 2 }).unwrap();
    for g in &get_images(&store, 3) {
        for name in [&g.small, &g.medium, &g.original] {
            assert_eq!(&resolve_image(&store, 3, &config(), name).unwrap(), name);
            let url = get_image(&store, 3, &config(), name).unwrap();
            assert!(url.starts_with("https://"));
            assert!(url.contains(&format!("/{}?", name)));
            assert!(url.contains("X-Amz-Signature="));
        }
    }
}

#[test]
fn lookup_nonexistent_is_not_found() {
    let mut store = GroupStore::new();
    upload_images(&mut store, 3, &config(), &UploadRequest { number: 2 }).unwrap();
    let r = get_image(&store, 3, &config(), &"nonexistent".to_string());
    assert_eq!(r.unwrap_err(), ImageError::NotFound);
}

#[test]
fn lookup_by_other_user_is_not_found() {
    let mut store = GroupStore::new();
    upload_images(&mut store, 3, &config(), &UploadRequest { number: 1 }).unwrap();
    let groups = get_images(&store, 3);
    let r = get_image(&store, 4, &config(), &groups[0].small);
    assert_eq!(r.unwrap_err(), ImageError::NotFound);
    let r = get_image(&store, 4, &config(), &groups[0].original);
    assert_eq!(r.unwrap_err(), ImageError::NotFound);
}

#[test]
fn lookup_without_config_is_not_found() {
    let mut store = GroupStore::new();
    upload_images(&mut store, 3, &config(), &UploadRequest { number: 1 }).unwrap();
    let groups = get_images(&store, 3);
    let r = get_image(&store, 3, &None, &groups[0].medium);
    assert_eq!(r.unwrap_err(), ImageError::NotFound);
}

#[test]
fn lookup_on_hand_made_rows() {
    let mut store = GroupStore::new();
    store.insert_group(group("a-s", "a-m", "a-o"), 1).unwrap();
    store.insert_group(group("b-s", "b-m", "b-o"), 2).unwrap();
    assert_eq!(resolve_image(&store, 1, &config(), &"a-m".to_string()).unwrap(), "a-m");
    assert_eq!(resolve_image(&store, 2, &config(), &"b-o".to_string()).unwrap(), "b-o");
    assert_eq!(
        resolve_image(&store, 2, &None, &"b-o".to_string()).unwrap_err(),
        ImageError::NotFound
    );
    assert_eq!(
        get_image(&store, 1, &config(), &"b-s".to_string()).unwrap_err(),
        ImageError::NotFound
    );
    assert_eq!(
        get_image(&store, 1, &config(), &"a-".to_string()).unwrap_err(),
        ImageError::NotFound
    );
}

#[test]
fn two_batches_for_one_user_do_not_collide() {
    let mut store = GroupStore::new();
    let first = upload_images(&mut store, 9, &config(), &UploadRequest { number: 5 }).unwrap();
    let second = upload_images(&mut store, 9, &config(), &UploadRequest { number: 5 }).unwrap();
    assert_eq!(first.len() + second.len(), 10);
    assert_eq!(store.len(), 10);
    let all = names(&get_images(&store, 9));
    assert_eq!(all.len(), 30);
    let distinct: HashSet<&String> = all.iter().collect();
    assert_eq!(distinct.len(), 30);
}

#[test]
fn listing_for_user_without_uploads_is_empty() {
    let mut store = GroupStore::new();
    assert!(get_images(&store, 5).is_empty());
    upload_images(&mut store, 6, &config(), &UploadRequest { number: 3 }).unwrap();
    assert!(get_images(&store, 5).is_empty());
    assert_eq!(get_images(&store, 6).len(), 3);
}

#[test]
fn listing_keeps_storage_order_per_user() {
    let mut store = GroupStore::new();
    store.insert_group(group("1s", "1m", "1o"), 1).unwrap();
    store.insert_group(group("2s", "2m", "2o"), 2).unwrap();
    store.insert_group(group("3s", "3m", "3o"), 1).unwrap();
    let listed = get_images(&store, 1);
    assert_eq!(listed.len(), 2);
    assert_eq!(listed[0].small, "1s");
    assert_eq!(listed[1].original, "3o");
}

#[test]
fn ten_thousand_filenames_are_distinct() {
    let mut store = GroupStore::new();
    while store.len() * 3 < 10_000 {
        upload_images(&mut store, 1, &config(), &UploadRequest { number: 32 }).unwrap();
    }
    let all = names(&get_images(&store, 1));
    assert!(all.len() >= 10_000);
    let distinct: HashSet<&String> = all.iter().collect();
    assert_eq!(distinct.len(), all.len());
}

#[test]
fn insert_refuses_repeated_names() {
    let mut store = GroupStore::new();
    assert_eq!(
        store.insert_group(group("x", "x", "y"), 1).unwrap_err(),
        ImageError::Persistence
    );
    store.insert_group(group("a", "b", "c"), 1).unwrap();
    assert_eq!(
        store.insert_group(group("d", "e", "b"), 2).unwrap_err(),
        ImageError::Persistence
    );
    assert_eq!(store.len(), 1);
    assert!(store.contains_name(&"c".to_string()));
    assert!(!store.contains_name(&"d".to_string()));
}

#[test]
fn find_group_is_restricted_to_owner() {
    let mut store = GroupStore::new();
    store.insert_group(group("a", "b", "c"), 1).unwrap();
    let g = store.find_group_containing(1, &"c".to_string()).unwrap();
    assert_eq!(g.small, "a");
    assert!(store.find_group_containing(2, &"c".to_string()).is_none());
}

#[test]
fn matched_variant_prefers_small_then_medium() {
    let g = group("same", "same", "same");
    assert_eq!(g.matched_variant(&"same".to_string()), Some(Variant::Small));
    let g = group("s", "dup", "dup");
    assert_eq!(g.matched_variant(&"dup".to_string()), Some(Variant::Medium));
    let g = group("s", "m", "o");
    assert_eq!(g.matched_variant(&"o".to_string()), Some(Variant::Original));
    assert_eq!(g.matched_variant(&"x".to_string()), None);
    assert_eq!(g.variant(Variant::Medium), "m");
}

#[test]
fn object_path_adds_leading_separator() {
    assert_eq!(object_path(&"abc".to_string()), "/abc");
    assert_eq!(object_path(&String::new()), "/");
}

#[test]
fn new_group_names_differ() {
    let g = new_group();
    assert_eq!(g.small.len(), 36);
    assert_ne!(g.small, g.medium);
    assert_ne!(g.small, g.original);
    assert_ne!(g.medium, g.original);
}

#[test]
fn presign_links_name_the_object() {
    let bucket = get_bucket(config().as_ref().unwrap()).unwrap();
    let put = bucket.presign_upload(&"pic".to_string()).unwrap();
    let get = bucket.presign_download(&"pic".to_string()).unwrap();
    assert!(put.contains("/pic?"));
    assert!(get.contains("/pic?"));
    assert!(put.contains("X-Amz-Expires=600"));
    assert_ne!(put, "pic");
    let links = bucket.presign_group(&group("a", "b", "c")).unwrap();
    assert!(links.small.contains("/a?"));
    assert!(links.medium.contains("/b?"));
    assert!(links.original.contains("/c?"));
}

#[test]
fn upload_of_zero_is_empty_success() {
    let mut store = GroupStore::new();
    let groups = upload_images(&mut store, 2, &config(), &UploadRequest { number: 0 }).unwrap();
    assert!(groups.is_empty());
    assert_eq!(store.len(), 0);
}

#[test]
fn upload_step_refuses_stored_names() {
    let bucket = get_bucket(config().as_ref().unwrap()).unwrap();
    let mut store = GroupStore::new();
    let links = upload_step(&mut store, &bucket, 4, &group("s1", "m1", "o1")).unwrap();
    assert!(links.small.contains("/s1?"));
    assert!(links.medium.contains("/m1?"));
    assert!(links.original.contains("/o1?"));
    assert_eq!(store.len(), 1);
    let r = upload_step(&mut store, &bucket, 4, &group("s2", "o1", "o2"));
    assert_eq!(r.unwrap_err(), ImageError::Persistence);
    let r = upload_step(&mut store, &bucket, 4, &group("x", "x", "y"));
    assert_eq!(r.unwrap_err(), ImageError::Persistence);
    assert_eq!(store.len(), 1);
    assert_eq!(get_images(&store, 4)[0].small, "s1");
}

#[test]
fn accepts_only_fresh_distinct_triples() {
    let mut store = GroupStore::new();
    assert!(store.accepts(&group("a", "b", "c")));
    assert!(!store.accepts(&group("a", "a", "c")));
    store.insert_group(group("a", "b", "c"), 1).unwrap();
    assert!(!store.accepts(&group("c", "d", "e")));
    assert!(store.accepts(&group("d", "e", "f")));
}
