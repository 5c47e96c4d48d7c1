use github_stats::serving::{
    cache_policy, endpoints, is_recent, CachePolicy, ALL_CACHE_SVG, NANOS_PER_SEC, ONE_DAY,
};

#[test]
fn endpoints_hang_off_the_base_url() {
    let urls = endpoints("https://stats.example.com");
    assert_eq!(urls.root_url, "https://stats.example.com/");
    assert_eq!(urls.all_url, "https://stats.example.com/all");
    assert_eq!(urls.health_url, "https://stats.example.com/health");
    assert_eq!(urls.favicon_url, "https://stats.example.com/favicon.ico");
    let urls = endpoints("");
    assert_eq!(urls.root_url, "/");
    assert_eq!(urls.all_url, "/all");
}

#[test]
fn recent_means_younger_than_the_age() {
    let second = NANOS_PER_SEC;
    assert!(is_recent(100 * second, 100 * second, 1));
    assert!(is_recent(100 * second, 159 * second, 60));
    assert!(is_recent(100 * second + 1, 160 * second, 60));
    assert!(!is_recent(100 * second, 160 * second, 60));
    assert!(!is_recent(100 * second, 161 * second, 60));
    assert!(!is_recent(100 * second, 100 * second, 0));
    assert!(is_recent(200 * second, 100 * second, 0));
    assert!(is_recent(0, 10, 1));
    assert!(!is_recent(0, u128::MAX, u32::MAX));
}

#[test]
fn cache_policy_halves_the_client_age() {
    assert_eq!(
        cache_policy(86400),
        CachePolicy { max_age: 43200, s_maxage: 86400, stale_while_revalidate: 86400 }
    );
    assert_eq!(
        cache_policy(7),
        CachePolicy { max_age: 3, s_maxage: 7, stale_while_revalidate: ONE_DAY }
    );
    assert_eq!(cache_policy(0).max_age, 0);
    assert_eq!(ONE_DAY, 86400);
    assert_eq!(ALL_CACHE_SVG, "all_cache.svg");
}
