use github_stats::error::Error;
use github_stats::link::LinkError;
use github_stats::pages::{PageFetch, PageStep, SearchResult};
use github_stats::response::HeaderValue;

fn page(total_count: u32, incomplete_results: bool, items: Vec<u32>) -> SearchResult<u32> {
    SearchResult { total_count, incomplete_results, items }
}

fn text(s: &str) -> HeaderValue {
    HeaderValue::Text(s.to_string())
}

const SEED: &str = "https://api.github.com/search/repositories?q=user:octocat&per_page=100";

#[test]
fn begin_gives_the_seed_url() {
    let (_, url) = PageFetch::<u32>::begin(SEED).unwrap();
    assert_eq!(url, SEED);
}

#[test]
fn begin_rejects_a_seed_that_is_no_url() {
    assert!(matches!(PageFetch::<u32>::begin("search/repositories"), Err(Error::InvalidUrl)));
    assert!(matches!(PageFetch::<u32>::begin(""), Err(Error::InvalidUrl)));
}

#[test]
fn single_page_without_link_header_is_the_result() {
    let (fetch, _) = PageFetch::<u32>::begin(SEED).unwrap();
    match fetch.fold(page(3, false, vec![7, 8, 9]), &HeaderValue::Missing) {
        Ok(PageStep::Done(result)) => {
            assert_eq!(result.total_count, 3);
            assert!(!result.incomplete_results);
            assert_eq!(result.items, vec![7, 8, 9]);
        }
        other => panic!("{:?}", other),
    }
}

#[test]
fn two_pages_are_fetched_and_joined() {
    let (fetch, first_url) = PageFetch::<u32>::begin(SEED).unwrap();
    assert_eq!(first_url, SEED);
    let mut fetched = 1;
    let link = text("<https://api.github.com/search/repositories?q=user:octocat&per_page=100&page=2>; rel=\"next\"");
    let (fetch, second_url) = match fetch.fold(page(5, false, vec![1, 2, 3]), &link) {
        Ok(PageStep::Next(fetch, url)) => (fetch, url),
        other => panic!("{:?}", other),
    };
    assert_eq!(
        second_url,
        "https://api.github.com/search/repositories?q=user:octocat&per_page=100&page=2"
    );
    fetched += 1;
    match fetch.fold(page(5, false, vec![4, 5]), &HeaderValue::Missing) {
        Ok(PageStep::Done(result)) => {
            assert_eq!(result.items.len(), 3 + 2);
            assert_eq!(result.items, vec![1, 2, 3, 4, 5]);
            assert_eq!(result.total_count, 5);
            assert!(!result.incomplete_results);
        }
        other => panic!("{:?}", other),
    }
    assert_eq!(fetched, 2);
}

#[test]
fn link_header_without_next_ends_the_fetch() {
    let (fetch, _) = PageFetch::<u32>::begin(SEED).unwrap();
    let link = text("<https://api.github.com/x?page=1>; rel=\"prev\", <https://api.github.com/x?page=1>; rel=\"first\"");
    assert!(matches!(fetch.fold(page(1, false, vec![1]), &link), Ok(PageStep::Done(_))));
}

#[test]
fn total_count_is_the_largest_seen() {
    let next = text("<https://api.github.com/x?page=2>; rel=\"next\"");
    let (fetch, _) = PageFetch::<u32>::begin(SEED).unwrap();
    let fetch = match fetch.fold(page(10, false, vec![1]), &next) {
        Ok(PageStep::Next(fetch, _)) => fetch,
        other => panic!("{:?}", other),
    };
    let fetch = match fetch.fold(page(12, false, vec![2]), &next) {
        Ok(PageStep::Next(fetch, _)) => fetch,
        other => panic!("{:?}", other),
    };
    match fetch.fold(page(11, false, vec![3]), &HeaderValue::Missing) {
        Ok(PageStep::Done(result)) => {
            assert_eq!(result.total_count, 12);
            assert_eq!(result.items, vec![1, 2, 3]);
        }
        other => panic!("{:?}", other),
    }
}

#[test]
fn incomplete_page_fails_the_fetch() {
    let next = text("<https://api.github.com/x?page=2>; rel=\"next\"");
    let (fetch, _) = PageFetch::<u32>::begin(SEED).unwrap();
    assert!(matches!(
        fetch.fold(page(4, true, vec![1, 2]), &next),
        Err(Error::IncompleteSearchResult)
    ));
    let (fetch, _) = PageFetch::<u32>::begin(SEED).unwrap();
    let fetch = match fetch.fold(page(4, false, vec![1, 2]), &next) {
        Ok(PageStep::Next(fetch, _)) => fetch,
        other => panic!("{:?}", other),
    };
    assert!(matches!(
        fetch.fold(page(4, true, vec![3, 4]), &HeaderValue::Missing),
        Err(Error::IncompleteSearchResult)
    ));
}

#[test]
fn unreadable_link_header_fails_the_fetch() {
    let (fetch, _) = PageFetch::<u32>::begin(SEED).unwrap();
    assert!(matches!(
        fetch.fold(page(1, false, vec![1]), &text("<https://api.github.com/x>")),
        Err(Error::PaginationParse(LinkError::PartCount))
    ));
    let (fetch, _) = PageFetch::<u32>::begin(SEED).unwrap();
    assert!(matches!(
        fetch.fold(page(1, false, vec![1]), &text("<x>; rel=\"next\"")),
        Err(Error::PaginationParse(LinkError::InvalidUrl))
    ));
    let (fetch, _) = PageFetch::<u32>::begin(SEED).unwrap();
    assert!(matches!(
        fetch.fold(page(1, false, vec![1]), &HeaderValue::Opaque),
        Err(Error::PaginationParse(LinkError::Unreadable))
    ));
}
