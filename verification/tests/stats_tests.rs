use github_stats::error::Error;
use github_stats::language_colors::colors;
use github_stats::languages::{Language, LanguageSize, LanguageTable, FALLBACK_COLOR};
use github_stats::pages::SearchResult;
use github_stats::stats::{
    bearer_value, commits_url, repositories_url, request_headers, total_stars, Aggregation, Owner,
    Phase,
    Repository, Request, Stats,
};
use github_stats::text_map::TextMap;
use github_stats::themes::dark;

fn repo(name: &str, stars: u32) -> Repository {
    Repository {
        id: 1,
        name: name.to_string(),
        full_name: format!("octocat/{}", name),
        owner: Owner { login: "octocat".to_string(), id: 2 },
        stargazers_count: stars,
        languages_url: format!("https://api.github.com/repos/octocat/{}/languages", name),
    }
}

fn size(name: &str, bytes: u64) -> LanguageSize {
    LanguageSize { name: name.to_string(), bytes }
}

fn found(total_count: u32, items: Vec<Repository>) -> SearchResult<Repository> {
    SearchResult { total_count, incomplete_results: false, items }
}

fn run(repos: Vec<Repository>, commits: u32, languages: Vec<Vec<LanguageSize>>) -> Stats {
    let table = colors();
    let mut agg = Aggregation::start("octocat");
    agg.repositories_fetched(found(repos.len() as u32, repos)).unwrap();
    agg.commits_fetched(commits);
    for list in languages.iter() {
        assert!(matches!(agg.phase(), Phase::FetchingLanguages(_)));
        agg.languages_fetched(list, &table).unwrap();
    }
    agg.finish().unwrap().unwrap()
}

#[test]
fn urls_are_the_search_endpoints() {
    assert_eq!(
        repositories_url("octocat"),
        "https://api.github.com/search/repositories?q=user:octocat&per_page=100"
    );
    assert_eq!(commits_url("octocat"), "https://api.github.com/search/commits?q=author:octocat");
    assert_eq!(bearer_value("abc123"), "Bearer abc123");
}

#[test]
fn stars_are_summed() {
    assert_eq!(total_stars(&vec![]), Some(0));
    assert_eq!(total_stars(&vec![repo("a", 3), repo("b", 5)]), Some(8));
    assert_eq!(total_stars(&vec![repo("a", u32::MAX)]), Some(u32::MAX));
    assert_eq!(total_stars(&vec![repo("a", u32::MAX), repo("b", 1)]), None);
}

#[test]
fn two_repositories_are_aggregated() {
    let stats = run(
        vec![repo("a", 3), repo("b", 5)],
        42,
        vec![vec![size("Go", 1000)], vec![size("Go", 500), size("Rust", 200)]],
    );
    assert_eq!(stats.total_stars, 8);
    assert_eq!(stats.total_commits, 42);
    assert_eq!(stats.languages.len(), 2);
    assert_eq!(stats.languages.get("Go").map(|l| l.size), Some(1500));
    assert_eq!(stats.languages.get("Rust").map(|l| l.size), Some(200));
    assert_eq!(
        stats.languages.get("Go"),
        Some(&Language { name: "Go".to_string(), color: "#00ADD8".to_string(), size: 1500 })
    );
    assert_eq!(
        stats.languages.get("Rust"),
        Some(&Language { name: "Rust".to_string(), color: "#dea584".to_string(), size: 200 })
    );
    assert_eq!(stats.languages.get("C"), None);
}

#[test]
fn commit_total_is_taken_as_reported() {
    let mut agg = Aggregation::start("octocat");
    agg.repositories_fetched(found(0, vec![])).unwrap();
    assert_eq!(agg.phase(), Phase::FetchingCommits);
    agg.commits_fetched(42);
    assert_eq!(agg.phase(), Phase::Done);
    let stats = agg.finish().unwrap().unwrap();
    assert_eq!(stats.total_commits, 42);
    assert_eq!(stats.total_stars, 0);
    assert_eq!(stats.languages.len(), 0);
}

#[test]
fn requests_follow_the_phases() {
    let table = colors();
    let mut agg = Aggregation::start("octocat");
    assert_eq!(agg.phase(), Phase::FetchingRepos);
    assert_eq!(
        agg.next_request(),
        Request::RepositoryPages(
            "https://api.github.com/search/repositories?q=user:octocat&per_page=100".to_string()
        )
    );
    assert!(agg.repositories_fetched(found(2, vec![repo("a", 1), repo("b", 2)])).is_ok());
    assert_eq!(agg.phase(), Phase::FetchingCommits);
    assert_eq!(
        agg.next_request(),
        Request::CommitSearch("https://api.github.com/search/commits?q=author:octocat".to_string())
    );
    agg.commits_fetched(7);
    assert_eq!(agg.phase(), Phase::FetchingLanguages(0));
    assert_eq!(
        agg.next_request(),
        Request::Languages("https://api.github.com/repos/octocat/a/languages".to_string())
    );
    assert!(agg.languages_fetched(&vec![size("C", 1)], &table).is_ok());
    assert_eq!(agg.phase(), Phase::FetchingLanguages(1));
    assert_eq!(
        agg.next_request(),
        Request::Languages("https://api.github.com/repos/octocat/b/languages".to_string())
    );
    assert!(agg.languages_fetched(&vec![], &table).is_ok());
    assert_eq!(agg.phase(), Phase::Done);
    assert_eq!(agg.next_request(), Request::Nothing);
}

#[test]
fn unfinished_aggregation_has_no_stats() {
    let agg = Aggregation::start("octocat");
    assert!(agg.finish().is_none());
    let mut agg = Aggregation::start("octocat");
    agg.repositories_fetched(found(1, vec![repo("a", 1)])).unwrap();
    agg.commits_fetched(1);
    assert!(agg.finish().is_none());
}

#[test]
fn failure_is_terminal_and_reported() {
    let mut agg = Aggregation::start("octocat");
    agg.fail(Error::IncompleteSearchResult);
    assert_eq!(agg.phase(), Phase::Failed(Error::IncompleteSearchResult));
    assert_eq!(agg.next_request(), Request::Nothing);
    assert!(matches!(agg.finish(), Some(Err(Error::IncompleteSearchResult))));
}

#[test]
fn star_overflow_fails_the_aggregation() {
    let mut agg = Aggregation::start("octocat");
    let r = agg.repositories_fetched(found(2, vec![repo("a", u32::MAX), repo("b", 1)]));
    assert_eq!(r, Err(Error::Overflow));
    assert_eq!(agg.phase(), Phase::Failed(Error::Overflow));
    assert!(matches!(agg.finish(), Some(Err(Error::Overflow))));
}

#[test]
fn language_overflow_fails_the_aggregation() {
    let table = colors();
    let mut agg = Aggregation::start("octocat");
    agg.repositories_fetched(found(2, vec![repo("a", 1), repo("b", 1)])).unwrap();
    agg.commits_fetched(0);
    agg.languages_fetched(&vec![size("C", u64::MAX)], &table).unwrap();
    let r = agg.languages_fetched(&vec![size("Go", 1), size("C", 1)], &table);
    assert_eq!(r, Err(Error::Overflow));
    assert_eq!(agg.phase(), Phase::Failed(Error::Overflow));
}

#[test]
fn rerun_gives_the_same_stats() {
    let repos = vec![repo("a", 3), repo("b", 5), repo("c", 0)];
    let languages = vec![
        vec![size("Go", 1000), size("Shell", 10)],
        vec![size("Go", 500), size("Rust", 200)],
        vec![size("Shell", 5)],
    ];
    let first = run(repos.clone(), 42, languages.clone());
    let second = run(repos, 42, languages);
    assert_eq!(first.total_stars, second.total_stars);
    assert_eq!(first.total_commits, second.total_commits);
    assert_eq!(first.languages.entries(), second.languages.entries());
    assert_eq!(first.languages.get("Go").map(|l| l.size), Some(1500));
    assert_eq!(first.languages.get("Shell").map(|l| l.size), Some(15));
}

#[test]
fn sizes_accumulate_per_name() {
    let table = colors();
    let mut languages = LanguageTable::new();
    languages.add("Go", 1000, &table).unwrap();
    languages.add("Rust", 200, &table).unwrap();
    languages.add("Go", 500, &table).unwrap();
    languages.add("Go", 0, &table).unwrap();
    assert_eq!(languages.len(), 2);
    let names: Vec<&str> = languages.entries().iter().map(|l| l.name.as_str()).collect();
    assert_eq!(names, vec!["Go", "Rust"]);
    assert_eq!(languages.get("Go").map(|l| l.size), Some(1500));
    assert_eq!(languages.get("Rust").map(|l| l.size), Some(200));
}

#[test]
fn unknown_language_gets_the_fallback_colour() {
    let table = colors();
    let mut languages = LanguageTable::new();
    languages.add("NoSuchLanguage", 1, &table).unwrap();
    assert_eq!(FALLBACK_COLOR, "#FBFF00");
    assert_eq!(languages.get("NoSuchLanguage").map(|l| l.color.as_str()), Some("#FBFF00"));
    let empty = TextMap::new();
    languages.add("Rust", 1, &empty).unwrap();
    assert_eq!(languages.get("Rust").map(|l| l.color.as_str()), Some("#FBFF00"));
}

#[test]
fn colour_is_fixed_when_the_name_first_appears() {
    let mut first = TextMap::new();
    first.insert("X".to_string(), "#111111".to_string());
    let mut second = TextMap::new();
    second.insert("X".to_string(), "#222222".to_string());
    let mut languages = LanguageTable::new();
    languages.add("X", 1, &first).unwrap();
    languages.add("X", 2, &second).unwrap();
    assert_eq!(
        languages.get("X"),
        Some(&Language { name: "X".to_string(), color: "#111111".to_string(), size: 3 })
    );
}

#[test]
fn add_fails_and_changes_nothing_on_overflow() {
    let table = colors();
    let mut languages = LanguageTable::new();
    languages.add("C", u64::MAX - 1, &table).unwrap();
    assert_eq!(languages.add("C", 2, &table), Err(Error::Overflow));
    assert_eq!(languages.get("C").map(|l| l.size), Some(u64::MAX - 1));
    languages.add("C", 1, &table).unwrap();
    assert_eq!(languages.get("C").map(|l| l.size), Some(u64::MAX));
}

#[test]
fn merge_adds_a_whole_list() {
    let table = colors();
    let mut languages = LanguageTable::new();
    languages.merge(&vec![size("Go", 1000)], &table).unwrap();
    languages.merge(&vec![size("Go", 500), size("Rust", 200)], &table).unwrap();
    languages.merge(&vec![], &table).unwrap();
    assert_eq!(languages.get("Go").map(|l| l.size), Some(1500));
    assert_eq!(languages.get("Rust").map(|l| l.size), Some(200));
    assert_eq!(
        languages.merge(&vec![size("Rust", 1), size("Go", u64::MAX)], &table),
        Err(Error::Overflow)
    );
}

#[test]
fn colour_table_knows_the_languages() {
    let table = colors();
    assert_eq!(table.len(), 594);
    assert_eq!(table.get("Rust").map(|s| s.as_str()), Some("#dea584"));
    assert_eq!(table.get("1C Enterprise").map(|s| s.as_str()), Some("#814CCC"));
    assert_eq!(table.get("xBase").map(|s| s.as_str()), Some("#403a40"));
    assert_eq!(table.get("ASP.NET").map(|s| s.as_str()), Some("#9400ff"));
    assert_eq!(table.get("rust"), None);
    assert!(!table.contains_key(""));
}

#[test]
fn dark_theme_colours() {
    let theme = dark();
    assert_eq!(theme.title_color, "#fff");
    assert_eq!(theme.icon_color, "#9f9f9f");
    assert_eq!(theme.text_color, "#79ff97");
    assert_eq!(theme.background_color, "#151515");
    assert_eq!(theme.border_color, "#fff");
}

#[test]
fn failed_merge_leaves_the_table_as_it_was() {
    let table = colors();
    let mut languages = LanguageTable::new();
    languages.merge(&vec![size("Go", 10), size("C", u64::MAX)], &table).unwrap();
    let before = languages.snapshot();
    assert_eq!(
        languages.merge(&vec![size("Go", 5), size("Rust", 1), size("C", 1)], &table),
        Err(Error::Overflow)
    );
    assert_eq!(languages.entries(), before.entries());
    assert_eq!(languages.get("Go").map(|l| l.size), Some(10));
    assert_eq!(languages.get("Rust"), None);
}

#[test]
fn snapshot_copies_every_entry() {
    let table = colors();
    let mut languages = LanguageTable::new();
    languages.add("Go", 1, &table).unwrap();
    languages.add("Rust", 2, &table).unwrap();
    let copy = languages.snapshot();
    languages.add("Go", 1, &table).unwrap();
    assert_eq!(copy.get("Go").map(|l| l.size), Some(1));
    assert_eq!(copy.get("Rust").map(|l| l.size), Some(2));
    assert_eq!(copy.len(), 2);
}

#[test]
fn done_and_failed_are_terminal() {
    let mut agg = Aggregation::start("octocat");
    agg.repositories_fetched(found(0, vec![])).unwrap();
    agg.commits_fetched(3);
    agg.fail(Error::Transport);
    assert_eq!(agg.phase(), Phase::Done);
    let mut agg = Aggregation::start("octocat");
    agg.fail(Error::Deserialization);
    agg.fail(Error::Transport);
    assert_eq!(agg.phase(), Phase::Failed(Error::Deserialization));
    assert!(matches!(agg.finish(), Some(Err(Error::Deserialization))));
}

#[test]
fn each_fetch_failure_fails_the_aggregation() {
    for error in [
        Error::Transport,
        Error::RetriesExhausted,
        Error::UnretryableStatus(404),
        Error::IncompleteSearchResult,
        Error::InvalidUrl,
        Error::Deserialization,
    ] {
        let mut agg = Aggregation::start("octocat");
        agg.repositories_fetched(found(1, vec![repo("a", 1)])).unwrap();
        agg.fail(error);
        assert_eq!(agg.phase(), Phase::Failed(error));
        assert_eq!(agg.next_request(), Request::Nothing);
    }
}

#[test]
fn every_request_carries_the_four_headers() {
    let headers = request_headers("octocat", "abc123");
    let pairs: Vec<(&str, &str)> =
        headers.iter().map(|h| (h.name.as_str(), h.value.as_str())).collect();
    assert_eq!(
        pairs,
        vec![
            ("accept", "application/vnd.github+json"),
            ("authorization", "Bearer abc123"),
            ("x-github-api-version", "2022-11-28"),
            ("user-agent", "octocat"),
        ]
    );
}
