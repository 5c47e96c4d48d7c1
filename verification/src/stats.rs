//! The aggregation of an account's statistics as a state machine. The caller
//! performs the request that the state asks for and hands the answer back;
//! the state decides what is fetched next and when the statistics are done.
//!
//! `FetchingRepos -> FetchingCommits -> FetchingLanguages(0..n) -> Done`, and
//! from any of these to `Failed` on the first failure.

use vstd::prelude::*;
use vstd::string::*;
use crate::error::Error;
use crate::languages::{LanguageBytes, LanguageSize, LanguageTable, LanguageTotal, bytes_named, fits, law_merged_size_is_sum, lemma_overflow_stays, merged, size_of, sizes_view};
use crate::pages::SearchResult;
use crate::text_map::TextMap;

verus! {

/// The owner of a repository.
#[derive(Clone, Debug, PartialEq, Eq)]
pub struct Owner {
    pub login: String,
    pub id: u32,
}

/// What the aggregation reads of a repository.
#[derive(Clone, Debug, PartialEq, Eq)]
pub struct Repository {
    pub id: u32,
    pub name: String,
    pub full_name: String,
    pub owner: Owner,
    /// How many users have starred the repository.
    pub stargazers_count: u32,
    /// Where the repository's language sizes are fetched.
    pub languages_url: String,
}

/// The statistics of an account.
#[derive(Debug)]
pub struct Stats {
    /// The stars of all repositories together.
    pub total_stars: u32,
    /// The commits that the commit search counts for the account.
    pub total_commits: u32,
    /// Per language, the bytes summed over all repositories.
    pub languages: LanguageTable,
}

/// Where an aggregation stands.
#[derive(Clone, Copy, Debug, PartialEq, Eq, Structural)]
pub enum Phase {
    /// The repositories are being fetched, page by page.
    FetchingRepos,
    /// The commit count is being fetched.
    FetchingCommits,
    /// The languages of the repository at the index are being fetched.
    FetchingLanguages(usize),
    /// Every answer is in.
    Done,
    /// A fetch has failed; nothing more is asked for.
    Failed(Error),
}

/// The request that an aggregation waits for.
#[derive(Clone, Debug, PartialEq, Eq)]
pub enum Request {
    /// Every page of the search that starts at the URL.
    RepositoryPages(String),
    /// The one response of the commit search at the URL.
    CommitSearch(String),
    /// The one response at the URL: a repository's language sizes.
    Languages(String),
    /// Nothing: the aggregation is done or has failed.
    Nothing,
}

/// The URL of the repository search for `user`.
pub open spec fn repositories_url_text(user: Seq<char>) -> Seq<char> {
    "https://api.github.com/search/repositories?q=user:"@ + user + "&per_page=100"@
}

/// The URL of the commit search for `user`.
pub open spec fn commits_url_text(user: Seq<char>) -> Seq<char> {
    "https://api.github.com/search/commits?q=author:"@ + user
}

/// The value of the `Authorization` header for `token`.
pub open spec fn bearer_text(token: Seq<char>) -> Seq<char> {
    "Bearer "@ + token
}

/// The URL of the repository search for `user`, a hundred items per page.
pub fn repositories_url(user: &str) -> (r: String)
    ensures
        r@ == repositories_url_text(user@),
{
    String::from_str("https://api.github.com/search/repositories?q=user:").concat(user).concat(
        "&per_page=100",
    )
}

/// The URL of the commit search for `user`.
pub fn commits_url(user: &str) -> (r: String)
    ensures
        r@ == commits_url_text(user@),
{
    String::from_str("https://api.github.com/search/commits?q=author:").concat(user)
}

/// The value of the `Authorization` header for `token`.
pub fn bearer_value(token: &str) -> (r: String)
    ensures
        r@ == bearer_text(token@),
{
    String::from_str("Bearer ").concat(token)
}

/// One header of a request, by name and value.
#[derive(Clone, Debug, PartialEq, Eq)]
pub struct RequestHeader {
    pub name: String,
    pub value: String,
}

/// The media type that every request accepts.
pub const ACCEPT_MEDIA_TYPE: &'static str = "application/vnd.github+json";

/// The API version that every request pins.
pub const API_VERSION: &'static str = "2022-11-28";

/// The headers that every request carries: the accepted media type, the
/// bearer token, the pinned API version, and the user as user agent.
pub fn request_headers(user: &str, token: &str) -> (r: Vec<RequestHeader>)
    ensures
        r@.len() == 4,
        r@[0].name@ == "accept"@ && r@[0].value@ == ACCEPT_MEDIA_TYPE@,
        r@[1].name@ == "authorization"@ && r@[1].value@ == bearer_text(token@),
        r@[2].name@ == "x-github-api-version"@ && r@[2].value@ == API_VERSION@,
        r@[3].name@ == "user-agent"@ && r@[3].value@ == user@,
{
    let mut headers: Vec<RequestHeader> = Vec::new();
    headers.push(
        RequestHeader { name: "accept".to_owned(), value: ACCEPT_MEDIA_TYPE.to_owned() },
    );
    headers.push(RequestHeader { name: "authorization".to_owned(), value: bearer_value(token) });
    headers.push(
        RequestHeader { name: "x-github-api-version".to_owned(), value: API_VERSION.to_owned() },
    );
    headers.push(RequestHeader { name: "user-agent".to_owned(), value: user.to_owned() });
    headers
}

/// The stars of `repos` together.
pub open spec fn star_sum(repos: Seq<Repository>) -> nat
    decreases repos.len(),
{
    if repos.len() == 0 {
        0
    } else {
        star_sum(repos.drop_last()) + repos.last().stargazers_count as nat
    }
}

/// The stars of `repos` together; `None` where the sum does not fit 32 bits.
pub fn total_stars(repos: &Vec<Repository>) -> (r: Option<u32>)
    ensures
        r is Some <==> star_sum(repos@) <= u32::MAX,
        r matches Some(sum) ==> sum == star_sum(repos@),
{
    let mut sum: u128 = 0;
    let mut i: usize = 0;
    while i < repos.len()
        invariant
            i <= repos.len(),
            sum == star_sum(repos@.take(i as int)),
            sum <= i * 0xFFFF_FFFF,
        decreases repos.len() - i,
    {
        proof {
            let t = repos@.take(i + 1);
            assert(t.drop_last() == repos@.take(i as int));
            assert(t.last() == repos@[i as int]);
        }
        sum = sum + repos[i].stargazers_count as u128;
        i += 1;
    }
    assert(repos@.take(repos@.len() as int) == repos@);
    if sum <= 0xFFFF_FFFF {
        Some(sum as u32)
    } else {
        None
    }
}

/// An aggregation as pure values.
pub ghost struct Progress {
    pub phase: Phase,
    pub user: Seq<char>,
    pub repos: Seq<Repository>,
    pub total_stars: u32,
    pub total_commits: u32,
    pub languages: Seq<LanguageTotal>,
}

/// The aggregation for `user` before any answer: nothing counted, no
/// language, the repositories asked for.
pub open spec fn started(user: Seq<char>) -> Progress {
    Progress {
        phase: Phase::FetchingRepos,
        user,
        repos: Seq::empty(),
        total_stars: 0,
        total_commits: 0,
        languages: Seq::empty(),
    }
}

/// The aggregation after the repository search has answered.
pub open spec fn after_repositories(p: Progress, result: SearchResult<Repository>) -> Progress {
    if star_sum(result.items@) <= u32::MAX {
        Progress {
            phase: Phase::FetchingCommits,
            repos: result.items@,
            total_stars: star_sum(result.items@) as u32,
            ..p
        }
    } else {
        Progress { phase: Phase::Failed(Error::Overflow), ..p }
    }
}

/// The phase that follows the languages of the repository at `index - 1`, or
/// the commit count where `index` is 0.
pub open spec fn languages_phase(index: int, repos: int) -> Phase {
    if index < repos {
        Phase::FetchingLanguages(index as usize)
    } else {
        Phase::Done
    }
}

/// The aggregation after the commit search has answered with `total_count`.
pub open spec fn after_commits(p: Progress, total_count: u32) -> Progress {
    Progress { phase: languages_phase(0, p.repos.len() as int), total_commits: total_count, ..p }
}

/// The aggregation after the languages of the repository at `index` are in.
/// Where a total does not fit 64 bits the aggregation has failed, with the
/// totals as they were.
pub open spec fn after_languages(
    p: Progress,
    index: usize,
    list: Seq<LanguageBytes>,
    colors: Map<Seq<char>, Seq<char>>,
) -> Progress {
    if fits(merged(p.languages, list, colors)) {
        Progress {
            phase: languages_phase(index + 1, p.repos.len() as int),
            languages: merged(p.languages, list, colors),
            ..p
        }
    } else {
        Progress { phase: Phase::Failed(Error::Overflow), ..p }
    }
}

/// The aggregation after a fetch has failed for `error`. `Done` and
/// `Failed` are terminal: a finished aggregation stays finished, and a
/// failed one keeps its first failure.
pub open spec fn after_failure(p: Progress, error: Error) -> Progress {
    if p.phase is Done || p.phase is Failed {
        p
    } else {
        Progress { phase: Phase::Failed(error), ..p }
    }
}

/// The state of one aggregation.
#[derive(Debug)]
pub struct Aggregation {
    phase: Phase,
    user: String,
    repos: Vec<Repository>,
    total_stars: u32,
    total_commits: u32,
    languages: LanguageTable,
}

impl View for Aggregation {
    type V = Progress;

    closed spec fn view(&self) -> Progress {
        Progress {
            phase: self.phase,
            user: self.user@,
            repos: self.repos@,
            total_stars: self.total_stars,
            total_commits: self.total_commits,
            languages: self.languages@,
        }
    }
}

impl Aggregation {
    /// The repository whose languages are being fetched exists.
    #[verifier::type_invariant]
    spec fn index_in_bounds(self) -> bool {
        self.phase matches Phase::FetchingLanguages(i) ==> i < self.repos@.len()
    }

    /// Starts an aggregation for `user`.
    pub fn start(user: &str) -> (r: Self)
        ensures
            r@ == started(user@),
    {
        let r = Aggregation {
            phase: Phase::FetchingRepos,
            user: user.to_owned(),
            repos: Vec::new(),
            total_stars: 0,
            total_commits: 0,
            languages: LanguageTable::new(),
        };
        assert(r@.repos =~= Seq::<Repository>::empty());
        r
    }

    /// Where the aggregation stands.
    pub fn phase(&self) -> (r: Phase)
        ensures
            r == self@.phase,
            r matches Phase::FetchingLanguages(i) ==> i < self@.repos.len(),
    {
        proof {
            use_type_invariant(self);
        }
        self.phase
    }

    /// The request whose answer the aggregation waits for.
    pub fn next_request(&self) -> (r: Request)
        ensures
            match self@.phase {
                Phase::FetchingRepos => r matches Request::RepositoryPages(url) && url@
                    == repositories_url_text(self@.user),
                Phase::FetchingCommits => r matches Request::CommitSearch(url) && url@
                    == commits_url_text(self@.user),
                Phase::FetchingLanguages(i) => {
                    &&& i < self@.repos.len()
                    &&& r matches Request::Languages(url) && url@
                        == self@.repos[i as int].languages_url@
                },
                Phase::Done => r is Nothing,
                Phase::Failed(_) => r is Nothing,
            },
    {
        proof {
            use_type_invariant(self);
        }
        match self.phase {
            Phase::FetchingRepos => Request::RepositoryPages(repositories_url(self.user.as_str())),
            Phase::FetchingCommits => Request::CommitSearch(commits_url(self.user.as_str())),
            Phase::FetchingLanguages(i) => Request::Languages(self.repos[i].languages_url.clone()),
            Phase::Done => Request::Nothing,
            Phase::Failed(_) => Request::Nothing,
        }
    }

    /// Takes the result of the repository search: keeps the repositories and
    /// the sum of their stars, and asks for the commit count next. Fails
    /// where the sum does not fit 32 bits.
    pub fn repositories_fetched(&mut self, result: SearchResult<Repository>) -> (r: Result<
        (),
        Error,
    >)
        requires
            old(self)@.phase == Phase::FetchingRepos,
        ensures
            final(self)@ == after_repositories(old(self)@, result),
            match r {
                Ok(()) => final(self)@.phase == Phase::FetchingCommits,
                Err(e) => final(self)@.phase == Phase::Failed(e),
            },
    {
        match total_stars(&result.items) {
            Some(sum) => {
                self.total_stars = sum;
                self.repos = result.items;
                self.phase = Phase::FetchingCommits;
                Ok(())
            },
            None => {
                self.phase = Phase::Failed(Error::Overflow);
                Err(Error::Overflow)
            },
        }
    }

    /// Takes the total that the commit search reports, whatever items came
    /// with it, and asks for the languages of the first repository, if any.
    pub fn commits_fetched(&mut self, total_count: u32)
        requires
            old(self)@.phase == Phase::FetchingCommits,
        ensures
            final(self)@ == after_commits(old(self)@, total_count),
    {
        self.total_commits = total_count;
        if self.repos.len() > 0 {
            self.phase = Phase::FetchingLanguages(0);
        } else {
            self.phase = Phase::Done;
        }
    }

    /// Takes the language sizes of the repository that the phase names and
    /// merges them into the totals; asks for the next repository's, or is
    /// done after the last. Fails where a total does not fit 64 bits.
    pub fn languages_fetched(&mut self, list: &Vec<LanguageSize>, colors: &TextMap) -> (r: Result<
        (),
        Error,
    >)
        requires
            old(self)@.phase is FetchingLanguages,
        ensures
            final(self)@ == after_languages(
                old(self)@,
                old(self)@.phase->FetchingLanguages_0,
                sizes_view(list@),
                colors@,
            ),
            match r {
                Ok(()) => !(final(self)@.phase is Failed),
                Err(e) => final(self)@.phase == Phase::Failed(e),
            },
    {
        let index: usize = match self.phase {
            Phase::FetchingLanguages(i) => i,
            _ => 0,
        };
        let count = self.repos.len();
        proof {
            use_type_invariant(&*self);
        }
        assert(index < count);
        let mut languages = LanguageTable::new();
        std::mem::swap(&mut languages, &mut self.languages);
        let merge = languages.merge(list, colors);
        self.languages = languages;
        match merge {
            Ok(()) => {
                if index + 1 < count {
                    self.phase = Phase::FetchingLanguages(index + 1);
                } else {
                    self.phase = Phase::Done;
                }
                Ok(())
            },
            Err(e) => {
                self.phase = Phase::Failed(e);
                Err(e)
            },
        }
    }

    /// Records that the fetch the aggregation waited for has failed. After
    /// `Done` or an earlier failure this changes nothing.
    pub fn fail(&mut self, error: Error)
        ensures
            final(self)@ == after_failure(old(self)@, error),
    {
        match self.phase {
            Phase::Done => {},
            Phase::Failed(_) => {},
            _ => {
                self.phase = Phase::Failed(error);
            },
        }
    }

    /// The statistics, once every answer is in; the failure where a fetch
    /// has failed; `None` while answers are still missing.
    pub fn finish(self) -> (r: Option<Result<Stats, Error>>)
        ensures
            match self@.phase {
                Phase::Done => r matches Some(Ok(stats)) && stats.total_stars
                    == self@.total_stars && stats.total_commits == self@.total_commits
                    && stats.languages@ == self@.languages,
                Phase::Failed(e) => r == Some(Err::<Stats, Error>(e)),
                _ => r is None,
            },
    {
        match self.phase {
            Phase::Done => Some(
                Ok(
                    Stats {
                        total_stars: self.total_stars,
                        total_commits: self.total_commits,
                        languages: self.languages,
                    },
                ),
            ),
            Phase::Failed(e) => Some(Err(e)),
            _ => None,
        }
    }
}

/// The totals after the language sizes of several repositories, one list
/// per repository, have been merged in their order.
pub open spec fn merged_all(
    entries: Seq<LanguageTotal>,
    lists: Seq<Seq<LanguageBytes>>,
    colors: Map<Seq<char>, Seq<char>>,
) -> Seq<LanguageTotal>
    decreases lists.len(),
{
    if lists.len() == 0 {
        entries
    } else {
        merged_all(merged(entries, lists[0], colors), lists.drop_first(), colors)
    }
}

/// The aggregation after the answers in `lists` have come in, one for each
/// repository still to be asked about.
pub open spec fn after_all_languages(
    p: Progress,
    lists: Seq<Seq<LanguageBytes>>,
    colors: Map<Seq<char>, Seq<char>>,
) -> Progress
    decreases lists.len(),
{
    if lists.len() == 0 {
        p
    } else {
        match p.phase {
            Phase::FetchingLanguages(index) => after_all_languages(
                after_languages(p, index, lists[0], colors),
                lists.drop_first(),
                colors,
            ),
            _ => p,
        }
    }
}

/// A whole aggregation for `user`: the repository search answers `result`,
/// the commit search reports `commits`, and the repositories' language
/// sizes are `lists`.
pub open spec fn run(
    user: Seq<char>,
    result: SearchResult<Repository>,
    commits: u32,
    lists: Seq<Seq<LanguageBytes>>,
    colors: Map<Seq<char>, Seq<char>>,
) -> Progress {
    let p = after_repositories(started(user), result);
    if p.phase is Failed {
        p
    } else {
        after_all_languages(after_commits(p, commits), lists, colors)
    }
}

/// The bytes that the lists hold under `name`, summed over all of them.
pub open spec fn bytes_named_all(lists: Seq<Seq<LanguageBytes>>, name: Seq<char>) -> nat
    decreases lists.len(),
{
    if lists.len() == 0 {
        0
    } else {
        bytes_named(lists[0], name) + bytes_named_all(lists.drop_first(), name)
    }
}

/// The size recorded under a language name is the sum of that language's
/// bytes over every repository merged.
pub proof fn law_language_size_is_sum_over_repositories(
    entries: Seq<LanguageTotal>,
    lists: Seq<Seq<LanguageBytes>>,
    colors: Map<Seq<char>, Seq<char>>,
    name: Seq<char>,
)
    ensures
        size_of(merged_all(entries, lists, colors), name) == size_of(entries, name)
            + bytes_named_all(lists, name),
        size_of(merged_all(Seq::empty(), lists, colors), name) == bytes_named_all(lists, name),
    decreases lists.len(),
{
    if lists.len() > 0 {
        law_merged_size_is_sum(entries, lists[0], colors, name);
        law_language_size_is_sum_over_repositories(
            merged(entries, lists[0], colors),
            lists.drop_first(),
            colors,
            name,
        );
        law_merged_size_is_sum(Seq::empty(), lists[0], colors, name);
        law_language_size_is_sum_over_repositories(
            merged(Seq::empty(), lists[0], colors),
            lists.drop_first(),
            colors,
            name,
        );
    }
}

/// Totals that do not fit stay too large whatever lists are merged later.
proof fn lemma_overflow_stays_all(
    entries: Seq<LanguageTotal>,
    lists: Seq<Seq<LanguageBytes>>,
    colors: Map<Seq<char>, Seq<char>>,
)
    requires
        !fits(entries),
    ensures
        !fits(merged_all(entries, lists, colors)),
    decreases lists.len(),
{
    if lists.len() > 0 {
        lemma_overflow_stays(entries, lists[0], colors);
        lemma_overflow_stays_all(merged(entries, lists[0], colors), lists.drop_first(), colors);
    }
}

/// From the repository at `index` on, the answers for all remaining
/// repositories bring the aggregation to `Done` with the lists merged in
/// order, and change nothing else.
proof fn lemma_after_all_languages(
    p: Progress,
    index: int,
    lists: Seq<Seq<LanguageBytes>>,
    colors: Map<Seq<char>, Seq<char>>,
)
    requires
        0 <= index <= p.repos.len() <= usize::MAX,
        p.phase == languages_phase(index, p.repos.len() as int),
        lists.len() == p.repos.len() - index,
        fits(merged_all(p.languages, lists, colors)),
    ensures
        after_all_languages(p, lists, colors) == (Progress {
            phase: Phase::Done,
            languages: merged_all(p.languages, lists, colors),
            ..p
        }),
    decreases lists.len(),
{
    if lists.len() > 0 {
        let next = merged(p.languages, lists[0], colors);
        if !fits(next) {
            lemma_overflow_stays_all(next, lists.drop_first(), colors);
        }
        let q = after_languages(p, index as usize, lists[0], colors);
        lemma_after_all_languages(q, index + 1, lists.drop_first(), colors);
    }
}

/// The statistics of a finished aggregation are fixed by the answers alone:
/// the stars are the sum over the repositories found, the commits are the
/// reported count, and the language totals are the lists merged in order
/// into an empty table. Nothing carries over from an earlier aggregation, so
/// running again on the same answers gives the same statistics.
pub proof fn law_run_depends_on_answers_only(
    user: Seq<char>,
    result: SearchResult<Repository>,
    commits: u32,
    lists: Seq<Seq<LanguageBytes>>,
    colors: Map<Seq<char>, Seq<char>>,
)
    requires
        lists.len() == result.items@.len(),
        star_sum(result.items@) <= u32::MAX,
        fits(merged_all(Seq::empty(), lists, colors)),
    ensures
        run(user, result, commits, lists, colors) == (Progress {
            phase: Phase::Done,
            user,
            repos: result.items@,
            total_stars: star_sum(result.items@) as u32,
            total_commits: commits,
            languages: merged_all(Seq::empty(), lists, colors),
        }),
{
    let p = after_commits(after_repositories(started(user), result), commits);
    assert(result.items@.len() == result.items.len());
    lemma_after_all_languages(p, 0, lists, colors);
}

} // verus!
