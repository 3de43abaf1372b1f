//! The two queries over a repository's history, on top of git2.

use vstd::prelude::*;
use crate::contributors::{holds_name, insert_contributor, sorted_distinct};
use crate::filter::{commit_matches, passes_filter, in_window};
use crate::record::{author_or_unknown, displayable_time, render_time, utc_text_of, CommitInfo};

verus! {

#[verifier::external_type_specification]
#[verifier::external_body]
pub struct ExRepository(git2::Repository);

#[verifier::external_type_specification]
#[verifier::external_body]
pub struct ExRevwalk<'repo>(git2::Revwalk<'repo>);

#[verifier::external_type_specification]
#[verifier::external_body]
pub struct ExCommit<'repo>(git2::Commit<'repo>);

#[verifier::external_type_specification]
#[verifier::external_body]
pub struct ExTree<'repo>(git2::Tree<'repo>);

#[verifier::external_type_specification]
#[verifier::external_body]
pub struct ExDiff<'repo>(git2::Diff<'repo>);

#[verifier::external_type_specification]
#[verifier::external_body]
pub struct ExOid(git2::Oid);

#[verifier::external_type_specification]
#[verifier::external_body]
pub struct ExError(git2::Error);

/// Relies on `git2::Repository::revwalk`: a fresh walker over the repository.
#[verifier::external_body]
fn new_revwalk(repo: &git2::Repository) -> (r: Result<git2::Revwalk<'_>, git2::Error>) {
    repo.revwalk()
}

/// Relies on `git2::Revwalk::push_head`: starts the walk at HEAD, failing when
/// HEAD cannot be resolved.
#[verifier::external_body]
fn push_head(walk: &mut git2::Revwalk<'_>) -> (r: Result<(), git2::Error>) {
    walk.push_head()
}

/// Relies on `git2::Revwalk`'s `Iterator` impl: the ids reachable from HEAD in
/// the engine's default order, each `Err` where one could not be read.
#[verifier::external_body]
fn walk_ids(walk: git2::Revwalk<'_>) -> (r: Vec<Result<git2::Oid, git2::Error>>) {
    walk.collect()
}

/// Relies on `git2::Repository::find_commit`: looks a commit up by id.
#[verifier::external_body]
fn find_commit<'r>(repo: &'r git2::Repository, id: &git2::Oid) -> (r: Result<
    git2::Commit<'r>,
    git2::Error,
>) {
    repo.find_commit(*id)
}

/// Relies on `git2::Commit::time` and `git2::Time::seconds`: the commit time
/// in seconds since the epoch.
#[verifier::external_body]
fn commit_seconds(commit: &git2::Commit<'_>) -> (r: i64) {
    commit.time().seconds()
}

/// Relies on `git2::Commit::author` and `git2::Signature::name`: the author's
/// name, `None` where it is missing or not UTF-8.
#[verifier::external_body]
fn author_name(commit: &git2::Commit<'_>) -> (r: Option<String>) {
    commit.author().name().map(|n| n.to_string())
}

/// Relies on `git2::Commit::author` and `git2::Signature::email`: the author's
/// email, `None` where it is not UTF-8.
#[verifier::external_body]
fn author_email(commit: &git2::Commit<'_>) -> (r: Option<String>) {
    commit.author().email().map(|e| e.to_string())
}

/// Relies on `git2::Commit::message`: the full message, `None` where it is not
/// UTF-8.
#[verifier::external_body]
fn commit_message(commit: &git2::Commit<'_>) -> (r: Option<String>) {
    commit.message().map(|m| m.to_string())
}

/// Relies on `git2::Commit::id` and the `Display` of `git2::Oid`: the id in
/// hexadecimal.
#[verifier::external_body]
fn commit_hex_id(commit: &git2::Commit<'_>) -> (r: String) {
    commit.id().to_string()
}

/// Relies on `git2::Commit::tree`: the snapshot the commit records.
#[verifier::external_body]
fn commit_tree<'r>(commit: &git2::Commit<'r>) -> (r: Result<git2::Tree<'r>, git2::Error>) {
    commit.tree()
}

/// Relies on `git2::Commit::parent_count`.
#[verifier::external_body]
fn parent_count(commit: &git2::Commit<'_>) -> (r: usize) {
    commit.parent_count()
}

/// Relies on `git2::Commit::parent`: the parent at `index` (an `Err` where
/// there is none).
#[verifier::external_body]
fn parent_at<'r>(commit: &git2::Commit<'r>, index: usize) -> (r: Result<
    git2::Commit<'r>,
    git2::Error,
>) {
    commit.parent(index)
}

/// Relies on `git2::Repository::diff_tree_to_tree` with default options; a
/// missing old tree stands for the empty tree.
#[verifier::external_body]
fn diff_trees<'r>(
    repo: &'r git2::Repository,
    old_tree: Option<&git2::Tree<'_>>,
    new_tree: &git2::Tree<'_>,
) -> (r: Result<git2::Diff<'r>, git2::Error>) {
    repo.diff_tree_to_tree(old_tree, Some(new_tree), None)
}

/// Relies on `git2::Diff::stats` with `DiffStats::insertions` and
/// `DiffStats::deletions`: lines added and removed over all files.
#[verifier::external_body]
fn line_counts(diff: &git2::Diff<'_>) -> (r: Result<(usize, usize), git2::Error>) {
    let stats = diff.stats()?;
    Ok((stats.insertions(), stats.deletions()))
}

/// Relies on the `Display` of `git2::Error`: its description.
#[verifier::external_body]
fn error_text(e: &git2::Error) -> (r: String) {
    e.to_string()
}

/// `context`, then `": "`, then the engine's description of `e`.
fn describe(context: &str, e: &git2::Error) -> (r: String)
    ensures
        r@.len() > context@.len(),
        r@.subrange(0, context@.len() as int) == context@,
{
    let mut r = String::from_str(context);
    r.append(": ");
    proof {
        reveal_strlit(": ");
    }
    r.append(error_text(e).as_str());
    assert(r@.subrange(0, context@.len() as int) =~= context@);
    r
}

/// Author name and commit time of a commit, as the filter reads them.
pub type Header = (Seq<char>, int);

/// The header of a record.
pub open spec fn header_of(c: CommitInfo) -> Header {
    (c.author@, c.time as int)
}

/// The headers of walked commits, given as (author name, seconds) pairs.
pub open spec fn headers_view(headers: Seq<(String, i64)>) -> Seq<Header> {
    headers.map_values(|p: (String, i64)| (p.0@, p.1 as int))
}

/// A commit is kept when it passes the filter and its time can be rendered.
///
/// Leaving out a commit whose time cannot be rendered, rather than listing it
/// with a placeholder, is an open policy question: it is kept here as the
/// established behaviour, not as a settled decision.
pub open spec fn keeps(h: Header, filter: Seq<char>, start: int, end: int) -> bool {
    passes_filter(h.0, h.1, filter, start, end) && displayable_time(h.1)
}

/// The headers of the walked commits that the query keeps, in walk order.
pub open spec fn kept(seen: Seq<Header>, filter: Seq<char>, start: int, end: int) -> Seq<Header> {
    seen.filter(|h: Header| keeps(h, filter, start, end))
}

/// With an empty author filter, the query keeps exactly the walked commits
/// whose time lies in the window (and can be rendered), whoever wrote them.
pub proof fn lemma_empty_filter_keeps_window(seen: Seq<Header>, start: int, end: int)
    ensures
        kept(seen, Seq::empty(), start, end) == seen.filter(
            |h: Header| in_window(h.1, start, end) && displayable_time(h.1),
        ),
{
    assert((|h: Header| keeps(h, Seq::empty(), start, end)) =~= (|h: Header|
        in_window(h.1, start, end) && displayable_time(h.1)));
}

/// The positions of the walked commits that the query keeps, ascending:
/// those whose author passes `author_filter`, whose time lies in
/// `[start, end]` and whose time can be rendered.
pub fn select_kept(headers: &Vec<(String, i64)>, author_filter: &str, start: i64, end: i64) -> (r:
    Vec<usize>)
    ensures
        forall|k: int| 0 <= k < r.len() ==> (#[trigger] r@[k]) < headers.len(),
        forall|a: int, b: int| 0 <= a < b < r.len() ==> #[trigger] r@[a] < #[trigger] r@[b],
        r@.map_values(|k: usize| headers_view(headers@)[k as int]) == kept(
            headers_view(headers@),
            author_filter@,
            start as int,
            end as int,
        ),
{
    let ghost hv = headers_view(headers@);
    let mut r: Vec<usize> = Vec::new();
    let n = headers.len();
    let mut i: usize = 0;
    while i < n
        invariant
            n == headers.len(),
            i <= n,
            hv == headers_view(headers@),
            forall|k: int| 0 <= k < r.len() ==> (#[trigger] r@[k]) < i,
            forall|a: int, b: int| 0 <= a < b < r.len() ==> #[trigger] r@[a] < #[trigger] r@[b],
            r@.map_values(|k: usize| hv[k as int]) == kept(
                hv.take(i as int),
                author_filter@,
                start as int,
                end as int,
            ),
        decreases n - i,
    {
        let ghost before = r@;
        let author = &headers[i].0;
        let time = headers[i].1;
        let keep = commit_matches(author.as_str(), time, author_filter, start, end) && render_time(
            time,
        ).is_some();
        proof {
            reveal_with_fuel(Seq::filter, 1);
            assert(hv.take(i + 1).drop_last() =~= hv.take(i as int));
            assert(hv.take(i + 1).last() == hv[i as int]);
            assert(hv[i as int] == (author@, time as int));
        }
        if keep {
            r.push(i);
            assert(r@.map_values(|k: usize| hv[k as int]) =~= before.map_values(
                |k: usize| hv[k as int],
            ).push(hv[i as int]));
        }
        i = i + 1;
    }
    assert(hv.take(n as int) =~= hv);
    r
}

/// The names that occur among `names`.
pub open spec fn named_among(names: Seq<Option<String>>, s: Seq<char>) -> bool {
    exists|j: int| 0 <= j < names.len() && (#[trigger] names[j] matches Some(n) && n@ == s)
}

/// `v` holds exactly the names that occur among `names`.
pub open spec fn lists_names_of(v: Seq<String>, names: Seq<Option<String>>) -> bool {
    forall|s: Seq<char>| #[trigger] holds_name(v, s) <==> named_among(names, s)
}

/// The distinct names among `names`, in ascending code-point order; a missing
/// name adds nothing, and names compare exactly (case included).
pub fn collect_contributors(names: &Vec<Option<String>>) -> (r: Vec<String>)
    ensures
        sorted_distinct(r@),
        forall|s: Seq<char>| #[trigger] holds_name(r@, s) <==> named_among(names@, s),
{
    let mut r: Vec<String> = Vec::new();
    let n = names.len();
    let mut i: usize = 0;
    while i < n
        invariant
            n == names.len(),
            i <= n,
            sorted_distinct(r@),
            forall|s: Seq<char>|
                #[trigger] holds_name(r@, s) <==> named_among(names@.take(i as int), s),
        decreases n - i,
    {
        let ghost before = r@;
        let ghost prefix = names@.take(i as int);
        let ghost next = names@.take(i + 1);
        if let Some(name) = &names[i] {
            insert_contributor(&mut r, name.clone());
        }
        assert forall|s: Seq<char>| #[trigger] holds_name(r@, s) <==> named_among(next, s) by {
            if named_among(next, s) {
                let j = choose|j: int| 0 <= j < next.len() && (#[trigger] next[j] matches Some(m)
                    && m@ == s);
                if j < i {
                    assert(prefix[j] == next[j]);
                }
            }
            if named_among(prefix, s) {
                let j = choose|j: int| 0 <= j < prefix.len() && (#[trigger] prefix[j] matches Some(
                    m,
                ) && m@ == s);
                assert(next[j] == prefix[j]);
            }
            if names@[i as int] matches Some(m) && m@ == s {
                assert(next[i as int] == names@[i as int]);
            }
        }
        i = i + 1;
    }
    assert(names@.take(n as int) =~= names@);
    r
}

/// Which parent a commit's changes are measured against: none (the empty
/// tree) for a root commit, otherwise the first parent alone, whatever the
/// other parents hold.
pub fn diff_base(parent_count: usize) -> (r: Option<usize>)
    ensures
        r == (if parent_count == 0 {
            None::<usize>
        } else {
            Some(0usize)
        }),
{
    if parent_count == 0 {
        None
    } else {
        Some(0)
    }
}

pub struct GitModule;

impl GitModule {
    /// Relies on `git2::Repository::open`: opens the repository at `path`,
    /// failing where there is none.
    #[verifier::external_body]
    pub fn open_repository(path: &str) -> (r: Result<git2::Repository, git2::Error>) {
        git2::Repository::open(path)
    }

    /// Lines added and deleted by `commit`, over the parent that `diff_base`
    /// picks: the empty tree for a root commit, the first parent otherwise.
    fn get_commit_stats(repo: &git2::Repository, commit: &git2::Commit<'_>) -> (r: Result<
        (usize, usize),
        git2::Error,
    >) {
        let tree = commit_tree(commit)?;
        match diff_base(parent_count(commit)) {
            None => {
                let diff = diff_trees(repo, None, &tree)?;
                line_counts(&diff)
            },
            Some(index) => {
                let parent = parent_at(commit, index)?;
                let parent_tree = commit_tree(&parent)?;
                let diff = diff_trees(repo, Some(&parent_tree), &tree)?;
                line_counts(&diff)
            },
        }
    }

    /// The walk from HEAD: each commit that could be read, with its header
    /// (author name or `"Unknown"`, seconds), in walk order.
    fn walk_commits<'r>(repo: &'r git2::Repository) -> (r: Result<
        (Vec<git2::Commit<'r>>, Vec<(String, i64)>),
        String,
    >)
        ensures
            r matches Ok(p) ==> p.0.len() == p.1.len(),
    {
        let mut walk = match new_revwalk(repo) {
            Ok(walk) => walk,
            Err(e) => return Err(describe("cannot walk history", &e)),
        };
        if let Err(e) = push_head(&mut walk) {
            return Err(describe("cannot resolve HEAD", &e));
        }
        let ids = walk_ids(walk);
        let mut commits: Vec<git2::Commit<'r>> = Vec::new();
        let mut headers: Vec<(String, i64)> = Vec::new();
        let n = ids.len();
        let mut i: usize = 0;
        while i < n
            invariant
                n == ids.len(),
                i <= n,
                commits.len() == headers.len(),
            decreases n - i,
        {
            if let Ok(id) = &ids[i] {
                if let Ok(commit) = find_commit(repo, id) {
                    let author = author_or_unknown(author_name(&commit));
                    headers.push((author, commit_seconds(&commit)));
                    commits.push(commit);
                }
            }
            i = i + 1;
        }
        Ok((commits, headers))
    }

    /// The commits reachable from HEAD whose author contains `author_filter`
    /// (ignoring case; an empty filter admits all) and whose time lies in
    /// `[start_date, end_date]`, in walk order, each with its line counts
    /// (`(0, 0)` where they cannot be computed). Which commits those are is
    /// `select_kept` over the walked headers.
    pub fn get_filtered_commits(
        repo_path: &str,
        author_filter: &str,
        start_date: i64,
        end_date: i64,
    ) -> (r: Result<Vec<CommitInfo>, String>)
        ensures
            r matches Ok(v) ==> forall|i: int|
                0 <= i < v.len() ==> start_date <= (#[trigger] v[i]).time <= end_date
                    && passes_filter(
                    v[i].author@,
                    v[i].time as int,
                    author_filter@,
                    start_date as int,
                    end_date as int,
                ) && v[i].formatted_time@ == utc_text_of(v[i].time),
            r matches Ok(v) ==> exists|seen: Seq<Header>|
                v@.map_values(|c: CommitInfo| header_of(c)) == #[trigger] kept(
                    seen,
                    author_filter@,
                    start_date as int,
                    end_date as int,
                ),
    {
        let repo = match Self::open_repository(repo_path) {
            Ok(repo) => repo,
            Err(e) => return Err(describe("cannot open repository", &e)),
        };
        let (commits, headers) = match Self::walk_commits(&repo) {
            Ok(p) => p,
            Err(e) => return Err(e),
        };
        let picked = select_kept(&headers, author_filter, start_date, end_date);
        let ghost hv = headers_view(headers@);
        let ghost want = kept(hv, author_filter@, start_date as int, end_date as int);
        proof {
            assert forall|j: int| 0 <= j < want.len() implies keeps(
                #[trigger] want[j],
                author_filter@,
                start_date as int,
                end_date as int,
            ) by {
                hv.lemma_filter_pred(
                    |h: Header| keeps(h, author_filter@, start_date as int, end_date as int),
                    j,
                );
            }
        }
        let mut records: Vec<CommitInfo> = Vec::new();
        let m = picked.len();
        assert(want.len() == picked@.map_values(|q: usize| hv[q as int]).len());
        let mut k: usize = 0;
        while k < m
            invariant
                m == picked.len(),
                k <= m,
                commits.len() == headers.len(),
                hv == headers_view(headers@),
                forall|q: int| 0 <= q < picked.len() ==> (#[trigger] picked@[q]) < headers.len(),
                picked@.map_values(|q: usize| hv[q as int]) == want,
                want == kept(hv, author_filter@, start_date as int, end_date as int),
                forall|j: int|
                    0 <= j < want.len() ==> keeps(
                        #[trigger] want[j],
                        author_filter@,
                        start_date as int,
                        end_date as int,
                    ),
                records@.map_values(|c: CommitInfo| header_of(c)) == want.take(k as int),
                records.len() == k,
                want.len() == m,
                forall|j: int|
                    0 <= j < records.len() ==> (#[trigger] records@[j]).formatted_time@
                        == utc_text_of(records@[j].time),
            decreases m - k,
        {
            let idx = picked[k];
            let author = headers[idx].0.clone();
            let time = headers[idx].1;
            let commit = &commits[idx];
            proof {
                assert(want[k as int] == hv[idx as int]);
                assert(hv[idx as int] == (author@, time as int));
            }
            let formatted = match render_time(time) {
                Some(t) => t,
                None => String::new(),
            };
            let stats = match Self::get_commit_stats(&repo, commit) {
                Ok(s) => Some(s),
                Err(_) => None,
            };
            let info = CommitInfo::assemble(
                commit_hex_id(commit),
                commit_message(commit),
                author,
                author_email(commit),
                time,
                formatted,
                stats,
            );
            let ghost before = records@;
            let ghost info_view = info;
            records.push(info);
            assert(records@.map_values(|c: CommitInfo| header_of(c)) =~= want.take(k + 1)) by {
                assert(want.len() == m);
                assert(records@.len() == k + 1);
                assert(records@[k as int] == info_view);
                assert(header_of(info_view) == want[k as int]);
                assert(before.map_values(|c: CommitInfo| header_of(c)) =~= want.take(k as int));
            }
            k = k + 1;
        }
        assert(want.take(m as int) =~= want);
        proof {
            assert forall|i: int| 0 <= i < records.len() implies passes_filter(
                (#[trigger] records@[i]).author@,
                records@[i].time as int,
                author_filter@,
                start_date as int,
                end_date as int,
            ) by {
                assert(records@.map_values(|c: CommitInfo| header_of(c))[i] == want[i]);
            }
        }
        let r: Result<Vec<CommitInfo>, String> = Ok(records);
        assert(r matches Ok(v) && v@.map_values(|c: CommitInfo| header_of(c)) == kept(
            hv,
            author_filter@,
            start_date as int,
            end_date as int,
        ));
        r
    }

    /// The distinct author names over the whole history reachable from HEAD,
    /// in ascending code-point order; commits without a readable name are
    /// skipped. Which names those are is `collect_contributors` over the names
    /// read in the walk.
    pub fn get_contributors(repo_path: &str) -> (r: Result<Vec<String>, String>)
        ensures
            r matches Ok(v) ==> sorted_distinct(v@),
            r matches Ok(v) ==> exists|seen: Seq<Option<String>>| #[trigger] lists_names_of(v@, seen),
    {
        let repo = match Self::open_repository(repo_path) {
            Ok(repo) => repo,
            Err(e) => return Err(describe("cannot open repository", &e)),
        };
        let mut walk = match new_revwalk(&repo) {
            Ok(walk) => walk,
            Err(e) => return Err(describe("cannot walk history", &e)),
        };
        if let Err(e) = push_head(&mut walk) {
            return Err(describe("cannot resolve HEAD", &e));
        }
        let ids = walk_ids(walk);
        let mut names: Vec<Option<String>> = Vec::new();
        let n = ids.len();
        let mut i: usize = 0;
        while i < n
            invariant
                n == ids.len(),
                i <= n,
            decreases n - i,
        {
            if let Ok(id) = &ids[i] {
                if let Ok(commit) = find_commit(&repo, id) {
                    names.push(author_name(&commit));
                }
            }
            i = i + 1;
        }
        let contributors = collect_contributors(&names);
        let r: Result<Vec<String>, String> = Ok(contributors);
        assert(r matches Ok(v) && lists_names_of(v@, names@));
        r
    }
}

} // verus!
