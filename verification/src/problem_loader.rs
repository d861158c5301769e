//! Finding problems. A problem is looked for in the registries, in the
//! order in which they were configured, the first time it is asked for; after
//! that it is answered from the cache.
//!
//! The loader does not reach the registries itself. A search says what is to
//! be done next, and is told how that went.

use crate::error::{Error, ErrorKind};
use crate::paths::{join, joined_path};
use crate::problem::Problem;
use vstd::prelude::*;

verus! {

/// Where problems come from.
#[derive(Clone, Debug, PartialEq, Eq)]
pub struct LoaderConfig {
    /// Directory with problems, one directory each.
    pub fs: Option<String>,
    /// Address of a MongoDB database with problems.
    pub mongodb: Option<String>,
}

/// A source of problems.
#[derive(Clone, Debug, PartialEq, Eq)]
pub enum Registry {
    Fs { root: String },
    Mongo { url: String },
}

impl Registry {
    pub fn name(&self) -> (r: &'static str)
        ensures
            r@ == match self {
                Registry::Fs { .. } => "fs"@,
                Registry::Mongo { .. } => "mongodb"@,
            },
    {
        match self {
            Registry::Fs { .. } => "fs",
            Registry::Mongo { .. } => "mongodb",
        }
    }
}

/// What the loader remembers of a problem.
#[derive(Debug, PartialEq, Eq)]
pub struct ProblemCacheItem {
    /// Directory that holds the problem's files.
    pub assets: String,
    pub manifest: Problem,
}

/// The problems that were found, by name. An entry is never dropped.
#[derive(Debug, PartialEq, Eq)]
pub struct ProblemCache {
    /// Name and item, in the order in which they were put in. A later
    /// entry of a name stands for it.
    pub items: Vec<(String, ProblemCacheItem)>,
}

/// The cache as a map from names to what is remembered.
pub open spec fn cache_map(items: Seq<(String, ProblemCacheItem)>) -> Map<
    Seq<char>,
    ProblemCacheItem,
>
    decreases items.len(),
{
    if items.len() == 0 {
        Map::empty()
    } else {
        cache_map(items.drop_last()).insert(items.last().0@, items.last().1)
    }
}

impl ProblemCache {
    pub open spec fn view(&self) -> Map<Seq<char>, ProblemCacheItem> {
        cache_map(self.items@)
    }

    pub fn new() -> (r: ProblemCache)
        ensures
            r@ == Map::<Seq<char>, ProblemCacheItem>::empty(),
    {
        ProblemCache { items: Vec::new() }
    }

    pub fn get(&self, name: &str) -> (r: Option<&ProblemCacheItem>)
        ensures
            match r {
                Some(item) => self@.dom().contains(name@) && self@[name@] == *item,
                None => !self@.dom().contains(name@),
            },
    {
        let wanted = String::from_str(name);
        let mut n: usize = self.items.len();
        assert(self.items@.take(n as int) =~= self.items@);
        while n > 0
            invariant
                n <= self.items.len(),
                wanted@ == name@,
                self@.dom().contains(name@) == cache_map(self.items@.take(n as int)).dom().contains(
                    name@,
                ),
                self@.dom().contains(name@) ==> self@[name@] == cache_map(
                    self.items@.take(n as int),
                )[name@],
            decreases n,
        {
            assert(self.items@.take(n as int).drop_last() =~= self.items@.take(n - 1));
            if self.items[n - 1].0 == wanted {
                return Some(&self.items[n - 1].1);
            }
            n -= 1;
        }
        None
    }

    pub fn insert(&mut self, name: String, item: ProblemCacheItem)
        ensures
            final(self)@ == old(self)@.insert(name@, item),
    {
        self.items.push((name, item));
        assert(self.items@.drop_last() =~= old(self).items@);
    }
}

#[derive(Debug, PartialEq, Eq)]
pub struct Loader {
    pub registries: Vec<Registry>,
    pub cache: ProblemCache,
    /// Each problem is kept in the directory of its name in here.
    pub cache_dir: String,
}

/// Whether the registries are those that a configuration asks for: the
/// file system first, then the database, each if it is configured.
pub open spec fn configured(registries: Seq<Registry>, conf: LoaderConfig) -> bool {
    match (conf.fs, conf.mongodb) {
        (Some(root), Some(url)) => registries.len() == 2 && registries[0] == (Registry::Fs { root })
            && registries[1] == (Registry::Mongo { url }),
        (Some(root), None) => registries.len() == 1 && registries[0] == (Registry::Fs { root }),
        (None, Some(url)) => registries.len() == 1 && registries[0] == (Registry::Mongo { url }),
        (None, None) => registries.len() == 0,
    }
}

/// How far a search has come.
#[derive(Clone, Copy, Debug, PartialEq, Eq, Structural)]
pub enum SearchPhase {
    /// The directory for the problem's files is being made.
    Preparing,
    /// The registry of this position is being asked.
    Asking { registry: usize },
    Finished,
}

/// The search for one problem.
#[derive(Debug, PartialEq, Eq)]
pub struct Search {
    pub name: String,
    pub assets_path: String,
    pub phase: SearchPhase,
}

pub struct SearchView {
    pub name: Seq<char>,
    pub assets_path: Seq<char>,
    pub phase: SearchPhase,
}

impl DeepView for Search {
    type V = SearchView;

    open spec fn deep_view(&self) -> SearchView {
        SearchView { name: self.name@, assets_path: self.assets_path@, phase: self.phase }
    }
}

/// What a search asks to be done next.
#[derive(Debug, PartialEq, Eq)]
pub enum SearchTask {
    /// Remove whatever is at `dir`, if that can be done, and make an empty
    /// directory there. Answered by `SearchReport::Ready`.
    Prepare { dir: String },
    /// Ask the registry of this position for the problem; it puts the
    /// problem's files into `dir`. Answered by `SearchReport::Answer`.
    Ask { registry: usize, dir: String },
    /// Nothing: the problem is in the cache.
    Found,
    /// Nothing: no registry knows the problem.
    NotFound,
    /// Nothing: the search has failed.
    Failed(Error),
}

pub enum SearchTaskView {
    Prepare { dir: Seq<char> },
    Ask { registry: usize, dir: Seq<char> },
    Found,
    NotFound,
    Failed(ErrorKind),
}

impl DeepView for SearchTask {
    type V = SearchTaskView;

    open spec fn deep_view(&self) -> SearchTaskView {
        match self {
            SearchTask::Prepare { dir } => SearchTaskView::Prepare { dir: dir@ },
            SearchTask::Ask { registry, dir } => SearchTaskView::Ask {
                registry: *registry,
                dir: dir@,
            },
            SearchTask::Found => SearchTaskView::Found,
            SearchTask::NotFound => SearchTaskView::NotFound,
            SearchTask::Failed(error) => SearchTaskView::Failed(error.kind),
        }
    }
}

/// How the task of a search went.
#[derive(Debug, PartialEq, Eq)]
pub enum SearchReport {
    /// The directory is there and empty.
    Ready,
    /// What the registry said: the problem, or that it has none of this name.
    Answer(Option<Problem>),
    /// The task could not be done.
    Failed(Error),
}

/// A search that is over.
pub open spec fn over(search: SearchView, task: SearchTaskView) -> (SearchView, SearchTaskView) {
    (SearchView { phase: SearchPhase::Finished, ..search }, task)
}

/// The next registry is asked, if there is one more.
pub open spec fn ask(registries: nat, search: SearchView, registry: usize) -> (
    SearchView,
    SearchTaskView,
) {
    if registry < registries {
        (
            SearchView { phase: SearchPhase::Asking { registry }, ..search },
            SearchTaskView::Ask { registry, dir: search.assets_path },
        )
    } else {
        over(search, SearchTaskView::NotFound)
    }
}

/// How a search starts: a problem that is in the cache is found at once,
/// without a registry being asked.
pub open spec fn started(
    cache: Map<Seq<char>, ProblemCacheItem>,
    cache_dir: Seq<char>,
    name: Seq<char>,
) -> (SearchView, SearchTaskView) {
    let assets_path = joined_path(cache_dir, name);
    if cache.dom().contains(name) {
        (SearchView { name, assets_path, phase: SearchPhase::Finished }, SearchTaskView::Found)
    } else {
        (
            SearchView { name, assets_path, phase: SearchPhase::Preparing },
            SearchTaskView::Prepare { dir: assets_path },
        )
    }
}

/// How a search goes on, and what the cache holds after that. The
/// registries are asked in their order; the first that knows the problem
/// ends the search, and its answer is put into the cache.
pub open spec fn proceeded(
    cache: Map<Seq<char>, ProblemCacheItem>,
    registries: nat,
    search: Search,
    report: SearchReport,
) -> (Map<Seq<char>, ProblemCacheItem>, (SearchView, SearchTaskView)) {
    let view = search.deep_view();
    match (search.phase, report) {
        (SearchPhase::Finished, _) => (
            cache,
            (view, SearchTaskView::Failed(ErrorKind::UnexpectedEvent)),
        ),
        (_, SearchReport::Failed(error)) => (
            cache,
            over(view, SearchTaskView::Failed(error.kind)),
        ),
        (SearchPhase::Preparing, SearchReport::Ready) => (cache, ask(registries, view, 0)),
        (SearchPhase::Asking { registry }, SearchReport::Answer(answer)) => match answer {
            Some(manifest) => (
                cache.insert(
                    search.name@,
                    ProblemCacheItem { assets: search.assets_path, manifest },
                ),
                over(view, SearchTaskView::Found),
            ),
            None => if registry < usize::MAX {
                (cache, ask(registries, view, (registry + 1) as usize))
            } else {
                (cache, over(view, SearchTaskView::NotFound))
            },
        },
        _ => (cache, over(view, SearchTaskView::Failed(ErrorKind::UnexpectedEvent))),
    }
}

impl Loader {
    /// The loader of a configuration, with nothing in its cache.
    pub fn from_config(conf: &LoaderConfig, cache_dir: String) -> (r: Loader)
        ensures
            configured(r.registries@, *conf),
            r.cache@ == Map::<Seq<char>, ProblemCacheItem>::empty(),
            r.cache_dir == cache_dir,
    {
        let mut registries: Vec<Registry> = Vec::new();
        if let Some(root) = &conf.fs {
            registries.push(Registry::Fs { root: root.clone() });
        }
        if let Some(url) = &conf.mongodb {
            registries.push(Registry::Mongo { url: url.clone() });
        }
        Loader { registries, cache_dir, cache: ProblemCache::new() }
    }

    /// The problem of this name and the directory of its files, as the
    /// cache holds them.
    pub fn find(&self, problem_name: &str) -> (r: Option<(&Problem, &String)>)
        ensures
            match r {
                Some(found) => self.cache@.dom().contains(problem_name@)
                    && self.cache@[problem_name@].manifest == *found.0
                    && self.cache@[problem_name@].assets == *found.1,
                None => !self.cache@.dom().contains(problem_name@),
            },
    {
        match self.cache.get(problem_name) {
            Some(item) => Some((&item.manifest, &item.assets)),
            None => None,
        }
    }

    /// Starts the search for a problem.
    pub fn start(&self, problem_name: &str) -> (r: (Search, SearchTask))
        ensures
            (r.0.deep_view(), r.1.deep_view()) == started(
                self.cache@,
                self.cache_dir@,
                problem_name@,
            ),
    {
        let assets_path = join(self.cache_dir.as_str(), problem_name);
        let name = String::from_str(problem_name);
        if self.cache.get(problem_name).is_some() {
            (Search { name, assets_path, phase: SearchPhase::Finished }, SearchTask::Found)
        } else {
            let dir = assets_path.clone();
            let search = Search { name, assets_path, phase: SearchPhase::Preparing };
            (search, SearchTask::Prepare { dir })
        }
    }

    fn ask(&self, search: Search, registry: usize) -> (r: (Search, SearchTask))
        ensures
            (r.0.deep_view(), r.1.deep_view()) == ask(
                self.registries@.len(),
                search.deep_view(),
                registry,
            ),
    {
        let mut search = search;
        if registry < self.registries.len() {
            search.phase = SearchPhase::Asking { registry };
            let dir = search.assets_path.clone();
            (search, SearchTask::Ask { registry, dir })
        } else {
            search.phase = SearchPhase::Finished;
            (search, SearchTask::NotFound)
        }
    }

    /// Tells a search how its last task went, and learns what it does
    /// next.
    pub fn proceed(&mut self, search: Search, report: SearchReport) -> (r: (Search, SearchTask))
        ensures
            (final(self).cache@, (r.0.deep_view(), r.1.deep_view())) == proceeded(
                old(self).cache@,
                old(self).registries@.len(),
                search,
                report,
            ),
            final(self).registries == old(self).registries,
            final(self).cache_dir == old(self).cache_dir,
    {
        let Search { name, assets_path, phase } = search;
        let mut search = Search { name, assets_path, phase: SearchPhase::Finished };
        match (phase, report) {
            (SearchPhase::Finished, _) => (
                search,
                SearchTask::Failed(Error::new(ErrorKind::UnexpectedEvent, "the search is over")),
            ),
            (_, SearchReport::Failed(error)) => (search, SearchTask::Failed(error)),
            (SearchPhase::Preparing, SearchReport::Ready) => self.ask(search, 0),
            (SearchPhase::Asking { registry }, SearchReport::Answer(answer)) => match answer {
                Some(manifest) => {
                    self.cache.insert(
                        search.name.clone(),
                        ProblemCacheItem { assets: search.assets_path.clone(), manifest },
                    );
                    (search, SearchTask::Found)
                },
                None => if registry < usize::MAX {
                    self.ask(search, registry + 1)
                } else {
                    (search, SearchTask::NotFound)
                },
            },
            _ => (
                search,
                SearchTask::Failed(Error::new(ErrorKind::UnexpectedEvent, "unexpected report")),
            ),
        }
    }
}

/// A problem that a search has found is in the cache: the next search for
/// it asks no registry.
pub proof fn found_once(
    cache: Map<Seq<char>, ProblemCacheItem>,
    cache_dir: Seq<char>,
    registries: nat,
    search: Search,
    report: SearchReport,
)
    requires
        proceeded(cache, registries, search, report).1.1 == SearchTaskView::Found,
    ensures
        started(proceeded(cache, registries, search, report).0, cache_dir, search.name@).1
            == SearchTaskView::Found,
{
}

/// What is in the cache stays there, whatever a search does.
pub proof fn cache_keeps(
    cache: Map<Seq<char>, ProblemCacheItem>,
    registries: nat,
    search: Search,
    report: SearchReport,
    name: Seq<char>,
)
    requires
        cache.dom().contains(name),
    ensures
        proceeded(cache, registries, search, report).0.dom().contains(name),
{
}

} // verus!
