//! Search criteria for locating applications.
//!
//! An [`AppQuery`] describes "what application, which version". Queries are
//! immutable values: the fluent [`AppQuery::find_all`] transform returns a
//! modified copy and leaves the original untouched.

use vstd::prelude::*;

verus! {

/// Hints restricting where a command-line lookup should search.
#[derive(Clone, Debug)]
pub struct CliQueryOptions {
    pub search_paths: Option<Vec<String>>,
}

/// The channel through which a query expects to locate its target.
#[derive(Clone, Copy, Debug, PartialEq, Eq, Structural)]
pub enum QueryOptions {
    Container,
    Network,
    Cli,
}

/// The mathematical value of an [`AppQuery`].
#[verifier::ext_equal]
pub ghost struct AppQueryView {
    pub name: Seq<char>,
    pub works_with: Option<Seq<char>>,
    pub aliases: Option<Seq<Seq<char>>>,
    pub search_paths: Option<Seq<Seq<char>>>,
    pub find_all: bool,
}

impl AppQueryView {
    /// The same query with the multi-match gate switched off.
    pub open spec fn with_find_all(self) -> AppQueryView {
        AppQueryView { find_all: true, ..self }
    }
}

/// The criteria for locating an application: a required name, an optional
/// version constraint, optional alternate names and search-path hints, and
/// whether every match should be returned rather than exactly one.
#[derive(Clone, Debug)]
pub struct AppQuery {
    /// The name to match, case-insensitively.
    pub name: String,
    /// A version-requirement text the matching instance must satisfy.
    pub works_with: Option<String>,
    /// Alternate names the application may also be known by.
    pub aliases: Option<Vec<String>>,
    /// Standard locations to look in.
    pub search_paths: Option<Vec<String>>,
    /// When true, every match is returned; when false, a multi-match is
    /// rejected at the `find_one` boundary.
    pub find_all: bool,
}

impl View for AppQuery {
    type V = AppQueryView;

    open spec fn view(&self) -> AppQueryView {
        AppQueryView {
            name: self.name@,
            works_with: self.works_with.deep_view(),
            aliases: self.aliases.deep_view(),
            search_paths: self.search_paths.deep_view(),
            find_all: self.find_all,
        }
    }
}

impl AppQuery {
    /// A query is well formed when its name is non-empty.
    pub open spec fn wf(self) -> bool {
        self.name@.len() > 0
    }

    /// A fresh query for the given name, matching exactly one instance.
    pub fn new(name: String) -> (r: AppQuery)
        requires
            name@.len() > 0,
        ensures
            r@.name == name@,
            r@.works_with is None,
            r@.aliases is None,
            r@.search_paths is None,
            r@.find_all == false,
            r.wf(),
    {
        AppQuery { name, works_with: None, aliases: None, search_paths: None, find_all: false }
    }

    /// A copy of this query with the same value.
    pub fn duplicate(&self) -> (r: AppQuery)
        ensures
            r@ == self@,
            r.wf() == self.wf(),
    {
        let r = AppQuery {
            name: self.name.clone(),
            works_with: clone_opt_string(&self.works_with),
            aliases: clone_opt_string_vec(&self.aliases),
            search_paths: clone_opt_string_vec(&self.search_paths),
            find_all: self.find_all,
        };
        proof {
            assert(r@ =~= self@);
        }
        r
    }

    /// A copy of this query that returns every match; the original query is
    /// left unmodified.
    pub fn find_all(&self) -> (r: AppQuery)
        ensures
            r@ == self@.with_find_all(),
            r.wf() == self.wf(),
    {
        let r = AppQuery {
            find_all: true,
            name: self.name.clone(),
            works_with: clone_opt_string(&self.works_with),
            aliases: clone_opt_string_vec(&self.aliases),
            search_paths: clone_opt_string_vec(&self.search_paths),
        };
        proof {
            assert(r@ =~= self@.with_find_all());
        }
        r
    }
}

/// A copy of an optional string with the same contents.
pub fn clone_opt_string(o: &Option<String>) -> (r: Option<String>)
    ensures
        r.deep_view() == o.deep_view(),
{
    match o {
        None => None,
        Some(s) => Some(s.clone()),
    }
}

/// A copy of a string list with the same contents.
pub fn clone_string_vec(v: &Vec<String>) -> (r: Vec<String>)
    ensures
        r.deep_view() == v.deep_view(),
{
    let mut r: Vec<String> = Vec::new();
    let mut i: usize = 0;
    while i < v.len()
        invariant
            i <= v@.len(),
            r.deep_view() =~= v.deep_view().take(i as int),
        decreases v@.len() - i,
    {
        let ghost prev = r.deep_view();
        r.push(v[i].clone());
        proof {
            assert(r.deep_view() =~= prev.push(v@[i as int]@));
            assert(v.deep_view().take(i as int + 1) =~= prev.push(v@[i as int]@));
        }
        i = i + 1;
    }
    proof {
        assert(r.deep_view() =~= v.deep_view());
    }
    r
}

/// A copy of an optional string list with the same contents.
pub fn clone_opt_string_vec(o: &Option<Vec<String>>) -> (r: Option<Vec<String>>)
    ensures
        r.deep_view() == o.deep_view(),
{
    match o {
        None => None,
        Some(v) => Some(clone_string_vec(v)),
    }
}

} // verus!
