//! The contract between a host and the plugins it loads: the capability
//! interface every plugin offers, the route descriptors a plugin contributes,
//! the descriptive record a host lists, and plugins made from a declaration.

use vstd::prelude::*;

pub mod declare;
pub mod types;

use types::{opt_view, paths_of, route_views, ProvideUrl, RouteFactory, Scope};

verus! {

/// The capability interface that every plugin offers to its host.
///
/// Every operation is a query without side effects; a plugin can be shared
/// between threads and queried from all of them at once.
pub trait Plugin: Send + Sync {
    /// The plugin's identifier.
    spec fn spec_name(&self) -> Seq<char>;

    spec fn spec_version(&self) -> Seq<char>;

    spec fn spec_description(&self) -> Seq<char>;

    spec fn spec_scope(&self) -> Seq<char>;

    /// The routes that the plugin contributes, fixed for its lifetime.
    spec fn spec_routes(&self) -> Seq<(Seq<char>, RouteFactory)>;

    /// The signature that the plugin claims, if any.
    spec fn spec_signature(&self) -> Option<Seq<char>>;

    /// The path of the plugin's frontend bundle, if any.
    spec fn spec_frontend(&self) -> Option<Seq<char>>;

    fn name(&self) -> (r: &str)
        ensures
            r@ == self.spec_name(),
            r@.len() > 0,
    ;

    fn version(&self) -> (r: &str)
        ensures
            r@ == self.spec_version(),
    ;

    fn description(&self) -> (r: &str)
        ensures
            r@ == self.spec_description(),
    ;

    fn scope(&self) -> (r: Scope)
        ensures
            r@ == self.spec_scope(),
    ;

    /// Fresh descriptors on each call, always for the same routes.
    fn register_routes(&self) -> (r: ProvideUrl)
        ensures
            route_views(r@) == self.spec_routes(),
    ;

    /// The signature that the plugin claims, unverified; `None` for an
    /// unsigned plugin. An empty signature and none are the same state, so a
    /// present one is never empty.
    fn signature(&self) -> (r: Option<String>)
        ensures
            opt_view(r) == self.spec_signature(),
            r matches Some(s) ==> s@.len() > 0,
    ;

    /// The path of the plugin's frontend bundle; `None` for a plugin without
    /// one, and never empty when present.
    fn frontend_file(&self) -> (r: Option<String>)
        ensures
            opt_view(r) == self.spec_frontend(),
            r matches Some(s) ==> s@.len() > 0,
    ;
}

impl Plugin for Box<dyn Plugin> {
    open spec fn spec_name(&self) -> Seq<char> {
        (**self).spec_name()
    }

    open spec fn spec_version(&self) -> Seq<char> {
        (**self).spec_version()
    }

    open spec fn spec_description(&self) -> Seq<char> {
        (**self).spec_description()
    }

    open spec fn spec_scope(&self) -> Seq<char> {
        (**self).spec_scope()
    }

    open spec fn spec_routes(&self) -> Seq<(Seq<char>, RouteFactory)> {
        (**self).spec_routes()
    }

    open spec fn spec_signature(&self) -> Option<Seq<char>> {
        (**self).spec_signature()
    }

    open spec fn spec_frontend(&self) -> Option<Seq<char>> {
        (**self).spec_frontend()
    }

    fn name(&self) -> (r: &str) {
        (**self).name()
    }

    fn version(&self) -> (r: &str) {
        (**self).version()
    }

    fn description(&self) -> (r: &str) {
        (**self).description()
    }

    fn scope(&self) -> (r: Scope) {
        (**self).scope()
    }

    fn register_routes(&self) -> (r: ProvideUrl) {
        (**self).register_routes()
    }

    fn signature(&self) -> (r: Option<String>) {
        (**self).signature()
    }

    fn frontend_file(&self) -> (r: Option<String>) {
        (**self).frontend_file()
    }
}

/// Two calls of `register_routes` on one plugin list the same paths, in the
/// same order, and so the same set of paths.
pub proof fn lemma_routes_stable<P: Plugin>(p: &P, first: ProvideUrl, second: ProvideUrl)
    requires
        call_ensures(P::register_routes, (p,), first),
        call_ensures(P::register_routes, (p,), second),
    ensures
        paths_of(route_views(first@)) == paths_of(route_views(second@)),
        paths_of(route_views(first@)).to_set() == paths_of(route_views(second@)).to_set(),
{
}

/// Two calls of `signature` on one plugin give the same answer, and so do two
/// calls of `frontend_file`.
pub proof fn lemma_answers_stable<P: Plugin>(
    p: &P,
    sig_first: Option<String>,
    sig_second: Option<String>,
    front_first: Option<String>,
    front_second: Option<String>,
)
    requires
        call_ensures(P::signature, (p,), sig_first),
        call_ensures(P::signature, (p,), sig_second),
        call_ensures(P::frontend_file, (p,), front_first),
        call_ensures(P::frontend_file, (p,), front_second),
    ensures
        opt_view(sig_first) == opt_view(sig_second),
        opt_view(front_first) == opt_view(front_second),
{
}

} // verus!
