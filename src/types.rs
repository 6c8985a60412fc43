use vstd::prelude::*;

use crate::Plugin;

verus! {

/// The routing namespace that a plugin occupies.
pub type Scope = String;

/// The routes that a plugin contributes, in the order it lists them.
pub type ProvideUrl = Vec<RouteDescriptor>;

/// The route paths of a plugin, without their constructors.
pub type Provides = Vec<String>;

/// The HTTP method that a route answers.
#[derive(Clone, Copy, PartialEq, Eq, Structural, Debug)]
pub enum HttpMethod {
    Get,
    Post,
    Put,
    Patch,
    Delete,
    Head,
    Options,
    Trace,
    Connect,
}

/// The deferred constructor of a route: which method to route, and to which
/// handler of the plugin. The serving side builds a fresh route object from it
/// each time it is asked to; the factory itself holds no shared state.
#[derive(Clone, Copy, PartialEq, Eq, Structural, Debug)]
pub struct RouteFactory {
    pub method: HttpMethod,
    /// Position of the handler in the table that the plugin's serving glue holds.
    pub handler: usize,
}

/// A route path paired with the deferred constructor of its route.
#[derive(Debug)]
pub struct RouteDescriptor {
    pub path: String,
    pub factory: RouteFactory,
}

impl View for RouteDescriptor {
    type V = (Seq<char>, RouteFactory);

    open spec fn view(&self) -> (Seq<char>, RouteFactory) {
        (self.path@, self.factory)
    }
}

impl Clone for RouteDescriptor {
    fn clone(&self) -> (r: Self)
        ensures
            r@ == self@,
    {
        RouteDescriptor { path: self.path.clone(), factory: self.factory }
    }
}

impl RouteDescriptor {
    pub fn new(path: &str, method: HttpMethod, handler: usize) -> (r: RouteDescriptor)
        ensures
            r@ == (path@, RouteFactory { method, handler }),
    {
        RouteDescriptor { path: path.to_owned(), factory: RouteFactory { method, handler } }
    }
}

/// The views of a sequence of route descriptors.
pub open spec fn route_views(s: Seq<RouteDescriptor>) -> Seq<(Seq<char>, RouteFactory)> {
    s.map_values(|d: RouteDescriptor| d@)
}

/// The paths of a sequence of route views, in order.
pub open spec fn paths_of(s: Seq<(Seq<char>, RouteFactory)>) -> Seq<Seq<char>> {
    s.map_values(|v: (Seq<char>, RouteFactory)| v.0)
}

/// The views of a sequence of strings.
pub open spec fn strings_view(s: Seq<String>) -> Seq<Seq<char>> {
    s.map_values(|x: String| x@)
}

/// The view of an optional string.
pub open spec fn opt_view(o: Option<String>) -> Option<Seq<char>> {
    match o {
        Some(s) => Some(s@),
        None => None,
    }
}


/// A descriptive record of a loaded plugin, for listings and logs: its
/// metadata, and its route paths without their constructors.
#[derive(Debug)]
pub struct PluginMeta {
    pub name: String,
    pub version: String,
    pub description: String,
    pub scope: Scope,
    pub routes: Provides,
    pub signature: Option<String>,
    pub frontend: Option<String>,
}

impl PluginMeta {
    /// The record of a live plugin, with its routes in the order that
    /// `register_routes` lists them.
    pub fn from_plugin<P: Plugin>(p: &P) -> (r: PluginMeta)
        ensures
            r.name@ == p.spec_name(),
            r.version@ == p.spec_version(),
            r.description@ == p.spec_description(),
            r.scope@ == p.spec_scope(),
            strings_view(r.routes@) == paths_of(p.spec_routes()),
            opt_view(r.signature) == p.spec_signature(),
            opt_view(r.frontend) == p.spec_frontend(),
            r.signature matches Some(s) ==> s@.len() > 0,
            r.frontend matches Some(f) ==> f@.len() > 0,
    {
        let listed = p.register_routes();
        let mut routes: Vec<String> = Vec::new();
        let n: usize = listed.len();
        let mut i: usize = 0;
        while i < n
            invariant
                n == listed@.len(),
                i <= n,
                strings_view(routes@) == paths_of(route_views(listed@.subrange(0, i as int))),
            decreases n - i,
        {
            let ghost before = routes@;
            let path = listed[i].path.clone();
            routes.push(path);
            proof {
                let head = listed@.subrange(0, i as int);
                assert(listed@.subrange(0, i + 1) =~= head.push(listed@[i as int]));
                assert(strings_view(routes@) =~= strings_view(before).push(path@));
                assert(route_views(head.push(listed@[i as int])) =~= route_views(head).push(
                    listed@[i as int]@,
                ));
                assert(paths_of(route_views(head).push(listed@[i as int]@)) =~= paths_of(
                    route_views(head),
                ).push(path@));
            }
            i = i + 1;
        }
        proof {
            assert(listed@.subrange(0, n as int) =~= listed@);
        }
        PluginMeta {
            name: p.name().to_owned(),
            version: p.version().to_owned(),
            description: p.description().to_owned(),
            scope: p.scope(),
            routes,
            signature: p.signature(),
            frontend: p.frontend_file(),
        }
    }
}

/// A record built from a plugin repeats its name, version, description,
/// scope, signature and frontend path exactly, and lists the paths of its routes in the order that
/// `register_routes` produces them.
pub proof fn lemma_meta_lists_routes<P: Plugin>(p: &P, meta: PluginMeta, listed: ProvideUrl)
    requires
        call_ensures(PluginMeta::from_plugin::<P>, (p,), meta),
        call_ensures(P::register_routes, (p,), listed),
    ensures
        meta.name@ == p.spec_name(),
        meta.version@ == p.spec_version(),
        meta.description@ == p.spec_description(),
        meta.scope@ == p.spec_scope(),
        strings_view(meta.routes@) == paths_of(route_views(listed@)),
        opt_view(meta.signature) == p.spec_signature(),
        opt_view(meta.frontend) == p.spec_frontend(),
{
}

} // verus!
