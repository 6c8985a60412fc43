use vstd::prelude::*;

use crate::types::{opt_view, route_views, ProvideUrl, RouteDescriptor, RouteFactory, Scope};
use crate::Plugin;

verus! {

/// What an empty text stands for in a declaration: nothing.
pub open spec fn sentinel(s: Seq<char>) -> Option<Seq<char>> {
    if s.len() == 0 {
        None
    } else {
        Some(s)
    }
}

/// Why a declaration produced no plugin.
#[derive(Clone, Copy, PartialEq, Eq, Structural, Debug)]
pub enum DeclareError {
    /// The plugin's name was empty.
    EmptyName,
}

/// A plugin made from a declaration: its metadata and its route bindings.
#[derive(Debug)]
pub struct DeclaredPlugin {
    name: String,
    version: String,
    description: String,
    scope: Scope,
    signature: Option<String>,
    frontend: Option<String>,
    functions: Vec<RouteDescriptor>,
}

impl DeclaredPlugin {
    #[verifier::type_invariant]
    spec fn inv(self) -> bool {
        &&& self.name@.len() > 0
        &&& self.signature matches Some(s) ==> s@.len() > 0
        &&& self.frontend matches Some(f) ==> f@.len() > 0
    }
}

/// The text of a declaration field, or nothing where it is empty.
fn optional_text(s: &str) -> (r: Option<String>)
    ensures
        opt_view(r) == sentinel(s@),
{
    if s.is_empty() {
        None
    } else {
        Some(s.to_owned())
    }
}

/// Makes a plugin from its metadata, its frontend path and its route
/// bindings. An empty signature or frontend path means none; the bindings
/// become the plugin's routes in the order given, and may be empty.
pub fn declare_plugin(
    name: &str,
    version: &str,
    description: &str,
    scope: &str,
    signature: &str,
    frontend_file: &str,
    functions: Vec<RouteDescriptor>,
) -> (r: Result<DeclaredPlugin, DeclareError>)
    ensures
        r is Err <==> name@.len() == 0,
        r matches Err(e) ==> e == DeclareError::EmptyName,
        r matches Ok(p) ==> {
            &&& p.spec_name() == name@
            &&& p.spec_version() == version@
            &&& p.spec_description() == description@
            &&& p.spec_scope() == scope@
            &&& p.spec_signature() == sentinel(signature@)
            &&& p.spec_frontend() == sentinel(frontend_file@)
            &&& p.spec_routes() == route_views(functions@)
        },
{
    if name.is_empty() {
        return Err(DeclareError::EmptyName);
    }
    Ok(
        DeclaredPlugin {
            name: name.to_owned(),
            version: version.to_owned(),
            description: description.to_owned(),
            scope: scope.to_owned(),
            signature: optional_text(signature),
            frontend: optional_text(frontend_file),
            functions,
        },
    )
}

impl Plugin for DeclaredPlugin {
    closed spec fn spec_name(&self) -> Seq<char> {
        self.name@
    }

    closed spec fn spec_version(&self) -> Seq<char> {
        self.version@
    }

    closed spec fn spec_description(&self) -> Seq<char> {
        self.description@
    }

    closed spec fn spec_scope(&self) -> Seq<char> {
        self.scope@
    }

    closed spec fn spec_routes(&self) -> Seq<(Seq<char>, RouteFactory)> {
        route_views(self.functions@)
    }

    /// The signature as declared, after the empty text became absent.
    closed spec fn spec_signature(&self) -> Option<Seq<char>> {
        opt_view(self.signature)
    }

    /// The frontend path as declared, after the empty text became absent.
    closed spec fn spec_frontend(&self) -> Option<Seq<char>> {
        opt_view(self.frontend)
    }

    fn name(&self) -> (r: &str) {
        proof {
            use_type_invariant(self);
        }
        self.name.as_str()
    }

    fn version(&self) -> (r: &str) {
        self.version.as_str()
    }

    fn description(&self) -> (r: &str) {
        self.description.as_str()
    }

    fn scope(&self) -> (r: Scope) {
        self.scope.clone()
    }

    fn register_routes(&self) -> (r: ProvideUrl) {
        let mut out: Vec<RouteDescriptor> = Vec::new();
        let n: usize = self.functions.len();
        let mut i: usize = 0;
        while i < n
            invariant
                n == self.functions@.len(),
                i <= n,
                route_views(out@) == route_views(self.functions@.subrange(0, i as int)),
            decreases n - i,
        {
            let ghost before = out@;
            let d = self.functions[i].clone();
            out.push(d);
            proof {
                let head = self.functions@.subrange(0, i as int);
                assert(self.functions@.subrange(0, i + 1) =~= head.push(self.functions@[i as int]));
                assert(route_views(out@) =~= route_views(before).push(d@));
                assert(route_views(head.push(self.functions@[i as int])) =~= route_views(head).push(
                    self.functions@[i as int]@,
                ));
            }
            i = i + 1;
        }
        proof {
            assert(self.functions@.subrange(0, n as int) =~= self.functions@);
        }
        out
    }

    fn signature(&self) -> (r: Option<String>) {
        proof {
            use_type_invariant(self);
        }
        self.signature.clone()
    }

    fn frontend_file(&self) -> (r: Option<String>) {
        proof {
            use_type_invariant(self);
        }
        self.frontend.clone()
    }
}

/// A declared plugin reports no frontend bundle where the declared path was
/// empty, and exactly the declared path otherwise.
pub proof fn lemma_frontend_sentinel(
    name: &str,
    version: &str,
    description: &str,
    scope: &str,
    signature: &str,
    frontend_file: &str,
    functions: Vec<RouteDescriptor>,
    made: Result<DeclaredPlugin, DeclareError>,
    reported: Option<String>,
)
    requires
        call_ensures(
            declare_plugin,
            (name, version, description, scope, signature, frontend_file, functions),
            made,
        ),
        name@.len() > 0,
        call_ensures(DeclaredPlugin::frontend_file, (&made->Ok_0,), reported),
    ensures
        frontend_file@.len() == 0 ==> reported is None,
        frontend_file@.len() > 0 ==> (reported matches Some(f) && f@ == frontend_file@),
{
}

/// A plugin declared with no route bindings contributes no routes.
pub proof fn lemma_no_bindings_no_routes(
    name: &str,
    version: &str,
    description: &str,
    scope: &str,
    signature: &str,
    frontend_file: &str,
    functions: Vec<RouteDescriptor>,
    made: Result<DeclaredPlugin, DeclareError>,
    listed: ProvideUrl,
)
    requires
        functions@.len() == 0,
        call_ensures(
            declare_plugin,
            (name, version, description, scope, signature, frontend_file, functions),
            made,
        ),
        name@.len() > 0,
        call_ensures(DeclaredPlugin::register_routes, (&made->Ok_0,), listed),
    ensures
        listed@.len() == 0,
{
    assert(route_views(listed@).len() == 0);
}

} // verus!
