use plugin_lib::declare::{declare_plugin, DeclareError, DeclaredPlugin};
use plugin_lib::types::{HttpMethod, PluginMeta, RouteDescriptor, RouteFactory};
use plugin_lib::Plugin;

fn example(frontend: &str, functions: Vec<RouteDescriptor>) -> DeclaredPlugin {
    declare_plugin(
        "example-plugin",
        "1.0.0",
        "A demo plugin",
        "global",
        "",
        frontend,
        functions,
    )
    .unwrap()
}

fn paths(p: &dyn Plugin) -> Vec<String> {
    p.register_routes().into_iter().map(|d| d.path).collect()
}

#[test]
fn example_plugin_scenario() {
    let p = example("", vec![RouteDescriptor::new("/api/hello", HttpMethod::Get, 0)]);
    assert_eq!(p.name(), "example-plugin");
    assert_eq!(p.version(), "1.0.0");
    assert_eq!(p.description(), "A demo plugin");
    assert_eq!(p.scope(), "global");
    assert_eq!(p.signature(), None);
    assert_eq!(p.frontend_file(), None);
    let routes = p.register_routes();
    assert_eq!(routes.len(), 1);
    assert_eq!(routes[0].path, "/api/hello");
    assert_eq!(routes[0].factory, RouteFactory { method: HttpMethod::Get, handler: 0 });
}

#[test]
fn empty_frontend_is_absent() {
    let p = example("", vec![]);
    assert_eq!(p.frontend_file(), None);
}

#[test]
fn frontend_path_is_kept() {
    let p = example("static/ui.js", vec![]);
    assert_eq!(p.frontend_file(), Some("static/ui.js".to_string()));
}

#[test]
fn signature_is_kept_when_given() {
    let p = declare_plugin("signed", "0.2.0", "", "admin", "abc123", "", vec![]).unwrap();
    assert_eq!(p.signature(), Some("abc123".to_string()));
    assert_eq!(p.description(), "");
    assert_eq!(p.scope(), "admin");
}

#[test]
fn no_bindings_give_no_routes() {
    let p = example("", vec![]);
    assert!(p.register_routes().is_empty());
}

#[test]
fn empty_name_is_refused() {
    let r = declare_plugin("", "1.0.0", "d", "global", "", "", vec![]);
    assert_eq!(r.err(), Some(DeclareError::EmptyName));
}

#[test]
fn routes_are_stable_across_calls() {
    let p = example(
        "",
        vec![
            RouteDescriptor::new("/b", HttpMethod::Post, 1),
            RouteDescriptor::new("/a", HttpMethod::Get, 0),
            RouteDescriptor::new("/c", HttpMethod::Delete, 2),
        ],
    );
    let first = p.register_routes();
    let second = p.register_routes();
    assert_eq!(first.len(), second.len());
    for (x, y) in first.iter().zip(second.iter()) {
        assert_eq!(x.path, y.path);
        assert_eq!(x.factory, y.factory);
    }
    assert_eq!(paths(&p), vec!["/b", "/a", "/c"]);
}

#[test]
fn meta_repeats_plugin() {
    let p = declare_plugin(
        "lister",
        "2.1.0",
        "Lists things",
        "tools",
        "sig",
        "ui/bundle.js",
        vec![
            RouteDescriptor::new("/z", HttpMethod::Get, 0),
            RouteDescriptor::new("/y", HttpMethod::Put, 1),
        ],
    )
    .unwrap();
    let meta = PluginMeta::from_plugin(&p);
    assert_eq!(meta.name, "lister");
    assert_eq!(meta.version, "2.1.0");
    assert_eq!(meta.description, "Lists things");
    assert_eq!(meta.scope, "tools");
    assert_eq!(meta.routes, paths(&p));
    assert_eq!(meta.routes, vec!["/z".to_string(), "/y".to_string()]);
    assert_eq!(meta.signature, Some("sig".to_string()));
    assert_eq!(meta.frontend, Some("ui/bundle.js".to_string()));
}

#[test]
fn boxed_plugin_forwards() {
    let b: Box<dyn Plugin> =
        Box::new(example("app.js", vec![RouteDescriptor::new("/x", HttpMethod::Head, 3)]));
    assert_eq!(Plugin::name(&b), "example-plugin");
    assert_eq!(Plugin::version(&b), "1.0.0");
    assert_eq!(Plugin::description(&b), "A demo plugin");
    assert_eq!(Plugin::scope(&b), "global");
    assert_eq!(Plugin::signature(&b), None);
    assert_eq!(Plugin::frontend_file(&b), Some("app.js".to_string()));
    let routes = Plugin::register_routes(&b);
    assert_eq!(routes.len(), 1);
    assert_eq!(routes[0].path, "/x");
    let meta = PluginMeta::from_plugin(&b);
    assert_eq!(meta.routes, vec!["/x".to_string()]);
}

#[test]
fn two_instances_are_independent() {
    let make = || -> Box<dyn Plugin> {
        Box::new(example("", vec![RouteDescriptor::new("/api/hello", HttpMethod::Get, 0)]))
    };
    let first = make();
    let second = make();
    drop(first);
    assert_eq!(second.name(), "example-plugin");
    assert_eq!(paths(second.as_ref()), vec!["/api/hello"]);
}

#[test]
fn plugins_are_shareable() {
    fn shareable<T: Send + Sync + ?Sized>(_: &T) {}
    let p = example("", vec![]);
    shareable(&p);
    let b: Box<dyn Plugin> = Box::new(p);
    shareable(&b);
}

#[test]
fn descriptor_clone_keeps_fields() {
    let d = RouteDescriptor::new("/k", HttpMethod::Options, 7);
    let c = d.clone();
    assert_eq!(c.path, "/k");
    assert_eq!(c.factory.method, HttpMethod::Options);
    assert_eq!(c.factory.handler, 7);
}

#[test]
fn boxed_plugin_forwards_signature() {
    let p = declare_plugin("signed", "1.0.0", "d", "global", "sig-1", "ui.js", vec![]).unwrap();
    let b: Box<dyn Plugin> = Box::new(p);
    assert_eq!(Plugin::signature(&b), Some("sig-1".to_string()));
    assert_eq!(Plugin::frontend_file(&b), Some("ui.js".to_string()));
    assert_eq!(Plugin::signature(&b), Plugin::signature(&b));
    let meta = PluginMeta::from_plugin(&b);
    assert_eq!(meta.signature, Some("sig-1".to_string()));
    assert_eq!(meta.frontend, Some("ui.js".to_string()));
}

#[test]
fn answers_unchanged_by_register_routes() {
    let p = declare_plugin("q", "3", "d", "s", "sg", "f.js", vec![RouteDescriptor::new("/r", HttpMethod::Get, 0)])
        .unwrap();
    let before = (p.signature(), p.frontend_file(), p.name().to_string());
    let _ = p.register_routes();
    assert_eq!((p.signature(), p.frontend_file(), p.name().to_string()), before);
    assert_eq!(paths(&p), vec!["/r"]);
}
