use next_transforms::ast::{BundleTarget, ImportDecl, ImportSpecifier, ModuleItem, Program};
use next_transforms::config::{parse_bundle_target, ConfigError, NamedImportConfig};
use next_transforms::named_import::named_import_transform;
use next_transforms::server_components::{
    classify_items, server_components_annotate, BoundaryError, Classification,
};

fn s(v: &str) -> String {
    v.to_string()
}

fn export_fn(name: &str, body: &str) -> ModuleItem {
    ModuleItem::ExportFn { name: s(name), body: s(body) }
}

fn import_named(src: &str, name: &str) -> ModuleItem {
    ModuleItem::Import(ImportDecl {
        src: s(src),
        specifiers: vec![ImportSpecifier::Named { imported: s(name), local: s(name) }],
    })
}

fn client_widget() -> Program {
    Program {
        items: vec![
            ModuleItem::Directive(s("use client")),
            import_named("react", "useState"),
            export_fn("Widget", "return <div/>;"),
        ],
    }
}

#[test]
fn disabled_annotator_is_identity() {
    for target in [BundleTarget::Server, BundleTarget::Client, BundleTarget::Edge] {
        for is_server in [true, false] {
            let p = client_widget();
            let out = server_components_annotate(&p, &s("/app/w.js"), is_server, target, false);
            assert_eq!(out.unwrap(), p);
        }
    }
    let unmarked = Program { items: vec![ModuleItem::Stmt(s("f();"))] };
    let out = server_components_annotate(&unmarked, &s("/a.js"), false, BundleTarget::Client, false);
    assert_eq!(out.unwrap(), unmarked);
}

#[test]
fn client_boundary_on_server_becomes_references() {
    let out = server_components_annotate(
        &client_widget(),
        &s("/app/w.js"),
        true,
        BundleTarget::Server,
        true,
    )
    .unwrap();
    assert_eq!(
        out.items,
        vec![ModuleItem::ClientReference {
            file: s("/app/w.js"),
            export: s("Widget"),
            target: BundleTarget::Server,
        }]
    );
}

#[test]
fn client_boundary_references_every_export() {
    let p = Program {
        items: vec![
            ModuleItem::Directive(s("use strict")),
            ModuleItem::Directive(s("use client")),
            export_fn("A", "1"),
            ModuleItem::ExportDefault { body: s("B") },
            ModuleItem::ReExport { src: s("./c"), names: vec![s("C"), s("D")] },
        ],
    };
    let out = server_components_annotate(&p, &s("f.js"), true, BundleTarget::Edge, true).unwrap();
    let exports: Vec<String> = out
        .items
        .iter()
        .map(|i| match i {
            ModuleItem::ClientReference { export, target, .. } => {
                assert_eq!(*target, BundleTarget::Edge);
                export.clone()
            }
            other => panic!("unexpected item {:?}", other),
        })
        .collect();
    assert_eq!(exports, vec![s("A"), s("default"), s("C"), s("D")]);
}

#[test]
fn unmarked_module_on_server_unchanged() {
    let p = Program {
        items: vec![
            import_named("react", "useState"),
            ModuleItem::ExportDefault { body: s("function Page() {}") },
        ],
    };
    let out = server_components_annotate(&p, &s("/app/page.js"), true, BundleTarget::Server, true);
    assert_eq!(out.unwrap(), p);
}

#[test]
fn unmarked_module_in_client_bundle_refused() {
    let p = Program { items: vec![ModuleItem::ExportDefault { body: s("x") }] };
    let out = server_components_annotate(&p, &s("/app/page.js"), false, BundleTarget::Client, true);
    assert_eq!(out.unwrap_err(), BoundaryError::UnmarkedModuleInClientBundle);
}

#[test]
fn client_boundary_in_client_bundle_kept() {
    let p = client_widget();
    let out = server_components_annotate(&p, &s("/app/w.js"), false, BundleTarget::Client, true);
    assert_eq!(out.unwrap(), p);
}

#[test]
fn client_boundary_importing_server_only_refused() {
    let mut p = client_widget();
    p.items.push(ModuleItem::Import(ImportDecl { src: s("server-only"), specifiers: vec![] }));
    let out = server_components_annotate(&p, &s("/app/w.js"), false, BundleTarget::Client, true);
    assert_eq!(out.unwrap_err(), BoundaryError::ClientImportsServerOnly);
}

#[test]
fn server_actions_registered() {
    let p = Program {
        items: vec![
            ModuleItem::Directive(s("use server")),
            import_named("db", "save"),
            export_fn("submit", "await save();"),
            ModuleItem::Stmt(s("const x = 1;")),
        ],
    };
    let out = server_components_annotate(&p, &s("/app/actions.js"), true, BundleTarget::Server, true)
        .unwrap();
    assert_eq!(
        out.items,
        vec![
            ModuleItem::Directive(s("use server")),
            import_named("db", "save"),
            ModuleItem::ServerAction {
                file: s("/app/actions.js"),
                exports: vec![s("submit")],
                body: s("await save();"),
            },
            ModuleItem::Stmt(s("const x = 1;")),
        ]
    );
}

#[test]
fn directive_after_prologue_ignored() {
    let p = Program {
        items: vec![ModuleItem::Stmt(s("f();")), ModuleItem::Directive(s("use client"))],
    };
    assert_eq!(classify_items(&p.items), Classification::ServerModule);
    let q = Program {
        items: vec![ModuleItem::Directive(s("use strict")), ModuleItem::Directive(s("use server"))],
    };
    assert_eq!(classify_items(&q.items), Classification::ServerActionModule);
    assert_eq!(classify_items(&client_widget().items), Classification::ClientBoundary);
    assert_eq!(classify_items(&vec![]), Classification::ServerModule);
}

#[test]
fn bundle_targets_parsed() {
    assert_eq!(parse_bundle_target("server"), Ok(BundleTarget::Server));
    assert_eq!(parse_bundle_target("client"), Ok(BundleTarget::Client));
    assert_eq!(parse_bundle_target("edge"), Ok(BundleTarget::Edge));
    assert_eq!(parse_bundle_target("browser"), Err(ConfigError::InvalidBundleTarget));
}

#[test]
fn rewriter_and_annotator_commute() {
    let config = NamedImportConfig::new(vec![s("ui")]).unwrap();
    let p = Program {
        items: vec![
            ModuleItem::Directive(s("use server")),
            import_named("ui", "Button"),
            export_fn("act", "go()"),
        ],
    };
    let file = s("/app/a.js");
    let a = server_components_annotate(&p, &file, true, BundleTarget::Server, true).unwrap();
    let first = named_import_transform(&config, &a);
    let b = named_import_transform(&config, &p);
    let second = server_components_annotate(&b, &file, true, BundleTarget::Server, true).unwrap();
    assert_eq!(first, second);
    assert_eq!(first.items.len(), 3);
}

#[test]
fn client_boundary_references_exported_declarations() {
    let p = Program {
        items: vec![
            ModuleItem::Directive(s("use client")),
            ModuleItem::ExportDecl {
                names: vec![s("Button"), s("Card")],
                body: s("export const Button = () => null, Card = 1;"),
                is_function: false,
            },
        ],
    };
    let out = server_components_annotate(&p, &s("/app/b.js"), true, BundleTarget::Server, true)
        .unwrap();
    assert_eq!(
        out.items,
        vec![
            ModuleItem::ClientReference {
                file: s("/app/b.js"),
                export: s("Button"),
                target: BundleTarget::Server,
            },
            ModuleItem::ClientReference {
                file: s("/app/b.js"),
                export: s("Card"),
                target: BundleTarget::Server,
            },
        ]
    );
}

#[test]
fn server_actions_register_declarations_and_default() {
    let p = Program {
        items: vec![
            ModuleItem::Directive(s("use server")),
            ModuleItem::ExportDecl {
                names: vec![s("act")],
                body: s("export const act = async () => {};"),
                is_function: true,
            },
            ModuleItem::ExportDecl {
                names: vec![s("LIMIT")],
                body: s("export const LIMIT = 3;"),
                is_function: false,
            },
            export_fn("default", "async function () {}"),
        ],
    };
    let out = server_components_annotate(&p, &s("/a.js"), true, BundleTarget::Server, true).unwrap();
    assert_eq!(
        out.items,
        vec![
            ModuleItem::Directive(s("use server")),
            ModuleItem::ServerAction {
                file: s("/a.js"),
                exports: vec![s("act")],
                body: s("export const act = async () => {};"),
            },
            ModuleItem::ExportDecl {
                names: vec![s("LIMIT")],
                body: s("export const LIMIT = 3;"),
                is_function: false,
            },
            ModuleItem::ServerAction {
                file: s("/a.js"),
                exports: vec![s("default")],
                body: s("async function () {}"),
            },
        ]
    );
}

#[test]
fn non_function_default_export_not_registered() {
    let p = Program {
        items: vec![ModuleItem::Directive(s("use server")), ModuleItem::ExportDefault { body: s("{}") }],
    };
    let out = server_components_annotate(&p, &s("/a.js"), true, BundleTarget::Server, true).unwrap();
    assert_eq!(out, p);
}

#[test]
fn wildcard_export_in_client_boundary_refused_on_server() {
    let p = Program {
        items: vec![
            ModuleItem::Directive(s("use client")),
            ModuleItem::ReExportAll { src: s("./widgets") },
        ],
    };
    let out = server_components_annotate(&p, &s("/app/w.js"), true, BundleTarget::Server, true);
    assert_eq!(out.unwrap_err(), BoundaryError::WildcardExportInClientBoundary);
    let client = server_components_annotate(&p, &s("/app/w.js"), false, BundleTarget::Client, true);
    assert_eq!(client.unwrap(), p);
}

#[test]
fn use_client_wins_over_use_server() {
    let p = Program {
        items: vec![
            ModuleItem::Directive(s("use server")),
            ModuleItem::Directive(s("use client")),
            export_fn("W", "1"),
        ],
    };
    assert_eq!(classify_items(&p.items), Classification::ClientBoundary);
}

#[test]
fn server_compilation_keeps_unmarked_module_for_any_target() {
    let p = Program { items: vec![ModuleItem::ExportDefault { body: s("x") }] };
    for target in [BundleTarget::Server, BundleTarget::Client, BundleTarget::Edge] {
        let out = server_components_annotate(&p, &s("/app/page.js"), true, target, true);
        assert_eq!(out.unwrap(), p);
    }
}
