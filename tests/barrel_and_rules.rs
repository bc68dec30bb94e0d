use next_transforms::ast::{BundleTarget, ImportDecl, ImportSpecifier, ModuleItem, Program};
use next_transforms::barrel::{optimize_barrel, OptimizeBarrelConfig};
use next_transforms::config::{ConfigError, NamedImportConfig};
use next_transforms::rules::{
    get_next_named_import_transform_rule, get_react_server_components_transform_plugin,
    ModuleRule, NextNamedImport, ServerComponentsTransformer, Transform, TransformContext, TransformKind,
};
use next_transforms::server_components::BoundaryError;

fn s(v: &str) -> String {
    v.to_string()
}

fn names(v: &[&str]) -> Vec<String> {
    v.iter().map(|n| s(n)).collect()
}

fn reexport(src: &str, n: &[&str]) -> ModuleItem {
    ModuleItem::ReExport { src: s(src), names: names(n) }
}

#[test]
fn barrel_keeps_consumed_reexports() {
    let p = Program { items: vec![reexport("./parts", &["A", "B", "C"])] };
    let out = optimize_barrel(&OptimizeBarrelConfig { wildcard: false }, &names(&["A"]), &p);
    assert_eq!(out.items, vec![reexport("./parts", &["A"])]);
}

#[test]
fn barrel_drops_unconsumed_reexport_entries() {
    let p = Program {
        items: vec![reexport("./a", &["A"]), reexport("./b", &["B"]), reexport("./c", &["C"])],
    };
    let out = optimize_barrel(&OptimizeBarrelConfig { wildcard: false }, &names(&["A"]), &p);
    assert_eq!(out.items, vec![reexport("./a", &["A"])]);
}

#[test]
fn barrel_expands_wildcard() {
    let p = Program { items: vec![ModuleItem::ReExportAll { src: s("./all") }] };
    let out = optimize_barrel(&OptimizeBarrelConfig { wildcard: true }, &names(&["A"]), &p);
    assert_eq!(out.items, vec![reexport("./all", &["A"])]);
}

#[test]
fn barrel_keeps_wildcard_without_flag() {
    let p = Program {
        items: vec![ModuleItem::ReExportAll { src: s("./all") }, ModuleItem::Stmt(s("x();"))],
    };
    let out = optimize_barrel(&OptimizeBarrelConfig { wildcard: false }, &names(&["A"]), &p);
    assert_eq!(out, p);
}

#[test]
fn barrel_empty_consumers_identity() {
    let p = Program {
        items: vec![reexport("./a", &["A", "B"]), ModuleItem::ReExportAll { src: s("./all") }],
    };
    let out = optimize_barrel(&OptimizeBarrelConfig { wildcard: true }, &vec![], &p);
    assert_eq!(out, p);
}

#[test]
fn rule_matches_js_sources_only() {
    let rule = get_next_named_import_transform_rule(&names(&["ui"])).unwrap();
    assert!(rule.matches("js", false));
    assert!(rule.matches("tsx", false));
    assert!(rule.matches("mjs", false));
    assert!(!rule.matches("js", true));
    assert!(!rule.matches("css", false));
    assert!(!rule.matches("", false));
}

#[test]
fn named_import_rule_rewrites() {
    let rule = get_next_named_import_transform_rule(&names(&["ui"])).unwrap();
    assert_eq!(rule.transforms.len(), 1);
    let p = Program {
        items: vec![ModuleItem::Import(ImportDecl {
            src: s("ui"),
            specifiers: vec![ImportSpecifier::Named { imported: s("Card"), local: s("Box") }],
        })],
    };
    let ctx = TransformContext { file_name: s("/a.js"), consumers: vec![] };
    let out = rule.apply(&p, &ctx).unwrap();
    assert_eq!(
        out.items,
        vec![ModuleItem::Import(ImportDecl {
            src: s("ui/Card"),
            specifiers: vec![ImportSpecifier::Default { local: s("Box") }],
        })]
    );
}

#[test]
fn named_import_rule_refuses_bad_config() {
    let r = get_next_named_import_transform_rule(&names(&["ui", "ui"]));
    assert!(matches!(r, Err(ConfigError::DuplicatePackageName)));
    let r = get_next_named_import_transform_rule(&names(&[""]));
    assert!(matches!(r, Err(ConfigError::EmptyPackageName)));
}

#[test]
fn plugin_only_for_app_dir() {
    assert!(get_react_server_components_transform_plugin(s("/app"), false, true, BundleTarget::Server)
        .is_none());
    let t = get_react_server_components_transform_plugin(s("/app"), true, true, BundleTarget::Edge)
        .unwrap();
    assert_eq!(t.app_dir, s("/app"));
    assert!(t.is_server);
    assert_eq!(t.bundle_target, BundleTarget::Edge);
}

#[test]
fn rule_runs_transforms_in_order_and_reports_failure() {
    let rule = ModuleRule {
        transforms: vec![
            Transform::OptimizeBarrel(OptimizeBarrelConfig { wildcard: true }),
            Transform::ServerComponents(ServerComponentsTransformer::new(
                s("/app"),
                true,
                BundleTarget::Server,
            )),
        ],
    };
    let ctx = TransformContext { file_name: s("/app/index.js"), consumers: names(&["A"]) };
    let p = Program {
        items: vec![ModuleItem::Directive(s("use client")), ModuleItem::ReExportAll { src: s("./x") }],
    };
    let out = rule.apply(&p, &ctx).unwrap();
    assert_eq!(
        out.items,
        vec![ModuleItem::ClientReference {
            file: s("/app/index.js"),
            export: s("A"),
            target: BundleTarget::Server,
        }]
    );

    let client = ModuleRule {
        transforms: vec![Transform::ServerComponents(ServerComponentsTransformer::new(
            s("/app"),
            false,
            BundleTarget::Client,
        ))],
    };
    let err = client.apply(&Program { items: vec![] }, &ctx).unwrap_err();
    assert_eq!(err.file, s("/app/index.js"));
    assert_eq!(err.transform, TransformKind::ServerClientAnnotator);
    assert_eq!(err.reason, BoundaryError::UnmarkedModuleInClientBundle);
}

#[test]
fn plugin_carries_every_combination() {
    let t = get_react_server_components_transform_plugin(s("/app"), true, true, BundleTarget::Client)
        .unwrap();
    assert!(t.is_server);
    assert_eq!(t.bundle_target, BundleTarget::Client);
}

#[test]
fn barrel_leaves_several_wildcards_alone() {
    let p = Program {
        items: vec![ModuleItem::ReExportAll { src: s("./a") }, ModuleItem::ReExportAll { src: s("./b") }],
    };
    let out = optimize_barrel(&OptimizeBarrelConfig { wildcard: true }, &names(&["A"]), &p);
    assert_eq!(out, p);
}

#[test]
fn barrel_wildcard_leaves_out_names_exported_otherwise() {
    let p = Program {
        items: vec![reexport("./a", &["A", "C"]), ModuleItem::ReExportAll { src: s("./all") }],
    };
    let out = optimize_barrel(&OptimizeBarrelConfig { wildcard: true }, &names(&["A", "B"]), &p);
    assert_eq!(out.items, vec![reexport("./a", &["A"]), reexport("./all", &["B"])]);
}

#[test]
fn barrel_keeps_empty_reexport_list() {
    let p = Program { items: vec![reexport("./lib", &[]), reexport("./b", &["B"])] };
    let out = optimize_barrel(&OptimizeBarrelConfig { wildcard: false }, &names(&["A"]), &p);
    assert_eq!(out.items, vec![reexport("./lib", &[])]);
}

#[test]
fn barrel_wildcard_names_each_consumer_once() {
    let p = Program { items: vec![ModuleItem::ReExportAll { src: s("./all") }] };
    let out = optimize_barrel(&OptimizeBarrelConfig { wildcard: true }, &names(&["A", "B", "A"]), &p);
    assert_eq!(out.items, vec![reexport("./all", &["A", "B"])]);
}

#[test]
fn named_import_transform_with_barrel_switched_on() {
    let t = NextNamedImport {
        packages: NamedImportConfig::new(names(&["ui"])).unwrap(),
        optimize_barrel: Some(OptimizeBarrelConfig { wildcard: false }),
    };
    let ctx = TransformContext { file_name: s("/i.js"), consumers: names(&["A"]) };
    let p = Program {
        items: vec![
            ModuleItem::Import(ImportDecl {
                src: s("ui"),
                specifiers: vec![ImportSpecifier::Named { imported: s("X"), local: s("X") }],
            }),
            reexport("./p", &["A", "B"]),
        ],
    };
    let out = t.transform(&p, &ctx);
    assert_eq!(
        out.items,
        vec![
            ModuleItem::Import(ImportDecl {
                src: s("ui/X"),
                specifiers: vec![ImportSpecifier::Default { local: s("X") }],
            }),
            reexport("./p", &["A"]),
        ]
    );
}
