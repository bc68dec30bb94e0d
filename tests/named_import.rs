use next_transforms::ast::{ImportDecl, ImportSpecifier, ModuleItem, Program};
use next_transforms::config::{ConfigError, NamedImportConfig};
use next_transforms::named_import::named_import_transform;

fn s(v: &str) -> String {
    v.to_string()
}

fn named(imported: &str, local: &str) -> ImportSpecifier {
    ImportSpecifier::Named { imported: s(imported), local: s(local) }
}

fn import(src: &str, specifiers: Vec<ImportSpecifier>) -> ModuleItem {
    ModuleItem::Import(ImportDecl { src: s(src), specifiers })
}

fn default_import(src: &str, local: &str) -> ModuleItem {
    import(src, vec![ImportSpecifier::Default { local: s(local) }])
}

fn config(packages: &[&str]) -> NamedImportConfig {
    NamedImportConfig::new(packages.iter().map(|p| s(p)).collect()).unwrap()
}

#[test]
fn named_imports_become_submodule_imports() {
    let program = Program {
        items: vec![import("ui", vec![named("Button", "Button"), named("Card", "Box")])],
    };
    let out = named_import_transform(&config(&["ui"]), &program);
    assert_eq!(
        out,
        Program { items: vec![default_import("ui/Button", "Button"), default_import("ui/Card", "Box")] }
    );
}

#[test]
fn expansion_keeps_binding_order_and_position() {
    let program = Program {
        items: vec![
            ModuleItem::Stmt(s("const a = 1;")),
            import("lib", vec![named("C", "C"), named("A", "x"), named("B", "B")]),
            ModuleItem::Stmt(s("const b = 2;")),
        ],
    };
    let out = named_import_transform(&config(&["lib"]), &program);
    assert_eq!(
        out.items,
        vec![
            ModuleItem::Stmt(s("const a = 1;")),
            default_import("lib/C", "C"),
            default_import("lib/A", "x"),
            default_import("lib/B", "B"),
            ModuleItem::Stmt(s("const b = 2;")),
        ]
    );
}

#[test]
fn mixed_import_is_split() {
    let program = Program {
        items: vec![import(
            "ui",
            vec![ImportSpecifier::Default { local: s("Ui") }, named("Button", "Btn")],
        )],
    };
    let out = named_import_transform(&config(&["ui"]), &program);
    assert_eq!(out.items, vec![default_import("ui", "Ui"), default_import("ui/Button", "Btn")]);
}

#[test]
fn default_and_namespace_imports_unchanged() {
    let program = Program {
        items: vec![
            default_import("ui", "Ui"),
            import("ui", vec![ImportSpecifier::Namespace { local: s("all") }]),
            import("ui", vec![]),
        ],
    };
    let out = named_import_transform(&config(&["ui"]), &program);
    assert_eq!(out, program);
}

#[test]
fn other_packages_unchanged() {
    let program = Program {
        items: vec![
            import("other", vec![named("Button", "Button")]),
            import("ui/Button", vec![named("X", "X")]),
        ],
    };
    let out = named_import_transform(&config(&["ui"]), &program);
    assert_eq!(out, program);
}

#[test]
fn rewriting_twice_changes_nothing() {
    let program = Program {
        items: vec![
            ModuleItem::Directive(s("use client")),
            import("ui", vec![ImportSpecifier::Default { local: s("Ui") }, named("A", "B")]),
            import("icons", vec![named("Star", "Star")]),
        ],
    };
    let c = config(&["ui", "icons"]);
    let once = named_import_transform(&c, &program);
    let twice = named_import_transform(&c, &once);
    assert_eq!(once, twice);
    assert_ne!(once, program);
}

#[test]
fn empty_package_name_refused() {
    let r = NamedImportConfig::new(vec![s("ui"), s(""), s("ui")]);
    assert_eq!(r.unwrap_err(), ConfigError::EmptyPackageName);
}

#[test]
fn duplicate_package_name_refused() {
    let r = NamedImportConfig::new(vec![s("ui"), s("icons"), s("ui")]);
    assert_eq!(r.unwrap_err(), ConfigError::DuplicatePackageName);
}

#[test]
fn valid_package_list_accepted() {
    let c = NamedImportConfig::new(vec![s("ui"), s("icons")]).unwrap();
    assert_eq!(c.packages, vec![s("ui"), s("icons")]);
}
