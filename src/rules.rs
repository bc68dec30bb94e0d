//! The closed set of transforms, the rule that attaches them to source files,
//! and the registration functions that build rules from build options.
use vstd::prelude::*;
use vstd::string::*;
use crate::ast::{copy_strings, view_strings, BundleTarget, ItemModel, Program};
use crate::barrel::{optimize_barrel, optimize_barrel_items, OptimizeBarrelConfig};
use crate::config::{package_list_check, ConfigError, NamedImportConfig};
use crate::named_import::{named_import_transform, rewrite_items};
use crate::laws::{lemma_rewrite_idempotent, lemma_unmarked_module_kept_on_server};
use crate::server_components::{annotate, server_components_annotate, BoundaryError};

verus! {

/// What one transform invocation may know of its file.
#[derive(Debug)]
pub struct TransformContext {
    pub file_name: String,
    /// The names that consumers of this module use, computed by the caller.
    pub consumers: Vec<String>,
}

/// Which transform failed.
#[derive(PartialEq, Eq, Structural, Clone, Copy, Debug)]
pub enum TransformKind {
    NamedImportRewriter,
    BarrelExportOptimizer,
    ServerClientAnnotator,
}

/// A failed transform, with its file and identity.
#[derive(Debug)]
pub struct TransformError {
    pub file: String,
    pub transform: TransformKind,
    pub reason: BoundaryError,
}

/// The server/client boundary annotator of one build.
#[derive(Debug)]
pub struct ServerComponentsTransformer {
    pub app_dir: String,
    pub is_server: bool,
    pub bundle_target: BundleTarget,
}

impl ServerComponentsTransformer {
    pub fn new(app_dir: String, is_server: bool, bundle_target: BundleTarget) -> (r: Self)
        ensures
            r.app_dir@ == app_dir@,
            r.is_server == is_server,
            r.bundle_target == bundle_target,
    {
        ServerComponentsTransformer { app_dir, is_server, bundle_target }
    }

    /// Annotates `program`, compiled as the file `ctx.file_name`.
    pub fn transform(&self, program: &Program, ctx: &TransformContext) -> (r: Result<
        Program,
        TransformError,
    >)
        ensures
            match (r, annotate(ctx.file_name@, self.is_server, self.bundle_target, true, program@)) {
                (Ok(p), Ok(items)) => p@ == items,
                (Err(e), Err(f)) => e.reason == f && e.file@ == ctx.file_name@ && e.transform
                    == TransformKind::ServerClientAnnotator,
                _ => false,
            },
            self.is_server && (program@.len() == 0 || !(program@[0] is Directive)) ==> r is Ok && r->Ok_0@ == program@,
    {
        proof {
            if self.is_server && (program@.len() == 0 || !(program@[0] is Directive)) {
                lemma_unmarked_module_kept_on_server(ctx.file_name@, self.bundle_target, program@);
            }
        }
        match server_components_annotate(
            program,
            &ctx.file_name,
            self.is_server,
            self.bundle_target,
            true,
        ) {
            Ok(p) => Ok(p),
            Err(reason) => Err(
                TransformError {
                    file: ctx.file_name.clone(),
                    transform: TransformKind::ServerClientAnnotator,
                    reason,
                },
            ),
        }
    }
}

/// The named-import rewriter of one build, followed by the barrel optimizer
/// where that is switched on.
#[derive(Debug)]
pub struct NextNamedImport {
    pub packages: NamedImportConfig,
    pub optimize_barrel: Option<OptimizeBarrelConfig>,
}

/// What the named-import transform makes of a module.
pub open spec fn next_named_import_result(
    t: NextNamedImport,
    consumers: Seq<Seq<char>>,
    items: Seq<ItemModel>,
) -> Seq<ItemModel> {
    let rewritten = rewrite_items(t.packages.packages_view(), items);
    match t.optimize_barrel {
        None => rewritten,
        Some(c) => optimize_barrel_items(consumers, c.wildcard, rewritten),
    }
}

impl NextNamedImport {
    /// Expands the named imports of the configured packages and then, if it
    /// is switched on, trims the barrel re-exports to `ctx.consumers`.
    pub fn transform(&self, program: &Program, ctx: &TransformContext) -> (r: Program)
        ensures
            r@ == next_named_import_result(*self, view_strings(ctx.consumers@), program@),
            self.optimize_barrel is None ==> rewrite_items(self.packages.packages_view(), r@)
                == r@,
    {
        let rewritten = named_import_transform(&self.packages, program);
        proof {
            lemma_rewrite_idempotent(self.packages.packages_view(), program@);
        }
        match &self.optimize_barrel {
            None => rewritten,
            Some(c) => optimize_barrel(c, &ctx.consumers, &rewritten),
        }
    }
}

/// One transform with its configuration.
#[derive(Debug)]
pub enum Transform {
    NamedImport(NextNamedImport),
    OptimizeBarrel(OptimizeBarrelConfig),
    ServerComponents(ServerComponentsTransformer),
}

/// What a transform makes of a module, or the violation that stops it.
pub open spec fn transform_result(
    t: Transform,
    file: Seq<char>,
    consumers: Seq<Seq<char>>,
    items: Seq<ItemModel>,
) -> Result<Seq<ItemModel>, (TransformKind, BoundaryError)> {
    match t {
        Transform::NamedImport(n) => Ok(next_named_import_result(n, consumers, items)),
        Transform::OptimizeBarrel(c) => Ok(optimize_barrel_items(consumers, c.wildcard, items)),
        Transform::ServerComponents(s) => match annotate(
            file,
            s.is_server,
            s.bundle_target,
            true,
            items,
        ) {
            Ok(out) => Ok(out),
            Err(e) => Err((TransformKind::ServerClientAnnotator, e)),
        },
    }
}

/// The transforms run in order, each on the output of the one before; the
/// first failure stops the run.
pub open spec fn run_transforms(
    ts: Seq<Transform>,
    file: Seq<char>,
    consumers: Seq<Seq<char>>,
    items: Seq<ItemModel>,
) -> Result<Seq<ItemModel>, (TransformKind, BoundaryError)>
    decreases ts.len(),
{
    if ts.len() == 0 {
        Ok(items)
    } else {
        match transform_result(ts[0], file, consumers, items) {
            Ok(next) => run_transforms(ts.drop_first(), file, consumers, next),
            Err(e) => Err(e),
        }
    }
}

impl Transform {
    pub fn kind(&self) -> (r: TransformKind)
        ensures
            r == (match self {
                Transform::NamedImport(_) => TransformKind::NamedImportRewriter,
                Transform::OptimizeBarrel(_) => TransformKind::BarrelExportOptimizer,
                Transform::ServerComponents(_) => TransformKind::ServerClientAnnotator,
            }),
    {
        match self {
            Transform::NamedImport(_) => TransformKind::NamedImportRewriter,
            Transform::OptimizeBarrel(_) => TransformKind::BarrelExportOptimizer,
            Transform::ServerComponents(_) => TransformKind::ServerClientAnnotator,
        }
    }

    /// Runs this transform on `program`.
    pub fn apply(&self, program: &Program, ctx: &TransformContext) -> (r: Result<
        Program,
        TransformError,
    >)
        ensures
            match (r, transform_result(*self, ctx.file_name@, view_strings(ctx.consumers@), program@)) {
                (Ok(p), Ok(items)) => p@ == items,
                (Err(e), Err((k, f))) => e.transform == k && e.reason == f && e.file@
                    == ctx.file_name@,
                _ => false,
            },
    {
        match self {
            Transform::NamedImport(n) => Ok(n.transform(program, ctx)),
            Transform::OptimizeBarrel(c) => Ok(optimize_barrel(c, &ctx.consumers, program)),
            Transform::ServerComponents(s) => s.transform(program, ctx),
        }
    }
}

/// The file extensions of JavaScript and TypeScript sources.
pub open spec fn is_js_extension(ext: Seq<char>) -> bool {
    ext == "js"@ || ext == "jsx"@ || ext == "mjs"@ || ext == "cjs"@ || ext == "ts"@ || ext
        == "tsx"@ || ext == "mts"@ || ext == "cts"@
}

/// Which files a rule applies to and the transforms it attaches, in order.
#[derive(Debug)]
pub struct ModuleRule {
    pub transforms: Vec<Transform>,
}

impl ModuleRule {
    /// A JavaScript or TypeScript source that is not addressed by URL.
    pub fn matches(&self, extension: &str, is_url: bool) -> (r: bool)
        ensures
            r == (!is_url && is_js_extension(extension@)),
    {
        if is_url {
            return false;
        }
        let e = String::from_str(extension);
        e == String::from_str("js") || e == String::from_str("jsx") || e == String::from_str("mjs")
            || e == String::from_str("cjs") || e == String::from_str("ts") || e
            == String::from_str("tsx") || e == String::from_str("mts") || e == String::from_str(
            "cts",
        )
    }

    /// Runs the rule's transforms in order on `program`.
    pub fn apply(&self, program: &Program, ctx: &TransformContext) -> (r: Result<
        Program,
        TransformError,
    >)
        ensures
            match (r, run_transforms(self.transforms@, ctx.file_name@, view_strings(ctx.consumers@), program@)) {
                (Ok(p), Ok(items)) => p@ == items,
                (Err(e), Err((k, f))) => e.transform == k && e.reason == f && e.file@
                    == ctx.file_name@,
                _ => false,
            },
    {
        let ghost ts = self.transforms@;
        let ghost file = ctx.file_name@;
        let ghost consumers = view_strings(ctx.consumers@);
        let mut current = program.copy();
        let mut i: usize = 0;
        assert(ts.subrange(0, ts.len() as int) =~= ts);
        while i < self.transforms.len()
            invariant
                i <= self.transforms.len(),
                ts == self.transforms@,
                file == ctx.file_name@,
                consumers == view_strings(ctx.consumers@),
                run_transforms(ts, file, consumers, program@) == run_transforms(
                    ts.subrange(i as int, ts.len() as int),
                    file,
                    consumers,
                    current@,
                ),
            decreases self.transforms.len() - i,
        {
            let ghost rest = ts.subrange(i as int, ts.len() as int);
            assert(rest.drop_first() =~= ts.subrange(i + 1, ts.len() as int));
            match self.transforms[i].apply(&current, ctx) {
                Ok(next) => {
                    current = next;
                },
                Err(e) => {
                    return Err(e);
                },
            }
            i = i + 1;
        }
        assert(ts.subrange(i as int, ts.len() as int).len() == 0);
        Ok(current)
    }
}

/// The rule that expands the named imports of `auto_named_import_config` in
/// every JavaScript or TypeScript source; the package list is refused where a
/// name is empty or repeated.
pub fn get_next_named_import_transform_rule(auto_named_import_config: &Vec<String>) -> (r: Result<
    ModuleRule,
    ConfigError,
>)
    ensures
        match package_list_check(view_strings(auto_named_import_config@)) {
            Ok(()) => r is Ok && r->Ok_0.transforms@.len() == 1 && match r->Ok_0.transforms@[0] {
                Transform::NamedImport(n) => n.packages.packages_view() == view_strings(
                    auto_named_import_config@,
                ) && n.optimize_barrel is None,
                _ => false,
            },
            Err(e) => r == Err::<ModuleRule, ConfigError>(e),
        },
{
    let config = match NamedImportConfig::new(copy_strings(auto_named_import_config)) {
        Ok(c) => c,
        Err(e) => {
            return Err(e);
        },
    };
    let mut transforms: Vec<Transform> = Vec::new();
    transforms.push(Transform::NamedImport(NextNamedImport { packages: config, optimize_barrel: None }));
    Ok(ModuleRule { transforms })
}

/// The annotator for app-directory builds; other builds get none.
pub fn get_react_server_components_transform_plugin(
    app_dir: String,
    is_app_dir: bool,
    is_server: bool,
    bundle_target: BundleTarget,
) -> (r: Option<ServerComponentsTransformer>)
    ensures
        !is_app_dir ==> r is None,
        is_app_dir ==> r is Some && r->Some_0.app_dir@ == app_dir@ && r->Some_0.is_server
            == is_server && r->Some_0.bundle_target == bundle_target,
{
    if !is_app_dir {
        return None;
    }
    Some(ServerComponentsTransformer::new(app_dir, is_server, bundle_target))
}

} // verus!
