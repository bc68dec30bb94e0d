//! Build configuration, checked once before any module is transformed.
use vstd::prelude::*;
use vstd::string::*;
use crate::ast::{view_strings, BundleTarget};
use crate::named_import::contains_string;

verus! {

/// Why a build configuration was refused.
#[derive(PartialEq, Eq, Structural, Clone, Copy, Debug)]
pub enum ConfigError {
    EmptyPackageName,
    DuplicatePackageName,
    InvalidBundleTarget,
}

/// The packages whose named imports are expanded.
#[derive(Debug)]
pub struct NamedImportConfig {
    pub packages: Vec<String>,
}

/// No name is empty and no two are equal.
pub open spec fn unique_nonempty(names: Seq<Seq<char>>) -> bool {
    &&& forall|i: int| 0 <= i < names.len() ==> #[trigger] names[i].len() > 0
    &&& forall|i: int, j: int| 0 <= i < j < names.len() ==> names[i] != names[j]
}

/// What a package list is refused for, if anything: an empty name before a
/// repeated one.
pub open spec fn package_list_check(names: Seq<Seq<char>>) -> Result<(), ConfigError> {
    if exists|i: int| 0 <= i < names.len() && (#[trigger] names[i]).len() == 0 {
        Err(ConfigError::EmptyPackageName)
    } else if !unique_nonempty(names) {
        Err(ConfigError::DuplicatePackageName)
    } else {
        Ok(())
    }
}

impl NamedImportConfig {
    pub open spec fn packages_view(&self) -> Seq<Seq<char>> {
        view_strings(self.packages@)
    }

    pub open spec fn wf(&self) -> bool {
        unique_nonempty(self.packages_view())
    }

    /// A configuration over `packages`, refused where a name is empty or
    /// repeated.
    pub fn new(packages: Vec<String>) -> (r: Result<NamedImportConfig, ConfigError>)
        ensures
            match package_list_check(view_strings(packages@)) {
                Ok(()) => r is Ok && r->Ok_0.packages_view() == view_strings(packages@)
                    && r->Ok_0.wf(),
                Err(e) => r == Err::<NamedImportConfig, ConfigError>(e),
            },
    {
        let ghost names = view_strings(packages@);
        let mut seen: Vec<String> = Vec::new();
        let mut i: usize = 0;
        while i < packages.len()
            invariant
                i <= packages.len(),
                names == view_strings(packages@),
                view_strings(seen@) == names.take(i as int),
                unique_nonempty(names.take(i as int)),
                forall|m: int| 0 <= m < i ==> (#[trigger] names[m]).len() > 0,
            decreases packages.len() - i,
        {
            if packages[i].as_str().is_empty() {
                assert(packages@[i as int]@.len() == 0);
                assert(names[i as int].len() == 0);
                return Err(ConfigError::EmptyPackageName);
            }
            if contains_string(&seen, &packages[i]) {
                let ghost k = choose|k: int| 0 <= k < i && names.take(i as int)[k] == names[i as int];
                assert(names[k] == names[i as int]);
                let mut j: usize = i + 1;
                while j < packages.len()
                    invariant
                        i < j <= packages.len(),
                        names == view_strings(packages@),
                        forall|m: int| 0 <= m < j ==> (#[trigger] names[m]).len() > 0,
                    decreases packages.len() - j,
                {
                    if packages[j].as_str().is_empty() {
                        assert(packages@[j as int]@.len() == 0);
                        assert(names[j as int].len() == 0);
                        return Err(ConfigError::EmptyPackageName);
                    }
                    j = j + 1;
                }
                return Err(ConfigError::DuplicatePackageName);
            }
            seen.push(packages[i].clone());
            i = i + 1;
            assert(view_strings(seen@) =~= names.take(i as int));
        }
        assert(names.take(i as int) == names);
        Ok(NamedImportConfig { packages })
    }
}

/// The bundle target named by `s`: `server`, `client` or `edge`.
pub fn parse_bundle_target(s: &str) -> (r: Result<BundleTarget, ConfigError>)
    ensures
        r == (if s@ == "server"@ {
            Ok(BundleTarget::Server)
        } else if s@ == "client"@ {
            Ok(BundleTarget::Client)
        } else if s@ == "edge"@ {
            Ok(BundleTarget::Edge)
        } else {
            Err(ConfigError::InvalidBundleTarget)
        }),
{
    let t = String::from_str(s);
    if t == String::from_str("server") {
        Ok(BundleTarget::Server)
    } else if t == String::from_str("client") {
        Ok(BundleTarget::Client)
    } else if t == String::from_str("edge") {
        Ok(BundleTarget::Edge)
    } else {
        Err(ConfigError::InvalidBundleTarget)
    }
}

} // verus!
