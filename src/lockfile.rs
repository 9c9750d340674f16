//! The locked package matrix: environment name, then platform, then packages.
use vstd::prelude::*;
use crate::error::ConvertError;
use crate::package_url::PackageUrl;

verus! {

/// A package of the conda ecosystem as locked.
#[derive(Debug, Clone)]
pub struct CondaLockedPackage {
    /// Normalized package name.
    pub name: String,
    /// Where the package archive is downloaded from.
    pub url: PackageUrl,
    /// MD5 digest of the archive, when the lockfile records one.
    pub md5: Option<Vec<u8>>,
}

/// A package of another ecosystem (PyPI), which an explicit list cannot hold.
#[derive(Debug, Clone)]
pub struct OtherLockedPackage {
    pub name: String,
    pub location: String,
}

#[derive(Debug, Clone)]
pub enum LockedPackage {
    Conda(CondaLockedPackage),
    Other(OtherLockedPackage),
}

/// The packages of one environment on one platform, in lockfile order.
#[derive(Debug, Clone)]
pub struct PlatformPackages {
    /// Platform identifier such as `linux-64`.
    pub platform: String,
    pub packages: Vec<LockedPackage>,
}

#[derive(Debug, Clone)]
pub struct LockedEnvironment {
    pub name: String,
    pub platforms: Vec<PlatformPackages>,
}

#[derive(Debug, Clone)]
pub struct LockedDocument {
    pub environments: Vec<LockedEnvironment>,
}

pub open spec fn env_at(envs: Seq<LockedEnvironment>, name: Seq<char>, i: int) -> bool {
    0 <= i < envs.len() && envs[i].name@ == name
}

/// `i` is the first environment named `name`.
pub open spec fn first_env(envs: Seq<LockedEnvironment>, name: Seq<char>, i: int) -> bool {
    env_at(envs, name, i) && forall|k: int| 0 <= k < i ==> envs[k].name@ != name
}

pub open spec fn has_env(envs: Seq<LockedEnvironment>, name: Seq<char>) -> bool {
    exists|i: int| env_at(envs, name, i)
}

pub open spec fn platform_at(ps: Seq<PlatformPackages>, platform: Seq<char>, j: int) -> bool {
    0 <= j < ps.len() && ps[j].platform@ == platform
}

/// `j` is the first entry for `platform`.
pub open spec fn first_platform(ps: Seq<PlatformPackages>, platform: Seq<char>, j: int) -> bool {
    platform_at(ps, platform, j) && forall|k: int| 0 <= k < j ==> ps[k].platform@ != platform
}

pub open spec fn has_platform(ps: Seq<PlatformPackages>, platform: Seq<char>) -> bool {
    exists|j: int| platform_at(ps, platform, j)
}

impl LockedDocument {
    /// Environment names are unique, and so are the platforms of each environment.
    pub open spec fn wf(&self) -> bool {
        let envs = self.environments@;
        &&& forall|a: int, b: int|
            0 <= a < b < envs.len() ==> #[trigger] envs[a].name@ != #[trigger] envs[b].name@
        &&& forall|i: int, a: int, b: int|
            0 <= i < envs.len() && 0 <= a < b < envs[i].platforms@.len()
                ==> #[trigger] envs[i].platforms@[a].platform@
                != #[trigger] envs[i].platforms@[b].platform@
    }

    /// What selecting `(env, platform)` gives: the packages of the first matching
    /// environment and, within it, of the first matching platform.
    pub open spec fn selects(&self, env: Seq<char>, platform: Seq<char>, pkgs: Seq<LockedPackage>) -> bool {
        exists|i: int, j: int|
            first_env(self.environments@, env, i)
            && #[trigger] first_platform(self.environments@[i].platforms@, platform, j)
            && pkgs == self.environments@[i].platforms@[j].packages@
    }

    /// The packages locked for environment `env` on `platform`, in lockfile order.
    pub fn select<'a>(&'a self, env: &str, platform: &str) -> (r: Result<&'a Vec<LockedPackage>, ConvertError>)
        ensures
            match r {
                Ok(pkgs) => self.selects(env@, platform@, pkgs@),
                Err(ConvertError::EnvironmentNotFound(n)) => !has_env(self.environments@, env@) && n@ == env@,
                Err(ConvertError::PlatformNotFound(p)) => p@ == platform@ && exists|i: int|
                    first_env(self.environments@, env@, i)
                    && !has_platform(#[trigger] self.environments@[i].platforms@, platform@),
                Err(_) => false,
            },
            !has_env(self.environments@, env@) ==> (r matches Err(ConvertError::EnvironmentNotFound(_))),
            forall|i: int, j: int|
                self.wf() && env_at(self.environments@, env@, i)
                && #[trigger] platform_at(self.environments@[i].platforms@, platform@, j)
                ==> (r matches Ok(pkgs) && pkgs@ == self.environments@[i].platforms@[j].packages@),
            forall|i: int|
                self.wf() && #[trigger] env_at(self.environments@, env@, i)
                && !has_platform(self.environments@[i].platforms@, platform@)
                ==> (r matches Err(ConvertError::PlatformNotFound(_))),
    {
        let envs = &self.environments;
        let env_name = String::from_str(env);
        let platform_name = String::from_str(platform);
        let mut i: usize = 0;
        while i < envs.len()
            invariant
                i <= envs@.len(),
                envs@ == self.environments@,
                forall|k: int| 0 <= k < i ==> envs@[k].name@ != env@,
                env_name@ == env@,
                platform_name@ == platform@,
            decreases envs@.len() - i,
        {
            if envs[i].name == env_name {
                let ps = &envs[i].platforms;
                let mut j: usize = 0;
                while j < ps.len()
                    invariant
                        i < envs@.len(),
                        ps == envs@[i as int].platforms,
                        envs@ == self.environments@,
                        envs@[i as int].name@ == env@,
                        forall|k: int| 0 <= k < i ==> envs@[k].name@ != env@,
                        env_name@ == env@,
                        platform_name@ == platform@,
                        j <= ps@.len(),
                        forall|k: int| 0 <= k < j ==> ps@[k].platform@ != platform@,
                    decreases ps@.len() - j,
                {
                    if ps[j].platform == platform_name {
                        assert(first_env(envs@, env@, i as int));
                        assert(env_at(envs@, env@, i as int));
                        assert(first_platform(self.environments@[i as int].platforms@, platform@, j as int));
                        return Ok(&ps[j].packages);
                    }
                    j = j + 1;
                }
                assert(first_env(envs@, env@, i as int));
                assert(env_at(envs@, env@, i as int));
                return Err(ConvertError::PlatformNotFound(platform_name));
            }
            i = i + 1;
        }
        Err(ConvertError::EnvironmentNotFound(env_name))
    }
}

} // verus!
