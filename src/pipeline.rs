//! The whole conversion of one (environment, platform) pair of a lockfile.
use vstd::prelude::*;
use crate::error::ConvertError;
use crate::explicit::{
    all_digests, build_explicit_spec, conda_only, entries_for, entry_urls, explicit_text,
    filter_conda_packages, first_missing_digest, first_other, has_other, other_names,
    render_explicit_spec, views, ExplicitEntry,
};
use crate::hex::lower_hex;
use crate::lockfile::{CondaLockedPackage, LockedDocument, LockedPackage};

verus! {

/// The explicit-list URL of a package: its location with its digest in hex as fragment.
pub open spec fn explicit_url(p: CondaLockedPackage) -> Seq<char> {
    p.url.location@ + seq!['#'] + lower_hex(p.md5->Some_0@)
}

/// The result of a conversion: the text of the explicit list and the names of
/// the packages of other ecosystems that were left out.
#[derive(Debug)]
pub struct Conversion {
    pub text: String,
    pub skipped: Vec<String>,
}

proof fn lemma_entry_urls(s: Seq<CondaLockedPackage>, entries: Seq<ExplicitEntry>)
    requires
        entries_for(s, entries),
    ensures
        entry_urls(entries) == s.map_values(|p: CondaLockedPackage| explicit_url(p)),
{
    assert forall|k: int| 0 <= k < s.len() implies entry_urls(entries)[k] == explicit_url(s[k]) by {
        assert(crate::explicit::entry_for(s[k], entries[k]));
    }
    assert(entry_urls(entries) =~= s.map_values(|p: CondaLockedPackage| explicit_url(p)));
}

/// Converts the packages that `doc` locks for `env` on `platform` into the
/// text of an explicit list. Packages of other ecosystems fail the conversion
/// unless `allow_non_conda`; then they are left out and their names returned.
pub fn convert(doc: &LockedDocument, env: &str, platform: &str, allow_non_conda: bool) -> (r:
    Result<Conversion, ConvertError>)
    ensures
        match r {
            Ok(c) => exists|pkgs: Seq<LockedPackage>|
                #[trigger] doc.selects(env@, platform@, pkgs) && {
                    &&& allow_non_conda || !has_other(pkgs)
                    &&& all_digests(conda_only(pkgs))
                    &&& c.text@ == explicit_text(
                        platform@,
                        conda_only(pkgs).map_values(|p: CondaLockedPackage| explicit_url(p)),
                    )
                    &&& views(c.skipped@) == other_names(pkgs)
                },
            Err(ConvertError::EnvironmentNotFound(n)) => !crate::lockfile::has_env(
                doc.environments@,
                env@,
            ) && n@ == env@,
            Err(ConvertError::PlatformNotFound(p)) => p@ == platform@ && exists|i: int|
                crate::lockfile::first_env(doc.environments@, env@, i)
                    && !crate::lockfile::has_platform(
                    #[trigger] doc.environments@[i].platforms@,
                    platform@,
                ),
            Err(ConvertError::UnsupportedPackageKind(n)) => !allow_non_conda && exists|
                pkgs: Seq<LockedPackage>,
                k: int,
            |
                #[trigger] doc.selects(env@, platform@, pkgs) && #[trigger] first_other(pkgs, k)
                    && n@ == pkgs[k]->Other_0.name@,
            Err(ConvertError::MissingDigest(n)) => exists|pkgs: Seq<LockedPackage>, k: int|
                #[trigger] doc.selects(env@, platform@, pkgs) && (allow_non_conda || !has_other(
                    pkgs,
                )) && #[trigger] first_missing_digest(conda_only(pkgs), k) && n@ == conda_only(
                    pkgs,
                )[k].name@,
            Err(ConvertError::NoPlatform) => false,
        },
        forall|pkgs: Seq<LockedPackage>|
            #[trigger] doc.selects(env@, platform@, pkgs) && (allow_non_conda || !has_other(pkgs))
                && all_digests(conda_only(pkgs)) ==> (r is Ok),
{
    let pkgs = doc.select(env, platform)?;
    let filtered = filter_conda_packages(pkgs, allow_non_conda)?;
    let spec = build_explicit_spec(Some(String::from_str(platform)), &filtered.conda)?;
    let text = match render_explicit_spec(&spec) {
        Ok(t) => t,
        Err(e) => return Err(e),
    };
    proof {
        lemma_entry_urls(conda_only(pkgs@), spec.packages@);
    }
    Ok(Conversion { text, skipped: filtered.skipped })
}

} // verus!
