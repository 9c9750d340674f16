//! Filtering the selected packages, building the explicit spec, and rendering it.
use vstd::prelude::*;
use crate::error::ConvertError;
use crate::hex::{lower_hex, to_lower_hex};
use crate::lockfile::{CondaLockedPackage, LockedPackage};
use crate::package_url::PackageUrl;

verus! {

/// The conda packages of `s`, in order.
pub open spec fn conda_only(s: Seq<LockedPackage>) -> Seq<CondaLockedPackage>
    decreases s.len(),
{
    if s.len() == 0 {
        Seq::empty()
    } else {
        match s.last() {
            LockedPackage::Conda(c) => conda_only(s.drop_last()).push(c),
            LockedPackage::Other(_) => conda_only(s.drop_last()),
        }
    }
}

/// The names of the packages of other ecosystems in `s`, in order.
pub open spec fn other_names(s: Seq<LockedPackage>) -> Seq<Seq<char>>
    decreases s.len(),
{
    if s.len() == 0 {
        Seq::empty()
    } else {
        match s.last() {
            LockedPackage::Conda(_) => other_names(s.drop_last()),
            LockedPackage::Other(o) => other_names(s.drop_last()).push(o.name@),
        }
    }
}

pub open spec fn has_other(s: Seq<LockedPackage>) -> bool {
    exists|k: int| 0 <= k < s.len() && s[k] is Other
}

/// `k` is the first package of another ecosystem in `s`.
pub open spec fn first_other(s: Seq<LockedPackage>, k: int) -> bool {
    0 <= k < s.len() && s[k] is Other && forall|i: int| 0 <= i < k ==> s[i] is Conda
}

pub open spec fn derefs<'a>(s: Seq<&'a CondaLockedPackage>) -> Seq<CondaLockedPackage> {
    s.map_values(|p: &'a CondaLockedPackage| *p)
}

pub open spec fn views(s: Seq<String>) -> Seq<Seq<char>> {
    s.map_values(|x: String| x@)
}

/// Filtering with the override keeps every conda package and drops every
/// other one: the kept and the skipped packages together number the input.
pub proof fn lemma_filter_partitions(s: Seq<LockedPackage>)
    ensures
        conda_only(s).len() + other_names(s).len() == s.len(),
    decreases s.len(),
{
    if s.len() > 0 {
        lemma_filter_partitions(s.drop_last());
    }
}

/// Where no package of another ecosystem is present, the filter keeps every
/// package, in the same order.
pub proof fn lemma_filter_keeps_all_conda(s: Seq<LockedPackage>)
    requires
        !has_other(s),
    ensures
        conda_only(s).len() == s.len(),
        forall|k: int| 0 <= k < s.len() ==> s[k] == LockedPackage::Conda(#[trigger] conda_only(s)[k]),
    decreases s.len(),
{
    if s.len() > 0 {
        let t = s.drop_last();
        assert(!has_other(t)) by {
            assert forall|k: int| 0 <= k < t.len() implies !(t[k] is Other) by {
                assert(s[k] == t[k]);
            }
        }
        lemma_filter_keeps_all_conda(t);
        assert(!(s[s.len() - 1] is Other));
    }
}

/// The conda packages kept by a filter, and the names of those it skipped.
#[derive(Debug)]
pub struct FilteredPackages<'a> {
    pub conda: Vec<&'a CondaLockedPackage>,
    pub skipped: Vec<String>,
}

/// Keeps the conda packages of `packages` in order. A package of another
/// ecosystem fails the whole filter unless `allow_non_conda`, in which case
/// it is skipped and its name reported.
pub fn filter_conda_packages<'a>(packages: &'a Vec<LockedPackage>, allow_non_conda: bool) -> (r:
    Result<FilteredPackages<'a>, ConvertError>)
    ensures
        match r {
            Ok(f) => {
                &&& allow_non_conda || !has_other(packages@)
                &&& derefs(f.conda@) == conda_only(packages@)
                &&& views(f.skipped@) == other_names(packages@)
            },
            Err(ConvertError::UnsupportedPackageKind(n)) => !allow_non_conda && exists|k: int|
                #[trigger] first_other(packages@, k) && n@ == packages@[k]->Other_0.name@,
            Err(_) => false,
        },
        !allow_non_conda && has_other(packages@) ==> (r matches Err(
            ConvertError::UnsupportedPackageKind(_),
        )),
        allow_non_conda || !has_other(packages@) ==> (r matches Ok(f) && derefs(f.conda@)
            == conda_only(packages@)),
{
    let mut conda: Vec<&'a CondaLockedPackage> = Vec::new();
    let mut skipped: Vec<String> = Vec::new();
    let mut i: usize = 0;
    while i < packages.len()
        invariant
            i <= packages@.len(),
            derefs(conda@) == conda_only(packages@.subrange(0, i as int)),
            views(skipped@) == other_names(packages@.subrange(0, i as int)),
            !allow_non_conda ==> forall|k: int| 0 <= k < i ==> packages@[k] is Conda,
        decreases packages@.len() - i,
    {
        let ghost prefix = packages@.subrange(0, i as int);
        let ghost next = packages@.subrange(0, i + 1);
        assert(next.drop_last() =~= prefix);
        match &packages[i] {
            LockedPackage::Conda(c) => {
                let ghost before = conda@;
                conda.push(c);
                assert(derefs(conda@) =~= derefs(before).push(*c));
                assert(views(skipped@) =~= other_names(next));
            },
            LockedPackage::Other(o) => {
                if !allow_non_conda {
                    assert(first_other(packages@, i as int));
                    return Err(ConvertError::UnsupportedPackageKind(o.name.clone()));
                }
                let ghost before = skipped@;
                skipped.push(o.name.clone());
                assert(views(skipped@) =~= views(before).push(o.name@));
                assert(derefs(conda@) =~= conda_only(next));
            },
        }
        i = i + 1;
    }
    assert(packages@.subrange(0, i as int) =~= packages@);
    Ok(FilteredPackages { conda, skipped })
}

/// One line of an explicit list: a URL whose fragment is the package digest.
#[derive(Debug)]
pub struct ExplicitEntry {
    pub url: PackageUrl,
}

/// An explicit list: the platform it is for and its entries in install order.
#[derive(Debug)]
pub struct ExplicitSpec {
    pub platform: Option<String>,
    pub packages: Vec<ExplicitEntry>,
}

pub open spec fn has_digest(p: CondaLockedPackage) -> bool {
    p.md5 is Some
}

/// `k` is the first package of `s` without a digest.
pub open spec fn first_missing_digest(s: Seq<CondaLockedPackage>, k: int) -> bool {
    0 <= k < s.len() && !has_digest(s[k]) && forall|i: int| 0 <= i < k ==> has_digest(s[i])
}

pub open spec fn all_digests(s: Seq<CondaLockedPackage>) -> bool {
    forall|k: int| 0 <= k < s.len() ==> has_digest(#[trigger] s[k])
}

/// `e` is the entry for `p`: the location of its URL, with the lowercase hex
/// of its digest as the only fragment.
pub open spec fn entry_for(p: CondaLockedPackage, e: ExplicitEntry) -> bool {
    &&& p.md5 is Some
    &&& e.url.location@ == p.url.location@
    &&& e.url.fragment matches Some(f) && f@ == lower_hex(p.md5->Some_0@)
}

/// `entries` holds one entry per package of `s`, in the same order.
pub open spec fn entries_for(s: Seq<CondaLockedPackage>, entries: Seq<ExplicitEntry>) -> bool {
    &&& entries.len() == s.len()
    &&& forall|k: int| 0 <= k < s.len() ==> #[trigger] entry_for(s[k], entries[k])
}

/// Builds the explicit spec for `packages` on `platform`. Every package must
/// carry its digest, and the platform must be given.
pub fn build_explicit_spec(platform: Option<String>, packages: &Vec<&CondaLockedPackage>) -> (r:
    Result<ExplicitSpec, ConvertError>)
    ensures
        match r {
            Ok(spec) => {
                &&& all_digests(derefs(packages@))
                &&& platform is Some
                &&& spec.platform == platform
                &&& entries_for(derefs(packages@), spec.packages@)
            },
            Err(ConvertError::MissingDigest(n)) => exists|k: int|
                #[trigger] first_missing_digest(derefs(packages@), k) && n@ == packages@[k].name@,
            Err(ConvertError::NoPlatform) => all_digests(derefs(packages@)) && platform is None,
            Err(_) => false,
        },
        !all_digests(derefs(packages@)) ==> (r matches Err(ConvertError::MissingDigest(_))),
        all_digests(derefs(packages@)) && platform is Some ==> (r matches Ok(spec)
            && entries_for(derefs(packages@), spec.packages@)),
{
    let ghost s = derefs(packages@);
    let mut entries: Vec<ExplicitEntry> = Vec::new();
    let mut i: usize = 0;
    while i < packages.len()
        invariant
            s == derefs(packages@),
            i <= packages@.len(),
            forall|k: int| 0 <= k < i ==> has_digest(#[trigger] s[k]),
            entries_for(s.subrange(0, i as int), entries@),
        decreases packages@.len() - i,
    {
        let p: &CondaLockedPackage = packages[i];
        match &p.md5 {
            Some(digest) => {
                let fragment = to_lower_hex(digest.as_slice());
                let entry = ExplicitEntry { url: p.url.with_fragment(fragment) };
                let ghost before = entries@;
                entries.push(entry);
                assert(entry_for(s[i as int], entries@[i as int]));
                assert forall|k: int| 0 <= k < i + 1 implies #[trigger] entry_for(
                    s.subrange(0, i + 1)[k],
                    entries@[k],
                ) by {
                    if k < i {
                        assert(entry_for(s.subrange(0, i as int)[k], before[k]));
                    }
                }
            },
            None => {
                assert(first_missing_digest(s, i as int));
                return Err(ConvertError::MissingDigest(p.name.clone()));
            },
        }
        i = i + 1;
    }
    assert(s.subrange(0, i as int) =~= s);
    match platform {
        Some(_) => Ok(ExplicitSpec { platform, packages: entries }),
        None => Err(ConvertError::NoPlatform),
    }
}

/// The first line of an explicit list, naming the tool that wrote it.
pub open spec fn header_line() -> Seq<char> {
    "# Generated by pixi :: pixi2ces\n"@
}

/// The line that switches the installer to reading exact package URLs.
pub open spec fn marker_line() -> Seq<char> {
    "@EXPLICIT\n"@
}

/// Each URL on a line of its own, in order.
pub open spec fn url_lines(urls: Seq<Seq<char>>) -> Seq<char>
    decreases urls.len(),
{
    if urls.len() == 0 {
        Seq::empty()
    } else {
        url_lines(urls.drop_last()) + urls.last() + seq!['\n']
    }
}

/// The text of an explicit list for `platform` with the given entry URLs.
pub open spec fn explicit_text(platform: Seq<char>, urls: Seq<Seq<char>>) -> Seq<char> {
    header_line() + "# platform: "@ + platform + seq!['\n'] + marker_line() + url_lines(urls)
}

pub open spec fn entry_urls(entries: Seq<ExplicitEntry>) -> Seq<Seq<char>> {
    entries.map_values(|e: ExplicitEntry| e.url.text())
}

/// The text `spec` renders to; none without a platform.
pub open spec fn rendered(spec: ExplicitSpec) -> Option<Seq<char>> {
    match spec.platform {
        Some(p) => Some(explicit_text(p@, entry_urls(spec.packages@))),
        None => None,
    }
}

/// The URL lines of two lists one after the other are the lines of the first
/// list followed by the lines of the second: rendering keeps the order of entries.
pub proof fn lemma_url_lines_append(a: Seq<Seq<char>>, b: Seq<Seq<char>>)
    ensures
        url_lines(a + b) == url_lines(a) + url_lines(b),
    decreases b.len(),
{
    if b.len() == 0 {
        assert(a + b =~= a);
        assert(url_lines(a) + url_lines(b) =~= url_lines(a));
    } else {
        lemma_url_lines_append(a, b.drop_last());
        assert((a + b).drop_last() =~= a + b.drop_last());
        assert((a + b).last() == b.last());
        assert(url_lines(a + b) =~= url_lines(a) + url_lines(b));
    }
}

/// Rendering is a function of the spec alone: two renderings of one spec
/// give the same text.
pub proof fn lemma_render_deterministic(spec: ExplicitSpec, first: Seq<char>, second: Seq<char>)
    requires
        rendered(spec) == Some(first),
        rendered(spec) == Some(second),
    ensures
        first == second,
{
}

/// Renders `spec` as the text of an explicit list.
pub fn render_explicit_spec(spec: &ExplicitSpec) -> (r: Result<String, ConvertError>)
    ensures
        match r {
            Ok(text) => rendered(*spec) == Some(text@),
            Err(e) => rendered(*spec) is None && e is NoPlatform,
        },
{
    let platform = match &spec.platform {
        Some(p) => p,
        None => return Err(ConvertError::NoPlatform),
    };
    let mut out = String::new();
    out.append("# Generated by pixi :: pixi2ces\n");
    out.append("# platform: ");
    out.append(platform.as_str());
    proof {
        reveal_strlit("\n");
    }
    out.append("\n");
    out.append("@EXPLICIT\n");
    let ghost head = out@;
    let ghost urls = entry_urls(spec.packages@);
    let mut i: usize = 0;
    while i < spec.packages.len()
        invariant
            i <= spec.packages@.len(),
            urls == entry_urls(spec.packages@),
            out@ == head + url_lines(urls.subrange(0, i as int)),
        decreases spec.packages@.len() - i,
    {
        let line = spec.packages[i].url.to_text();
        out.append(line.as_str());
        out.append("\n");
        proof {
            reveal_strlit("\n");
            let next = urls.subrange(0, i + 1);
            assert(next.drop_last() =~= urls.subrange(0, i as int));
            assert(next.last() == spec.packages@[i as int].url.text());
            assert(out@ =~= head + url_lines(next));
        }
        i = i + 1;
    }
    assert(urls.subrange(0, i as int) =~= urls);
    assert(out@ =~= explicit_text(platform@, urls));
    Ok(out)
}

/// The name of the file an explicit list for `env` on `platform` is written to.
pub fn output_file_name(platform: &str, env: &str) -> (r: String)
    ensures
        r@ == "conda-"@ + platform@ + "-"@ + env@ + ".lock"@,
{
    let mut out = String::from_str("conda-");
    out.append(platform);
    out.append("-");
    out.append(env);
    out.append(".lock");
    out
}

} // verus!
