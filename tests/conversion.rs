use pixi2ces::error::ConvertError;
use pixi2ces::explicit::{
    build_explicit_spec, filter_conda_packages, output_file_name, render_explicit_spec,
    ExplicitEntry, ExplicitSpec,
};
use pixi2ces::hex::to_lower_hex;
use pixi2ces::lockfile::{
    CondaLockedPackage, LockedDocument, LockedEnvironment, LockedPackage, OtherLockedPackage,
    PlatformPackages,
};
use pixi2ces::package_url::PackageUrl;
use pixi2ces::pipeline::convert;

fn digest(hex: &str) -> Vec<u8> {
    (0..hex.len() / 2).map(|i| u8::from_str_radix(&hex[2 * i..2 * i + 2], 16).unwrap()).collect()
}

fn conda(name: &str, url: &str, md5: Option<&str>) -> CondaLockedPackage {
    CondaLockedPackage {
        name: name.to_string(),
        url: PackageUrl::parse(url),
        md5: md5.map(digest),
    }
}

fn pypi(name: &str) -> LockedPackage {
    LockedPackage::Other(OtherLockedPackage {
        name: name.to_string(),
        location: format!("https://pypi/{}.whl", name),
    })
}

fn pkg_a() -> LockedPackage {
    LockedPackage::Conda(conda(
        "a",
        "https://repo/a-1.0-0.conda",
        Some("d41d8cd98f00b204e9800998ecf8427e"),
    ))
}

fn pkg_b() -> LockedPackage {
    LockedPackage::Conda(conda(
        "b",
        "https://repo/b-2.0-0.conda",
        Some("e4d909c290d0fb1ca068ffaddf22cbd0"),
    ))
}

fn document(packages: Vec<LockedPackage>) -> LockedDocument {
    LockedDocument {
        environments: vec![
            LockedEnvironment {
                name: "test".to_string(),
                platforms: vec![PlatformPackages { platform: "linux-64".to_string(), packages: vec![] }],
            },
            LockedEnvironment {
                name: "default".to_string(),
                platforms: vec![
                    PlatformPackages { platform: "osx-arm64".to_string(), packages: vec![pkg_b()] },
                    PlatformPackages { platform: "linux-64".to_string(), packages },
                ],
            },
        ],
    }
}

const HEADER: &str = "# Generated by pixi :: pixi2ces\n# platform: linux-64\n@EXPLICIT\n";

#[test]
fn two_conda_packages_render_in_order() {
    let doc = document(vec![pkg_a(), pkg_b()]);
    let c = convert(&doc, "default", "linux-64", false).unwrap();
    let expected = format!(
        "{}{}\n{}\n",
        HEADER,
        "https://repo/a-1.0-0.conda#d41d8cd98f00b204e9800998ecf8427e",
        "https://repo/b-2.0-0.conda#e4d909c290d0fb1ca068ffaddf22cbd0"
    );
    assert_eq!(c.text, expected);
    assert!(c.skipped.is_empty());
}

#[test]
fn pypi_package_without_override_fails() {
    let doc = document(vec![pkg_a(), pypi("requests")]);
    let r = convert(&doc, "default", "linux-64", false);
    assert_eq!(r.unwrap_err(), ConvertError::UnsupportedPackageKind("requests".to_string()));
}

#[test]
fn pypi_package_with_override_is_skipped() {
    let doc = document(vec![pkg_a(), pypi("requests")]);
    let c = convert(&doc, "default", "linux-64", true).unwrap();
    assert_eq!(
        c.text,
        format!("{}https://repo/a-1.0-0.conda#d41d8cd98f00b204e9800998ecf8427e\n", HEADER)
    );
    assert_eq!(c.skipped, vec!["requests".to_string()]);
}

#[test]
fn select_returns_stored_list_in_order() {
    let doc = document(vec![pkg_b(), pkg_a()]);
    let pkgs = doc.select("default", "linux-64").unwrap();
    assert_eq!(pkgs.len(), 2);
    match (&pkgs[0], &pkgs[1]) {
        (LockedPackage::Conda(x), LockedPackage::Conda(y)) => {
            assert_eq!(x.name, "b");
            assert_eq!(y.name, "a");
        }
        _ => panic!("expected two conda packages"),
    }
    assert_eq!(doc.select("default", "osx-arm64").unwrap().len(), 1);
    assert_eq!(doc.select("test", "linux-64").unwrap().len(), 0);
}

#[test]
fn select_absent_environment_fails() {
    let doc = document(vec![pkg_a()]);
    let r = doc.select("prod", "linux-64");
    assert_eq!(r.unwrap_err(), ConvertError::EnvironmentNotFound("prod".to_string()));
    let empty = LockedDocument { environments: vec![] };
    assert!(matches!(empty.select("default", "linux-64"), Err(ConvertError::EnvironmentNotFound(_))));
}

#[test]
fn select_absent_platform_fails() {
    let doc = document(vec![pkg_a()]);
    let r = doc.select("default", "win-64");
    assert_eq!(r.unwrap_err(), ConvertError::PlatformNotFound("win-64".to_string()));
    let r = convert(&doc, "test", "osx-arm64", true);
    assert_eq!(r.unwrap_err(), ConvertError::PlatformNotFound("osx-arm64".to_string()));
}

#[test]
fn filter_fails_on_first_other_package() {
    let pkgs = vec![pkg_a(), pypi("first"), pkg_b(), pypi("second")];
    let r = filter_conda_packages(&pkgs, false);
    assert_eq!(r.unwrap_err(), ConvertError::UnsupportedPackageKind("first".to_string()));
}

#[test]
fn filter_with_override_keeps_conda_order() {
    let pkgs = vec![pypi("x"), pkg_b(), pypi("y"), pkg_a()];
    let f = filter_conda_packages(&pkgs, true).unwrap();
    let names: Vec<&str> = f.conda.iter().map(|p| p.name.as_str()).collect();
    assert_eq!(names, vec!["b", "a"]);
    assert_eq!(f.skipped, vec!["x".to_string(), "y".to_string()]);
}

#[test]
fn filter_of_conda_only_keeps_everything() {
    let pkgs = vec![pkg_a(), pkg_b()];
    let f = filter_conda_packages(&pkgs, false).unwrap();
    assert_eq!(f.conda.len(), 2);
    assert!(f.skipped.is_empty());
    let empty: Vec<LockedPackage> = vec![];
    assert!(filter_conda_packages(&empty, false).unwrap().conda.is_empty());
}

#[test]
fn build_fails_on_missing_digest() {
    let a = conda("a", "https://repo/a-1.0-0.conda", Some("00ff"));
    let n = conda("nodigest", "https://repo/n-1.0-0.conda", None);
    let r = build_explicit_spec(Some("linux-64".to_string()), &vec![&a, &n]);
    assert_eq!(r.unwrap_err(), ConvertError::MissingDigest("nodigest".to_string()));
    let doc = document(vec![pkg_a(), LockedPackage::Conda(n.clone())]);
    let r = convert(&doc, "default", "linux-64", false);
    assert_eq!(r.unwrap_err(), ConvertError::MissingDigest("nodigest".to_string()));
}

#[test]
fn build_without_platform_fails() {
    let a = conda("a", "https://repo/a-1.0-0.conda", Some("00ff"));
    let r = build_explicit_spec(None, &vec![&a]);
    assert_eq!(r.unwrap_err(), ConvertError::NoPlatform);
}

#[test]
fn build_replaces_existing_fragment_with_digest() {
    let a = conda("a", "https://repo/a-1.0-0.conda#sha256:abc", Some("0A1bFf"));
    let b = conda("b", "https://repo/b.conda?x=1", Some(""));
    let spec = build_explicit_spec(Some("win-64".to_string()), &vec![&a, &b]).unwrap();
    assert_eq!(spec.platform.as_deref(), Some("win-64"));
    assert_eq!(spec.packages.len(), 2);
    assert_eq!(spec.packages[0].url.to_text(), "https://repo/a-1.0-0.conda#0a1bff");
    assert_eq!(spec.packages[1].url.to_text(), "https://repo/b.conda?x=1#");
}

#[test]
fn hex_is_lowercase_two_digits_per_byte() {
    assert_eq!(to_lower_hex(&[0x00, 0x0f, 0xa0, 0xff]), "000fa0ff");
    assert_eq!(to_lower_hex(&[]), "");
    assert_eq!(to_lower_hex(&digest("D41D8CD98F00B204E9800998ECF8427E")), "d41d8cd98f00b204e9800998ecf8427e");
}

#[test]
fn parse_splits_at_first_hash() {
    let u = PackageUrl::parse("https://h/p#one#two");
    assert_eq!(u.location, "https://h/p");
    assert_eq!(u.fragment.as_deref(), Some("one#two"));
    assert_eq!(u.to_text(), "https://h/p#one#two");
    let v = PackageUrl::parse("https://h/p");
    assert_eq!(v.location, "https://h/p");
    assert!(v.fragment.is_none());
    let w = v.with_fragment("ab".to_string());
    assert_eq!(w.to_text(), "https://h/p#ab");
}

#[test]
fn render_is_identical_twice() {
    let spec = ExplicitSpec {
        platform: Some("osx-arm64".to_string()),
        packages: vec![
            ExplicitEntry { url: PackageUrl::parse("https://r/z.conda#01") },
            ExplicitEntry { url: PackageUrl::parse("https://r/a.conda#02") },
        ],
    };
    let first = render_explicit_spec(&spec).unwrap();
    let second = render_explicit_spec(&spec).unwrap();
    assert_eq!(first, second);
    assert_eq!(
        first,
        "# Generated by pixi :: pixi2ces\n# platform: osx-arm64\n@EXPLICIT\nhttps://r/z.conda#01\nhttps://r/a.conda#02\n"
    );
}

#[test]
fn render_empty_and_without_platform() {
    let spec = ExplicitSpec { platform: Some("linux-64".to_string()), packages: vec![] };
    assert_eq!(render_explicit_spec(&spec).unwrap(), HEADER);
    let spec = ExplicitSpec { platform: None, packages: vec![] };
    assert_eq!(render_explicit_spec(&spec).unwrap_err(), ConvertError::NoPlatform);
}

#[test]
fn output_file_name_pattern() {
    assert_eq!(output_file_name("linux-64", "default"), "conda-linux-64-default.lock");
}
