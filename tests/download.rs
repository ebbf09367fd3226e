use wit_download::{
    complete, from_cache, plan, resolve_endpoint, resolve_version, CacheKey, ClientConfig, DownloadError,
    DownloadRequest, Fetched, OutputTarget, PackageCache, PackageName, Plan, ProjectConfig, RegistryError,
    Version, VersionRequirement,
};

fn version(text: &str) -> Version {
    Version::parse(text).expect("valid version")
}

fn project(entries: &[(&str, &str)], default: Option<&str>) -> ProjectConfig {
    ProjectConfig {
        registries: entries.iter().map(|(a, u)| (a.to_string(), u.to_string())).collect(),
        default_registry: default.map(|d| d.to_string()),
    }
}

fn client(home: Option<&str>) -> ClientConfig {
    ClientConfig { home_url: home.map(|h| h.to_string()) }
}

fn request(version: Option<&str>, update: bool) -> DownloadRequest {
    DownloadRequest {
        registry: None,
        package: PackageName::parse("ns:pkg").unwrap(),
        version: version.map(|v| v.to_string()),
        update,
        output: None,
    }
}

fn fetched(v: &str, content: &[u8]) -> Fetched {
    Fetched { version: version(v), content: content.to_vec() }
}

fn key(p: &Plan, v: &str) -> CacheKey {
    CacheKey { registry: p.endpoint.url.clone(), package: p.package.clone(), version: version(v) }
}

#[test]
fn version_parse_splits_parts() {
    let v = version("1.2.3-rc.1+build.5");
    assert_eq!((v.major, v.minor, v.patch), (1, 2, 3));
    assert_eq!(v.pre, "rc.1");
    assert_eq!(v.build, "build.5");
    assert!(Version::parse("1.2").is_none());
    assert!(Version::parse("not-a-version").is_none());
}

#[test]
fn exact_version_pins_release() {
    let req = resolve_version(Some("1.0.0")).unwrap();
    assert_eq!(req, VersionRequirement::Exact(version("1.0.0")));
    assert!(req.matches(&version("1.0.0")));
    assert!(!req.matches(&version("1.0.1")));
    assert!(!req.matches(&version("1.1.0")));
    assert!(!req.matches(&version("1.0.0-rc.1")));
}

#[test]
fn no_version_accepts_newest() {
    let req = resolve_version(None).unwrap();
    assert_eq!(req, VersionRequirement::Latest);
    assert!(req.matches(&version("1.2.0")));
    assert!(req.matches(&version("9.9.9")));
}

#[test]
fn invalid_version_is_rejected() {
    let err = resolve_version(Some("1.x")).unwrap_err();
    assert_eq!(err, DownloadError::InvalidVersionFormat("1.x".to_string()));
}

#[test]
fn package_name_parse() {
    let p = PackageName::parse("ns:pkg").unwrap();
    assert_eq!(p.namespace, "ns");
    assert_eq!(p.name, "pkg");
    assert_eq!(p.full_name(), "ns:pkg");
    assert_eq!(p.default_file_name(), "pkg.wit");
    assert!(PackageName::parse("nocolon").is_err());
    assert!(PackageName::parse("NS:pkg").is_err());
}

#[test]
fn endpoint_precedence() {
    let proj = project(&[("foo", "https://one.example")], None);
    let cl = client(Some("https://two.example"));
    let foo = resolve_endpoint(Some("foo"), Some(&proj), &cl).unwrap();
    assert_eq!(foo.url, "https://one.example");
    assert_eq!(foo.alias, Some("foo".to_string()));
    let bar = resolve_endpoint(Some("bar"), Some(&proj), &cl).unwrap();
    assert_eq!(bar.url, "https://two.example");
    assert_eq!(bar.alias, None);
    assert_eq!(resolve_endpoint(None, None, &cl).unwrap().url, "https://two.example");
    assert_eq!(
        resolve_endpoint(None, None, &client(None)).unwrap_err(),
        DownloadError::RegistryNotConfigured(None)
    );
}

#[test]
fn endpoint_uses_project_default_alias() {
    let proj = project(&[("other", "https://o.example"), ("default", "https://d.example")], Some("default"));
    let ep = resolve_endpoint(None, Some(&proj), &client(Some("https://home.example"))).unwrap();
    assert_eq!(ep.url, "https://d.example");
}

#[test]
fn endpoint_first_entry_wins() {
    let proj = project(&[("foo", "https://first.example"), ("foo", "https://second.example")], None);
    let ep = resolve_endpoint(Some("foo"), Some(&proj), &client(None)).unwrap();
    assert_eq!(ep.url, "https://first.example");
}

#[test]
fn missing_alias_not_configured() {
    let proj = project(&[("foo", "https://one.example")], None);
    let mut req = request(None, false);
    req.registry = Some("missing-alias".to_string());
    let err = plan(&req, Some(&proj), &client(None)).unwrap_err();
    assert_eq!(err, DownloadError::RegistryNotConfigured(Some("missing-alias".to_string())));
}

#[test]
fn plan_reports_endpoint_error_before_version_error() {
    let mut req = request(Some("bad"), false);
    req.registry = Some("nowhere".to_string());
    let err = plan(&req, None, &client(None)).unwrap_err();
    assert!(matches!(err, DownloadError::RegistryNotConfigured(_)));
    let err = plan(&request(Some("bad"), false), None, &client(Some("https://r.example"))).unwrap_err();
    assert!(matches!(err, DownloadError::InvalidVersionFormat(_)));
}

#[test]
fn plan_output_target() {
    let p = plan(&request(None, false), None, &client(Some("https://r.example"))).unwrap();
    assert_eq!(p.output, OutputTarget::InDirectory("pkg.wit".to_string()));
    let mut req = request(None, false);
    req.output = Some("out/x.wit".to_string());
    let p = plan(&req, None, &client(Some("https://r.example"))).unwrap();
    assert_eq!(p.output, OutputTarget::Path("out/x.wit".to_string()));
}

#[test]
fn latest_download_fills_cache() {
    let p = plan(&request(None, false), None, &client(Some("https://r.example"))).unwrap();
    let mut cache = PackageCache::new();
    assert!(from_cache(&p, &cache).is_none());
    let out = complete(&p, &mut cache, Ok(fetched("1.2.0", b"C")), 7).unwrap();
    assert_eq!(out.output, OutputTarget::InDirectory("pkg.wit".to_string()));
    assert_eq!(out.content, b"C".to_vec());
    assert_eq!(out.version, version("1.2.0"));
    let entry = cache.lookup(&key(&p, "1.2.0")).unwrap();
    assert_eq!(entry.content, b"C".to_vec());
    assert_eq!(entry.fetched_at, 7);
    assert_eq!(cache.entries[0].0.package.full_name(), "ns:pkg");
    assert_eq!(cache.entries[0].0.registry, "https://r.example");
}

#[test]
fn missing_exact_version_fails() {
    let p = plan(&request(Some("1.0.0"), false), None, &client(Some("https://r.example"))).unwrap();
    let mut cache = PackageCache::new();
    assert!(from_cache(&p, &cache).is_none());
    let err = complete(&p, &mut cache, Err(RegistryError::NoMatchingRelease), 1).unwrap_err();
    assert_eq!(err, DownloadError::VersionNotFound);
    assert!(cache.entries.is_empty());
    let err = complete(&p, &mut cache, Ok(fetched("1.2.0", b"C")), 1).unwrap_err();
    assert_eq!(err, DownloadError::VersionNotFound);
    assert!(cache.entries.is_empty());
}

#[test]
fn registry_errors_map() {
    let exact = plan(&request(Some("1.0.0"), false), None, &client(Some("https://r.example"))).unwrap();
    let latest = plan(&request(None, false), None, &client(Some("https://r.example"))).unwrap();
    let mut cache = PackageCache::new();
    assert_eq!(
        complete(&latest, &mut cache, Err(RegistryError::Transport("down".to_string())), 1).unwrap_err(),
        DownloadError::RegistryFetchFailed("down".to_string())
    );
    assert_eq!(
        complete(&exact, &mut cache, Err(RegistryError::PackageNotFound), 1).unwrap_err(),
        DownloadError::PackageNotFound
    );
    assert_eq!(
        complete(&latest, &mut cache, Err(RegistryError::NoMatchingRelease), 1).unwrap_err(),
        DownloadError::PackageNotFound
    );
    assert!(cache.entries.is_empty());
}

#[test]
fn exact_download_twice_is_identical() {
    let p = plan(&request(Some("1.0.0"), false), None, &client(Some("https://r.example"))).unwrap();
    let mut cache = PackageCache::new();
    let first = complete(&p, &mut cache, Ok(fetched("1.0.0", b"wit text")), 1).unwrap();
    let second = from_cache(&p, &cache).expect("served from the cache");
    assert_eq!(first.content, second.content);
    assert_eq!(first.version, second.version);
    assert_eq!(cache.lookup(&key(&p, "1.0.0")).unwrap().content, b"wit text".to_vec());
}

#[test]
fn update_bypasses_cache() {
    let p = plan(&request(Some("1.0.0"), true), None, &client(Some("https://r.example"))).unwrap();
    let mut cache = PackageCache::new();
    cache.store(key(&p, "1.0.0"), b"old".to_vec(), 1);
    assert!(from_cache(&p, &cache).is_none());
    let out = complete(&p, &mut cache, Ok(fetched("1.0.0", b"new")), 2).unwrap();
    assert_eq!(out.content, b"new".to_vec());
    assert_eq!(cache.lookup(&key(&p, "1.0.0")).unwrap().content, b"new".to_vec());
}

#[test]
fn latest_never_served_from_cache() {
    let p = plan(&request(None, false), None, &client(Some("https://r.example"))).unwrap();
    let mut cache = PackageCache::new();
    cache.store(key(&p, "1.2.0"), b"C".to_vec(), 1);
    assert!(from_cache(&p, &cache).is_none());
}

#[test]
fn cache_later_store_supersedes() {
    let p = plan(&request(Some("1.0.0"), false), None, &client(Some("https://r.example"))).unwrap();
    let mut cache = PackageCache::new();
    assert!(cache.lookup(&key(&p, "1.0.0")).is_none());
    cache.store(key(&p, "1.0.0"), b"a".to_vec(), 1);
    cache.store(key(&p, "2.0.0"), b"b".to_vec(), 2);
    cache.store(key(&p, "1.0.0"), b"c".to_vec(), 3);
    assert_eq!(cache.lookup(&key(&p, "1.0.0")).unwrap().content, b"c".to_vec());
    assert_eq!(cache.lookup(&key(&p, "2.0.0")).unwrap().content, b"b".to_vec());
    assert_eq!(from_cache(&p, &cache).unwrap().content, b"c".to_vec());
}
