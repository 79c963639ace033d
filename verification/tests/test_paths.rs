// Joining, resolving and expanding configured paths.
use licensegen::config::config::{Config, ConfigError, PathsConfig, VaultConfig};
use licensegen::config::loader::load_and_resolve;
use licensegen::config::resolver::{edition_dir, product_dir, resolve_paths, user_dir};
use licensegen::product::keypairs;
use licensegen::signing::resolver;
use licensegen::util::helpers::{
    expand_tilde, expand_tilde_with, fill_if_empty, fill_if_empty_opt, join_path, resolve_path,
};
use licensegen::vault::loader::resolve_vault_paths;

fn config() -> Config {
    Config {
        vault: VaultConfig { file: "secrets/vault.yml".into(), password_file: "/etc/lg/pw".into() },
        paths: PathsConfig {
            root_dir: "data".into(),
            keypair_dir: "keys".into(),
            products_dir: "/srv/products".into(),
            product_file: "product.yml".into(),
            editions_subdir: "editions".into(),
            edition_file: "edition.yml".into(),
            applications_subdir: "applications".into(),
            application_file: "application.yml".into(),
            license_file: "license.json".into(),
            output_dir: Some("out".into()),
        },
        db: None,
    }
}

#[test]
fn joining_paths() {
    assert_eq!(join_path("/a/b", "c"), "/a/b/c");
    assert_eq!(join_path("/a/b/", "c"), "/a/b/c");
    assert_eq!(join_path("/a", "/etc/x"), "/etc/x");
    assert_eq!(join_path("", "c"), "c");
    assert_eq!(join_path("/h", ""), "/h/");
    for (base, p) in [("/a/b", "c/d"), ("rel", "x"), ("/a/", "b"), ("/a", "/b"), ("", "q"), ("/h", "")] {
        let expected = std::path::Path::new(base).join(p).to_string_lossy().into_owned();
        assert_eq!(join_path(base, p), expected);
    }
}

#[test]
fn resolving_relative_and_absolute_paths() {
    assert_eq!(resolve_path("/root", "sub/dir"), "/root/sub/dir");
    assert_eq!(resolve_path("/root", "/abs/file"), "/abs/file");
    assert_eq!(resolve_path("/root", "x~y"), "/root/x~y");
    let expected = match dirs::home_dir() {
        Some(h) => join_path(&h.to_string_lossy(), "x"),
        None => "/root/~/x".to_string(),
    };
    assert_eq!(resolve_path("/root", "~/x"), expected);
}

#[test]
fn expanding_a_leading_tilde() {
    let home = || Some("/home/u".to_string());
    assert_eq!(expand_tilde_with("~/docs", home()), "/home/u/docs");
    assert_eq!(expand_tilde_with("~", home()), "/home/u/");
    assert_eq!(expand_tilde_with("~/", home()), "/home/u/");
    assert_eq!(expand_tilde_with("~/a//b/", home()), "/home/u/a//b");
    assert_eq!(expand_tilde_with("~/./a/.", home()), "/home/u/a");
    assert_eq!(expand_tilde_with("~x/docs", home()), "~x/docs");
    assert_eq!(expand_tilde_with("/abs/~/x", home()), "/abs/~/x");
    assert_eq!(expand_tilde_with("~/docs", None), "~/docs");
    assert_eq!(expand_tilde("/plain/path"), "/plain/path");
    assert_eq!(expand_tilde("relative"), "relative");
    assert_eq!(std::path::Path::new("/home/u").join("").to_string_lossy(), "/home/u/");
}

#[test]
fn filling_empty_texts() {
    let mut s = String::new();
    fill_if_empty(&mut s, "default");
    assert_eq!(s, "default");
    fill_if_empty(&mut s, "other");
    assert_eq!(s, "default");
    let mut t = String::new();
    fill_if_empty_opt(&mut t, &None);
    assert_eq!(t, "");
    fill_if_empty_opt(&mut t, &Some("x".into()));
    assert_eq!(t, "x");
    fill_if_empty_opt(&mut t, &Some("y".into()));
    assert_eq!(t, "x");
}

#[test]
fn keypair_files_are_lowercased() {
    let (prv, public) = keypairs::resolve_keypair_paths("MyVendor", "/keys");
    assert_eq!(prv, "/keys/myvendor_prv.pem");
    assert_eq!(public, "/keys/myvendor_pub.pem");
    let (prv, public) = resolver::resolve_keypair_paths("ACME", "keys", "/project");
    assert_eq!(prv, "/project/keys/acme_prv.pem");
    assert_eq!(public, "/project/keys/acme_pub.pem");
    let (prv, _) = resolver::resolve_keypair_paths("Ünï", "/k", "/project");
    assert_eq!(prv, "/k/ünï_prv.pem");
}

#[test]
fn resolving_the_configuration() {
    let mut cfg = config();
    assert!(resolve_paths(&mut cfg, "/etc/lg", None).is_ok());
    assert_eq!(cfg.paths.root_dir, "/etc/lg/data");
    assert_eq!(cfg.paths.keypair_dir, "/etc/lg/data/keys");
    assert_eq!(cfg.paths.products_dir, "/srv/products");
    assert_eq!(cfg.vault.file, "/etc/lg/data/secrets/vault.yml");
    assert_eq!(cfg.vault.password_file, "/etc/lg/pw");
    assert_eq!(cfg.paths.product_file, "product.yml");
    assert_eq!(cfg.paths.output_dir, Some("out".to_string()));

    let mut cfg = config();
    assert!(resolve_paths(&mut cfg, "/etc/lg", Some("/srv/root".into())).is_ok());
    assert_eq!(cfg.paths.root_dir, "/srv/root");
    assert_eq!(cfg.paths.keypair_dir, "/srv/root/keys");

    assert_eq!(product_dir(&cfg, "monitor"), "/srv/products/monitor");
    assert_eq!(edition_dir(&cfg, "monitor", "pro"), "/srv/products/monitor/pro");
    assert_eq!(user_dir(&cfg, "monitor", "pro", "alice"), "/srv/products/monitor/pro/alice");
}

#[test]
fn loading_passes_errors_on() {
    match load_and_resolve(Err(ConfigError::ReadError("missing".into())), "/m", None) {
        Err(ConfigError::ReadError(m)) => assert_eq!(m, "missing"),
        _ => panic!("the read error is passed on"),
    }
    match load_and_resolve(Err(ConfigError::ParseError("bad".into())), "/m", None) {
        Err(ConfigError::ParseError(m)) => assert_eq!(m, "bad"),
        _ => panic!("the parse error is passed on"),
    }
    let cfg = match load_and_resolve(Ok(config()), "/m", None) {
        Ok(c) => c,
        Err(_) => panic!("a loaded configuration resolves"),
    };
    assert_eq!(cfg.paths.root_dir, "/m/data");
    assert_eq!(cfg.vault.file, "/m/data/secrets/vault.yml");
}

#[test]
fn vault_paths_prefer_the_environment() {
    let cfg = config();
    let (file, pw) = resolve_vault_paths(&cfg, "/cfg", None, None);
    assert_eq!(file, "/cfg/secrets/vault.yml");
    assert_eq!(pw, "/etc/lg/pw");
    let (file, pw) = resolve_vault_paths(&cfg, "/cfg", Some("other.yml".into()), Some("/run/pw".into()));
    assert_eq!(file, "/cfg/other.yml");
    assert_eq!(pw, "/run/pw");
}
