use nix_template::fetcher::Fetcher;
use nix_template::paths::integration_path;
use nix_template::paths::join;
use nix_template::resolver::resolve;
use nix_template::resolver::GenerationRequest;
use nix_template::resolver::ResolutionError;
use nix_template::resolver::VariantKind;
use nix_template::template::Template;

fn ok(r: Result<GenerationRequest, ResolutionError>) -> GenerationRequest {
    match r {
        Ok(req) => req,
        Err(e) => panic!("expected a resolved request, got {:?}", e),
    }
}

#[test]
fn test_python() {
    let r = ok(resolve(Some("python"), None, Some("requests"), true, None));
    assert_eq!(r.package_name.as_deref(), Some("requests"));
    assert_eq!(r.template, Template::Python);
    assert_eq!(r.fetcher, Fetcher::Pypi);
    assert!(r.ecosystem_integration);
}

#[test]
fn test_mkshell() {
    let r = ok(resolve(Some("mkshell"), None, None, false, None));
    assert_eq!(r.template, Template::Mkshell);
    assert_eq!(r.output_path, "shell.nix");
}

#[test]
fn test_fetcher() {
    let r = ok(resolve(None, Some("gitlab"), None, false, None));
    assert_eq!(r.fetcher, Fetcher::Gitlab);
}

#[test]
fn determinism_same_inputs_same_request() {
    let a = resolve(Some("python"), Some("github"), Some("requests"), true, Some("pkgs"));
    let b = resolve(Some("python"), Some("github"), Some("requests"), true, Some("pkgs"));
    assert_eq!(a, b);
    let a = resolve(Some("nope"), None, None, false, None);
    let b = resolve(Some("nope"), None, None, false, None);
    assert_eq!(a, b);
}

#[test]
fn template_matching_is_case_insensitive() {
    let lower = ok(resolve(Some("python"), None, Some("requests"), false, None));
    let title = ok(resolve(Some("Python"), None, Some("requests"), false, None));
    let upper = ok(resolve(Some("PYTHON"), None, Some("requests"), false, None));
    assert_eq!(lower.template, Template::Python);
    assert_eq!(lower, title);
    assert_eq!(lower, upper);
}

#[test]
fn fetcher_matching_is_case_insensitive() {
    let r = ok(resolve(None, Some("GitLab"), None, false, None));
    assert_eq!(r.fetcher, Fetcher::Gitlab);
}

#[test]
fn no_prefix_matching() {
    assert_eq!(Template::from_name("pyth"), None);
    assert_eq!(Template::from_name("pythons"), None);
    assert_eq!(Fetcher::from_name("git"), None);
    assert_eq!(Template::from_name(""), None);
}

#[test]
fn variant_names_round_trip() {
    for t in [Template::Stdenv, Template::Python, Template::Mkshell] {
        assert_eq!(Template::from_name(t.name()), Some(t));
    }
    for f in [Fetcher::Github, Fetcher::Gitlab, Fetcher::Pypi] {
        assert_eq!(Fetcher::from_name(f.name()), Some(f));
    }
}

#[test]
fn variant_lists() {
    assert_eq!(Template::variants(), vec!["stdenv", "python", "mkshell"]);
    assert_eq!(Fetcher::variants(), vec!["github", "gitlab", "pypi"]);
}

#[test]
fn fetcher_precedence_template_default() {
    let r = ok(resolve(Some("python"), None, Some("requests"), false, None));
    assert_eq!(r.fetcher, Fetcher::Pypi);
}

#[test]
fn fetcher_precedence_explicit_overrides_template_default() {
    let r = ok(resolve(Some("python"), Some("gitlab"), Some("requests"), false, None));
    assert_eq!(r.fetcher, Fetcher::Gitlab);
}

#[test]
fn fetcher_precedence_baseline() {
    let r = ok(resolve(Some("stdenv"), None, None, false, None));
    assert_eq!(r.fetcher, Fetcher::Github);
}

#[test]
fn path_precedence_template_default() {
    let r = ok(resolve(Some("mkshell"), None, None, false, None));
    assert_eq!(r.output_path, "shell.nix");
}

#[test]
fn path_precedence_explicit_overrides_template_default() {
    let r = ok(resolve(Some("mkshell"), None, None, false, Some("custom.nix")));
    assert_eq!(r.output_path, "custom.nix");
}

#[test]
fn path_precedence_baseline() {
    let r = ok(resolve(None, None, None, false, None));
    assert_eq!(r.template, Template::Stdenv);
    assert_eq!(r.fetcher, Fetcher::Github);
    assert_eq!(r.output_path, "default.nix");
}

#[test]
fn integration_mode_joins_package_name() {
    let r = ok(resolve(Some("python"), None, Some("requests"), true, None));
    assert_eq!(r.output_path, "default.nix/requests/default.nix");
}

#[test]
fn integration_mode_joins_under_explicit_directory() {
    let r = ok(resolve(
        Some("python"),
        None,
        Some("requests"),
        true,
        Some("pkgs/development/python-modules"),
    ));
    assert_eq!(r.output_path, "pkgs/development/python-modules/requests/default.nix");
}

#[test]
fn integration_mode_keeps_single_separator() {
    let r = ok(resolve(
        Some("python"),
        None,
        Some("requests"),
        true,
        Some("pkgs/development/python-modules/"),
    ));
    assert_eq!(r.output_path, "pkgs/development/python-modules/requests/default.nix");
}

#[test]
fn integration_mode_without_name_fails() {
    let r = resolve(Some("python"), None, None, true, None);
    assert_eq!(r, Err(ResolutionError::MissingPackageName));
}

#[test]
fn integration_mode_without_name_fails_for_exempt_template() {
    let r = resolve(Some("mkshell"), None, None, true, None);
    assert_eq!(r, Err(ResolutionError::MissingPackageName));
}

#[test]
fn identity_template_without_name_fails() {
    let r = resolve(Some("python"), None, None, false, None);
    assert_eq!(r, Err(ResolutionError::MissingPackageName));
}

#[test]
fn unknown_template_fails() {
    let r = resolve(Some("not-a-real-template"), None, None, false, None);
    assert_eq!(r, Err(ResolutionError::UnknownVariant(VariantKind::Template)));
}

#[test]
fn unknown_fetcher_fails() {
    let r = resolve(None, Some("not-a-real-fetcher"), None, false, None);
    assert_eq!(r, Err(ResolutionError::UnknownVariant(VariantKind::Fetcher)));
}

#[test]
fn unknown_template_outranks_unknown_fetcher() {
    let r = resolve(Some("not-a-real-template"), Some("not-a-real-fetcher"), None, false, None);
    assert_eq!(r, Err(ResolutionError::UnknownVariant(VariantKind::Template)));
}

#[test]
fn unknown_fetcher_outranks_missing_name() {
    let r = resolve(Some("python"), Some("not-a-real-fetcher"), None, true, None);
    assert_eq!(r, Err(ResolutionError::UnknownVariant(VariantKind::Fetcher)));
}

#[test]
fn shell_template_accepts_absent_name() {
    let r = ok(resolve(Some("mkshell"), None, None, false, None));
    assert_eq!(r.package_name, None);
    assert!(!r.ecosystem_integration);
}

#[test]
fn package_name_passes_through_unchanged() {
    let r = ok(resolve(Some("stdenv"), None, Some("MyPkg"), false, None));
    assert_eq!(r.package_name.as_deref(), Some("MyPkg"));
}

#[test]
fn join_inserts_separator_only_when_needed() {
    assert_eq!(join("pkgs", "requests"), "pkgs/requests");
    assert_eq!(join("pkgs/", "requests"), "pkgs/requests");
    assert_eq!(join("", "requests"), "requests");
}

#[test]
fn integration_path_appends_expression_filename() {
    assert_eq!(integration_path("pkgs", "requests"), "pkgs/requests/default.nix");
}
