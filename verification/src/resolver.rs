//! The resolution engine: turns raw user input into a fully determined
//! generation request, applying conditional defaults in a fixed precedence
//! order.

use vstd::prelude::*;
use vstd::string::StringExecFns;

use crate::fetcher::Fetcher;
use crate::fetcher::spec_fetcher_from_name;
use crate::paths::integration_path;
use crate::paths::spec_integration_path;
use crate::template::Template;
use crate::template::spec_default_fetcher;
use crate::template::spec_default_output_path;
use crate::template::spec_requires_package_name;
use crate::template::spec_template_from_name;

verus! {

/// Which closed enumeration a rejected name failed to match.
#[derive(Clone, Copy, Debug, PartialEq, Eq, Structural)]
pub enum VariantKind {
    Template,
    Fetcher,
}

/// Why a resolution failed. All three shapes are terminal: they stem from
/// invalid input, never from transient conditions.
#[derive(Clone, Copy, Debug, PartialEq, Eq, Structural)]
pub enum ResolutionError {
    /// A user-supplied template or fetcher name matched no enumerated
    /// variant, even case-insensitively.
    UnknownVariant(VariantKind),
    /// The selected template or the integration mode structurally required
    /// a package name that was not supplied.
    MissingPackageName,
}

/// The mathematical model of a resolved request: what a
/// [`GenerationRequest`] holds, with strings abstracted to character
/// sequences.
#[verifier::ext_equal]
pub struct ResolvedModel {
    pub template: Template,
    pub fetcher: Fetcher,
    pub package_name: Option<Seq<char>>,
    pub ecosystem_integration: bool,
    pub output_path: Seq<char>,
}

/// The fully resolved, immutable set of generation parameters handed to the
/// renderer. Constructed once per invocation and never mutated.
#[derive(Clone, Debug, PartialEq, Eq)]
pub struct GenerationRequest {
    pub template: Template,
    pub fetcher: Fetcher,
    pub package_name: Option<String>,
    pub ecosystem_integration: bool,
    pub output_path: String,
}

impl View for GenerationRequest {
    type V = ResolvedModel;

    open spec fn view(&self) -> ResolvedModel {
        ResolvedModel {
            template: self.template,
            fetcher: self.fetcher,
            package_name: self.package_name.deep_view(),
            ecosystem_integration: self.ecosystem_integration,
            output_path: self.output_path@,
        }
    }
}

/// Step one of resolution: an absent selection falls back to the baseline
/// generic skeleton; a present one must match a variant case-insensitively.
pub open spec fn spec_resolve_template(raw: Option<Seq<char>>) -> Result<
    Template,
    ResolutionError,
> {
    match raw {
        None => Ok(Template::Stdenv),
        Some(s) => match spec_template_from_name(s) {
            Some(t) => Ok(t),
            None => Err(ResolutionError::UnknownVariant(VariantKind::Template)),
        },
    }
}

/// The fetcher used when the user supplies none: the template's declared
/// default, or the global baseline when the template declares none.
pub open spec fn spec_fallback_fetcher(t: Template) -> Fetcher {
    match spec_default_fetcher(t) {
        Some(f) => f,
        None => Fetcher::Github,
    }
}

/// Step two of resolution: an explicit fetcher name outranks the template's
/// declared default, which outranks the global baseline.
pub open spec fn spec_resolve_fetcher(raw: Option<Seq<char>>, t: Template) -> Result<
    Fetcher,
    ResolutionError,
> {
    match raw {
        Some(s) => match spec_fetcher_from_name(s) {
            Some(f) => Ok(f),
            None => Err(ResolutionError::UnknownVariant(VariantKind::Fetcher)),
        },
        None => Ok(spec_fallback_fetcher(t)),
    }
}

/// Step three of resolution, before the integration transform: an explicit
/// path outranks the template's declared default, which outranks the global
/// baseline filename.
pub open spec fn spec_base_output_path(raw: Option<Seq<char>>, t: Template) -> Seq<char> {
    match raw {
        Some(p) => p,
        None => match spec_default_output_path(t) {
            Some(p) => p,
            None => "default.nix"@,
        },
    }
}

/// The whole resolution, as a pure function of the five inputs. The
/// executable [`resolve`] returns exactly this value; every precedence and
/// failure rule is pinned here.
pub open spec fn spec_resolve(
    raw_template: Option<Seq<char>>,
    raw_fetcher: Option<Seq<char>>,
    raw_package_name: Option<Seq<char>>,
    ecosystem_integration: bool,
    raw_path: Option<Seq<char>>,
) -> Result<ResolvedModel, ResolutionError> {
    match spec_resolve_template(raw_template) {
        Err(e) => Err(e),
        Ok(template) => match spec_resolve_fetcher(raw_fetcher, template) {
            Err(e) => Err(e),
            Ok(fetcher) => {
                let base = spec_base_output_path(raw_path, template);
                if ecosystem_integration {
                    match raw_package_name {
                        None => Err(ResolutionError::MissingPackageName),
                        Some(name) => Ok(
                            ResolvedModel {
                                template,
                                fetcher,
                                package_name: Some(name),
                                ecosystem_integration: true,
                                output_path: spec_integration_path(base, name),
                            },
                        ),
                    }
                } else {
                    if spec_requires_package_name(template) && raw_package_name is None {
                        Err(ResolutionError::MissingPackageName)
                    } else {
                        Ok(
                            ResolvedModel {
                                template,
                                fetcher,
                                package_name: raw_package_name,
                                ecosystem_integration: false,
                                output_path: base,
                            },
                        )
                    }
                }
            },
        },
    }
}

/// Resolves raw user input into a [`GenerationRequest`].
///
/// The result is exactly [`spec_resolve`] of the inputs' views: template
/// first (baseline `stdenv` when absent, `UnknownVariant` when unmatched),
/// then fetcher (explicit over template default over baseline `github`,
/// `UnknownVariant` when an explicit name is unmatched), then the base path
/// (explicit over template default over baseline `default.nix`), then the
/// integration transform (the base path becomes a directory, joined with
/// the package name and the expression filename; `MissingPackageName` when
/// no name was supplied), then the template's own package-name requirement.
pub fn resolve(
    raw_template: Option<&str>,
    raw_fetcher: Option<&str>,
    raw_package_name: Option<&str>,
    ecosystem_integration: bool,
    raw_path: Option<&str>,
) -> (r: Result<GenerationRequest, ResolutionError>)
    ensures
        ({
            let model = spec_resolve(
                raw_template.deep_view(),
                raw_fetcher.deep_view(),
                raw_package_name.deep_view(),
                ecosystem_integration,
                raw_path.deep_view(),
            );
            match r {
                Ok(req) => model == Ok::<ResolvedModel, ResolutionError>(req@),
                Err(e) => model == Err::<ResolvedModel, ResolutionError>(e),
            }
        }),
{
    let template: Template = match raw_template {
        None => Template::Stdenv,
        Some(s) => match Template::from_name(s) {
            Some(t) => t,
            None => {
                return Err(ResolutionError::UnknownVariant(VariantKind::Template));
            },
        },
    };
    let fetcher: Fetcher = match raw_fetcher {
        Some(s) => match Fetcher::from_name(s) {
            Some(f) => f,
            None => {
                return Err(ResolutionError::UnknownVariant(VariantKind::Fetcher));
            },
        },
        None => match template.default_fetcher() {
            Some(f) => f,
            None => Fetcher::Github,
        },
    };
    let base: String = match raw_path {
        Some(p) => p.to_owned(),
        None => match template.default_output_path() {
            Some(p) => p.to_owned(),
            None => String::from_str("default.nix"),
        },
    };
    if ecosystem_integration {
        match raw_package_name {
            None => Err(ResolutionError::MissingPackageName),
            Some(name) => {
                let output_path = integration_path(base.as_str(), name);
                let req = GenerationRequest {
                    template,
                    fetcher,
                    package_name: Some(name.to_owned()),
                    ecosystem_integration: true,
                    output_path,
                };
                proof {
                    assert(spec_resolve(
                        raw_template.deep_view(),
                        raw_fetcher.deep_view(),
                        raw_package_name.deep_view(),
                        true,
                        raw_path.deep_view(),
                    ) matches Ok(m) && req@ =~= m);
                }
                Ok(req)
            },
        }
    } else {
        let requires_name = template.requires_package_name();
        match raw_package_name {
            None => {
                if requires_name {
                    Err(ResolutionError::MissingPackageName)
                } else {
                    let req = GenerationRequest {
                        template,
                        fetcher,
                        package_name: None,
                        ecosystem_integration: false,
                        output_path: base,
                    };
                    proof {
                        assert(spec_resolve(
                            raw_template.deep_view(),
                            raw_fetcher.deep_view(),
                            raw_package_name.deep_view(),
                            false,
                            raw_path.deep_view(),
                        ) matches Ok(m) && req@ =~= m);
                    }
                    Ok(req)
                }
            },
            Some(name) => {
                let req = GenerationRequest {
                    template,
                    fetcher,
                    package_name: Some(name.to_owned()),
                    ecosystem_integration: false,
                    output_path: base,
                };
                proof {
                    assert(spec_resolve(
                        raw_template.deep_view(),
                        raw_fetcher.deep_view(),
                        raw_package_name.deep_view(),
                        false,
                        raw_path.deep_view(),
                    ) matches Ok(m) && req@ =~= m);
                }
                Ok(req)
            },
        }
    }
}

} // verus!
