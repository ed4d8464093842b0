//! The resolution engine's laws, stated over [`spec_resolve`] — the value
//! that [`crate::resolver::resolve`] promises to return — and proved for
//! all inputs.

use vstd::prelude::*;

use crate::casing::lower;
use crate::fetcher::Fetcher;
use crate::fetcher::spec_fetcher_from_name;
use crate::paths::spec_integration_path;
use crate::resolver::ResolutionError;
use crate::resolver::ResolvedModel;
use crate::resolver::VariantKind;
use crate::resolver::spec_base_output_path;
use crate::resolver::spec_resolve;
use crate::resolver::spec_resolve_fetcher;
use crate::resolver::spec_resolve_template;
use crate::template::spec_default_fetcher;
use crate::template::spec_default_output_path;
use crate::template::spec_requires_package_name;
use crate::template::spec_template_from_name;

verus! {

/// Determinism: resolution is a pure function of its five inputs. Since
/// `resolve` promises a result equal to `spec_resolve` of the inputs, any
/// two results obtained for the same inputs are equal — the same resolved
/// request, or the same error kind.
pub proof fn lemma_resolution_deterministic(
    raw_template: Option<Seq<char>>,
    raw_fetcher: Option<Seq<char>>,
    raw_package_name: Option<Seq<char>>,
    ecosystem_integration: bool,
    raw_path: Option<Seq<char>>,
    r1: Result<ResolvedModel, ResolutionError>,
    r2: Result<ResolvedModel, ResolutionError>,
)
    requires
        r1 == spec_resolve(
            raw_template,
            raw_fetcher,
            raw_package_name,
            ecosystem_integration,
            raw_path,
        ),
        r2 == spec_resolve(
            raw_template,
            raw_fetcher,
            raw_package_name,
            ecosystem_integration,
            raw_path,
        ),
    ensures
        r1 == r2,
{
}

/// Case-insensitivity of the template selection: two spellings with the
/// same lowercase image resolve identically — not only to the same
/// template, but to the same whole result, since nothing else of the raw
/// template string is kept.
pub proof fn lemma_template_case_insensitive(
    s1: Seq<char>,
    s2: Seq<char>,
    raw_fetcher: Option<Seq<char>>,
    raw_package_name: Option<Seq<char>>,
    ecosystem_integration: bool,
    raw_path: Option<Seq<char>>,
)
    requires
        lower(s1) == lower(s2),
    ensures
        spec_resolve(Some(s1), raw_fetcher, raw_package_name, ecosystem_integration, raw_path)
            == spec_resolve(
            Some(s2),
            raw_fetcher,
            raw_package_name,
            ecosystem_integration,
            raw_path,
        ),
{
}

/// Case-insensitivity of the fetcher selection, the same way.
pub proof fn lemma_fetcher_case_insensitive(
    raw_template: Option<Seq<char>>,
    s1: Seq<char>,
    s2: Seq<char>,
    raw_package_name: Option<Seq<char>>,
    ecosystem_integration: bool,
    raw_path: Option<Seq<char>>,
)
    requires
        lower(s1) == lower(s2),
    ensures
        spec_resolve(raw_template, Some(s1), raw_package_name, ecosystem_integration, raw_path)
            == spec_resolve(
            raw_template,
            Some(s2),
            raw_package_name,
            ecosystem_integration,
            raw_path,
        ),
{
}

/// Fetcher precedence, explicit half: a valid explicit fetcher name is
/// resolved to its variant, whatever the template's declared default.
pub proof fn lemma_fetcher_explicit_precedence(
    raw_template: Option<Seq<char>>,
    f: Seq<char>,
    raw_package_name: Option<Seq<char>>,
    ecosystem_integration: bool,
    raw_path: Option<Seq<char>>,
    fetcher: Fetcher,
)
    requires
        spec_fetcher_from_name(f) == Some(fetcher),
    ensures
        spec_resolve(
            raw_template,
            Some(f),
            raw_package_name,
            ecosystem_integration,
            raw_path,
        ) matches Ok(m) ==> m.fetcher == fetcher,
{
}

/// Fetcher precedence, default half: with no explicit fetcher, the
/// resolved template's declared default is used, and the baseline fetcher
/// only where the template declares none.
pub proof fn lemma_fetcher_default_precedence(
    raw_template: Option<Seq<char>>,
    raw_package_name: Option<Seq<char>>,
    ecosystem_integration: bool,
    raw_path: Option<Seq<char>>,
)
    ensures
        spec_resolve(
            raw_template,
            None,
            raw_package_name,
            ecosystem_integration,
            raw_path,
        ) matches Ok(m) ==> m.fetcher == (match spec_default_fetcher(m.template) {
            Some(f) => f,
            None => Fetcher::Github,
        }),
{
}

/// Path precedence, explicit half: outside the integration mode, an
/// explicit path is the output path, exactly as supplied.
pub proof fn lemma_path_explicit_precedence(
    raw_template: Option<Seq<char>>,
    raw_fetcher: Option<Seq<char>>,
    raw_package_name: Option<Seq<char>>,
    p: Seq<char>,
)
    ensures
        spec_resolve(raw_template, raw_fetcher, raw_package_name, false, Some(p)) matches Ok(m)
            ==> m.output_path == p,
{
}

/// Path precedence, default half: outside the integration mode with no
/// explicit path, the output path is the resolved template's declared
/// default, and the baseline filename only where the template declares
/// none.
pub proof fn lemma_path_default_precedence(
    raw_template: Option<Seq<char>>,
    raw_fetcher: Option<Seq<char>>,
    raw_package_name: Option<Seq<char>>,
)
    ensures
        spec_resolve(raw_template, raw_fetcher, raw_package_name, false, None) matches Ok(m)
            ==> m.output_path == (match spec_default_output_path(m.template) {
            Some(p) => p,
            None => "default.nix"@,
        }),
{
}

/// Integration-mode path construction: when the integration flag is set
/// and a package name is supplied, the output path is the step-three base
/// path treated as a directory, joined with the package name and the
/// expression filename — never the base path itself.
pub proof fn lemma_integration_path_construction(
    raw_template: Option<Seq<char>>,
    raw_fetcher: Option<Seq<char>>,
    name: Seq<char>,
    raw_path: Option<Seq<char>>,
)
    ensures
        spec_resolve(raw_template, raw_fetcher, Some(name), true, raw_path) matches Ok(m)
            ==> m.output_path == spec_integration_path(
            spec_base_output_path(raw_path, m.template),
            name,
        ),
{
}

/// Missing-name failure: once template and fetcher resolve, the
/// integration mode without a package name fails with exactly
/// `MissingPackageName`.
pub proof fn lemma_integration_requires_package_name(
    raw_template: Option<Seq<char>>,
    raw_fetcher: Option<Seq<char>>,
    raw_path: Option<Seq<char>>,
)
    requires
        (match spec_resolve_template(raw_template) {
            Ok(t) => spec_resolve_fetcher(raw_fetcher, t) is Ok,
            Err(_) => false,
        }),
    ensures
        spec_resolve(raw_template, raw_fetcher, None, true, raw_path) == Err::<
            ResolvedModel,
            ResolutionError,
        >(ResolutionError::MissingPackageName),
{
}

/// Unknown-variant failure, template half: a template name that matches no
/// variant fails with exactly `UnknownVariant(Template)`.
pub proof fn lemma_unknown_template(
    s: Seq<char>,
    raw_fetcher: Option<Seq<char>>,
    raw_package_name: Option<Seq<char>>,
    ecosystem_integration: bool,
    raw_path: Option<Seq<char>>,
)
    requires
        spec_template_from_name(s) is None,
    ensures
        spec_resolve(Some(s), raw_fetcher, raw_package_name, ecosystem_integration, raw_path)
            == Err::<ResolvedModel, ResolutionError>(
            ResolutionError::UnknownVariant(VariantKind::Template),
        ),
{
}

/// Unknown-variant failure, fetcher half: once the template resolves, an
/// explicit fetcher name that matches no variant fails with exactly
/// `UnknownVariant(Fetcher)`.
pub proof fn lemma_unknown_fetcher(
    raw_template: Option<Seq<char>>,
    s: Seq<char>,
    raw_package_name: Option<Seq<char>>,
    ecosystem_integration: bool,
    raw_path: Option<Seq<char>>,
)
    requires
        spec_resolve_template(raw_template) is Ok,
        spec_fetcher_from_name(s) is None,
    ensures
        spec_resolve(raw_template, Some(s), raw_package_name, ecosystem_integration, raw_path)
            == Err::<ResolvedModel, ResolutionError>(
            ResolutionError::UnknownVariant(VariantKind::Fetcher),
        ),
{
}

/// Shell-template exemption, generalized: a resolvable template with no
/// package-identity requirement resolves successfully outside the
/// integration mode even when no package name is supplied.
pub proof fn lemma_no_identity_requirement_accepts_absent_name(
    raw_template: Option<Seq<char>>,
    raw_fetcher: Option<Seq<char>>,
    raw_path: Option<Seq<char>>,
)
    requires
        (match spec_resolve_template(raw_template) {
            Ok(t) => !spec_requires_package_name(t) && spec_resolve_fetcher(raw_fetcher, t) is Ok,
            Err(_) => false,
        }),
    ensures
        spec_resolve(raw_template, raw_fetcher, None, false, raw_path) is Ok,
{
}

} // verus!
