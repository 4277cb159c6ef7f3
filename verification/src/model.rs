use vstd::prelude::*;

verus! {

// ---------------------------------------------------------------------------
// Field-level enumerations of the desired-state model.
// ---------------------------------------------------------------------------

/// Ordinal access level for protected-branch rules.
#[derive(Clone, Copy, Debug, PartialEq, Eq, Structural)]
pub enum ProtectedAccessLevelRef {
    Developer,
    Maintainer,
    Admin,
    NoAccess,
}

/// Who can see the project.
#[derive(Clone, Copy, Debug, PartialEq, Eq, Structural)]
pub enum Visibility {
    Public,
    Internal,
    Private,
}

/// Access level of a project feature.
#[derive(Clone, Copy, Debug, PartialEq, Eq, Structural)]
pub enum FeatureAccess {
    Disabled,
    Private,
    Enabled,
}

/// Access level of a project feature that may also be public.
#[derive(Clone, Copy, Debug, PartialEq, Eq, Structural)]
pub enum FeatureAccessPublic {
    Disabled,
    Private,
    Enabled,
    Public,
}

/// How merge requests are merged.
#[derive(Clone, Copy, Debug, PartialEq, Eq, Structural)]
pub enum MergeMethod {
    Merge,
    RebaseMerge,
    FastForward,
}

/// Whether commits are squashed on merge.
#[derive(Clone, Copy, Debug, PartialEq, Eq, Structural)]
pub enum SquashOption {
    Never,
    Always,
    DefaultOn,
    DefaultOff,
}

// ---------------------------------------------------------------------------
// Verified string equality, used by the enum-literal parsers.
// ---------------------------------------------------------------------------

/// Character-by-character string comparison; true exactly when the two views
/// are the same sequence of characters.
pub fn str_eq(a: &str, b: &str) -> (r: bool)
    ensures
        r == (a@ == b@),
{
    let alen = a.unicode_len();
    let blen = b.unicode_len();
    if alen != blen {
        return false;
    }
    let mut i: usize = 0;
    while i < alen
        invariant
            alen == a@.len(),
            blen == b@.len(),
            alen == blen,
            i <= alen,
            forall|j: int| 0 <= j < i ==> a@[j] == b@[j],
        decreases alen - i,
    {
        if a.get_char(i) != b.get_char(i) {
            return false;
        }
        i += 1;
    }
    proof {
        assert(a@ =~= b@);
    }
    true
}

// ---------------------------------------------------------------------------
// Spec-level parsers for the enum literals accepted in a configuration.
// ---------------------------------------------------------------------------

pub open spec fn spec_protected_of(s: Seq<char>) -> Option<ProtectedAccessLevelRef> {
    if s == "Developer"@ {
        Some(ProtectedAccessLevelRef::Developer)
    } else if s == "Maintainer"@ {
        Some(ProtectedAccessLevelRef::Maintainer)
    } else if s == "Admin"@ {
        Some(ProtectedAccessLevelRef::Admin)
    } else if s == "NoAccess"@ {
        Some(ProtectedAccessLevelRef::NoAccess)
    } else {
        None
    }
}

pub open spec fn spec_visibility_of(s: Seq<char>) -> Option<Visibility> {
    if s == "Public"@ {
        Some(Visibility::Public)
    } else if s == "Internal"@ {
        Some(Visibility::Internal)
    } else if s == "Private"@ {
        Some(Visibility::Private)
    } else {
        None
    }
}

pub open spec fn spec_feature_of(s: Seq<char>) -> Option<FeatureAccess> {
    if s == "Disabled"@ {
        Some(FeatureAccess::Disabled)
    } else if s == "Private"@ {
        Some(FeatureAccess::Private)
    } else if s == "Enabled"@ {
        Some(FeatureAccess::Enabled)
    } else {
        None
    }
}

pub open spec fn spec_feature_public_of(s: Seq<char>) -> Option<FeatureAccessPublic> {
    if s == "Disabled"@ {
        Some(FeatureAccessPublic::Disabled)
    } else if s == "Private"@ {
        Some(FeatureAccessPublic::Private)
    } else if s == "Enabled"@ {
        Some(FeatureAccessPublic::Enabled)
    } else if s == "Public"@ {
        Some(FeatureAccessPublic::Public)
    } else {
        None
    }
}

pub open spec fn spec_merge_method_of(s: Seq<char>) -> Option<MergeMethod> {
    if s == "Merge"@ {
        Some(MergeMethod::Merge)
    } else if s == "RebaseMerge"@ {
        Some(MergeMethod::RebaseMerge)
    } else if s == "FastForward"@ {
        Some(MergeMethod::FastForward)
    } else {
        None
    }
}

pub open spec fn spec_squash_of(s: Seq<char>) -> Option<SquashOption> {
    if s == "Never"@ {
        Some(SquashOption::Never)
    } else if s == "Always"@ {
        Some(SquashOption::Always)
    } else if s == "DefaultOn"@ {
        Some(SquashOption::DefaultOn)
    } else if s == "DefaultOff"@ {
        Some(SquashOption::DefaultOff)
    } else {
        None
    }
}

// ---------------------------------------------------------------------------
// Executable parsers, each proved against its spec-level counterpart.
// ---------------------------------------------------------------------------

pub fn parse_protected(s: &str) -> (r: Option<ProtectedAccessLevelRef>)
    ensures
        r == spec_protected_of(s@),
{
    if str_eq(s, "Developer") {
        Some(ProtectedAccessLevelRef::Developer)
    } else if str_eq(s, "Maintainer") {
        Some(ProtectedAccessLevelRef::Maintainer)
    } else if str_eq(s, "Admin") {
        Some(ProtectedAccessLevelRef::Admin)
    } else if str_eq(s, "NoAccess") {
        Some(ProtectedAccessLevelRef::NoAccess)
    } else {
        None
    }
}

pub fn parse_visibility(s: &str) -> (r: Option<Visibility>)
    ensures
        r == spec_visibility_of(s@),
{
    if str_eq(s, "Public") {
        Some(Visibility::Public)
    } else if str_eq(s, "Internal") {
        Some(Visibility::Internal)
    } else if str_eq(s, "Private") {
        Some(Visibility::Private)
    } else {
        None
    }
}

pub fn parse_feature(s: &str) -> (r: Option<FeatureAccess>)
    ensures
        r == spec_feature_of(s@),
{
    if str_eq(s, "Disabled") {
        Some(FeatureAccess::Disabled)
    } else if str_eq(s, "Private") {
        Some(FeatureAccess::Private)
    } else if str_eq(s, "Enabled") {
        Some(FeatureAccess::Enabled)
    } else {
        None
    }
}

pub fn parse_feature_public(s: &str) -> (r: Option<FeatureAccessPublic>)
    ensures
        r == spec_feature_public_of(s@),
{
    if str_eq(s, "Disabled") {
        Some(FeatureAccessPublic::Disabled)
    } else if str_eq(s, "Private") {
        Some(FeatureAccessPublic::Private)
    } else if str_eq(s, "Enabled") {
        Some(FeatureAccessPublic::Enabled)
    } else if str_eq(s, "Public") {
        Some(FeatureAccessPublic::Public)
    } else {
        None
    }
}

pub fn parse_merge_method(s: &str) -> (r: Option<MergeMethod>)
    ensures
        r == spec_merge_method_of(s@),
{
    if str_eq(s, "Merge") {
        Some(MergeMethod::Merge)
    } else if str_eq(s, "RebaseMerge") {
        Some(MergeMethod::RebaseMerge)
    } else if str_eq(s, "FastForward") {
        Some(MergeMethod::FastForward)
    } else {
        None
    }
}

pub fn parse_squash(s: &str) -> (r: Option<SquashOption>)
    ensures
        r == spec_squash_of(s@),
{
    if str_eq(s, "Never") {
        Some(SquashOption::Never)
    } else if str_eq(s, "Always") {
        Some(SquashOption::Always)
    } else if str_eq(s, "DefaultOn") {
        Some(SquashOption::DefaultOn)
    } else if str_eq(s, "DefaultOff") {
        Some(SquashOption::DefaultOff)
    } else {
        None
    }
}

// ---------------------------------------------------------------------------
// Documented defaults, one named function per default value.
// ---------------------------------------------------------------------------

/// The documented default for an omitted boolean flag that is off by default.
pub fn default_false() -> (r: bool)
    ensures
        r == false,
{
    false
}

/// The documented default for an omitted boolean flag that is on by default.
pub fn default_true() -> (r: bool)
    ensures
        r == true,
{
    true
}

/// The documented default for the number of approvals required before merge.
pub fn default_u64_one() -> (r: u64)
    ensures
        r == 1,
{
    1
}

/// The documented default branch name.
pub fn default_branch() -> (r: String)
    ensures
        r@ == "main"@,
{
    "main".to_owned()
}

/// The documented default for an omitted feature access level.
pub fn default_feature_level_access_disabled() -> (r: FeatureAccess)
    ensures
        r == FeatureAccess::Disabled,
{
    FeatureAccess::Disabled
}

/// The documented default for an omitted public-capable feature access level.
pub fn default_feature_level_access_public_disabled() -> (r: FeatureAccessPublic)
    ensures
        r == FeatureAccessPublic::Disabled,
{
    FeatureAccessPublic::Disabled
}

/// The documented default project visibility.
pub fn default_visibility_level_internal() -> (r: Visibility)
    ensures
        r == Visibility::Internal,
{
    Visibility::Internal
}

/// The documented default merge method.
pub fn default_merge_method_fastforward() -> (r: MergeMethod)
    ensures
        r == MergeMethod::FastForward,
{
    MergeMethod::FastForward
}

/// The documented default squash policy.
pub fn default_squash_option_default_off() -> (r: SquashOption)
    ensures
        r == SquashOption::DefaultOff,
{
    SquashOption::DefaultOff
}

/// The documented default push protection level for the default branch.
pub fn default_protected_access_level_admin() -> (r: ProtectedAccessLevelRef)
    ensures
        r == ProtectedAccessLevelRef::Admin,
{
    ProtectedAccessLevelRef::Admin
}

/// The documented default merge protection level for the default branch.
pub fn default_protected_access_level_developer() -> (r: ProtectedAccessLevelRef)
    ensures
        r == ProtectedAccessLevelRef::Developer,
{
    ProtectedAccessLevelRef::Developer
}

// ---------------------------------------------------------------------------
// Errors surfaced by the engine, one variant per documented error class.
// ---------------------------------------------------------------------------

#[derive(Debug)]
pub enum EngineError {
    /// A desired-state field failed to resolve: the named field held the
    /// offending value.
    InvalidConfiguration { field: String, value: String },
    /// The remote lookup failed for a reason other than "not found".
    ProbeError { detail: String },
    /// A create, update, protect or unprotect call was rejected remotely.
    MutationError { detail: String },
    /// An error of no recognized shape, surfaced verbatim.
    UnexpectedError { detail: String },
}

// ---------------------------------------------------------------------------
// The raw input record and the fully resolved desired state.
// ---------------------------------------------------------------------------

/// One resource record as the configuration source hands it over: the name is
/// required, every other field may be omitted; enum-valued fields arrive as
/// their textual literals.
#[derive(Debug)]
pub struct RawProject {
    pub name: String,
    pub default_branch: Option<String>,
    pub default_branch_push_protected_access_level: Option<String>,
    pub default_branch_merge_protected_access_level: Option<String>,
    pub pages_access_level: Option<String>,
    pub operations_access_level: Option<String>,
    pub requirements_access_level: Option<String>,
    pub analytics_access_level: Option<String>,
    pub emails_disabled: Option<bool>,
    pub container_registry_enabled: Option<bool>,
    pub visibility: Option<String>,
    pub public_builds: Option<bool>,
    pub only_allow_merge_if_pipeline_succeeds: Option<bool>,
    pub allow_merge_on_skipped_pipeline: Option<bool>,
    pub only_allow_merge_if_all_discussions_are_resolved: Option<bool>,
    pub merge_method: Option<String>,
    pub squash_option: Option<String>,
    pub merge_pipelines_enabled: Option<bool>,
    pub merge_trains_enabled: Option<bool>,
    pub remove_source_branch_after_merge: Option<bool>,
    pub printing_merge_requests_link_enabled: Option<bool>,
    pub lfs_enabled: Option<bool>,
    pub request_access_enabled: Option<bool>,
    pub auto_devops_enabled: Option<bool>,
    pub approvals_before_merge: Option<u64>,
    pub mirror: Option<bool>,
    pub package_enabled: Option<bool>,
    pub service_desk_enabled: Option<bool>,
    pub issues_enabled: Option<bool>,
    pub merge_requests_enabled: Option<bool>,
    pub jobs_enabled: Option<bool>,
    pub wiki_enabled: Option<bool>,
    pub snippets_enabled: Option<bool>,
}

/// One resource's fully resolved desired state: every field carries a value,
/// either the configured one or its documented default.
#[derive(Debug)]
pub struct Project {
    pub name: String,
    pub default_branch: String,
    pub default_branch_push_protected_access_level: ProtectedAccessLevelRef,
    pub default_branch_merge_protected_access_level: ProtectedAccessLevelRef,
    pub pages_access_level: FeatureAccessPublic,
    pub operations_access_level: FeatureAccess,
    pub requirements_access_level: FeatureAccessPublic,
    pub analytics_access_level: FeatureAccess,
    pub emails_disabled: bool,
    pub container_registry_enabled: bool,
    pub visibility: Visibility,
    pub public_builds: bool,
    pub only_allow_merge_if_pipeline_succeeds: bool,
    pub allow_merge_on_skipped_pipeline: bool,
    pub only_allow_merge_if_all_discussions_are_resolved: bool,
    pub merge_method: MergeMethod,
    pub squash_option: SquashOption,
    pub merge_pipelines_enabled: bool,
    pub merge_trains_enabled: bool,
    pub remove_source_branch_after_merge: bool,
    pub printing_merge_requests_link_enabled: bool,
    pub lfs_enabled: bool,
    pub request_access_enabled: bool,
    pub auto_devops_enabled: bool,
    pub approvals_before_merge: u64,
    pub mirror: bool,
    pub package_enabled: bool,
    pub service_desk_enabled: bool,
    pub issues_enabled: bool,
    pub merge_requests_enabled: bool,
    pub jobs_enabled: bool,
    pub wiki_enabled: bool,
    pub snippets_enabled: bool,
}

// ---------------------------------------------------------------------------
// Validity of the enum-valued input fields.
// ---------------------------------------------------------------------------

pub open spec fn protected_field_ok(f: Option<String>) -> bool {
    f matches Some(s) ==> spec_protected_of(s@) is Some
}

pub open spec fn feature_field_ok(f: Option<String>) -> bool {
    f matches Some(s) ==> spec_feature_of(s@) is Some
}

pub open spec fn feature_public_field_ok(f: Option<String>) -> bool {
    f matches Some(s) ==> spec_feature_public_of(s@) is Some
}

pub open spec fn visibility_field_ok(f: Option<String>) -> bool {
    f matches Some(s) ==> spec_visibility_of(s@) is Some
}

pub open spec fn merge_method_field_ok(f: Option<String>) -> bool {
    f matches Some(s) ==> spec_merge_method_of(s@) is Some
}

pub open spec fn squash_field_ok(f: Option<String>) -> bool {
    f matches Some(s) ==> spec_squash_of(s@) is Some
}

/// A raw record resolves exactly when each of its enum-valued fields is
/// either omitted or a recognized literal.
pub open spec fn resolve_ok(raw: RawProject) -> bool {
    &&& protected_field_ok(raw.default_branch_push_protected_access_level)
    &&& protected_field_ok(raw.default_branch_merge_protected_access_level)
    &&& feature_public_field_ok(raw.pages_access_level)
    &&& feature_field_ok(raw.operations_access_level)
    &&& feature_public_field_ok(raw.requirements_access_level)
    &&& feature_field_ok(raw.analytics_access_level)
    &&& visibility_field_ok(raw.visibility)
    &&& merge_method_field_ok(raw.merge_method)
    &&& squash_field_ok(raw.squash_option)
}

/// The first field, in record order, whose value fails to resolve.
pub open spec fn bad_field_name(raw: RawProject) -> Seq<char> {
    if !protected_field_ok(raw.default_branch_push_protected_access_level) {
        "default_branch_push_protected_access_level"@
    } else if !protected_field_ok(raw.default_branch_merge_protected_access_level) {
        "default_branch_merge_protected_access_level"@
    } else if !feature_public_field_ok(raw.pages_access_level) {
        "pages_access_level"@
    } else if !feature_field_ok(raw.operations_access_level) {
        "operations_access_level"@
    } else if !feature_public_field_ok(raw.requirements_access_level) {
        "requirements_access_level"@
    } else if !feature_field_ok(raw.analytics_access_level) {
        "analytics_access_level"@
    } else if !visibility_field_ok(raw.visibility) {
        "visibility"@
    } else if !merge_method_field_ok(raw.merge_method) {
        "merge_method"@
    } else {
        "squash_option"@
    }
}

/// The offending value of that first failing field.
pub open spec fn bad_field_value(raw: RawProject) -> Seq<char> {
    if !protected_field_ok(raw.default_branch_push_protected_access_level) {
        raw.default_branch_push_protected_access_level->Some_0@
    } else if !protected_field_ok(raw.default_branch_merge_protected_access_level) {
        raw.default_branch_merge_protected_access_level->Some_0@
    } else if !feature_public_field_ok(raw.pages_access_level) {
        raw.pages_access_level->Some_0@
    } else if !feature_field_ok(raw.operations_access_level) {
        raw.operations_access_level->Some_0@
    } else if !feature_public_field_ok(raw.requirements_access_level) {
        raw.requirements_access_level->Some_0@
    } else if !feature_field_ok(raw.analytics_access_level) {
        raw.analytics_access_level->Some_0@
    } else if !visibility_field_ok(raw.visibility) {
        raw.visibility->Some_0@
    } else if !merge_method_field_ok(raw.merge_method) {
        raw.merge_method->Some_0@
    } else {
        raw.squash_option->Some_0@
    }
}

/// A resolved project agrees with its raw record: each configured value is
/// kept, and each omitted field carries its documented default.
pub open spec fn resolved_from(p: Project, raw: RawProject) -> bool {
    &&& p.name@ == raw.name@
    &&& (raw.default_branch matches Some(b) ==> p.default_branch@ == b@)
    &&& (raw.default_branch is None ==> p.default_branch@ == "main"@)
    &&& (raw.default_branch_push_protected_access_level matches Some(s) ==> spec_protected_of(
        s@,
    ) == Some(p.default_branch_push_protected_access_level))
    &&& (raw.default_branch_push_protected_access_level is None
        ==> p.default_branch_push_protected_access_level == ProtectedAccessLevelRef::Admin)
    &&& (raw.default_branch_merge_protected_access_level matches Some(s) ==> spec_protected_of(
        s@,
    ) == Some(p.default_branch_merge_protected_access_level))
    &&& (raw.default_branch_merge_protected_access_level is None
        ==> p.default_branch_merge_protected_access_level == ProtectedAccessLevelRef::Developer)
    &&& (raw.pages_access_level matches Some(s) ==> spec_feature_public_of(s@) == Some(
        p.pages_access_level,
    ))
    &&& (raw.pages_access_level is None ==> p.pages_access_level
        == FeatureAccessPublic::Disabled)
    &&& (raw.operations_access_level matches Some(s) ==> spec_feature_of(s@) == Some(
        p.operations_access_level,
    ))
    &&& (raw.operations_access_level is None ==> p.operations_access_level
        == FeatureAccess::Disabled)
    &&& (raw.requirements_access_level matches Some(s) ==> spec_feature_public_of(s@) == Some(
        p.requirements_access_level,
    ))
    &&& (raw.requirements_access_level is None ==> p.requirements_access_level
        == FeatureAccessPublic::Disabled)
    &&& (raw.analytics_access_level matches Some(s) ==> spec_feature_of(s@) == Some(
        p.analytics_access_level,
    ))
    &&& (raw.analytics_access_level is None ==> p.analytics_access_level
        == FeatureAccess::Disabled)
    &&& (raw.visibility matches Some(s) ==> spec_visibility_of(s@) == Some(p.visibility))
    &&& (raw.visibility is None ==> p.visibility == Visibility::Internal)
    &&& (raw.merge_method matches Some(s) ==> spec_merge_method_of(s@) == Some(p.merge_method))
    &&& (raw.merge_method is None ==> p.merge_method == MergeMethod::FastForward)
    &&& (raw.squash_option matches Some(s) ==> spec_squash_of(s@) == Some(p.squash_option))
    &&& (raw.squash_option is None ==> p.squash_option == SquashOption::DefaultOff)
    &&& p.emails_disabled == opt_bool(raw.emails_disabled, false)
    &&& p.container_registry_enabled == opt_bool(raw.container_registry_enabled, false)
    &&& p.public_builds == opt_bool(raw.public_builds, false)
    &&& p.only_allow_merge_if_pipeline_succeeds == opt_bool(
        raw.only_allow_merge_if_pipeline_succeeds,
        true,
    )
    &&& p.allow_merge_on_skipped_pipeline == opt_bool(raw.allow_merge_on_skipped_pipeline, false)
    &&& p.only_allow_merge_if_all_discussions_are_resolved == opt_bool(
        raw.only_allow_merge_if_all_discussions_are_resolved,
        true,
    )
    &&& p.merge_pipelines_enabled == opt_bool(raw.merge_pipelines_enabled, false)
    &&& p.merge_trains_enabled == opt_bool(raw.merge_trains_enabled, false)
    &&& p.remove_source_branch_after_merge == opt_bool(raw.remove_source_branch_after_merge, true)
    &&& p.printing_merge_requests_link_enabled == opt_bool(
        raw.printing_merge_requests_link_enabled,
        true,
    )
    &&& p.lfs_enabled == opt_bool(raw.lfs_enabled, false)
    &&& p.request_access_enabled == opt_bool(raw.request_access_enabled, false)
    &&& p.auto_devops_enabled == opt_bool(raw.auto_devops_enabled, false)
    &&& p.approvals_before_merge == (match raw.approvals_before_merge {
        Some(n) => n,
        None => 1u64,
    })
    &&& p.mirror == opt_bool(raw.mirror, false)
    &&& p.package_enabled == opt_bool(raw.package_enabled, false)
    &&& p.service_desk_enabled == opt_bool(raw.service_desk_enabled, false)
    &&& p.issues_enabled == opt_bool(raw.issues_enabled, false)
    &&& p.merge_requests_enabled == opt_bool(raw.merge_requests_enabled, true)
    &&& p.jobs_enabled == opt_bool(raw.jobs_enabled, false)
    &&& p.wiki_enabled == opt_bool(raw.wiki_enabled, false)
    &&& p.snippets_enabled == opt_bool(raw.snippets_enabled, false)
}

pub open spec fn opt_bool(f: Option<bool>, d: bool) -> bool {
    match f {
        Some(b) => b,
        None => d,
    }
}

/// Resolves a raw record into a full desired state, applying the documented
/// default to every omitted field. Fails exactly when some enum-valued field
/// holds an unrecognized literal, and then names the first such field, in
/// record order, together with the offending value.
pub fn resolve(raw: &RawProject) -> (r: Result<Project, EngineError>)
    ensures
        r is Ok <==> resolve_ok(*raw),
        r matches Ok(p) ==> resolved_from(p, *raw),
        r matches Err(e) ==> e matches EngineError::InvalidConfiguration { field, value }
            && field@ == bad_field_name(*raw) && value@ == bad_field_value(*raw),
{
    let push_level = match &raw.default_branch_push_protected_access_level {
        Some(s) => match parse_protected(s.as_str()) {
            Some(v) => v,
            None => {
                return Err(
                    EngineError::InvalidConfiguration {
                        field: "default_branch_push_protected_access_level".to_owned(),
                        value: s.clone(),
                    },
                );
            },
        },
        None => default_protected_access_level_admin(),
    };
    let merge_level = match &raw.default_branch_merge_protected_access_level {
        Some(s) => match parse_protected(s.as_str()) {
            Some(v) => v,
            None => {
                return Err(
                    EngineError::InvalidConfiguration {
                        field: "default_branch_merge_protected_access_level".to_owned(),
                        value: s.clone(),
                    },
                );
            },
        },
        None => default_protected_access_level_developer(),
    };
    let pages = match &raw.pages_access_level {
        Some(s) => match parse_feature_public(s.as_str()) {
            Some(v) => v,
            None => {
                return Err(
                    EngineError::InvalidConfiguration {
                        field: "pages_access_level".to_owned(),
                        value: s.clone(),
                    },
                );
            },
        },
        None => default_feature_level_access_public_disabled(),
    };
    let operations = match &raw.operations_access_level {
        Some(s) => match parse_feature(s.as_str()) {
            Some(v) => v,
            None => {
                return Err(
                    EngineError::InvalidConfiguration {
                        field: "operations_access_level".to_owned(),
                        value: s.clone(),
                    },
                );
            },
        },
        None => default_feature_level_access_disabled(),
    };
    let requirements = match &raw.requirements_access_level {
        Some(s) => match parse_feature_public(s.as_str()) {
            Some(v) => v,
            None => {
                return Err(
                    EngineError::InvalidConfiguration {
                        field: "requirements_access_level".to_owned(),
                        value: s.clone(),
                    },
                );
            },
        },
        None => default_feature_level_access_public_disabled(),
    };
    let analytics = match &raw.analytics_access_level {
        Some(s) => match parse_feature(s.as_str()) {
            Some(v) => v,
            None => {
                return Err(
                    EngineError::InvalidConfiguration {
                        field: "analytics_access_level".to_owned(),
                        value: s.clone(),
                    },
                );
            },
        },
        None => default_feature_level_access_disabled(),
    };
    let visibility = match &raw.visibility {
        Some(s) => match parse_visibility(s.as_str()) {
            Some(v) => v,
            None => {
                return Err(
                    EngineError::InvalidConfiguration {
                        field: "visibility".to_owned(),
                        value: s.clone(),
                    },
                );
            },
        },
        None => default_visibility_level_internal(),
    };
    let merge_method = match &raw.merge_method {
        Some(s) => match parse_merge_method(s.as_str()) {
            Some(v) => v,
            None => {
                return Err(
                    EngineError::InvalidConfiguration {
                        field: "merge_method".to_owned(),
                        value: s.clone(),
                    },
                );
            },
        },
        None => default_merge_method_fastforward(),
    };
    let squash_option = match &raw.squash_option {
        Some(s) => match parse_squash(s.as_str()) {
            Some(v) => v,
            None => {
                return Err(
                    EngineError::InvalidConfiguration {
                        field: "squash_option".to_owned(),
                        value: s.clone(),
                    },
                );
            },
        },
        None => default_squash_option_default_off(),
    };
    let default_branch = match &raw.default_branch {
        Some(b) => b.clone(),
        None => default_branch(),
    };
    Ok(
        Project {
            name: raw.name.clone(),
            default_branch,
            default_branch_push_protected_access_level: push_level,
            default_branch_merge_protected_access_level: merge_level,
            pages_access_level: pages,
            operations_access_level: operations,
            requirements_access_level: requirements,
            analytics_access_level: analytics,
            emails_disabled: opt_bool_exec(raw.emails_disabled, default_false()),
            container_registry_enabled: opt_bool_exec(raw.container_registry_enabled, false),
            visibility,
            public_builds: opt_bool_exec(raw.public_builds, false),
            only_allow_merge_if_pipeline_succeeds: opt_bool_exec(
                raw.only_allow_merge_if_pipeline_succeeds,
                default_true(),
            ),
            allow_merge_on_skipped_pipeline: opt_bool_exec(
                raw.allow_merge_on_skipped_pipeline,
                false,
            ),
            only_allow_merge_if_all_discussions_are_resolved: opt_bool_exec(
                raw.only_allow_merge_if_all_discussions_are_resolved,
                true,
            ),
            merge_method,
            squash_option,
            merge_pipelines_enabled: opt_bool_exec(raw.merge_pipelines_enabled, false),
            merge_trains_enabled: opt_bool_exec(raw.merge_trains_enabled, false),
            remove_source_branch_after_merge: opt_bool_exec(
                raw.remove_source_branch_after_merge,
                true,
            ),
            printing_merge_requests_link_enabled: opt_bool_exec(
                raw.printing_merge_requests_link_enabled,
                true,
            ),
            lfs_enabled: opt_bool_exec(raw.lfs_enabled, false),
            request_access_enabled: opt_bool_exec(raw.request_access_enabled, false),
            auto_devops_enabled: opt_bool_exec(raw.auto_devops_enabled, false),
            approvals_before_merge: match raw.approvals_before_merge {
                Some(n) => n,
                None => default_u64_one(),
            },
            mirror: opt_bool_exec(raw.mirror, false),
            package_enabled: opt_bool_exec(raw.package_enabled, false),
            service_desk_enabled: opt_bool_exec(raw.service_desk_enabled, false),
            issues_enabled: opt_bool_exec(raw.issues_enabled, false),
            merge_requests_enabled: opt_bool_exec(raw.merge_requests_enabled, default_true()),
            jobs_enabled: opt_bool_exec(raw.jobs_enabled, false),
            wiki_enabled: opt_bool_exec(raw.wiki_enabled, false),
            snippets_enabled: opt_bool_exec(raw.snippets_enabled, false),
        },
    )
}

/// The configured value of an optional boolean flag, or its default.
pub fn opt_bool_exec(f: Option<bool>, d: bool) -> (r: bool)
    ensures
        r == opt_bool(f, d),
{
    match f {
        Some(b) => b,
        None => d,
    }
}

} // verus!
