use glsync::model::{
    default_branch, default_false, default_feature_level_access_disabled,
    default_feature_level_access_public_disabled, default_merge_method_fastforward,
    default_protected_access_level_admin, default_protected_access_level_developer,
    default_squash_option_default_off, default_true, default_u64_one,
    default_visibility_level_internal, parse_feature, parse_feature_public, parse_merge_method,
    parse_protected, parse_squash, parse_visibility, resolve, str_eq, EngineError, FeatureAccess,
    FeatureAccessPublic, MergeMethod, ProtectedAccessLevelRef, RawProject, SquashOption,
    Visibility,
};

fn empty_raw(name: &str) -> RawProject {
    RawProject {
        name: name.to_owned(),
        default_branch: None,
        default_branch_push_protected_access_level: None,
        default_branch_merge_protected_access_level: None,
        pages_access_level: None,
        operations_access_level: None,
        requirements_access_level: None,
        analytics_access_level: None,
        emails_disabled: None,
        container_registry_enabled: None,
        visibility: None,
        public_builds: None,
        only_allow_merge_if_pipeline_succeeds: None,
        allow_merge_on_skipped_pipeline: None,
        only_allow_merge_if_all_discussions_are_resolved: None,
        merge_method: None,
        squash_option: None,
        merge_pipelines_enabled: None,
        merge_trains_enabled: None,
        remove_source_branch_after_merge: None,
        printing_merge_requests_link_enabled: None,
        lfs_enabled: None,
        request_access_enabled: None,
        auto_devops_enabled: None,
        approvals_before_merge: None,
        mirror: None,
        package_enabled: None,
        service_desk_enabled: None,
        issues_enabled: None,
        merge_requests_enabled: None,
        jobs_enabled: None,
        wiki_enabled: None,
        snippets_enabled: None,
    }
}

#[test]
fn str_eq_basics() {
    assert!(str_eq("main", "main"));
    assert!(!str_eq("main", "master"));
    assert!(!str_eq("main", "mains"));
    assert!(str_eq("", ""));
}

#[test]
fn every_omitted_field_gets_its_documented_default() {
    let p = resolve(&empty_raw("alpha")).expect("an empty record resolves");
    assert_eq!(p.name, "alpha");
    assert_eq!(p.default_branch, "main");
    assert_eq!(
        p.default_branch_push_protected_access_level,
        ProtectedAccessLevelRef::Admin
    );
    assert_eq!(
        p.default_branch_merge_protected_access_level,
        ProtectedAccessLevelRef::Developer
    );
    assert_eq!(p.pages_access_level, FeatureAccessPublic::Disabled);
    assert_eq!(p.operations_access_level, FeatureAccess::Disabled);
    assert_eq!(p.requirements_access_level, FeatureAccessPublic::Disabled);
    assert_eq!(p.analytics_access_level, FeatureAccess::Disabled);
    assert_eq!(p.emails_disabled, false);
    assert_eq!(p.container_registry_enabled, false);
    assert_eq!(p.visibility, Visibility::Internal);
    assert_eq!(p.public_builds, false);
    assert_eq!(p.only_allow_merge_if_pipeline_succeeds, true);
    assert_eq!(p.allow_merge_on_skipped_pipeline, false);
    assert_eq!(p.only_allow_merge_if_all_discussions_are_resolved, true);
    assert_eq!(p.merge_method, MergeMethod::FastForward);
    assert_eq!(p.squash_option, SquashOption::DefaultOff);
    assert_eq!(p.merge_pipelines_enabled, false);
    assert_eq!(p.merge_trains_enabled, false);
    assert_eq!(p.remove_source_branch_after_merge, true);
    assert_eq!(p.printing_merge_requests_link_enabled, true);
    assert_eq!(p.lfs_enabled, false);
    assert_eq!(p.request_access_enabled, false);
    assert_eq!(p.auto_devops_enabled, false);
    assert_eq!(p.approvals_before_merge, 1);
    assert_eq!(p.mirror, false);
    assert_eq!(p.package_enabled, false);
    assert_eq!(p.service_desk_enabled, false);
    assert_eq!(p.issues_enabled, false);
    assert_eq!(p.merge_requests_enabled, true);
    assert_eq!(p.jobs_enabled, false);
    assert_eq!(p.wiki_enabled, false);
    assert_eq!(p.snippets_enabled, false);
}

#[test]
fn default_functions_give_the_documented_values() {
    assert_eq!(default_false(), false);
    assert_eq!(default_true(), true);
    assert_eq!(default_u64_one(), 1);
    assert_eq!(default_branch(), "main");
    assert_eq!(
        default_feature_level_access_disabled(),
        FeatureAccess::Disabled
    );
    assert_eq!(
        default_feature_level_access_public_disabled(),
        FeatureAccessPublic::Disabled
    );
    assert_eq!(default_visibility_level_internal(), Visibility::Internal);
    assert_eq!(
        default_merge_method_fastforward(),
        MergeMethod::FastForward
    );
    assert_eq!(
        default_squash_option_default_off(),
        SquashOption::DefaultOff
    );
    assert_eq!(
        default_protected_access_level_admin(),
        ProtectedAccessLevelRef::Admin
    );
    assert_eq!(
        default_protected_access_level_developer(),
        ProtectedAccessLevelRef::Developer
    );
}

#[test]
fn configured_values_are_kept() {
    let mut raw = empty_raw("beta");
    raw.default_branch = Some("trunk".to_owned());
    raw.visibility = Some("Private".to_owned());
    raw.merge_method = Some("RebaseMerge".to_owned());
    raw.squash_option = Some("Always".to_owned());
    raw.default_branch_push_protected_access_level = Some("NoAccess".to_owned());
    raw.default_branch_merge_protected_access_level = Some("Maintainer".to_owned());
    raw.pages_access_level = Some("Public".to_owned());
    raw.operations_access_level = Some("Enabled".to_owned());
    raw.mirror = Some(true);
    raw.merge_requests_enabled = Some(false);
    raw.approvals_before_merge = Some(3);
    let p = resolve(&raw).expect("a valid record resolves");
    assert_eq!(p.default_branch, "trunk");
    assert_eq!(p.visibility, Visibility::Private);
    assert_eq!(p.merge_method, MergeMethod::RebaseMerge);
    assert_eq!(p.squash_option, SquashOption::Always);
    assert_eq!(
        p.default_branch_push_protected_access_level,
        ProtectedAccessLevelRef::NoAccess
    );
    assert_eq!(
        p.default_branch_merge_protected_access_level,
        ProtectedAccessLevelRef::Maintainer
    );
    assert_eq!(p.pages_access_level, FeatureAccessPublic::Public);
    assert_eq!(p.operations_access_level, FeatureAccess::Enabled);
    assert_eq!(p.mirror, true);
    assert_eq!(p.merge_requests_enabled, false);
    assert_eq!(p.approvals_before_merge, 3);
}

#[test]
fn malformed_visibility_names_field_and_value() {
    let mut raw = empty_raw("gamma");
    raw.visibility = Some("internal".to_owned());
    match resolve(&raw) {
        Err(EngineError::InvalidConfiguration { field, value }) => {
            assert_eq!(field, "visibility");
            assert_eq!(value, "internal");
        }
        other => panic!("expected InvalidConfiguration, got {:?}", other),
    }
}

#[test]
fn malformed_merge_method_names_field_and_value() {
    let mut raw = empty_raw("gamma");
    raw.merge_method = Some("Squash".to_owned());
    match resolve(&raw) {
        Err(EngineError::InvalidConfiguration { field, value }) => {
            assert_eq!(field, "merge_method");
            assert_eq!(value, "Squash");
        }
        other => panic!("expected InvalidConfiguration, got {:?}", other),
    }
}

#[test]
fn malformed_squash_option_names_field_and_value() {
    let mut raw = empty_raw("gamma");
    raw.squash_option = Some("Sometimes".to_owned());
    match resolve(&raw) {
        Err(EngineError::InvalidConfiguration { field, value }) => {
            assert_eq!(field, "squash_option");
            assert_eq!(value, "Sometimes");
        }
        other => panic!("expected InvalidConfiguration, got {:?}", other),
    }
}

#[test]
fn malformed_protection_level_names_field_and_value() {
    let mut raw = empty_raw("gamma");
    raw.default_branch_push_protected_access_level = Some("Owner".to_owned());
    match resolve(&raw) {
        Err(EngineError::InvalidConfiguration { field, value }) => {
            assert_eq!(field, "default_branch_push_protected_access_level");
            assert_eq!(value, "Owner");
        }
        other => panic!("expected InvalidConfiguration, got {:?}", other),
    }
}

#[test]
fn malformed_feature_level_names_field_and_value() {
    let mut raw = empty_raw("gamma");
    raw.operations_access_level = Some("On".to_owned());
    raw.requirements_access_level = Some("Off".to_owned());
    // the first failing field in record order is the one reported
    match resolve(&raw) {
        Err(EngineError::InvalidConfiguration { field, value }) => {
            assert_eq!(field, "operations_access_level");
            assert_eq!(value, "On");
        }
        other => panic!("expected InvalidConfiguration, got {:?}", other),
    }
}

#[test]
fn first_failing_field_in_record_order_is_reported() {
    let mut raw = empty_raw("gamma");
    raw.visibility = Some("Hidden".to_owned());
    raw.default_branch_merge_protected_access_level = Some("Guest".to_owned());
    match resolve(&raw) {
        Err(EngineError::InvalidConfiguration { field, value }) => {
            assert_eq!(field, "default_branch_merge_protected_access_level");
            assert_eq!(value, "Guest");
        }
        other => panic!("expected InvalidConfiguration, got {:?}", other),
    }
}

#[test]
fn enum_parsers_accept_exactly_the_documented_literals() {
    assert_eq!(parse_visibility("Public"), Some(Visibility::Public));
    assert_eq!(parse_visibility("Internal"), Some(Visibility::Internal));
    assert_eq!(parse_visibility("Private"), Some(Visibility::Private));
    assert_eq!(parse_visibility("public"), None);

    assert_eq!(
        parse_protected("Developer"),
        Some(ProtectedAccessLevelRef::Developer)
    );
    assert_eq!(
        parse_protected("Maintainer"),
        Some(ProtectedAccessLevelRef::Maintainer)
    );
    assert_eq!(parse_protected("Admin"), Some(ProtectedAccessLevelRef::Admin));
    assert_eq!(
        parse_protected("NoAccess"),
        Some(ProtectedAccessLevelRef::NoAccess)
    );
    assert_eq!(parse_protected("admin"), None);

    assert_eq!(parse_feature("Disabled"), Some(FeatureAccess::Disabled));
    assert_eq!(parse_feature("Private"), Some(FeatureAccess::Private));
    assert_eq!(parse_feature("Enabled"), Some(FeatureAccess::Enabled));
    assert_eq!(parse_feature("Public"), None);

    assert_eq!(
        parse_feature_public("Disabled"),
        Some(FeatureAccessPublic::Disabled)
    );
    assert_eq!(
        parse_feature_public("Private"),
        Some(FeatureAccessPublic::Private)
    );
    assert_eq!(
        parse_feature_public("Enabled"),
        Some(FeatureAccessPublic::Enabled)
    );
    assert_eq!(
        parse_feature_public("Public"),
        Some(FeatureAccessPublic::Public)
    );
    assert_eq!(parse_feature_public("Everyone"), None);

    assert_eq!(parse_merge_method("Merge"), Some(MergeMethod::Merge));
    assert_eq!(
        parse_merge_method("RebaseMerge"),
        Some(MergeMethod::RebaseMerge)
    );
    assert_eq!(
        parse_merge_method("FastForward"),
        Some(MergeMethod::FastForward)
    );
    assert_eq!(parse_merge_method("ff"), None);

    assert_eq!(parse_squash("Never"), Some(SquashOption::Never));
    assert_eq!(parse_squash("Always"), Some(SquashOption::Always));
    assert_eq!(parse_squash("DefaultOn"), Some(SquashOption::DefaultOn));
    assert_eq!(parse_squash("DefaultOff"), Some(SquashOption::DefaultOff));
    assert_eq!(parse_squash("defaultoff"), None);
}
