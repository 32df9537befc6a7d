use docbox_manager::registry::Registry;
use docbox_manager::tenant::Tenant;
use docbox_manager::ServiceError;

fn sample_tenant(env: &str, id: u128, name: &str) -> Tenant {
    Tenant {
        env: env.to_string(),
        id,
        name: name.to_string(),
        db_name: format!("docbox-{}", name),
        db_secret_name: format!("postgres/docbox/{}", name),
        db_role_name: format!("docbox_{}", name),
        storage_bucket_name: format!("docbox-{}-files", name),
        storage_cors_origins: vec!["https://example.com".to_string()],
        storage_s3_queue_arn: None,
        search_index_name: format!("docbox-{}", name),
        event_queue_url: None,
    }
}

#[test]
fn insert_then_find_returns_equal_record() {
    let mut registry = Registry::new();
    let tenant = sample_tenant("prod", 7, "acme");
    registry.insert(tenant).unwrap();

    let found = registry.find("prod", 7).expect("tenant should be found");
    assert_eq!(found.env, "prod");
    assert_eq!(found.id, 7);
    assert_eq!(found.name, "acme");
    assert_eq!(found.db_name, "docbox-acme");
    assert_eq!(found.db_secret_name, "postgres/docbox/acme");
    assert_eq!(found.db_role_name, "docbox_acme");
    assert_eq!(found.storage_bucket_name, "docbox-acme-files");
    assert_eq!(found.storage_cors_origins, vec!["https://example.com".to_string()]);
    assert_eq!(found.storage_s3_queue_arn, None);
    assert_eq!(found.search_index_name, "docbox-acme");
    assert_eq!(found.event_queue_url, None);
}

#[test]
fn find_on_empty_registry_misses() {
    let registry = Registry::new();
    assert!(registry.find("prod", 1).is_none());
}

#[test]
fn find_distinguishes_env_and_id() {
    let mut registry = Registry::new();
    registry.insert(sample_tenant("prod", 1, "one")).unwrap();
    assert!(registry.find("staging", 1).is_none());
    assert!(registry.find("prod", 2).is_none());
    assert!(registry.find("prod", 1).is_some());
}

#[test]
fn duplicate_key_is_rejected() {
    let mut registry = Registry::new();
    registry.insert(sample_tenant("prod", 1, "one")).unwrap();
    let err = registry.insert(sample_tenant("prod", 1, "other")).unwrap_err();
    assert_eq!(err, ServiceError::ResourceExists);
    // The first record is untouched.
    assert_eq!(registry.find("prod", 1).unwrap().name, "one");
}

#[test]
fn duplicate_db_name_is_rejected() {
    let mut registry = Registry::new();
    registry.insert(sample_tenant("prod", 1, "one")).unwrap();
    let mut clashing = sample_tenant("prod", 2, "two");
    clashing.db_name = "docbox-one".to_string();
    let err = registry.insert(clashing).unwrap_err();
    assert_eq!(err, ServiceError::ResourceExists);
    assert_eq!(registry.all().len(), 1);
}

#[test]
fn same_id_in_two_envs_is_allowed() {
    let mut registry = Registry::new();
    registry.insert(sample_tenant("prod", 1, "one")).unwrap();
    registry.insert(sample_tenant("staging", 1, "two")).unwrap();
    assert_eq!(registry.find("prod", 1).unwrap().name, "one");
    assert_eq!(registry.find("staging", 1).unwrap().name, "two");
}

#[test]
fn all_lists_in_insertion_order() {
    let mut registry = Registry::new();
    registry.insert(sample_tenant("prod", 2, "b")).unwrap();
    registry.insert(sample_tenant("prod", 1, "a")).unwrap();
    registry.insert(sample_tenant("staging", 3, "c")).unwrap();
    let names: Vec<&str> = registry.all().iter().map(|t| t.name.as_str()).collect();
    assert_eq!(names, vec!["b", "a", "c"]);
}

#[test]
fn all_by_env_keeps_order_and_filters() {
    let mut registry = Registry::new();
    registry.insert(sample_tenant("prod", 2, "b")).unwrap();
    registry.insert(sample_tenant("staging", 3, "c")).unwrap();
    registry.insert(sample_tenant("prod", 1, "a")).unwrap();
    let prod = registry.all_by_env("prod");
    let names: Vec<&str> = prod.iter().map(|t| t.name.as_str()).collect();
    assert_eq!(names, vec!["b", "a"]);
    assert!(registry.all_by_env("dev").is_empty());
}

#[test]
fn delete_removes_only_the_keyed_row() {
    let mut registry = Registry::new();
    registry.insert(sample_tenant("prod", 1, "a")).unwrap();
    registry.insert(sample_tenant("prod", 2, "b")).unwrap();
    registry.insert(sample_tenant("prod", 3, "c")).unwrap();
    registry.delete("prod", 2).unwrap();
    let names: Vec<&str> = registry.all().iter().map(|t| t.name.as_str()).collect();
    assert_eq!(names, vec!["a", "c"]);
    assert!(registry.find("prod", 2).is_none());
}

#[test]
fn delete_missing_tenant_is_not_found() {
    let mut registry = Registry::new();
    registry.insert(sample_tenant("prod", 1, "a")).unwrap();
    let err = registry.delete("prod", 9).unwrap_err();
    assert_eq!(err, ServiceError::NotFound);
    assert_eq!(registry.all().len(), 1);
}
