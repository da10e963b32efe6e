use open_protocol_device_simulator::pset::{InMemoryPsetRepository, Pset};

fn candidate(name: &str) -> Pset {
    Pset::new(0, name.to_string(), 100, 200, 100, 300, None)
}

#[test]
fn test_repository_seeds_five_defaults() {
    let repo = InMemoryPsetRepository::new();
    let all = repo.get_all();
    assert_eq!(all.len(), 5);
    assert_eq!(all[0].name, "Light Duty");
    assert_eq!(all[1].name, "Standard");
    assert_eq!(all[2].name, "Heavy Duty");
    assert_eq!(all[3].name, "Precision");
    assert_eq!(all[4].name, "Extra Heavy");
    for (idx, pset) in all.iter().enumerate() {
        assert_eq!(pset.id, (idx + 1) as u32);
    }
}

#[test]
fn test_create_assigns_fresh_id_and_validates() {
    let mut repo = InMemoryPsetRepository::new();

    let created = repo.create(candidate("Custom")).unwrap();
    assert_eq!(created.id, 6);
    assert!(repo.get_by_id(6).is_some());

    let inverted = Pset::new(0, "Inverted".to_string(), 300, 200, 100, 300, None);
    assert!(repo.create(inverted).is_err());

    let wide_angle = Pset::new(0, "Wide".to_string(), 100, 200, 100, 4000, None);
    assert!(repo.create(wide_angle).is_err());
}

#[test]
fn test_create_rejects_duplicate_name() {
    let mut repo = InMemoryPsetRepository::new();
    assert!(repo.create(candidate("Standard")).is_err());
    assert!(repo.create(candidate("Fresh Name")).is_ok());
    assert!(repo.create(candidate("Fresh Name")).is_err());
}

#[test]
fn test_update_replaces_fields_for_id() {
    let mut repo = InMemoryPsetRepository::new();
    let updated = repo.update(2, candidate("Standard Two")).unwrap();
    assert_eq!(updated.id, 2);
    assert_eq!(updated.name, "Standard Two");

    let fetched = repo.get_by_id(2).unwrap();
    assert_eq!(fetched.name, "Standard Two");
    assert_eq!(fetched.torque_min_cnm, 100);

    assert!(repo.update(99, candidate("Ghost")).is_err());
}

#[test]
fn test_delete_protects_defaults_and_unknown_ids() {
    let mut repo = InMemoryPsetRepository::new();
    assert!(repo.delete(1).is_err());
    assert!(repo.delete(5).is_err());
    assert!(repo.delete(99).is_err());

    let created = repo.create(candidate("Disposable")).unwrap();
    assert!(repo.delete(created.id).is_ok());
    assert!(repo.get_by_id(created.id).is_none());
}

#[test]
fn test_is_within_range_inclusive_bounds() {
    let pset = candidate("Ranges");
    assert!(pset.is_within_range(100, 100));
    assert!(pset.is_within_range(200, 300));
    assert!(pset.is_within_range(150, 200));
    assert!(!pset.is_within_range(99, 200));
    assert!(!pset.is_within_range(201, 200));
    assert!(!pset.is_within_range(150, 301));
}
