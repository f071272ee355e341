use triangle_engine::errors::EngineError;
use triangle_engine::queue_family_indices::{
    PresentSupport, QueueFamilyIndices, QueueFamilyProperties,
};

fn family(graphics: bool, present: PresentSupport) -> QueueFamilyProperties {
    QueueFamilyProperties { supports_graphics: graphics, present_support: present }
}

#[test]
fn find_records_first_match_for_each_role() {
    let families = vec![
        family(false, PresentSupport::Unsupported),
        family(true, PresentSupport::Unsupported),
        family(true, PresentSupport::Supported),
        family(true, PresentSupport::Supported),
    ];
    let ind = QueueFamilyIndices::find(&families).unwrap();
    assert_eq!(ind.graphics_family, 1);
    assert_eq!(ind.present_family, 2);
}

#[test]
fn find_accepts_a_shared_family() {
    let families = vec![family(true, PresentSupport::Supported)];
    let ind = QueueFamilyIndices::find(&families).unwrap();
    assert_eq!(ind.graphics_family, 0);
    assert_eq!(ind.present_family, 0);
    assert!(ind.is_same_queue());
}

#[test]
fn find_fails_when_graphics_is_missing() {
    let families = vec![family(false, PresentSupport::Supported)];
    assert_eq!(
        QueueFamilyIndices::find(&families),
        Err(EngineError::IncompleteQueueFamilies)
    );
}

#[test]
fn find_fails_when_present_is_missing() {
    let families = vec![
        family(true, PresentSupport::Unsupported),
        family(true, PresentSupport::Unsupported),
    ];
    assert_eq!(
        QueueFamilyIndices::find(&families),
        Err(EngineError::IncompleteQueueFamilies)
    );
}

#[test]
fn find_fails_on_no_families_at_all() {
    let families: Vec<QueueFamilyProperties> = vec![];
    assert_eq!(
        QueueFamilyIndices::find(&families),
        Err(EngineError::IncompleteQueueFamilies)
    );
}

#[test]
fn find_fails_when_a_query_fails_before_both_roles_are_found() {
    let families = vec![
        family(true, PresentSupport::QueryFailed),
        family(true, PresentSupport::Supported),
    ];
    assert_eq!(
        QueueFamilyIndices::find(&families),
        Err(EngineError::IncompleteQueueFamilies)
    );
}

#[test]
fn find_ignores_a_query_failure_after_the_scan_stopped() {
    let families = vec![
        family(true, PresentSupport::Supported),
        family(false, PresentSupport::QueryFailed),
    ];
    let ind = QueueFamilyIndices::find(&families).unwrap();
    assert_eq!(ind.graphics_family, 0);
    assert_eq!(ind.present_family, 0);
}

#[test]
fn unique_indices_single_shared_index() {
    let ind = QueueFamilyIndices { graphics_family: 2, present_family: 2 };
    assert_eq!(ind.unique_indices(), vec![2]);
}

#[test]
fn unique_indices_two_distinct_indices() {
    let ind = QueueFamilyIndices { graphics_family: 0, present_family: 3 };
    let unique = ind.unique_indices();
    assert_eq!(unique, vec![0, 3]);
    assert_ne!(unique[0], unique[1]);
}

#[test]
fn take_queues_shares_one_queue_for_a_shared_family() {
    let ind = QueueFamilyIndices { graphics_family: 1, present_family: 1 };
    let queues = vec![10];
    assert_eq!(ind.take_queues(&queues), Ok((10, 10)));
}

#[test]
fn take_queues_takes_two_queues_in_order() {
    let ind = QueueFamilyIndices { graphics_family: 0, present_family: 1 };
    let queues = vec![10, 20];
    assert_eq!(ind.take_queues(&queues), Ok((10, 20)));
}

#[test]
fn take_queues_fails_without_any_queue() {
    let ind = QueueFamilyIndices { graphics_family: 1, present_family: 1 };
    let queues: Vec<u64> = vec![];
    assert_eq!(ind.take_queues(&queues), Err(EngineError::DeviceCreationFailed));
}

#[test]
fn take_queues_fails_when_a_second_queue_is_missing() {
    let ind = QueueFamilyIndices { graphics_family: 0, present_family: 1 };
    let queues = vec![10];
    assert_eq!(ind.take_queues(&queues), Err(EngineError::DeviceCreationFailed));
}

#[test]
fn is_same_queue_compares_the_two_families() {
    assert!(QueueFamilyIndices { graphics_family: 4, present_family: 4 }.is_same_queue());
    assert!(!QueueFamilyIndices { graphics_family: 4, present_family: 5 }.is_same_queue());
}
