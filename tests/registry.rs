use safe_erase::error::SafeEraseError;
use safe_erase::registry::OperationRegistry;
use tokio_util::sync::CancellationToken;

#[test]
fn register_cancel_and_remove() {
    let mut registry = OperationRegistry::new();
    let first = CancellationToken::new();
    let second = CancellationToken::new();
    assert!(registry.register(1, first.clone()));
    assert!(registry.register(2, second.clone()));
    assert!(!registry.register(1, CancellationToken::new()));
    assert_eq!(registry.active_ids(), vec![1, 2]);
    assert!(registry.cancel(2).is_ok());
    assert!(second.is_cancelled());
    assert!(!first.is_cancelled());
    registry.remove(1);
    assert_eq!(registry.active_ids(), vec![2]);
    assert_eq!(
        registry.cancel(1),
        Err(SafeEraseError::Internal("Operation 00000000-0000-0000-0000-000000000001 not found".to_string()))
    );
}
