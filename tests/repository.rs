use kal_core::error::{ApplicationError, DomainError, RepositoryError};
use kal_core::repository::{deletion_outcome, require_found};

#[test]
fn deleting_nothing_is_not_found() {
    assert_eq!(deletion_outcome(0), Err(RepositoryError::NotFound));
    assert_eq!(deletion_outcome(1), Ok(()));
    assert_eq!(deletion_outcome(3), Ok(()));
}

#[test]
fn required_lookup_fails_when_absent() {
    assert_eq!(require_found::<u32>(None), Err(RepositoryError::NotFound));
    assert_eq!(require_found(Some(5u32)), Ok(5));
}

#[test]
fn application_errors_wrap_lower_errors() {
    assert_eq!(ApplicationError::from(DomainError::EmptyTitle), ApplicationError::Domain(DomainError::EmptyTitle));
    assert_eq!(
        ApplicationError::from_repository(&RepositoryError::NotFound),
        ApplicationError::Repository("Entity not found".to_string())
    );
}
