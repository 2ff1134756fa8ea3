use skibidb::datatypes::Schema;
use skibidb::datatypes::Type;
use skibidb::DBError;
use skibidb::StorageError;

#[test]
fn schema_holds_its_column_types() {
    let schema = Schema::new(vec![
        Type::Int,
        Type::Varchar(32),
        Type::Decimal(2),
        Type::Enum(String::from("color")),
    ]);
    assert_eq!(schema.len(), 4);
    assert_eq!(Schema::new(vec![]).len(), 0);
}

#[test]
fn storage_errors_wrap_into_db_errors() {
    let e = DBError::from_storage(StorageError::UnknownPage(17));
    assert!(matches!(
        e,
        DBError::StorageError(StorageError::UnknownPage(17))
    ));
    let e = DBError::from_storage(StorageError::DeleteFileWhilePagesPinned);
    assert!(matches!(
        e,
        DBError::StorageError(StorageError::DeleteFileWhilePagesPinned)
    ));
}
