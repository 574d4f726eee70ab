use charac::cell::{CellValue, PercentValue, Value};
use charac::crypter::{decrypt_token, encrypt_token, NONCE_LEN};
use charac::ids::{
    base_id_from_text, field_id_from_text, key_from_text, record_id_from_text, table_id_from_text,
    CellId,
};
use charac::permissions::{TablePermission, TablePermissions};
use charac::table::{
    migrated_cell, migration_gate, records_to_migrate, update_gate, update_record_allowed,
    MigrationStrategy,
};
use charac::time::Datetime;

#[test]
fn migration_gate_by_strategy() {
    assert_eq!(
        migration_gate(MigrationStrategy::Risky),
        Err("Migration is Risky. Data loss might occur.".to_string())
    );
    assert_eq!(
        migration_gate(MigrationStrategy::Destructive),
        Err("Migration is Destructive. Data loss might occur.".to_string())
    );
    assert_eq!(migration_gate(MigrationStrategy::NoOp), Err("No operation needed".to_string()));
    assert_eq!(migration_gate(MigrationStrategy::Safe), Ok(()));
}

#[test]
fn field_edit_gate_by_strategy() {
    assert_eq!(update_gate(MigrationStrategy::Risky), Err(MigrationStrategy::Risky));
    assert_eq!(update_gate(MigrationStrategy::Destructive), Err(MigrationStrategy::Destructive));
    assert_eq!(update_gate(MigrationStrategy::NoOp), Ok(()));
    assert_eq!(update_gate(MigrationStrategy::Safe), Ok(()));
}

#[test]
fn only_converting_cells_are_rewritten() {
    let outcomes = vec![Some(true), None, Some(false), Some(true), Some(true), None];
    assert_eq!(records_to_migrate(&outcomes), vec![0, 3, 4]);
    assert_eq!(records_to_migrate(&vec![]), Vec::<usize>::new());
    assert_eq!(records_to_migrate(&vec![None, Some(false)]), Vec::<usize>::new());
}

#[test]
fn migrated_cell_keeps_key_and_creation() {
    let created = Datetime { secs: 1_000, nanos: 5 };
    let cell = CellValue {
        id: CellId("c1".to_string()),
        created_at: created,
        updated_at: created,
        value: Value::Percent(PercentValue::new(3)),
    };
    let m = migrated_cell(cell, Value::Percent(PercentValue::new(9)));
    assert_eq!(m.id, CellId("c1".to_string()));
    assert_eq!(m.created_at, created);
    assert_eq!(m.value, Value::Percent(PercentValue::new(9)));
    assert!(m.updated_at.secs > 1_700_000_000);
}

#[test]
fn update_record_needs_edit() {
    let none = TablePermissions::from_bits(0);
    assert!(!update_record_allowed(&none));
    let mut edit = TablePermissions::from_bits(0);
    edit.set(TablePermission::Edit);
    assert!(update_record_allowed(&edit));
    let mut view = TablePermissions::from_bits(0);
    view.set(TablePermission::ViewRecords);
    assert!(!update_record_allowed(&view));
    assert!(update_record_allowed(&TablePermissions::all()));
}

#[test]
fn ids_are_read_from_text() {
    assert_eq!(table_id_from_text("abc123").unwrap().0, "abc123");
    assert_eq!(record_id_from_text("r9").unwrap().0, "r9");
    assert_eq!(field_id_from_text("f1").unwrap().0, "f1");
    assert_eq!(base_id_from_text("b2").unwrap().0, "b2");
    assert_eq!(key_from_text("table", "a:b"), Some("a:b".to_string()));
}

#[test]
fn encrypted_token_has_nonce_and_tag() {
    let key = [3u8; 32];
    let e = encrypt_token(&key, "hello").unwrap();
    assert_eq!(e.len(), NONCE_LEN + 5 + 16);
    let u = encrypt_token(&key, "héllo").unwrap();
    assert_eq!(u.len(), 12 + 6 + 16);
    assert_eq!(decrypt_token(&key, &u).unwrap(), "héllo");
}
