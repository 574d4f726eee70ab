use charac::bits::{and, can, not, or, shl, shr, xor};
use charac::permissions::{
    BasePermission, BasePermissions, FieldPermission, FieldPermissions, RecordPermission,
    RecordPermissions, TablePermission, TablePermissions, WorkspacePermission,
    WorkspacePermissions, WorkspaceUsersPermission, WorkspaceUsersPermissions,
};

#[test]
fn bitwise_operations() {
    assert_eq!(and(0b1100, 0b1010), 0b1000);
    assert_eq!(or(0b1100, 0b1010), 0b1110);
    assert_eq!(xor(0b1100, 0b1010), 0b0110);
    assert_eq!(not(0), u32::MAX);
    assert_eq!(shl(1, 31), 0x8000_0000);
    assert_eq!(shr(0x8000_0000, 31), 1);
    assert_eq!(shl(3, 0), 3);
}

#[test]
fn can_checks_flags_and_admin_bit() {
    // the lowest bit grants everything
    assert!(can(1, 0b1000_0000));
    // every bit of the flag must be present otherwise
    assert!(can(0b0110, 0b0100));
    assert!(can(0b0110, 0b0110));
    assert!(!can(0b0110, 0b1100));
    assert!(!can(0, 2));
    // the empty flag is always granted
    assert!(can(0, 0));
}

#[test]
fn granting_and_revoking_with_can() {
    let mask = 0b1000;
    assert!(!can(mask, 4));
    let granted = or(mask, 4);
    assert!(can(granted, 4));
    let revoked = and(granted, not(4));
    assert!(!can(revoked, 4));
    assert!(can(revoked, 8));
}

#[test]
fn flag_bits_follow_declaration_order() {
    assert_eq!(WorkspacePermission::Edit.bit(), 1);
    assert_eq!(WorkspacePermission::ViewAuditLogs.bit(), 1 << 6);
    assert_eq!(WorkspaceUsersPermission::Demote.bit(), 1 << 5);
    assert_eq!(BasePermission::ManageUsers.bit(), 1 << 5);
    assert_eq!(TablePermission::Edit.bit(), 1 << 13);
    assert_eq!(TablePermission::ExportTable.bit(), 1 << 18);
    assert_eq!(FieldPermission::Comment.bit(), 1 << 3);
    assert_eq!(RecordPermission::Share.bit(), 1 << 4);
}

#[test]
fn table_mask_set_unset_toggle() {
    let mut perms = TablePermissions::none();
    assert!(perms.is_none());
    assert!(!perms.contains(TablePermission::EditRecords));
    perms.set(TablePermission::EditRecords);
    perms.set(TablePermission::ViewRecords);
    assert!(perms.contains(TablePermission::EditRecords));
    assert!(perms.contains(TablePermission::ViewRecords));
    assert_eq!(perms.bits(), 0b1010);
    perms.unset(TablePermission::EditRecords);
    assert!(!perms.contains(TablePermission::EditRecords));
    assert!(perms.contains(TablePermission::ViewRecords));
    perms.toggle(TablePermission::Archive);
    assert!(perms.contains(TablePermission::Archive));
    perms.toggle(TablePermission::Archive);
    assert!(!perms.contains(TablePermission::Archive));
    assert!(!perms.is_all());
    assert!(TablePermissions::all().is_all());
    assert_eq!(TablePermissions::all().bits(), (1 << 19) - 1);
}

#[test]
fn other_masks_all_and_from_bits() {
    assert_eq!(WorkspacePermissions::all().bits(), 0x7f);
    assert_eq!(WorkspaceUsersPermissions::all().bits(), 0x7f);
    assert_eq!(BasePermissions::all().bits(), 0x3f);
    assert_eq!(FieldPermissions::all().bits(), 0xf);
    assert_eq!(RecordPermissions::all().bits(), 0x1f);
    let m = BasePermissions::from_bits(0b101);
    assert!(m.contains(BasePermission::View));
    assert!(!m.contains(BasePermission::Edit));
    assert!(m.contains(BasePermission::Delete));
    let f = FieldPermissions::from_bits(0xf);
    assert!(f.is_all());
    let mut w = WorkspacePermissions::none();
    w.set(WorkspacePermission::ManageUsers);
    assert_eq!(w.bits(), 8);
    let mut r = RecordPermissions::all();
    r.unset(RecordPermission::Delete);
    assert_eq!(r.bits(), 0x1b);
    let mut u = WorkspaceUsersPermissions::none();
    u.toggle(WorkspaceUsersPermission::Invite);
    assert!(u.contains(WorkspaceUsersPermission::Invite));
}
