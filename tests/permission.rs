use hadoop::permission::{FsAction, FsCreateModes, FsPermission, UmaskParser};
use hadoop::conf::Configuration;

#[test]
fn test_fs_action() {
    // implies
    FsAction::values()
        .iter()
        .for_each(|a| assert!(FsAction::All.implies(Some(a))));
    FsAction::values().iter().for_each(|a| {
        assert!(if *a == FsAction::NoAccess {
            FsAction::NoAccess.implies(Some(a))
        } else {
            !FsAction::NoAccess.implies(Some(a))
        });
    });
    FsAction::values().iter().for_each(|a| {
        assert!(if *a == FsAction::ReadExecute
            || *a == FsAction::Read
            || *a == FsAction::Execute
            || *a == FsAction::NoAccess
        {
            FsAction::ReadExecute.implies(Some(a))
        } else {
            !FsAction::ReadExecute.implies(Some(a))
        });
    });

    // masks
    assert!(FsAction::Execute == FsAction::Execute.and(&FsAction::ReadExecute));
    assert!(FsAction::Read == FsAction::Read.and(&FsAction::ReadExecute));
    assert!(FsAction::NoAccess == FsAction::Write.and(&FsAction::ReadExecute));

    assert!(FsAction::Read == FsAction::ReadExecute.and(&FsAction::ReadWrite));
    assert!(FsAction::NoAccess == FsAction::ReadExecute.and(&FsAction::Write));
    assert!(FsAction::WriteExecute == FsAction::All.and(&FsAction::WriteExecute));
}

#[test]
fn fs_action_implies_nothing_of_none() {
    assert!(!FsAction::All.implies(None));
}

#[test]
fn fs_action_or_not_ordinal() {
    assert_eq!(FsAction::Read.or(&FsAction::Write), FsAction::ReadWrite);
    assert_eq!(FsAction::Execute.or(&FsAction::NoAccess), FsAction::Execute);
    assert_eq!(FsAction::ReadExecute.not(), FsAction::Write);
    assert_eq!(FsAction::All.not(), FsAction::NoAccess);
    assert_eq!(FsAction::WriteExecute.ordinal(), 3);
    let values = FsAction::values();
    assert_eq!(values.len(), 8);
    for (i, a) in values.iter().enumerate() {
        assert_eq!(a.ordinal(), i);
    }
}

#[test]
fn fs_action_symbols() {
    assert_eq!(FsAction::NoAccess.symbol(), "---");
    assert_eq!(FsAction::ReadExecute.symbol(), "r-x");
    assert_eq!(FsAction::All.symbol(), "rwx");
    assert_eq!(FsAction::get_fs_action("rw-"), Some(FsAction::ReadWrite));
    assert_eq!(FsAction::get_fs_action("--x"), Some(FsAction::Execute));
    assert_eq!(FsAction::get_fs_action("rwz"), None);
    assert_eq!(FsAction::get_fs_action(""), None);
}

#[test]
fn fs_permission_short_round_trip() {
    let p = FsPermission::from_short(0o1755);
    assert_eq!(p.useraction, FsAction::All);
    assert_eq!(p.groupaction, FsAction::ReadExecute);
    assert_eq!(p.otheraction, FsAction::ReadExecute);
    assert!(p.sticky_bit);
    assert_eq!(p.to_short(), 0o1755);
    // only the low ten bits count
    assert_eq!(FsPermission::from_short(-1).to_short(), 0o1777);
    let mut q = FsPermission::get_file_default();
    assert_eq!(q.to_short(), 0o666);
    q.update_short(0o640);
    assert_eq!(q.to_short(), 0o640);
    assert_eq!(FsPermission::get_dir_default().to_short(), 0o777);
}

#[test]
fn fs_permission_apply_umask() {
    let mode = FsPermission::from_short(0o1777);
    let umask = FsPermission::from_short(0o022);
    let masked = mode.apply_umask(&umask);
    assert_eq!(masked.to_short(), 0o755);
    assert!(!masked.sticky_bit);
    let modes = FsCreateModes::apply_umask(&FsPermission::get_file_default(), &FsPermission::from_short(0o077));
    assert_eq!(modes.get_masked().to_short(), 0o600);
    assert_eq!(modes.get_unmasked().to_short(), 0o666);
    assert_eq!(FsPermission::from_short(0o751).to_proto().perm, 0o751);
}

#[test]
fn umask_defaults_to_022() {
    assert_eq!(UmaskParser::new("077").get_umask(), 0o22);
    let mut conf = Configuration::new();
    assert_eq!(FsPermission::get_umask(Some(&conf)).to_short(), 0o22);
    conf.set("fs.permissions.umask-mode", "077");
    assert_eq!(FsPermission::get_umask(Some(&conf)).to_short(), 0o22);
    assert_eq!(FsPermission::get_umask(None).to_short(), 0o22);
}
