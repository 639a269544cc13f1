use ff::mount::{
    apply_mount_option, msflags_from_mount_opts, parse_mount_options, MountFlags, MountOptError,
};
use nix::mount::MsFlags;

fn flags(f: MsFlags) -> MountFlags {
    MountFlags::from_bits_retain(f.bits())
}

#[test]
pub fn test_parse_msflags() {
    assert_eq!(
        msflags_from_mount_opts("").unwrap(),
        (flags(MsFlags::empty()), vec![])
    );
    assert_eq!(
        msflags_from_mount_opts("sync,silent").unwrap(),
        (
            flags(MsFlags::empty() | MsFlags::MS_SILENT | MsFlags::MS_SYNCHRONOUS),
            vec![]
        )
    );
    assert_eq!(
        msflags_from_mount_opts("sync,silent,data=journal").unwrap(),
        (
            flags(MsFlags::empty() | MsFlags::MS_SILENT | MsFlags::MS_SYNCHRONOUS),
            vec!["data=journal".to_string()]
        )
    );
    assert_eq!(
        msflags_from_mount_opts("sync,silent,data=journal,bigalloc").unwrap(),
        (
            flags(MsFlags::empty() | MsFlags::MS_SILENT | MsFlags::MS_SYNCHRONOUS),
            vec!["data=journal".to_string(), "bigalloc".to_string()]
        )
    );
}

#[test]
fn flag_values_are_the_kernel_ones() {
    let pairs = [
        (MountFlags::MS_RDONLY, MsFlags::MS_RDONLY),
        (MountFlags::MS_NOSUID, MsFlags::MS_NOSUID),
        (MountFlags::MS_NODEV, MsFlags::MS_NODEV),
        (MountFlags::MS_NOEXEC, MsFlags::MS_NOEXEC),
        (MountFlags::MS_SYNCHRONOUS, MsFlags::MS_SYNCHRONOUS),
        (MountFlags::MS_REMOUNT, MsFlags::MS_REMOUNT),
        (MountFlags::MS_MANDLOCK, MsFlags::MS_MANDLOCK),
        (MountFlags::MS_DIRSYNC, MsFlags::MS_DIRSYNC),
        (MountFlags::MS_NOATIME, MsFlags::MS_NOATIME),
        (MountFlags::MS_NODIRATIME, MsFlags::MS_NODIRATIME),
        (MountFlags::MS_BIND, MsFlags::MS_BIND),
        (MountFlags::MS_MOVE, MsFlags::MS_MOVE),
        (MountFlags::MS_REC, MsFlags::MS_REC),
        (MountFlags::MS_SILENT, MsFlags::MS_SILENT),
        (MountFlags::MS_POSIXACL, MsFlags::MS_POSIXACL),
        (MountFlags::MS_UNBINDABLE, MsFlags::MS_UNBINDABLE),
        (MountFlags::MS_SLAVE, MsFlags::MS_SLAVE),
        (MountFlags::MS_RELATIME, MsFlags::MS_RELATIME),
        (MountFlags::MS_I_VERSION, MsFlags::MS_I_VERSION),
        (MountFlags::MS_STRICTATIME, MsFlags::MS_STRICTATIME),
        (MountFlags::MS_LAZYTIME, MsFlags::MS_LAZYTIME),
    ];
    for (ours, nix) in pairs {
        assert_eq!(ours, nix.bits());
    }
}

#[test]
fn options_are_trimmed_and_lowercased() {
    let (f, data) = parse_mount_options(" RO , NoAtime ,Data=Ordered", false).unwrap();
    assert_eq!(f.bits(), MountFlags::MS_RDONLY | MountFlags::MS_NOATIME);
    assert_eq!(data, vec!["data=ordered".to_string()]);
}

#[test]
fn later_options_override_earlier_ones() {
    let (f, _) = parse_mount_options("ro,rw,nosuid,rbind", false).unwrap();
    assert_eq!(
        f.bits(),
        MountFlags::MS_NOSUID | MountFlags::MS_BIND | MountFlags::MS_REC
    );
    let (f, _) = parse_mount_options("ro,sync,noexec,defaults", false).unwrap();
    assert_eq!(f.bits(), MountFlags::MS_RELATIME);
    assert!(f.contains(MountFlags::MS_RELATIME));
    assert!(!f.contains(MountFlags::MS_RDONLY));
}

#[test]
fn empty_options_are_refused() {
    assert_eq!(parse_mount_options("ro,,sync", false), Err(MountOptError::EmptyOption));
    assert_eq!(parse_mount_options("ro,", false), Err(MountOptError::EmptyOption));
    assert_eq!(parse_mount_options(" ", false), Err(MountOptError::EmptyOption));
}

#[test]
fn mand_depends_on_the_kernel() {
    assert_eq!(parse_mount_options("mand", true), Err(MountOptError::MandRemoved));
    let (f, data) = parse_mount_options("mand,nomand,mand", false).unwrap();
    assert_eq!(f.bits(), MountFlags::MS_MANDLOCK);
    assert!(data.is_empty());
    let (f, _) = parse_mount_options("mand,nomand", false).unwrap();
    assert_eq!(f, MountFlags::empty());
}

#[test]
fn one_option_at_a_time() {
    assert_eq!(
        apply_mount_option(MountFlags::MS_RDONLY, vec![], "rw".to_string(), false),
        Ok((0, vec![]))
    );
    assert_eq!(
        apply_mount_option(0, vec!["a=1".to_string()], "bigalloc".to_string(), false),
        Ok((0, vec!["a=1".to_string(), "bigalloc".to_string()]))
    );
    assert_eq!(
        apply_mount_option(0, vec![], "ro=1".to_string(), false),
        Ok((0, vec!["ro=1".to_string()]))
    );
    assert_eq!(
        apply_mount_option(0, vec![], String::new(), false),
        Err(MountOptError::EmptyOption)
    );
    assert_eq!(
        apply_mount_option(0, vec![], "mand".to_string(), true),
        Err(MountOptError::MandRemoved)
    );
}

#[test]
fn unicode_white_space_is_trimmed() {
    let (f, _) = parse_mount_options("\u{3000}ro\u{a0},\tsync\n", false).unwrap();
    assert_eq!(f.bits(), MountFlags::MS_RDONLY | MountFlags::MS_SYNCHRONOUS);
}
