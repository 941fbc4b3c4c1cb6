//! What a failed native call is reported as.

use vstd::prelude::*;
use vstd::std_specs::cmp::PartialEqSpecImpl;
use vstd::std_specs::convert::FromSpecImpl;
use vstd::string::StringExecFns;

verus! {

/// Code in the library's error slot, under its native name. The last one,
/// `EZFS_UNKNOWN`, is the library's word for a failure that is not its own.
#[allow(non_camel_case_types)]
#[derive(Debug, Copy, Clone, PartialEq, Eq, Structural)]
pub enum ZfsErrorCode {
    /// No error.
    EZFS_SUCCESS,
    /// Out of memory.
    EZFS_NOMEM,
    /// Invalid property value.
    EZFS_BADPROP,
    /// Cannot set readonly property.
    EZFS_PROPREADONLY,
    /// Property does not apply to dataset type.
    EZFS_PROPTYPE,
    /// Property is not inheritable.
    EZFS_PROPNONINHERIT,
    /// Bad quota or reservation.
    EZFS_PROPSPACE,
    /// Dataset is not of appropriate type.
    EZFS_BADTYPE,
    /// Pool or dataset is busy.
    EZFS_BUSY,
    /// Pool or dataset already exists.
    EZFS_EXISTS,
    /// No such pool or dataset.
    EZFS_NOENT,
    /// Bad backup stream.
    EZFS_BADSTREAM,
    /// Dataset is readonly.
    EZFS_DSREADONLY,
    /// Volume is too large for a 32-bit system.
    EZFS_VOLTOOBIG,
    /// Invalid dataset name.
    EZFS_INVALIDNAME,
    /// Unable to restore to destination.
    EZFS_BADRESTORE,
    /// Backup failed.
    EZFS_BADBACKUP,
    /// Bad attach, detach or replace target.
    EZFS_BADTARGET,
    /// No such device in pool.
    EZFS_NODEVICE,
    /// Invalid device to add.
    EZFS_BADDEV,
    /// No valid replicas.
    EZFS_NOREPLICAS,
    /// Resilvering.
    EZFS_RESILVERING,
    /// Unsupported version.
    EZFS_BADVERSION,
    /// Pool is currently unavailable.
    EZFS_POOLUNAVAIL,
    /// Too many devices in one vdev.
    EZFS_DEVOVERFLOW,
    /// Must be an absolute path.
    EZFS_BADPATH,
    /// Rename or clone across pool or dataset.
    EZFS_CROSSTARGET,
    /// Used improperly in local zone.
    EZFS_ZONED,
    /// Failed to mount dataset.
    EZFS_MOUNTFAILED,
    /// Failed to unmount dataset.
    EZFS_UMOUNTFAILED,
    /// Failed to unshare over nfs.
    EZFS_UNSHARENFSFAILED,
    /// Failed to share over nfs.
    EZFS_SHARENFSFAILED,
    /// Permission denied.
    EZFS_PERM,
    /// Out of space.
    EZFS_NOSPC,
    /// Bad address.
    EZFS_FAULT,
    /// I/O error.
    EZFS_IO,
    /// Signal received.
    EZFS_INTR,
    /// Device is a hot spare.
    EZFS_ISSPARE,
    /// Invalid vdev configuration.
    EZFS_INVALCONFIG,
    /// Recursive dependency.
    EZFS_RECURSIVE,
    /// No history object.
    EZFS_NOHISTORY,
    /// Could not retrieve pool properties.
    EZFS_POOLPROPS,
    /// Operation not supported for this type of pool.
    EZFS_POOL_NOTSUP,
    /// Invalid argument for this pool operation.
    EZFS_POOL_INVALARG,
    /// Dataset name is too long.
    EZFS_NAMETOOLONG,
    /// Open of device failed.
    EZFS_OPENFAILED,
    /// Could not get capacity.
    EZFS_NOCAP,
    /// Write of label failed.
    EZFS_LABELFAILED,
    /// Invalid permission who.
    EZFS_BADWHO,
    /// Invalid permission.
    EZFS_BADPERM,
    /// Invalid permission set name.
    EZFS_BADPERMSET,
    /// Delegated administration is disabled.
    EZFS_NODELEGATION,
    /// Failed to unshare over smb.
    EZFS_UNSHARESMBFAILED,
    /// Failed to share over smb.
    EZFS_SHARESMBFAILED,
    /// Bad cache file.
    EZFS_BADCACHE,
    /// Device is for the level 2 cache.
    EZFS_ISL2CACHE,
    /// Unsupported vdev type.
    EZFS_VDEVNOTSUP,
    /// Operation not supported on this dataset.
    EZFS_NOTSUP,
    /// Pool has active shared spare devices.
    EZFS_ACTIVE_SPARE,
    /// Log device has unplayed logs.
    EZFS_UNPLAYED_LOGS,
    /// Snapshot release, tag not found.
    EZFS_REFTAG_RELE,
    /// Snapshot hold, tag already exists.
    EZFS_REFTAG_HOLD,
    /// Snapshot hold or release, tag too long.
    EZFS_TAGTOOLONG,
    /// Pipe create failed.
    EZFS_PIPEFAILED,
    /// Thread create failed.
    EZFS_THREADCREATEFAILED,
    /// Onlining a disk after splitting it.
    EZFS_POSTSPLIT_ONLINE,
    /// Currently scrubbing.
    EZFS_SCRUBBING,
    /// No active scrub.
    EZFS_NO_SCRUB,
    /// General failure of diff.
    EZFS_DIFF,
    /// Bad diff data.
    EZFS_DIFFDATA,
    /// Pool is in read-only mode.
    EZFS_POOLREADONLY,
    /// Scrub currently paused.
    EZFS_SCRUB_PAUSED,
    /// Pool is imported on a different system.
    EZFS_ACTIVE_POOL,
    /// Failed to set up encryption.
    EZFS_CRYPTOFAILED,
    /// Cannot cancel, no operation is pending.
    EZFS_NO_PENDING,
    /// Checkpoint exists.
    EZFS_CHECKPOINT_EXISTS,
    /// Currently discarding a checkpoint.
    EZFS_DISCARDING_CHECKPOINT,
    /// Pool has no checkpoint.
    EZFS_NO_CHECKPOINT,
    /// A device is currently being removed.
    EZFS_DEVRM_IN_PROGRESS,
    /// A device is too big to be used.
    EZFS_VDEV_TOO_BIG,
    /// Operation not supported by the module.
    EZFS_IOC_NOTSUPPORTED,
    /// Argument list too long.
    EZFS_TOOMANY,
    /// Currently initializing.
    EZFS_INITIALIZING,
    /// No active initialize.
    EZFS_NO_INITIALIZE,
    /// Invalid parent dataset.
    EZFS_WRONG_PARENT,
    /// Currently trimming.
    EZFS_TRIMMING,
    /// No active trim.
    EZFS_NO_TRIM,
    /// Device does not support trim.
    EZFS_TRIM_NOTSUP,
    /// Pool does not support deferred resilver.
    EZFS_NO_RESILVER_DEFER,
    /// Currently exporting the pool.
    EZFS_EXPORT_IN_PROGRESS,
    /// Resilvering by sequential reconstruction.
    EZFS_REBUILDING,
    /// A failure that is not the library's own.
    EZFS_UNKNOWN,
}

impl ZfsErrorCode {
    /// The native number of this code.
    pub open spec fn raw(self) -> i32 {
        match self {
            ZfsErrorCode::EZFS_SUCCESS => 0,
            ZfsErrorCode::EZFS_NOMEM => 2000,
            ZfsErrorCode::EZFS_BADPROP => 2001,
            ZfsErrorCode::EZFS_PROPREADONLY => 2002,
            ZfsErrorCode::EZFS_PROPTYPE => 2003,
            ZfsErrorCode::EZFS_PROPNONINHERIT => 2004,
            ZfsErrorCode::EZFS_PROPSPACE => 2005,
            ZfsErrorCode::EZFS_BADTYPE => 2006,
            ZfsErrorCode::EZFS_BUSY => 2007,
            ZfsErrorCode::EZFS_EXISTS => 2008,
            ZfsErrorCode::EZFS_NOENT => 2009,
            ZfsErrorCode::EZFS_BADSTREAM => 2010,
            ZfsErrorCode::EZFS_DSREADONLY => 2011,
            ZfsErrorCode::EZFS_VOLTOOBIG => 2012,
            ZfsErrorCode::EZFS_INVALIDNAME => 2013,
            ZfsErrorCode::EZFS_BADRESTORE => 2014,
            ZfsErrorCode::EZFS_BADBACKUP => 2015,
            ZfsErrorCode::EZFS_BADTARGET => 2016,
            ZfsErrorCode::EZFS_NODEVICE => 2017,
            ZfsErrorCode::EZFS_BADDEV => 2018,
            ZfsErrorCode::EZFS_NOREPLICAS => 2019,
            ZfsErrorCode::EZFS_RESILVERING => 2020,
            ZfsErrorCode::EZFS_BADVERSION => 2021,
            ZfsErrorCode::EZFS_POOLUNAVAIL => 2022,
            ZfsErrorCode::EZFS_DEVOVERFLOW => 2023,
            ZfsErrorCode::EZFS_BADPATH => 2024,
            ZfsErrorCode::EZFS_CROSSTARGET => 2025,
            ZfsErrorCode::EZFS_ZONED => 2026,
            ZfsErrorCode::EZFS_MOUNTFAILED => 2027,
            ZfsErrorCode::EZFS_UMOUNTFAILED => 2028,
            ZfsErrorCode::EZFS_UNSHARENFSFAILED => 2029,
            ZfsErrorCode::EZFS_SHARENFSFAILED => 2030,
            ZfsErrorCode::EZFS_PERM => 2031,
            ZfsErrorCode::EZFS_NOSPC => 2032,
            ZfsErrorCode::EZFS_FAULT => 2033,
            ZfsErrorCode::EZFS_IO => 2034,
            ZfsErrorCode::EZFS_INTR => 2035,
            ZfsErrorCode::EZFS_ISSPARE => 2036,
            ZfsErrorCode::EZFS_INVALCONFIG => 2037,
            ZfsErrorCode::EZFS_RECURSIVE => 2038,
            ZfsErrorCode::EZFS_NOHISTORY => 2039,
            ZfsErrorCode::EZFS_POOLPROPS => 2040,
            ZfsErrorCode::EZFS_POOL_NOTSUP => 2041,
            ZfsErrorCode::EZFS_POOL_INVALARG => 2042,
            ZfsErrorCode::EZFS_NAMETOOLONG => 2043,
            ZfsErrorCode::EZFS_OPENFAILED => 2044,
            ZfsErrorCode::EZFS_NOCAP => 2045,
            ZfsErrorCode::EZFS_LABELFAILED => 2046,
            ZfsErrorCode::EZFS_BADWHO => 2047,
            ZfsErrorCode::EZFS_BADPERM => 2048,
            ZfsErrorCode::EZFS_BADPERMSET => 2049,
            ZfsErrorCode::EZFS_NODELEGATION => 2050,
            ZfsErrorCode::EZFS_UNSHARESMBFAILED => 2051,
            ZfsErrorCode::EZFS_SHARESMBFAILED => 2052,
            ZfsErrorCode::EZFS_BADCACHE => 2053,
            ZfsErrorCode::EZFS_ISL2CACHE => 2054,
            ZfsErrorCode::EZFS_VDEVNOTSUP => 2055,
            ZfsErrorCode::EZFS_NOTSUP => 2056,
            ZfsErrorCode::EZFS_ACTIVE_SPARE => 2057,
            ZfsErrorCode::EZFS_UNPLAYED_LOGS => 2058,
            ZfsErrorCode::EZFS_REFTAG_RELE => 2059,
            ZfsErrorCode::EZFS_REFTAG_HOLD => 2060,
            ZfsErrorCode::EZFS_TAGTOOLONG => 2061,
            ZfsErrorCode::EZFS_PIPEFAILED => 2062,
            ZfsErrorCode::EZFS_THREADCREATEFAILED => 2063,
            ZfsErrorCode::EZFS_POSTSPLIT_ONLINE => 2064,
            ZfsErrorCode::EZFS_SCRUBBING => 2065,
            ZfsErrorCode::EZFS_NO_SCRUB => 2066,
            ZfsErrorCode::EZFS_DIFF => 2067,
            ZfsErrorCode::EZFS_DIFFDATA => 2068,
            ZfsErrorCode::EZFS_POOLREADONLY => 2069,
            ZfsErrorCode::EZFS_SCRUB_PAUSED => 2070,
            ZfsErrorCode::EZFS_ACTIVE_POOL => 2071,
            ZfsErrorCode::EZFS_CRYPTOFAILED => 2072,
            ZfsErrorCode::EZFS_NO_PENDING => 2073,
            ZfsErrorCode::EZFS_CHECKPOINT_EXISTS => 2074,
            ZfsErrorCode::EZFS_DISCARDING_CHECKPOINT => 2075,
            ZfsErrorCode::EZFS_NO_CHECKPOINT => 2076,
            ZfsErrorCode::EZFS_DEVRM_IN_PROGRESS => 2077,
            ZfsErrorCode::EZFS_VDEV_TOO_BIG => 2078,
            ZfsErrorCode::EZFS_IOC_NOTSUPPORTED => 2079,
            ZfsErrorCode::EZFS_TOOMANY => 2080,
            ZfsErrorCode::EZFS_INITIALIZING => 2081,
            ZfsErrorCode::EZFS_NO_INITIALIZE => 2082,
            ZfsErrorCode::EZFS_WRONG_PARENT => 2083,
            ZfsErrorCode::EZFS_TRIMMING => 2084,
            ZfsErrorCode::EZFS_NO_TRIM => 2085,
            ZfsErrorCode::EZFS_TRIM_NOTSUP => 2086,
            ZfsErrorCode::EZFS_NO_RESILVER_DEFER => 2087,
            ZfsErrorCode::EZFS_EXPORT_IN_PROGRESS => 2088,
            ZfsErrorCode::EZFS_REBUILDING => 2089,
            ZfsErrorCode::EZFS_UNKNOWN => 2090,
        }
    }

    /// The code that a native number stands for, if it stands for one.
    pub open spec fn of_raw(raw: i32) -> Option<ZfsErrorCode> {
        if exists|code: ZfsErrorCode| code.raw() == raw {
            Some(choose|code: ZfsErrorCode| code.raw() == raw)
        } else {
            None
        }
    }

    /// The native name of this code, as it is written in a message.
    pub open spec fn text(self) -> Seq<char> {
        match self {
            ZfsErrorCode::EZFS_SUCCESS => "EZFS_SUCCESS"@,
            ZfsErrorCode::EZFS_NOMEM => "EZFS_NOMEM"@,
            ZfsErrorCode::EZFS_BADPROP => "EZFS_BADPROP"@,
            ZfsErrorCode::EZFS_PROPREADONLY => "EZFS_PROPREADONLY"@,
            ZfsErrorCode::EZFS_PROPTYPE => "EZFS_PROPTYPE"@,
            ZfsErrorCode::EZFS_PROPNONINHERIT => "EZFS_PROPNONINHERIT"@,
            ZfsErrorCode::EZFS_PROPSPACE => "EZFS_PROPSPACE"@,
            ZfsErrorCode::EZFS_BADTYPE => "EZFS_BADTYPE"@,
            ZfsErrorCode::EZFS_BUSY => "EZFS_BUSY"@,
            ZfsErrorCode::EZFS_EXISTS => "EZFS_EXISTS"@,
            ZfsErrorCode::EZFS_NOENT => "EZFS_NOENT"@,
            ZfsErrorCode::EZFS_BADSTREAM => "EZFS_BADSTREAM"@,
            ZfsErrorCode::EZFS_DSREADONLY => "EZFS_DSREADONLY"@,
            ZfsErrorCode::EZFS_VOLTOOBIG => "EZFS_VOLTOOBIG"@,
            ZfsErrorCode::EZFS_INVALIDNAME => "EZFS_INVALIDNAME"@,
            ZfsErrorCode::EZFS_BADRESTORE => "EZFS_BADRESTORE"@,
            ZfsErrorCode::EZFS_BADBACKUP => "EZFS_BADBACKUP"@,
            ZfsErrorCode::EZFS_BADTARGET => "EZFS_BADTARGET"@,
            ZfsErrorCode::EZFS_NODEVICE => "EZFS_NODEVICE"@,
            ZfsErrorCode::EZFS_BADDEV => "EZFS_BADDEV"@,
            ZfsErrorCode::EZFS_NOREPLICAS => "EZFS_NOREPLICAS"@,
            ZfsErrorCode::EZFS_RESILVERING => "EZFS_RESILVERING"@,
            ZfsErrorCode::EZFS_BADVERSION => "EZFS_BADVERSION"@,
            ZfsErrorCode::EZFS_POOLUNAVAIL => "EZFS_POOLUNAVAIL"@,
            ZfsErrorCode::EZFS_DEVOVERFLOW => "EZFS_DEVOVERFLOW"@,
            ZfsErrorCode::EZFS_BADPATH => "EZFS_BADPATH"@,
            ZfsErrorCode::EZFS_CROSSTARGET => "EZFS_CROSSTARGET"@,
            ZfsErrorCode::EZFS_ZONED => "EZFS_ZONED"@,
            ZfsErrorCode::EZFS_MOUNTFAILED => "EZFS_MOUNTFAILED"@,
            ZfsErrorCode::EZFS_UMOUNTFAILED => "EZFS_UMOUNTFAILED"@,
            ZfsErrorCode::EZFS_UNSHARENFSFAILED => "EZFS_UNSHARENFSFAILED"@,
            ZfsErrorCode::EZFS_SHARENFSFAILED => "EZFS_SHARENFSFAILED"@,
            ZfsErrorCode::EZFS_PERM => "EZFS_PERM"@,
            ZfsErrorCode::EZFS_NOSPC => "EZFS_NOSPC"@,
            ZfsErrorCode::EZFS_FAULT => "EZFS_FAULT"@,
            ZfsErrorCode::EZFS_IO => "EZFS_IO"@,
            ZfsErrorCode::EZFS_INTR => "EZFS_INTR"@,
            ZfsErrorCode::EZFS_ISSPARE => "EZFS_ISSPARE"@,
            ZfsErrorCode::EZFS_INVALCONFIG => "EZFS_INVALCONFIG"@,
            ZfsErrorCode::EZFS_RECURSIVE => "EZFS_RECURSIVE"@,
            ZfsErrorCode::EZFS_NOHISTORY => "EZFS_NOHISTORY"@,
            ZfsErrorCode::EZFS_POOLPROPS => "EZFS_POOLPROPS"@,
            ZfsErrorCode::EZFS_POOL_NOTSUP => "EZFS_POOL_NOTSUP"@,
            ZfsErrorCode::EZFS_POOL_INVALARG => "EZFS_POOL_INVALARG"@,
            ZfsErrorCode::EZFS_NAMETOOLONG => "EZFS_NAMETOOLONG"@,
            ZfsErrorCode::EZFS_OPENFAILED => "EZFS_OPENFAILED"@,
            ZfsErrorCode::EZFS_NOCAP => "EZFS_NOCAP"@,
            ZfsErrorCode::EZFS_LABELFAILED => "EZFS_LABELFAILED"@,
            ZfsErrorCode::EZFS_BADWHO => "EZFS_BADWHO"@,
            ZfsErrorCode::EZFS_BADPERM => "EZFS_BADPERM"@,
            ZfsErrorCode::EZFS_BADPERMSET => "EZFS_BADPERMSET"@,
            ZfsErrorCode::EZFS_NODELEGATION => "EZFS_NODELEGATION"@,
            ZfsErrorCode::EZFS_UNSHARESMBFAILED => "EZFS_UNSHARESMBFAILED"@,
            ZfsErrorCode::EZFS_SHARESMBFAILED => "EZFS_SHARESMBFAILED"@,
            ZfsErrorCode::EZFS_BADCACHE => "EZFS_BADCACHE"@,
            ZfsErrorCode::EZFS_ISL2CACHE => "EZFS_ISL2CACHE"@,
            ZfsErrorCode::EZFS_VDEVNOTSUP => "EZFS_VDEVNOTSUP"@,
            ZfsErrorCode::EZFS_NOTSUP => "EZFS_NOTSUP"@,
            ZfsErrorCode::EZFS_ACTIVE_SPARE => "EZFS_ACTIVE_SPARE"@,
            ZfsErrorCode::EZFS_UNPLAYED_LOGS => "EZFS_UNPLAYED_LOGS"@,
            ZfsErrorCode::EZFS_REFTAG_RELE => "EZFS_REFTAG_RELE"@,
            ZfsErrorCode::EZFS_REFTAG_HOLD => "EZFS_REFTAG_HOLD"@,
            ZfsErrorCode::EZFS_TAGTOOLONG => "EZFS_TAGTOOLONG"@,
            ZfsErrorCode::EZFS_PIPEFAILED => "EZFS_PIPEFAILED"@,
            ZfsErrorCode::EZFS_THREADCREATEFAILED => "EZFS_THREADCREATEFAILED"@,
            ZfsErrorCode::EZFS_POSTSPLIT_ONLINE => "EZFS_POSTSPLIT_ONLINE"@,
            ZfsErrorCode::EZFS_SCRUBBING => "EZFS_SCRUBBING"@,
            ZfsErrorCode::EZFS_NO_SCRUB => "EZFS_NO_SCRUB"@,
            ZfsErrorCode::EZFS_DIFF => "EZFS_DIFF"@,
            ZfsErrorCode::EZFS_DIFFDATA => "EZFS_DIFFDATA"@,
            ZfsErrorCode::EZFS_POOLREADONLY => "EZFS_POOLREADONLY"@,
            ZfsErrorCode::EZFS_SCRUB_PAUSED => "EZFS_SCRUB_PAUSED"@,
            ZfsErrorCode::EZFS_ACTIVE_POOL => "EZFS_ACTIVE_POOL"@,
            ZfsErrorCode::EZFS_CRYPTOFAILED => "EZFS_CRYPTOFAILED"@,
            ZfsErrorCode::EZFS_NO_PENDING => "EZFS_NO_PENDING"@,
            ZfsErrorCode::EZFS_CHECKPOINT_EXISTS => "EZFS_CHECKPOINT_EXISTS"@,
            ZfsErrorCode::EZFS_DISCARDING_CHECKPOINT => "EZFS_DISCARDING_CHECKPOINT"@,
            ZfsErrorCode::EZFS_NO_CHECKPOINT => "EZFS_NO_CHECKPOINT"@,
            ZfsErrorCode::EZFS_DEVRM_IN_PROGRESS => "EZFS_DEVRM_IN_PROGRESS"@,
            ZfsErrorCode::EZFS_VDEV_TOO_BIG => "EZFS_VDEV_TOO_BIG"@,
            ZfsErrorCode::EZFS_IOC_NOTSUPPORTED => "EZFS_IOC_NOTSUPPORTED"@,
            ZfsErrorCode::EZFS_TOOMANY => "EZFS_TOOMANY"@,
            ZfsErrorCode::EZFS_INITIALIZING => "EZFS_INITIALIZING"@,
            ZfsErrorCode::EZFS_NO_INITIALIZE => "EZFS_NO_INITIALIZE"@,
            ZfsErrorCode::EZFS_WRONG_PARENT => "EZFS_WRONG_PARENT"@,
            ZfsErrorCode::EZFS_TRIMMING => "EZFS_TRIMMING"@,
            ZfsErrorCode::EZFS_NO_TRIM => "EZFS_NO_TRIM"@,
            ZfsErrorCode::EZFS_TRIM_NOTSUP => "EZFS_TRIM_NOTSUP"@,
            ZfsErrorCode::EZFS_NO_RESILVER_DEFER => "EZFS_NO_RESILVER_DEFER"@,
            ZfsErrorCode::EZFS_EXPORT_IN_PROGRESS => "EZFS_EXPORT_IN_PROGRESS"@,
            ZfsErrorCode::EZFS_REBUILDING => "EZFS_REBUILDING"@,
            ZfsErrorCode::EZFS_UNKNOWN => "EZFS_UNKNOWN"@,
        }
    }

    /// Reads a native number; `None` for a number outside the native enumeration.
    pub fn from_raw(raw: i32) -> (code: Option<ZfsErrorCode>)
        ensures
            code == Self::of_raw(raw),
            code matches Some(c) ==> c.raw() == raw,
            code is None ==> forall|c: ZfsErrorCode| c.raw() != raw,
    {
        let code = match raw {
            0 => Some(ZfsErrorCode::EZFS_SUCCESS),
            2000 => Some(ZfsErrorCode::EZFS_NOMEM),
            2001 => Some(ZfsErrorCode::EZFS_BADPROP),
            2002 => Some(ZfsErrorCode::EZFS_PROPREADONLY),
            2003 => Some(ZfsErrorCode::EZFS_PROPTYPE),
            2004 => Some(ZfsErrorCode::EZFS_PROPNONINHERIT),
            2005 => Some(ZfsErrorCode::EZFS_PROPSPACE),
            2006 => Some(ZfsErrorCode::EZFS_BADTYPE),
            2007 => Some(ZfsErrorCode::EZFS_BUSY),
            2008 => Some(ZfsErrorCode::EZFS_EXISTS),
            2009 => Some(ZfsErrorCode::EZFS_NOENT),
            2010 => Some(ZfsErrorCode::EZFS_BADSTREAM),
            2011 => Some(ZfsErrorCode::EZFS_DSREADONLY),
            2012 => Some(ZfsErrorCode::EZFS_VOLTOOBIG),
            2013 => Some(ZfsErrorCode::EZFS_INVALIDNAME),
            2014 => Some(ZfsErrorCode::EZFS_BADRESTORE),
            2015 => Some(ZfsErrorCode::EZFS_BADBACKUP),
            2016 => Some(ZfsErrorCode::EZFS_BADTARGET),
            2017 => Some(ZfsErrorCode::EZFS_NODEVICE),
            2018 => Some(ZfsErrorCode::EZFS_BADDEV),
            2019 => Some(ZfsErrorCode::EZFS_NOREPLICAS),
            2020 => Some(ZfsErrorCode::EZFS_RESILVERING),
            2021 => Some(ZfsErrorCode::EZFS_BADVERSION),
            2022 => Some(ZfsErrorCode::EZFS_POOLUNAVAIL),
            2023 => Some(ZfsErrorCode::EZFS_DEVOVERFLOW),
            2024 => Some(ZfsErrorCode::EZFS_BADPATH),
            2025 => Some(ZfsErrorCode::EZFS_CROSSTARGET),
            2026 => Some(ZfsErrorCode::EZFS_ZONED),
            2027 => Some(ZfsErrorCode::EZFS_MOUNTFAILED),
            2028 => Some(ZfsErrorCode::EZFS_UMOUNTFAILED),
            2029 => Some(ZfsErrorCode::EZFS_UNSHARENFSFAILED),
            2030 => Some(ZfsErrorCode::EZFS_SHARENFSFAILED),
            2031 => Some(ZfsErrorCode::EZFS_PERM),
            2032 => Some(ZfsErrorCode::EZFS_NOSPC),
            2033 => Some(ZfsErrorCode::EZFS_FAULT),
            2034 => Some(ZfsErrorCode::EZFS_IO),
            2035 => Some(ZfsErrorCode::EZFS_INTR),
            2036 => Some(ZfsErrorCode::EZFS_ISSPARE),
            2037 => Some(ZfsErrorCode::EZFS_INVALCONFIG),
            2038 => Some(ZfsErrorCode::EZFS_RECURSIVE),
            2039 => Some(ZfsErrorCode::EZFS_NOHISTORY),
            2040 => Some(ZfsErrorCode::EZFS_POOLPROPS),
            2041 => Some(ZfsErrorCode::EZFS_POOL_NOTSUP),
            2042 => Some(ZfsErrorCode::EZFS_POOL_INVALARG),
            2043 => Some(ZfsErrorCode::EZFS_NAMETOOLONG),
            2044 => Some(ZfsErrorCode::EZFS_OPENFAILED),
            2045 => Some(ZfsErrorCode::EZFS_NOCAP),
            2046 => Some(ZfsErrorCode::EZFS_LABELFAILED),
            2047 => Some(ZfsErrorCode::EZFS_BADWHO),
            2048 => Some(ZfsErrorCode::EZFS_BADPERM),
            2049 => Some(ZfsErrorCode::EZFS_BADPERMSET),
            2050 => Some(ZfsErrorCode::EZFS_NODELEGATION),
            2051 => Some(ZfsErrorCode::EZFS_UNSHARESMBFAILED),
            2052 => Some(ZfsErrorCode::EZFS_SHARESMBFAILED),
            2053 => Some(ZfsErrorCode::EZFS_BADCACHE),
            2054 => Some(ZfsErrorCode::EZFS_ISL2CACHE),
            2055 => Some(ZfsErrorCode::EZFS_VDEVNOTSUP),
            2056 => Some(ZfsErrorCode::EZFS_NOTSUP),
            2057 => Some(ZfsErrorCode::EZFS_ACTIVE_SPARE),
            2058 => Some(ZfsErrorCode::EZFS_UNPLAYED_LOGS),
            2059 => Some(ZfsErrorCode::EZFS_REFTAG_RELE),
            2060 => Some(ZfsErrorCode::EZFS_REFTAG_HOLD),
            2061 => Some(ZfsErrorCode::EZFS_TAGTOOLONG),
            2062 => Some(ZfsErrorCode::EZFS_PIPEFAILED),
            2063 => Some(ZfsErrorCode::EZFS_THREADCREATEFAILED),
            2064 => Some(ZfsErrorCode::EZFS_POSTSPLIT_ONLINE),
            2065 => Some(ZfsErrorCode::EZFS_SCRUBBING),
            2066 => Some(ZfsErrorCode::EZFS_NO_SCRUB),
            2067 => Some(ZfsErrorCode::EZFS_DIFF),
            2068 => Some(ZfsErrorCode::EZFS_DIFFDATA),
            2069 => Some(ZfsErrorCode::EZFS_POOLREADONLY),
            2070 => Some(ZfsErrorCode::EZFS_SCRUB_PAUSED),
            2071 => Some(ZfsErrorCode::EZFS_ACTIVE_POOL),
            2072 => Some(ZfsErrorCode::EZFS_CRYPTOFAILED),
            2073 => Some(ZfsErrorCode::EZFS_NO_PENDING),
            2074 => Some(ZfsErrorCode::EZFS_CHECKPOINT_EXISTS),
            2075 => Some(ZfsErrorCode::EZFS_DISCARDING_CHECKPOINT),
            2076 => Some(ZfsErrorCode::EZFS_NO_CHECKPOINT),
            2077 => Some(ZfsErrorCode::EZFS_DEVRM_IN_PROGRESS),
            2078 => Some(ZfsErrorCode::EZFS_VDEV_TOO_BIG),
            2079 => Some(ZfsErrorCode::EZFS_IOC_NOTSUPPORTED),
            2080 => Some(ZfsErrorCode::EZFS_TOOMANY),
            2081 => Some(ZfsErrorCode::EZFS_INITIALIZING),
            2082 => Some(ZfsErrorCode::EZFS_NO_INITIALIZE),
            2083 => Some(ZfsErrorCode::EZFS_WRONG_PARENT),
            2084 => Some(ZfsErrorCode::EZFS_TRIMMING),
            2085 => Some(ZfsErrorCode::EZFS_NO_TRIM),
            2086 => Some(ZfsErrorCode::EZFS_TRIM_NOTSUP),
            2087 => Some(ZfsErrorCode::EZFS_NO_RESILVER_DEFER),
            2088 => Some(ZfsErrorCode::EZFS_EXPORT_IN_PROGRESS),
            2089 => Some(ZfsErrorCode::EZFS_REBUILDING),
            2090 => Some(ZfsErrorCode::EZFS_UNKNOWN),
            _ => None,
        };
        proof {
            Self::raw_is_injective();
            if let Some(c) = code {
                assert(c.raw() == raw);
            }
        }
        code
    }

    /// The native name of this code.
    pub fn name(&self) -> (name: &'static str)
        ensures
            name@ == self.text(),
    {
        match self {
            ZfsErrorCode::EZFS_SUCCESS => "EZFS_SUCCESS",
            ZfsErrorCode::EZFS_NOMEM => "EZFS_NOMEM",
            ZfsErrorCode::EZFS_BADPROP => "EZFS_BADPROP",
            ZfsErrorCode::EZFS_PROPREADONLY => "EZFS_PROPREADONLY",
            ZfsErrorCode::EZFS_PROPTYPE => "EZFS_PROPTYPE",
            ZfsErrorCode::EZFS_PROPNONINHERIT => "EZFS_PROPNONINHERIT",
            ZfsErrorCode::EZFS_PROPSPACE => "EZFS_PROPSPACE",
            ZfsErrorCode::EZFS_BADTYPE => "EZFS_BADTYPE",
            ZfsErrorCode::EZFS_BUSY => "EZFS_BUSY",
            ZfsErrorCode::EZFS_EXISTS => "EZFS_EXISTS",
            ZfsErrorCode::EZFS_NOENT => "EZFS_NOENT",
            ZfsErrorCode::EZFS_BADSTREAM => "EZFS_BADSTREAM",
            ZfsErrorCode::EZFS_DSREADONLY => "EZFS_DSREADONLY",
            ZfsErrorCode::EZFS_VOLTOOBIG => "EZFS_VOLTOOBIG",
            ZfsErrorCode::EZFS_INVALIDNAME => "EZFS_INVALIDNAME",
            ZfsErrorCode::EZFS_BADRESTORE => "EZFS_BADRESTORE",
            ZfsErrorCode::EZFS_BADBACKUP => "EZFS_BADBACKUP",
            ZfsErrorCode::EZFS_BADTARGET => "EZFS_BADTARGET",
            ZfsErrorCode::EZFS_NODEVICE => "EZFS_NODEVICE",
            ZfsErrorCode::EZFS_BADDEV => "EZFS_BADDEV",
            ZfsErrorCode::EZFS_NOREPLICAS => "EZFS_NOREPLICAS",
            ZfsErrorCode::EZFS_RESILVERING => "EZFS_RESILVERING",
            ZfsErrorCode::EZFS_BADVERSION => "EZFS_BADVERSION",
            ZfsErrorCode::EZFS_POOLUNAVAIL => "EZFS_POOLUNAVAIL",
            ZfsErrorCode::EZFS_DEVOVERFLOW => "EZFS_DEVOVERFLOW",
            ZfsErrorCode::EZFS_BADPATH => "EZFS_BADPATH",
            ZfsErrorCode::EZFS_CROSSTARGET => "EZFS_CROSSTARGET",
            ZfsErrorCode::EZFS_ZONED => "EZFS_ZONED",
            ZfsErrorCode::EZFS_MOUNTFAILED => "EZFS_MOUNTFAILED",
            ZfsErrorCode::EZFS_UMOUNTFAILED => "EZFS_UMOUNTFAILED",
            ZfsErrorCode::EZFS_UNSHARENFSFAILED => "EZFS_UNSHARENFSFAILED",
            ZfsErrorCode::EZFS_SHARENFSFAILED => "EZFS_SHARENFSFAILED",
            ZfsErrorCode::EZFS_PERM => "EZFS_PERM",
            ZfsErrorCode::EZFS_NOSPC => "EZFS_NOSPC",
            ZfsErrorCode::EZFS_FAULT => "EZFS_FAULT",
            ZfsErrorCode::EZFS_IO => "EZFS_IO",
            ZfsErrorCode::EZFS_INTR => "EZFS_INTR",
            ZfsErrorCode::EZFS_ISSPARE => "EZFS_ISSPARE",
            ZfsErrorCode::EZFS_INVALCONFIG => "EZFS_INVALCONFIG",
            ZfsErrorCode::EZFS_RECURSIVE => "EZFS_RECURSIVE",
            ZfsErrorCode::EZFS_NOHISTORY => "EZFS_NOHISTORY",
            ZfsErrorCode::EZFS_POOLPROPS => "EZFS_POOLPROPS",
            ZfsErrorCode::EZFS_POOL_NOTSUP => "EZFS_POOL_NOTSUP",
            ZfsErrorCode::EZFS_POOL_INVALARG => "EZFS_POOL_INVALARG",
            ZfsErrorCode::EZFS_NAMETOOLONG => "EZFS_NAMETOOLONG",
            ZfsErrorCode::EZFS_OPENFAILED => "EZFS_OPENFAILED",
            ZfsErrorCode::EZFS_NOCAP => "EZFS_NOCAP",
            ZfsErrorCode::EZFS_LABELFAILED => "EZFS_LABELFAILED",
            ZfsErrorCode::EZFS_BADWHO => "EZFS_BADWHO",
            ZfsErrorCode::EZFS_BADPERM => "EZFS_BADPERM",
            ZfsErrorCode::EZFS_BADPERMSET => "EZFS_BADPERMSET",
            ZfsErrorCode::EZFS_NODELEGATION => "EZFS_NODELEGATION",
            ZfsErrorCode::EZFS_UNSHARESMBFAILED => "EZFS_UNSHARESMBFAILED",
            ZfsErrorCode::EZFS_SHARESMBFAILED => "EZFS_SHARESMBFAILED",
            ZfsErrorCode::EZFS_BADCACHE => "EZFS_BADCACHE",
            ZfsErrorCode::EZFS_ISL2CACHE => "EZFS_ISL2CACHE",
            ZfsErrorCode::EZFS_VDEVNOTSUP => "EZFS_VDEVNOTSUP",
            ZfsErrorCode::EZFS_NOTSUP => "EZFS_NOTSUP",
            ZfsErrorCode::EZFS_ACTIVE_SPARE => "EZFS_ACTIVE_SPARE",
            ZfsErrorCode::EZFS_UNPLAYED_LOGS => "EZFS_UNPLAYED_LOGS",
            ZfsErrorCode::EZFS_REFTAG_RELE => "EZFS_REFTAG_RELE",
            ZfsErrorCode::EZFS_REFTAG_HOLD => "EZFS_REFTAG_HOLD",
            ZfsErrorCode::EZFS_TAGTOOLONG => "EZFS_TAGTOOLONG",
            ZfsErrorCode::EZFS_PIPEFAILED => "EZFS_PIPEFAILED",
            ZfsErrorCode::EZFS_THREADCREATEFAILED => "EZFS_THREADCREATEFAILED",
            ZfsErrorCode::EZFS_POSTSPLIT_ONLINE => "EZFS_POSTSPLIT_ONLINE",
            ZfsErrorCode::EZFS_SCRUBBING => "EZFS_SCRUBBING",
            ZfsErrorCode::EZFS_NO_SCRUB => "EZFS_NO_SCRUB",
            ZfsErrorCode::EZFS_DIFF => "EZFS_DIFF",
            ZfsErrorCode::EZFS_DIFFDATA => "EZFS_DIFFDATA",
            ZfsErrorCode::EZFS_POOLREADONLY => "EZFS_POOLREADONLY",
            ZfsErrorCode::EZFS_SCRUB_PAUSED => "EZFS_SCRUB_PAUSED",
            ZfsErrorCode::EZFS_ACTIVE_POOL => "EZFS_ACTIVE_POOL",
            ZfsErrorCode::EZFS_CRYPTOFAILED => "EZFS_CRYPTOFAILED",
            ZfsErrorCode::EZFS_NO_PENDING => "EZFS_NO_PENDING",
            ZfsErrorCode::EZFS_CHECKPOINT_EXISTS => "EZFS_CHECKPOINT_EXISTS",
            ZfsErrorCode::EZFS_DISCARDING_CHECKPOINT => "EZFS_DISCARDING_CHECKPOINT",
            ZfsErrorCode::EZFS_NO_CHECKPOINT => "EZFS_NO_CHECKPOINT",
            ZfsErrorCode::EZFS_DEVRM_IN_PROGRESS => "EZFS_DEVRM_IN_PROGRESS",
            ZfsErrorCode::EZFS_VDEV_TOO_BIG => "EZFS_VDEV_TOO_BIG",
            ZfsErrorCode::EZFS_IOC_NOTSUPPORTED => "EZFS_IOC_NOTSUPPORTED",
            ZfsErrorCode::EZFS_TOOMANY => "EZFS_TOOMANY",
            ZfsErrorCode::EZFS_INITIALIZING => "EZFS_INITIALIZING",
            ZfsErrorCode::EZFS_NO_INITIALIZE => "EZFS_NO_INITIALIZE",
            ZfsErrorCode::EZFS_WRONG_PARENT => "EZFS_WRONG_PARENT",
            ZfsErrorCode::EZFS_TRIMMING => "EZFS_TRIMMING",
            ZfsErrorCode::EZFS_NO_TRIM => "EZFS_NO_TRIM",
            ZfsErrorCode::EZFS_TRIM_NOTSUP => "EZFS_TRIM_NOTSUP",
            ZfsErrorCode::EZFS_NO_RESILVER_DEFER => "EZFS_NO_RESILVER_DEFER",
            ZfsErrorCode::EZFS_EXPORT_IN_PROGRESS => "EZFS_EXPORT_IN_PROGRESS",
            ZfsErrorCode::EZFS_REBUILDING => "EZFS_REBUILDING",
            ZfsErrorCode::EZFS_UNKNOWN => "EZFS_UNKNOWN",
        }
    }

    /// No two codes share a native number.
    pub proof fn raw_is_injective()
        ensures
            forall|a: ZfsErrorCode, b: ZfsErrorCode| a.raw() == b.raw() ==> a == b,
    {
    }

    /// The native number of a code stands for that code.
    pub proof fn of_raw_of_raw(code: ZfsErrorCode)
        ensures
            Self::of_raw(code.raw()) == Some(code),
    {
        Self::raw_is_injective();
    }
}

impl From<ZfsErrorCode> for i32 {
    fn from(code: ZfsErrorCode) -> (raw: i32) {
        match code {
            ZfsErrorCode::EZFS_SUCCESS => 0,
            ZfsErrorCode::EZFS_NOMEM => 2000,
            ZfsErrorCode::EZFS_BADPROP => 2001,
            ZfsErrorCode::EZFS_PROPREADONLY => 2002,
            ZfsErrorCode::EZFS_PROPTYPE => 2003,
            ZfsErrorCode::EZFS_PROPNONINHERIT => 2004,
            ZfsErrorCode::EZFS_PROPSPACE => 2005,
            ZfsErrorCode::EZFS_BADTYPE => 2006,
            ZfsErrorCode::EZFS_BUSY => 2007,
            ZfsErrorCode::EZFS_EXISTS => 2008,
            ZfsErrorCode::EZFS_NOENT => 2009,
            ZfsErrorCode::EZFS_BADSTREAM => 2010,
            ZfsErrorCode::EZFS_DSREADONLY => 2011,
            ZfsErrorCode::EZFS_VOLTOOBIG => 2012,
            ZfsErrorCode::EZFS_INVALIDNAME => 2013,
            ZfsErrorCode::EZFS_BADRESTORE => 2014,
            ZfsErrorCode::EZFS_BADBACKUP => 2015,
            ZfsErrorCode::EZFS_BADTARGET => 2016,
            ZfsErrorCode::EZFS_NODEVICE => 2017,
            ZfsErrorCode::EZFS_BADDEV => 2018,
            ZfsErrorCode::EZFS_NOREPLICAS => 2019,
            ZfsErrorCode::EZFS_RESILVERING => 2020,
            ZfsErrorCode::EZFS_BADVERSION => 2021,
            ZfsErrorCode::EZFS_POOLUNAVAIL => 2022,
            ZfsErrorCode::EZFS_DEVOVERFLOW => 2023,
            ZfsErrorCode::EZFS_BADPATH => 2024,
            ZfsErrorCode::EZFS_CROSSTARGET => 2025,
            ZfsErrorCode::EZFS_ZONED => 2026,
            ZfsErrorCode::EZFS_MOUNTFAILED => 2027,
            ZfsErrorCode::EZFS_UMOUNTFAILED => 2028,
            ZfsErrorCode::EZFS_UNSHARENFSFAILED => 2029,
            ZfsErrorCode::EZFS_SHARENFSFAILED => 2030,
            ZfsErrorCode::EZFS_PERM => 2031,
            ZfsErrorCode::EZFS_NOSPC => 2032,
            ZfsErrorCode::EZFS_FAULT => 2033,
            ZfsErrorCode::EZFS_IO => 2034,
            ZfsErrorCode::EZFS_INTR => 2035,
            ZfsErrorCode::EZFS_ISSPARE => 2036,
            ZfsErrorCode::EZFS_INVALCONFIG => 2037,
            ZfsErrorCode::EZFS_RECURSIVE => 2038,
            ZfsErrorCode::EZFS_NOHISTORY => 2039,
            ZfsErrorCode::EZFS_POOLPROPS => 2040,
            ZfsErrorCode::EZFS_POOL_NOTSUP => 2041,
            ZfsErrorCode::EZFS_POOL_INVALARG => 2042,
            ZfsErrorCode::EZFS_NAMETOOLONG => 2043,
            ZfsErrorCode::EZFS_OPENFAILED => 2044,
            ZfsErrorCode::EZFS_NOCAP => 2045,
            ZfsErrorCode::EZFS_LABELFAILED => 2046,
            ZfsErrorCode::EZFS_BADWHO => 2047,
            ZfsErrorCode::EZFS_BADPERM => 2048,
            ZfsErrorCode::EZFS_BADPERMSET => 2049,
            ZfsErrorCode::EZFS_NODELEGATION => 2050,
            ZfsErrorCode::EZFS_UNSHARESMBFAILED => 2051,
            ZfsErrorCode::EZFS_SHARESMBFAILED => 2052,
            ZfsErrorCode::EZFS_BADCACHE => 2053,
            ZfsErrorCode::EZFS_ISL2CACHE => 2054,
            ZfsErrorCode::EZFS_VDEVNOTSUP => 2055,
            ZfsErrorCode::EZFS_NOTSUP => 2056,
            ZfsErrorCode::EZFS_ACTIVE_SPARE => 2057,
            ZfsErrorCode::EZFS_UNPLAYED_LOGS => 2058,
            ZfsErrorCode::EZFS_REFTAG_RELE => 2059,
            ZfsErrorCode::EZFS_REFTAG_HOLD => 2060,
            ZfsErrorCode::EZFS_TAGTOOLONG => 2061,
            ZfsErrorCode::EZFS_PIPEFAILED => 2062,
            ZfsErrorCode::EZFS_THREADCREATEFAILED => 2063,
            ZfsErrorCode::EZFS_POSTSPLIT_ONLINE => 2064,
            ZfsErrorCode::EZFS_SCRUBBING => 2065,
            ZfsErrorCode::EZFS_NO_SCRUB => 2066,
            ZfsErrorCode::EZFS_DIFF => 2067,
            ZfsErrorCode::EZFS_DIFFDATA => 2068,
            ZfsErrorCode::EZFS_POOLREADONLY => 2069,
            ZfsErrorCode::EZFS_SCRUB_PAUSED => 2070,
            ZfsErrorCode::EZFS_ACTIVE_POOL => 2071,
            ZfsErrorCode::EZFS_CRYPTOFAILED => 2072,
            ZfsErrorCode::EZFS_NO_PENDING => 2073,
            ZfsErrorCode::EZFS_CHECKPOINT_EXISTS => 2074,
            ZfsErrorCode::EZFS_DISCARDING_CHECKPOINT => 2075,
            ZfsErrorCode::EZFS_NO_CHECKPOINT => 2076,
            ZfsErrorCode::EZFS_DEVRM_IN_PROGRESS => 2077,
            ZfsErrorCode::EZFS_VDEV_TOO_BIG => 2078,
            ZfsErrorCode::EZFS_IOC_NOTSUPPORTED => 2079,
            ZfsErrorCode::EZFS_TOOMANY => 2080,
            ZfsErrorCode::EZFS_INITIALIZING => 2081,
            ZfsErrorCode::EZFS_NO_INITIALIZE => 2082,
            ZfsErrorCode::EZFS_WRONG_PARENT => 2083,
            ZfsErrorCode::EZFS_TRIMMING => 2084,
            ZfsErrorCode::EZFS_NO_TRIM => 2085,
            ZfsErrorCode::EZFS_TRIM_NOTSUP => 2086,
            ZfsErrorCode::EZFS_NO_RESILVER_DEFER => 2087,
            ZfsErrorCode::EZFS_EXPORT_IN_PROGRESS => 2088,
            ZfsErrorCode::EZFS_REBUILDING => 2089,
            ZfsErrorCode::EZFS_UNKNOWN => 2090,
        }
    }
}

impl FromSpecImpl<ZfsErrorCode> for i32 {
    open spec fn obeys_from_spec() -> bool {
        true
    }

    open spec fn from_spec(code: ZfsErrorCode) -> i32 {
        code.raw()
    }
}

/// An error of the library: the code in its error slot and the description that the
/// library gives for it, as they were read after the failed call.
#[derive(Debug)]
pub struct ZfsError {
    pub code: ZfsErrorCode,
    pub msg: String,
}

impl ZfsError {
    /// The error that the slot held: the code and the description read from it.
    pub fn last_error(code: ZfsErrorCode, msg: String) -> (error: ZfsError)
        ensures
            error == (ZfsError { code, msg }),
    {
        ZfsError { code, msg }
    }

    /// The text of [`ZfsError::message`].
    pub open spec fn message_text(&self) -> Seq<char> {
        "ZFS error "@ + self.code.text() + ": "@ + self.msg@
    }

    /// The code and the library's own description, in one line.
    pub fn message(&self) -> (text: String)
        ensures
            text@ == self.message_text(),
    {
        let mut text = String::from_str("ZFS error ");
        text.append(self.code.name());
        text.append(": ");
        text.append(self.msg.as_str());
        text
    }
}

/// The message of a library error holds the native name of its code and the library's
/// description as they are: the name right after the opening words, the description at
/// the end, and between them a colon and a space.
pub proof fn message_holds_name_and_description(error: ZfsError)
    ensures
        ({
            let text = error.message_text();
            let name = error.code.text();
            let size = name.len() as int;
            &&& text.len() == 10 + size + 2 + error.msg@.len()
            &&& text.subrange(0, 10) == "ZFS error "@
            &&& text.subrange(10, 10 + size) == name
            &&& text.subrange(10 + size, 12 + size) == ": "@
            &&& text.subrange(12 + size, text.len() as int) == error.msg@
        }),
{
    reveal_strlit("ZFS error ");
    reveal_strlit(": ");
    let text = error.message_text();
    let name = error.code.text();
    let size = name.len() as int;
    assert(text.subrange(0, 10) =~= "ZFS error "@);
    assert(text.subrange(10, 10 + size) =~= name);
    assert(text.subrange(10 + size, 12 + size) =~= ": "@);
    assert(text.subrange(12 + size, text.len() as int) =~= error.msg@);
}

/// The message for a pool or dataset that is not there, letter by letter.
pub proof fn message_of_a_missing_dataset(error: ZfsError)
    requires
        error.code == ZfsErrorCode::EZFS_NOENT,
    ensures
        error.message_text() == "ZFS error EZFS_NOENT: "@ + error.msg@,
{
    reveal_strlit("ZFS error ");
    reveal_strlit("EZFS_NOENT");
    reveal_strlit(": ");
    reveal_strlit("ZFS error EZFS_NOENT: ");
    assert(error.message_text() =~= "ZFS error EZFS_NOENT: "@ + error.msg@);
}

impl Clone for ZfsError {
    fn clone(&self) -> (copy: ZfsError)
        ensures
            copy == *self,
    {
        ZfsError { code: self.code, msg: self.msg.clone() }
    }
}

impl PartialEq for ZfsError {
    fn eq(&self, other: &ZfsError) -> (same: bool) {
        self.code == other.code && self.msg == other.msg
    }
}

impl PartialEqSpecImpl for ZfsError {
    open spec fn obeys_eq_spec() -> bool {
        true
    }

    open spec fn eq_spec(&self, other: &ZfsError) -> bool {
        self.code == other.code && self.msg@ == other.msg@
    }
}

impl Eq for ZfsError {

}

/// An error of the system: the code of the last system error and its description, as they
/// were read after the failed call.
#[derive(Debug)]
pub struct SysError {
    pub code: i32,
    pub msg: String,
}

impl Clone for SysError {
    fn clone(&self) -> (copy: SysError)
        ensures
            copy == *self,
    {
        SysError { code: self.code, msg: self.msg.clone() }
    }
}

impl PartialEq for SysError {
    fn eq(&self, other: &SysError) -> (same: bool) {
        self.code == other.code && self.msg == other.msg
    }
}

impl PartialEqSpecImpl for SysError {
    open spec fn obeys_eq_spec() -> bool {
        true
    }

    open spec fn eq_spec(&self, other: &SysError) -> bool {
        self.code == other.code && self.msg@ == other.msg@
    }
}

impl Eq for SysError {

}

/// Why an operation failed.
#[derive(Debug)]
pub enum Error {
    /// The failure came from the system; the library's error slot held no error of its own.
    Sys(SysError),
    /// The failure came from the library.
    Zfs(ZfsError),
}

impl Error {
    /// The text of [`Error::message`].
    pub open spec fn message_text(&self) -> Seq<char> {
        match self {
            Error::Sys(e) => e.msg@,
            Error::Zfs(e) => e.message_text(),
        }
    }

    /// The description of the failure: that of the system for a system error, the code and
    /// the library's description for an error of the library.
    pub fn message(&self) -> (text: String)
        ensures
            text@ == self.message_text(),
    {
        match self {
            Error::Sys(e) => e.msg.clone(),
            Error::Zfs(e) => e.message(),
        }
    }
}

impl Clone for Error {
    fn clone(&self) -> (copy: Error)
        ensures
            copy == *self,
    {
        match self {
            Error::Sys(e) => Error::Sys(e.clone()),
            Error::Zfs(e) => Error::Zfs(e.clone()),
        }
    }
}

impl PartialEq for Error {
    fn eq(&self, other: &Error) -> (same: bool) {
        match (self, other) {
            (Error::Sys(a), Error::Sys(b)) => a == b,
            (Error::Zfs(a), Error::Zfs(b)) => a == b,
            _ => false,
        }
    }
}

impl PartialEqSpecImpl for Error {
    open spec fn obeys_eq_spec() -> bool {
        true
    }

    open spec fn eq_spec(&self, other: &Error) -> bool {
        match (self, other) {
            (Error::Sys(a), Error::Sys(b)) => a.code == b.code && a.msg@ == b.msg@,
            (Error::Zfs(a), Error::Zfs(b)) => a.code == b.code && a.msg@ == b.msg@,
            _ => false,
        }
    }
}

impl Eq for Error {

}

impl From<ZfsError> for Error {
    fn from(z: ZfsError) -> (error: Error) {
        Error::Zfs(z)
    }
}

impl FromSpecImpl<ZfsError> for Error {
    open spec fn obeys_from_spec() -> bool {
        true
    }

    open spec fn from_spec(z: ZfsError) -> Error {
        Error::Zfs(z)
    }
}

} // verus!
