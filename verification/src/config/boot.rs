//! Boot partition configuration: the partitions, their status, and the
//! operations a platform provides to read and change them.
use vstd::prelude::*;

verus! {

/// Boot partitions.
#[derive(Debug, Clone, Copy, PartialEq, Eq, Structural)]
pub enum PartitionId {
    NoPartition,
    A,
    B,
}

impl PartitionId {
    /// The code of the value on the wire.
    #[verifier::allow_in_spec]
    pub fn to_u32(self) -> u32
        returns
            (match self {
                PartitionId::NoPartition => 0x0u32,
                PartitionId::A => 0x1u32,
                PartitionId::B => 0x2u32,
            }),
    {
        match self {
            PartitionId::NoPartition => 0x0,
            PartitionId::A => 0x1,
            PartitionId::B => 0x2,
        }
    }
}

impl core::convert::TryFrom<u32> for PartitionId {
    type Error = ();

    fn try_from(value: u32) -> (r: Result<PartitionId, ()>) {
        match value {
            0x0 => Ok(PartitionId::NoPartition),
            0x1 => Ok(PartitionId::A),
            0x2 => Ok(PartitionId::B),
            _ => Err(()),
        }
    }
}

impl vstd::std_specs::convert::TryFromSpecImpl<u32> for PartitionId {
    open spec fn obeys_try_from_spec() -> bool {
        true
    }

    open spec fn try_from_spec(value: u32) -> Result<PartitionId, ()> {
        match value {
            0x0 => Ok(PartitionId::NoPartition),
            0x1 => Ok(PartitionId::A),
            0x2 => Ok(PartitionId::B),
            _ => Err(()),
        }
    }
}

/// The status of a boot partition.
#[derive(Debug, Clone, Copy, PartialEq, Eq, Structural)]
pub enum PartitionStatus {
    Invalid,
    Valid,
    BootFailed,
    BootSuccessful,
}

impl PartitionStatus {
    /// The code of the value on the wire.
    #[verifier::allow_in_spec]
    pub fn to_u16(self) -> u16
        returns
            (match self {
                PartitionStatus::Invalid => 0x0u16,
                PartitionStatus::Valid => 0x1u16,
                PartitionStatus::BootFailed => 0x2u16,
                PartitionStatus::BootSuccessful => 0x3u16,
            }),
    {
        match self {
            PartitionStatus::Invalid => 0x0,
            PartitionStatus::Valid => 0x1,
            PartitionStatus::BootFailed => 0x2,
            PartitionStatus::BootSuccessful => 0x3,
        }
    }
}

impl core::convert::TryFrom<u16> for PartitionStatus {
    type Error = ();

    fn try_from(value: u16) -> (r: Result<PartitionStatus, ()>) {
        match value {
            0x0 => Ok(PartitionStatus::Invalid),
            0x1 => Ok(PartitionStatus::Valid),
            0x2 => Ok(PartitionStatus::BootFailed),
            0x3 => Ok(PartitionStatus::BootSuccessful),
            _ => Err(()),
        }
    }
}

impl vstd::std_specs::convert::TryFromSpecImpl<u16> for PartitionStatus {
    open spec fn obeys_try_from_spec() -> bool {
        true
    }

    open spec fn try_from_spec(value: u16) -> Result<PartitionStatus, ()> {
        match value {
            0x0 => Ok(PartitionStatus::Invalid),
            0x1 => Ok(PartitionStatus::Valid),
            0x2 => Ok(PartitionStatus::BootFailed),
            0x3 => Ok(PartitionStatus::BootSuccessful),
            _ => Err(()),
        }
    }
}

/// Whether rollback to the other partition is enabled.
#[derive(Debug, Clone, Copy, PartialEq, Eq, Structural)]
pub enum RollbackEnable {
    Disabled,
    Enabled,
}

impl RollbackEnable {
    /// The code of the value on the wire.
    #[verifier::allow_in_spec]
    pub fn to_u32(self) -> u32
        returns
            (match self {
                RollbackEnable::Disabled => 0x0u32,
                RollbackEnable::Enabled => 0x10000u32,
            }),
    {
        match self {
            RollbackEnable::Disabled => 0x0,
            RollbackEnable::Enabled => 0x10000,
        }
    }
}

/// Errors of the boot configuration.
#[derive(Debug, Clone, Copy, PartialEq, Eq, Structural)]
pub enum BootConfigError {
    InvalidPartition,
    InvalidStatus,
    StorageError,
    ReadFailed,
    WriteFailed,
    Unknown,
}

/// Access to the boot configuration of a platform: which partition boots,
/// the status and boot count of each partition, and rollback.
pub trait BootConfig {
    /// The partition to boot from.
    fn get_active_partition(&self) -> Result<PartitionId, BootConfigError>;

    /// Sets the partition to boot from.
    fn set_active_partition(&mut self, partition: PartitionId) -> Result<(), BootConfigError>;

    /// Sets the status of a partition.
    fn set_partition_status(&mut self, partition: PartitionId, status: PartitionStatus) -> Result<
        (),
        BootConfigError,
    >;

    /// The status of a partition.
    fn get_partition_status(&self, partition: PartitionId) -> Result<PartitionStatus, BootConfigError>;

    /// Increments the boot count of a partition and returns the new count.
    fn increment_boot_count(&self, partition: PartitionId) -> Result<u16, BootConfigError>;

    /// The boot count of a partition.
    fn get_boot_count(&self, partition: PartitionId) -> Result<u16, BootConfigError>;

    /// Whether rollback is enabled.
    fn is_rollback_enabled(&self) -> Result<bool, BootConfigError>;

    /// Enables or disables rollback.
    fn set_rollback_enable(&mut self, enable: bool) -> Result<(), BootConfigError>;

    /// Persists the configuration; by default there is nothing to do.
    fn persist(&self) -> (r: Result<(), BootConfigError>)
        default_ensures
            r == Ok::<(), BootConfigError>(()),
    {
        Ok(())
    }
}

} // verus!
