//! The loop device configurator: the control operations that bind a
//! regular file to a loop block device.
//!
//! Two ioctl operations are involved: asking the loop-control device for a
//! free device index, and configuring a loop device with a backing file.
//! This module builds the control blocks and knows the request numbers;
//! issuing the ioctl itself is the caller's kernel edge. Both operations
//! are single-attempt: any kernel error is the caller's to return verbatim.

use vstd::prelude::*;

verus! {

/// Length of the device-metadata name fields.
pub const LOOP_NAME_LEN: usize = 64;

/// Length of the device-metadata encryption-key field.
pub const LOOP_KEY_LEN: usize = 32;

/// Relies on linux_raw_sys::loop_device::LOOP_CTL_GET_FREE: the ioctl
/// request number, 0x4C82, of the loop-control "get a free device"
/// operation.
#[verifier::external_body]
fn loop_ctl_get_free_request() -> (r: u32)
    ensures
        r == 0x4C82u32,
{
    linux_raw_sys::loop_device::LOOP_CTL_GET_FREE
}

/// Relies on linux_raw_sys::loop_device::LOOP_CONFIGURE: the ioctl request
/// number, 0x4C0A, of the loop device "configure" operation.
#[verifier::external_body]
fn loop_configure_request() -> (r: u32)
    ensures
        r == 0x4C0Au32,
{
    linux_raw_sys::loop_device::LOOP_CONFIGURE
}

/// The "find a free loop device" control operation. It carries no input
/// payload; the kernel answers with the index of a free device, or an
/// error if none is available.
pub struct FreeLoop;

impl FreeLoop {
    /// The ioctl request number this operation is issued with.
    pub fn opcode(&self) -> (r: u32)
        ensures
            r == 0x4C82u32,
    {
        loop_ctl_get_free_request()
    }
}

/// The fixed-size device-metadata block of a loop configuration. The boot
/// sequence overrides nothing, so every field is zero: no device or inode
/// override, no offset or size limit, no encryption, empty names.
pub struct LoopInfo {
    pub device: u64,
    pub inode: u64,
    pub rdevice: u64,
    pub offset: u64,
    pub size_limit: u64,
    pub number: u32,
    pub encrypt_type: u32,
    pub encrypt_key_size: u32,
    pub flags: u32,
    pub file_name: Vec<u8>,
    pub crypt_name: Vec<u8>,
    pub encrypt_key: Vec<u8>,
    pub init: Vec<u64>,
}

/// Every field of the metadata block is zero, and the name and key fields
/// have their fixed sizes.
pub open spec fn info_zeroed(info: LoopInfo) -> bool {
    &&& info.device == 0
    &&& info.inode == 0
    &&& info.rdevice == 0
    &&& info.offset == 0
    &&& info.size_limit == 0
    &&& info.number == 0
    &&& info.encrypt_type == 0
    &&& info.encrypt_key_size == 0
    &&& info.flags == 0
    &&& info.file_name@.len() == LOOP_NAME_LEN
    &&& forall|i: int| 0 <= i < info.file_name@.len() ==> info.file_name@[i] == 0
    &&& info.crypt_name@.len() == LOOP_NAME_LEN
    &&& forall|i: int| 0 <= i < info.crypt_name@.len() ==> info.crypt_name@[i] == 0
    &&& info.encrypt_key@.len() == LOOP_KEY_LEN
    &&& forall|i: int| 0 <= i < info.encrypt_key@.len() ==> info.encrypt_key@[i] == 0
    &&& info.init@.len() == 2
    &&& forall|i: int| 0 <= i < info.init@.len() ==> info.init@[i] == 0
}

/// A run of `n` zero bytes.
fn zero_bytes(n: usize) -> (v: Vec<u8>)
    ensures
        v@.len() == n,
        forall|i: int| 0 <= i < n ==> v@[i] == 0,
{
    let mut v: Vec<u8> = Vec::new();
    while v.len() < n
        invariant
            v@.len() <= n,
            forall|i: int| 0 <= i < v@.len() ==> v@[i] == 0,
        decreases n - v@.len(),
    {
        v.push(0);
    }
    v
}

/// The "configure" control block that binds a backing file to a loop
/// device: the backing file descriptor, the block size (zero selects the
/// device-native size), and the zeroed metadata block. Built for exactly
/// one ioctl call and discarded after it.
pub struct ConfigureLoop {
    pub fd: u32,
    pub block_size: u32,
    pub info: LoopInfo,
}

impl ConfigureLoop {
    /// Build the control block for the backing file descriptor `fd`:
    /// device-native block size, everything else zeroed.
    pub fn new(fd: u32) -> (c: ConfigureLoop)
        ensures
            c.fd == fd,
            c.block_size == 0,
            info_zeroed(c.info),
    {
        let mut init: Vec<u64> = Vec::new();
        init.push(0);
        init.push(0);
        ConfigureLoop {
            fd,
            block_size: 0,
            info: LoopInfo {
                device: 0,
                inode: 0,
                rdevice: 0,
                offset: 0,
                size_limit: 0,
                number: 0,
                encrypt_type: 0,
                encrypt_key_size: 0,
                flags: 0,
                file_name: zero_bytes(LOOP_NAME_LEN),
                crypt_name: zero_bytes(LOOP_NAME_LEN),
                encrypt_key: zero_bytes(LOOP_KEY_LEN),
                init,
            },
        }
    }

    /// The ioctl request number this operation is issued with.
    pub fn opcode(&self) -> (r: u32)
        ensures
            r == 0x4C0Au32,
    {
        loop_configure_request()
    }
}

} // verus!
