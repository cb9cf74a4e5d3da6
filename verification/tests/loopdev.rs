use initrt::loopdev::{ConfigureLoop, FreeLoop, LOOP_KEY_LEN, LOOP_NAME_LEN};

#[test]
fn free_loop_opcode_is_the_kernel_number() {
    // LOOP_CTL_GET_FREE
    assert_eq!(FreeLoop.opcode(), 0x4C82);
}

#[test]
fn configure_opcode_is_the_kernel_number() {
    // LOOP_CONFIGURE
    assert_eq!(ConfigureLoop::new(3).opcode(), 0x4C0A);
}

#[test]
fn configure_stores_the_backing_fd() {
    let c = ConfigureLoop::new(17);
    assert_eq!(c.fd, 17);
    assert_eq!(ConfigureLoop::new(0).fd, 0);
}

#[test]
fn configure_block_is_zeroed() {
    let c = ConfigureLoop::new(4);
    assert_eq!(c.block_size, 0);
    let info = c.info;
    assert_eq!(info.device, 0);
    assert_eq!(info.inode, 0);
    assert_eq!(info.rdevice, 0);
    assert_eq!(info.offset, 0);
    assert_eq!(info.size_limit, 0);
    assert_eq!(info.number, 0);
    assert_eq!(info.encrypt_type, 0);
    assert_eq!(info.encrypt_key_size, 0);
    assert_eq!(info.flags, 0);
    assert_eq!(info.file_name.len(), LOOP_NAME_LEN);
    assert!(info.file_name.iter().all(|&b| b == 0));
    assert_eq!(info.crypt_name.len(), LOOP_NAME_LEN);
    assert!(info.crypt_name.iter().all(|&b| b == 0));
    assert_eq!(info.encrypt_key.len(), LOOP_KEY_LEN);
    assert!(info.encrypt_key.iter().all(|&b| b == 0));
    assert_eq!(info.init, vec![0, 0]);
}

#[test]
fn opcodes_match_the_kernel_headers() {
    // The values the wrappers promise are the ones the vendored kernel
    // bindings hold.
    assert_eq!(FreeLoop.opcode(), linux_raw_sys::loop_device::LOOP_CTL_GET_FREE);
    assert_eq!(ConfigureLoop::new(1).opcode(), linux_raw_sys::loop_device::LOOP_CONFIGURE);
}
