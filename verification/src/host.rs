//! What the library takes from the host platform: the kernel's constants and
//! device numbering as `libc` defines them, and the extension of a path as the
//! standard library reads it. Nothing here is proved; each contract restates
//! what the named item is documented or defined to be on Linux and on Android.

use vstd::prelude::*;

verus! {

/// `libc::MS_BIND`: the mount flag that attaches an existing tree at a second
/// place. Defined as `0x1000`.
#[verifier::external_body]
pub(crate) fn ms_bind() -> (flag: u64)
    ensures
        flag == 0x1000,
{
    libc::MS_BIND as u64
}

/// `libc::MS_REC`: the mount flag that applies a change to the whole subtree.
/// Defined as `0x4000`.
#[verifier::external_body]
pub(crate) fn ms_rec() -> (flag: u64)
    ensures
        flag == 0x4000,
{
    libc::MS_REC as u64
}

/// `libc::MS_SLAVE`: the mount flag that stops mount events from propagating
/// out of a mount point. Defined as `0x80000`.
#[verifier::external_body]
pub(crate) fn ms_slave() -> (flag: u64)
    ensures
        flag == 0x80000,
{
    libc::MS_SLAVE as u64
}

/// `libc::CLONE_NEWNS`: the `unshare` flag for the mount namespace. Defined as
/// `0x20000`.
#[verifier::external_body]
pub(crate) fn clone_newns() -> (flag: i32)
    ensures
        flag == 0x20000,
{
    libc::CLONE_NEWNS
}

/// `libc::CLONE_NEWPID`: the `unshare` flag for the process-id namespace.
/// Defined as `0x20000000`.
#[verifier::external_body]
pub(crate) fn clone_newpid() -> (flag: i32)
    ensures
        flag == 0x20000000,
{
    libc::CLONE_NEWPID
}

/// `libc::CLONE_NEWUTS`: the `unshare` flag for the host-name namespace.
/// Defined as `0x04000000`.
#[verifier::external_body]
pub(crate) fn clone_newuts() -> (flag: i32)
    ensures
        flag == 0x04000000,
{
    libc::CLONE_NEWUTS
}

/// `libc::CLONE_NEWIPC`: the `unshare` flag for the IPC namespace. Defined as
/// `0x08000000`.
#[verifier::external_body]
pub(crate) fn clone_newipc() -> (flag: i32)
    ensures
        flag == 0x08000000,
{
    libc::CLONE_NEWIPC
}

/// `libc::S_IFCHR`: the file-type bits of a character device in a mode.
/// Defined as `0o020000`.
#[verifier::external_body]
pub(crate) fn s_ifchr() -> (bits: u32)
    ensures
        bits == 0o020000,
{
    libc::S_IFCHR as u32
}

/// `libc::EINVAL`: the error number that `umount` gives for a target that is
/// not a mount point. Defined as `22`.
#[verifier::external_body]
pub(crate) fn einval() -> (errno: i32)
    ensures
        errno == 22,
{
    libc::EINVAL
}

/// The device number of a major number of up to twelve bits and a minor
/// number of up to twenty, as the kernel reads it: the major at bit 8, the low
/// eight bits of the minor at bit 0 and its upper twelve at bit 20.
pub open spec fn device_number(major: u32, minor: u32) -> u64 {
    ((major as u64) << 8) | ((minor as u64) & 0xff) | (((minor as u64) & 0xfff00) << 12)
}

/// `libc::makedev`: packs a major and a minor number into a device number.
/// For a major of up to twelve bits and a minor of up to twenty, the
/// definitions for Linux and for Android give the same number, the one that
/// `device_number` writes out; beyond that they differ, and nothing is
/// claimed.
#[verifier::external_body]
pub(crate) fn makedev(major: u32, minor: u32) -> (device: u64)
    requires
        major <= 0xfff,
        minor <= 0xfffff,
    ensures
        device == device_number(major, minor),
{
    libc::makedev(major, minor) as u64
}

/// The extension that `std::path::Path::extension` finds in `path`: the part of
/// the final component after its last dot, if that component has one that is
/// not its first character.
pub uninterp spec fn path_extension(path: Seq<char>) -> Option<Seq<char>>;

/// `std::path::Path::extension`, on a path held as text.
#[verifier::external_body]
pub(crate) fn extension(path: &str) -> (found: Option<String>)
    ensures
        found.deep_view() == path_extension(path@),
{
    match std::path::Path::new(path).extension() {
        Some(ext) => Some(ext.to_string_lossy().into_owned()),
        None => None,
    }
}

} // verus!
