use vstd::prelude::*;

use crate::text::{dec_of, lemma_concat_cancel_left, lemma_dec_of_injective, push_dec};

verus! {

/// The IPv4 address assigned to the instance with allocation order
/// `order`: the last octet is the order itself.
pub open spec fn ip_of(order: u32) -> Seq<char> {
    "172.16.0."@ + dec_of(order as nat)
}

/// The hypervisor control-socket path for the instance with identifier `id`.
pub open spec fn control_socket_path(id: Seq<char>) -> Seq<char> {
    "/tmp/firecracker-"@ + id + ".socket"@
}

/// The shared kernel image every instance boots from.
pub open spec fn shared_kernel_path() -> Seq<char> {
    "/root/projects/firecrack-project/kernel.bin"@
}

/// The shared root filesystem image.
pub open spec fn shared_rootfs_path() -> Seq<char> {
    "/root/projects/firecrack-project/rootfs.ext4"@
}

/// The per-instance kernel image copy for a writable instance.
pub open spec fn kernel_copy_path(id: Seq<char>) -> Seq<char> {
    "/root/projects/firecrack-project/kernel-"@ + id + ".bin"@
}

/// The per-instance root filesystem copy for a writable instance.
pub open spec fn rootfs_copy_path(id: Seq<char>) -> Seq<char> {
    "/root/projects/firecrack-project/rootfs-"@ + id + ".ext4"@
}

/// Relies on `uuid::Uuid::new_v4` and the `Display` impl of `uuid::Uuid`:
/// the hyphenated lowercase form is always 36 characters. Nothing else is
/// assumed of the value: it is random.
#[verifier::external_body]
pub(crate) fn fresh_id() -> (r: String)
    ensures
        r@.len() == 36,
{
    uuid::Uuid::new_v4().to_string()
}

/// Renders the assigned IPv4 address of the given order.
pub fn ip_string(order: u32) -> (r: String)
    ensures
        r@ == ip_of(order),
{
    let mut s = String::from_str("172.16.0.");
    push_dec(&mut s, order as u64);
    s
}

/// Renders the control-socket path for `id`.
pub fn socket_path_string(id: &String) -> (r: String)
    ensures
        r@ == control_socket_path(id@),
{
    let mut s = String::from_str("/tmp/firecracker-");
    s.append(id.as_str());
    s.append(".socket");
    s
}

/// Renders the per-instance kernel copy path for `id`.
pub fn kernel_copy_string(id: &String) -> (r: String)
    ensures
        r@ == kernel_copy_path(id@),
{
    let mut s = String::from_str("/root/projects/firecrack-project/kernel-");
    s.append(id.as_str());
    s.append(".bin");
    s
}

/// Renders the per-instance root filesystem copy path for `id`.
pub fn rootfs_copy_string(id: &String) -> (r: String)
    ensures
        r@ == rootfs_copy_path(id@),
{
    let mut s = String::from_str("/root/projects/firecrack-project/rootfs-");
    s.append(id.as_str());
    s.append(".ext4");
    s
}

/// The shared kernel image path, for use where a boot source must not be
/// copied.
pub fn shared_kernel_string() -> (r: String)
    ensures
        r@ == shared_kernel_path(),
{
    String::from_str("/root/projects/firecrack-project/kernel.bin")
}

/// The shared root filesystem path.
pub fn shared_rootfs_string() -> (r: String)
    ensures
        r@ == shared_rootfs_path(),
{
    String::from_str("/root/projects/firecrack-project/rootfs.ext4")
}

/// Law: the assigned IPv4 address is injective in the allocation order.
/// Orders are never reused, so every instance's address is unique for
/// the process lifetime.
pub proof fn lemma_ip_of_injective(o1: u32, o2: u32)
    requires
        o1 != o2,
    ensures
        ip_of(o1) != ip_of(o2),
{
    if ip_of(o1) == ip_of(o2) {
        lemma_concat_cancel_left("172.16.0."@, dec_of(o1 as nat), dec_of(o2 as nat));
        lemma_dec_of_injective(o1 as nat, o2 as nat);
    }
}

/// Law: the per-instance image copies of an instance never alias the
/// shared kernel or root filesystem images, so removing them can never
/// touch the shared images. (Identifiers are always 36 characters, which
/// the copy-path shapes cannot reconcile with the shared names.)
pub proof fn lemma_image_copies_private(id: Seq<char>)
    requires
        id.len() == 36,
    ensures
        kernel_copy_path(id) != shared_kernel_path(),
        rootfs_copy_path(id) != shared_rootfs_path(),
        kernel_copy_path(id) != rootfs_copy_path(id),
{
    reveal_strlit("/root/projects/firecrack-project/kernel-");
    reveal_strlit("/root/projects/firecrack-project/rootfs-");
    reveal_strlit(".bin");
    reveal_strlit(".ext4");
    reveal_strlit("/root/projects/firecrack-project/kernel.bin");
    reveal_strlit("/root/projects/firecrack-project/rootfs.ext4");
    assert(kernel_copy_path(id).len() != shared_kernel_path().len());
    assert(rootfs_copy_path(id).len() != shared_rootfs_path().len());
    assert(kernel_copy_path(id).len() != rootfs_copy_path(id).len());
}

} // verus!
