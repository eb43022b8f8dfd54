//! Where the images of the applications are placed in memory.
use vstd::prelude::*;

verus! {

/// Bytes of the user stack of one application.
pub const USER_STACK_SIZE: usize = 4096 * 2;

/// Bytes of the kernel stack of one application.
pub const KERNEL_STACK_SIZE: usize = 4096 * 2;

/// The most applications that can be loaded.
pub const MAX_APP_NUM: usize = 16;

/// The address at which the image of the first application is placed.
pub const APP_BASE_ADDRESS: usize = 0x80400000;

/// The room that the image of one application may take.
pub const APP_SIZE_LIMIT: usize = 0x20000;

/// The address at which the image of application `app_id` is placed.
pub fn get_base_i(app_id: usize) -> (base: usize)
    requires
        APP_BASE_ADDRESS + app_id * APP_SIZE_LIMIT <= usize::MAX,
    ensures
        base == APP_BASE_ADDRESS + app_id * APP_SIZE_LIMIT,
{
    APP_BASE_ADDRESS + app_id * APP_SIZE_LIMIT
}

} // verus!
