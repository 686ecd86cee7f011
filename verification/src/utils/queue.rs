//! The configured bound on a guild's pending queue.

use vstd::prelude::*;

use crate::utils::text::{parse_u32, parse_u32_spec, option_str_view};

verus! {

/// Pending-queue length used when the deployment configures none.
pub const DEFAULT_QUEUE_SIZE: u32 = 15;

/// Whether `num` has reached `max_queue_size`.
pub fn is_gte_max_queue_size(num: u32, max_queue_size: u32) -> (full: bool)
    ensures
        full == (num >= max_queue_size),
{
    num >= max_queue_size
}

/// The bound that a deployment setting asks for: the default where nothing
/// is set, else the number that the setting writes, if it writes one.
pub open spec fn max_queue_size_of(setting: Option<Seq<char>>) -> Option<u32> {
    match setting {
        None => Some(DEFAULT_QUEUE_SIZE),
        Some(text) => parse_u32_spec(text),
    }
}

/// Reads the maximum queue size from the deployment setting, handed over as
/// text by whoever looked it up. Memory-constrained hosts use the setting to
/// keep queues short. `None` comes back for a setting that is no number.
pub fn get_max_queue_size_var(setting: Option<&str>) -> (max_queue_size: Option<u32>)
    ensures
        max_queue_size == max_queue_size_of(option_str_view(setting)),
{
    match setting {
        Some(size) => parse_u32(size),
        None => Some(DEFAULT_QUEUE_SIZE),
    }
}

} // verus!
