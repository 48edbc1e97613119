//! The scheduling priority of the capture thread: the top tier is tried
//! first, and the next tier is taken where the top tier is refused.

use vstd::prelude::*;

verus! {

/// `HIGH_PRIORITY_CLASS`.
pub const HIGH_PRIORITY_CLASS: u32 = 128;

/// `REALTIME_PRIORITY_CLASS`.
pub const REALTIME_PRIORITY_CLASS: u32 = 256;

/// `THREAD_PRIORITY_HIGHEST`.
pub const THREAD_PRIORITY_HIGHEST: i32 = 2;

/// `THREAD_PRIORITY_TIME_CRITICAL`.
pub const THREAD_PRIORITY_TIME_CRITICAL: i32 = 15;

/// The realtime scheduling class of the GPU.
pub const GPU_PRIORITY_REALTIME: u32 = 5;

/// The high scheduling class of the GPU.
pub const GPU_PRIORITY_HIGH: u32 = 4;

/// What is left to do after the realtime class was asked for.
#[derive(Clone, Copy, Debug, PartialEq, Eq, Structural)]
pub struct ThreadPriorityPlan {
    /// The process class to ask for instead, if any.
    pub fallback_class: Option<u32>,
    /// The priority to give the thread.
    pub thread_priority: i32,
}

/// The plan after the realtime class was granted or refused.
pub open spec fn thread_plan(realtime_granted: bool) -> ThreadPriorityPlan {
    if realtime_granted {
        ThreadPriorityPlan { fallback_class: None, thread_priority: THREAD_PRIORITY_TIME_CRITICAL }
    } else {
        ThreadPriorityPlan {
            fallback_class: Some(HIGH_PRIORITY_CLASS),
            thread_priority: THREAD_PRIORITY_HIGHEST,
        }
    }
}

/// Decides how the capture thread is raised once the process has asked for
/// the realtime class: time critical if it was granted; else the high class
/// and the highest ordinary thread priority.
pub fn set_thread_priority(realtime_granted: bool) -> (plan: ThreadPriorityPlan)
    ensures
        plan == thread_plan(realtime_granted),
{
    if realtime_granted {
        ThreadPriorityPlan { fallback_class: None, thread_priority: THREAD_PRIORITY_TIME_CRITICAL }
    } else {
        ThreadPriorityPlan {
            fallback_class: Some(HIGH_PRIORITY_CLASS),
            thread_priority: THREAD_PRIORITY_HIGHEST,
        }
    }
}

/// Decides what follows the request for the realtime class of the GPU:
/// nothing if the status reports success, the high class otherwise.
pub fn set_gpu_priority(status: u32) -> (fallback: Option<u32>)
    ensures
        fallback == if status == 0 {
            None::<u32>
        } else {
            Some(GPU_PRIORITY_HIGH)
        },
{
    if status != 0 {
        Some(GPU_PRIORITY_HIGH)
    } else {
        None
    }
}

} // verus!
