//! A minimal cooperative task executor, modelled for verification.
//!
//! The library captures the scheduling and combination engine of a
//! no-allocation executor: the task handle, the fixed-capacity task queue,
//! the join (wait-for-all) and select (wait-for-first) combinators, the
//! interrupt used to sleep between wakeups, and the decision logic of the
//! blocking-thread bridge.  Polling a real future, spawning threads and
//! blocking on a condition variable are outside work: a thin outer layer
//! performs them and reports each outcome to the state machines here, whose
//! contracts pin down every scheduling decision.

pub mod interrupt;
pub mod join;
pub mod poll;
pub mod run;
pub mod select;
pub mod spawner;
pub mod task;
pub mod task_queue;

pub use interrupt::Interrupt;
pub use join::Join;
pub use poll::Poll;
pub use run::run_step;
pub use run::run_trace;
pub use run::Control;
pub use select::Select;
pub use spawner::BridgeCell;
pub use task::new_task;
pub use task::Task;
pub use task_queue::CapacityError;
pub use task_queue::TaskQueue;
