//! The engine's own tasks, grouped by category. Each module states its task
//! kinds, their defaults and what a run's result means.
pub mod cvm;
pub mod system;

use crate::engine::EngineConfig;
use crate::manager::{spec_states, BackgroundTasksBuilder};
use crate::span::Span;
use vstd::prelude::*;

verus! {

/// Composes the engine's background work.
pub fn background_tasks(config: &EngineConfig, watchdog: Option<Span>) -> (builder:
    BackgroundTasksBuilder)
    requires
        config.wf(),
        watchdog matches Some(w) ==> w.wf(),
    ensures
        builder.wf(),
        cvm::registered(
            system::with_system_tasks(spec_states(Seq::empty()), *config, watchdog),
            Seq::empty(),
            config.cvm_sync,
            builder,
        ),
{
    let builder = system::register(BackgroundTasksBuilder::new(), config, watchdog);
    cvm::register(builder, config)
}

} // verus!
