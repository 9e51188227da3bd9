//! A verified core for an oracle-driven browser agent. Two pieces carry
//! the weight: the locator resolver, which turns plain observations of
//! a page's elements into a map of unique keys to locator descriptors,
//! and the step engine, which decodes an untrusted oracle reply into a
//! closed action vocabulary, guards against redundant extraction work,
//! classifies each step's result and bounds the whole run. Browser,
//! network and file work stays outside; callers feed results in as
//! plain values.

pub mod actions;
pub mod agent;
pub mod executor;
pub mod interactive_elements;
pub mod jsonprobe;
pub mod numtext;
pub mod orchestrator;
pub mod planner;
pub mod prompts;
pub mod task;
pub mod textutil;
