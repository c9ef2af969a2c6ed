//! A minimal execution kernel for the actor model.
//!
//! A single-threaded, run-to-completion scheduler delivers events to
//! actors one at a time. Each reaction stages its desired side effects in
//! a private draft — actor creations, outgoing sends, a behavior
//! replacement, or a failure flag — and the scheduler commits the draft
//! atomically, or discards it whole when the reaction failed.

mod actor;
mod behavior;
mod config;
mod effect;
mod error;
mod event;
mod laws;
mod message;

pub use actor::lemma_actor_identity;
pub use actor::Actor;
pub use behavior::behavior_view;
pub use behavior::behavior_views;
pub use behavior::event_views;
pub use behavior::reaction;
pub use behavior::Behavior;
pub use behavior::BehaviorView;
pub use config::apply;
pub use config::booted;
pub use config::sched_run;
pub use config::sched_step;
pub use config::Config;
pub use config::ConfigView;
pub use effect::Effect;
pub use effect::EffectView;
pub use error::Error;
pub use error::ErrorView;
pub use error::Fault;
pub use error::FaultView;
pub use event::Event;
pub use event::EventView;
pub use laws::lemma_created_identities;
pub use laws::lemma_failed_draft_commits_nothing;
pub use laws::lemma_label_decorates;
pub use laws::lemma_once_forwards_then_absorbs;
pub use laws::lemma_registry_append_only;
pub use laws::lemma_run_of_two;
pub use laws::lemma_runs_compose;
pub use laws::lemma_sink_stages_nothing;
pub use laws::lemma_step_of_absorber;
pub use laws::lemma_step_of_failed_reaction;
pub use laws::lemma_step_serves_oldest_first;
pub use message::msg_view;
pub use message::Message;
pub use message::MessageView;
