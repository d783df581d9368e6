//! Drag interaction and input processing of a tiling window manager, as
//! verified state machines over plain values.

pub mod actor_laws;
pub mod apps;
pub mod drag;
pub mod drag_events;
pub mod drag_laws;
pub mod drag_manager;
pub mod drop_laws;
pub mod event_tap;
pub mod event_tap_laws;
pub mod exact;
pub mod frame_events;
pub mod geometry;
pub mod handler_laws;
pub mod hit_test;
pub mod hit_test_laws;
pub mod hotkeys;
pub mod ids;
pub mod input_laws;
pub mod keys;
pub mod layout;
pub mod measure_laws;
pub mod model;
pub mod modifier_drag;
pub mod outcome;
pub mod publisher;
pub mod reactor_laws;
pub mod scalar;
pub mod settings;
pub mod shared_hotkeys;
pub mod table;
pub mod transactions;
pub mod window_events;
pub mod windows;
