//! A MIDI arpeggiator / note-repeater engine.
//!
//! The engine tracks which input notes are currently held, decides on a timed
//! cadence when to emit a repetition, selects which configured step to apply
//! next, and derives the outgoing event from the held note and that step.
//! Host integration (parameter storage, GUI, plugin scaffolding) is an
//! external collaborator: it hands the engine plain configuration snapshots
//! and receives the emitted events.

pub mod cursor;
pub mod engine;
pub mod freq;
pub mod note_event;
pub mod registry;
pub mod step;
pub mod trigger_mode;

pub use engine::Engine;
pub use freq::FrequencySpec;
pub use freq::FrequencyType;
pub use note_event::HeldNote;
pub use note_event::NoteEvent;
pub use registry::HeldNoteRegistry;
pub use step::Step;
pub use step::StepTable;
pub use trigger_mode::TriggerMode;
