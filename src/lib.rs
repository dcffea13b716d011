//! Core logic of a menubar text-correction utility: the settings store, the
//! localization resolver, hotkey rebinding, the clipboard correction
//! pipeline's decisions, the auto-paste state machine and the encoding used
//! by the secure key-value store.
pub mod completion;
pub mod json;
pub mod locale;
pub mod notify;
pub mod paste;
pub mod settings;
pub mod shortcut;
pub mod storage;
pub mod text;
pub mod trigger;
