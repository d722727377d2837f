pub mod editor;
pub mod notes;
pub mod settings;
pub mod text;
