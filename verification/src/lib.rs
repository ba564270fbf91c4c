//! Verified interface logic of the Argus log workbench.

pub mod agent;
pub mod agent_dialog;
pub mod agent_event;
pub mod agent_stream;
pub mod agent_view;
pub mod agent_window;
pub mod ai_config;
pub mod ai_settings;
pub mod ai_settings_editor;
pub mod ai_settings_view;
pub mod analysis_laws;
pub mod appearance_laws;
pub mod assistant_laws;
pub mod assistant_model;
pub mod assistant_panel;
pub mod assistant_view;
pub mod calendar;
pub mod clock;
pub mod composer_laws;
pub mod connection_dialog;
pub mod context_menu;
pub mod conversation_laws;
pub mod datetime_picker;
pub mod dialog_laws;
pub mod dialogs;
pub mod dropdown;
pub mod editing_laws;
pub mod form_laws;
pub mod icon;
pub mod icon_button;
pub mod input_behavior;
pub mod input_field;
pub mod input_laws;
pub mod keystroke;
pub mod log_matcher;
pub mod markdown;
pub mod markdown_blocks;
pub mod markdown_events;
pub mod markdown_inline;
pub mod markdown_laws;
pub mod mention_laws;
pub mod mention_query;
pub mod mentions;
pub mod metrics;
pub mod model_laws;
pub mod placeholders;
pub mod row_laws;
pub mod settings_laws;
pub mod text;
pub mod text_input;
pub mod text_laws;
pub mod text_selection;
pub mod theme;
