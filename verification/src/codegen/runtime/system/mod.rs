pub mod class_name_of;
pub mod get_debug_type;
pub mod json_data;
pub mod regex_locale;
