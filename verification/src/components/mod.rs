pub mod alert;
pub mod alerts;
pub mod connection_result_dialog;
pub mod input_dialog;
pub mod input_value;
pub mod navigation_input;
pub mod table;
pub mod text_input;
