pub mod connection_result_dialog;
