pub mod controller_state;
pub mod history_list;
pub mod panel;
