pub mod apply_complete;
pub mod get_fw_params;
pub mod get_status;
pub mod pass_component;
pub mod query_devid;
pub mod request_cancel;
pub mod request_update;
pub mod transfer_complete;
pub mod update_component;
pub mod verify_complete;
