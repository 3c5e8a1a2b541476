pub mod fw_component;
pub mod mctp_transport;
