pub mod container_status;
