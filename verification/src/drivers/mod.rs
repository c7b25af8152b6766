//! Device drivers: the register layouts and protocols of storage
//! controllers.
pub mod ahci;
pub mod graphics;
pub mod nvme;
