pub mod ethernet;
