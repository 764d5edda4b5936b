pub mod dns;
