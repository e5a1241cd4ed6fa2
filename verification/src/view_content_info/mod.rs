pub mod tv;
