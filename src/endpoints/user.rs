pub mod staff;
