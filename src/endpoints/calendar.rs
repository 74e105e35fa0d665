pub mod events;
