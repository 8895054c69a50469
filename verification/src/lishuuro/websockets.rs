pub mod rooms;
