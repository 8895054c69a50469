pub mod websockets;
