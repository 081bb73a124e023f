pub mod annexb;
pub mod buffer;
pub mod ffmpeg;
pub mod relay_laws;
pub mod rtt;
pub mod stats;
pub mod stream;
pub mod transport;
pub mod video;
pub mod web_socket;
