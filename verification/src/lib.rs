//! Control logic of an in-game overlay: the events it reports, the packets that carry them,
//! the requests it answers, and the decisions its injector, hooks and renderers take.

pub mod addon;
pub mod augment;
pub mod backend;
pub mod client;
pub mod codec;
pub mod conv;
pub mod dx11;
pub mod dx12;
pub mod dx9;
pub mod dxgi;
pub mod event;
pub mod helper;
pub mod hooks;
pub mod injector;
pub mod input;
pub mod js;
pub mod pipe;
pub mod primitive;
pub mod process;
pub mod render;
pub mod renderers;
pub mod request;
pub mod server;
pub mod signature;
pub mod surface;
pub mod text;
pub mod util;
pub mod vulkan;
pub mod wire;

