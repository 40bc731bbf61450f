//! Client library for a remote terminal-as-a-service platform: container and
//! file requests, and the interactive terminal session with its resize
//! control protocol.

mod client;
mod error;
mod terminal;
mod types;


pub use client::{
    container_action_path, container_path, containers_path, error_from_field,
    error_from_response, files_list_path, files_path, is_success, mkdir_path, ws_url_from_parts, ClientConfig,
    Endpoint, UrlParts,
};
pub use error::Error;
pub use terminal::{
    terminal_handshake, Frame, Handshake, Incoming, ReadStep, Terminal, DEFAULT_COLS,
    DEFAULT_ROWS,
};

pub use types::{
    Container, ContainerStatus, CreateContainerRequest, FileInfo, ResizeMessage,
};
