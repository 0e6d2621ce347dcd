//! Supervision of a desktop shell's backend process: where to find the
//! backend executable, when to spawn and terminate it, and the decoding
//! step of the file-save command.
pub mod locate;
pub mod save;
pub mod status;
pub mod supervisor;

pub use status::{ShellError, Status};
pub use locate::{candidate_paths, locate_backend, platform_executable_name};
pub use supervisor::{stop_report, StartAction, Supervisor};
pub use save::{finish_save, plan_save, request_write, WriteRequest};
