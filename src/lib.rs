//! Conversion orchestration for a media transcoding service: format and speed
//! tables, GPU classification and hardware encoder resolution, argument
//! synthesis for the transcoder, probe-output parsing, the job registry with
//! its lifecycle rules, and deferred reclamation of jobs and artifacts.

pub mod cleanup;
pub mod converter;
pub mod format;
pub mod gpu;
pub mod http;
pub mod job;
pub mod laws;
pub mod progress;
pub mod registry;
pub mod session;
pub mod speed;
pub mod text;

pub use converter::{Converter, ConverterInput, ConverterOutput};
pub use format::{Conversion, ConverterFormat};
pub use gpu::ConverterGPU;
pub use job::Job;
pub use registry::AppState;
pub use speed::ConversionSpeed;
