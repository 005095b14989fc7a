//! Classic BPF packet filter programs: bit-exact instruction encoding and
//! the protocol for attaching a program to a socket.

mod attach;
pub mod bpf;
mod bpf_base;
pub mod wire;

pub use attach::attach_outcome;
pub use attach::attach_reports;
pub use attach::detach_filter;
pub use attach::detach_outcome;
pub use attach::detach_reports;
pub use attach::AttachError;
pub use attach::BPFOperations;
pub use attach::DetachError;
pub use attach::DeviceControl;
pub use attach::FilterState;
pub use attach::KernelCall;
pub use attach::Mechanism;
pub use attach::SocketOption;
pub use bpf_base::instructions;
pub use bpf_base::same_instruction;
pub use bpf_base::BPFCode;
pub use bpf_base::BPFFProg;
pub use bpf_base::BPFFilter;
pub use bpf_base::ConstructionError;
pub use bpf_base::Instruction;
pub use wire::ByteOrder;
