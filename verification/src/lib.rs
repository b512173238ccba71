//! A checked model of an acquisition-device control interface: typed trigger
//! and reference enums with their fixed driver code tables, the packed
//! channel-descriptor codec, the command descriptor with its owned channel
//! list, the subdevice capability bitfield, the bounded command-validation
//! protocol, and the error taxonomy shared with the device-facing layer.

mod cmd;
mod codec;
mod device;
mod errors;
mod flags;
mod protocol;
mod types;

pub use cmd::Cmd;
pub use cmd::CmdView;
pub use codec::cr_pack;
pub use codec::cr_unpack;
pub use device::device_path;
pub use device::maxdata_of_raw;
pub use device::read_subdevice_of_code;
pub use errors::ComediError;
pub use flags::Bitfield;
pub use flags::SDF;
pub use protocol::ValidationAction;
pub use protocol::ValidationBudget;
pub use types::ARef;
pub use types::CommandTestResult;
pub use types::ConvertTrigger;
pub use types::IODirection;
pub use types::LSampl;
pub use types::OORBehavior;
pub use types::Sampl;
pub use types::SamplType;
pub use types::ScanBeginTrigger;
pub use types::ScanEndTrigger;
pub use types::StartTrigger;
pub use types::StopTrigger;
pub use types::Unit;
