//! Typed UI events from an editor's redraw notifications, and what to make of the
//! end of a session.
//!
//! The editor sends `redraw` notifications whose arguments are batches of
//! untyped values. [`dispatch`] routes a notification by its name, [`decode`]
//! turns one batch into events, and [`extract`] reads the one kind of event that
//! is modelled in full, the `cmdline_show`. When the loop that talks to the
//! editor ends, [`classify`] says what that end amounts to, and [`on_fault`] and
//! [`after_notify`] say what is to be done about it.
//!
//! Nothing here reads or writes: the caller hands values in and carries out what
//! comes back.

pub mod cmdline_show;
pub mod convert;
pub mod decode;
pub mod dispatch;
pub mod event;
pub mod fault;
pub mod scan;
pub mod session;
pub mod value;

pub use cmdline_show::extract;
pub use decode::decode;
pub use dispatch::{dispatch, Dispatch};
pub use event::{CmdlineShowEvent, RedrawEvent};
pub use fault::{DecodeFault, FaultDetail, Field, Found};
pub use session::{
    after_notify, classify, on_fault, Diagnostic, ErrorChain, Followup, LoopResult, NotifyFault,
    SessionOutcome,
};
pub use value::{Value, ValueKind};
