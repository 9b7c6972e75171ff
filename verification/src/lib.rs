//! The decisions of a process launcher for Windows that hands file
//! descriptors of the universal C runtime to child processes at chosen
//! descriptor numbers, verified.
//!
//! A child process inherits descriptors by their slot numbers. To give a
//! child a descriptor as slot 3, say, the parent has to put it into its own
//! slot 3 before it launches the child, and to put back afterwards whatever
//! slot 3 held. [`relocate`] holds that protocol, [`lock`] the reentrant
//! process lock under which it runs, [`child`] what is done with the child
//! once it runs, and [`spawn`] the command line that launches it.
//!
//! The library calls neither the C runtime nor the operating system. Every
//! operation is a machine: it says which call is to be made, takes what the
//! call returned, and says what is to be done next. A driver makes the
//! calls. What the calls do to the descriptor table is modelled in
//! [`table`], and [`run`] proves of every run of a relocation against that
//! model that the table comes back as it was.

pub mod child;
pub mod descriptor;
pub mod error;
pub mod lock;
pub mod mode;
pub mod relocate;
pub mod run;
pub mod spawn;
pub mod table;
pub mod win32;

pub use crate::child::Child;
pub use crate::descriptor::FileDescriptor;
pub use crate::error::OsError;
pub use crate::mode::Mode;
pub use crate::relocate::move_fd;
pub use crate::spawn::spawn;
