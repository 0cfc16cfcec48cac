//! The email gateway handle: the sender identity and credential a
//! delivery transport needs. The transport itself does network I/O and
//! lives outside the core; it reads the fields through the accessors.

pub mod email_smtp;
