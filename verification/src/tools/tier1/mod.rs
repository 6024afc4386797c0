//! Tools that act.

pub mod join_room;
pub mod leave_room;
pub mod send_direct_message;
pub mod send_message;
pub mod set_room_name;
