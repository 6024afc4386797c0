//! Tools that read.

pub mod get_direct_messages;
pub mod get_messages_by_date;
pub mod get_my_profile;
pub mod get_room_info;
pub mod get_room_members;
pub mod get_room_messages;
pub mod get_user_profile;
pub mod identify_active_users;
pub mod list_joined_rooms;
pub mod search_public_rooms;
