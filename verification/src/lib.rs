//! Small actors, a counting actor and a "shared office" future, with the
//! decisions each of them makes stated as contracts and proved.

pub mod channel;
pub mod actor;
pub mod actix_actor_play;
pub mod my_future;
