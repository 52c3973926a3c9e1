//! Game rules of the Burrito Battle minigames: the hospital, where burritos
//! without lives rest in recovery capsules, and the incursion, where players
//! fight a mega burrito together.

pub mod account;
pub mod account_map;
pub mod decimal;
pub mod text;

pub mod hospital;
pub mod incursion;
pub mod incursion_play;
pub mod incursion_laws;
