//! Lights up a user's inactive fan badges: reads every page of the badge
//! listing, then for each inactive badge posts a check-in message into the
//! badge's live room, trying alternate texts past content filtering and
//! equipping the badge once when a level gate it meets blocks the messages.
//! Each part is a state machine that decides the next request to the badge
//! service from its replies; the caller performs the requests.

pub mod activation;
pub mod cli;
pub mod enumerate;
pub mod medal;
pub mod run;
pub mod sender;
pub mod session;
