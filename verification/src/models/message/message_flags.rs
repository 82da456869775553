//! Every flag a message can have, as its bit.

use vstd::prelude::*;

verus! {

pub const CROSSPOST: u64 = 1;
pub const IS_CROSSPOST: u64 = 2;
pub const SUPRESS_EMBEDS: u64 = 4;
pub const SOURCE_MESSAGE_DELETED: u64 = 8;
pub const URGENT: u64 = 16;
pub const HAS_THREAD: u64 = 32;
pub const EPHEMERAL: u64 = 64;
pub const LOADING: u64 = 128;
pub const FAILED_TO_MENTION_SOME_ROLES_IN_THREAD: u64 = 256;
pub const SUPPRESS_NOTIFICATIONS: u64 = 4096;
pub const IS_VOICE: u64 = 8192;

} // verus!
