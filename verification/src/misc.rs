//! Small helpers around messages.

use vstd::prelude::*;

use crate::text::{spec_u64_dec, u64_to_dec};

verus! {

/// The address of one message: guild, channel and message identifier,
/// each written in decimal.
pub open spec fn spec_message_url(guild_id: int, channel_id: int, message_id: int) -> Seq<char> {
    "https://discordapp.com/channels/"@ + spec_u64_dec(guild_id) + "/"@ + spec_u64_dec(channel_id)
        + "/"@ + spec_u64_dec(message_id)
}

/// Renders the address of one message from its three identifiers.
pub fn get_message_url(guild_id: u64, channel_id: u64, message_id: u64) -> (r: String)
    ensures
        r@ == spec_message_url(guild_id as int, channel_id as int, message_id as int),
{
    let mut r: String = "https://discordapp.com/channels/".to_owned();
    r.append(u64_to_dec(guild_id).as_str());
    r.append("/");
    r.append(u64_to_dec(channel_id).as_str());
    r.append("/");
    r.append(u64_to_dec(message_id).as_str());
    proof {
        assert(r@ =~= spec_message_url(guild_id as int, channel_id as int, message_id as int));
    }
    r
}

} // verus!
