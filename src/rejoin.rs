use crate::config::ModerationConfig;
use vstd::prelude::*;

verus! {

/// What reconciling a member who joins calls for.
#[derive(Clone, Copy, Debug, PartialEq, Eq, Structural)]
pub enum RejoinAction {
    /// Nothing at all.
    Ignore,
    /// Look up the member's suspension record.
    LookUp { member_id: u64 },
    /// Give the member the suspension marker role again.
    AddRole { member_id: u64, role_id: u64 },
}

/// What a join to `guild_id` calls for.
pub open spec fn join_action(config: ModerationConfig, guild_id: u64, member_id: u64) -> RejoinAction {
    if guild_id == config.home_guild_id {
        RejoinAction::LookUp { member_id }
    } else {
        RejoinAction::Ignore
    }
}

/// What the answer of the record lookup calls for.
pub open spec fn lookup_action(config: ModerationConfig, member_id: u64, suspended: bool) -> RejoinAction {
    if suspended {
        RejoinAction::AddRole { member_id, role_id: config.dunce_role_id }
    } else {
        RejoinAction::Ignore
    }
}

/// A member joined the community `guild_id`: only a join to the home
/// community is worth a look at the member's suspension record.
pub fn on_member_join(config: &ModerationConfig, guild_id: u64, member_id: u64) -> (r:
    RejoinAction)
    ensures
        r == join_action(*config, guild_id, member_id),
{
    if guild_id != config.home_guild_id {
        RejoinAction::Ignore
    } else {
        RejoinAction::LookUp { member_id }
    }
}

/// The lookup of a joining member's suspension record came back: a member
/// who is still suspended gets the marker role again; stored roles are left
/// as they are.
pub fn on_record_lookup(config: &ModerationConfig, member_id: u64, suspended: bool) -> (r:
    RejoinAction)
    ensures
        r == lookup_action(*config, member_id, suspended),
{
    if suspended {
        RejoinAction::AddRole { member_id, role_id: config.dunce_role_id }
    } else {
        RejoinAction::Ignore
    }
}

/// A suspended member who rejoins the home community is looked up and gets
/// the marker role back; a join to any other community is never looked up.
pub proof fn lemma_rejoin_restores_marker(
    config: ModerationConfig,
    guild_id: u64,
    member_id: u64,
    suspended: bool,
)
    ensures
        guild_id == config.home_guild_id ==> join_action(config, guild_id, member_id)
            == (RejoinAction::LookUp { member_id }),
        guild_id == config.home_guild_id && suspended ==> lookup_action(config, member_id, suspended)
            == (RejoinAction::AddRole { member_id, role_id: config.dunce_role_id }),
        guild_id != config.home_guild_id ==> join_action(config, guild_id, member_id)
            == RejoinAction::Ignore,
{
}

} // verus!
