//! Who may use the bot, where, and which tracks may be played.
use std::collections::HashSet;
use vstd::prelude::*;

verus! {

broadcast use vstd::std_specs::hash::group_hash_axioms;

/// The permission rules of a guild. An empty channel allow-list admits every
/// channel, and an empty admin-role set admits every member.
#[derive(Debug)]
pub struct PermissionPolicy {
    pub admin_role_ids: HashSet<u64>,
    pub allowed_channel_ids: HashSet<u64>,
    pub blocked_user_ids: HashSet<u64>,
    /// Blocked track ids; only membership matters, so a repeated id changes
    /// nothing.
    pub blocked_track_ids: Vec<String>,
}

impl Default for PermissionPolicy {
    fn default() -> (p: Self)
        ensures
            p.admin_role_ids@ == Set::<u64>::empty(),
            p.allowed_channel_ids@ == Set::<u64>::empty(),
            p.blocked_user_ids@ == Set::<u64>::empty(),
            p.blocked_track_ids@ == Seq::<String>::empty(),
    {
        PermissionPolicy {
            admin_role_ids: HashSet::new(),
            allowed_channel_ids: HashSet::new(),
            blocked_user_ids: HashSet::new(),
            blocked_track_ids: Vec::new(),
        }
    }
}

/// Some role of `roles` is an admin role.
pub open spec fn holds_admin_role(admins: Set<u64>, roles: Seq<u64>) -> bool {
    exists|i: int| 0 <= i < roles.len() && admins.contains(roles[i])
}

/// The rule of `can_use`: the user is not blocked, the channel is allowed
/// (or no channel is listed), and the user holds an admin role (or no admin
/// role is configured).
pub open spec fn may_use(
    admins: Set<u64>,
    channels: Set<u64>,
    blocked: Set<u64>,
    user_id: u64,
    channel_id: u64,
    roles: Seq<u64>,
) -> bool {
    &&& !blocked.contains(user_id)
    &&& (channels.is_empty() || channels.contains(channel_id))
    &&& (admins.is_empty() || holds_admin_role(admins, roles))
}

/// The rule of `can_play_track`: neither the user nor the track is blocked.
pub open spec fn may_play(blocked: Set<u64>, tracks: Seq<String>, user_id: u64, track_id: Seq<char>) -> bool {
    !blocked.contains(user_id) && !track_blocked(tracks, track_id)
}

/// `track_id` is on the block list.
pub open spec fn track_blocked(list: Seq<String>, track_id: Seq<char>) -> bool {
    exists|i: int| 0 <= i < list.len() && list[i]@ == track_id
}

impl PermissionPolicy {
    /// Whether `user_id`, holding `roles`, may use the bot in `channel_id`.
    pub fn can_use(&self, user_id: u64, channel_id: u64, roles: &[u64]) -> (b: bool)
        ensures
            b == may_use(
                self.admin_role_ids@,
                self.allowed_channel_ids@,
                self.blocked_user_ids@,
                user_id,
                channel_id,
                roles@,
            ),
    {
        if self.blocked_user_ids.contains(&user_id) {
            return false;
        }
        if !(self.allowed_channel_ids.is_empty() || self.allowed_channel_ids.contains(&channel_id)) {
            return false;
        }
        if self.admin_role_ids.is_empty() {
            return true;
        }
        let mut i: usize = 0;
        while i < roles.len()
            invariant
                i <= roles@.len(),
                !self.blocked_user_ids@.contains(user_id),
                self.allowed_channel_ids@.is_empty() || self.allowed_channel_ids@.contains(channel_id),
                !self.admin_role_ids@.is_empty(),
                forall|k: int| 0 <= k < i ==> !self.admin_role_ids@.contains(#[trigger] roles@[k]),
            decreases roles@.len() - i,
        {
            if self.admin_role_ids.contains(&roles[i]) {
                assert(self.admin_role_ids@.contains(roles@[i as int]));
                return true;
            }
            i = i + 1;
        }
        false
    }

    /// Whether `user_id` may play the track `track_id`: neither is blocked.
    pub fn can_play_track(&self, user_id: u64, track_id: &str) -> (b: bool)
        ensures
            b == may_play(self.blocked_user_ids@, self.blocked_track_ids@, user_id, track_id@),
    {
        if self.blocked_user_ids.contains(&user_id) {
            return false;
        }
        let wanted = track_id.to_owned();
        let mut i: usize = 0;
        while i < self.blocked_track_ids.len()
            invariant
                wanted@ == track_id@,
                i <= self.blocked_track_ids@.len(),
                forall|k: int| 0 <= k < i ==> (#[trigger] self.blocked_track_ids@[k])@ != track_id@,
            decreases self.blocked_track_ids@.len() - i,
        {
            if self.blocked_track_ids[i] == wanted {
                return false;
            }
            i = i + 1;
        }
        true
    }
}

/// A blocked user may neither use the bot nor play any track, whatever the
/// channel, roles or track.
pub proof fn law_blocked_user_denied(
    admins: Set<u64>,
    channels: Set<u64>,
    blocked: Set<u64>,
    tracks: Seq<String>,
    user_id: u64,
    channel_id: u64,
    roles: Seq<u64>,
    track_id: Seq<char>,
)
    requires
        blocked.contains(user_id),
    ensures
        !may_use(admins, channels, blocked, user_id, channel_id, roles),
        !may_play(blocked, tracks, user_id, track_id),
{
}

/// With no channel list and no admin role, every user who is not blocked
/// may use the bot anywhere.
pub proof fn law_open_policy_admits_unblocked(
    blocked: Set<u64>,
    user_id: u64,
    channel_id: u64,
    roles: Seq<u64>,
)
    ensures
        may_use(Set::empty(), Set::empty(), blocked, user_id, channel_id, roles) <==> !blocked.contains(
            user_id,
        ),
{
}

/// An admin role counts wherever it stands in the member's role list: at
/// the front, at the back or in between. With one, a member who is not
/// blocked may use the bot in every allowed channel, and with no role at all
/// a member holds no admin role.
pub proof fn law_admin_role_counts_anywhere(
    admins: Set<u64>,
    channels: Set<u64>,
    blocked: Set<u64>,
    user_id: u64,
    channel_id: u64,
    before: Seq<u64>,
    role: u64,
    after: Seq<u64>,
)
    requires
        admins.contains(role),
    ensures
        holds_admin_role(admins, before + seq![role] + after),
        may_use(admins, channels, blocked, user_id, channel_id, before + seq![role] + after) <==> (
        !blocked.contains(user_id) && (channels.is_empty() || channels.contains(channel_id))),
        !holds_admin_role(admins, Seq::<u64>::empty()),
{
    let roles = before + seq![role] + after;
    assert(roles[before.len() as int] == role);
}

/// Whether a member holds an admin role does not depend on the order in
/// which the roles are listed: two lists with the same roles, as many times
/// each, give the same answer, and so does `can_use`.
pub proof fn law_admin_role_ignores_order(
    admins: Set<u64>,
    channels: Set<u64>,
    blocked: Set<u64>,
    user_id: u64,
    channel_id: u64,
    roles: Seq<u64>,
    reordered: Seq<u64>,
)
    requires
        roles.to_multiset() == reordered.to_multiset(),
    ensures
        holds_admin_role(admins, roles) == holds_admin_role(admins, reordered),
        may_use(admins, channels, blocked, user_id, channel_id, roles) == may_use(
            admins,
            channels,
            blocked,
            user_id,
            channel_id,
            reordered,
        ),
{
    broadcast use vstd::seq_lib::group_to_multiset_ensures;

    if holds_admin_role(admins, roles) {
        let i = choose|i: int| 0 <= i < roles.len() && admins.contains(roles[i]);
        assert(roles.contains(roles[i]));
        assert(roles.to_multiset().count(roles[i]) > 0);
        assert(reordered.contains(roles[i]));
        let j = choose|j: int| 0 <= j < reordered.len() && reordered[j] == roles[i];
        assert(admins.contains(reordered[j]));
    }
    if holds_admin_role(admins, reordered) {
        let i = choose|i: int| 0 <= i < reordered.len() && admins.contains(reordered[i]);
        assert(reordered.contains(reordered[i]));
        assert(reordered.to_multiset().count(reordered[i]) > 0);
        assert(roles.contains(reordered[i]));
        let j = choose|j: int| 0 <= j < roles.len() && roles[j] == reordered[i];
        assert(admins.contains(roles[j]));
    }
}

} // verus!
