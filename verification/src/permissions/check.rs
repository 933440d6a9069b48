//! A permission check as a state machine that asks the database for one
//! fact at a time.

use vstd::prelude::*;
use super::keys::{key_name, PermissionKey};
use super::repository::{ChannelFeatureFlags, ChannelOverride, RolePermission};
use super::resolver::{
    check_layer1_hoster_bypass, check_layer2_membership, check_layer3_role_permissions,
    check_layer4_channel_override, check_layer5_feature_flags, denied, feature_layer, hoster_layer,
    membership_layer, opt_decision, override_layer, resolve, role_fallback, role_layer, Decision,
    PermissionFacts, PermissionResult,
};

verus! {

/// Which fact the check waits for.
#[derive(Debug, Clone, Copy, PartialEq, Eq, Structural)]
pub enum CheckStage {
    AwaitHost,
    AwaitMembership,
    AwaitRoleIds,
    AwaitRolePermissions,
    AwaitOverrides,
    AwaitFeatureFlags,
    Finished,
}

/// A fact that the check needs from the database.
#[derive(Debug)]
pub enum CheckQuery {
    /// The owner of the instance, if there is one.
    HostUserId,
    /// Whether the user belongs to the space.
    IsSpaceMember { space_id: u128, user_id: u128 },
    /// The roles the user holds in the space.
    RoleIdsForUser { space_id: u128, user_id: u128 },
    /// The permission entries of these roles.
    RolePermissions { role_ids: Vec<u128> },
    /// The channel's overrides for these roles.
    ChannelOverrides { channel_id: u128, role_ids: Vec<u128> },
    /// The channel's feature switches (the defaults when none are stored).
    ChannelFeatureFlags { channel_id: u128 },
}

/// What the check does next.
#[derive(Debug)]
pub enum CheckStep {
    Ask(CheckQuery),
    Decided(PermissionResult),
}

/// The database's answer to a query.
pub enum CheckAnswer {
    HostUserId(Option<u128>),
    IsSpaceMember(bool),
    RoleIds(Vec<u128>),
    RolePermissions(Vec<RolePermission>),
    ChannelOverrides(Vec<ChannelOverride>),
    ChannelFeatureFlags(ChannelFeatureFlags),
}

/// A query, as its values.
pub enum QueryView {
    HostUserId,
    IsSpaceMember(u128, u128),
    RoleIdsForUser(u128, u128),
    RolePermissions(Seq<u128>),
    ChannelOverrides(u128, Seq<u128>),
    ChannelFeatureFlags(u128),
}

/// A step, as its values.
pub enum StepView {
    Ask(QueryView),
    Decided(Decision),
}

/// An answer, as its values.
pub enum AnswerView {
    HostUserId(Option<u128>),
    IsSpaceMember(bool),
    RoleIds(Seq<u128>),
    RolePermissions(Seq<RolePermission>),
    ChannelOverrides(Seq<ChannelOverride>),
    ChannelFeatureFlags(ChannelFeatureFlags),
}

impl View for CheckQuery {
    type V = QueryView;

    open spec fn view(&self) -> QueryView {
        match self {
            CheckQuery::HostUserId => QueryView::HostUserId,
            CheckQuery::IsSpaceMember { space_id, user_id } => QueryView::IsSpaceMember(*space_id, *user_id),
            CheckQuery::RoleIdsForUser { space_id, user_id } => QueryView::RoleIdsForUser(*space_id, *user_id),
            CheckQuery::RolePermissions { role_ids } => QueryView::RolePermissions(role_ids@),
            CheckQuery::ChannelOverrides { channel_id, role_ids } => QueryView::ChannelOverrides(*channel_id, role_ids@),
            CheckQuery::ChannelFeatureFlags { channel_id } => QueryView::ChannelFeatureFlags(*channel_id),
        }
    }
}

impl View for CheckStep {
    type V = StepView;

    open spec fn view(&self) -> StepView {
        match self {
            CheckStep::Ask(q) => StepView::Ask(q@),
            CheckStep::Decided(r) => StepView::Decided(r@),
        }
    }
}

impl View for CheckAnswer {
    type V = AnswerView;

    open spec fn view(&self) -> AnswerView {
        match self {
            CheckAnswer::HostUserId(h) => AnswerView::HostUserId(*h),
            CheckAnswer::IsSpaceMember(b) => AnswerView::IsSpaceMember(*b),
            CheckAnswer::RoleIds(ids) => AnswerView::RoleIds(ids@),
            CheckAnswer::RolePermissions(rps) => AnswerView::RolePermissions(rps@),
            CheckAnswer::ChannelOverrides(ovs) => AnswerView::ChannelOverrides(ovs@),
            CheckAnswer::ChannelFeatureFlags(f) => AnswerView::ChannelFeatureFlags(*f),
        }
    }
}

/// The state of a check.
pub struct CheckView {
    pub user_id: u128,
    pub permission: PermissionKey,
    pub space_id: Option<u128>,
    pub channel_id: Option<u128>,
    pub stage: CheckStage,
    pub role_ids: Seq<u128>,
    pub role_allowed: Option<Decision>,
}

/// A permission check in progress.
pub struct PermissionCheck {
    user_id: u128,
    permission: PermissionKey,
    space_id: Option<u128>,
    channel_id: Option<u128>,
    stage: CheckStage,
    role_ids: Vec<u128>,
    role_allowed: Option<PermissionResult>,
}

impl View for PermissionCheck {
    type V = CheckView;

    closed spec fn view(&self) -> CheckView {
        CheckView {
            user_id: self.user_id,
            permission: self.permission,
            space_id: self.space_id,
            channel_id: self.channel_id,
            stage: self.stage,
            role_ids: self.role_ids@,
            role_allowed: opt_decision(self.role_allowed),
        }
    }
}

/// Whether a check in `stage` waits for an answer of the kind of `a`.
pub open spec fn accepts(stage: CheckStage, a: AnswerView) -> bool {
    match a {
        AnswerView::HostUserId(_) => stage == CheckStage::AwaitHost,
        AnswerView::IsSpaceMember(_) => stage == CheckStage::AwaitMembership,
        AnswerView::RoleIds(_) => stage == CheckStage::AwaitRoleIds,
        AnswerView::RolePermissions(_) => stage == CheckStage::AwaitRolePermissions,
        AnswerView::ChannelOverrides(_) => stage == CheckStage::AwaitOverrides,
        AnswerView::ChannelFeatureFlags(_) => stage == CheckStage::AwaitFeatureFlags,
    }
}

/// A new check, before its first question.
pub open spec fn start_view(
    user_id: u128,
    permission: PermissionKey,
    space_id: Option<u128>,
    channel_id: Option<u128>,
) -> CheckView {
    CheckView {
        user_id,
        permission,
        space_id,
        channel_id,
        stage: CheckStage::AwaitHost,
        role_ids: seq![],
        role_allowed: None,
    }
}

pub open spec fn finished(s: CheckView) -> CheckView {
    CheckView { stage: CheckStage::Finished, role_allowed: None, ..s }
}

/// Once the roles have spoken: in a channel, its overrides (when the user
/// has roles) or its feature switches come next; elsewhere the roles decide.
pub open spec fn after_roles(s: CheckView) -> (CheckView, StepView) {
    if let Some(channel_id) = s.channel_id {
        if s.role_ids.len() == 0 {
            (
                CheckView { stage: CheckStage::AwaitFeatureFlags, ..s },
                StepView::Ask(QueryView::ChannelFeatureFlags(channel_id)),
            )
        } else {
            (
                CheckView { stage: CheckStage::AwaitOverrides, ..s },
                StepView::Ask(QueryView::ChannelOverrides(channel_id, s.role_ids)),
            )
        }
    } else {
        (finished(s), StepView::Decided(role_fallback(s.role_allowed, s.role_ids)))
    }
}

/// One step of the check: the state after the answer and what comes next.
pub open spec fn next(s: CheckView, a: AnswerView) -> (CheckView, StepView) {
    let key = key_name(s.permission);
    match a {
        AnswerView::HostUserId(h) => {
            if let Some(d) = hoster_layer(s.user_id, h) {
                (finished(s), StepView::Decided(d))
            } else if let Some(space_id) = s.space_id {
                (
                    CheckView { stage: CheckStage::AwaitMembership, ..s },
                    StepView::Ask(QueryView::IsSpaceMember(space_id, s.user_id)),
                )
            } else {
                (finished(s), StepView::Decided(Decision::Denied("No space provided"@)))
            }
        },
        AnswerView::IsSpaceMember(b) => {
            if let Some(d) = membership_layer(b) {
                (finished(s), StepView::Decided(d))
            } else {
                (
                    CheckView { stage: CheckStage::AwaitRoleIds, ..s },
                    StepView::Ask(QueryView::RoleIdsForUser(s.space_id->0, s.user_id)),
                )
            }
        },
        AnswerView::RoleIds(ids) => {
            if ids.len() == 0 {
                after_roles(CheckView { role_ids: ids, role_allowed: role_layer(seq![], key), ..s })
            } else {
                (
                    CheckView { stage: CheckStage::AwaitRolePermissions, role_ids: ids, ..s },
                    StepView::Ask(QueryView::RolePermissions(ids)),
                )
            }
        },
        AnswerView::RolePermissions(rps) => {
            after_roles(CheckView { role_allowed: role_layer(rps, key), ..s })
        },
        AnswerView::ChannelOverrides(ovs) => {
            if let Some(d) = override_layer(ovs, key) {
                (finished(s), StepView::Decided(d))
            } else {
                (
                    CheckView { stage: CheckStage::AwaitFeatureFlags, ..s },
                    StepView::Ask(QueryView::ChannelFeatureFlags(s.channel_id->0)),
                )
            }
        },
        AnswerView::ChannelFeatureFlags(flags) => {
            if let Some(d) = feature_layer(flags, s.permission) {
                (finished(s), StepView::Decided(d))
            } else {
                (finished(s), StepView::Decided(role_fallback(s.role_allowed, s.role_ids)))
            }
        },
    }
}

/// The database's answer to a query, as given by the facts it holds.
pub open spec fn answer_from(f: PermissionFacts, q: QueryView) -> AnswerView {
    match q {
        QueryView::HostUserId => AnswerView::HostUserId(f.host_user_id),
        QueryView::IsSpaceMember(_, _) => AnswerView::IsSpaceMember(f.is_member),
        QueryView::RoleIdsForUser(_, _) => AnswerView::RoleIds(f.role_ids),
        QueryView::RolePermissions(_) => AnswerView::RolePermissions(f.role_permissions),
        QueryView::ChannelOverrides(_, _) => AnswerView::ChannelOverrides(f.overrides),
        QueryView::ChannelFeatureFlags(_) => AnswerView::ChannelFeatureFlags(f.flags),
    }
}

/// Drives a check for at most `fuel` answers, each taken from the facts.
pub open spec fn run(s: CheckView, step: StepView, f: PermissionFacts, fuel: nat) -> StepView
    decreases fuel,
{
    match step {
        StepView::Decided(d) => StepView::Decided(d),
        StepView::Ask(q) => if fuel == 0 {
            step
        } else {
            let (s2, step2) = next(s, answer_from(f, q));
            run(s2, step2, f, (fuel - 1) as nat)
        },
    }
}

/// A check answered from the database decides, within six answers, exactly
/// what the layered resolution decides for the facts in the database.
pub proof fn lemma_check_decides_resolution(
    user_id: u128,
    permission: PermissionKey,
    space_id: Option<u128>,
    channel_id: Option<u128>,
    f: PermissionFacts,
)
    ensures
        run(
            start_view(user_id, permission, space_id, channel_id),
            StepView::Ask(QueryView::HostUserId),
            f,
            6,
        ) == StepView::Decided(resolve(user_id, permission, space_id, channel_id, f)),
{
    reveal_with_fuel(run, 7);
}

impl PermissionCheck {
    /// A check that waits for a membership, role or channel fact has a space;
    /// one that waits for a channel fact has a channel.
    #[verifier::type_invariant]
    spec fn well_formed(self) -> bool {
        &&& (self.stage != CheckStage::AwaitHost && self.stage != CheckStage::Finished) ==> self.space_id is Some
        &&& (self.stage == CheckStage::AwaitOverrides || self.stage == CheckStage::AwaitFeatureFlags) ==> self.channel_id is Some
    }

    /// Starts a check of `permission` for `user_id`; its first question is
    /// who owns the instance.
    pub fn start(
        user_id: u128,
        permission: PermissionKey,
        space_id: Option<u128>,
        channel_id: Option<u128>,
    ) -> (r: (PermissionCheck, CheckStep))
        ensures
            r.0@ == start_view(user_id, permission, space_id, channel_id),
            r.1@ == StepView::Ask(QueryView::HostUserId),
    {
        let check = PermissionCheck {
            user_id,
            permission,
            space_id,
            channel_id,
            stage: CheckStage::AwaitHost,
            role_ids: Vec::new(),
            role_allowed: None,
        };
        (check, CheckStep::Ask(CheckQuery::HostUserId))
    }

    /// What the check waits for.
    pub fn stage(&self) -> (s: CheckStage)
        ensures
            s == self@.stage,
    {
        self.stage
    }

    /// Whether the check waits for an answer of this kind.
    pub fn awaits(&self, a: &CheckAnswer) -> (b: bool)
        ensures
            b == accepts(self@.stage, a@),
    {
        match a {
            CheckAnswer::HostUserId(_) => self.stage == CheckStage::AwaitHost,
            CheckAnswer::IsSpaceMember(_) => self.stage == CheckStage::AwaitMembership,
            CheckAnswer::RoleIds(_) => self.stage == CheckStage::AwaitRoleIds,
            CheckAnswer::RolePermissions(_) => self.stage == CheckStage::AwaitRolePermissions,
            CheckAnswer::ChannelOverrides(_) => self.stage == CheckStage::AwaitOverrides,
            CheckAnswer::ChannelFeatureFlags(_) => self.stage == CheckStage::AwaitFeatureFlags,
        }
    }

    fn finish(&mut self, d: PermissionResult) -> (step: CheckStep)
        ensures
            final(self)@ == finished(old(self)@),
            step@ == StepView::Decided(d@),
    {
        proof {
            use_type_invariant(&*self);
        }
        self.stage = CheckStage::Finished;
        self.role_allowed = None;
        CheckStep::Decided(d)
    }

    fn finish_with_roles(&mut self) -> (step: CheckStep)
        ensures
            final(self)@ == finished(old(self)@),
            step@ == StepView::Decided(role_fallback(old(self)@.role_allowed, old(self)@.role_ids)),
    {
        proof {
            use_type_invariant(&*self);
        }
        let verdict = match &self.role_allowed {
            Some(PermissionResult::Allowed) => PermissionResult::Allowed,
            Some(PermissionResult::Denied(reason)) => PermissionResult::Denied(reason.clone()),
            None => if self.role_ids.len() == 0 {
                denied("No roles assigned")
            } else {
                denied("Permission not granted by any role")
            },
        };
        self.role_allowed = None;
        self.stage = CheckStage::Finished;
        CheckStep::Decided(verdict)
    }

    fn after_roles(&mut self) -> (step: CheckStep)
        requires
            old(self)@.stage == CheckStage::AwaitRoleIds || old(self)@.stage == CheckStage::AwaitRolePermissions,
        ensures
            final(self)@ == after_roles(old(self)@).0,
            step@ == after_roles(old(self)@).1,
    {
        proof {
            use_type_invariant(&*self);
        }
        match self.channel_id {
            Some(channel_id) => {
                if self.role_ids.len() == 0 {
                    self.stage = CheckStage::AwaitFeatureFlags;
                    CheckStep::Ask(CheckQuery::ChannelFeatureFlags { channel_id })
                } else {
                    self.stage = CheckStage::AwaitOverrides;
                    let role_ids = self.role_ids.clone();
                    assert(role_ids@ =~= self.role_ids@);
                    CheckStep::Ask(CheckQuery::ChannelOverrides { channel_id, role_ids })
                }
            },
            None => self.finish_with_roles(),
        }
    }

    /// Takes the database's answer to the last question and says what comes next.
    pub fn answer(&mut self, a: CheckAnswer) -> (step: CheckStep)
        requires
            accepts(old(self)@.stage, a@),
        ensures
            final(self)@ == next(old(self)@, a@).0,
            step@ == next(old(self)@, a@).1,
    {
        proof {
            use_type_invariant(&*self);
        }
        let key = self.permission.as_str();
        match a {
            CheckAnswer::HostUserId(h) => {
                if let Some(d) = check_layer1_hoster_bypass(self.user_id, h) {
                    return self.finish(d);
                }
                match self.space_id {
                    Some(space_id) => {
                        self.stage = CheckStage::AwaitMembership;
                        CheckStep::Ask(CheckQuery::IsSpaceMember { space_id, user_id: self.user_id })
                    },
                    None => self.finish(denied("No space provided")),
                }
            },
            CheckAnswer::IsSpaceMember(b) => {
                if let Some(d) = check_layer2_membership(b) {
                    return self.finish(d);
                }
                self.stage = CheckStage::AwaitRoleIds;
                let space_id = match self.space_id {
                    Some(s) => s,
                    None => 0,
                };
                CheckStep::Ask(CheckQuery::RoleIdsForUser { space_id, user_id: self.user_id })
            },
            CheckAnswer::RoleIds(ids) => {
                if ids.len() == 0 {
                    self.role_ids = ids;
                    let none: Vec<RolePermission> = Vec::new();
                    self.role_allowed = check_layer3_role_permissions(&none, key);
                    self.after_roles()
                } else {
                    self.stage = CheckStage::AwaitRolePermissions;
                    let query_ids = ids.clone();
                    assert(query_ids@ =~= ids@);
                    self.role_ids = ids;
                    CheckStep::Ask(CheckQuery::RolePermissions { role_ids: query_ids })
                }
            },
            CheckAnswer::RolePermissions(rps) => {
                self.role_allowed = check_layer3_role_permissions(&rps, key);
                self.after_roles()
            },
            CheckAnswer::ChannelOverrides(ovs) => {
                if let Some(d) = check_layer4_channel_override(&ovs, key) {
                    return self.finish(d);
                }
                self.stage = CheckStage::AwaitFeatureFlags;
                let channel_id = match self.channel_id {
                    Some(c) => c,
                    None => 0,
                };
                CheckStep::Ask(CheckQuery::ChannelFeatureFlags { channel_id })
            },
            CheckAnswer::ChannelFeatureFlags(flags) => {
                if let Some(d) = check_layer5_feature_flags(&flags, self.permission) {
                    return self.finish(d);
                }
                self.finish_with_roles()
            },
        }
    }
}

} // verus!
