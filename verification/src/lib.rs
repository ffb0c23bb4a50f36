pub mod authorization;
pub mod choice;
pub mod config;
pub mod ebas;
pub mod json;
pub mod notice;
pub mod purge;
pub mod purge_laws;
pub mod roster;
pub mod secrets;
pub mod sessions;
pub mod state;
pub mod text;
pub mod verify;
pub mod welcome;
pub mod welcome_laws;

use crate::config::Config;
use crate::ebas::{endpoint_text, membership_request, request_tree, OracleRequest};
use crate::authorization::{
    identity_of, member_purge_permission, verdict_ok, AuthorizationStep, Caller,
};
use crate::json::json_text;
use crate::purge::{step, PurgeAction, PurgeEvent, SessionView, MEMBER_LIMIT};
use crate::secrets::Secrets;
use crate::sessions::{delivered, find, table_wf, SessionTable};
use crate::state::State;
use crate::verify::{VerifyFlow, VerifyStage};
use crate::welcome::{
    handle_welcome_message, path_with, reconcile_step, text_with, wanted, DesiredAnnouncement,
    ReconcileAction, ReconcileEvent, ReconcileOrder, ReconcileStage,
};
use vstd::prelude::*;

verus! {

/// All that the automaton works with, handed to whoever needs it: what is
/// configured, the credentials, what is believed to exist on the platform
/// and where that belief is kept, and the purges under way. The first two
/// never change while the automaton runs; whoever changes the others holds
/// the context alone while doing so.
pub struct Context {
    pub config: Config,
    pub secrets: Secrets,
    pub state: State,
    pub state_path: String,
    pub sessions: SessionTable,
}

impl Context {
    /// What holds of every context: its table of sessions is sound.
    pub open spec fn wf(&self) -> bool {
        table_wf(self.sessions@)
    }

    /// The context of an automaton that starts with `state` and no purge
    /// under way.
    pub fn new(config: Config, secrets: Secrets, state: State, state_path: String) -> (r: Context)
        ensures
            r.wf(),
            r.config == config,
            r.secrets == secrets,
            r.state == state,
            r.state_path == state_path,
            r.sessions@ == Seq::<SessionView>::empty(),
    {
        Context { config, secrets, state, state_path, sessions: SessionTable::new() }
    }

    /// Carries one pass of the reconciler forward on the state that the
    /// context holds (see `handle_welcome_message`), and hands back with
    /// each action what the outside needs to do it: with `Post` and `Edit`
    /// the text of the wanted announcement, and with `Save` the file to
    /// write the state to, which is the one that the context was made
    /// with. The state to write is the one that the context then holds.
    pub fn reconcile(
        &mut self,
        desired: &Option<DesiredAnnouncement>,
        stage: ReconcileStage,
        event: &ReconcileEvent,
    ) -> (r: ReconcileOrder)
        requires
            old(self).wf(),
        ensures
            final(self).wf(),
            final(self).config == old(self).config,
            final(self).secrets == old(self).secrets,
            final(self).state_path == old(self).state_path,
            final(self).sessions == old(self).sessions,
            (final(self).state, r.stage, r.action) == reconcile_step(
                wanted(*desired),
                old(self).state,
                stage,
                event@,
            ),
            r.text == text_with(*desired, r.action),
            r.path == path_with(old(self).state_path, r.action),
    {
        let (next, action) = handle_welcome_message(desired, &mut self.state, stage, event);
        let text = match (action, desired) {
            (ReconcileAction::Post { .. }, Some(announcement)) => Some(
                announcement.content.clone(),
            ),
            (ReconcileAction::Edit { .. }, Some(announcement)) => Some(
                announcement.content.clone(),
            ),
            _ => None,
        };
        let path = match action {
            ReconcileAction::Save => Some(self.state_path.clone()),
            _ => None,
        };
        ReconcileOrder { stage: next, action, text, path }
    }

    /// Decides whether `caller` may run the purge, by the rules configured
    /// for it.
    pub fn authorize_purge(&self, caller: &Caller) -> (r: AuthorizationStep)
        requires
            identity_of(*caller) is Some,
        ensures
            match caller.member {
                Some(member) => r matches AuthorizationStep::Decided(verdict) && verdict_ok(
                    verdict,
                    self.config.member.permission.purge@,
                    identity_of(*caller)->0,
                    member.roles@,
                ),
                None => r matches AuthorizationStep::Fetch { guild, user } && guild == self.config.guild
                    && Some(user) == identity_of(*caller),
            },
    {
        member_purge_permission(
            self.config.member().permission().purge(),
            self.config.guild(),
            caller,
        )
    }

    /// Opens the purge of the configured role in the configured community
    /// under `correlation`, reading the roster in pages as large as the
    /// platform hands out. `None` while a purge is under way under that
    /// identifier.
    pub fn open_purge(&mut self, correlation: u64) -> (r: Option<PurgeAction>)
        requires
            old(self).wf(),
        ensures
            final(self).wf(),
            final(self).config == old(self).config,
            final(self).secrets == old(self).secrets,
            final(self).state == old(self).state,
            final(self).state_path == old(self).state_path,
            find(old(self).sessions@, correlation) is Some ==> r is None && final(self).sessions@
                == old(self).sessions@,
            find(old(self).sessions@, correlation) is None ==> r == Some(
                PurgeAction::Prompt { correlation, role: old(self).config.member.role },
            ) && final(self).sessions@ == old(self).sessions@.push(
                SessionView::opened(
                    correlation,
                    old(self).config.guild,
                    old(self).config.member.role,
                    MEMBER_LIMIT,
                ),
            ),
    {
        let guild = self.config.guild();
        let role = self.config.member().role();
        self.sessions.open(correlation, guild, role, MEMBER_LIMIT)
    }

    /// Hands `event` to the purge under `correlation` (see
    /// `SessionTable::deliver`).
    pub fn purge_event(&mut self, correlation: u64, event: &PurgeEvent) -> (r: Option<PurgeAction>)
        requires
            old(self).wf(),
        ensures
            final(self).wf(),
            final(self).config == old(self).config,
            final(self).secrets == old(self).secrets,
            final(self).state == old(self).state,
            final(self).state_path == old(self).state_path,
            final(self).sessions@ == delivered(old(self).sessions@, correlation, *event),
            r == match find(old(self).sessions@, correlation) {
                None => None,
                Some(i) => Some(step(old(self).sessions@[i], *event).1),
            },
    {
        self.sessions.deliver(correlation, event)
    }

    /// Begins the verification of `user` for the configured role.
    pub fn begin_verify(&self, user: u64) -> (r: VerifyFlow)
        ensures
            r == (VerifyFlow {
                guild: self.config.guild,
                user,
                role: self.config.member.role,
                stage: VerifyStage::Asking,
            }),
    {
        VerifyFlow::begin(self.config.guild(), user, self.config.member().role())
    }

    /// Writes the question for the configured registry whether `email`
    /// belongs to a member of the association this year.
    pub fn membership_request(&self, email: &str) -> (r: Option<OracleRequest>)
        ensures
            r is Some == endpoint_text(self.config.ebas.url@) is Some,
            r matches Some(request) ==> Some(request.address@) == endpoint_text(
                self.config.ebas.url@,
            ) && exists|year: i32|
                request.body@ == json_text(
                    #[trigger] request_tree(
                        self.secrets.ebas.id@,
                        self.secrets.ebas.api_key@,
                        year,
                        email@,
                    ),
                ),
    {
        membership_request(
            self.config.ebas().url().as_str(),
            self.secrets.ebas.id.as_str(),
            self.secrets.ebas.api_key.as_str(),
            email,
        )
    }
}

} // verus!
