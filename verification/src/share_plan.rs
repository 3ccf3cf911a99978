//! Sharing a plan: a dialog that lists who the plan is shared with and
//! collects the addresses to share it with next.

use crate::text::{copy_strings, same_text, texts};
use vstd::prelude::*;
use vstd::string::*;

verus! {

/// The key that adds the typed address to the list.
pub const ENTER_KEY: &'static str = "Enter";

/// The share dialog's state.
pub struct SharePlan {
    pub dialog_open: bool,
    pub emails_to_share: Vec<String>,
    pub current_email: String,
    pub existing_shared_users: Vec<String>,
}

/// The events of the share dialog.
pub enum SharePlanEvent {
    ShareClicked,
    /// The addresses the plan is already shared with arrived.
    SharedUsersLoaded(Vec<String>),
    EmailChanged(String),
    /// A key was pressed in the address field; its name.
    KeyDown(String),
    SendClicked,
    DialogClosed,
}

/// What the share dialog asks its host to do.
pub enum SharePlanAction {
    Nothing,
    /// Fetch the addresses the plan is already shared with.
    FetchSharedUsers,
    /// Share the plan with these addresses.
    SharePlan(Vec<String>),
}

impl SharePlan {
    /// A closed dialog with nothing typed or listed.
    pub fn new() -> (s: SharePlan)
        ensures
            !s.dialog_open,
            s.emails_to_share@.len() == 0,
            s.current_email@.len() == 0,
            s.existing_shared_users@.len() == 0,
    {
        SharePlan {
            dialog_open: false,
            emails_to_share: Vec::new(),
            current_email: String::new(),
            existing_shared_users: Vec::new(),
        }
    }

    /// The addresses the dialog lists: those the plan is shared with, then
    /// those to share it with.
    pub fn display_emails(&self) -> (r: Vec<String>)
        ensures
            texts(r@) == texts(self.existing_shared_users@) + texts(self.emails_to_share@),
    {
        let mut r = copy_strings(&self.existing_shared_users);
        let ghost first = r@;
        let mut i: usize = 0;
        while i < self.emails_to_share.len()
            invariant
                first == self.existing_shared_users@,
                i <= self.emails_to_share.len(),
                r@ == first + self.emails_to_share@.subrange(0, i as int),
            decreases self.emails_to_share.len() - i,
        {
            r.push(self.emails_to_share[i].clone());
            i = i + 1;
        }
        proof {
            assert(self.emails_to_share@.subrange(0, i as int) =~= self.emails_to_share@);
            assert(texts(r@) =~= texts(self.existing_shared_users@) + texts(self.emails_to_share@));
        }
        r
    }

    /// Sending is possible once an address has been added.
    pub fn send_disabled(&self) -> (b: bool)
        ensures
            b == (self.emails_to_share@.len() == 0),
    {
        self.emails_to_share.len() == 0
    }

    /// Takes an event of the dialog; gives what the host is to do.
    pub fn handle(&mut self, event: SharePlanEvent) -> (action: SharePlanAction)
        ensures
            match event {
                SharePlanEvent::ShareClicked => {
                    &&& final(self).dialog_open
                    &&& final(self).emails_to_share@ == old(self).emails_to_share@
                    &&& final(self).current_email@ == old(self).current_email@
                    &&& final(self).existing_shared_users@ == old(self).existing_shared_users@
                    &&& action is FetchSharedUsers
                },
                SharePlanEvent::SharedUsersLoaded(emails) => {
                    &&& final(self).dialog_open == old(self).dialog_open
                    &&& final(self).emails_to_share@ == old(self).emails_to_share@
                    &&& final(self).current_email@ == old(self).current_email@
                    &&& final(self).existing_shared_users@ == emails@
                    &&& action is Nothing
                },
                SharePlanEvent::EmailChanged(value) => {
                    &&& final(self).dialog_open == old(self).dialog_open
                    &&& final(self).emails_to_share@ == old(self).emails_to_share@
                    &&& final(self).current_email@ == value@
                    &&& final(self).existing_shared_users@ == old(self).existing_shared_users@
                    &&& action is Nothing
                },
                SharePlanEvent::KeyDown(key) => {
                    &&& final(self).dialog_open == old(self).dialog_open
                    &&& final(self).existing_shared_users@ == old(self).existing_shared_users@
                    &&& action is Nothing
                    &&& if key@ == ENTER_KEY@ {
                        &&& texts(final(self).emails_to_share@) == texts(
                            old(self).emails_to_share@,
                        ).push(old(self).current_email@)
                        &&& final(self).current_email@.len() == 0
                    } else {
                        &&& final(self).emails_to_share@ == old(self).emails_to_share@
                        &&& final(self).current_email@ == old(self).current_email@
                    }
                },
                SharePlanEvent::SendClicked => {
                    &&& !final(self).dialog_open
                    &&& final(self).emails_to_share@ == old(self).emails_to_share@
                    &&& final(self).current_email@ == old(self).current_email@
                    &&& final(self).existing_shared_users@ == old(self).existing_shared_users@
                    &&& action matches SharePlanAction::SharePlan(emails) && emails@
                        == old(self).emails_to_share@
                },
                SharePlanEvent::DialogClosed => {
                    &&& !final(self).dialog_open
                    &&& final(self).emails_to_share@ == old(self).emails_to_share@
                    &&& final(self).current_email@ == old(self).current_email@
                    &&& final(self).existing_shared_users@ == old(self).existing_shared_users@
                    &&& action is Nothing
                },
            },
    {
        match event {
            SharePlanEvent::ShareClicked => {
                self.dialog_open = true;
                SharePlanAction::FetchSharedUsers
            },
            SharePlanEvent::SharedUsersLoaded(emails) => {
                self.existing_shared_users = emails;
                SharePlanAction::Nothing
            },
            SharePlanEvent::EmailChanged(value) => {
                self.current_email = value;
                SharePlanAction::Nothing
            },
            SharePlanEvent::KeyDown(key) => {
                if same_text(key.as_str(), ENTER_KEY) {
                    let email = self.current_email.clone();
                    let ghost before = self.emails_to_share@;
                    self.emails_to_share.push(email);
                    proof {
                        assert(texts(self.emails_to_share@) =~= texts(before).push(email@));
                    }
                    self.current_email = String::new();
                }
                SharePlanAction::Nothing
            },
            SharePlanEvent::SendClicked => {
                let emails = copy_strings(&self.emails_to_share);
                self.dialog_open = false;
                SharePlanAction::SharePlan(emails)
            },
            SharePlanEvent::DialogClosed => {
                self.dialog_open = false;
                SharePlanAction::Nothing
            },
        }
    }
}

} // verus!
