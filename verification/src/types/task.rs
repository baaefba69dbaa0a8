//! Task and reward milestone records.

use crate::store::DupValue;
use vstd::prelude::*;

verus! {

/// Per-user marker recording that a reward/task condition has been reached.
#[derive(Debug, Clone, PartialEq, Eq)]
pub struct UserTask {
    pub user_addr: String,
}

/// Abstract value of a task milestone record.
pub ghost struct UserTaskV {
    pub user_addr: Seq<char>,
}

impl View for UserTask {
    type V = UserTaskV;

    open spec fn view(&self) -> UserTaskV {
        UserTaskV { user_addr: self.user_addr@ }
    }
}

impl DupValue for UserTask {
    fn dup(&self) -> (r: Self) {
        UserTask { user_addr: self.user_addr.clone() }
    }
}

} // verus!
