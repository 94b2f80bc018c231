//! The kind of operation that is under way on a record.
//!
//! An [`Action`] is a set of flags in three groups: what is done (its name),
//! where in the request it stands (its position), and on how many records (its
//! amount). An action with no flag of a group is taken to hold all of them.
use vstd::prelude::*;
use crate::collections::same_text;

verus! {

/// A record is created.
pub const CREATE: u32 = 1;

/// A record is updated.
pub const UPDATE: u32 = 1 << 1;

/// A record is deleted.
pub const DELETE: u32 = 1 << 2;

/// Records are looked up.
pub const FIND: u32 = 1 << 3;

/// The first of the records that fit is taken.
pub const FIRST: u32 = 1 << 4;

/// A record is updated, or created where there is none.
pub const UPSERT: u32 = 1 << 5;

/// Records are counted.
pub const COUNT: u32 = 1 << 6;

/// Numbers are drawn from the records.
pub const AGGREGATE: u32 = 1 << 7;

/// Records are grouped.
pub const GROUP_BY: u32 = 1 << 8;

/// A user signs in.
pub const SIGN_IN: u32 = 1 << 9;

/// The signed-in user is asked for.
pub const IDENTITY: u32 = 1 << 10;

/// The action stands at the top of a request.
pub const ENTRY: u32 = 1 << 16;

/// The action stands inside another.
pub const NESTED: u32 = 1 << 17;

/// The action is on one record.
pub const SINGLE: u32 = 1 << 24;

/// The action is on many records.
pub const MANY: u32 = 1 << 25;

/// Every flag that names what is done.
pub const ALL_NAMES: u32 = CREATE | UPDATE | DELETE | FIND | FIRST | UPSERT | COUNT | AGGREGATE
    | GROUP_BY | SIGN_IN | IDENTITY;

/// Every flag of position.
pub const ALL_POSITIONS: u32 = ENTRY | NESTED;

/// Every flag of amount.
pub const ALL_AMOUNTS: u32 = SINGLE | MANY;

/// The flags of the handler that finds one record by a unique key.
pub const FIND_UNIQUE_HANDLER: u32 = FIND | SINGLE | ENTRY;

/// The flags of the handler that finds the first record that fits.
pub const FIND_FIRST_HANDLER: u32 = FIND | FIRST | SINGLE | ENTRY;

/// The flags of the handler that finds all records that fit.
pub const FIND_MANY_HANDLER: u32 = FIND | MANY | ENTRY;

/// The flags of the handler that creates one record.
pub const CREATE_HANDLER: u32 = CREATE | SINGLE | ENTRY;

/// The flags of the handler that updates one record.
pub const UPDATE_HANDLER: u32 = UPDATE | SINGLE | ENTRY;

/// The flags of the handler that updates one record or creates it.
pub const UPSERT_HANDLER: u32 = UPSERT | SINGLE | ENTRY;

/// The flags of the handler that deletes one record.
pub const DELETE_HANDLER: u32 = DELETE | SINGLE | ENTRY;

/// The flags of the handler that creates many records.
pub const CREATE_MANY_HANDLER: u32 = CREATE | MANY | ENTRY;

/// The flags of the handler that updates many records.
pub const UPDATE_MANY_HANDLER: u32 = UPDATE | MANY | ENTRY;

/// The flags of the handler that deletes many records.
pub const DELETE_MANY_HANDLER: u32 = DELETE | MANY | ENTRY;

/// The flags of the handler that counts records.
pub const COUNT_HANDLER: u32 = COUNT | ENTRY;

/// The flags of the handler that draws numbers from records.
pub const AGGREGATE_HANDLER: u32 = AGGREGATE | ENTRY;

/// The flags of the handler that groups records.
pub const GROUP_BY_HANDLER: u32 = GROUP_BY | ENTRY;

/// The flags of the handler that signs a user in.
pub const SIGN_IN_HANDLER: u32 = SIGN_IN | ENTRY;

/// The flags of the handler that gives the signed-in user.
pub const IDENTITY_HANDLER: u32 = IDENTITY | ENTRY;

/// A set of action flags.
#[derive(Clone, Copy, Debug, PartialEq, Eq, Structural)]
pub struct Action {
    pub value: u32,
}

/// Whether the flags `action` meet the flags `matcher` within the group `group`:
/// they share a flag of the group, or one of the two holds none of it.
pub open spec fn group_meets(action: u32, matcher: u32, group: u32) -> bool {
    ||| action & group == 0
    ||| matcher & group == 0
    ||| action & matcher & group != 0
}

impl Action {
    /// The action with the flags `value`.
    pub fn from_u32(value: u32) -> (r: Action)
        ensures
            r.value == value,
    {
        Action { value }
    }

    /// The flags of the action.
    pub fn to_u32(&self) -> (r: u32)
        ensures
            r == self.value,
    {
        self.value
    }

    /// Whether the action meets `matcher` in each of the three groups.
    pub open spec fn meets(self, matcher: Action) -> bool {
        &&& group_meets(self.value, matcher.value, ALL_NAMES)
        &&& group_meets(self.value, matcher.value, ALL_POSITIONS)
        &&& group_meets(self.value, matcher.value, ALL_AMOUNTS)
    }

    /// Whether the action meets one of `matchers`.
    pub open spec fn passes_any(self, matchers: Seq<Action>) -> bool {
        exists|i: int| 0 <= i < matchers.len() && self.meets(#[trigger] matchers[i])
    }

    /// Whether the action meets `matcher` in each of the three groups.
    pub fn matches(&self, matcher: &Action) -> (r: bool)
        ensures
            r == self.meets(*matcher),
    {
        let a = self.value;
        let m = matcher.value;
        (a & ALL_NAMES == 0 || m & ALL_NAMES == 0 || a & m & ALL_NAMES != 0) && (a & ALL_POSITIONS
            == 0 || m & ALL_POSITIONS == 0 || a & m & ALL_POSITIONS != 0) && (a & ALL_AMOUNTS == 0
            || m & ALL_AMOUNTS == 0 || a & m & ALL_AMOUNTS != 0)
    }

    /// Whether the action meets one of `matchers`.
    pub fn passes(&self, matchers: &Vec<Action>) -> (r: bool)
        ensures
            r == self.passes_any(matchers@),
    {
        let mut i: usize = 0;
        while i < matchers.len()
            invariant
                i <= matchers.len(),
                forall|j: int| 0 <= j < i ==> !self.meets(#[trigger] matchers[j]),
            decreases matchers.len() - i,
        {
            if self.matches(&matchers[i]) {
                return true;
            }
            i += 1;
        }
        false
    }

    /// The flags of the request handler that goes by `name`.
    pub open spec fn handler_flags(name: Seq<char>) -> Option<u32> {
        if name == "findUnique"@ {
            Some(FIND_UNIQUE_HANDLER)
        } else if name == "findFirst"@ {
            Some(FIND_FIRST_HANDLER)
        } else if name == "findMany"@ {
            Some(FIND_MANY_HANDLER)
        } else if name == "create"@ {
            Some(CREATE_HANDLER)
        } else if name == "update"@ {
            Some(UPDATE_HANDLER)
        } else if name == "upsert"@ {
            Some(UPSERT_HANDLER)
        } else if name == "delete"@ {
            Some(DELETE_HANDLER)
        } else if name == "createMany"@ {
            Some(CREATE_MANY_HANDLER)
        } else if name == "updateMany"@ {
            Some(UPDATE_MANY_HANDLER)
        } else if name == "deleteMany"@ {
            Some(DELETE_MANY_HANDLER)
        } else if name == "count"@ {
            Some(COUNT_HANDLER)
        } else if name == "aggregate"@ {
            Some(AGGREGATE_HANDLER)
        } else if name == "groupBy"@ {
            Some(GROUP_BY_HANDLER)
        } else if name == "signIn"@ {
            Some(SIGN_IN_HANDLER)
        } else if name == "identity"@ {
            Some(IDENTITY_HANDLER)
        } else {
            None
        }
    }

    /// The action of the request handler that goes by `name`.
    pub fn handler_from_name(name: &str) -> (r: Option<Action>)
        ensures
            r == match Action::handler_flags(name@) {
                Some(value) => Some(Action { value }),
                None => None,
            },
    {
        if same_text(name, "findUnique") {
            Some(Action { value: FIND_UNIQUE_HANDLER })
        } else if same_text(name, "findFirst") {
            Some(Action { value: FIND_FIRST_HANDLER })
        } else if same_text(name, "findMany") {
            Some(Action { value: FIND_MANY_HANDLER })
        } else if same_text(name, "create") {
            Some(Action { value: CREATE_HANDLER })
        } else if same_text(name, "update") {
            Some(Action { value: UPDATE_HANDLER })
        } else if same_text(name, "upsert") {
            Some(Action { value: UPSERT_HANDLER })
        } else if same_text(name, "delete") {
            Some(Action { value: DELETE_HANDLER })
        } else if same_text(name, "createMany") {
            Some(Action { value: CREATE_MANY_HANDLER })
        } else if same_text(name, "updateMany") {
            Some(Action { value: UPDATE_MANY_HANDLER })
        } else if same_text(name, "deleteMany") {
            Some(Action { value: DELETE_MANY_HANDLER })
        } else if same_text(name, "count") {
            Some(Action { value: COUNT_HANDLER })
        } else if same_text(name, "aggregate") {
            Some(Action { value: AGGREGATE_HANDLER })
        } else if same_text(name, "groupBy") {
            Some(Action { value: GROUP_BY_HANDLER })
        } else if same_text(name, "signIn") {
            Some(Action { value: SIGN_IN_HANDLER })
        } else if same_text(name, "identity") {
            Some(Action { value: IDENTITY_HANDLER })
        } else {
            None
        }
    }
}

} // verus!
