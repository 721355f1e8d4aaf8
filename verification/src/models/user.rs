//! Users and the rows they are stored in.

use crate::errors::{MyError, MyErrorView};
use crate::row::{text_value, uuid_value, Row, RowView, Value, ValueView};
use vstd::prelude::*;

verus! {

/// A user as the `users` table holds it. The service only reads users.
#[derive(Debug)]
pub struct User {
    pub id: u128,
    pub name: String,
}

/// Mathematical model of [`User`].
pub struct UserView {
    pub id: u128,
    pub name: Seq<char>,
}

impl View for User {
    type V = UserView;

    open spec fn view(&self) -> UserView {
        UserView { id: self.id, name: self.name@ }
    }
}

impl Clone for User {
    fn clone(&self) -> (copy: Self)
        ensures
            copy@ == self@,
    {
        User { id: self.id, name: self.name.clone() }
    }
}

/// Two users are the same user when they have the same identifier.
impl PartialEq for User {
    fn eq(&self, other: &Self) -> (same: bool) {
        self.id == other.id
    }
}

impl Eq for User {

}

impl vstd::std_specs::cmp::PartialEqSpecImpl for User {
    open spec fn obeys_eq_spec() -> bool {
        true
    }

    open spec fn eq_spec(&self, other: &Self) -> bool {
        self.id == other.id
    }
}

/// The user that a row of the `users` table holds: its `uuid` and `name`
/// columns. `None` when one of them is missing, null, or of another type.
/// Further columns are ignored.
pub open spec fn user_of_row(row: RowView) -> Option<UserView> {
    match (uuid_value(row, "uuid"@), text_value(row, "name"@)) {
        (Some(id), Some(name)) => Some(UserView { id, name }),
        _ => None,
    }
}

/// The row in which the `users` table holds `user`.
pub open spec fn row_of_user(user: UserView) -> RowView {
    map![
        "uuid"@ => ValueView::Uuid(user.id),
        "name"@ => ValueView::Text(user.name),
    ]
}

/// A user is read back unchanged from the row that holds it.
pub proof fn lemma_user_of_its_row(user: UserView)
    ensures
        user_of_row(row_of_user(user)) == Some(user),
{
    reveal_strlit("uuid");
    reveal_strlit("name");
    assert("uuid"@[0] != "name"@[0]);
}

impl User {
    /// Reads a user from a row of the `users` table. Fails with
    /// `MappingError` exactly when the row does not hold a user.
    pub fn from_row(row: &Row) -> (result: Result<User, MyError>)
        ensures
            match result {
                Ok(user) => user_of_row(row@) == Some(user@),
                Err(e) => user_of_row(row@) is None && e@ == MyErrorView::MappingError,
            },
    {
        let id: u128 = row.get_uuid("uuid")?;
        let name = row.get_text("name")?;
        Ok(User { id, name })
    }

    /// The row in which the `users` table holds this user.
    pub fn to_row(&self) -> (row: Row)
        ensures
            row@ == row_of_user(self@),
    {
        let mut row = Row::new();
        row.push("uuid", Value::Uuid(self.id));
        row.push("name", Value::Text(self.name.clone()));
        proof {
            reveal_strlit("uuid");
            reveal_strlit("name");
            assert("uuid"@[0] != "name"@[0]);
            assert(row@ =~= row_of_user(self@));
        }
        row
    }
}

} // verus!
