//! Users.

use crate::cell::Cell;
use crate::decode::optional_text;
use crate::decode::required_text;
use crate::decode::text_or_absent;
use crate::decode::Datum;
use crate::decode::Fault;
use crate::record::Record;
use crate::schema::Entity;
use vstd::prelude::*;

verus! {

/// One user of the application.
#[derive(Clone, Debug, PartialEq, Eq)]
pub struct User {
    pub id: String,
    pub email: String,
    pub name: String,
    pub department: Option<String>,
    pub preferred_homepage: Option<String>,
    pub created_at: String,
    pub updated_at: String,
}

impl Record for User {
    open spec fn entity() -> Entity {
        Entity::User
    }

    open spec fn fields(&self) -> Seq<Datum> {
        seq![
            Datum::Text(self.id@),
            Datum::Text(self.email@),
            Datum::Text(self.name@),
            text_or_absent(self.department),
            text_or_absent(self.preferred_homepage),
            Datum::Text(self.created_at@),
            Datum::Text(self.updated_at@),
        ]
    }

    fn entity_tag() -> (e: Entity) {
        Entity::User
    }

    fn from_row(row: &Vec<Cell>) -> (r: Result<User, Fault>) {
        let id = required_text(row, 0)?;
        let email = required_text(row, 1)?;
        let name = required_text(row, 2)?;
        let department = optional_text(row, 3);
        let preferred_homepage = optional_text(row, 4);
        let created_at = required_text(row, 5)?;
        let updated_at = required_text(row, 6)?;
        Ok(
            User {
                id,
                email,
                name,
                department,
                preferred_homepage,
                created_at,
                updated_at,
            },
        )
    }
}

} // verus!
