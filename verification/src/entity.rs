//! The record types the interface administers, and their field layouts.

use vstd::prelude::*;

use crate::mode::Mode;

verus! {

/// A record type, selecting the field layout the generic list and form
/// engines work with.
#[derive(Debug, Copy, Clone, PartialEq, Eq, Structural)]
pub enum Entity {
    Post,
    User,
}

/// Error for an out-of-range field index.
#[derive(Debug)]
pub struct FieldError;

/// A form field of a post, in form order.
#[derive(Debug, Copy, Clone, PartialEq, Eq, Hash, Structural)]
pub enum PostField {
    Title,
    Summary,
    Content,
}

impl Default for PostField {
    /// The field focused when a post form opens.
    fn default() -> (f: PostField)
        ensures
            f == PostField::Title,
    {
        PostField::Title
    }
}

impl PostField {
    /// Position of this field in the form.
    pub open spec fn index_spec(self) -> int {
        match self {
            PostField::Title => 0,
            PostField::Summary => 1,
            PostField::Content => 2,
        }
    }

    /// Cyclic successor in form order.
    pub open spec fn next_spec(self) -> PostField {
        match self {
            PostField::Title => PostField::Summary,
            PostField::Summary => PostField::Content,
            PostField::Content => PostField::Title,
        }
    }

    /// Cyclic successor of this field: focus moves through the form and
    /// wraps back to the first field.
    pub fn next(&self) -> (r: PostField)
        ensures
            r == self.next_spec(),
    {
        match *self {
            PostField::Title => PostField::Summary,
            PostField::Summary => PostField::Content,
            PostField::Content => PostField::Title,
        }
    }

    /// The field at position `value`, if `value` is in range.
    pub fn try_from(value: usize) -> (r: Result<PostField, FieldError>)
        ensures
            match r {
                Ok(f) => value < 3 && f.index_spec() == value,
                Err(_) => value >= 3,
            },
    {
        match value {
            0 => Ok(PostField::Title),
            1 => Ok(PostField::Summary),
            2 => Ok(PostField::Content),
            _ => Err(FieldError),
        }
    }

    /// Display name of the field.
    pub open spec fn name_spec(self) -> Seq<char> {
        match self {
            PostField::Title => "Title"@,
            PostField::Summary => "Summary"@,
            PostField::Content => "Content"@,
        }
    }

    /// Display name of the field.
    pub fn name(&self) -> (r: String)
        ensures
            r@ == self.name_spec(),
    {
        match *self {
            PostField::Title => String::from_str("Title"),
            PostField::Summary => String::from_str("Summary"),
            PostField::Content => String::from_str("Content"),
        }
    }
}

/// A form field of a user, in form order.  The two password fields are a
/// confirmation pair; they are never shown in the list view.
#[derive(Debug, Copy, Clone, PartialEq, Eq, Hash, Structural)]
pub enum UserField {
    Name,
    Email,
    Password1,
    Password2,
}

impl Default for UserField {
    /// The field focused when a user form opens.
    fn default() -> (f: UserField)
        ensures
            f == UserField::Name,
    {
        UserField::Name
    }
}

impl UserField {
    /// Position of this field in the form.
    pub open spec fn index_spec(self) -> int {
        match self {
            UserField::Name => 0,
            UserField::Email => 1,
            UserField::Password1 => 2,
            UserField::Password2 => 3,
        }
    }

    /// Cyclic successor in form order.
    pub open spec fn next_spec(self) -> UserField {
        match self {
            UserField::Name => UserField::Email,
            UserField::Email => UserField::Password1,
            UserField::Password1 => UserField::Password2,
            UserField::Password2 => UserField::Name,
        }
    }

    /// Cyclic successor of this field: focus moves through the form and
    /// wraps back to the first field.
    pub fn next(&self) -> (r: UserField)
        ensures
            r == self.next_spec(),
    {
        match *self {
            UserField::Name => UserField::Email,
            UserField::Email => UserField::Password1,
            UserField::Password1 => UserField::Password2,
            UserField::Password2 => UserField::Name,
        }
    }

    /// The field at position `value`, if `value` is in range.
    pub fn try_from(value: usize) -> (r: Result<UserField, FieldError>)
        ensures
            match r {
                Ok(f) => value < 4 && f.index_spec() == value,
                Err(_) => value >= 4,
            },
    {
        match value {
            0 => Ok(UserField::Name),
            1 => Ok(UserField::Email),
            2 => Ok(UserField::Password1),
            3 => Ok(UserField::Password2),
            _ => Err(FieldError),
        }
    }

    /// Display name of the field.
    pub open spec fn name_spec(self) -> Seq<char> {
        match self {
            UserField::Name => "Name"@,
            UserField::Email => "Email"@,
            UserField::Password1 => "Password1"@,
            UserField::Password2 => "Password2"@,
        }
    }

    /// Display name of the field.
    pub fn name(&self) -> (r: String)
        ensures
            r@ == self.name_spec(),
    {
        match *self {
            UserField::Name => String::from_str("Name"),
            UserField::Email => String::from_str("Email"),
            UserField::Password1 => String::from_str("Password1"),
            UserField::Password2 => String::from_str("Password2"),
        }
    }
}

impl Entity {
    /// Number of text fields in the edit form.
    pub open spec fn form_field_count_spec(self) -> nat {
        match self {
            Entity::Post => 3,
            Entity::User => 4,
        }
    }

    /// Number of text fields in the edit form.
    pub fn form_field_count(&self) -> (n: usize)
        ensures
            n == self.form_field_count_spec(),
            1 <= n <= 4,
    {
        match *self {
            Entity::Post => 3,
            Entity::User => 4,
        }
    }

    /// Number of fields persisted per record; the rest of the form fields
    /// feed the credential instead of the record proper.
    pub open spec fn stored_field_count_spec(self) -> nat {
        match self {
            Entity::Post => 3,
            Entity::User => 2,
        }
    }

    /// Number of fields persisted per record.
    pub fn stored_field_count(&self) -> (n: usize)
        ensures
            n == self.stored_field_count_spec(),
            n <= self.form_field_count_spec(),
    {
        match *self {
            Entity::Post => 3,
            Entity::User => 2,
        }
    }

    /// Form positions of the password confirmation pair, if this record
    /// type carries a credential.
    pub open spec fn password_pair_spec(self) -> Option<(int, int)> {
        match self {
            Entity::Post => None,
            Entity::User => Some((2int, 3int)),
        }
    }

    /// Form positions of the password confirmation pair, if any.
    pub fn password_pair(&self) -> (r: Option<(usize, usize)>)
        ensures
            match r {
                Some(p) => self.password_pair_spec() == Some((p.0 as int, p.1 as int))
                    && p.0 < self.form_field_count_spec() && p.1 < self.form_field_count_spec(),
                None => self.password_pair_spec() is None,
            },
    {
        match *self {
            Entity::Post => None,
            Entity::User => Some((2, 3)),
        }
    }

    /// The record type administered under a tab, if any.
    pub fn of_mode(m: Mode) -> (r: Option<Entity>)
        ensures
            r == Entity::of_mode_spec(m),
    {
        match m {
            Mode::Posts => Some(Entity::Post),
            Mode::Tags => None,
            Mode::Users => Some(Entity::User),
        }
    }

    /// The record type administered under a tab, if any.
    pub open spec fn of_mode_spec(m: Mode) -> Option<Entity> {
        match m {
            Mode::Posts => Some(Entity::Post),
            Mode::Tags => None,
            Mode::Users => Some(Entity::User),
        }
    }

    /// Column headers of the list view, one per persisted field.
    pub open spec fn headers_spec(self) -> Seq<Seq<char>> {
        match self {
            Entity::Post => seq![
                PostField::Title.name_spec(),
                PostField::Summary.name_spec(),
                PostField::Content.name_spec(),
            ],
            Entity::User => seq![UserField::Name.name_spec(), UserField::Email.name_spec()],
        }
    }

    /// Column headers of the list view.
    pub fn headers(&self) -> (r: Vec<String>)
        ensures
            r.deep_view() == self.headers_spec(),
            r@.len() == self.stored_field_count_spec(),
    {
        let mut out: Vec<String> = Vec::new();
        match *self {
            Entity::Post => {
                let mut i: usize = 0;
                while i < 3
                    invariant
                        i <= 3,
                        out@.len() == i,
                        forall|j: int|
                            0 <= j < i ==> out@[j]@ == Entity::Post.headers_spec()[j],
                    decreases 3 - i,
                {
                    let f = match PostField::try_from(i) {
                        Ok(f) => f,
                        Err(_) => PostField::Title,
                    };
                    assert(f.index_spec() == i);
                    out.push(f.name());
                    i = i + 1;
                }
            },
            Entity::User => {
                out.push(UserField::Name.name());
                out.push(UserField::Email.name());
            },
        }
        proof {
            assert(out.deep_view() =~= self.headers_spec());
        }
        out
    }

    /// Column width percentages of the list view, one per persisted field.
    pub fn widths(&self) -> (r: Vec<u16>)
        ensures
            r@.len() == self.stored_field_count_spec(),
            match *self {
                Entity::Post => r@ == seq![20u16, 40u16, 40u16],
                Entity::User => r@ == seq![50u16, 50u16],
            },
    {
        let mut out: Vec<u16> = Vec::new();
        match *self {
            Entity::Post => {
                out.push(20);
                out.push(40);
                out.push(40);
            },
            Entity::User => {
                out.push(50);
                out.push(50);
            },
        }
        proof {
            match *self {
                Entity::Post => assert(out@ =~= seq![20u16, 40u16, 40u16]),
                Entity::User => assert(out@ =~= seq![50u16, 50u16]),
            }
        }
        out
    }
}

/// Cyclic closure of post-form focus: three steps return to the start.
pub proof fn lemma_post_field_cycles(f: PostField)
    ensures
        f.next_spec().next_spec().next_spec() == f,
{
}

/// Cyclic closure of user-form focus: four steps return to the start.
pub proof fn lemma_user_field_cycles(f: UserField)
    ensures
        f.next_spec().next_spec().next_spec().next_spec() == f,
{
}

} // verus!
