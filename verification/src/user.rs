//! User records as the authentication core sees them, and the request and
//! response shapes the user endpoints exchange. The credential hash never
//! leaves this module except through `get_hash`.
use vstd::prelude::*;

verus! {

/// A stored user. The password field holds the bcrypt hash of the user's
/// password and is not exposed outside the login-verification step.
pub struct User {
    pub id: i32,
    pub active: bool,
    pub first_name: String,
    pub last_name: String,
    pub email: String,
    pub phone: Option<String>,
    password: String,
}

/// The mathematical content of a user record.
pub ghost struct UserV {
    pub id: int,
    pub active: bool,
    pub first_name: Seq<char>,
    pub last_name: Seq<char>,
    pub email: Seq<char>,
    pub phone: Option<Seq<char>>,
    pub password: Seq<char>,
}

impl View for User {
    type V = UserV;

    closed spec fn view(&self) -> UserV {
        UserV {
            id: self.id as int,
            active: self.active,
            first_name: self.first_name@,
            last_name: self.last_name@,
            email: self.email@,
            phone: match self.phone {
                Some(p) => Some(p@),
                None => None,
            },
            password: self.password@,
        }
    }
}

impl User {
    /// Builds a user record; the last argument is the credential hash.
    pub fn new(
        id: i32,
        active: bool,
        first_name: String,
        last_name: String,
        email: String,
        phone: Option<String>,
        password: String,
    ) -> (r: User)
        ensures
            r@ == (UserV {
                id: id as int,
                active,
                first_name: first_name@,
                last_name: last_name@,
                email: email@,
                phone: match phone {
                    Some(p) => Some(p@),
                    None => None,
                },
                password: password@,
            }),
    {
        User { id, active, first_name, last_name, email, phone, password }
    }

    /// The stored credential hash.
    pub fn get_hash(&self) -> (r: &String)
        ensures
            r@ == self@.password,
    {
        &self.password
    }

    /// The numeric identifier of the user.
    pub fn id(&self) -> (r: i32)
        ensures
            r as int == self@.id,
    {
        self.id
    }

    /// The user as presented to clients: everything but the credential hash.
    pub fn to_dto(&self) -> (r: UserDto)
        ensures
            r.id as int == self@.id,
            r.active == self@.active,
            r.first_name@ == self@.first_name,
            r.last_name@ == self@.last_name,
            r.email@ == self@.email,
            (r.phone matches Some(p) && self@.phone matches Some(q) && p@ == q) || (r.phone
                is None && self@.phone is None),
    {
        UserDto {
            id: self.id,
            active: self.active,
            first_name: self.first_name.clone(),
            last_name: self.last_name.clone(),
            email: self.email.clone(),
            phone: match &self.phone {
                Some(p) => Some(p.clone()),
                None => None,
            },
        }
    }
}

/// How a user record is presented to clients: the credential hash left out.
pub struct UserDto {
    pub id: i32,
    pub active: bool,
    pub first_name: String,
    pub last_name: String,
    pub email: String,
    pub phone: Option<String>,
}

/// The path parameter of the user-update endpoint.
pub struct UserUpdateQueryParams {
    pub id: i32,
}

/// What a caller sends to create a user.
pub struct CreateUserRequest {
    pub first_name: String,
    pub last_name: String,
    pub email: String,
    pub phone: Option<String>,
    pub password: String,
}

/// What a caller sends to update a user.
pub struct UpdateUserRequest {
    pub first_name: String,
    pub last_name: String,
    pub email: String,
    pub phone: Option<String>,
}

/// A user as echoed back by the update endpoint.
pub struct UserResponse {
    pub first_name: String,
    pub last_name: String,
    pub email: String,
    pub phone: Option<String>,
}

/// What a caller sends to register.
pub struct RegisterUserSchema {
    pub name: String,
    pub email: String,
    pub password: String,
}

/// What a caller sends to log in.
pub struct LoginUserSchema {
    pub email: String,
    pub password: String,
}

/// What a caller sends to log in by user name.
pub struct LoginRequest {
    pub user_name: String,
    pub password: String,
}

/// Whether an authenticated user may act on the user-scoped resource named
/// by a path parameter: only on their own.
pub fn user_owns_resource(auth_user_id: i32, path_user_id: i32) -> (r: bool)
    ensures
        r == (auth_user_id == path_user_id),
{
    auth_user_id == path_user_id
}

} // verus!
