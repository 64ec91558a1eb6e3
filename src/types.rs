use vstd::prelude::*;

verus! {

/// What the user has typed into the sign-in form.
#[derive(Clone, Debug)]
pub struct LoginInfo {
    pub email: String,
    pub password: String,
}

impl Default for LoginInfo {
    fn default() -> (r: LoginInfo)
        ensures
            r.email@ == Seq::<char>::empty(),
            r.password@ == Seq::<char>::empty(),
    {
        LoginInfo { email: String::new(), password: String::new() }
    }
}

/// Request body of a sign-in call: the form values under `user`.
#[derive(Clone, Debug)]
pub struct LoginInfoWrapper {
    pub user: LoginInfo,
}

/// The signed-in user as the backend describes them.
#[derive(Clone, Debug)]
pub struct UserInfo {
    pub email: String,
    pub token: String,
    pub username: String,
    pub bio: Option<String>,
    pub image: Option<String>,
}

/// Response body of a successful sign-in call.
#[derive(Clone, Debug)]
pub struct UserInfoWrapper {
    pub user: UserInfo,
}

/// Public profile of an author.
#[derive(Clone, Debug)]
pub struct ProfileInfo {
    pub username: String,
    pub bio: Option<String>,
    pub image: String,
    pub following: bool,
}

/// Why a call to the backend failed. Every kind of failure is carried to
/// the view as it came.
#[derive(Clone, Debug)]
pub enum Error {
    /// The request could not be sent or no response came back.
    RequestError,
    /// The response body could not be decoded.
    DeserializeError,
    /// The backend refused the credentials.
    Unauthorized,
    /// The backend rejected the request, with its messages.
    UnprocessableEntity(Vec<String>),
    /// The backend failed.
    InternalServerError,
}

/// The one line shown for a failure that carries no messages of its own.
pub open spec fn error_line(e: Error) -> Seq<char> {
    match e {
        Error::RequestError => "Request error"@,
        Error::DeserializeError => "Invalid response"@,
        Error::Unauthorized => "Unauthorized"@,
        Error::UnprocessableEntity(_) => Seq::empty(),
        Error::InternalServerError => "Internal server error"@,
    }
}

/// The lines shown for a failure: the backend's own messages where it gave
/// any, else one line naming the kind of failure.
pub open spec fn error_lines(e: Error) -> Seq<Seq<char>> {
    match e {
        Error::UnprocessableEntity(m) => m@.map_values(|s: String| s@),
        _ => seq![error_line(e)],
    }
}

/// The failure that a response with a non-success `status` stands for.
pub open spec fn status_failure(status: u16, messages: Vec<String>) -> Error {
    if status == 401 {
        Error::Unauthorized
    } else if status == 422 {
        Error::UnprocessableEntity(messages)
    } else if 500 <= status <= 599 {
        Error::InternalServerError
    } else {
        Error::RequestError
    }
}

/// The failure that a response with a non-success `status` stands for;
/// `messages` are the backend's own, kept where it rejected the request.
pub fn status_error(status: u16, messages: Vec<String>) -> (r: Error)
    ensures
        r == status_failure(status, messages),
{
    if status == 401 {
        Error::Unauthorized
    } else if status == 422 {
        Error::UnprocessableEntity(messages)
    } else if 500 <= status && status <= 599 {
        Error::InternalServerError
    } else {
        Error::RequestError
    }
}

/// The line shown for one of the backend's messages about a form field.
pub open spec fn field_line(field: Seq<char>, message: Seq<char>) -> Seq<char> {
    field + seq![' '] + message
}

/// The lines shown for the backend's messages about `field`, in order.
pub fn field_messages(field: &String, messages: &Vec<String>) -> (r: Vec<String>)
    ensures
        r@.len() == messages@.len(),
        forall|i: int| 0 <= i < r@.len() ==> #[trigger] r@[i]@ == field_line(field@, messages@[i]@),
{
    let mut out: Vec<String> = Vec::new();
    let mut i: usize = 0;
    while i < messages.len()
        invariant
            i <= messages@.len(),
            out@.len() == i,
            forall|j: int| 0 <= j < i ==> #[trigger] out@[j]@ == field_line(field@, messages@[j]@),
        decreases messages@.len() - i,
    {
        proof {
            reveal_strlit(" ");
        }
        let line = field.clone().concat(" ").concat(messages[i].as_str());
        out.push(line);
        i = i + 1;
    }
    out
}

impl Error {
    /// The lines to show for this failure.
    pub fn messages(&self) -> (r: Vec<String>)
        ensures
            r@.map_values(|s: String| s@) == error_lines(*self),
    {
        let mut out: Vec<String> = Vec::new();
        match self {
            Error::UnprocessableEntity(m) => {
                let mut i: usize = 0;
                while i < m.len()
                    invariant
                        i <= m@.len(),
                        out@.len() == i,
                        forall|j: int| 0 <= j < i ==> #[trigger] out@[j]@ == m@[j]@,
                    decreases m@.len() - i,
                {
                    out.push(m[i].clone());
                    i = i + 1;
                }
            },
            Error::RequestError => {
                out.push(String::from_str("Request error"));
            },
            Error::DeserializeError => {
                out.push(String::from_str("Invalid response"));
            },
            Error::Unauthorized => {
                out.push(String::from_str("Unauthorized"));
            },
            Error::InternalServerError => {
                out.push(String::from_str("Internal server error"));
            },
        }
        proof {
            assert(out@.map_values(|s: String| s@) =~= error_lines(*self));
        }
        out
    }
}

} // verus!
